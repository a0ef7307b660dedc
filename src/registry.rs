//! The fixed table of chat commands.
use vstd::prelude::*;
use crate::args::SlotKind;
use crate::text::chars_eq_str;

verus! {

/// The handler a command runs.
#[derive(Clone, Copy, Debug, PartialEq, Eq)]
pub enum CommandKind {
    Jump,
    Goto,
    Alias,
    Tp,
    Kill,
    Time,
    Spawn,
    Players,
    Help,
    Health,
    Build,
    Tell,
    KillNpcs,
    Object,
    Light,
    Lantern,
}

/// A command that a user can run from server chat.
pub struct ChatCommand {
    /// The keyword used to invoke the command, omitting the leading '/'.
    pub keyword: String,
    /// The slots its arguments are read into.
    pub arg_fmt: Vec<SlotKind>,
    /// A message that explains how the command is used.
    pub help_string: String,
    /// The handler run when the command is executed.
    pub handler: CommandKind,
}

/// The commands in table order.
pub open spec fn command_kinds() -> Seq<CommandKind> {
    seq![
        CommandKind::Jump,
        CommandKind::Goto,
        CommandKind::Alias,
        CommandKind::Tp,
        CommandKind::Kill,
        CommandKind::Time,
        CommandKind::Spawn,
        CommandKind::Players,
        CommandKind::Help,
        CommandKind::Health,
        CommandKind::Build,
        CommandKind::Tell,
        CommandKind::KillNpcs,
        CommandKind::Object,
        CommandKind::Light,
        CommandKind::Lantern,
    ]
}

pub open spec fn keyword_of(k: CommandKind) -> Seq<char> {
    match k {
        CommandKind::Jump => "jump"@,
        CommandKind::Goto => "goto"@,
        CommandKind::Alias => "alias"@,
        CommandKind::Tp => "tp"@,
        CommandKind::Kill => "kill"@,
        CommandKind::Time => "time"@,
        CommandKind::Spawn => "spawn"@,
        CommandKind::Players => "players"@,
        CommandKind::Help => "help"@,
        CommandKind::Health => "health"@,
        CommandKind::Build => "build"@,
        CommandKind::Tell => "tell"@,
        CommandKind::KillNpcs => "killnpcs"@,
        CommandKind::Object => "object"@,
        CommandKind::Light => "light"@,
        CommandKind::Lantern => "lantern"@,
    }
}

pub open spec fn help_of(k: CommandKind) -> Seq<char> {
    match k {
        CommandKind::Jump => "/jump <dx> <dy> <dz> : Offset your current position"@,
        CommandKind::Goto => "/goto <x> <y> <z> : Teleport to a position"@,
        CommandKind::Alias => "/alias <name> : Change your alias"@,
        CommandKind::Tp => "/tp <alias> : Teleport to another player"@,
        CommandKind::Kill => "/kill : Kill yourself"@,
        CommandKind::Time => "/time : Set the time of day"@,
        CommandKind::Spawn => "/spawn <alignment> <entity> [amount] : Spawn a test entity"@,
        CommandKind::Players => "/players : Show the online players list"@,
        CommandKind::Help => "/help : Displays help details for commands."@,
        CommandKind::Health => "/health : Set your current health"@,
        CommandKind::Build => "/build : Toggles build mode on and off"@,
        CommandKind::Tell => "/tell <alias> <message>: Send a message to another player"@,
        CommandKind::KillNpcs => "/killnpcs : Kill the NPCs"@,
        CommandKind::Object => "/object [Name]: Spawn an object"@,
        CommandKind::Light => "/light <opt:  <<cr> <cg> <cb>> <<ox> <oy> <oz>> <<strenght>>>: Spawn entity with light"@,
        CommandKind::Lantern => "/lantern : adds/remove light near player"@,
    }
}

pub open spec fn grammar_of(k: CommandKind) -> Seq<SlotKind> {
    match k {
        CommandKind::Jump | CommandKind::Goto => seq![SlotKind::Fixed, SlotKind::Fixed, SlotKind::Fixed],
        CommandKind::Spawn => seq![SlotKind::Word, SlotKind::Species, SlotKind::Word],
        CommandKind::Health => seq![SlotKind::Int],
        CommandKind::Build | CommandKind::Kill | CommandKind::Players | CommandKind::KillNpcs
        | CommandKind::Lantern => seq![],
        CommandKind::Tell => seq![SlotKind::Word, SlotKind::Rest],
        CommandKind::Light => seq![
            SlotKind::Fixed,
            SlotKind::Fixed,
            SlotKind::Fixed,
            SlotKind::Fixed,
            SlotKind::Fixed,
            SlotKind::Fixed,
            SlotKind::Fixed,
        ],
        _ => seq![SlotKind::Word],
    }
}

/// Whether `c` is the table's entry for `k`.
pub open spec fn describes(c: ChatCommand, k: CommandKind) -> bool {
    &&& c.keyword@ == keyword_of(k)
    &&& c.help_string@ == help_of(k)
    &&& c.arg_fmt@ == grammar_of(k)
    &&& c.handler == k
}

/// Whether `cs` is the command table.
pub open spec fn is_registry(cs: Seq<ChatCommand>) -> bool {
    &&& cs.len() == command_kinds().len()
    &&& forall|i: int| 0 <= i < cs.len() ==> describes(#[trigger] cs[i], command_kinds()[i])
}

impl ChatCommand {
    /// Creates a new chat command.
    pub fn new(keyword: &str, arg_fmt: Vec<SlotKind>, help_string: &str, handler: CommandKind) -> (r: ChatCommand)
        ensures
            r.keyword@ == keyword@,
            r.arg_fmt@ == arg_fmt@,
            r.help_string@ == help_string@,
            r.handler == handler,
    {
        ChatCommand {
            keyword: keyword.to_owned(),
            arg_fmt,
            help_string: help_string.to_owned(),
            handler,
        }
    }
}

fn grammar(k: CommandKind) -> (r: Vec<SlotKind>)
    ensures
        r@ == grammar_of(k),
{
    let r = match k {
        CommandKind::Jump | CommandKind::Goto => vec![SlotKind::Fixed, SlotKind::Fixed, SlotKind::Fixed],
        CommandKind::Spawn => vec![SlotKind::Word, SlotKind::Species, SlotKind::Word],
        CommandKind::Health => vec![SlotKind::Int],
        CommandKind::Build | CommandKind::Kill | CommandKind::Players | CommandKind::KillNpcs
        | CommandKind::Lantern => vec![],
        CommandKind::Tell => vec![SlotKind::Word, SlotKind::Rest],
        CommandKind::Light => vec![
            SlotKind::Fixed,
            SlotKind::Fixed,
            SlotKind::Fixed,
            SlotKind::Fixed,
            SlotKind::Fixed,
            SlotKind::Fixed,
            SlotKind::Fixed,
        ],
        _ => vec![SlotKind::Word],
    };
    assert(r@ =~= grammar_of(k));
    r
}

/// The entry for one command.
pub fn command_for(k: CommandKind) -> (r: ChatCommand)
    ensures
        describes(r, k),
{
    let (kw, help) = match k {
        CommandKind::Jump => ("jump", "/jump <dx> <dy> <dz> : Offset your current position"),
        CommandKind::Goto => ("goto", "/goto <x> <y> <z> : Teleport to a position"),
        CommandKind::Alias => ("alias", "/alias <name> : Change your alias"),
        CommandKind::Tp => ("tp", "/tp <alias> : Teleport to another player"),
        CommandKind::Kill => ("kill", "/kill : Kill yourself"),
        CommandKind::Time => ("time", "/time : Set the time of day"),
        CommandKind::Spawn => ("spawn", "/spawn <alignment> <entity> [amount] : Spawn a test entity"),
        CommandKind::Players => ("players", "/players : Show the online players list"),
        CommandKind::Help => ("help", "/help : Displays help details for commands."),
        CommandKind::Health => ("health", "/health : Set your current health"),
        CommandKind::Build => ("build", "/build : Toggles build mode on and off"),
        CommandKind::Tell => ("tell", "/tell <alias> <message>: Send a message to another player"),
        CommandKind::KillNpcs => ("killnpcs", "/killnpcs : Kill the NPCs"),
        CommandKind::Object => ("object", "/object [Name]: Spawn an object"),
        CommandKind::Light => ("light", "/light <opt:  <<cr> <cg> <cb>> <<ox> <oy> <oz>> <<strenght>>>: Spawn entity with light"),
        CommandKind::Lantern => ("lantern", "/lantern : adds/remove light near player"),
    };
    ChatCommand::new(kw, grammar(k), help, k)
}

/// The command table, in declaration order.
pub fn chat_commands() -> (r: Vec<ChatCommand>)
    ensures
        is_registry(r@),
{
    let kinds = vec![
        CommandKind::Jump,
        CommandKind::Goto,
        CommandKind::Alias,
        CommandKind::Tp,
        CommandKind::Kill,
        CommandKind::Time,
        CommandKind::Spawn,
        CommandKind::Players,
        CommandKind::Help,
        CommandKind::Health,
        CommandKind::Build,
        CommandKind::Tell,
        CommandKind::KillNpcs,
        CommandKind::Object,
        CommandKind::Light,
        CommandKind::Lantern,
    ];
    assert(kinds@ =~= command_kinds());
    let mut r: Vec<ChatCommand> = Vec::new();
    let mut i: usize = 0;
    while i < kinds.len()
        invariant
            kinds@ == command_kinds(),
            i <= kinds.len(),
            r@.len() == i,
            forall|j: int| 0 <= j < i ==> describes(#[trigger] r@[j], command_kinds()[j]),
        decreases kinds.len() - i,
    {
        r.push(command_for(kinds[i]));
        i += 1;
    }
    r
}

/// Whether the keyword of a command is `q`, compared exactly.
pub fn keyword_is(c: &ChatCommand, q: &Vec<char>) -> (r: bool)
    ensures
        r == (c.keyword@ == q@),
{
    let ok = chars_eq_str(q, c.keyword.as_str());
    ok
}

/// The first command whose keyword is `q`.
pub fn lookup<'a>(commands: &'a Vec<ChatCommand>, q: &Vec<char>) -> (r: Option<&'a ChatCommand>)
    ensures
        r.is_some() == (exists|i: int| 0 <= i < commands@.len() && (#[trigger] commands@[i]).keyword@ == q@),
        r.is_some() ==> r.unwrap().keyword@ == q@,
        r.is_some() ==> exists|i: int|
            0 <= i < commands@.len() && commands@[i] == *r.unwrap() && (forall|j: int|
                0 <= j < i ==> (#[trigger] commands@[j]).keyword@ != q@),
{
    let mut i: usize = 0;
    while i < commands.len()
        invariant
            i <= commands.len(),
            forall|j: int| 0 <= j < i ==> (#[trigger] commands@[j]).keyword@ != q@,
        decreases commands.len() - i,
    {
        if keyword_is(&commands[i], q) {
            assert(commands@[i as int] == commands[i as int]);
            return Some(&commands[i]);
        }
        i += 1;
    }
    None
}


/// No two commands of the table share a keyword.
pub proof fn lemma_keywords_distinct(i: int, j: int)
    requires
        0 <= i < command_kinds().len(),
        0 <= j < command_kinds().len(),
        i != j,
    ensures
        keyword_of(command_kinds()[i]) != keyword_of(command_kinds()[j]),
{
    reveal_strlit("jump");
    reveal_strlit("goto");
    reveal_strlit("alias");
    reveal_strlit("tp");
    reveal_strlit("kill");
    reveal_strlit("time");
    reveal_strlit("spawn");
    reveal_strlit("players");
    reveal_strlit("help");
    reveal_strlit("health");
    reveal_strlit("build");
    reveal_strlit("tell");
    reveal_strlit("killnpcs");
    reveal_strlit("object");
    reveal_strlit("light");
    reveal_strlit("lantern");
    let a = keyword_of(command_kinds()[i]);
    let b = keyword_of(command_kinds()[j]);
    if a.len() == b.len() {
        assert(a[0] != b[0] || a[1] != b[1] || a[2] != b[2] || a[3] != b[3] || a[a.len() - 1] != b[b.len() - 1]);
    }
}

/// Looking up the keyword of any command in the table finds that command.
pub proof fn lemma_lookup_registered(cs: Seq<ChatCommand>, k: int, r: ChatCommand, i: int)
    requires
        is_registry(cs),
        0 <= k < cs.len(),
        0 <= i < cs.len(),
        cs[i] == r,
        r.keyword@ == cs[k].keyword@,
    ensures
        i == k,
        r.handler == command_kinds()[k],
        r.keyword@ == keyword_of(command_kinds()[k]),
{
    assert(describes(cs[i], command_kinds()[i]));
    assert(describes(cs[k], command_kinds()[k]));
    if i != k {
        lemma_keywords_distinct(i, k);
    }
}

} // verus!
