//! Running a line of chat: the keyword picks a command, its grammar reads
//! the arguments, and its handler acts.
use vstd::prelude::*;
use crate::args::{Value, text_at, get_text, parse_args, parsed_as};
use crate::clock::{handle_time, time_effect, naive_time_from_str, naive_time_parse_from_str};
use crate::handlers::{
    only_told, jump_effect, goto_effect, kill_effect, health_effect, alias_effect, build_effect,
    lantern_effect, handle_jump, handle_goto, handle_kill, handle_health, handle_alias,
    handle_build, handle_lantern,
};
use crate::message::push_str;
use crate::players::{
    tp_effect, tell_effect, players_text, killnpcs_effect, handle_tp, handle_tell, handle_players,
    handle_killnpcs,
};
use crate::registry::{ChatCommand, CommandKind, command_kinds, help_of, chat_commands, lookup};
use crate::spawn::{spawn_effect, object_effect, light_effect, handle_spawn, handle_object, handle_light};
use crate::text::{chars_eq_str, chars_of, token, rest_from, token_at, rest_at};
use crate::world::{World, NoteKind};

verus! {

/// One private note per command, each with its help text, in table order.
pub open spec fn help_notes(e: usize) -> Seq<(usize, NoteKind, Seq<char>)> {
    command_kinds().map_values(|k: CommandKind| (e, NoteKind::Private, help_of(k)))
}

pub open spec fn help_effect(o: World, w: World, e: usize, p: Seq<Option<Value>>) -> bool {
    match text_at(p, 0) {
        Some(t) => if t == "list"@ {
            w.same_state(&o) && w.sent(&o, help_notes(e))
        } else if t == "time"@ {
            only_told(o, w, e, "You can change the time by typing:\n/time night|dawn|day|dusk|HH:MM"@)
        } else {
            only_told(o, w, e, "There's currently not any detailed help section for '"@ + t + "'"@)
        },
        None => only_told(o, w, e, "Specify the section you would like help with. e.g. /help time"@),
    }
}

/// Shows help: the list of commands, the time formats, or a hint.
pub fn handle_help(
    world: &mut World,
    entity: usize,
    args: &Vec<char>,
    parsed: &Vec<Option<Value>>,
    action: &ChatCommand,
)
    requires
        old(world).wf(),
    ensures
        final(world).wf(),
        help_effect(*old(world), *final(world), entity, parsed@),
{
    match get_text(parsed, 0) {
        Some(t) => {
            let tc = chars_of(t.as_str());
            if chars_eq_str(&tc, "list") {
                let cmds = chat_commands();
                let ghost o = *world;
                let mut i: usize = 0;
                assert(world.outbox@ =~= o.outbox@);
                assert(help_notes(entity).take(0) =~= Seq::empty());
                while i < cmds.len()
                    invariant
                        o.wf(),
                        crate::registry::is_registry(cmds@),
                        i <= cmds.len(),
                        world.wf(),
                        world.same_state(&o),
                        world.sent(&o, help_notes(entity).take(i as int)),
                    decreases cmds.len() - i,
                {
                    let ghost before = *world;
                    world.notify(entity, NoteKind::Private, cmds[i].help_string.clone());
                    proof {
                        let x = (entity, NoteKind::Private, cmds@[i as int].help_string@);
                        World::lemma_sent_then(*world, before, o, help_notes(entity).take(i as int), seq![x]);
                        assert(help_notes(entity).take(i as int) + seq![x] =~= help_notes(entity).take(i + 1));
                    }
                    i += 1;
                }
                assert(help_notes(entity).take(cmds.len() as int) =~= help_notes(entity));
            } else if chars_eq_str(&tc, "time") {
                world.notify(
                    entity,
                    NoteKind::Private,
                    "You can change the time by typing:\n/time night|dawn|day|dusk|HH:MM".to_owned(),
                );
            } else {
                let mut m = "There's currently not any detailed help section for '".to_owned();
                push_str(&mut m, t.as_str());
                push_str(&mut m, "'");
                world.notify(entity, NoteKind::Private, m);
            }
        },
        None => {
            world.notify(
                entity,
                NoteKind::Private,
                "Specify the section you would like help with. e.g. /help time".to_owned(),
            );
        },
    }
}

/// What running handler `k` does to `o`, giving `w`.
pub open spec fn effect_of(
    k: CommandKind,
    o: World,
    w: World,
    e: usize,
    args: Seq<char>,
    p: Seq<Option<Value>>,
    help: Seq<char>,
) -> bool {
    match k {
        CommandKind::Jump => jump_effect(o, w, e, p, help),
        CommandKind::Goto => goto_effect(o, w, e, p, help),
        CommandKind::Alias => alias_effect(o, w, e, p, help),
        CommandKind::Tp => tp_effect(o, w, e, p, help),
        CommandKind::Kill => kill_effect(o, w, e),
        CommandKind::Time => match text_at(p, 0) {
            Some(t) => time_effect(
                o,
                w,
                e,
                Some(t),
                naive_time_from_str(t),
                naive_time_parse_from_str(t, "%H:%M"@),
            ),
            None => time_effect(o, w, e, None, None, None),
        },
        CommandKind::Spawn => spawn_effect(o, w, e, p, help),
        CommandKind::Players => only_told(o, w, e, players_text(o)),
        CommandKind::Help => help_effect(o, w, e, p),
        CommandKind::Health => health_effect(o, w, e, p),
        CommandKind::Build => build_effect(o, w, e),
        CommandKind::Tell => tell_effect(o, w, e, args, p, help),
        CommandKind::KillNpcs => killnpcs_effect(o, w, e),
        CommandKind::Object => object_effect(o, w, e, p),
        CommandKind::Light => light_effect(o, w, e, p),
        CommandKind::Lantern => lantern_effect(o, w, e),
    }
}

/// What running command `c` on the argument text `args` does.
pub open spec fn executed(c: ChatCommand, o: World, w: World, e: usize, args: Seq<char>) -> bool {
    exists|p: Seq<Option<Value>>|
        parsed_as(c.arg_fmt@, args, p) && #[trigger] effect_of(c.handler, o, w, e, args, p, c.help_string@)
}

impl ChatCommand {
    /// Reads the arguments with the command's grammar and runs its handler.
    pub fn execute(&self, world: &mut World, entity: usize, args: &Vec<char>)
        requires
            old(world).wf(),
        ensures
            final(world).wf(),
            executed(*self, *old(world), *final(world), entity, args@),
    {
        let parsed = parse_args(&self.arg_fmt, args);
        match self.handler {
            CommandKind::Jump => handle_jump(world, entity, args, &parsed, self),
            CommandKind::Goto => handle_goto(world, entity, args, &parsed, self),
            CommandKind::Alias => handle_alias(world, entity, args, &parsed, self),
            CommandKind::Tp => handle_tp(world, entity, args, &parsed, self),
            CommandKind::Kill => handle_kill(world, entity, args, &parsed, self),
            CommandKind::Time => handle_time(world, entity, args, &parsed, self),
            CommandKind::Spawn => handle_spawn(world, entity, args, &parsed, self),
            CommandKind::Players => handle_players(world, entity, args, &parsed, self),
            CommandKind::Help => handle_help(world, entity, args, &parsed, self),
            CommandKind::Health => handle_health(world, entity, args, &parsed, self),
            CommandKind::Build => handle_build(world, entity, args, &parsed, self),
            CommandKind::Tell => handle_tell(world, entity, args, &parsed, self),
            CommandKind::KillNpcs => handle_killnpcs(world, entity, args, &parsed, self),
            CommandKind::Object => handle_object(world, entity, args, &parsed, self),
            CommandKind::Light => handle_light(world, entity, args, &parsed, self),
            CommandKind::Lantern => handle_lantern(world, entity, args, &parsed, self),
        }
        assert(effect_of(self.handler, *old(world), *world, entity, args@, parsed@, self.help_string@));
    }
}

/// The keyword of a chat line: its first token, or nothing.
pub open spec fn keyword_in(s: Seq<char>) -> Seq<char> {
    match token(s, 0) {
        Some(k) => k,
        None => Seq::empty(),
    }
}

/// The arguments of a chat line: everything from its second token on.
pub open spec fn args_in(s: Seq<char>) -> Seq<char> {
    match rest_from(s, 1) {
        Some(r) => r,
        None => Seq::empty(),
    }
}

/// Runs one line of chat, its leading '/' already taken off, for `invoker`.
pub fn dispatch(world: &mut World, commands: &Vec<ChatCommand>, invoker: usize, line: &str)
    requires
        old(world).wf(),
    ensures
        final(world).wf(),
        !(exists|i: int| 0 <= i < commands@.len() && (#[trigger] commands@[i]).keyword@ == keyword_in(line@))
            ==> only_told(
            *old(world),
            *final(world),
            invoker,
            "Unknown command '/"@ + keyword_in(line@) + "'. Type '/help' for available commands"@,
        ),
        (exists|i: int| 0 <= i < commands@.len() && (#[trigger] commands@[i]).keyword@ == keyword_in(line@))
            ==> exists|i: int|
            0 <= i < commands@.len() && commands@[i].keyword@ == keyword_in(line@) && (forall|j: int|
                0 <= j < i ==> (#[trigger] commands@[j]).keyword@ != keyword_in(line@)) && executed(
                #[trigger] commands@[i],
                *old(world),
                *final(world),
                invoker,
                args_in(line@),
            ),
{
    let s = chars_of(line);
    let kw = match token_at(&s, 0) {
        Some(k) => k,
        None => Vec::new(),
    };
    assert(kw@ == keyword_in(s@));
    match lookup(commands, &kw) {
        Some(c) => {
            let rest = match rest_at(&s, 1) {
                Some(r) => r,
                None => Vec::new(),
            };
            assert(rest@ == args_in(s@));
            c.execute(world, invoker, &rest);
        },
        None => {
            let mut m = "Unknown command '/".to_owned();
            let kws = crate::message::string_of(&kw);
            push_str(&mut m, kws.as_str());
            push_str(&mut m, "'. Type '/help' for available commands");
            world.notify(invoker, NoteKind::Private, m);
        },
    }
}

} // verus!
