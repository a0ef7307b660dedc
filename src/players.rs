//! Commands that look players up by alias, or walk all entities.
use vstd::prelude::*;
use crate::args::{Value, text_at, get_text};
use crate::message::{decimal, push_decimal, push_str, push_chars};
use crate::registry::ChatCommand;
use crate::text::{token_start, skip_word, token_start_at, skip_word_at, slice_chars};
use crate::world::{World, NoteKind, Part, Stats, HealthSource};
use crate::handlers::{only_told, placed};

verus! {

/// The alias of entity `j`, if it is a player.
pub open spec fn alias_at(w: World, j: int) -> Option<Seq<char>> {
    if 0 <= j < w.len() && w.alias@[j].is_some() {
        Some(w.alias@[j].unwrap()@)
    } else {
        None
    }
}

/// Entity `i` is the first whose alias is `a`.
pub open spec fn first_alias_at(w: World, a: Seq<char>, i: int) -> bool {
    &&& 0 <= i < w.len()
    &&& alias_at(w, i) == Some(a)
    &&& forall|j: int| 0 <= j < i ==> #[trigger] alias_at(w, j) != Some(a)
}

/// The first entity whose alias is `a`.
pub open spec fn first_alias(w: World, a: Seq<char>) -> Option<usize> {
    if exists|i: int| first_alias_at(w, a, i) {
        Some((choose|i: int| first_alias_at(w, a, i)) as usize)
    } else {
        None
    }
}

pub proof fn lemma_first_alias_unique(w: World, a: Seq<char>, i: int)
    requires
        first_alias_at(w, a, i),
    ensures
        first_alias(w, a) == Some(i as usize),
{
    let k = choose|k: int| first_alias_at(w, a, k);
    assert(first_alias_at(w, a, k));
    if k < i {
        assert(alias_at(w, k) != Some(a));
    } else if i < k {
        assert(alias_at(w, i) != Some(a));
    }
}

/// Finds the first player whose alias is `a`.
pub fn find_alias(world: &World, a: &String) -> (r: Option<usize>)
    requires
        world.wf(),
    ensures
        r == first_alias(*world, a@),
{
    let mut i: usize = 0;
    while i < world.alias.len()
        invariant
            world.wf(),
            i <= world.len(),
            forall|j: int| 0 <= j < i ==> #[trigger] alias_at(*world, j) != Some(a@),
        decreases world.alias.len() - i,
    {
        match &world.alias[i] {
            Some(b) => {
                if *b == *a {
                    proof {
                        lemma_first_alias_unique(*world, a@, i as int);
                    }
                    return Some(i);
                }
            },
            None => {},
        }
        i += 1;
    }
    proof {
        if exists|k: int| first_alias_at(*world, a@, k) {
            let k = choose|k: int| first_alias_at(*world, a@, k);
            assert(alias_at(*world, k) != Some(a@));
        }
    }
    None
}

pub open spec fn tp_effect(
    o: World,
    w: World,
    e: usize,
    p: Seq<Option<Value>>,
    help: Seq<char>,
) -> bool {
    match text_at(p, 0) {
        Some(a) => match o.pos_of(e) {
            Some(_) => match first_alias(o, a) {
                Some(t) => match o.pos_of(t) {
                    Some(tp) => placed(o, w, e, tp),
                    None => only_told(o, w, e, "Unable to teleport to player '"@ + a + "'!"@),
                },
                None => w.same_state(&o) && w.sent(
                    &o,
                    seq![
                        (e, NoteKind::Private, "Player '"@ + a + "' not found!"@),
                        (e, NoteKind::Private, help),
                    ],
                ),
            },
            None => only_told(o, w, e, "You have no position!"@),
        },
        None => only_told(o, w, e, help),
    }
}

fn quoted(pre: &str, a: &String, post: &str) -> (r: String)
    ensures
        r@ == pre@ + a@ + post@,
{
    let mut m = pre.to_owned();
    push_str(&mut m, a.as_str());
    push_str(&mut m, post);
    m
}

/// Teleports the invoker to the player with the alias given.
pub fn handle_tp(
    world: &mut World,
    entity: usize,
    args: &Vec<char>,
    parsed: &Vec<Option<Value>>,
    action: &ChatCommand,
)
    requires
        old(world).wf(),
    ensures
        final(world).wf(),
        tp_effect(*old(world), *final(world), entity, parsed@, action.help_string@),
{
    match get_text(parsed, 0) {
        Some(a) => {
            let target = find_alias(world, &a);
            if entity < world.pos.len() && world.pos[entity].is_some() {
                match target {
                    Some(t) => match world.pos[t] {
                        Some(tp) => {
                            world.pos.set(entity, Some(tp));
                            world.force_update.set(entity, true);
                        },
                        None => {
                            world.notify(
                                entity,
                                NoteKind::Private,
                                quoted("Unable to teleport to player '", &a, "'!"),
                            );
                        },
                    },
                    None => {
                        let ghost w0 = *world;
                        let m = quoted("Player '", &a, "' not found!");
                        let ghost m1 = m@;
                        world.notify(entity, NoteKind::Private, m);
                        let ghost w1 = *world;
                        world.notify(entity, NoteKind::Private, action.help_string.clone());
                        proof {
                            World::lemma_sent_then(
                                *world,
                                w1,
                                w0,
                                seq![(entity, NoteKind::Private, m1)],
                                seq![(entity, NoteKind::Private, action.help_string@)],
                            );
                            assert(seq![(entity, NoteKind::Private, m1)] + seq![
                                (entity, NoteKind::Private, action.help_string@),
                            ] =~= seq![
                                (entity, NoteKind::Private, m1),
                                (entity, NoteKind::Private, action.help_string@),
                            ]);
                        }
                    },
                }
            } else {
                world.notify(entity, NoteKind::Private, "You have no position!".to_owned());
            }
        },
        None => {
            world.notify(entity, NoteKind::Private, action.help_string.clone());
        },
    }
}

/// What follows the alias in the text of a `tell`.
pub open spec fn tell_body(args: Seq<char>) -> Seq<char> {
    args.subrange(skip_word(args, token_start(args, 0)), args.len() as int)
}

pub open spec fn tell_effect(
    o: World,
    w: World,
    e: usize,
    args: Seq<char>,
    p: Seq<Option<Value>>,
    help: Seq<char>,
) -> bool {
    match text_at(p, 0) {
        Some(a) => match first_alias(o, a) {
            Some(t) => if t != e {
                if tell_body(args).len() > 1 {
                    match o.alias_of(e) {
                        Some(name) => w.same_state(&o) && w.sent(
                            &o,
                            seq![
                                (t, NoteKind::Tell, name + " tells you:"@ + tell_body(args)),
                                (e, NoteKind::Tell, "You tell "@ + a + ":"@ + tell_body(args)),
                            ],
                        ),
                        None => only_told(o, w, e, "You do not exist!"@),
                    }
                } else {
                    only_told(o, w, e, "You really should say something to "@ + a + "!"@)
                }
            } else {
                only_told(o, w, e, "Don't be crazy!"@)
            },
            None => only_told(o, w, e, "Player '"@ + a + "' not found!"@),
        },
        None => only_told(o, w, e, help),
    }
}

/// Sends a private message to the player with the alias given.
pub fn handle_tell(
    world: &mut World,
    entity: usize,
    args: &Vec<char>,
    parsed: &Vec<Option<Value>>,
    action: &ChatCommand,
)
    requires
        old(world).wf(),
    ensures
        final(world).wf(),
        tell_effect(*old(world), *final(world), entity, args@, parsed@, action.help_string@),
{
    match get_text(parsed, 0) {
        Some(a) => {
            let target = find_alias(world, &a);
            let st = token_start_at(args, 0);
            let en = skip_word_at(args, st);
            let body = slice_chars(args, en, args.len());
            match target {
                Some(t) => {
                    if t != entity {
                        if body.len() > 1 {
                            let name = if entity < world.alias.len() {
                                match &world.alias[entity] {
                                    Some(n) => Some(n.clone()),
                                    None => None,
                                }
                            } else {
                                None
                            };
                            match name {
                                Some(n) => {
                                    let mut to_target = n.clone();
                                    push_str(&mut to_target, " tells you:");
                                    push_chars(&mut to_target, &body);
                                    let mut to_self = "You tell ".to_owned();
                                    push_str(&mut to_self, a.as_str());
                                    push_str(&mut to_self, ":");
                                    push_chars(&mut to_self, &body);
                                    assert(to_self@ =~= "You tell "@ + a@ + ":"@ + body@);
                                    let ghost m1 = to_target@;
                                    let ghost m2 = to_self@;
                                    let ghost w0 = *world;
                                    world.notify(t, NoteKind::Tell, to_target);
                                    let ghost w1 = *world;
                                    world.notify(entity, NoteKind::Tell, to_self);
                                    proof {
                                        World::lemma_sent_then(
                                            *world,
                                            w1,
                                            w0,
                                            seq![(t, NoteKind::Tell, m1)],
                                            seq![(entity, NoteKind::Tell, m2)],
                                        );
                                        assert(seq![(t, NoteKind::Tell, m1)] + seq![
                                            (entity, NoteKind::Tell, m2),
                                        ] =~= seq![
                                            (t, NoteKind::Tell, m1),
                                            (entity, NoteKind::Tell, m2),
                                        ]);
                                    }
                                },
                                None => {
                                    world.notify(
                                        entity,
                                        NoteKind::Private,
                                        "You do not exist!".to_owned(),
                                    );
                                },
                            }
                        } else {
                            world.notify(
                                entity,
                                NoteKind::Private,
                                quoted("You really should say something to ", &a, "!"),
                            );
                        }
                    } else {
                        world.notify(entity, NoteKind::Private, "Don't be crazy!".to_owned());
                    }
                },
                None => {
                    world.notify(entity, NoteKind::Private, quoted("Player '", &a, "' not found!"));
                },
            }
        },
        None => {
            world.notify(entity, NoteKind::Private, action.help_string.clone());
        },
    }
}

/// The aliases of the first `n` entities, in entity order.
pub open spec fn aliases_upto(w: World, n: nat) -> Seq<Seq<char>>
    decreases n,
{
    if n == 0 {
        Seq::empty()
    } else {
        let prev = aliases_upto(w, (n - 1) as nat);
        match alias_at(w, n - 1) {
            Some(a) => prev.push(a),
            None => prev,
        }
    }
}

/// `parts` joined with `sep` between them.
pub open spec fn join(parts: Seq<Seq<char>>, sep: Seq<char>) -> Seq<char>
    decreases parts.len(),
{
    if parts.len() == 0 {
        Seq::empty()
    } else if parts.len() == 1 {
        parts[0]
    } else {
        join(parts.drop_last(), sep) + sep + parts.last()
    }
}

/// The reply of `players`: a count, then the aliases one to a line.
pub open spec fn players_text(w: World) -> Seq<char> {
    let names = aliases_upto(w, w.len());
    decimal(names.len()) + " online players: \n"@ + join(names, ",\n"@)
}

/// Lists the online players.
pub fn handle_players(
    world: &mut World,
    entity: usize,
    args: &Vec<char>,
    parsed: &Vec<Option<Value>>,
    action: &ChatCommand,
)
    requires
        old(world).wf(),
    ensures
        final(world).wf(),
        only_told(*old(world), *final(world), entity, players_text(*old(world))),
{
    let mut body = String::new();
    let mut count: u64 = 0;
    let mut i: usize = 0;
    while i < world.alias.len()
        invariant
            world.wf(),
            i <= world.len(),
            count == aliases_upto(*world, i as nat).len(),
            count <= i,
            body@ == join(aliases_upto(*world, i as nat), ",\n"@),
        decreases world.alias.len() - i,
    {
        match &world.alias[i] {
            Some(a) => {
                if count > 0 {
                    push_str(&mut body, ",\n");
                }
                push_str(&mut body, a.as_str());
                count += 1;
                assert(aliases_upto(*world, (i + 1) as nat).drop_last() == aliases_upto(*world, i as nat));
                assert(body@ =~= join(aliases_upto(*world, (i + 1) as nat), ",\n"@));
            },
            None => {},
        }
        i += 1;
    }
    let mut m = String::new();
    push_decimal(&mut m, count);
    push_str(&mut m, " online players: \n");
    push_str(&mut m, body.as_str());
    assert(m@ =~= players_text(*world));
    world.notify(entity, NoteKind::Private, m);
}

/// Entity `i` holds stats and is no player.
pub open spec fn is_npc(w: World, i: int) -> bool {
    w.stats@[i].is_some() && w.alias@[i].is_none()
}

/// How many of the first `n` entities are NPCs.
pub open spec fn npc_count(w: World, n: nat) -> nat
    decreases n,
{
    if n == 0 {
        0
    } else {
        npc_count(w, (n - 1) as nat) + if is_npc(w, n - 1) { 1nat } else { 0nat }
    }
}

/// The stats an NPC is left with by `killnpcs`.
pub open spec fn slain() -> Stats {
    Stats { health: 0, last_change: Some(HealthSource::Command) }
}

pub open spec fn killnpcs_effect(o: World, w: World, e: usize) -> bool {
    let n = npc_count(o, o.len());
    &&& w.stats@.len() == o.stats@.len()
    &&& forall|i: int|
        0 <= i < o.len() ==> #[trigger] w.stats@[i] == if is_npc(o, i) {
            Some(slain())
        } else {
            o.stats@[i]
        }
    &&& w.same_except(&o, Part::Stats)
    &&& w.pos@ == o.pos@
    &&& w.force_update@ == o.force_update@
    &&& w.told(
        &o,
        e,
        if n > 0 {
            "Destroyed "@ + decimal(n) + " NPCs."@
        } else {
            "No NPCs on server."@
        },
    )
}

/// Sets the health of every NPC to zero.
pub fn handle_killnpcs(
    world: &mut World,
    entity: usize,
    args: &Vec<char>,
    parsed: &Vec<Option<Value>>,
    action: &ChatCommand,
)
    requires
        old(world).wf(),
    ensures
        final(world).wf(),
        killnpcs_effect(*old(world), *final(world), entity),
{
    let ghost o = *world;
    let mut count: u64 = 0;
    let mut i: usize = 0;
    while i < world.stats.len()
        invariant
            world.wf(),
            o.wf(),
            world.len() == o.len(),
            i <= world.len(),
            count == npc_count(o, i as nat),
            count <= i,
            world.stats@.len() == o.stats@.len(),
            forall|j: int|
                0 <= j < i ==> #[trigger] world.stats@[j] == if is_npc(o, j) {
                    Some(slain())
                } else {
                    o.stats@[j]
                },
            forall|j: int| i <= j < o.len() ==> #[trigger] world.stats@[j] == o.stats@[j],
            world.same_except(&o, Part::Stats),
            world.pos@ == o.pos@,
            world.force_update@ == o.force_update@,
            world.outbox@ == o.outbox@,
        decreases world.stats.len() - i,
    {
        if world.stats[i].is_some() && world.alias[i].is_none() {
            world.stats.set(i, Some(Stats { health: 0, last_change: Some(HealthSource::Command) }));
            count += 1;
        }
        i += 1;
    }
    let m = if count > 0 {
        let mut m = "Destroyed ".to_owned();
        push_decimal(&mut m, count);
        push_str(&mut m, " NPCs.");
        m
    } else {
        "No NPCs on server.".to_owned()
    };
    world.notify(entity, NoteKind::Private, m);
}

/// `killnpcs` leaves the stats of every player as they were.
pub proof fn lemma_killnpcs_spares_players(o: World, w: World, e: usize, i: int)
    requires
        killnpcs_effect(o, w, e),
        0 <= i < o.len(),
        o.alias@[i].is_some(),
    ensures
        w.stats@[i] == o.stats@[i],
{
    assert(w.stats@[i] == o.stats@[i]);
}

} // verus!
