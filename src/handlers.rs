//! One handler per command. Each either changes the world and reports, or
//! only reports why it did not.
use vstd::prelude::*;
use crate::args::{Value, fixed_at, int_at, text_at, get_fixed, get_int, get_text};
use crate::registry::ChatCommand;
use crate::world::{World, Fixed3, Part, NoteKind, Stats, HealthSource, LightEmitter, note_is};

verus! {

pub open spec fn fits_i64(v: int) -> bool {
    i64::MIN <= v <= i64::MAX
}

/// `p` moved by `(dx, dy, dz)`, where every coordinate stays representable.
pub open spec fn moved(p: Fixed3, dx: i64, dy: i64, dz: i64) -> Option<Fixed3> {
    if fits_i64(p.x + dx) && fits_i64(p.y + dy) && fits_i64(p.z + dz) {
        Some(Fixed3 { x: (p.x + dx) as i64, y: (p.y + dy) as i64, z: (p.z + dz) as i64 })
    } else {
        None
    }
}

/// `w` is `o` with entity `e` placed at `p` and marked for resending.
pub open spec fn placed(o: World, w: World, e: usize, p: Fixed3) -> bool {
    &&& w.pos@ == o.pos@.update(e as int, Some(p))
    &&& w.force_update@ == o.force_update@.update(e as int, true)
    &&& w.same_except(&o, Part::Pos)
    &&& w.outbox@ == o.outbox@
}

/// Nothing changed but one private message to `e`.
pub open spec fn only_told(o: World, w: World, e: usize, text: Seq<char>) -> bool {
    w.same_state(&o) && w.told(&o, e, text)
}

pub open spec fn jump_effect(
    o: World,
    w: World,
    e: usize,
    p: Seq<Option<Value>>,
    help: Seq<char>,
) -> bool {
    match (fixed_at(p, 0), fixed_at(p, 1), fixed_at(p, 2)) {
        (Some(dx), Some(dy), Some(dz)) => match o.pos_of(e) {
            Some(c) => match moved(c, dx, dy, dz) {
                Some(n) => placed(o, w, e, n),
                None => only_told(o, w, e, "That position is out of reach!"@),
            },
            None => only_told(o, w, e, "You have no position!"@),
        },
        _ => only_told(o, w, e, help),
    }
}

fn tell_private(world: &mut World, e: usize, text: &str)
    ensures
        only_told(*old(world), *final(world), e, text@),
        final(world).wf() == old(world).wf(),
{
    world.notify(e, NoteKind::Private, text.to_owned());
}

fn tell_help(world: &mut World, e: usize, action: &ChatCommand)
    ensures
        only_told(*old(world), *final(world), e, action.help_string@),
        final(world).wf() == old(world).wf(),
{
    world.notify(e, NoteKind::Private, action.help_string.clone());
}

fn place(world: &mut World, e: usize, p: Fixed3)
    requires
        old(world).wf(),
        e < old(world).len(),
    ensures
        final(world).wf(),
        placed(*old(world), *final(world), e, p),
{
    world.pos.set(e, Some(p));
    world.force_update.set(e, true);
}

fn add_i64(a: i64, b: i64) -> (r: Option<i64>)
    ensures
        r.is_some() == fits_i64(a + b),
        r.is_some() ==> r.unwrap() == a + b,
{
    a.checked_add(b)
}

/// Moves the invoker by the three offsets given.
pub fn handle_jump(
    world: &mut World,
    entity: usize,
    args: &Vec<char>,
    parsed: &Vec<Option<Value>>,
    action: &ChatCommand,
)
    requires
        old(world).wf(),
    ensures
        final(world).wf(),
        jump_effect(*old(world), *final(world), entity, parsed@, action.help_string@),
{
    match (get_fixed(parsed, 0), get_fixed(parsed, 1), get_fixed(parsed, 2)) {
        (Some(dx), Some(dy), Some(dz)) => {
            let cur = if entity < world.pos.len() {
                world.pos[entity]
            } else {
                None
            };
            match cur {
                Some(c) => match (add_i64(c.x, dx), add_i64(c.y, dy), add_i64(c.z, dz)) {
                    (Some(x), Some(y), Some(z)) => place(world, entity, Fixed3 { x, y, z }),
                    _ => tell_private(world, entity, "That position is out of reach!"),
                },
                None => tell_private(world, entity, "You have no position!"),
            }
        },
        _ => tell_help(world, entity, action),
    }
}

/// A jump moves a positioned invoker by exactly the offsets given and marks
/// it for resending, sending nothing; an invoker without a position is only
/// told so, once. Offsets that would leave the representable range are the
/// one exception.
pub proof fn lemma_jump_moves_by_offsets(
    o: World,
    w: World,
    e: usize,
    p: Seq<Option<Value>>,
    help: Seq<char>,
    dx: i64,
    dy: i64,
    dz: i64,
)
    requires
        o.wf(),
        jump_effect(o, w, e, p, help),
        fixed_at(p, 0) == Some(dx),
        fixed_at(p, 1) == Some(dy),
        fixed_at(p, 2) == Some(dz),
    ensures
        o.pos_of(e) is Some && moved(o.pos_of(e).unwrap(), dx, dy, dz) is Some ==> {
            &&& w.pos@[e as int] == Some(
                Fixed3 {
                    x: (o.pos_of(e).unwrap().x + dx) as i64,
                    y: (o.pos_of(e).unwrap().y + dy) as i64,
                    z: (o.pos_of(e).unwrap().z + dz) as i64,
                },
            )
            &&& w.force_update@[e as int]
            &&& w.outbox@ == o.outbox@
        },
        o.pos_of(e) is None ==> {
            &&& w.same_state(&o)
            &&& w.outbox@.len() == o.outbox@.len() + 1
            &&& w.outbox@.last().text@ == "You have no position!"@
        },
{
    if o.pos_of(e) is None {
        assert(note_is(w.outbox@[o.outbox@.len() as int + 0], e, NoteKind::Private, "You have no position!"@));
    }
}

pub open spec fn goto_effect(
    o: World,
    w: World,
    e: usize,
    p: Seq<Option<Value>>,
    help: Seq<char>,
) -> bool {
    match o.pos_of(e) {
        Some(_) => match (fixed_at(p, 0), fixed_at(p, 1), fixed_at(p, 2)) {
            (Some(x), Some(y), Some(z)) => placed(o, w, e, Fixed3 { x, y, z }),
            _ => only_told(o, w, e, help),
        },
        None => only_told(o, w, e, "You don't have any position!"@),
    }
}

/// Moves the invoker to the position given.
pub fn handle_goto(
    world: &mut World,
    entity: usize,
    args: &Vec<char>,
    parsed: &Vec<Option<Value>>,
    action: &ChatCommand,
)
    requires
        old(world).wf(),
    ensures
        final(world).wf(),
        goto_effect(*old(world), *final(world), entity, parsed@, action.help_string@),
{
    let has_pos = entity < world.pos.len() && world.pos[entity].is_some();
    if has_pos {
        match (get_fixed(parsed, 0), get_fixed(parsed, 1), get_fixed(parsed, 2)) {
            (Some(x), Some(y), Some(z)) => place(world, entity, Fixed3 { x, y, z }),
            _ => tell_help(world, entity, action),
        }
    } else {
        tell_private(world, entity, "You don't have any position!");
    }
}

/// `w` is `o` with the stats of `e` set to `s`, and nothing sent.
pub open spec fn restated(o: World, w: World, e: usize, s: Stats) -> bool {
    &&& w.stats@ == o.stats@.update(e as int, Some(s))
    &&& w.same_except(&o, Part::Stats)
    &&& w.pos@ == o.pos@
    &&& w.force_update@ == o.force_update@
    &&& w.outbox@ == o.outbox@
}

pub open spec fn kill_effect(o: World, w: World, e: usize) -> bool {
    match o.stats_of(e) {
        Some(_) => restated(o, w, e, Stats { health: 0, last_change: Some(HealthSource::Suicide) }),
        None => w.same_state(&o) && w.outbox@ == o.outbox@,
    }
}

fn set_stats(world: &mut World, e: usize, s: Stats)
    requires
        old(world).wf(),
        e < old(world).len(),
    ensures
        final(world).wf(),
        restated(*old(world), *final(world), e, s),
{
    world.stats.set(e, Some(s));
}

/// Sets the invoker's health to zero, if it has stats.
pub fn handle_kill(
    world: &mut World,
    entity: usize,
    args: &Vec<char>,
    parsed: &Vec<Option<Value>>,
    action: &ChatCommand,
)
    requires
        old(world).wf(),
    ensures
        final(world).wf(),
        kill_effect(*old(world), *final(world), entity),
{
    if entity < world.stats.len() && world.stats[entity].is_some() {
        set_stats(world, entity, Stats { health: 0, last_change: Some(HealthSource::Suicide) });
    }
}

pub open spec fn health_effect(o: World, w: World, e: usize, p: Seq<Option<Value>>) -> bool {
    match o.stats_of(e) {
        Some(_) => match int_at(p, 0) {
            Some(hp) => if 0 <= hp <= u32::MAX {
                restated(o, w, e, Stats { health: hp as u32, last_change: Some(HealthSource::Command) })
            } else {
                only_told(o, w, e, "You must specify health amount!"@)
            },
            None => only_told(o, w, e, "You must specify health amount!"@),
        },
        None => only_told(o, w, e, "You have no position."@),
    }
}

/// Sets the invoker's health to the amount given.
pub fn handle_health(
    world: &mut World,
    entity: usize,
    args: &Vec<char>,
    parsed: &Vec<Option<Value>>,
    action: &ChatCommand,
)
    requires
        old(world).wf(),
    ensures
        final(world).wf(),
        health_effect(*old(world), *final(world), entity, parsed@),
{
    if entity < world.stats.len() && world.stats[entity].is_some() {
        match get_int(parsed, 0) {
            Some(hp) => {
                if 0 <= hp && hp <= u32::MAX as i64 {
                    set_stats(
                        world,
                        entity,
                        Stats { health: hp as u32, last_change: Some(HealthSource::Command) },
                    );
                } else {
                    tell_private(world, entity, "You must specify health amount!");
                }
            },
            None => tell_private(world, entity, "You must specify health amount!"),
        }
    } else {
        tell_private(world, entity, "You have no position.");
    }
}

pub open spec fn alias_effect(
    o: World,
    w: World,
    e: usize,
    p: Seq<Option<Value>>,
    help: Seq<char>,
) -> bool {
    match text_at(p, 0) {
        Some(a) => if o.alias_of(e).is_some() {
            &&& w.alias@.len() == o.alias@.len()
            &&& w.alias_of(e) == Some(a)
            &&& forall|i: int| 0 <= i < o.len() && i != e ==> w.alias@[i] == o.alias@[i]
            &&& w.same_except(&o, Part::Alias)
            &&& w.pos@ == o.pos@
            &&& w.force_update@ == o.force_update@
            &&& w.outbox@ == o.outbox@
        } else {
            w.same_state(&o) && w.outbox@ == o.outbox@
        },
        None => only_told(o, w, e, help),
    }
}

/// Renames the invoker, if it is a player.
pub fn handle_alias(
    world: &mut World,
    entity: usize,
    args: &Vec<char>,
    parsed: &Vec<Option<Value>>,
    action: &ChatCommand,
)
    requires
        old(world).wf(),
    ensures
        final(world).wf(),
        alias_effect(*old(world), *final(world), entity, parsed@, action.help_string@),
{
    match get_text(parsed, 0) {
        Some(a) => {
            if entity < world.alias.len() && world.alias[entity].is_some() {
                world.alias.set(entity, Some(a));
            }
        },
        None => tell_help(world, entity, action),
    }
}

pub open spec fn build_effect(o: World, w: World, e: usize) -> bool {
    if o.builds(e) {
        &&& w.can_build@ == o.can_build@.update(e as int, false)
        &&& w.same_except(&o, Part::Build)
        &&& w.pos@ == o.pos@
        &&& w.force_update@ == o.force_update@
        &&& w.told(&o, e, "Toggled off build mode!"@)
    } else {
        &&& w.can_build@ == (if e < o.len() {
            o.can_build@.update(e as int, true)
        } else {
            o.can_build@
        })
        &&& w.same_except(&o, Part::Build)
        &&& w.pos@ == o.pos@
        &&& w.force_update@ == o.force_update@
        &&& w.told(&o, e, "Toggled on build mode!"@)
    }
}

/// Gives or takes the invoker's build marker.
pub fn handle_build(
    world: &mut World,
    entity: usize,
    args: &Vec<char>,
    parsed: &Vec<Option<Value>>,
    action: &ChatCommand,
)
    requires
        old(world).wf(),
    ensures
        final(world).wf(),
        build_effect(*old(world), *final(world), entity),
{
    if entity < world.can_build.len() && world.can_build[entity] {
        world.can_build.set(entity, false);
        tell_private(world, entity, "Toggled off build mode!");
    } else {
        if entity < world.can_build.len() {
            world.can_build.set(entity, true);
        }
        tell_private(world, entity, "Toggled on build mode!");
    }
}

/// Building is toggled back: two runs restore the marker and every other
/// component.
pub proof fn lemma_build_twice(w0: World, w1: World, w2: World, e: usize)
    requires
        w0.wf(),
        build_effect(w0, w1, e),
        build_effect(w1, w2, e),
    ensures
        w2.can_build@ == w0.can_build@,
        w2.same_state(&w0),
{
    if e < w0.len() {
        assert(w2.can_build@ =~= w0.can_build@);
    }
}

/// The light of a carried lantern.
pub open spec fn lantern_light() -> LightEmitter {
    LightEmitter {
        offset: Fixed3 { x: 1000, y: 200, z: 800 },
        col: Fixed3 { x: 824, y: 365, z: 196 },
        strength: 1500,
    }
}

pub open spec fn lantern_effect(o: World, w: World, e: usize) -> bool {
    if o.light_of(e).is_some() {
        &&& w.light@ == o.light@.update(e as int, None)
        &&& w.same_except(&o, Part::Light)
        &&& w.pos@ == o.pos@
        &&& w.force_update@ == o.force_update@
        &&& w.sent(&o, seq![(e, NoteKind::Chat, "You put out the lantern."@)])
    } else {
        &&& w.light@ == (if e < o.len() {
            o.light@.update(e as int, Some(lantern_light()))
        } else {
            o.light@
        })
        &&& w.same_except(&o, Part::Light)
        &&& w.pos@ == o.pos@
        &&& w.force_update@ == o.force_update@
        &&& w.sent(&o, seq![(e, NoteKind::Chat, "You lighted your lantern."@)])
    }
}

/// Lights or puts out the invoker's lantern.
pub fn handle_lantern(
    world: &mut World,
    entity: usize,
    args: &Vec<char>,
    parsed: &Vec<Option<Value>>,
    action: &ChatCommand,
)
    requires
        old(world).wf(),
    ensures
        final(world).wf(),
        lantern_effect(*old(world), *final(world), entity),
{
    if entity < world.light.len() && world.light[entity].is_some() {
        world.light.set(entity, None);
        world.notify(entity, NoteKind::Chat, "You put out the lantern.".to_owned());
    } else {
        if entity < world.light.len() {
            world.light.set(
                entity,
                Some(
                    LightEmitter {
                        offset: Fixed3 { x: 1000, y: 200, z: 800 },
                        col: Fixed3 { x: 824, y: 365, z: 196 },
                        strength: 1500,
                    },
                ),
            );
        }
        world.notify(entity, NoteKind::Chat, "You lighted your lantern.".to_owned());
    }
}

} // verus!
