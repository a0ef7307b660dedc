//! Commands that add entities to the world: NPCs, objects and lights.
use vstd::prelude::*;
use crate::args::{Value, text_at, species_at, fixed_at, get_text, get_species, get_fixed};
use crate::message::{decimal, push_decimal, push_str};
use crate::number::{int_of, parse_int};
use crate::registry::ChatCommand;
use crate::text::{chars_eq_str, chars_of};
use crate::world::{World, Fixed3, NoteKind, Stats, Agent, Body, NpcKind, ObjectKind, LightEmitter};
use crate::handlers::only_told;

verus! {

/// Health of a freshly spawned NPC.
pub const NPC_HEALTH: u32 = 100;

/// Relies on `rand::Rng::gen_range` on `rand::thread_rng()`: a value in
/// `[lo, hi)`; it panics when `lo >= hi`.
#[verifier::external_body]
fn random_in(lo: i64, hi: i64) -> (r: i64)
    requires
        lo < hi,
    ensures
        lo <= r < hi,
{
    rand::Rng::gen_range(&mut rand::thread_rng(), lo, hi)
}

/// Entity `i` of `w` has exactly these components, no alias and no build marker.
pub open spec fn holds(
    w: World,
    i: int,
    pos: Option<Fixed3>,
    force: bool,
    stats: Option<Stats>,
    agent: Option<Agent>,
    body: Option<Body>,
    light: Option<LightEmitter>,
) -> bool {
    &&& w.pos@[i] == pos
    &&& w.force_update@[i] == force
    &&& w.alias@[i].is_none()
    &&& w.stats@[i] == stats
    &&& !w.can_build@[i]
    &&& w.agent@[i] == agent
    &&& w.body@[i] == body
    &&& w.light@[i] == light
}

/// `w` is `o` with entities added after the existing ones, which are kept
/// as they were, and the clock unchanged.
pub open spec fn grown(o: World, w: World) -> bool {
    let n = o.len() as int;
    &&& w.wf()
    &&& o.len() <= w.len()
    &&& w.pos@.subrange(0, n) == o.pos@
    &&& w.vel@.subrange(0, n) == o.vel@
    &&& w.force_update@.subrange(0, n) == o.force_update@
    &&& w.alias@.subrange(0, n) == o.alias@
    &&& w.stats@.subrange(0, n) == o.stats@
    &&& w.can_build@.subrange(0, n) == o.can_build@
    &&& w.agent@.subrange(0, n) == o.agent@
    &&& w.body@.subrange(0, n) == o.body@
    &&& w.light@.subrange(0, n) == o.light@
    &&& w.time_of_day == o.time_of_day
}

pub proof fn lemma_grown_trans(a: World, b: World, c: World)
    requires
        a.wf(),
        grown(a, b),
        grown(b, c),
    ensures
        grown(a, c),
{
    let n = a.len() as int;
    assert(c.pos@.subrange(0, n) =~= b.pos@.subrange(0, n));
    assert(c.vel@.subrange(0, n) =~= b.vel@.subrange(0, n));
    assert(c.force_update@.subrange(0, n) =~= b.force_update@.subrange(0, n));
    assert(c.alias@.subrange(0, n) =~= b.alias@.subrange(0, n));
    assert(c.stats@.subrange(0, n) =~= b.stats@.subrange(0, n));
    assert(c.can_build@.subrange(0, n) =~= b.can_build@.subrange(0, n));
    assert(c.agent@.subrange(0, n) =~= b.agent@.subrange(0, n));
    assert(c.body@.subrange(0, n) =~= b.body@.subrange(0, n));
    assert(c.light@.subrange(0, n) =~= b.light@.subrange(0, n));
}

pub proof fn lemma_grown_refl(a: World)
    requires
        a.wf(),
    ensures
        grown(a, a),
{
    let n = a.len() as int;
    assert(a.pos@.subrange(0, n) =~= a.pos@);
    assert(a.vel@.subrange(0, n) =~= a.vel@);
    assert(a.force_update@.subrange(0, n) =~= a.force_update@);
    assert(a.alias@.subrange(0, n) =~= a.alias@);
    assert(a.stats@.subrange(0, n) =~= a.stats@);
    assert(a.can_build@.subrange(0, n) =~= a.can_build@);
    assert(a.agent@.subrange(0, n) =~= a.agent@);
    assert(a.body@.subrange(0, n) =~= a.body@);
    assert(a.light@.subrange(0, n) =~= a.light@);
}

pub proof fn lemma_grown_keeps(b: World, c: World, i: int)
    requires
        b.wf(),
        grown(b, c),
        0 <= i < b.len(),
    ensures
        c.pos@[i] == b.pos@[i],
        c.vel@[i] == b.vel@[i],
        c.force_update@[i] == b.force_update@[i],
        c.alias@[i] == b.alias@[i],
        c.stats@[i] == b.stats@[i],
        c.can_build@[i] == b.can_build@[i],
        c.agent@[i] == b.agent@[i],
        c.body@[i] == b.body@[i],
        c.light@[i] == b.light@[i],
{
    let n = b.len() as int;
    assert(c.pos@.subrange(0, n)[i] == c.pos@[i]);
    assert(c.vel@.subrange(0, n)[i] == c.vel@[i]);
    assert(c.force_update@.subrange(0, n)[i] == c.force_update@[i]);
    assert(c.alias@.subrange(0, n)[i] == c.alias@[i]);
    assert(c.stats@.subrange(0, n)[i] == c.stats@[i]);
    assert(c.can_build@.subrange(0, n)[i] == c.can_build@[i]);
    assert(c.agent@.subrange(0, n)[i] == c.agent@[i]);
    assert(c.body@.subrange(0, n)[i] == c.body@[i]);
    assert(c.light@.subrange(0, n)[i] == c.light@[i]);
}

/// Adds one entity with the given components.
pub fn add_entity(
    world: &mut World,
    pos: Option<Fixed3>,
    vel: Option<Fixed3>,
    force: bool,
    stats: Option<Stats>,
    agent: Option<Agent>,
    body: Option<Body>,
    light: Option<LightEmitter>,
) -> (e: usize)
    requires
        old(world).wf(),
    ensures
        e == old(world).len(),
        final(world).len() == old(world).len() + 1,
        grown(*old(world), *final(world)),
        holds(*final(world), e as int, pos, force, stats, agent, body, light),
        final(world).vel@[e as int] == vel,
        final(world).outbox@ == old(world).outbox@,
{
    let e = world.pos.len();
    world.pos.push(pos);
    world.vel.push(vel);
    world.force_update.push(force);
    world.alias.push(None);
    world.stats.push(stats);
    world.can_build.push(false);
    world.agent.push(agent);
    world.body.push(body);
    world.light.push(light);
    proof {
        let w = *world;
        let o = *old(world);
        let n = o.len() as int;
        assert(w.pos@.subrange(0, n) =~= o.pos@);
        assert(w.vel@.subrange(0, n) =~= o.vel@);
        assert(w.force_update@.subrange(0, n) =~= o.force_update@);
        assert(w.alias@.subrange(0, n) =~= o.alias@);
        assert(w.stats@.subrange(0, n) =~= o.stats@);
        assert(w.can_build@.subrange(0, n) =~= o.can_build@);
        assert(w.agent@.subrange(0, n) =~= o.agent@);
        assert(w.body@.subrange(0, n) =~= o.body@);
        assert(w.light@.subrange(0, n) =~= o.light@);
    }
    e
}

/// The object a name stands for; the spelling is matched exactly.
pub open spec fn object_kind_of(t: Seq<char>) -> Option<ObjectKind> {
    if t == "Scarecrow"@ {
        Some(ObjectKind::Scarecrow)
    } else if t == "Cauldron"@ {
        Some(ObjectKind::Cauldron)
    } else if t == "Chest_Vines"@ {
        Some(ObjectKind::ChestVines)
    } else if t == "Chest"@ {
        Some(ObjectKind::Chest)
    } else if t == "Chest_Dark"@ {
        Some(ObjectKind::ChestDark)
    } else if t == "Chest_Demon"@ {
        Some(ObjectKind::ChestDemon)
    } else if t == "Chest_Gold"@ {
        Some(ObjectKind::ChestGold)
    } else if t == "Chest_Light"@ {
        Some(ObjectKind::ChestLight)
    } else if t == "Chest_Open"@ {
        Some(ObjectKind::ChestOpen)
    } else if t == "Chest_Skull"@ {
        Some(ObjectKind::ChestSkull)
    } else if t == "Pumpkin_1"@ {
        Some(ObjectKind::Pumpkin1)
    } else if t == "Pumpkin_2"@ {
        Some(ObjectKind::Pumpkin2)
    } else if t == "Pumpkin_3"@ {
        Some(ObjectKind::Pumpkin3)
    } else if t == "Pumpkin_4"@ {
        Some(ObjectKind::Pumpkin4)
    } else if t == "Pumpkin_5"@ {
        Some(ObjectKind::Pumpkin5)
    } else if t == "Campfire"@ {
        Some(ObjectKind::Campfire)
    } else if t == "Lantern_Ground"@ {
        Some(ObjectKind::LanternGround)
    } else if t == "Lantern_Ground_Open"@ {
        Some(ObjectKind::LanternGroundOpen)
    } else if t == "Lantern_Standing_2"@ {
        Some(ObjectKind::LanternStanding2)
    } else if t == "Lantern_Standing"@ {
        Some(ObjectKind::LanternStanding)
    } else if t == "Potion_Blue"@ {
        Some(ObjectKind::PotionBlue)
    } else if t == "Potion_Green"@ {
        Some(ObjectKind::PotionGreen)
    } else if t == "Potion_Red"@ {
        Some(ObjectKind::PotionRed)
    } else if t == "Crate"@ {
        Some(ObjectKind::Crate)
    } else if t == "Tent"@ {
        Some(ObjectKind::Tent)
    } else if t == "Bomb"@ {
        Some(ObjectKind::Bomb)
    } else if t == "Window_Spooky"@ {
        Some(ObjectKind::WindowSpooky)
    } else if t == "Carpet_1"@ {
        Some(ObjectKind::Carpet1)
    } else if t == "Table"@ {
        Some(ObjectKind::Table)
    } else if t == "Drawer"@ {
        Some(ObjectKind::Drawer)
    } else if t == "Bed_Blue"@ {
        Some(ObjectKind::BedBlue)
    } else if t == "Anvil"@ {
        Some(ObjectKind::Anvil)
    } else if t == "Gravestone_1"@ {
        Some(ObjectKind::Gravestone1)
    } else if t == "Gravestone_2"@ {
        Some(ObjectKind::Gravestone2)
    } else if t == "Chair"@ {
        Some(ObjectKind::Chair)
    } else if t == "Bench"@ {
        Some(ObjectKind::Bench)
    } else {
        None
    }
}

pub fn parse_object_kind(t: &Vec<char>) -> (r: Option<ObjectKind>)
    ensures
        r == object_kind_of(t@),
{
    if chars_eq_str(t, "Scarecrow") {
        Some(ObjectKind::Scarecrow)
    } else if chars_eq_str(t, "Cauldron") {
        Some(ObjectKind::Cauldron)
    } else if chars_eq_str(t, "Chest_Vines") {
        Some(ObjectKind::ChestVines)
    } else if chars_eq_str(t, "Chest") {
        Some(ObjectKind::Chest)
    } else if chars_eq_str(t, "Chest_Dark") {
        Some(ObjectKind::ChestDark)
    } else if chars_eq_str(t, "Chest_Demon") {
        Some(ObjectKind::ChestDemon)
    } else if chars_eq_str(t, "Chest_Gold") {
        Some(ObjectKind::ChestGold)
    } else if chars_eq_str(t, "Chest_Light") {
        Some(ObjectKind::ChestLight)
    } else if chars_eq_str(t, "Chest_Open") {
        Some(ObjectKind::ChestOpen)
    } else if chars_eq_str(t, "Chest_Skull") {
        Some(ObjectKind::ChestSkull)
    } else if chars_eq_str(t, "Pumpkin_1") {
        Some(ObjectKind::Pumpkin1)
    } else if chars_eq_str(t, "Pumpkin_2") {
        Some(ObjectKind::Pumpkin2)
    } else if chars_eq_str(t, "Pumpkin_3") {
        Some(ObjectKind::Pumpkin3)
    } else if chars_eq_str(t, "Pumpkin_4") {
        Some(ObjectKind::Pumpkin4)
    } else if chars_eq_str(t, "Pumpkin_5") {
        Some(ObjectKind::Pumpkin5)
    } else if chars_eq_str(t, "Campfire") {
        Some(ObjectKind::Campfire)
    } else if chars_eq_str(t, "Lantern_Ground") {
        Some(ObjectKind::LanternGround)
    } else if chars_eq_str(t, "Lantern_Ground_Open") {
        Some(ObjectKind::LanternGroundOpen)
    } else if chars_eq_str(t, "Lantern_Standing_2") {
        Some(ObjectKind::LanternStanding2)
    } else if chars_eq_str(t, "Lantern_Standing") {
        Some(ObjectKind::LanternStanding)
    } else if chars_eq_str(t, "Potion_Blue") {
        Some(ObjectKind::PotionBlue)
    } else if chars_eq_str(t, "Potion_Green") {
        Some(ObjectKind::PotionGreen)
    } else if chars_eq_str(t, "Potion_Red") {
        Some(ObjectKind::PotionRed)
    } else if chars_eq_str(t, "Crate") {
        Some(ObjectKind::Crate)
    } else if chars_eq_str(t, "Tent") {
        Some(ObjectKind::Tent)
    } else if chars_eq_str(t, "Bomb") {
        Some(ObjectKind::Bomb)
    } else if chars_eq_str(t, "Window_Spooky") {
        Some(ObjectKind::WindowSpooky)
    } else if chars_eq_str(t, "Carpet_1") {
        Some(ObjectKind::Carpet1)
    } else if chars_eq_str(t, "Table") {
        Some(ObjectKind::Table)
    } else if chars_eq_str(t, "Drawer") {
        Some(ObjectKind::Drawer)
    } else if chars_eq_str(t, "Bed_Blue") {
        Some(ObjectKind::BedBlue)
    } else if chars_eq_str(t, "Anvil") {
        Some(ObjectKind::Anvil)
    } else if chars_eq_str(t, "Gravestone_1") {
        Some(ObjectKind::Gravestone1)
    } else if chars_eq_str(t, "Gravestone_2") {
        Some(ObjectKind::Gravestone2)
    } else if chars_eq_str(t, "Chair") {
        Some(ObjectKind::Chair)
    } else if chars_eq_str(t, "Bench") {
        Some(ObjectKind::Bench)
    } else {
        None
    }
}

pub open spec fn object_effect(o: World, w: World, e: usize, p: Seq<Option<Value>>) -> bool {
    match o.pos_of(e) {
        Some(at) => match text_at(p, 0) {
            Some(t) => match object_kind_of(t) {
                Some(k) => {
                    &&& grown(o, w)
                    &&& w.len() == o.len() + 1
                    &&& holds(w, o.len() as int, Some(at), false, None, None, Some(Body::Object(k)), None)
                    &&& w.vel@[o.len() as int] == Some(Fixed3 { x: 0, y: 0, z: 0 })
                    &&& w.sent(&o, seq![(e, NoteKind::Chat, "Spawned object."@)])
                },
                None => w.same_state(&o) && w.sent(&o, seq![(e, NoteKind::Chat, "Object not found!"@)]),
            },
            None => w.same_state(&o) && w.sent(&o, seq![(e, NoteKind::Chat, "Object not found!"@)]),
        },
        None => w.same_state(&o) && w.sent(&o, seq![(e, NoteKind::Chat, "You have no position!"@)]),
    }
}

/// Places the named object at the invoker's position.
pub fn handle_object(
    world: &mut World,
    entity: usize,
    args: &Vec<char>,
    parsed: &Vec<Option<Value>>,
    action: &ChatCommand,
)
    requires
        old(world).wf(),
    ensures
        final(world).wf(),
        object_effect(*old(world), *final(world), entity, parsed@),
{
    let at = if entity < world.pos.len() {
        world.pos[entity]
    } else {
        None
    };
    match at {
        Some(at) => {
            let kind = match get_text(parsed, 0) {
                Some(t) => parse_object_kind(&chars_of(t.as_str())),
                None => None,
            };
            match kind {
                Some(k) => {
                    add_entity(
                        world,
                        Some(at),
                        Some(Fixed3 { x: 0, y: 0, z: 0 }),
                        false,
                        None,
                        None,
                        Some(Body::Object(k)),
                        None,
                    );
                    world.notify(entity, NoteKind::Chat, "Spawned object.".to_owned());
                },
                None => {
                    world.notify(entity, NoteKind::Chat, "Object not found!".to_owned());
                },
            }
        },
        None => {
            world.notify(entity, NoteKind::Chat, "You have no position!".to_owned());
        },
    }
}

/// The light described by the seven optional numbers of `light`: colour,
/// offset and strength, each kept at its default unless given in full.
pub open spec fn light_from(p: Seq<Option<Value>>) -> LightEmitter {
    LightEmitter {
        col: match (fixed_at(p, 0), fixed_at(p, 1), fixed_at(p, 2)) {
            (Some(r), Some(g), Some(b)) => Fixed3 { x: r, y: g, z: b },
            _ => Fixed3 { x: 1000, y: 1000, z: 1000 },
        },
        offset: match (fixed_at(p, 3), fixed_at(p, 4), fixed_at(p, 5)) {
            (Some(x), Some(y), Some(z)) => Fixed3 { x, y, z },
            _ => Fixed3 { x: 0, y: 0, z: 0 },
        },
        strength: match fixed_at(p, 6) {
            Some(s) => s,
            None => 1000,
        },
    }
}

pub open spec fn light_effect(o: World, w: World, e: usize, p: Seq<Option<Value>>) -> bool {
    match o.pos_of(e) {
        Some(at) => {
            &&& grown(o, w)
            &&& w.len() == o.len() + 1
            &&& holds(w, o.len() as int, Some(at), true, None, None, None, Some(light_from(p)))
            &&& w.vel@[o.len() as int] == None::<Fixed3>
            &&& w.sent(&o, seq![(e, NoteKind::Chat, "Spawned object."@)])
        },
        None => w.same_state(&o) && w.sent(&o, seq![(e, NoteKind::Chat, "You have no position!"@)]),
    }
}

/// Adds a light at the invoker's position.
pub fn handle_light(
    world: &mut World,
    entity: usize,
    args: &Vec<char>,
    parsed: &Vec<Option<Value>>,
    action: &ChatCommand,
)
    requires
        old(world).wf(),
    ensures
        final(world).wf(),
        light_effect(*old(world), *final(world), entity, parsed@),
{
    let mut emitter = LightEmitter {
        col: Fixed3 { x: 1000, y: 1000, z: 1000 },
        offset: Fixed3 { x: 0, y: 0, z: 0 },
        strength: 1000,
    };
    match (get_fixed(parsed, 0), get_fixed(parsed, 1), get_fixed(parsed, 2)) {
        (Some(r), Some(g), Some(b)) => {
            emitter.col = Fixed3 { x: r, y: g, z: b };
        },
        _ => {},
    }
    match (get_fixed(parsed, 3), get_fixed(parsed, 4), get_fixed(parsed, 5)) {
        (Some(x), Some(y), Some(z)) => {
            emitter.offset = Fixed3 { x, y, z };
        },
        _ => {},
    }
    match get_fixed(parsed, 6) {
        Some(s) => {
            emitter.strength = s;
        },
        None => {},
    }
    let at = if entity < world.pos.len() {
        world.pos[entity]
    } else {
        None
    };
    match at {
        Some(at) => {
            add_entity(world, Some(at), None, true, None, None, None, Some(emitter));
            world.notify(entity, NoteKind::Chat, "Spawned object.".to_owned());
        },
        None => {
            world.notify(entity, NoteKind::Chat, "You have no position!".to_owned());
        },
    }
}

/// How an alignment word sets up a spawned NPC's agent.
pub open spec fn agent_of(align: Seq<char>, e: usize) -> Option<Agent> {
    if align == "hostile"@ {
        Some(Agent::Enemy { target: None })
    } else if align == "friendly"@ {
        Some(Agent::Pet { owner: e })
    } else {
        None
    }
}

pub fn alignment_to_agent(align: &Vec<char>, e: usize) -> (r: Option<Agent>)
    ensures
        r == agent_of(align@, e),
{
    if chars_eq_str(align, "hostile") {
        Some(Agent::Enemy { target: None })
    } else if chars_eq_str(align, "friendly") {
        Some(Agent::Pet { owner: e })
    } else {
        None
    }
}

pub open spec fn body_of(k: NpcKind) -> Body {
    match k {
        NpcKind::Humanoid => Body::Humanoid,
        NpcKind::Pig => Body::Quadruped,
        NpcKind::Wolf => Body::QuadrupedMedium,
    }
}

pub fn kind_to_body(k: NpcKind) -> (r: Body)
    ensures
        r == body_of(k),
{
    match k {
        NpcKind::Humanoid => Body::Humanoid,
        NpcKind::Pig => Body::Quadruped,
        NpcKind::Wolf => Body::QuadrupedMedium,
    }
}

/// How many NPCs a `spawn` asks for: one when no amount is given, else a
/// positive integer that fits in an `i32`.
pub open spec fn amount_of(t: Option<Seq<char>>) -> Option<int> {
    match t {
        None => Some(1),
        Some(t) => match int_of(t) {
            Some(n) => if 0 < n <= i32::MAX {
                Some(n)
            } else {
                None
            },
            None => None,
        },
    }
}

/// The velocity of a spawned NPC: a horizontal push in `[-2, 3)` blocks per
/// second on each axis, and a fixed upward push.
pub open spec fn spawn_vel_ok(v: Option<Fixed3>) -> bool {
    match v {
        Some(v) => -2000 <= v.x < 3000 && -2000 <= v.y < 3000 && v.z == 10000,
        None => false,
    }
}

/// Entity `i` is an NPC spawned at `at` with the given agent and body.
pub open spec fn npc_at(w: World, i: int, at: Fixed3, agent: Agent, body: Body) -> bool {
    &&& holds(w, i, Some(at), false, Some(Stats { health: NPC_HEALTH, last_change: None }), Some(agent), Some(body), None)
    &&& spawn_vel_ok(w.vel@[i])
}

/// Every entity of `w` from index `lo` on is such an NPC.
pub open spec fn npcs_from(w: World, lo: int, at: Fixed3, agent: Agent, body: Body) -> bool {
    forall|i: int| lo <= i < w.len() ==> #[trigger] npc_at(w, i, at, agent, body)
}

pub open spec fn spawn_effect(
    o: World,
    w: World,
    e: usize,
    p: Seq<Option<Value>>,
    help: Seq<char>,
) -> bool {
    let agent = match text_at(p, 0) {
        Some(a) => agent_of(a, e),
        None => agent_of(Seq::empty(), e),
    };
    match (agent, species_at(p, 1), amount_of(text_at(p, 2))) {
        (Some(a), Some(k), Some(n)) => match o.pos_of(e) {
            Some(at) => {
                &&& grown(o, w)
                &&& w.len() == o.len() + n
                &&& npcs_from(w, o.len() as int, at, a, body_of(k))
                &&& w.told(&o, e, "Spawned "@ + decimal(n as nat) + " entities"@)
            },
            None => only_told(o, w, e, help),
        },
        _ => only_told(o, w, e, help),
    }
}

/// A spawn whose alignment, archetype and amount are all valid, by an
/// invoker with a position, adds exactly that many NPCs at that position,
/// each with that agent and body, keeps every other entity, and sends one
/// note with the count.
pub proof fn lemma_spawn_adds_npcs(
    o: World,
    w: World,
    e: usize,
    p: Seq<Option<Value>>,
    help: Seq<char>,
    align: Seq<char>,
    k: NpcKind,
    n: int,
    at: Fixed3,
)
    requires
        o.wf(),
        spawn_effect(o, w, e, p, help),
        text_at(p, 0) == Some(align),
        agent_of(align, e) is Some,
        species_at(p, 1) == Some(k),
        amount_of(text_at(p, 2)) == Some(n),
        o.pos_of(e) == Some(at),
    ensures
        w.len() == o.len() + n,
        forall|i: int|
            o.len() <= i < w.len() ==> {
                &&& #[trigger] w.pos@[i] == Some(at)
                &&& w.agent@[i] == agent_of(align, e)
                &&& w.body@[i] == Some(body_of(k))
                &&& w.alias@[i] is None
            },
        forall|i: int|
            0 <= i < o.len() ==> {
                &&& #[trigger] w.pos@[i] == o.pos@[i]
                &&& w.agent@[i] == o.agent@[i]
                &&& w.body@[i] == o.body@[i]
                &&& w.stats@[i] == o.stats@[i]
                &&& w.alias@[i] == o.alias@[i]
            },
        w.told(&o, e, "Spawned "@ + decimal(n as nat) + " entities"@),
{
    assert forall|i: int| o.len() <= i < w.len() implies {
        &&& #[trigger] w.pos@[i] == Some(at)
        &&& w.agent@[i] == agent_of(align, e)
        &&& w.body@[i] == Some(body_of(k))
        &&& w.alias@[i] is None
    } by {
        assert(npc_at(w, i, at, agent_of(align, e).unwrap(), body_of(k)));
    }
    assert forall|i: int| 0 <= i < o.len() implies {
        &&& #[trigger] w.pos@[i] == o.pos@[i]
        &&& w.agent@[i] == o.agent@[i]
        &&& w.body@[i] == o.body@[i]
        &&& w.stats@[i] == o.stats@[i]
        &&& w.alias@[i] == o.alias@[i]
    } by {
        lemma_grown_keeps(o, w, i);
    }
}

/// Reads the amount word of `spawn`.
pub fn parse_amount(t: Option<String>) -> (r: Option<i64>)
    ensures
        r.is_some() == amount_of(match t { Some(s) => Some(s@), None => None }).is_some(),
        r.is_some() ==> r.unwrap() == amount_of(match t { Some(s) => Some(s@), None => None }).unwrap(),
{
    match t {
        None => Some(1),
        Some(s) => match parse_int(&chars_of(s.as_str())) {
            Some(n) => {
                if 0 < n && n <= i32::MAX as i64 {
                    Some(n)
                } else {
                    None
                }
            },
            None => None,
        },
    }
}

/// Spawns NPCs of the named archetype at the invoker's position.
pub fn handle_spawn(
    world: &mut World,
    entity: usize,
    args: &Vec<char>,
    parsed: &Vec<Option<Value>>,
    action: &ChatCommand,
)
    requires
        old(world).wf(),
    ensures
        final(world).wf(),
        spawn_effect(*old(world), *final(world), entity, parsed@, action.help_string@),
{
    let align = match get_text(parsed, 0) {
        Some(a) => chars_of(a.as_str()),
        None => Vec::new(),
    };
    assert(align@ == match text_at(parsed@, 0) { Some(a) => a, None => Seq::<char>::empty() });
    let agent = alignment_to_agent(&align, entity);
    let kind = get_species(parsed, 1);
    let amount_text = get_text(parsed, 2);
    assert(match amount_text { Some(s) => Some(s@), None => None::<Seq<char>> } == text_at(parsed@, 2));
    let amount = parse_amount(amount_text);
    match (agent, kind, amount) {
        (Some(a), Some(k), Some(n)) => {
            let at = if entity < world.pos.len() {
                world.pos[entity]
            } else {
                None
            };
            match at {
                Some(at) => {
                    let ghost o = *world;
                    proof {
                        lemma_grown_refl(o);
                    }
                    let body = kind_to_body(k);
                    let mut made: i64 = 0;
                    while made < n
                        invariant
                            o.wf(),
                            grown(o, *world),
                            0 <= made <= n,
                            world.len() == o.len() + made,
                            world.outbox@ == o.outbox@,
                            forall|i: int| o.len() <= i < world.len() ==> #[trigger] npc_at(*world, i, at, a, body),
                        decreases n - made,
                    {
                        let vx = random_in(-2000, 3000);
                        let vy = random_in(-2000, 3000);
                        let ghost before = *world;
                        add_entity(
                            world,
                            Some(at),
                            Some(Fixed3 { x: vx, y: vy, z: 10000 }),
                            false,
                            Some(Stats { health: NPC_HEALTH, last_change: None }),
                            Some(a),
                            Some(body),
                            None,
                        );
                        proof {
                            lemma_grown_trans(o, before, *world);
                            assert forall|i: int| o.len() <= i < world.len() implies #[trigger] npc_at(*world, i, at, a, body) by {
                                if i < before.len() {
                                    assert(npc_at(before, i, at, a, body));
                                    lemma_grown_keeps(before, *world, i);
                                }
                            }
                        }
                        made += 1;
                    }
                    let mut m = "Spawned ".to_owned();
                    push_decimal(&mut m, n as u64);
                    push_str(&mut m, " entities");
                    assert(m@ =~= "Spawned "@ + decimal(n as nat) + " entities"@);
                    let ghost before = *world;
                    world.notify(entity, NoteKind::Private, m);
                    assert(grown(o, *world));
                    assert(forall|i: int| o.len() <= i < world.len() ==> #[trigger] npc_at(*world, i, at, a, body) == npc_at(before, i, at, a, body));
                },
                None => {
                    world.notify(entity, NoteKind::Private, action.help_string.clone());
                },
            }
        },
        _ => {
            world.notify(entity, NoteKind::Private, action.help_string.clone());
        },
    }
}

} // verus!
