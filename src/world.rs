//! The world the commands act on: entities as indices into one storage per
//! component, a world clock, and the notifications sent so far.
use vstd::prelude::*;

verus! {

/// A point or offset in thousandths of a block.
#[derive(Clone, Copy, Debug, PartialEq, Eq)]
pub struct Fixed3 {
    pub x: i64,
    pub y: i64,
    pub z: i64,
}

/// What drives an entity that is not a player.
#[derive(Clone, Copy, Debug, PartialEq, Eq)]
pub enum Agent {
    Enemy { target: Option<usize> },
    Pet { owner: usize },
}

/// The NPC archetypes that can be spawned by name.
#[derive(Clone, Copy, Debug, PartialEq, Eq)]
pub enum NpcKind {
    Humanoid,
    Pig,
    Wolf,
}

/// Static objects that can be placed by name.
#[derive(Clone, Copy, Debug, PartialEq, Eq)]
pub enum ObjectKind {
    Scarecrow,
    Cauldron,
    ChestVines,
    Chest,
    ChestDark,
    ChestDemon,
    ChestGold,
    ChestLight,
    ChestOpen,
    ChestSkull,
    Pumpkin1,
    Pumpkin2,
    Pumpkin3,
    Pumpkin4,
    Pumpkin5,
    Campfire,
    LanternGround,
    LanternGroundOpen,
    LanternStanding2,
    LanternStanding,
    PotionBlue,
    PotionGreen,
    PotionRed,
    Crate,
    Tent,
    Bomb,
    WindowSpooky,
    Carpet1,
    Table,
    Drawer,
    BedBlue,
    Anvil,
    Gravestone1,
    Gravestone2,
    Chair,
    Bench,
}

/// The body archetype of an entity.
#[derive(Clone, Copy, Debug, PartialEq, Eq)]
pub enum Body {
    Humanoid,
    Quadruped,
    QuadrupedMedium,
    Object(ObjectKind),
}

/// Why health last changed.
#[derive(Clone, Copy, Debug, PartialEq, Eq)]
pub enum HealthSource {
    Suicide,
    Command,
}

#[derive(Clone, Copy, Debug, PartialEq, Eq)]
pub struct Stats {
    pub health: u32,
    pub last_change: Option<HealthSource>,
}

/// A light source attached to an entity; colour, offset and strength in
/// thousandths.
#[derive(Clone, Copy, Debug, PartialEq, Eq)]
pub struct LightEmitter {
    pub col: Fixed3,
    pub offset: Fixed3,
    pub strength: i64,
}

/// How a notification is delivered.
#[derive(Clone, Copy, Debug, PartialEq, Eq)]
pub enum NoteKind {
    Private,
    Chat,
    Tell,
}

/// A message for one entity.
#[derive(Debug)]
pub struct Note {
    pub to: usize,
    pub kind: NoteKind,
    pub text: String,
}

/// The parts of the world a command may change.
pub enum Part {
    Pos,
    Stats,
    Alias,
    Clock,
    Build,
    Light,
}

/// Entities are indices; each component storage holds one slot per entity.
pub struct World {
    pub pos: Vec<Option<Fixed3>>,
    pub vel: Vec<Option<Fixed3>>,
    /// Marks an entity whose position must be resent to its client.
    pub force_update: Vec<bool>,
    /// The player component: present for players, holding their alias.
    pub alias: Vec<Option<String>>,
    pub stats: Vec<Option<Stats>>,
    /// The build-capability marker.
    pub can_build: Vec<bool>,
    pub agent: Vec<Option<Agent>>,
    pub body: Vec<Option<Body>>,
    pub light: Vec<Option<LightEmitter>>,
    /// The world clock, in seconds since midnight.
    pub time_of_day: u32,
    /// Notifications in the order they were sent.
    pub outbox: Vec<Note>,
}

pub open spec fn note_is(n: Note, to: usize, kind: NoteKind, text: Seq<char>) -> bool {
    n.to == to && n.kind == kind && n.text@ == text
}

impl World {
    pub open spec fn len(&self) -> nat {
        self.pos@.len()
    }

    pub open spec fn wf(&self) -> bool {
        &&& self.vel@.len() == self.len()
        &&& self.force_update@.len() == self.len()
        &&& self.alias@.len() == self.len()
        &&& self.stats@.len() == self.len()
        &&& self.can_build@.len() == self.len()
        &&& self.agent@.len() == self.len()
        &&& self.body@.len() == self.len()
        &&& self.light@.len() == self.len()
    }

    /// The position of entity `e`, if it exists and has one.
    pub open spec fn pos_of(&self, e: usize) -> Option<Fixed3> {
        if e < self.len() {
            self.pos@[e as int]
        } else {
            None
        }
    }

    pub open spec fn stats_of(&self, e: usize) -> Option<Stats> {
        if e < self.len() {
            self.stats@[e as int]
        } else {
            None
        }
    }

    pub open spec fn alias_of(&self, e: usize) -> Option<Seq<char>> {
        if e < self.len() && self.alias@[e as int].is_some() {
            Some(self.alias@[e as int].unwrap()@)
        } else {
            None
        }
    }

    pub open spec fn builds(&self, e: usize) -> bool {
        e < self.len() && self.can_build@[e as int]
    }

    pub open spec fn light_of(&self, e: usize) -> Option<LightEmitter> {
        if e < self.len() {
            self.light@[e as int]
        } else {
            None
        }
    }

    /// All component storages and the clock are as in `o`, except `part`.
    pub open spec fn same_except(&self, o: &World, part: Part) -> bool {
        &&& (!(part is Pos) ==> self.pos@ == o.pos@ && self.force_update@ == o.force_update@)
        &&& self.vel@ == o.vel@
        &&& (!(part is Alias) ==> self.alias@ == o.alias@)
        &&& (!(part is Stats) ==> self.stats@ == o.stats@)
        &&& (!(part is Build) ==> self.can_build@ == o.can_build@)
        &&& self.agent@ == o.agent@
        &&& self.body@ == o.body@
        &&& (!(part is Light) ==> self.light@ == o.light@)
        &&& (!(part is Clock) ==> self.time_of_day == o.time_of_day)
    }

    /// Nothing but the outbox differs from `o`.
    pub open spec fn same_state(&self, o: &World) -> bool {
        &&& self.pos@ == o.pos@
        &&& self.force_update@ == o.force_update@
        &&& self.same_except(o, Part::Pos)
    }

    /// The outbox is that of `o` followed by `notes`.
    pub open spec fn sent(&self, o: &World, notes: Seq<(usize, NoteKind, Seq<char>)>) -> bool {
        &&& self.outbox@.len() == o.outbox@.len() + notes.len()
        &&& forall|i: int| 0 <= i < o.outbox@.len() ==> self.outbox@[i] == o.outbox@[i]
        &&& forall|j: int|
            0 <= j < notes.len() ==> note_is(
                #[trigger] self.outbox@[o.outbox@.len() + j],
                notes[j].0,
                notes[j].1,
                notes[j].2,
            )
    }

    /// The outbox is that of `o` followed by one private message.
    pub open spec fn told(&self, o: &World, to: usize, text: Seq<char>) -> bool {
        self.sent(o, seq![(to, NoteKind::Private, text)])
    }

    /// Notes sent in two steps are sent in one.
    pub proof fn lemma_sent_then(
        w2: World,
        w1: World,
        o: World,
        a: Seq<(usize, NoteKind, Seq<char>)>,
        b: Seq<(usize, NoteKind, Seq<char>)>,
    )
        requires
            w1.sent(&o, a),
            w2.sent(&w1, b),
        ensures
            w2.sent(&o, a + b),
    {
        let n = o.outbox@.len();
        assert forall|j: int| 0 <= j < (a + b).len() implies note_is(
            #[trigger] w2.outbox@[n + j],
            (a + b)[j].0,
            (a + b)[j].1,
            (a + b)[j].2,
        ) by {
            if j < a.len() {
                assert(w2.outbox@[n + j] == w1.outbox@[n + j]);
                assert(note_is(w1.outbox@[n + j], a[j].0, a[j].1, a[j].2));
            } else {
                let k = j - a.len();
                assert(note_is(w2.outbox@[w1.outbox@.len() + k], b[k].0, b[k].1, b[k].2));
            }
        }
    }

    /// An empty world with the clock at midnight.
    pub fn new() -> (w: World)
        ensures
            w.wf(),
            w.len() == 0,
            w.time_of_day == 0,
            w.outbox@.len() == 0,
    {
        World {
            pos: Vec::new(),
            vel: Vec::new(),
            force_update: Vec::new(),
            alias: Vec::new(),
            stats: Vec::new(),
            can_build: Vec::new(),
            agent: Vec::new(),
            body: Vec::new(),
            light: Vec::new(),
            time_of_day: 0,
            outbox: Vec::new(),
        }
    }

    /// Adds an entity with no components and returns it.
    pub fn create_entity(&mut self) -> (e: usize)
        requires
            old(self).wf(),
        ensures
            final(self).wf(),
            e == old(self).len(),
            final(self).len() == old(self).len() + 1,
            final(self).pos@ == old(self).pos@.push(None),
            final(self).vel@ == old(self).vel@.push(None),
            final(self).force_update@ == old(self).force_update@.push(false),
            final(self).alias@ == old(self).alias@.push(None),
            final(self).stats@ == old(self).stats@.push(None),
            final(self).can_build@ == old(self).can_build@.push(false),
            final(self).agent@ == old(self).agent@.push(None),
            final(self).body@ == old(self).body@.push(None),
            final(self).light@ == old(self).light@.push(None),
            final(self).time_of_day == old(self).time_of_day,
            final(self).outbox@ == old(self).outbox@,
    {
        let e = self.pos.len();
        self.pos.push(None);
        self.vel.push(None);
        self.force_update.push(false);
        self.alias.push(None);
        self.stats.push(None);
        self.can_build.push(false);
        self.agent.push(None);
        self.body.push(None);
        self.light.push(None);
        e
    }

    /// Gives entity `e` a position.
    pub fn set_pos(&mut self, e: usize, p: Fixed3)
        requires
            old(self).wf(),
            e < old(self).len(),
        ensures
            final(self).wf(),
            final(self).pos@ == old(self).pos@.update(e as int, Some(p)),
            final(self).force_update@ == old(self).force_update@,
            final(self).same_except(old(self), Part::Pos),
            final(self).outbox@ == old(self).outbox@,
    {
        self.pos.set(e, Some(p));
    }

    /// Makes entity `e` a player with the given alias.
    pub fn set_alias(&mut self, e: usize, alias: String)
        requires
            old(self).wf(),
            e < old(self).len(),
        ensures
            final(self).wf(),
            final(self).alias@ == old(self).alias@.update(e as int, Some(alias)),
            final(self).same_except(old(self), Part::Alias),
            final(self).pos@ == old(self).pos@,
            final(self).force_update@ == old(self).force_update@,
            final(self).outbox@ == old(self).outbox@,
    {
        self.alias.set(e, Some(alias));
    }

    /// Gives entity `e` stats with the given health.
    pub fn set_health(&mut self, e: usize, health: u32)
        requires
            old(self).wf(),
            e < old(self).len(),
        ensures
            final(self).wf(),
            final(self).stats@ == old(self).stats@.update(
                e as int,
                Some(Stats { health, last_change: None }),
            ),
            final(self).same_except(old(self), Part::Stats),
            final(self).pos@ == old(self).pos@,
            final(self).force_update@ == old(self).force_update@,
            final(self).outbox@ == old(self).outbox@,
    {
        self.stats.set(e, Some(Stats { health, last_change: None }));
    }

    /// Sends `text` to entity `to`.
    pub fn notify(&mut self, to: usize, kind: NoteKind, text: String)
        ensures
            final(self).sent(old(self), seq![(to, kind, text@)]),
            final(self).same_state(old(self)),
            final(self).pos@ == old(self).pos@,
            final(self).force_update@ == old(self).force_update@,
            final(self).len() == old(self).len(),
            final(self).wf() == old(self).wf(),
    {
        self.outbox.push(Note { to, kind, text });
    }
}

} // verus!
