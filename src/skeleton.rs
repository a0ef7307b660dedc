//! Bone offsets of the small biped rig, in half-units so that every offset
//! is an integer.
use vstd::prelude::*;

verus! {

#[derive(Clone, Copy, Debug, PartialEq, Eq)]
pub enum Species {
    Gnome,
    Sahagin,
    Adlet,
}

#[derive(Clone, Copy, Debug, PartialEq, Eq)]
pub enum BodyType {
    Female,
    Male,
}

/// The body of a small biped.
#[derive(Clone, Copy, Debug, PartialEq, Eq)]
pub struct BipedSmallBody {
    pub species: Species,
    pub body_type: BodyType,
}

/// A figure's body, of which only small bipeds have this rig.
#[derive(Clone, Copy, Debug, PartialEq, Eq)]
pub enum FigureBody {
    BipedSmall(BipedSmallBody),
    Other,
}

/// Offsets of each bone, in half-units.
#[derive(Clone, Copy, Debug, PartialEq, Eq)]
pub struct SkeletonAttr {
    pub head: (i32, i32),
    pub chest: (i32, i32),
    pub shorts: (i32, i32),
    pub tail: (i32, i32),
    pub hand: (i32, i32, i32),
    pub foot: (i32, i32, i32),
}

/// The offsets of each species' rig; the body type does not change them.
pub open spec fn attr_of(s: Species) -> SkeletonAttr {
    match s {
        Species::Gnome => SkeletonAttr {
            head: ((-2) as i32, 18),
            chest: (0, 18),
            shorts: (0, (-6) as i32),
            tail: (0, 0),
            hand: (12, 1, (-2) as i32),
            foot: (6, 0, 8),
        },
        Species::Sahagin => SkeletonAttr {
            head: (14, (-7) as i32),
            chest: (0, 30),
            shorts: (1, (-14) as i32),
            tail: ((-5) as i32, (-4) as i32),
            hand: (19, 7, (-4) as i32),
            foot: (6, 2, 16),
        },
        Species::Adlet => SkeletonAttr {
            head: (0, 14),
            chest: (0, 22),
            shorts: (0, (-6) as i32),
            tail: ((-9) as i32, (-4) as i32),
            hand: (12, (-1) as i32, 0),
            foot: (6, 1, 14),
        },
    }
}

pub open spec fn zero_attr() -> SkeletonAttr {
    SkeletonAttr {
        head: (0, 0),
        chest: (0, 0),
        shorts: (0, 0),
        tail: (0, 0),
        hand: (0, 0, 0),
        foot: (0, 0, 0),
    }
}

impl Default for SkeletonAttr {
    fn default() -> (r: SkeletonAttr)
        ensures
            r == zero_attr(),
    {
        SkeletonAttr {
            head: (0, 0),
            chest: (0, 0),
            shorts: (0, 0),
            tail: (0, 0),
            hand: (0, 0, 0),
            foot: (0, 0, 0),
        }
    }
}

impl SkeletonAttr {
    /// The offsets for a small biped's body.
    pub fn from(body: &BipedSmallBody) -> (r: SkeletonAttr)
        ensures
            r == attr_of(body.species),
    {
        let head = match body.species {
            Species::Gnome => (-2, 18),
            Species::Sahagin => (14, -7),
            Species::Adlet => (0, 14),
        };
        let chest = match body.species {
            Species::Gnome => (0, 18),
            Species::Sahagin => (0, 30),
            Species::Adlet => (0, 22),
        };
        let shorts = match body.species {
            Species::Gnome => (0, -6),
            Species::Sahagin => (1, -14),
            Species::Adlet => (0, -6),
        };
        let tail = match body.species {
            Species::Gnome => (0, 0),
            Species::Sahagin => (-5, -4),
            Species::Adlet => (-9, -4),
        };
        let hand = match body.species {
            Species::Gnome => (12, 1, -2),
            Species::Sahagin => (19, 7, -4),
            Species::Adlet => (12, -1, 0),
        };
        let foot = match body.species {
            Species::Gnome => (6, 0, 8),
            Species::Sahagin => (6, 2, 16),
            Species::Adlet => (6, 1, 14),
        };
        SkeletonAttr { head, chest, shorts, tail, hand, foot }
    }

    /// The offsets for a figure, which must be a small biped.
    pub fn try_from(body: &FigureBody) -> (r: Result<SkeletonAttr, ()>)
        ensures
            match *body {
                FigureBody::BipedSmall(b) => r == Ok::<SkeletonAttr, ()>(attr_of(b.species)),
                FigureBody::Other => r is Err,
            },
    {
        match body {
            FigureBody::BipedSmall(b) => Ok(SkeletonAttr::from(b)),
            FigureBody::Other => Err(()),
        }
    }
}

} // verus!
