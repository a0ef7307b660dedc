//! The argument grammar: a command declares one slot per argument, and the
//! text after its keyword is read slot by slot, each slot on its own token.
use vstd::prelude::*;
use crate::text::{token, rest_from, token_at, rest_at};
use crate::number::{int_of, fixed_of, parse_int, parse_fixed};
use crate::message::string_of;
use crate::world::NpcKind;

verus! {

/// What one argument slot accepts.
#[derive(Clone, Copy, Debug, PartialEq, Eq)]
pub enum SlotKind {
    /// A signed decimal integer.
    Int,
    /// A signed decimal number, kept in thousandths.
    Fixed,
    /// Any one token.
    Word,
    /// One of the NPC archetype names.
    Species,
    /// The text from this token to the end of the input.
    Rest,
}

/// A value read for one slot.
#[derive(Debug)]
pub enum Value {
    Int(i64),
    Fixed(i64),
    Text(String),
    Species(NpcKind),
}

/// The archetype a name stands for; the spelling is matched exactly.
pub open spec fn npc_kind_of(t: Seq<char>) -> Option<NpcKind> {
    if t == "Humanoid"@ {
        Some(NpcKind::Humanoid)
    } else if t == "Pig"@ {
        Some(NpcKind::Pig)
    } else if t == "Wolf"@ {
        Some(NpcKind::Wolf)
    } else {
        None
    }
}

pub fn parse_npc_kind(t: &Vec<char>) -> (r: Option<NpcKind>)
    ensures
        r == npc_kind_of(t@),
{
    if crate::text::chars_eq_str(t, "Humanoid") {
        Some(NpcKind::Humanoid)
    } else if crate::text::chars_eq_str(t, "Pig") {
        Some(NpcKind::Pig)
    } else if crate::text::chars_eq_str(t, "Wolf") {
        Some(NpcKind::Wolf)
    } else {
        None
    }
}

/// Whether `v` is what slot `k` of kind `kind` reads from `s`.
pub open spec fn slot_reads(kind: SlotKind, s: Seq<char>, k: nat, v: Option<Value>) -> bool {
    match kind {
        SlotKind::Int => match (token(s, k), v) {
            (Some(t), Some(Value::Int(i))) => int_of(t) == Some(i as int),
            (Some(t), None) => int_of(t).is_none(),
            (None, None) => true,
            _ => false,
        },
        SlotKind::Fixed => match (token(s, k), v) {
            (Some(t), Some(Value::Fixed(i))) => fixed_of(t) == Some(i as int),
            (Some(t), None) => fixed_of(t).is_none(),
            (None, None) => true,
            _ => false,
        },
        SlotKind::Word => match (token(s, k), v) {
            (Some(t), Some(Value::Text(x))) => x@ == t,
            (None, None) => true,
            _ => false,
        },
        SlotKind::Species => match (token(s, k), v) {
            (Some(t), Some(Value::Species(n))) => npc_kind_of(t) == Some(n),
            (Some(t), None) => npc_kind_of(t).is_none(),
            (None, None) => true,
            _ => false,
        },
        SlotKind::Rest => match (rest_from(s, k), v) {
            (Some(t), Some(Value::Text(x))) => x@ == t,
            (None, None) => true,
            _ => false,
        },
    }
}

/// Whether `p` is what `grammar` reads from `s`, slot by slot.
pub open spec fn parsed_as(grammar: Seq<SlotKind>, s: Seq<char>, p: Seq<Option<Value>>) -> bool {
    &&& p.len() == grammar.len()
    &&& forall|k: int| 0 <= k < p.len() ==> slot_reads(grammar[k], s, k as nat, #[trigger] p[k])
}

/// Reads slot `k` of kind `kind` from `s`.
pub fn parse_slot(kind: SlotKind, s: &Vec<char>, k: usize) -> (r: Option<Value>)
    ensures
        slot_reads(kind, s@, k as nat, r),
{
    match kind {
        SlotKind::Rest => match rest_at(s, k) {
            Some(t) => Some(Value::Text(string_of(&t))),
            None => None,
        },
        _ => match token_at(s, k) {
            Some(t) => match kind {
                SlotKind::Int => match parse_int(&t) {
                    Some(i) => Some(Value::Int(i)),
                    None => None,
                },
                SlotKind::Fixed => match parse_fixed(&t) {
                    Some(i) => Some(Value::Fixed(i)),
                    None => None,
                },
                SlotKind::Species => match parse_npc_kind(&t) {
                    Some(n) => Some(Value::Species(n)),
                    None => None,
                },
                _ => Some(Value::Text(string_of(&t))),
            },
            None => None,
        },
    }
}

/// Reads every slot of `grammar` from `s`; a slot that cannot be read is
/// absent and leaves the others as they are.
pub fn parse_args(grammar: &Vec<SlotKind>, s: &Vec<char>) -> (r: Vec<Option<Value>>)
    ensures
        parsed_as(grammar@, s@, r@),
{
    let mut r: Vec<Option<Value>> = Vec::new();
    let mut k: usize = 0;
    while k < grammar.len()
        invariant
            k <= grammar.len(),
            r@.len() == k,
            forall|j: int| 0 <= j < k ==> slot_reads(grammar@[j], s@, j as nat, #[trigger] r@[j]),
        decreases grammar.len() - k,
    {
        let v = parse_slot(grammar[k], s, k);
        r.push(v);
        k += 1;
    }
    r
}

/// The integer in slot `k`, if it holds one.
pub open spec fn int_at(p: Seq<Option<Value>>, k: int) -> Option<i64> {
    if 0 <= k < p.len() {
        match p[k] {
            Some(Value::Int(i)) => Some(i),
            _ => None,
        }
    } else {
        None
    }
}

/// The number in slot `k`, in thousandths, if it holds one.
pub open spec fn fixed_at(p: Seq<Option<Value>>, k: int) -> Option<i64> {
    if 0 <= k < p.len() {
        match p[k] {
            Some(Value::Fixed(i)) => Some(i),
            _ => None,
        }
    } else {
        None
    }
}

/// The text in slot `k`, if it holds some.
pub open spec fn text_at(p: Seq<Option<Value>>, k: int) -> Option<Seq<char>> {
    if 0 <= k < p.len() {
        match p[k] {
            Some(Value::Text(t)) => Some(t@),
            _ => None,
        }
    } else {
        None
    }
}

/// The archetype in slot `k`, if it holds one.
pub open spec fn species_at(p: Seq<Option<Value>>, k: int) -> Option<NpcKind> {
    if 0 <= k < p.len() {
        match p[k] {
            Some(Value::Species(n)) => Some(n),
            _ => None,
        }
    } else {
        None
    }
}

pub fn get_int(p: &Vec<Option<Value>>, k: usize) -> (r: Option<i64>)
    ensures
        r == int_at(p@, k as int),
{
    if k < p.len() {
        match &p[k] {
            Some(Value::Int(i)) => Some(*i),
            _ => None,
        }
    } else {
        None
    }
}

pub fn get_fixed(p: &Vec<Option<Value>>, k: usize) -> (r: Option<i64>)
    ensures
        r == fixed_at(p@, k as int),
{
    if k < p.len() {
        match &p[k] {
            Some(Value::Fixed(i)) => Some(*i),
            _ => None,
        }
    } else {
        None
    }
}

pub fn get_text(p: &Vec<Option<Value>>, k: usize) -> (r: Option<String>)
    ensures
        r.is_some() == text_at(p@, k as int).is_some(),
        r.is_some() ==> r.unwrap()@ == text_at(p@, k as int).unwrap(),
{
    if k < p.len() {
        match &p[k] {
            Some(Value::Text(t)) => Some(t.clone()),
            _ => None,
        }
    } else {
        None
    }
}

pub fn get_species(p: &Vec<Option<Value>>, k: usize) -> (r: Option<NpcKind>)
    ensures
        r == species_at(p@, k as int),
{
    if k < p.len() {
        match &p[k] {
            Some(Value::Species(n)) => Some(*n),
            _ => None,
        }
    } else {
        None
    }
}

/// Parsing the empty text leaves every slot absent.
pub proof fn lemma_empty_input_reads_nothing(grammar: Seq<SlotKind>, p: Seq<Option<Value>>)
    requires
        parsed_as(grammar, Seq::empty(), p),
    ensures
        forall|k: int| 0 <= k < p.len() ==> (#[trigger] p[k]).is_none(),
{
    assert forall|k: int| 0 <= k < p.len() implies (#[trigger] p[k]).is_none() by {
        assert(slot_reads(grammar[k], Seq::empty(), k as nat, p[k]));
        crate::text::lemma_token_start_bounds(Seq::<char>::empty(), k as nat);
    }
}

} // verus!
