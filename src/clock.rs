//! Setting the world clock from a named time of day or a written time.
use vstd::prelude::*;
use crate::args::{Value, text_at, get_text};
use crate::message::{push_str, push_chars, push_two_digits, two_digits};
use crate::registry::ChatCommand;
use crate::text::{chars_eq_str, chars_of};
use crate::world::{World, NoteKind, Part};
use crate::handlers::only_told;

verus! {

/// Seconds since midnight of the time chrono reads from `s` with `NaiveTime`'s `FromStr`.
pub uninterp spec fn naive_time_from_str(s: Seq<char>) -> Option<nat>;

/// Seconds since midnight of the time chrono reads from `s` with the
/// strftime-style format `fmt`.
pub uninterp spec fn naive_time_parse_from_str(s: Seq<char>, fmt: Seq<char>) -> Option<nat>;

/// Relies on `<chrono::NaiveTime as FromStr>::from_str`, and on
/// `Timelike::num_seconds_from_midnight`, which reads a field that is always
/// below 86400.
#[verifier::external_body]
fn parse_time(s: &str) -> (r: Option<u32>)
    ensures
        r.is_some() == naive_time_from_str(s@).is_some(),
        r.is_some() ==> r.unwrap() == naive_time_from_str(s@).unwrap(),
        r.is_some() ==> r.unwrap() < 86400,
{
    s.parse::<chrono::NaiveTime>().ok().map(|t| chrono::Timelike::num_seconds_from_midnight(&t))
}

/// Relies on `chrono::NaiveTime::parse_from_str`, and on
/// `Timelike::num_seconds_from_midnight` as above.
#[verifier::external_body]
fn parse_time_with(s: &str, fmt: &str) -> (r: Option<u32>)
    ensures
        r.is_some() == naive_time_parse_from_str(s@, fmt@).is_some(),
        r.is_some() ==> r.unwrap() == naive_time_parse_from_str(s@, fmt@).unwrap(),
        r.is_some() ==> r.unwrap() < 86400,
{
    chrono::NaiveTime::parse_from_str(s, fmt).ok().map(
        |t| chrono::Timelike::num_seconds_from_midnight(&t),
    )
}

pub open spec fn opt_nat(v: Option<u32>) -> Option<nat> {
    match v {
        Some(x) => Some(x as nat),
        None => None,
    }
}

/// Seconds since midnight of `h:m:s`.
pub open spec fn hms(h: nat, m: nat, s: nat) -> nat {
    h * 3600 + m * 60 + s
}

/// The time a token names: one of the four named times, else the time
/// read in full, else the time read as hours and minutes.
pub open spec fn time_named(tok: Seq<char>, full: Option<nat>, hm: Option<nat>) -> Option<nat> {
    if tok == "night"@ {
        Some(hms(0, 0, 0))
    } else if tok == "dawn"@ {
        Some(hms(5, 0, 0))
    } else if tok == "day"@ {
        Some(hms(12, 0, 0))
    } else if tok == "dusk"@ {
        Some(hms(17, 0, 0))
    } else if full.is_some() {
        full
    } else {
        hm
    }
}

/// A time as `HH:MM`.
pub open spec fn clock_text(secs: nat) -> Seq<char> {
    two_digits(secs / 3600) + ":"@ + two_digits((secs % 3600) / 60)
}

/// Resolves a time token, given what the two readings of chrono gave.
pub fn resolve_time(tok: &Vec<char>, full: Option<u32>, hm: Option<u32>) -> (r: Option<u32>)
    ensures
        r.is_some() == time_named(
            tok@,
            opt_nat(full),
            opt_nat(hm),
        ).is_some(),
        r.is_some() ==> r.unwrap() as nat == time_named(
            tok@,
            opt_nat(full),
            opt_nat(hm),
        ).unwrap(),
{
    if chars_eq_str(tok, "night") {
        Some(0)
    } else if chars_eq_str(tok, "dawn") {
        Some(5 * 3600)
    } else if chars_eq_str(tok, "day") {
        Some(12 * 3600)
    } else if chars_eq_str(tok, "dusk") {
        Some(17 * 3600)
    } else if full.is_some() {
        full
    } else {
        hm
    }
}

pub open spec fn time_effect(
    o: World,
    w: World,
    e: usize,
    tok: Option<Seq<char>>,
    full: Option<nat>,
    hm: Option<nat>,
) -> bool {
    match tok {
        Some(t) => match time_named(t, full, hm) {
            Some(secs) => {
                &&& w.time_of_day == secs
                &&& w.same_except(&o, Part::Clock)
                &&& w.pos@ == o.pos@
                &&& w.force_update@ == o.force_update@
                &&& w.told(&o, e, "Time changed to: "@ + clock_text(secs))
            },
            None => only_told(o, w, e, "'"@ + t + "' is not a valid time."@),
        },
        None => only_told(o, w, e, "You must specify a time!"@),
    }
}

/// Sets the clock from a token and what chrono read from it.
pub fn apply_time(
    world: &mut World,
    entity: usize,
    tok: Option<&Vec<char>>,
    full: Option<u32>,
    hm: Option<u32>,
)
    requires
        old(world).wf(),
        full.is_some() ==> full.unwrap() < 86400,
        hm.is_some() ==> hm.unwrap() < 86400,
    ensures
        final(world).wf(),
        time_effect(
            *old(world),
            *final(world),
            entity,
            match tok { Some(t) => Some(t@), None => None },
            opt_nat(full),
            opt_nat(hm),
        ),
{
    match tok {
        Some(t) => match resolve_time(t, full, hm) {
            Some(secs) => {
                world.time_of_day = secs;
                let mut m = "Time changed to: ".to_owned();
                push_two_digits(&mut m, (secs / 3600) as u64);
                push_str(&mut m, ":");
                push_two_digits(&mut m, ((secs % 3600) / 60) as u64);
                assert(m@ =~= "Time changed to: "@ + clock_text(secs as nat));
                world.notify(entity, NoteKind::Private, m);
            },
            None => {
                let mut m = "'".to_owned();
                push_chars(&mut m, t);
                push_str(&mut m, "' is not a valid time.");
                assert(m@ =~= "'"@ + t@ + "' is not a valid time."@);
                world.notify(entity, NoteKind::Private, m);
            },
        },
        None => {
            world.notify(entity, NoteKind::Private, "You must specify a time!".to_owned());
        },
    }
}

/// Sets the world clock.
pub fn handle_time(
    world: &mut World,
    entity: usize,
    args: &Vec<char>,
    parsed: &Vec<Option<Value>>,
    action: &ChatCommand,
)
    requires
        old(world).wf(),
    ensures
        final(world).wf(),
        text_at(parsed@, 0).is_none() ==> time_effect(*old(world), *final(world), entity, None, None, None),
        text_at(parsed@, 0).is_some() ==> time_effect(
            *old(world),
            *final(world),
            entity,
            text_at(parsed@, 0),
            naive_time_from_str(text_at(parsed@, 0).unwrap()),
            naive_time_parse_from_str(text_at(parsed@, 0).unwrap(), "%H:%M"@),
        ),
{
    match get_text(parsed, 0) {
        Some(t) => {
            let full = parse_time(t.as_str());
            let hm = parse_time_with(t.as_str(), "%H:%M");
            let tok = chars_of(t.as_str());
            apply_time(world, entity, Some(&tok), full, hm);
        },
        None => apply_time(world, entity, None, None, None),
    }
}

} // verus!
