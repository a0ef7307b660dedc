use chat_cmd::args::{parse_args, SlotKind, Value};
use chat_cmd::clock::resolve_time;
use chat_cmd::dispatch::dispatch;
use chat_cmd::number::{parse_fixed, parse_int};
use chat_cmd::registry::{chat_commands, lookup};
use chat_cmd::skeleton::{BipedSmallBody, BodyType, FigureBody, SkeletonAttr, Species};
use chat_cmd::text::chars_of;
use chat_cmd::world::{Agent, Body, Fixed3, HealthSource, NoteKind, ObjectKind, Stats, World};

fn at(x: i64, y: i64, z: i64) -> Fixed3 {
    Fixed3 { x, y, z }
}

fn entity(w: &mut World, alias: Option<&str>, pos: Option<Fixed3>, health: Option<u32>) -> usize {
    let e = w.create_entity();
    if let Some(a) = alias {
        w.set_alias(e, a.to_string());
    }
    if let Some(p) = pos {
        w.set_pos(e, p);
    }
    if let Some(h) = health {
        w.set_health(e, h);
    }
    e
}

fn run(w: &mut World, e: usize, line: &str) {
    let cmds = chat_commands();
    dispatch(w, &cmds, e, line);
}

fn texts(w: &World) -> Vec<String> {
    w.outbox.iter().map(|n| n.text.clone()).collect()
}

fn help_of(keyword: &str) -> String {
    let cmds = chat_commands();
    cmds.iter().find(|c| c.keyword == keyword).unwrap().help_string.clone()
}

#[test]
fn lookup_returns_entry_with_queried_keyword() {
    let cmds = chat_commands();
    assert_eq!(cmds.len(), 16);
    for c in cmds.iter() {
        let found = lookup(&cmds, &chars_of(&c.keyword)).unwrap();
        assert_eq!(found.keyword, c.keyword);
    }
    assert!(lookup(&cmds, &chars_of("Jump")).is_none());
    assert!(lookup(&cmds, &chars_of("fly")).is_none());
}

#[test]
fn empty_input_leaves_every_slot_absent() {
    let grammar = vec![SlotKind::Int, SlotKind::Fixed, SlotKind::Word, SlotKind::Species, SlotKind::Rest];
    let parsed = parse_args(&grammar, &Vec::new());
    assert_eq!(parsed.len(), 5);
    assert!(parsed.iter().all(|v| v.is_none()));
}

#[test]
fn slots_read_positionally() {
    let grammar = vec![SlotKind::Word, SlotKind::Species, SlotKind::Int, SlotKind::Rest];
    let parsed = parse_args(&grammar, &chars_of("hostile  Pig x tail of  it"));
    assert!(matches!(&parsed[0], Some(Value::Text(t)) if t == "hostile"));
    assert!(matches!(parsed[1], Some(Value::Species(chat_cmd::world::NpcKind::Pig))));
    assert!(parsed[2].is_none());
    assert!(matches!(&parsed[3], Some(Value::Text(t)) if t == "tail of  it"));
}

#[test]
fn numbers_parse_in_thousandths() {
    assert_eq!(parse_fixed(&chars_of("1.2345")), Some(1234));
    assert_eq!(parse_fixed(&chars_of("-0.5")), Some(-500));
    assert_eq!(parse_fixed(&chars_of("+7")), Some(7000));
    assert_eq!(parse_fixed(&chars_of("3.")), Some(3000));
    assert_eq!(parse_fixed(&chars_of(".5")), Some(500));
    assert_eq!(parse_fixed(&chars_of("-.25")), Some(-250));
    assert_eq!(parse_fixed(&chars_of(".")), None);
    assert_eq!(parse_fixed(&chars_of("-")), None);
    assert_eq!(parse_fixed(&chars_of("1.2.3")), None);
    assert_eq!(parse_fixed(&chars_of("abc")), None);
    assert_eq!(parse_int(&chars_of("-42")), Some(-42));
    assert_eq!(parse_int(&chars_of("4x")), None);
    assert_eq!(parse_int(&chars_of("-")), None);
    assert_eq!(parse_int(&chars_of("1000000000000000")), Some(1_000_000_000_000_000));
    assert_eq!(parse_int(&chars_of("1000000000000001")), None);
}

#[test]
fn jump_offsets_position_and_marks_resync() {
    let mut w = World::new();
    let e = entity(&mut w, Some("ann"), Some(at(1000, 2000, 3000)), None);
    run(&mut w, e, "jump 1 2.5 -3");
    assert_eq!(w.pos[e], Some(at(2000, 4500, 0)));
    run(&mut w, e, "jump -1 -2.5 .5");
    assert_eq!(w.pos[e], Some(at(1000, 2000, 500)));
    assert!(w.force_update[e]);
    assert!(w.outbox.is_empty());
}

#[test]
fn jump_without_position_only_reports() {
    let mut w = World::new();
    let e = entity(&mut w, Some("ann"), None, None);
    run(&mut w, e, "jump 1 2 3");
    assert_eq!(w.pos[e], None);
    assert!(!w.force_update[e]);
    assert_eq!(texts(&w), vec!["You have no position!".to_string()]);
    assert_eq!(w.outbox[0].kind, NoteKind::Private);
}

#[test]
fn jump_with_missing_offset_shows_help() {
    let mut w = World::new();
    let e = entity(&mut w, None, Some(at(0, 0, 0)), None);
    run(&mut w, e, "jump 1 2");
    assert_eq!(texts(&w), vec![help_of("jump")]);
    assert_eq!(w.pos[e], Some(at(0, 0, 0)));
}

#[test]
fn goto_sets_absolute_position() {
    let mut w = World::new();
    let e = entity(&mut w, None, Some(at(5, 5, 5)), None);
    run(&mut w, e, "goto 10 -20 30.25");
    assert_eq!(w.pos[e], Some(at(10000, -20000, 30250)));
    assert!(w.force_update[e]);
    let f = entity(&mut w, None, None, None);
    run(&mut w, f, "goto 1 2 3");
    assert_eq!(texts(&w), vec!["You don't have any position!".to_string()]);
}

#[test]
fn spawn_three_hostile_wolves() {
    let mut w = World::new();
    let e = entity(&mut w, Some("ann"), Some(at(100, 200, 300)), None);
    run(&mut w, e, "spawn hostile Wolf 3");
    assert_eq!(w.pos.len(), 4);
    for i in 1..4 {
        assert_eq!(w.agent[i], Some(Agent::Enemy { target: None }));
        assert_eq!(w.body[i], Some(Body::QuadrupedMedium));
        assert_eq!(w.pos[i], Some(at(100, 200, 300)));
        let v = w.vel[i].unwrap();
        assert!(-2000 <= v.x && v.x < 3000 && -2000 <= v.y && v.y < 3000 && v.z == 10000);
    }
    assert_eq!(texts(&w), vec!["Spawned 3 entities".to_string()]);
}

#[test]
fn spawn_without_amount_spawns_one() {
    let mut w = World::new();
    let e = entity(&mut w, Some("ann"), Some(at(0, 0, 0)), None);
    run(&mut w, e, "spawn friendly Pig");
    assert_eq!(w.pos.len(), 2);
    assert_eq!(w.agent[1], Some(Agent::Pet { owner: e }));
    assert_eq!(w.body[1], Some(Body::Quadruped));
    assert_eq!(texts(&w), vec!["Spawned 1 entities".to_string()]);
}

#[test]
fn spawn_unknown_species_spawns_nothing() {
    let mut w = World::new();
    let e = entity(&mut w, Some("ann"), Some(at(0, 0, 0)), None);
    run(&mut w, e, "spawn hostile Unknown 3");
    assert_eq!(w.pos.len(), 1);
    assert_eq!(texts(&w), vec![help_of("spawn")]);
}

#[test]
fn spawn_rejects_bad_amount_and_alignment() {
    let mut w = World::new();
    let e = entity(&mut w, Some("ann"), Some(at(0, 0, 0)), None);
    run(&mut w, e, "spawn hostile Wolf 0");
    run(&mut w, e, "spawn hostile Wolf many");
    run(&mut w, e, "spawn passive Wolf 2");
    assert_eq!(w.pos.len(), 1);
    assert_eq!(texts(&w), vec![help_of("spawn"), help_of("spawn"), help_of("spawn")]);
    let f = entity(&mut w, None, None, None);
    run(&mut w, f, "spawn hostile Humanoid");
    assert_eq!(w.pos.len(), 2);
    assert_eq!(texts(&w)[3], help_of("spawn"));
}

#[test]
fn time_dusk_sets_clock() {
    let mut w = World::new();
    let e = entity(&mut w, Some("ann"), None, None);
    run(&mut w, e, "time dusk");
    assert_eq!(w.time_of_day, 17 * 3600);
    assert_eq!(texts(&w), vec!["Time changed to: 17:00".to_string()]);
}

#[test]
fn time_invalid_leaves_clock() {
    let mut w = World::new();
    let e = entity(&mut w, Some("ann"), None, None);
    run(&mut w, e, "time dawn");
    run(&mut w, e, "time 25:99");
    assert_eq!(w.time_of_day, 5 * 3600);
    assert_eq!(texts(&w)[1], "'25:99' is not a valid time.");
    run(&mut w, e, "time");
    assert_eq!(texts(&w)[2], "You must specify a time!");
}

#[test]
fn time_reads_written_times() {
    let mut w = World::new();
    let e = entity(&mut w, None, None, None);
    run(&mut w, e, "time 08:30");
    assert_eq!(w.time_of_day, 8 * 3600 + 30 * 60);
    assert_eq!(texts(&w), vec!["Time changed to: 08:30".to_string()]);
    run(&mut w, e, "time 23:59:58");
    assert_eq!(w.time_of_day, 86398);
    assert_eq!(texts(&w)[1], "Time changed to: 23:59");
}

#[test]
fn resolve_time_prefers_named_then_full_then_hour_minute() {
    assert_eq!(resolve_time(&chars_of("night"), Some(5), Some(6)), Some(0));
    assert_eq!(resolve_time(&chars_of("day"), None, None), Some(43200));
    assert_eq!(resolve_time(&chars_of("x"), Some(5), Some(6)), Some(5));
    assert_eq!(resolve_time(&chars_of("x"), None, Some(6)), Some(6));
    assert_eq!(resolve_time(&chars_of("x"), None, None), None);
}

#[test]
fn tell_to_self_is_refused() {
    let mut w = World::new();
    let e = entity(&mut w, Some("ann"), None, None);
    run(&mut w, e, "tell ann hi");
    assert_eq!(texts(&w), vec!["Don't be crazy!".to_string()]);
}

#[test]
fn tell_without_message_is_refused() {
    let mut w = World::new();
    let e = entity(&mut w, Some("ann"), None, None);
    entity(&mut w, Some("bob"), None, None);
    run(&mut w, e, "tell bob");
    assert_eq!(texts(&w), vec!["You really should say something to bob!".to_string()]);
}

#[test]
fn tell_delivers_two_notes() {
    let mut w = World::new();
    let e = entity(&mut w, Some("ann"), None, None);
    let b = entity(&mut w, Some("bob"), None, None);
    run(&mut w, e, "tell bob hi");
    assert_eq!(w.outbox.len(), 2);
    assert_eq!(w.outbox[0].to, b);
    assert_eq!(w.outbox[0].kind, NoteKind::Tell);
    assert_eq!(w.outbox[0].text, "ann tells you: hi");
    assert_eq!(w.outbox[1].to, e);
    assert_eq!(w.outbox[1].text, "You tell bob: hi");
    run(&mut w, e, "tell carl hi");
    assert_eq!(texts(&w)[2], "Player 'carl' not found!");
}

#[test]
fn build_toggles_back() {
    let mut w = World::new();
    let e = entity(&mut w, Some("ann"), None, None);
    run(&mut w, e, "build");
    assert!(w.can_build[e]);
    run(&mut w, e, "build");
    assert!(!w.can_build[e]);
    assert_eq!(texts(&w), vec!["Toggled on build mode!".to_string(), "Toggled off build mode!".to_string()]);
}

#[test]
fn killnpcs_spares_players() {
    let mut w = World::new();
    let p = entity(&mut w, Some("ann"), None, Some(80));
    let n1 = entity(&mut w, None, None, Some(50));
    let n2 = entity(&mut w, None, None, Some(60));
    let bare = entity(&mut w, None, None, None);
    run(&mut w, p, "killnpcs");
    assert_eq!(w.stats[p], Some(Stats { health: 80, last_change: None }));
    assert_eq!(w.stats[n1].unwrap().health, 0);
    assert_eq!(w.stats[n2].unwrap().health, 0);
    assert_eq!(w.stats[bare], None);
    assert_eq!(texts(&w), vec!["Destroyed 2 NPCs.".to_string()]);
    let mut v = World::new();
    let q = entity(&mut v, Some("ann"), None, Some(10));
    run(&mut v, q, "killnpcs");
    assert_eq!(texts(&v), vec!["No NPCs on server.".to_string()]);
}

#[test]
fn kill_and_health_change_stats() {
    let mut w = World::new();
    let e = entity(&mut w, Some("ann"), None, Some(100));
    run(&mut w, e, "health 42");
    assert_eq!(w.stats[e], Some(Stats { health: 42, last_change: Some(HealthSource::Command) }));
    run(&mut w, e, "health -1");
    assert_eq!(texts(&w), vec!["You must specify health amount!".to_string()]);
    run(&mut w, e, "kill");
    assert_eq!(w.stats[e], Some(Stats { health: 0, last_change: Some(HealthSource::Suicide) }));
    let f = entity(&mut w, None, None, None);
    run(&mut w, f, "kill");
    assert_eq!(w.stats[f], None);
    assert_eq!(w.outbox.len(), 1);
}

#[test]
fn alias_and_tp() {
    let mut w = World::new();
    let e = entity(&mut w, Some("ann"), Some(at(0, 0, 0)), None);
    let b = entity(&mut w, Some("bob"), Some(at(7, 8, 9)), None);
    run(&mut w, e, "tp bob");
    assert_eq!(w.pos[e], Some(at(7, 8, 9)));
    run(&mut w, b, "alias robert");
    assert_eq!(w.alias[b].as_deref(), Some("robert"));
    run(&mut w, e, "tp bob");
    assert_eq!(texts(&w), vec!["Player 'bob' not found!".to_string(), help_of("tp")]);
}

#[test]
fn players_lists_aliases() {
    let mut w = World::new();
    let e = entity(&mut w, Some("ann"), None, None);
    entity(&mut w, None, None, Some(3));
    entity(&mut w, Some("bob"), None, None);
    run(&mut w, e, "players");
    assert_eq!(texts(&w), vec!["2 online players: \nann,\nbob".to_string()]);
}

#[test]
fn help_sections() {
    let mut w = World::new();
    let e = entity(&mut w, None, None, None);
    run(&mut w, e, "help list");
    assert_eq!(w.outbox.len(), 16);
    assert_eq!(w.outbox[0].text, "/jump <dx> <dy> <dz> : Offset your current position");
    run(&mut w, e, "help fly");
    assert_eq!(w.outbox[16].text, "There's currently not any detailed help section for 'fly'");
    run(&mut w, e, "help");
    assert_eq!(w.outbox[17].text, "Specify the section you would like help with. e.g. /help time");
}

#[test]
fn unknown_command_is_reported() {
    let mut w = World::new();
    let e = entity(&mut w, None, None, None);
    run(&mut w, e, "fly high");
    assert_eq!(texts(&w), vec!["Unknown command '/fly'. Type '/help' for available commands".to_string()]);
}

#[test]
fn object_light_and_lantern() {
    let mut w = World::new();
    let e = entity(&mut w, None, Some(at(1, 2, 3)), None);
    run(&mut w, e, "object Chest_Gold");
    assert_eq!(w.body[1], Some(Body::Object(ObjectKind::ChestGold)));
    run(&mut w, e, "object Sofa");
    assert_eq!(w.pos.len(), 2);
    run(&mut w, e, "light 0.5 0.25 1 0 0 2 3");
    let l = w.light[2].unwrap();
    assert_eq!(l.col, at(500, 250, 1000));
    assert_eq!(l.offset, at(0, 0, 2000));
    assert_eq!(l.strength, 3000);
    run(&mut w, e, "lantern");
    assert_eq!(w.light[e].unwrap().strength, 1500);
    run(&mut w, e, "lantern");
    assert_eq!(w.light[e], None);
    assert_eq!(
        texts(&w),
        vec![
            "Spawned object.".to_string(),
            "Object not found!".to_string(),
            "Spawned object.".to_string(),
            "You lighted your lantern.".to_string(),
            "You put out the lantern.".to_string(),
        ]
    );
}

#[test]
fn skeleton_offsets_by_species() {
    let b = BipedSmallBody { species: Species::Sahagin, body_type: BodyType::Male };
    let a = SkeletonAttr::try_from(&FigureBody::BipedSmall(b)).unwrap();
    assert_eq!(a.head, (14, -7));
    assert_eq!(a.hand, (19, 7, -4));
    assert!(SkeletonAttr::try_from(&FigureBody::Other).is_err());
    assert_eq!(SkeletonAttr::default().foot, (0, 0, 0));
}
