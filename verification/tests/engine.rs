use patient_zero::cache::SyncMap;
use patient_zero::clock::{epoch_seconds, now};
use patient_zero::commands::{cure, infect, ping};
use patient_zero::config::{holds_any, GameConfig};
use patient_zero::handlers::{
    advance, check_cure, cure_reason, first_step, has_elapsed, new_message, passes_on, CureReason,
    EngineError, Predecessor, Progress, RoleSync, Step,
};
use patient_zero::models::{stamp, InfectionEvent, InfectionRecord, Player};
use patient_zero::text::{decimal, proximity_reason, threshold_reason, timeout_reason};

const IMMUNE: u64 = 900;
const CARRIER: u64 = 901;

fn config() -> GameConfig {
    GameConfig {
        server_id: 1,
        infected_role: 2,
        immune_roles: Some(vec![IMMUNE]),
        carrier_roles: Some(vec![CARRIER]),
        cure_threshold: 3,
        message_cooldown: 60,
        infection_cooldown: 300,
        cure_timeout: Some(3600),
    }
}

fn player(id: &str, infected: bool, total: i64, sanitized: i64) -> Player {
    Player {
        id: id.to_string(),
        infected,
        total_messages: total,
        sanitized_messages: sanitized,
        last_action: 0,
    }
}

fn predecessor(id: &str, infected: bool, last_sourced: Option<i64>) -> Predecessor {
    Predecessor { id: id.to_string(), infected, roles: vec![], last_sourced }
}

fn infection_of(target: &str, at: i64, sanitized: i64) -> InfectionRecord {
    InfectionRecord {
        event: InfectionEvent::Infected,
        target: target.to_string(),
        source: Some("1".to_string()),
        reason: None,
        recorded_at: at,
        target_total_messages: sanitized,
        target_sanitized_messages: sanitized,
    }
}

#[test]
fn first_message_in_a_channel_infects_nobody() {
    let mut cache = SyncMap::<10>::new();
    let previous = cache.record_message(77, 1, 1001, 5_000);
    assert_eq!(previous, None);
    let a = player("1", false, 1, 1);
    let t = new_message(&a, &vec![], None, None, 5_000, &config());
    assert!(t.is_none());
}

#[test]
fn message_after_an_infected_author_infects() {
    let mut cache = SyncMap::<10>::new();
    assert_eq!(cache.record_message(77, 1, 1001, 5_000), None);
    let previous = cache.record_message(77, 2, 1002, 5_010);
    assert_eq!(previous, Some((1, 1001, 5_000)));

    let b = player("2", false, 4, 3);
    // A is infected and last infected someone 301 seconds ago.
    let a = predecessor("1", true, Some(5_010 - 301));
    let t = new_message(&b, &vec![], Some(&a), None, 5_010, &config()).unwrap();
    assert!(t.infected);
    assert_eq!(t.last_action, None);
    assert_eq!(t.role, RoleSync::AddRole);
    assert_eq!(t.record.event, InfectionEvent::Infected);
    assert_eq!(t.record.target, "2");
    assert_eq!(t.record.source, Some("1".to_string()));
    assert_eq!(t.record.reason, Some("Infected by proximity to <@1>".to_string()));
    assert_eq!(t.record.recorded_at, 5_010);
    assert_eq!(t.record.target_total_messages, 4);
    assert_eq!(t.record.target_sanitized_messages, 3);
}

#[test]
fn message_after_a_healthy_author_infects_nobody() {
    let b = player("2", false, 4, 3);
    let a = predecessor("1", false, None);
    assert!(new_message(&b, &vec![], Some(&a), None, 5_010, &config()).is_none());
}

#[test]
fn source_within_the_infection_cooldown_infects_nobody() {
    let b = player("2", false, 4, 3);
    let just_now = predecessor("1", true, Some(5_010 - 300));
    assert!(new_message(&b, &vec![], Some(&just_now), None, 5_010, &config()).is_none());
    let earlier = predecessor("1", true, Some(5_010 - 299));
    assert!(new_message(&b, &vec![], Some(&earlier), None, 5_010, &config()).is_none());
    let later = predecessor("1", true, Some(6_000));
    assert!(new_message(&b, &vec![], Some(&later), None, 5_010, &config()).is_none());
}

#[test]
fn source_that_never_infected_anyone_infects() {
    let b = player("2", false, 4, 3);
    let a = predecessor("1", true, None);
    let t = new_message(&b, &vec![], Some(&a), None, 5_010, &config()).unwrap();
    assert!(t.infected);
    assert_eq!(t.record.source, Some("1".to_string()));
}

#[test]
fn immune_author_is_never_infected() {
    let b = player("2", false, 4, 3);
    let roles = vec![5, IMMUNE];
    let infected = predecessor("1", true, None);
    assert!(new_message(&b, &roles, Some(&infected), None, 5_010, &config()).is_none());
    let mut carrier = predecessor("1", true, Some(0));
    carrier.roles = vec![CARRIER];
    assert!(new_message(&b, &roles, Some(&carrier), None, 5_010, &config()).is_none());
    assert!(new_message(&b, &roles, None, None, 5_010, &config()).is_none());
}

#[test]
fn carrier_infects_without_being_infected() {
    let b = player("2", false, 4, 3);
    let mut a = predecessor("1", false, None);
    a.roles = vec![3, CARRIER];
    let t = new_message(&b, &vec![], Some(&a), None, 5_010, &config()).unwrap();
    assert!(t.infected);
    assert_eq!(t.record.source, Some("1".to_string()));
    assert!(passes_on(&a, 5_010, &config()));
    a.roles = vec![3];
    assert!(!passes_on(&a, 5_010, &config()));
}

#[test]
fn nobody_infects_themselves() {
    let mut cfg = config();
    cfg.carrier_roles = Some(vec![CARRIER]);
    let b = player("2", false, 4, 3);
    let mut same = predecessor("2", true, None);
    same.roles = vec![CARRIER];
    assert!(new_message(&b, &vec![CARRIER], Some(&same), None, 5_010, &cfg).is_none());
}

#[test]
fn infected_author_is_not_infected_again() {
    let b = player("2", true, 10, 6);
    let a = predecessor("1", true, None);
    let baseline = infection_of("2", 5_000, 5);
    assert!(new_message(&b, &vec![], Some(&a), Some(&baseline), 5_010, &config()).is_none());
    assert!(new_message(&b, &vec![], Some(&a), None, 5_010, &config()).is_none());
}

#[test]
fn cure_by_counted_messages() {
    let cfg = config();
    let baseline = infection_of("2", 10_000, 5);
    let mut p = player("2", true, 5, 5);
    p.last_action = 10_000;
    let mut at: u64 = 10_000;
    let mut cured_at_count = None;
    for _ in 0..20 {
        // A message inside the cooldown counts towards the total only.
        at += 10;
        let before = p.sanitized_messages;
        p = Player::upsert_on_message(Some(p), "2".to_string(), at, cfg.message_cooldown);
        assert_eq!(p.sanitized_messages, before);
        assert!(check_cure(&p, &baseline, at, &cfg).is_none());
        // A message after the cooldown counts towards the cure.
        at += 60;
        p = Player::upsert_on_message(Some(p), "2".to_string(), at, cfg.message_cooldown);
        assert_eq!(p.sanitized_messages, before + 1);
        if let Some(t) = new_message(&p, &vec![], None, Some(&baseline), at, &cfg) {
            assert!(!t.infected);
            assert_eq!(t.role, RoleSync::RemoveRole);
            assert_eq!(t.record.event, InfectionEvent::Cured);
            assert_eq!(t.record.target, "2");
            assert_eq!(t.record.source, None);
            assert_eq!(t.record.reason, Some("Sent 3 messages while infected".to_string()));
            assert_eq!(t.record.recorded_at, at as i64);
            assert_eq!(t.record.target_sanitized_messages, p.sanitized_messages);
            assert_eq!(t.record.target_total_messages, p.total_messages);
            cured_at_count = Some(p.sanitized_messages);
            break;
        }
    }
    assert_eq!(cured_at_count, Some(5 + 3 + 1));
    assert!(p.sanitized_messages <= p.total_messages);
}

#[test]
fn cure_needs_more_than_the_threshold() {
    let cfg = config();
    assert_eq!(cure_reason(8, 5, 10_000, 10_001, &cfg), None);
    assert_eq!(cure_reason(9, 5, 10_000, 10_001, &cfg), Some(CureReason::MessageThreshold));
}

#[test]
fn cure_by_timeout() {
    let cfg = config();
    let baseline = infection_of("2", 50_000, 5);
    let p = player("2", true, 6, 5);
    assert!(check_cure(&p, &baseline, 50_000 + 3_599, &cfg).is_none());
    assert!(check_cure(&p, &baseline, 50_000 + 3_600, &cfg).is_none());
    let t = check_cure(&p, &baseline, 50_000 + 3_601, &cfg).unwrap();
    assert!(!t.infected);
    assert_eq!(t.role, RoleSync::RemoveRole);
    assert_eq!(t.record.event, InfectionEvent::Cured);
    assert_eq!(t.record.source, None);
    assert_eq!(t.record.reason, Some("Was infected for more than 3600 seconds".to_string()));
    assert_eq!(t.record.recorded_at, 53_601);
    assert_eq!(cure_reason(5, 5, 50_000, 53_601, &cfg), Some(CureReason::Timeout));
    assert_eq!(cure_reason(5, 5, 50_000, 53_599, &cfg), None);
}

#[test]
fn no_timeout_cure_without_a_timeout() {
    let mut cfg = config();
    cfg.cure_timeout = None;
    let baseline = infection_of("2", 50_000, 5);
    let p = player("2", true, 6, 5);
    assert!(check_cure(&p, &baseline, 50_000 + 1_000_000, &cfg).is_none());
}

#[test]
fn counted_messages_come_before_the_timeout() {
    let cfg = config();
    let baseline = infection_of("2", 50_000, 5);
    let p = player("2", true, 20, 9);
    let t = check_cure(&p, &baseline, 50_000 + 10_000, &cfg).unwrap();
    assert_eq!(t.record.reason, Some("Sent 3 messages while infected".to_string()));
    assert_eq!(cure_reason(9, 5, 50_000, 60_000, &cfg), Some(CureReason::MessageThreshold));
}

#[test]
fn first_message_of_a_new_player() {
    let p = Player::upsert_on_message(None, "31".to_string(), 1_000, 60);
    assert_eq!(p.id, "31");
    assert!(!p.infected);
    assert_eq!(p.total_messages, 1);
    assert_eq!(p.sanitized_messages, 1);
    assert_eq!(p.last_action, 1_000);
}

#[test]
fn message_counts_respect_the_cooldown() {
    let mut known = player("31", true, 10, 4);
    known.last_action = 1_000;
    let early = Player::upsert_on_message(Some(known.clone()), String::new(), 1_059, 60);
    assert_eq!((early.total_messages, early.sanitized_messages, early.last_action), (11, 4, 1_000));
    assert!(early.infected);
    assert_eq!(early.id, "31");
    let on_time = Player::upsert_on_message(Some(known.clone()), String::new(), 1_060, 60);
    assert_eq!(
        (on_time.total_messages, on_time.sanitized_messages, on_time.last_action),
        (11, 5, 1_060)
    );
    let late = Player::upsert_on_message(Some(known), String::new(), 9_000, 60);
    assert_eq!((late.total_messages, late.sanitized_messages, late.last_action), (11, 5, 9_000));
}

#[test]
fn manual_infection_record() {
    let target = player("5", false, 12, 7);
    let t = infect(&target, &"9".to_string(), 2_000);
    assert!(t.infected);
    assert_eq!(t.last_action, Some(2_000));
    assert_eq!(t.role, RoleSync::AddRole);
    assert_eq!(t.record.event, InfectionEvent::Infected);
    assert_eq!(t.record.target, "5");
    assert_eq!(t.record.source, Some("9".to_string()));
    assert_eq!(t.record.reason, Some("Manually infected by <@9>".to_string()));
    assert_eq!(t.record.recorded_at, 2_000);
    assert_eq!(t.record.target_total_messages, 12);
    assert_eq!(t.record.target_sanitized_messages, 7);
}

#[test]
fn manual_cure_record() {
    let target = player("5", true, 12, 7);
    let t = cure(&target, &"9".to_string(), 2_000);
    assert!(!t.infected);
    assert_eq!(t.last_action, Some(2_000));
    assert_eq!(t.role, RoleSync::RemoveRole);
    assert_eq!(t.record.event, InfectionEvent::Cured);
    assert_eq!(t.record.target, "5");
    assert_eq!(t.record.source, Some("9".to_string()));
    assert_eq!(t.record.reason, Some("Manually cured by <@9>".to_string()));
    assert_eq!(t.record.target_total_messages, 12);
    assert_eq!(t.record.target_sanitized_messages, 7);
}

#[test]
fn event_from_its_stored_name() {
    assert_eq!(InfectionEvent::from("cured".to_string()), InfectionEvent::Cured);
    assert_eq!(InfectionEvent::from("infected".to_string()), InfectionEvent::Infected);
    assert_eq!(InfectionEvent::from("Cured".to_string()), InfectionEvent::Infected);
    assert_eq!(InfectionEvent::from(String::new()), InfectionEvent::Infected);
}

#[test]
fn decimal_digits_of_numbers() {
    assert_eq!(decimal(0), "0");
    assert_eq!(decimal(7), "7");
    assert_eq!(decimal(10), "10");
    assert_eq!(decimal(1_234_567_890), "1234567890");
    assert_eq!(decimal(u64::MAX), "18446744073709551615");
    for n in 0..2_000u64 {
        assert_eq!(decimal(n), n.to_string());
    }
}

#[test]
fn reason_texts() {
    assert_eq!(proximity_reason(&"123".to_string()), "Infected by proximity to <@123>");
    assert_eq!(threshold_reason(25), "Sent 25 messages while infected");
    assert_eq!(timeout_reason(86_400), "Was infected for more than 86400 seconds");
}

#[test]
fn ping_replies() {
    assert_eq!(ping(None, 1_700_000_000, false), "Pong! My ping is not yet available.");
    assert_eq!(ping(Some(42), 1_700_000_000, false), "Pong! My ping is 42ms.");
    assert_eq!(
        ping(Some(42), 1_700_000_000, true),
        "Pong! My ping is 42ms. Process started at <t:1700000000:f>, <t:1700000000:R>."
    );
}

#[test]
fn elapsed_is_strict_and_signed() {
    assert!(has_elapsed(101, 0, 100));
    assert!(!has_elapsed(100, 0, 100));
    assert!(!has_elapsed(0, 50, 0));
    assert!(has_elapsed(0, -1, 0));
    assert!(has_elapsed(u64::MAX, i64::MIN, u64::MAX));
    assert!(!has_elapsed(0, i64::MAX, 0));
}

#[test]
fn stamp_saturates() {
    assert_eq!(stamp(0), 0);
    assert_eq!(stamp(1_700_000_000), 1_700_000_000);
    assert_eq!(stamp(i64::MAX as u64), i64::MAX);
    assert_eq!(stamp(i64::MAX as u64 + 1), i64::MAX);
    assert_eq!(stamp(u64::MAX), i64::MAX);
}

#[test]
fn shared_roles() {
    assert!(!holds_any(&vec![], &vec![]));
    assert!(!holds_any(&vec![1, 2], &vec![]));
    assert!(!holds_any(&vec![], &vec![1, 2]));
    assert!(!holds_any(&vec![1, 2], &vec![3, 4]));
    assert!(holds_any(&vec![1, 2], &vec![3, 2]));
    let mut cfg = config();
    assert!(cfg.is_immune(&vec![IMMUNE]));
    assert!(!cfg.is_immune(&vec![CARRIER]));
    assert!(cfg.is_carrier(&vec![1, CARRIER]));
    cfg.immune_roles = None;
    cfg.carrier_roles = None;
    assert!(!cfg.is_immune(&vec![IMMUNE]));
    assert!(!cfg.is_carrier(&vec![CARRIER]));
}

#[test]
fn steps_come_in_order_and_stop_at_a_failure() {
    assert_eq!(first_step(), Step::SetInfected);
    assert_eq!(advance(Step::SetInfected, true), Progress::Next(Step::AppendRecord));
    assert_eq!(advance(Step::AppendRecord, true), Progress::Next(Step::SyncRole));
    assert_eq!(advance(Step::SyncRole, true), Progress::Finished);
    assert_eq!(advance(Step::SetInfected, false), Progress::Failed(EngineError::StoreUnavailable));
    assert_eq!(advance(Step::AppendRecord, false), Progress::Failed(EngineError::StoreUnavailable));
    assert_eq!(advance(Step::SyncRole, false), Progress::Failed(EngineError::RoleSyncFailed));
}

#[test]
fn a_run_of_steps_ends_after_three() {
    for failing in 0..4 {
        let mut taken = vec![];
        let mut step = first_step();
        let end = loop {
            taken.push(step);
            match advance(step, taken.len() != failing) {
                Progress::Next(next) => step = next,
                other => break other,
            }
        };
        let all = [Step::SetInfected, Step::AppendRecord, Step::SyncRole];
        match failing {
            0 => {
                assert_eq!(taken, all);
                assert_eq!(end, Progress::Finished);
            }
            3 => {
                assert_eq!(taken, all);
                assert_eq!(end, Progress::Failed(EngineError::RoleSyncFailed));
            }
            n => {
                assert_eq!(taken, all[..n]);
                assert_eq!(end, Progress::Failed(EngineError::StoreUnavailable));
            }
        }
    }
}

#[test]
fn reading_before_the_epoch_counts_as_zero() {
    assert_eq!(epoch_seconds(None), 0);
    assert_eq!(epoch_seconds(Some(0)), 0);
    assert_eq!(epoch_seconds(Some(1_700_000_000)), 1_700_000_000);
    assert_eq!(epoch_seconds(Some(u64::MAX)), u64::MAX);
}

#[test]
fn clock_reads_a_time_after_2020() {
    let first = now();
    assert!(first > 1_577_836_800);
}
