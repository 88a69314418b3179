use babblebot::action::Action;
use babblebot::clock::{
    countdown_var, date_var, dateinc_var, elapsed, followage_var, scheduled_notice_due, time_var,
    units_since, uptime_var,
};

const NEW_YEAR_2020: i64 = 1577836800;

fn words(v: &[&str]) -> Vec<String> {
    v.iter().map(|s| s.to_string()).collect()
}

#[test]
fn elapsed_spans() {
    assert_eq!(elapsed((10, 500), (5, 700)), Some((4, 999_999_800)));
    assert_eq!(elapsed((5, 0), (5, 0)), Some((0, 0)));
    assert_eq!(elapsed((5, 0), (6, 0)), None);
    assert_eq!(elapsed((5, 0), (5, 1)), None);
}

#[test]
fn uptime_in_two_units() {
    let now = (NEW_YEAR_2020 + 7500, 0);
    assert_eq!(uptime_var(now, &None), Some(String::new()));
    assert_eq!(uptime_var(now, &Some("2020-01-01T00:00:00Z".to_string())), Some("2h5m".to_string()));
    assert_eq!(uptime_var(now, &Some("garbage".to_string())), None);
    assert_eq!(uptime_var((NEW_YEAR_2020 - 5, 0), &Some("2020-01-01T00:00:00Z".to_string())), None);
}

#[test]
fn followage_joins_with_and() {
    let now = (NEW_YEAR_2020 + 3 * 86400 + 4 * 3600, 0);
    assert_eq!(
        followage_var(now, &Some("2020-01-01T00:00:00+00:00".to_string())),
        Some("3days and 4h".to_string())
    );
    assert_eq!(followage_var(now, &None), Some("0m".to_string()));
    assert_eq!(
        followage_var((NEW_YEAR_2020 + 42, 0), &Some("2020-01-01T00:00:00Z".to_string())),
        Some("42s".to_string())
    );
}

#[test]
fn countdown_to_a_minute_stamp() {
    let now = (NEW_YEAR_2020, 0);
    assert_eq!(countdown_var(now, &words(&["2020-01-01T01:00+0000"])), "1h");
    assert_eq!(countdown_var(now, &words(&["2020-01-01T01:30+0000"])), "1h and 30m");
    assert_eq!(countdown_var(now, &words(&["2019-12-31T23:00+0000"])), "");
    assert_eq!(countdown_var(now, &words(&["soon"])), "");
    assert_eq!(countdown_var(now, &vec![]), "");
}

#[test]
fn dates_of_phrases() {
    let stamp = Some("2020-01-05T10:00:00+00:00".to_string());
    assert_eq!(date_var(&words(&["x"]), &stamp), "Jan  5 2020");
    assert_eq!(date_var(&words(&["x"]), &None), "");
    assert_eq!(date_var(&vec![], &stamp), "");
    assert_eq!(date_var(&words(&["x"]), &Some("nope".to_string())), "");
}

#[test]
fn dateinc_moves_the_stored_time() {
    let stamp = Some("2020-01-05T10:00:00+00:00".to_string());
    let r = dateinc_var("c", &words(&["x", "60"]), &stamp);
    assert_eq!(r.len(), 1);
    match &r[0] {
        Action::Store(w) => assert_eq!(w, &words(&["hset", "channel:c:phrases", "x", "2020-01-05T10:01:00+00:00"])),
        _ => panic!("expected a store command"),
    }
    assert!(dateinc_var("c", &words(&["x", "soon"]), &stamp).is_empty());
    assert!(dateinc_var("c", &words(&["x"]), &stamp).is_empty());
    assert!(dateinc_var("c", &words(&["x", "60"]), &None).is_empty());
}

#[test]
fn wall_clock_in_a_zone() {
    assert_eq!(time_var(0, &words(&["UTC"])), "12:00am");
    assert_eq!(time_var(0, &words(&["America/New_York"])), " 7:00pm");
    assert_eq!(time_var(0, &words(&["Nowhere/Land"])), "");
    assert_eq!(time_var(0, &vec![]), "");
}

#[test]
fn scheduled_notices_fire_in_their_minute() {
    assert!(scheduled_notice_due("true", "14:30+0000", 14, 30));
    assert!(!scheduled_notice_due("true", "14:30+0000", 14, 31));
    assert!(!scheduled_notice_due("false", "14:30+0000", 14, 30));
    assert!(!scheduled_notice_due("true", "half past two", 14, 30));
}

#[test]
fn whole_units_truncate_toward_zero() {
    let now = (NEW_YEAR_2020 + 7199, 0);
    assert_eq!(units_since(now, "2020-01-01T00:00:00Z", 3600), Some(1));
    assert_eq!(units_since(now, "2020-01-01T00:00:00Z", 60), Some(119));
    assert_eq!(units_since(now, "2020-01-01T00:00:00Z", 1), Some(7199));
    assert_eq!(units_since((NEW_YEAR_2020 - 7199, 0), "2020-01-01T00:00:00Z", 3600), Some(-1));
    assert_eq!(units_since(now, "later", 1), None);
}
