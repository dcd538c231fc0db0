use typst_host::date::{date_at_offset, Date, Instant};
use typst_host::thumbnail::thumbnail_size;
use typst_host::world::SystemWorld;

fn at(unix_secs: i64, local_offset_secs: i32) -> Instant {
    Instant { unix_secs, local_offset_secs }
}

#[test]
fn epoch_dates() {
    assert_eq!(date_at_offset(at(0, 0), Some(0)), Some(Date { year: 1970, month: 1, day: 1 }));
    assert_eq!(date_at_offset(at(0, 0), Some(24)), Some(Date { year: 1970, month: 1, day: 2 }));
    assert_eq!(date_at_offset(at(-1, 0), Some(0)), Some(Date { year: 1969, month: 12, day: 31 }));
    assert_eq!(date_at_offset(at(86399, 0), None), Some(Date { year: 1970, month: 1, day: 1 }));
    assert_eq!(date_at_offset(at(1_700_000_000, 0), Some(0)), Some(Date { year: 2023, month: 11, day: 14 }));
}

#[test]
fn offset_of_a_day_is_the_next_day() {
    let t = at(1_709_164_800, 0); // 2024-02-29 00:00 UTC
    assert_eq!(date_at_offset(t, Some(0)), Some(Date { year: 2024, month: 2, day: 29 }));
    assert_eq!(date_at_offset(t, Some(24)), Some(Date { year: 2024, month: 3, day: 1 }));
    assert_eq!(date_at_offset(t, Some(-1)), Some(Date { year: 2024, month: 2, day: 28 }));
}

#[test]
fn local_offset_can_change_the_day() {
    let t = at(82_800, 3600); // 23:00 UTC on 1970-01-01, midnight locally
    assert_eq!(date_at_offset(t, Some(0)), Some(Date { year: 1970, month: 1, day: 1 }));
    assert_eq!(date_at_offset(t, None), Some(Date { year: 1970, month: 1, day: 2 }));
    let early = at(3_600, -7200);
    assert_eq!(date_at_offset(early, None), Some(Date { year: 1969, month: 12, day: 31 }));
}

#[test]
fn out_of_range_offsets_have_no_date() {
    assert_eq!(date_at_offset(at(0, 0), Some(i64::MAX)), None);
    assert_eq!(date_at_offset(at(0, 0), Some(i64::MIN)), None);
}

#[test]
fn today_is_fixed_within_a_compilation() {
    let mut world = SystemWorld::new("/".to_string());
    world.begin_compile("x".to_string(), "/main.typ".to_string());
    let a = world.today(Some(0));
    let b = world.today(Some(0));
    assert!(a.is_some());
    assert_eq!(a, b);
    let next = world.today(Some(24)).unwrap();
    let now = a.unwrap();
    assert!(next != now);
}

#[test]
fn thumbnail_keeps_aspect_ratio() {
    assert_eq!(thumbnail_size(200, 100, 50, true), (50, 25));
    assert_eq!(thumbnail_size(200, 100, 50, false), (100, 50));
    assert_eq!(thumbnail_size(1000, 1, 10, true), (10, 1));
    assert_eq!(thumbnail_size(3, 7, 10, false), (4, 10));
}
