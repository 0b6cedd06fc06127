use chrono::TimeZone;
use dsmr_parse::zoned::{resolve, Disambiguation, LocalTime};
use dsmr_parse::Tst;

fn at(bytes: &[u8]) -> Tst {
    Tst::try_from_bytes(bytes).unwrap()
}

#[test]
fn jiff_gives_nothing_for_a_day_that_is_not_in_the_calendar() {
    let tz = jiff::tz::TimeZone::UTC;
    assert!(at(b"240229120000W").to_jiff(&tz).is_some());
    assert!(at(b"230229120000W").to_jiff(&tz).is_none());
    assert!(at(b"230431120000W").to_jiff(&tz).is_none());
    assert!(at(b"230001120000W").to_jiff(&tz).is_none());
    assert!(at(b"231301120000W").to_jiff(&tz).is_none());
    assert!(at(b"230100120000W").to_jiff(&tz).is_none());
    assert!(at(b"230101240000W").to_jiff(&tz).is_none());
    assert!(at(b"230101006000W").to_jiff(&tz).is_none());
    assert!(at(b"230101000060W").to_jiff(&tz).is_none());
    assert!(at(b"230101235959W").to_jiff(&tz).is_some());
}

#[test]
fn jiff_gives_the_instant_of_an_unambiguous_local_time() {
    let tz = jiff::tz::TimeZone::UTC;
    let zoned = at(b"190101125431W").to_jiff(&tz).unwrap();
    assert_eq!(zoned.timestamp().as_second(), 1546347271);
    let same = at(b"190101125431S").to_jiff(&tz).unwrap();
    assert_eq!(same.timestamp().as_second(), 1546347271);
}

#[test]
fn jiff_gives_nothing_for_a_year_it_cannot_hold() {
    let tz = jiff::tz::TimeZone::UTC;
    let late = Tst { year: 10000, month: 1, day: 1, hour: 0, minute: 0, second: 0, dst: false };
    assert!(late.to_jiff(&tz).is_none());
    let last = Tst { year: 9999, month: 1, day: 1, hour: 0, minute: 0, second: 0, dst: false };
    assert!(last.to_jiff(&tz).is_some());
    let far = Tst { year: 40000, month: 200, day: 200, hour: 200, minute: 200, second: 200, dst: false };
    assert!(far.to_jiff(&tz).is_none());
}

#[test]
fn chrono_local_time_is_the_reading_of_the_clock() {
    let local = at(b"181028023000S").to_chrono_local().unwrap();
    assert_eq!(
        local,
        chrono::NaiveDate::from_ymd_opt(2018, 10, 28).unwrap().and_hms_opt(2, 30, 0).unwrap()
    );
}

#[test]
fn chrono_local_time_is_none_for_a_day_or_a_time_that_does_not_exist() {
    assert!(at(b"240229120000W").to_chrono_local().is_some());
    assert!(at(b"230229120000W").to_chrono_local().is_none());
    assert!(at(b"000229120000W").to_chrono_local().is_some());
    assert!(at(b"230631120000W").to_chrono_local().is_none());
    assert!(at(b"230001120000W").to_chrono_local().is_none());
    assert!(at(b"231301120000W").to_chrono_local().is_none());
    assert!(at(b"230100120000W").to_chrono_local().is_none());
    assert!(at(b"230101240000W").to_chrono_local().is_none());
    assert!(at(b"230101006000W").to_chrono_local().is_none());
    assert!(at(b"230101000060W").to_chrono_local().is_none());
    assert!(at(b"230101235959W").to_chrono_local().is_some());
}

#[test]
fn daylight_saving_flag_picks_the_earlier_of_two_instants() {
    assert_eq!(resolve(LocalTime::Ambiguous(1, 2), true), Some(1));
    assert_eq!(resolve(LocalTime::Ambiguous(1, 2), false), Some(2));
    assert_eq!(resolve(LocalTime::Single(7), true), Some(7));
    assert_eq!(resolve(LocalTime::Single(7), false), Some(7));
    assert_eq!(resolve(LocalTime::<u8>::Skipped, true), None);
    assert_eq!(resolve(LocalTime::<u8>::Skipped, false), None);
}

#[test]
fn chrono_time_zone_resolves_the_local_time() {
    let tst = at(b"190101125431W");
    let local = tst.to_chrono_local().unwrap();
    let found = match chrono::Utc.from_local_datetime(&local) {
        chrono::LocalResult::None => LocalTime::Skipped,
        chrono::LocalResult::Single(at) => LocalTime::Single(at),
        chrono::LocalResult::Ambiguous(earlier, later) => LocalTime::Ambiguous(earlier, later),
    };
    assert_eq!(resolve(found, tst.dst).unwrap().timestamp(), 1546347271);
}

#[test]
fn daylight_saving_flag_names_the_instant_to_take() {
    assert_eq!(at(b"181028023000S").disambiguation(), Disambiguation::Earlier);
    assert_eq!(at(b"181028023000W").disambiguation(), Disambiguation::Later);
    assert_eq!(at(b"181028023000X").disambiguation(), Disambiguation::Later);
}
