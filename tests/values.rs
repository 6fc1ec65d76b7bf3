use acled_client::acled::{AcledEvent, AcledParams, MAX_EVENTS_LIMIT};
use acled_client::app_state::{DashboardView, Theme};
use acled_client::text::{decimal_text, shorten};
use acled_client::user::UserData;

fn params() -> AcledParams {
    AcledParams {
        start_date: "2024-01-01".to_string(),
        end_date: "2024-02-01".to_string(),
        country: "Syria".to_string(),
        event_type: "Battles".to_string(),
        limit: 100,
    }
}

#[test]
fn params_with_filled_fields_and_limit_in_range_are_valid() {
    let mut p = params();
    assert!(p.is_valid());
    p.limit = 1;
    assert!(p.is_valid());
    p.limit = MAX_EVENTS_LIMIT;
    assert!(p.is_valid());
    assert!(AcledParams::default().is_valid());
}

#[test]
fn params_with_an_empty_field_or_limit_out_of_range_are_invalid() {
    let mut p = params();
    p.start_date = String::new();
    assert!(!p.is_valid());
    let mut p = params();
    p.end_date = String::new();
    assert!(!p.is_valid());
    let mut p = params();
    p.country = String::new();
    assert!(!p.is_valid());
    let mut p = params();
    p.event_type = String::new();
    assert!(!p.is_valid());
    let mut p = params();
    p.limit = 0;
    assert!(!p.is_valid());
    let mut p = params();
    p.limit = 5001;
    assert!(!p.is_valid());
}

#[test]
fn default_params_ask_for_battles_in_lebanon() {
    let p = AcledParams::default();
    assert_eq!(p.start_date, "2024-01-01");
    assert_eq!(p.end_date, "2024-12-31");
    assert_eq!(p.country, "Lebanon");
    assert_eq!(p.event_type, "Battles");
    assert_eq!(p.limit, 50);
}

#[test]
fn query_params_come_in_order_with_limit_in_decimal() {
    let pairs = params().to_query_params();
    let expected: Vec<(String, String)> = vec![
        ("start".to_string(), "2024-01-01".to_string()),
        ("end".to_string(), "2024-02-01".to_string()),
        ("country".to_string(), "Syria".to_string()),
        ("event_type".to_string(), "Battles".to_string()),
        ("limit".to_string(), "100".to_string()),
    ];
    assert_eq!(pairs, expected);
}

#[test]
fn credentials_are_valid_iff_both_parts_are_filled() {
    assert!(UserData::new("a@b.c".to_string(), "k".to_string()).is_valid());
    assert!(!UserData::new(String::new(), "k".to_string()).is_valid());
    assert!(!UserData::new("a@b.c".to_string(), String::new()).is_valid());
    assert!(!UserData::new(String::new(), String::new()).is_valid());
    let u = UserData::new("a@b.c".to_string(), "k".to_string());
    assert_eq!(u.email, "a@b.c");
    assert_eq!(u.api_key, "k");
}

#[test]
fn defaults_of_theme_and_view() {
    assert_eq!(Theme::default(), Theme::Light);
    assert_eq!(DashboardView::default(), DashboardView::DataList);
}

#[test]
fn decimal_text_writes_digits() {
    assert_eq!(decimal_text(0), "0");
    assert_eq!(decimal_text(7), "7");
    assert_eq!(decimal_text(429), "429");
    assert_eq!(decimal_text(4294967295), "4294967295");
}

#[test]
fn shorten_cuts_long_text_by_characters() {
    assert_eq!(shorten("abcdef", 3), "abc...");
    assert_eq!(shorten("abc", 3), "abc");
    assert_eq!(shorten("", 0), "");
    assert_eq!(shorten("ééééé", 2), "éé...");
}

fn event(lat: Option<&str>, lng: Option<&str>, fatalities: Option<u32>) -> AcledEvent {
    AcledEvent {
        data_id: 1,
        event_date: "2024-03-01".to_string(),
        event_type: "Battles".to_string(),
        actor1: "A".to_string(),
        actor2: "B".to_string(),
        location: "Aleppo".to_string(),
        latitude: lat.map(|s| s.to_string()),
        longitude: lng.map(|s| s.to_string()),
        notes: "n".to_string(),
        fatalities,
    }
}

#[test]
fn coordinates_need_both_parts() {
    assert!(event(Some("36.2"), Some("37.1"), None).has_coordinates());
    assert!(!event(Some("36.2"), None, None).has_coordinates());
    assert!(!event(None, Some("37.1"), None).has_coordinates());
}

#[test]
fn unreported_fatalities_count_as_zero() {
    assert_eq!(event(None, None, Some(12)).fatality_count(), 12);
    assert_eq!(event(None, None, None).fatality_count(), 0);
}

#[test]
fn duplicate_copies_every_field() {
    let e = event(Some("36.2"), None, Some(3));
    assert_eq!(e.duplicate(), e);
}
