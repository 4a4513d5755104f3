use lacmta_alerts_protobuf::assemble::alerts_to_feed;
use lacmta_alerts_protobuf::cycle::{feed_bytes_key, feed_exists_key, feed_time_key,
    freshness_marker, process_cycle, wait_millis, CycleError, FetchError, CADENCE_MS};
use lacmta_alerts_protobuf::feed::{AlertEntity, AlertFeed, FeedPeriod, FeedSelector, FeedText,
    FeedTranslation};
use lacmta_alerts_protobuf::normalize::{gtfs_string_to_timestamp, normalize_alert,
    parse_i32_or_zero, ParseError, TimeStringError};
use lacmta_alerts_protobuf::raw::{RawAlert, RawService, RawWindow, StrOrI32, StrOrU64};
use lacmta_alerts_protobuf::split::{should_entity_be_allowed, split_feed, WhichFeed};
use lacmta_alerts_protobuf::text::{parse_u64, str_eq, u64_to_dec_string};
use lacmta_alerts_protobuf::vocab::{cause_code, effect_code};
use lacmta_alerts_protobuf::wire::{decode_feed_message, encode_feed_message, encode_then_decode,
    split_feeds_to_bytes};

fn raw_alert(
    id: StrOrU64,
    cause: &str,
    effect: &str,
    services: Vec<RawService>,
    windows: Vec<RawWindow>,
) -> RawAlert {
    RawAlert {
        alert_id: id,
        cause: cause.to_string(),
        effect: effect.to_string(),
        header_text: Some("Service change".to_string()),
        description_text: Some("Details of the change".to_string()),
        effect_periods: windows,
        affected_services: services,
    }
}

fn service(mode: StrOrI32, route: &str) -> RawService {
    RawService { route_type: mode, route_id: route.to_string(), stop_id: None }
}

#[test]
fn cause_mapping_values() {
    assert_eq!(cause_code("ACCIDENT"), 6);
    assert_eq!(cause_code("UNKNOWN_CAUSE"), 1);
    assert_eq!(cause_code("MEDICAL_EMERGENCY"), 12);
    assert_eq!(cause_code("CONSTRUCTION"), 10);
    assert_eq!(cause_code("something else entirely"), 1);
    assert_eq!(cause_code(""), 1);
}

#[test]
fn effect_mapping_values() {
    assert_eq!(effect_code("DETOUR"), 4);
    assert_eq!(effect_code("NO_SERVICE"), 1);
    assert_eq!(effect_code("STOP_MOVED"), 9);
    assert_eq!(effect_code("UNKNOWN_EFFECT"), 8);
    assert_eq!(effect_code("not a known effect"), 8);
    assert_eq!(effect_code(""), 8);
}

#[test]
fn bus_only_scenario() {
    let alert = raw_alert(
        StrOrU64::Str("a-1".to_string()),
        "ACCIDENT",
        "DETOUR",
        vec![service(StrOrI32::Num(3), "704")],
        vec![],
    );
    let feed = alerts_to_feed(&vec![alert], 1_700_000_000).unwrap();
    assert_eq!(feed.version, "2.0");
    assert_eq!(feed.timestamp, 1_700_000_000);
    let split = split_feed(&feed);
    assert_eq!(split.bus.entity.len(), 1);
    assert_eq!(split.rail.entity.len(), 0);
    let e = &split.bus.entity[0];
    assert_eq!(e.id, "a-1");
    assert_eq!(e.cause, 6);
    assert_eq!(e.effect, 4);
    assert_eq!(e.active_period.len(), 0);
    assert_eq!(e.informed_entity.len(), 1);
    assert_eq!(e.informed_entity[0].route_id, "704");
    assert_eq!(e.informed_entity[0].route_type, 3);
    assert_eq!(e.header_text.translation.len(), 1);
    assert_eq!(e.header_text.translation[0].text, "Service change");
    assert_eq!(e.header_text.translation[0].language.as_deref(), Some("en"));
    assert_eq!(e.url.translation[0].text, "https://www.metro.net/service/advisories");
}

#[test]
fn mixed_mode_scenario() {
    let alert = raw_alert(
        StrOrU64::Str("a-2".to_string()),
        "ACCIDENT",
        "DETOUR",
        vec![service(StrOrI32::Num(3), "704"), service(StrOrI32::Num(1), "801")],
        vec![],
    );
    let feed = alerts_to_feed(&vec![alert], 10).unwrap();
    let split = split_feed(&feed);
    assert_eq!(split.bus.entity.len(), 1);
    assert_eq!(split.rail.entity.len(), 1);
    assert_eq!(split.bus.entity[0], split.rail.entity[0]);
    assert_eq!(split.bus.entity[0].informed_entity.len(), 2);
}

#[test]
fn unmatched_entity_in_neither() {
    let alert = raw_alert(
        StrOrU64::Str("a-3".to_string()),
        "STRIKE",
        "NO_SERVICE",
        vec![service(StrOrI32::Num(5), "900")],
        vec![],
    );
    let feed = alerts_to_feed(&vec![alert], 10).unwrap();
    let split = split_feed(&feed);
    assert_eq!(split.bus.entity.len(), 0);
    assert_eq!(split.rail.entity.len(), 0);
}

#[test]
fn rail_membership_codes() {
    for (mode, in_rail) in [(0, true), (1, true), (2, true), (7, true), (3, false), (4, false)] {
        let alert = raw_alert(
            StrOrU64::Num(9),
            "WEATHER",
            "DETOUR",
            vec![service(StrOrI32::Num(mode), "r")],
            vec![],
        );
        let feed = alerts_to_feed(&vec![alert], 10).unwrap();
        assert_eq!(should_entity_be_allowed(&feed.entity[0], WhichFeed::Rail), in_rail);
        assert_eq!(should_entity_be_allowed(&feed.entity[0], WhichFeed::Bus), mode == 3);
    }
}

#[test]
fn round_trip_identity() {
    let feed = AlertFeed {
        version: "2.0".to_string(),
        timestamp: 1_699_999_999,
        entity: vec![AlertEntity {
            id: "42".to_string(),
            cause: 6,
            effect: 4,
            header_text: FeedText {
                translation: vec![FeedTranslation {
                    text: "Detour on line 704".to_string(),
                    language: Some("en".to_string()),
                }],
            },
            description_text: None,
            url: FeedText {
                translation: vec![FeedTranslation {
                    text: "https://www.metro.net/service/advisories".to_string(),
                    language: Some("en".to_string()),
                }],
            },
            informed_entity: vec![
                FeedSelector {
                    route_id: "704".to_string(),
                    route_type: 3,
                    stop_id: Some("stop-9".to_string()),
                },
                FeedSelector { route_id: "801".to_string(), route_type: 1, stop_id: None },
            ],
            active_period: vec![
                FeedPeriod { start: Some(1_600_000_000), end: Some(1_600_003_600) },
                FeedPeriod { start: None, end: None },
            ],
        }],
    };
    let back = encode_then_decode(&feed);
    assert_eq!(back, Some(feed));
}

#[test]
fn round_trip_empty_feed() {
    let feed = alerts_to_feed(&vec![], 77).unwrap();
    assert_eq!(feed.entity.len(), 0);
    let back = encode_then_decode(&feed);
    assert_eq!(back, Some(feed));
}

#[test]
fn wire_bytes_cross_checked_against_prost() {
    let alert = raw_alert(
        StrOrU64::Num(7),
        "ACCIDENT",
        "DETOUR",
        vec![service(StrOrI32::Num(3), "704")],
        vec![RawWindow { effect_start: "1600000000".to_string(), effect_end: "".to_string() }],
    );
    let feed = alerts_to_feed(&vec![alert], 123_456).unwrap();
    let bytes = encode_feed_message(&feed);
    assert!(!bytes.is_empty());
    let msg = <gtfs_rt::FeedMessage as prost::Message>::decode(bytes.as_slice()).unwrap();
    assert_eq!(msg.header.gtfs_realtime_version, "2.0");
    assert_eq!(msg.header.timestamp, Some(123_456));
    assert_eq!(msg.header.incrementality, None);
    assert_eq!(msg.entity.len(), 1);
    assert_eq!(msg.entity[0].id, "7");
    let alert = msg.entity[0].alert.as_ref().unwrap();
    assert_eq!(alert.cause, Some(6));
    assert_eq!(alert.effect, Some(4));
    assert_eq!(alert.informed_entity[0].route_id.as_deref(), Some("704"));
    assert_eq!(alert.informed_entity[0].route_type, Some(3));
    assert_eq!(alert.active_period[0].start, Some(1_600_000_000));
    assert_eq!(alert.active_period[0].end, None);
    let decoded = decode_feed_message(bytes.as_slice()).unwrap();
    assert_eq!(decoded, feed);
}

#[test]
fn split_bytes_encode_each_feed() {
    let alert = raw_alert(
        StrOrU64::Num(1),
        "ACCIDENT",
        "DETOUR",
        vec![service(StrOrI32::Num(3), "704")],
        vec![],
    );
    let feed = alerts_to_feed(&vec![alert], 5).unwrap();
    let split = split_feed(&feed);
    let bytes = split_feeds_to_bytes(&split);
    let bus = decode_feed_message(bytes.bus.as_slice()).unwrap();
    let rail = decode_feed_message(bytes.rail.as_slice()).unwrap();
    assert_eq!(bus.entity.len(), 1);
    assert_eq!(rail.entity.len(), 0);
    assert_eq!(bus.version, "2.0");
    assert_eq!(rail.timestamp, 5);
}

#[test]
fn cadence_wait_values() {
    assert_eq!(CADENCE_MS, 10_000);
    assert_eq!(wait_millis(3_000, 10_000), 7_000);
    assert_eq!(wait_millis(11_000, 10_000), 0);
    assert_eq!(wait_millis(10_000, 10_000), 0);
    assert_eq!(wait_millis(0, 10_000), 10_000);
}

#[test]
fn fetch_failure_publishes_nothing() {
    let r = process_cycle(Err(FetchError), 1_700_000_000);
    assert_eq!(r, Err(CycleError::Fetch));
}

#[test]
fn parse_failure_aborts_cycle() {
    let mut alert = raw_alert(StrOrU64::Num(1), "ACCIDENT", "DETOUR", vec![], vec![]);
    alert.header_text = None;
    let r = process_cycle(Ok(vec![alert]), 10);
    assert_eq!(r, Err(CycleError::Parse));
}

#[test]
fn successful_cycle_produces_both_feeds() {
    let alert = raw_alert(
        StrOrU64::Num(2),
        "ACCIDENT",
        "DETOUR",
        vec![service(StrOrI32::Num(3), "704")],
        vec![],
    );
    let r = process_cycle(Ok(vec![alert]), 10).unwrap();
    let bus = decode_feed_message(r.bus.as_slice()).unwrap();
    let rail = decode_feed_message(r.rail.as_slice()).unwrap();
    assert_eq!(bus.entity.len(), 1);
    assert_eq!(rail.entity.len(), 0);
}

#[test]
fn missing_header_is_parse_error() {
    let mut alert = raw_alert(StrOrU64::Num(1), "ACCIDENT", "DETOUR", vec![], vec![]);
    alert.header_text = None;
    assert_eq!(normalize_alert(&alert), Err(ParseError::MissingHeaderText));
}

#[test]
fn absent_description_stays_absent() {
    let mut alert = raw_alert(StrOrU64::Num(1), "ACCIDENT", "DETOUR", vec![], vec![]);
    alert.description_text = None;
    let feed = alerts_to_feed(&vec![alert], 10).unwrap();
    assert!(feed.entity[0].description_text.is_none());
}

#[test]
fn time_string_parsing() {
    assert_eq!(gtfs_string_to_timestamp(""), Ok(None));
    assert_eq!(gtfs_string_to_timestamp("1700000000"), Ok(Some(1_700_000_000)));
    assert_eq!(gtfs_string_to_timestamp("0"), Ok(Some(0)));
    assert_eq!(gtfs_string_to_timestamp("2023-01-01 00:00"), Err(TimeStringError));
    assert_eq!(gtfs_string_to_timestamp("99999999999999999999"), Err(TimeStringError));
    assert_eq!(gtfs_string_to_timestamp(" 5"), Err(TimeStringError));
}

#[test]
fn unparsable_window_is_dropped() {
    let alert = raw_alert(
        StrOrU64::Num(1),
        "ACCIDENT",
        "DETOUR",
        vec![],
        vec![
            RawWindow { effect_start: "".to_string(), effect_end: "".to_string() },
            RawWindow { effect_start: "not a time".to_string(), effect_end: "5".to_string() },
            RawWindow { effect_start: "100".to_string(), effect_end: "200".to_string() },
        ],
    );
    let feed = alerts_to_feed(&vec![alert], 10).unwrap();
    let periods = &feed.entity[0].active_period;
    assert_eq!(periods.len(), 2);
    assert_eq!(periods[0], FeedPeriod { start: None, end: None });
    assert_eq!(periods[1], FeedPeriod { start: Some(100), end: Some(200) });
}

#[test]
fn numeric_identifier_becomes_decimal_string() {
    let alert = raw_alert(StrOrU64::Num(1234), "ACCIDENT", "DETOUR", vec![], vec![]);
    let feed = alerts_to_feed(&vec![alert], 10).unwrap();
    assert_eq!(feed.entity[0].id, "1234");
    let alert2 = raw_alert(StrOrU64::Str("a5".to_string()), "ACCIDENT", "DETOUR", vec![], vec![]);
    let feed2 = alerts_to_feed(&vec![alert2], 10).unwrap();
    assert_eq!(feed2.entity[0].id, "a5");
}

#[test]
fn transport_mode_string_coercion() {
    assert_eq!(parse_i32_or_zero("3"), 3);
    assert_eq!(parse_i32_or_zero("+7"), 7);
    assert_eq!(parse_i32_or_zero("-12"), -12);
    assert_eq!(parse_i32_or_zero("-2147483648"), i32::MIN);
    assert_eq!(parse_i32_or_zero("2147483647"), i32::MAX);
    assert_eq!(parse_i32_or_zero("2147483648"), 0);
    assert_eq!(parse_i32_or_zero("x"), 0);
    assert_eq!(parse_i32_or_zero(""), 0);
    assert_eq!(parse_i32_or_zero("3.5"), 0);
    let alert = raw_alert(
        StrOrU64::Num(1),
        "ACCIDENT",
        "DETOUR",
        vec![service(StrOrI32::Str("3".to_string()), "704")],
        vec![],
    );
    let feed = alerts_to_feed(&vec![alert], 10).unwrap();
    assert_eq!(feed.entity[0].informed_entity[0].route_type, 3);
    let split = split_feed(&feed);
    assert_eq!(split.bus.entity.len(), 1);
}

#[test]
fn decimal_helpers() {
    assert_eq!(parse_u64("0"), Some(0));
    assert_eq!(parse_u64("18446744073709551615"), Some(u64::MAX));
    assert_eq!(parse_u64("18446744073709551616"), None);
    assert_eq!(parse_u64("12a"), None);
    assert_eq!(parse_u64(""), None);
    assert_eq!(u64_to_dec_string(0), "0");
    assert_eq!(u64_to_dec_string(10), "10");
    assert_eq!(u64_to_dec_string(9_876_543_210), "9876543210");
    assert!(str_eq("abc", "abc"));
    assert!(!str_eq("abc", "abd"));
    assert!(!str_eq("abc", "ab"));
    assert!(str_eq("", ""));
}

#[test]
fn cache_key_schema() {
    assert_eq!(feed_bytes_key("f-bus"), "gtfsrt|f-bus|alerts");
    assert_eq!(feed_time_key("f-bus"), "gtfsrttime|f-bus|alerts");
    assert_eq!(feed_exists_key("f-rail"), "gtfsrtexists|f-rail");
    assert_eq!(freshness_marker(1_699_999_999_123), "1699999999123");
}
