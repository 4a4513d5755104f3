//! The encoder: serialization of feed messages to their binary wire form
//! through the gtfs_rt message types and prost, behind trusted wrappers.
use crate::feed::{AlertEntity, AlertFeed, FeedModel, FeedPeriod, FeedSelector, FeedText,
    FeedTranslation};
use crate::split::SplitFeeds;
use vstd::prelude::*;

verus! {

#[verifier::external_type_specification]
#[verifier::external_body]
pub struct ExFeedMessage(gtfs_rt::FeedMessage);

#[verifier::external_type_specification]
#[verifier::external_body]
pub struct ExFeedEntity(gtfs_rt::FeedEntity);

#[verifier::external_type_specification]
#[verifier::external_body]
pub struct ExAlert(gtfs_rt::Alert);

#[verifier::external_type_specification]
#[verifier::external_body]
pub struct ExEntitySelector(gtfs_rt::EntitySelector);

#[verifier::external_type_specification]
#[verifier::external_body]
pub struct ExTimeRange(gtfs_rt::TimeRange);

#[verifier::external_type_specification]
#[verifier::external_body]
pub struct ExTranslatedString(gtfs_rt::TranslatedString);

#[verifier::external_type_specification]
#[verifier::external_body]
pub struct ExTranslation(gtfs_rt::translated_string::Translation);

/// The canonical wire bytes of a feed message. Encoding is deterministic:
/// the bytes are a function of the message contents alone.
pub uninterp spec fn feed_wire(m: FeedModel) -> Seq<u8>;

/// The feed message, if any, that a byte string decodes to. Decoding is a
/// function of the bytes alone.
pub uninterp spec fn feed_parse(b: Seq<u8>) -> Option<FeedModel>;

/// The model of an optional feed message.
pub open spec fn spec_opt_model(r: Option<AlertFeed>) -> Option<FeedModel> {
    match r {
        Some(m) => Some(m@),
        None => None,
    }
}

/// Builds the gtfs_rt form of one translated string.
#[verifier::external_body]
fn tr_wire(t: &FeedText) -> gtfs_rt::TranslatedString {
    gtfs_rt::TranslatedString {
        translation: t.translation.iter().map(
            |u: &FeedTranslation| gtfs_rt::translated_string::Translation {
                text: u.text.clone(),
                language: u.language.clone(),
            },
        ).collect(),
    }
}

/// Builds the gtfs_rt form of one selector.
#[verifier::external_body]
fn sel_wire(s: &FeedSelector) -> gtfs_rt::EntitySelector {
    gtfs_rt::EntitySelector {
        agency_id: None,
        route_id: Some(s.route_id.clone()),
        route_type: Some(s.route_type),
        trip: None,
        stop_id: s.stop_id.clone(),
    }
}

/// Builds the gtfs_rt form of one active period.
#[verifier::external_body]
fn period_wire(p: &FeedPeriod) -> gtfs_rt::TimeRange {
    gtfs_rt::TimeRange { start: p.start, end: p.end }
}

/// Builds the gtfs_rt form of one alert entity's alert payload.
#[verifier::external_body]
fn alert_wire(e: &AlertEntity) -> gtfs_rt::Alert {
    gtfs_rt::Alert {
        active_period: e.active_period.iter().map(period_wire).collect(),
        informed_entity: e.informed_entity.iter().map(sel_wire).collect(),
        cause: Some(e.cause),
        effect: Some(e.effect),
        url: Some(tr_wire(&e.url)),
        header_text: Some(tr_wire(&e.header_text)),
        description_text: e.description_text.as_ref().map(tr_wire),
    }
}

/// Builds the gtfs_rt form of one feed entity, an alert-type entity.
#[verifier::external_body]
fn entity_wire(e: &AlertEntity) -> gtfs_rt::FeedEntity {
    gtfs_rt::FeedEntity {
        id: e.id.clone(),
        is_deleted: None,
        trip_update: None,
        vehicle: None,
        alert: Some(alert_wire(e)),
    }
}

/// Relies on prost's Message::encode_to_vec through the gtfs_rt message
/// types: encoding is deterministic in the message contents, and decoding
/// the produced bytes yields the same message back.
#[verifier::external_body]
fn encode_feed(m: &AlertFeed) -> (r: Vec<u8>)
    ensures
        r@ == feed_wire(m@),
        feed_parse(r@) == Some(m@),
{
    let msg = gtfs_rt::FeedMessage {
        header: gtfs_rt::FeedHeader {
            gtfs_realtime_version: m.version.clone(),
            incrementality: None,
            timestamp: Some(m.timestamp),
        },
        entity: m.entity.iter().map(entity_wire).collect(),
    };
    prost::Message::encode_to_vec(&msg)
}

/// Reads back the translations of a gtfs_rt translated string.
#[verifier::external_body]
fn tr_unwire(t: gtfs_rt::TranslatedString) -> FeedText {
    FeedText {
        translation: t.translation.into_iter().map(
            |u: gtfs_rt::translated_string::Translation| FeedTranslation {
                text: u.text,
                language: u.language,
            },
        ).collect(),
    }
}

/// Reads back one selector; selectors outside this feed's shape are refused.
#[verifier::external_body]
fn sel_unwire(s: gtfs_rt::EntitySelector) -> Option<FeedSelector> {
    match s {
        gtfs_rt::EntitySelector {
            agency_id: None,
            route_id: Some(route_id),
            route_type: Some(route_type),
            trip: None,
            stop_id,
        } => Some(FeedSelector { route_id, route_type, stop_id }),
        _ => None,
    }
}

/// Reads back one active period.
#[verifier::external_body]
fn period_unwire(p: gtfs_rt::TimeRange) -> FeedPeriod {
    FeedPeriod { start: p.start, end: p.end }
}

/// Reads back one feed entity; entities that are not plain alert entities
/// of this feed's shape are refused.
#[verifier::external_body]
fn entity_unwire(e: gtfs_rt::FeedEntity) -> Option<AlertEntity> {
    let (alert, None, None, None) = (e.alert?, e.is_deleted, e.trip_update, e.vehicle) else {
        return None;
    };
    Some(AlertEntity {
        id: e.id,
        cause: alert.cause?,
        effect: alert.effect?,
        header_text: tr_unwire(alert.header_text?),
        description_text: alert.description_text.map(tr_unwire),
        url: tr_unwire(alert.url?),
        informed_entity: alert.informed_entity.into_iter().map(sel_unwire).collect::<Option<Vec<FeedSelector>>>()?,
        active_period: alert.active_period.into_iter().map(period_unwire).collect(),
    })
}

/// Relies on prost's Message::decode through the gtfs_rt message types:
/// the result is a function of the bytes alone; bytes that do not decode
/// to a feed of this library's shape yield nothing.
#[verifier::external_body]
fn decode_feed(b: &[u8]) -> (r: Option<AlertFeed>)
    ensures
        spec_opt_model(r) == feed_parse(b@),
{
    let msg = match <gtfs_rt::FeedMessage as prost::Message>::decode(b) {
        Ok(msg) => msg,
        Err(_) => return None,
    };
    let timestamp = match (msg.header.timestamp, msg.header.incrementality) {
        (Some(t), None) => t,
        _ => return None,
    };
    let entity = msg.entity.into_iter().map(entity_unwire).collect::<Option<Vec<AlertEntity>>>()?;
    Some(AlertFeed { version: msg.header.gtfs_realtime_version, timestamp, entity })
}

/// Serializes a feed message to its canonical wire bytes.
pub fn encode_feed_message(m: &AlertFeed) -> (r: Vec<u8>)
    ensures
        r@ == feed_wire(m@),
        feed_parse(r@) == Some(m@),
{
    encode_feed(m)
}

/// Decodes wire bytes back into a feed message, when they are one.
pub fn decode_feed_message(b: &[u8]) -> (r: Option<AlertFeed>)
    ensures
        spec_opt_model(r) == feed_parse(b@),
{
    decode_feed(b)
}

/// Law: encoding a feed message and decoding the bytes yields a message
/// identical field-for-field to the input.
pub fn encode_then_decode(m: &AlertFeed) -> (r: Option<AlertFeed>)
    ensures
        r is Some,
        r->0@ == m@,
{
    let bytes = encode_feed_message(m);
    let back = decode_feed_message(bytes.as_slice());
    back
}

/// The wire bytes of the two mode-specific feeds.
#[allow(non_camel_case_types)]
#[derive(Debug, PartialEq, Eq)]
pub struct split_feeds_bytes {
    pub bus: Vec<u8>,
    pub rail: Vec<u8>,
}

/// Serializes both mode-specific feeds of a split to their wire bytes.
pub fn split_feeds_to_bytes(split: &SplitFeeds) -> (r: split_feeds_bytes)
    ensures
        r.bus@ == feed_wire(split.bus@),
        r.rail@ == feed_wire(split.rail@),
{
    split_feeds_bytes { bus: encode_feed_message(&split.bus), rail: encode_feed_message(&split.rail) }
}

} // verus!
