//! The normalizer: coercion of raw alert records into typed alerts.
use crate::feed::{FeedSelector, SelectorModel, FeedPeriod};
use crate::raw::{RawAlert, RawAlertModel, RawService, RawServiceModel, RawWindow, RawWindowModel,
    StrOrI32, StrOrI32Model, StrOrU64, StrOrU64Model};
use crate::text::{all_digits, dec_str, dec_value, parse_u64, u64_to_dec_string};
use vstd::prelude::*;
use vstd::string::StrSliceExecFns;

verus! {

/// A raw record that cannot be normalized: its mandatory header text is missing.
#[derive(Clone, Copy, Debug, PartialEq, Eq)]
pub enum ParseError {
    MissingHeaderText,
}

/// A non-empty time string that is not a decimal epoch-second count.
#[derive(Clone, Copy, Debug, PartialEq, Eq)]
pub struct TimeStringError;

/// The typed alert a raw record normalizes to.
#[derive(Debug, PartialEq, Eq)]
pub struct NormalizedAlert {
    pub id: String,
    pub cause: String,
    pub effect: String,
    pub header_text: String,
    pub description_text: Option<String>,
    pub windows: Vec<FeedPeriod>,
    pub services: Vec<FeedSelector>,
}

/// Model of a normalized alert.
pub struct NormalizedModel {
    pub id: Seq<char>,
    pub cause: Seq<char>,
    pub effect: Seq<char>,
    pub header_text: Seq<char>,
    pub description_text: Option<Seq<char>>,
    pub windows: Seq<FeedPeriod>,
    pub services: Seq<SelectorModel>,
}

impl View for NormalizedAlert {
    type V = NormalizedModel;

    open spec fn view(&self) -> NormalizedModel {
        NormalizedModel {
            id: self.id@,
            cause: self.cause@,
            effect: self.effect@,
            header_text: self.header_text@,
            description_text: match self.description_text {
                Some(d) => Some(d@),
                None => None,
            },
            windows: self.windows@,
            services: self.services@.map_values(|s: FeedSelector| s@),
        }
    }
}

/// Signed 32-bit decimal integer denoted by `s`, if any, as `str::parse` reads it.
pub open spec fn spec_parse_i32(s: Seq<char>) -> Option<int> {
    if s.len() == 0 {
        None
    } else if s[0] == '-' {
        let d = s.subrange(1, s.len() as int);
        if d.len() > 0 && all_digits(d) && dec_value(d) <= 0x8000_0000 {
            Some(-(dec_value(d) as int))
        } else {
            None
        }
    } else if s[0] == '+' {
        let d = s.subrange(1, s.len() as int);
        if d.len() > 0 && all_digits(d) && dec_value(d) <= 0x7fff_ffff {
            Some(dec_value(d) as int)
        } else {
            None
        }
    } else {
        if all_digits(s) && dec_value(s) <= 0x7fff_ffff {
            Some(dec_value(s) as int)
        } else {
            None
        }
    }
}

/// The integer `s` denotes, or zero when it denotes none.
pub open spec fn spec_parse_i32_or_zero(s: Seq<char>) -> i32 {
    match spec_parse_i32(s) {
        Some(v) => v as i32,
        None => 0,
    }
}

/// Parses a transport-mode code string; unparseable strings coerce to zero.
pub fn parse_i32_or_zero(s: &str) -> (r: i32)
    ensures
        r == spec_parse_i32_or_zero(s@),
{
    let n = s.unicode_len();
    if n == 0 {
        return 0;
    }
    let c0 = s.get_char(0);
    if c0 == '-' {
        let rest = s.substring_char(1, n);
        match parse_u64(rest) {
            Some(v) => {
                if v == 0x8000_0000 {
                    i32::MIN
                } else if v < 0x8000_0000 {
                    -(v as i32)
                } else {
                    0
                }
            },
            None => 0,
        }
    } else if c0 == '+' {
        let rest = s.substring_char(1, n);
        match parse_u64(rest) {
            Some(v) => {
                if v <= 0x7fff_ffff {
                    v as i32
                } else {
                    0
                }
            },
            None => 0,
        }
    } else {
        match parse_u64(s) {
            Some(v) => {
                if v <= 0x7fff_ffff {
                    v as i32
                } else {
                    0
                }
            },
            None => 0,
        }
    }
}

/// The bound an agency time string denotes: absent for the empty string,
/// an epoch-second count for a decimal string, failure otherwise.
pub open spec fn spec_time_bound(s: Seq<char>) -> Option<Option<u64>> {
    if s.len() == 0 {
        Some(None)
    } else if all_digits(s) && dec_value(s) <= u64::MAX {
        Some(Some(dec_value(s) as u64))
    } else {
        None
    }
}

/// Parses one time-window bound: empty means absent, digits mean epoch
/// seconds, anything else is a failure for that window.
pub fn gtfs_string_to_timestamp(x: &str) -> (r: Result<Option<u64>, TimeStringError>)
    ensures
        match spec_time_bound(x@) {
            Some(b) => r == Ok::<Option<u64>, TimeStringError>(b),
            None => r is Err,
        },
{
    if x.unicode_len() == 0 {
        Ok(None)
    } else {
        match parse_u64(x) {
            Some(v) => Ok(Some(v)),
            None => Err(TimeStringError),
        }
    }
}

/// The identifier string of a raw alert: a numeric identifier is written in decimal.
pub open spec fn spec_id_string(v: StrOrU64Model) -> Seq<char> {
    match v {
        StrOrU64Model::Str(s) => s,
        StrOrU64Model::Num(n) => dec_str(n as nat),
    }
}

/// The transport-mode code of a raw service entry, coerced to an integer.
pub open spec fn spec_route_type_code(v: StrOrI32Model) -> i32 {
    match v {
        StrOrI32Model::Num(x) => x,
        StrOrI32Model::Str(s) => spec_parse_i32_or_zero(s),
    }
}

/// The selector a raw service entry normalizes to.
pub open spec fn spec_service(s: RawServiceModel) -> SelectorModel {
    SelectorModel {
        route_id: s.route_id,
        route_type: spec_route_type_code(s.route_type),
        stop_id: s.stop_id,
    }
}

/// The active period a raw window yields, or nothing when a bound fails to parse.
pub open spec fn spec_window(w: RawWindowModel) -> Option<FeedPeriod> {
    match (spec_time_bound(w.effect_start), spec_time_bound(w.effect_end)) {
        (Some(s), Some(e)) => Some(FeedPeriod { start: s, end: e }),
        _ => None,
    }
}

/// The active periods of a raw alert, in order, windows with failing bounds left out.
pub open spec fn spec_windows(ws: Seq<RawWindowModel>) -> Seq<FeedPeriod>
    decreases ws.len(),
{
    if ws.len() == 0 {
        Seq::empty()
    } else {
        let rest = spec_windows(ws.drop_last());
        match spec_window(ws.last()) {
            Some(t) => rest.push(t),
            None => rest,
        }
    }
}

/// The normalized alert a raw record yields; none when the header text is missing.
pub open spec fn spec_normalize(ra: RawAlertModel) -> Option<NormalizedModel> {
    match ra.header_text {
        None => None,
        Some(h) => Some(
            NormalizedModel {
                id: spec_id_string(ra.alert_id),
                cause: ra.cause,
                effect: ra.effect,
                header_text: h,
                description_text: ra.description_text,
                windows: spec_windows(ra.effect_periods),
                services: ra.affected_services.map_values(|s: RawServiceModel| spec_service(s)),
            },
        ),
    }
}

/// Normalizes one raw alert record, tolerating string-or-number variance;
/// a record without header text is rejected.
pub fn normalize_alert(raw: &RawAlert) -> (r: Result<NormalizedAlert, ParseError>)
    ensures
        r is Ok <==> raw@.header_text is Some,
        r is Ok ==> Some(r->Ok_0@) == spec_normalize(raw@),
        r is Err ==> r->Err_0 == ParseError::MissingHeaderText,
{
    let header_text = match &raw.header_text {
        Some(h) => h.clone(),
        None => {
            return Err(ParseError::MissingHeaderText);
        },
    };
    let id = match &raw.alert_id {
        StrOrU64::Str(s) => s.clone(),
        StrOrU64::Num(n) => u64_to_dec_string(*n),
    };
    let mut services: Vec<FeedSelector> = Vec::new();
    let mut i: usize = 0;
    while i < raw.affected_services.len()
        invariant
            0 <= i <= raw.affected_services.len(),
            services@.len() == i,
            forall|j: int|
                0 <= j < i ==> (#[trigger] services@[j])@ == spec_service(
                    raw.affected_services@[j]@,
                ),
        decreases raw.affected_services.len() - i,
    {
        let s = &raw.affected_services[i];
        let rt = match &s.route_type {
            StrOrI32::Num(v) => *v,
            StrOrI32::Str(t) => parse_i32_or_zero(t.as_str()),
        };
        services.push(
            FeedSelector {
                route_id: s.route_id.clone(),
                route_type: rt,
                stop_id: match &s.stop_id {
                    Some(x) => Some(x.clone()),
                    None => None,
                },
            },
        );
        i = i + 1;
    }
    let mut windows: Vec<FeedPeriod> = Vec::new();
    let mut k: usize = 0;
    while k < raw.effect_periods.len()
        invariant
            0 <= k <= raw.effect_periods.len(),
            windows@ == spec_windows(
                raw.effect_periods@.map_values(|w: RawWindow| w@).take(k as int),
            ),
        decreases raw.effect_periods.len() - k,
    {
        let w = &raw.effect_periods[k];
        let sb = gtfs_string_to_timestamp(w.effect_start.as_str());
        let eb = gtfs_string_to_timestamp(w.effect_end.as_str());
        proof {
            let ms = raw.effect_periods@.map_values(|w: RawWindow| w@);
            assert(ms.take(k + 1).drop_last() =~= ms.take(k as int));
            assert(ms.take(k + 1).last() == ms[k as int]);
        }
        match (sb, eb) {
            (Ok(s0), Ok(e0)) => {
                windows.push(FeedPeriod { start: s0, end: e0 });
            },
            _ => {},
        }
        k = k + 1;
    }
    let result = NormalizedAlert {
        id,
        cause: raw.cause.clone(),
        effect: raw.effect.clone(),
        header_text,
        description_text: match &raw.description_text {
            Some(d) => Some(d.clone()),
            None => None,
        },
        windows,
        services,
    };
    proof {
        let ms = raw.effect_periods@.map_values(|w: RawWindow| w@);
        assert(ms.take(ms.len() as int) =~= ms);
        assert(result@.services =~= raw@.affected_services.map_values(
            |s: RawServiceModel| spec_service(s),
        ));
    }
    Ok(result)
}

} // verus!
