//! The raw alert record as received from the agency API, with its
//! string-or-number fields kept as explicit tagged unions.
use vstd::prelude::*;

verus! {

/// A field that may arrive as a string or as an unsigned number.
pub enum StrOrU64 {
    Str(String),
    Num(u64),
}

/// A field that may arrive as a string or as a signed 32-bit number.
pub enum StrOrI32 {
    Str(String),
    Num(i32),
}

/// One affected-service record of a raw alert.
pub struct RawService {
    pub route_type: StrOrI32,
    pub route_id: String,
    pub stop_id: Option<String>,
}

/// One effect time window of a raw alert, bounds as agency-formatted strings.
pub struct RawWindow {
    pub effect_start: String,
    pub effect_end: String,
}

/// A raw alert record.
pub struct RawAlert {
    pub alert_id: StrOrU64,
    pub cause: String,
    pub effect: String,
    pub header_text: Option<String>,
    pub description_text: Option<String>,
    pub effect_periods: Vec<RawWindow>,
    pub affected_services: Vec<RawService>,
}

/// Model of a string-or-u64 field.
pub enum StrOrU64Model {
    Str(Seq<char>),
    Num(u64),
}

/// Model of a string-or-i32 field.
pub enum StrOrI32Model {
    Str(Seq<char>),
    Num(i32),
}

/// Model of an affected-service record.
pub struct RawServiceModel {
    pub route_type: StrOrI32Model,
    pub route_id: Seq<char>,
    pub stop_id: Option<Seq<char>>,
}

/// Model of an effect time window.
pub struct RawWindowModel {
    pub effect_start: Seq<char>,
    pub effect_end: Seq<char>,
}

/// Model of a raw alert record.
pub struct RawAlertModel {
    pub alert_id: StrOrU64Model,
    pub cause: Seq<char>,
    pub effect: Seq<char>,
    pub header_text: Option<Seq<char>>,
    pub description_text: Option<Seq<char>>,
    pub effect_periods: Seq<RawWindowModel>,
    pub affected_services: Seq<RawServiceModel>,
}

impl View for StrOrU64 {
    type V = StrOrU64Model;

    open spec fn view(&self) -> StrOrU64Model {
        match self {
            StrOrU64::Str(s) => StrOrU64Model::Str(s@),
            StrOrU64::Num(n) => StrOrU64Model::Num(*n),
        }
    }
}

impl View for StrOrI32 {
    type V = StrOrI32Model;

    open spec fn view(&self) -> StrOrI32Model {
        match self {
            StrOrI32::Str(s) => StrOrI32Model::Str(s@),
            StrOrI32::Num(n) => StrOrI32Model::Num(*n),
        }
    }
}

impl View for RawService {
    type V = RawServiceModel;

    open spec fn view(&self) -> RawServiceModel {
        RawServiceModel {
            route_type: self.route_type@,
            route_id: self.route_id@,
            stop_id: match self.stop_id {
                Some(s) => Some(s@),
                None => None,
            },
        }
    }
}

impl View for RawWindow {
    type V = RawWindowModel;

    open spec fn view(&self) -> RawWindowModel {
        RawWindowModel { effect_start: self.effect_start@, effect_end: self.effect_end@ }
    }
}

impl View for RawAlert {
    type V = RawAlertModel;

    open spec fn view(&self) -> RawAlertModel {
        RawAlertModel {
            alert_id: self.alert_id@,
            cause: self.cause@,
            effect: self.effect@,
            header_text: match self.header_text {
                Some(s) => Some(s@),
                None => None,
            },
            description_text: match self.description_text {
                Some(s) => Some(s@),
                None => None,
            },
            effect_periods: self.effect_periods@.map_values(|w: RawWindow| w@),
            affected_services: self.affected_services@.map_values(|s: RawService| s@),
        }
    }
}

} // verus!
