//! The entity builder and feed assembler: one feed entity per normalized
//! alert, wrapped with a fixed-version header.
use crate::feed::{EntityModel, AlertEntity, AlertFeed, FeedModel, FeedText,
    FeedTextModel, FeedTranslation, FeedTranslationModel};
use crate::normalize::{normalize_alert, spec_normalize, NormalizedAlert, NormalizedModel,
    ParseError};
use crate::raw::{RawAlert, RawAlertModel};
use crate::vocab::{cause_code, effect_code, spec_cause_code, spec_effect_code};
use vstd::prelude::*;

verus! {

/// The fixed advisory URL carried by every entity.
pub open spec fn spec_advisory_url() -> Seq<char> {
    "https://www.metro.net/service/advisories"@
}

/// A single-translation string in the fixed "en" locale.
pub open spec fn spec_en_translated(text: Seq<char>) -> FeedTextModel {
    FeedTextModel {
        translation: seq![FeedTranslationModel { text: text, language: Some("en"@) }],
    }
}

/// The feed entity built from one normalized alert.
pub open spec fn spec_build_entity(n: NormalizedModel) -> EntityModel {
    EntityModel {
        id: n.id,
        cause: spec_cause_code(n.cause),
        effect: spec_effect_code(n.effect),
        header_text: spec_en_translated(n.header_text),
        description_text: match n.description_text {
            Some(d) => Some(spec_en_translated(d)),
            None => None,
        },
        url: spec_en_translated(spec_advisory_url()),
        informed_entity: n.services,
        active_period: n.windows,
    }
}

fn en_translated(text: String) -> (r: FeedText)
    ensures
        r@ == spec_en_translated(text@),
{
    let mut translation: Vec<FeedTranslation> = Vec::new();
    translation.push(FeedTranslation { text, language: Some("en".to_owned()) });
    let r = FeedText { translation };
    proof {
        assert(r@.translation =~= spec_en_translated(r.translation@[0].text@).translation);
    }
    r
}

/// Builds one feed entity from a normalized alert: mapped cause/effect codes,
/// "en" translations, the fixed advisory URL, selectors and periods in order.
pub fn build_entity(n: NormalizedAlert) -> (r: AlertEntity)
    ensures
        r@ == spec_build_entity(n@),
{
    let cause = cause_code(n.cause.as_str());
    let effect = effect_code(n.effect.as_str());
    AlertEntity {
        id: n.id,
        cause,
        effect,
        header_text: en_translated(n.header_text),
        description_text: match n.description_text {
            Some(d) => Some(en_translated(d)),
            None => None,
        },
        url: en_translated("https://www.metro.net/service/advisories".to_owned()),
        informed_entity: n.services,
        active_period: n.windows,
    }
}

/// The feed message wrapping an entity sequence at a generation time.
pub open spec fn spec_assemble(entities: Seq<EntityModel>, now_secs: u64) -> FeedModel {
    FeedModel { version: "2.0"@, timestamp: now_secs, entity: entities }
}

/// Wraps entities with a header declaring format version "2.0" and the
/// current generation timestamp; the message is always a full snapshot.
pub fn assemble_feed(entity: Vec<AlertEntity>, now_secs: u64) -> (r: AlertFeed)
    ensures
        r@ == spec_assemble(entity@.map_values(|e: AlertEntity| e@), now_secs),
{
    AlertFeed { version: "2.0".to_owned(), timestamp: now_secs, entity }
}

/// Every record of the batch carries its mandatory header text.
pub open spec fn spec_all_ok(alerts: Seq<RawAlertModel>) -> bool {
    forall|i: int| 0 <= i < alerts.len() ==> (#[trigger] spec_normalize(alerts[i])) is Some
}

/// The feed entity a raw record yields once normalized and built.
pub open spec fn spec_entity_of(ra: RawAlertModel) -> EntityModel {
    spec_build_entity(spec_normalize(ra)->0)
}

/// Normalizes and builds a whole batch of raw alerts into a feed message
/// stamped with `now_secs`; fails when any record is missing header text.
pub fn alerts_to_feed(alerts: &Vec<RawAlert>, now_secs: u64) -> (r: Result<
    AlertFeed,
    ParseError,
>)
    ensures
        r is Ok <==> spec_all_ok(alerts@.map_values(|a: RawAlert| a@)),
        r is Ok ==> r->Ok_0@ == spec_assemble(
            alerts@.map_values(|a: RawAlert| a@).map_values(|ra: RawAlertModel| spec_entity_of(ra)),
            now_secs,
        ),
        r is Err ==> r->Err_0 == ParseError::MissingHeaderText,
{
    let mut entities: Vec<AlertEntity> = Vec::new();
    let mut i: usize = 0;
    while i < alerts.len()
        invariant
            0 <= i <= alerts.len(),
            entities@.len() == i,
            forall|j: int|
                0 <= j < i ==> (#[trigger] spec_normalize(alerts@[j]@)) is Some,
            forall|j: int|
                0 <= j < i ==> (#[trigger] entities@[j])@ == spec_entity_of(alerts@[j]@),
        decreases alerts.len() - i,
    {
        match normalize_alert(&alerts[i]) {
            Ok(n) => {
                entities.push(build_entity(n));
            },
            Err(e) => {
                assert(spec_normalize(alerts@.map_values(|a: RawAlert| a@)[i as int]) is None);
                return Err(e);
            },
        }
        i = i + 1;
    }
    let r = assemble_feed(entities, now_secs);
    proof {
        let models = alerts@.map_values(|a: RawAlert| a@);
        assert forall|j: int| 0 <= j < models.len() implies (#[trigger] spec_normalize(
            models[j],
        )) is Some by {
            assert(models[j] == alerts@[j]@);
        }
        assert(r@.entity =~= models.map_values(|ra: RawAlertModel| spec_entity_of(ra)));
    }
    Ok(r)
}

} // verus!
