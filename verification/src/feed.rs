//! The feed data model: entities, translated text, selectors, time ranges,
//! and the mathematical models the contracts speak of.
use vstd::prelude::*;

verus! {

/// One piece of translated text with an optional language tag.
#[derive(Debug, PartialEq, Eq)]
pub struct FeedTranslation {
    pub text: String,
    pub language: Option<String>,
}

/// A list of translations of one snippet of text.
#[derive(Debug, PartialEq, Eq)]
pub struct FeedText {
    pub translation: Vec<FeedTranslation>,
}

/// An active period with optional epoch-second bounds.
#[derive(Clone, Copy, Debug, PartialEq, Eq)]
pub struct FeedPeriod {
    pub start: Option<u64>,
    pub end: Option<u64>,
}

/// A selector naming the service an alert concerns.
#[derive(Debug, PartialEq, Eq)]
pub struct FeedSelector {
    pub route_id: String,
    pub route_type: i32,
    pub stop_id: Option<String>,
}

/// One alert entity of a feed.
#[derive(Debug, PartialEq, Eq)]
pub struct AlertEntity {
    pub id: String,
    pub cause: i32,
    pub effect: i32,
    pub header_text: FeedText,
    pub description_text: Option<FeedText>,
    pub url: FeedText,
    pub informed_entity: Vec<FeedSelector>,
    pub active_period: Vec<FeedPeriod>,
}

/// A complete feed: format version, generation timestamp, entity list.
#[derive(Debug, PartialEq, Eq)]
pub struct AlertFeed {
    pub version: String,
    pub timestamp: u64,
    pub entity: Vec<AlertEntity>,
}

/// Model of a translation.
pub struct FeedTranslationModel {
    pub text: Seq<char>,
    pub language: Option<Seq<char>>,
}

/// Model of a translated string.
pub struct FeedTextModel {
    pub translation: Seq<FeedTranslationModel>,
}

/// Model of a selector.
pub struct SelectorModel {
    pub route_id: Seq<char>,
    pub route_type: i32,
    pub stop_id: Option<Seq<char>>,
}

/// Model of a feed entity.
pub struct EntityModel {
    pub id: Seq<char>,
    pub cause: i32,
    pub effect: i32,
    pub header_text: FeedTextModel,
    pub description_text: Option<FeedTextModel>,
    pub url: FeedTextModel,
    pub informed_entity: Seq<SelectorModel>,
    pub active_period: Seq<FeedPeriod>,
}

/// Model of a feed message.
pub struct FeedModel {
    pub version: Seq<char>,
    pub timestamp: u64,
    pub entity: Seq<EntityModel>,
}

impl View for FeedTranslation {
    type V = FeedTranslationModel;

    open spec fn view(&self) -> FeedTranslationModel {
        FeedTranslationModel {
            text: self.text@,
            language: match self.language {
                Some(l) => Some(l@),
                None => None,
            },
        }
    }
}

impl View for FeedText {
    type V = FeedTextModel;

    open spec fn view(&self) -> FeedTextModel {
        FeedTextModel { translation: self.translation@.map_values(|t: FeedTranslation| t@) }
    }
}

impl View for FeedSelector {
    type V = SelectorModel;

    open spec fn view(&self) -> SelectorModel {
        SelectorModel {
            route_id: self.route_id@,
            route_type: self.route_type,
            stop_id: match self.stop_id {
                Some(s) => Some(s@),
                None => None,
            },
        }
    }
}

impl View for AlertEntity {
    type V = EntityModel;

    open spec fn view(&self) -> EntityModel {
        EntityModel {
            id: self.id@,
            cause: self.cause,
            effect: self.effect,
            header_text: self.header_text@,
            description_text: match self.description_text {
                Some(d) => Some(d@),
                None => None,
            },
            url: self.url@,
            informed_entity: self.informed_entity@.map_values(|s: FeedSelector| s@),
            active_period: self.active_period@,
        }
    }
}

impl View for AlertFeed {
    type V = FeedModel;

    open spec fn view(&self) -> FeedModel {
        FeedModel {
            version: self.version@,
            timestamp: self.timestamp,
            entity: self.entity@.map_values(|e: AlertEntity| e@),
        }
    }
}

impl Clone for FeedTranslation {
    fn clone(&self) -> (res: Self)
        ensures
            res == *self,
    {
        FeedTranslation {
            text: self.text.clone(),
            language: match &self.language {
                Some(l) => Some(l.clone()),
                None => None,
            },
        }
    }
}

fn clone_translations(v: &Vec<FeedTranslation>) -> (r: Vec<FeedTranslation>)
    ensures
        r@ == v@,
{
    let mut r: Vec<FeedTranslation> = Vec::new();
    let mut i: usize = 0;
    while i < v.len()
        invariant
            0 <= i <= v.len(),
            r@ == v@.take(i as int),
        decreases v.len() - i,
    {
        r.push(v[i].clone());
        proof {
            assert(v@.take(i + 1).drop_last() =~= v@.take(i as int));
            assert(r@ =~= v@.take(i + 1));
        }
        i = i + 1;
    }
    proof {
        assert(v@.take(v@.len() as int) =~= v@);
    }
    r
}

impl Clone for FeedText {
    fn clone(&self) -> (res: Self)
        ensures
            res@ == self@,
    {
        FeedText { translation: clone_translations(&self.translation) }
    }
}

impl Clone for FeedSelector {
    fn clone(&self) -> (res: Self)
        ensures
            res == *self,
    {
        FeedSelector {
            route_id: self.route_id.clone(),
            route_type: self.route_type,
            stop_id: match &self.stop_id {
                Some(s) => Some(s.clone()),
                None => None,
            },
        }
    }
}

fn clone_selectors(v: &Vec<FeedSelector>) -> (r: Vec<FeedSelector>)
    ensures
        r@ == v@,
{
    let mut r: Vec<FeedSelector> = Vec::new();
    let mut i: usize = 0;
    while i < v.len()
        invariant
            0 <= i <= v.len(),
            r@ == v@.take(i as int),
        decreases v.len() - i,
    {
        r.push(v[i].clone());
        proof {
            assert(r@ =~= v@.take(i + 1));
        }
        i = i + 1;
    }
    proof {
        assert(v@.take(v@.len() as int) =~= v@);
    }
    r
}

fn clone_ranges(v: &Vec<FeedPeriod>) -> (r: Vec<FeedPeriod>)
    ensures
        r@ == v@,
{
    let mut r: Vec<FeedPeriod> = Vec::new();
    let mut i: usize = 0;
    while i < v.len()
        invariant
            0 <= i <= v.len(),
            r@ == v@.take(i as int),
        decreases v.len() - i,
    {
        r.push(v[i]);
        proof {
            assert(r@ =~= v@.take(i + 1));
        }
        i = i + 1;
    }
    proof {
        assert(v@.take(v@.len() as int) =~= v@);
    }
    r
}

impl Clone for AlertEntity {
    fn clone(&self) -> (res: Self)
        ensures
            res@ == self@,
    {
        AlertEntity {
            id: self.id.clone(),
            cause: self.cause,
            effect: self.effect,
            header_text: self.header_text.clone(),
            description_text: match &self.description_text {
                Some(d) => Some(d.clone()),
                None => None,
            },
            url: self.url.clone(),
            informed_entity: clone_selectors(&self.informed_entity),
            active_period: clone_ranges(&self.active_period),
        }
    }
}

} // verus!
