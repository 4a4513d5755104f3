//! The mode splitter: partitions a feed into bus and rail outputs by the
//! transport-mode codes referenced in each entity's selectors.
use crate::feed::{EntityModel, FeedSelector, AlertEntity, AlertFeed, SelectorModel};
use vstd::prelude::*;

verus! {

/// Which of the two mode-specific outputs is meant.
#[derive(Clone, Copy, Debug)]
pub enum WhichFeed {
    Bus,
    Rail,
}

/// The two mode-specific feeds derived from one assembled feed.
pub struct SplitFeeds {
    pub bus: AlertFeed,
    pub rail: AlertFeed,
}

/// Some selector of the list carries transport-mode code `t`.
pub open spec fn spec_sels_have_type(sels: Seq<SelectorModel>, t: i32) -> bool {
    exists|i: int| 0 <= i < sels.len() && (#[trigger] sels[i]).route_type == t
}

/// The entity belongs in the bus output: some selector carries code 3.
pub open spec fn spec_is_bus(e: EntityModel) -> bool {
    spec_sels_have_type(e.informed_entity, 3)
}

/// The entity belongs in the rail output: some selector carries 0, 1, 2 or 7.
pub open spec fn spec_is_rail(e: EntityModel) -> bool {
    spec_sels_have_type(e.informed_entity, 0) || spec_sels_have_type(e.informed_entity, 1)
        || spec_sels_have_type(e.informed_entity, 2) || spec_sels_have_type(e.informed_entity, 7)
}

/// The subsequence of entities that belong in the bus output, in order.
pub open spec fn spec_bus_entities(s: Seq<EntityModel>) -> Seq<EntityModel> {
    s.filter(|e: EntityModel| spec_is_bus(e))
}

/// The subsequence of entities that belong in the rail output, in order.
pub open spec fn spec_rail_entities(s: Seq<EntityModel>) -> Seq<EntityModel> {
    s.filter(|e: EntityModel| spec_is_rail(e))
}

fn contains_route_type(sels: &Vec<FeedSelector>, t: i32) -> (r: bool)
    ensures
        r == spec_sels_have_type(sels@.map_values(|s: FeedSelector| s@), t),
{
    let mut i: usize = 0;
    while i < sels.len()
        invariant
            0 <= i <= sels.len(),
            forall|j: int|
                0 <= j < i ==> (#[trigger] sels@[j]).route_type != t,
        decreases sels.len() - i,
    {
        if sels[i].route_type == t {
            assert(sels@.map_values(|s: FeedSelector| s@)[i as int].route_type == t);
            return true;
        }
        i = i + 1;
    }
    proof {
        let ms = sels@.map_values(|s: FeedSelector| s@);
        if spec_sels_have_type(ms, t) {
            let j = choose|j: int| 0 <= j < ms.len() && (#[trigger] ms[j]).route_type == t;
            assert(ms[j] == sels@[j]@);
            assert(sels@[j].route_type != t);
        }
    }
    false
}

/// Decides whether one entity belongs in the given mode-specific output.
pub fn should_entity_be_allowed(entity: &AlertEntity, whichfeed: WhichFeed) -> (r: bool)
    ensures
        r == match whichfeed {
            WhichFeed::Bus => spec_is_bus(entity@),
            WhichFeed::Rail => spec_is_rail(entity@),
        },
{
    match whichfeed {
        WhichFeed::Bus => contains_route_type(&entity.informed_entity, 3),
        WhichFeed::Rail => {
            contains_route_type(&entity.informed_entity, 0) || contains_route_type(
                &entity.informed_entity,
                1,
            ) || contains_route_type(&entity.informed_entity, 2) || contains_route_type(
                &entity.informed_entity,
                7,
            )
        },
    }
}

fn filter_entities(m: &AlertFeed, whichfeed: WhichFeed) -> (r: Vec<AlertEntity>)
    ensures
        r@.map_values(|e: AlertEntity| e@) == match whichfeed {
            WhichFeed::Bus => spec_bus_entities(m@.entity),
            WhichFeed::Rail => spec_rail_entities(m@.entity),
        },
{
    let mut out: Vec<AlertEntity> = Vec::new();
    let mut i: usize = 0;
    while i < m.entity.len()
        invariant
            0 <= i <= m.entity.len(),
            out@.map_values(|e: AlertEntity| e@) == match whichfeed {
                WhichFeed::Bus => spec_bus_entities(m@.entity.take(i as int)),
                WhichFeed::Rail => spec_rail_entities(m@.entity.take(i as int)),
            },
        decreases m.entity.len() - i,
    {
        proof {
            let elem = m.entity@[i as int]@;
            assert(m@.entity.take(i + 1) =~= m@.entity.take(i as int).push(elem));
            m@.entity.take(i as int).lemma_filter_push(elem, |e: EntityModel| spec_is_bus(e));
            m@.entity.take(i as int).lemma_filter_push(elem, |e: EntityModel| spec_is_rail(e));
        }
        let ghost prev = out@.map_values(|e: AlertEntity| e@);
        if should_entity_be_allowed(&m.entity[i], whichfeed) {
            out.push(m.entity[i].clone());
            proof {
                assert(out@.map_values(|e: AlertEntity| e@) =~= prev.push(m.entity@[i as int]@));
            }
        }
        i = i + 1;
    }
    proof {
        assert(m@.entity.take(m@.entity.len() as int) =~= m@.entity);
    }
    out
}

/// Splits one assembled feed into bus and rail outputs sharing its header.
/// Membership is independent: an entity may appear in both outputs or in
/// neither, and entities keep their order and full contents.
pub fn split_feed(structure: &AlertFeed) -> (r: SplitFeeds)
    ensures
        r.bus@.version == structure@.version,
        r.bus@.timestamp == structure@.timestamp,
        r.rail@.version == structure@.version,
        r.rail@.timestamp == structure@.timestamp,
        r.bus@.entity == spec_bus_entities(structure@.entity),
        r.rail@.entity == spec_rail_entities(structure@.entity),
{
    let bus_entities = filter_entities(structure, WhichFeed::Bus);
    let rail_entities = filter_entities(structure, WhichFeed::Rail);
    SplitFeeds {
        bus: AlertFeed {
            version: structure.version.clone(),
            timestamp: structure.timestamp,
            entity: bus_entities,
        },
        rail: AlertFeed {
            version: structure.version.clone(),
            timestamp: structure.timestamp,
            entity: rail_entities,
        },
    }
}

/// Law: an entity with a transport-mode 3 selector appears in the bus output.
pub proof fn lemma_bus_split_complete(entities: Seq<EntityModel>, i: int)
    requires
        0 <= i < entities.len(),
        spec_is_bus(entities[i]),
    ensures
        spec_bus_entities(entities).contains(entities[i]),
{
    entities.lemma_filter_contains(|e: EntityModel| spec_is_bus(e), i);
}

/// Law: an entity with a selector carrying 0, 1, 2 or 7 appears in the rail output.
pub proof fn lemma_rail_split_complete(entities: Seq<EntityModel>, i: int)
    requires
        0 <= i < entities.len(),
        spec_is_rail(entities[i]),
    ensures
        spec_rail_entities(entities).contains(entities[i]),
{
    entities.lemma_filter_contains(|e: EntityModel| spec_is_rail(e), i);
}

/// Law: an entity matching neither condition appears in neither output.
pub proof fn lemma_unmatched_in_neither(entities: Seq<EntityModel>, i: int)
    requires
        0 <= i < entities.len(),
        !spec_is_bus(entities[i]),
        !spec_is_rail(entities[i]),
    ensures
        !spec_bus_entities(entities).contains(entities[i]),
        !spec_rail_entities(entities).contains(entities[i]),
{
    let bus = spec_bus_entities(entities);
    if bus.contains(entities[i]) {
        let j = choose|j: int| 0 <= j < bus.len() && bus[j] == entities[i];
        entities.lemma_filter_pred(|e: EntityModel| spec_is_bus(e), j);
    }
    let rail = spec_rail_entities(entities);
    if rail.contains(entities[i]) {
        let j = choose|j: int| 0 <= j < rail.len() && rail[j] == entities[i];
        entities.lemma_filter_pred(|e: EntityModel| spec_is_rail(e), j);
    }
}

/// Law: an entity matching both conditions appears, in full, in both outputs.
pub proof fn lemma_mixed_in_both(entities: Seq<EntityModel>, i: int)
    requires
        0 <= i < entities.len(),
        spec_is_bus(entities[i]),
        spec_is_rail(entities[i]),
    ensures
        spec_bus_entities(entities).contains(entities[i]),
        spec_rail_entities(entities).contains(entities[i]),
{
    lemma_bus_split_complete(entities, i);
    lemma_rail_split_complete(entities, i);
}

} // verus!
