//! One poll cycle's decisions: what a cycle publishes, which failures abort
//! it, the cache key schema, and the cadence wait. The I/O that drives the
//! loop lives outside the library and only performs what is decided here.
use crate::assemble::{alerts_to_feed, spec_all_ok, spec_assemble, spec_entity_of};
use crate::feed::EntityModel;
use crate::raw::{RawAlert, RawAlertModel};
use crate::split::{split_feed, spec_bus_entities, spec_rail_entities};
use crate::text::{dec_str, u64_to_dec_string};
use crate::wire::{feed_wire, split_feeds_bytes, split_feeds_to_bytes};
use vstd::prelude::*;
use vstd::string::StringExecFns;

verus! {

/// The fixed target cadence of the poll loop, in milliseconds.
pub const CADENCE_MS: u64 = 10000;

/// The upstream fetch failed; the cycle received no alert records.
#[derive(Clone, Copy, Debug, PartialEq, Eq)]
pub struct FetchError;

/// Why a cycle published nothing.
#[derive(Clone, Copy, Debug, PartialEq, Eq)]
pub enum CycleError {
    Fetch,
    Parse,
}

/// The feed entities a batch of fetched records yields.
pub open spec fn spec_cycle_entities(alerts: Seq<RawAlertModel>) -> Seq<EntityModel> {
    alerts.map_values(|ra: RawAlertModel| spec_entity_of(ra))
}

/// Runs the computing part of one poll cycle on the fetch outcome: normalize,
/// build, split, encode. A failed fetch or a record without header text
/// aborts the cycle with nothing published; on success the result holds the
/// wire bytes of the bus and rail feeds stamped with `now_secs`.
pub fn process_cycle(fetch: Result<Vec<RawAlert>, FetchError>, now_secs: u64) -> (r: Result<
    split_feeds_bytes,
    CycleError,
>)
    ensures
        fetch is Err ==> r == Err::<split_feeds_bytes, CycleError>(CycleError::Fetch),
        fetch is Ok ==> {
            let models = fetch->Ok_0@.map_values(|a: RawAlert| a@);
            &&& (r is Ok <==> spec_all_ok(models))
            &&& (r is Ok ==> r->Ok_0.bus@ == feed_wire(
                spec_assemble(spec_bus_entities(spec_cycle_entities(models)), now_secs),
            ))
            &&& (r is Ok ==> r->Ok_0.rail@ == feed_wire(
                spec_assemble(spec_rail_entities(spec_cycle_entities(models)), now_secs),
            ))
            &&& (!spec_all_ok(models) ==> r == Err::<split_feeds_bytes, CycleError>(
                CycleError::Parse,
            ))
        },
{
    let alerts = match fetch {
        Ok(alerts) => alerts,
        Err(_) => {
            return Err(CycleError::Fetch);
        },
    };
    let feed = match alerts_to_feed(&alerts, now_secs) {
        Ok(feed) => feed,
        Err(_) => {
            return Err(CycleError::Parse);
        },
    };
    let split = split_feed(&feed);
    let bytes = split_feeds_to_bytes(&split);
    proof {
        let models = alerts@.map_values(|a: RawAlert| a@);
        assert(split.bus@ == spec_assemble(
            spec_bus_entities(spec_cycle_entities(models)),
            now_secs,
        ));
        assert(split.rail@ == spec_assemble(
            spec_rail_entities(spec_cycle_entities(models)),
            now_secs,
        ));
    }
    Ok(bytes)
}

/// Cache key holding a mode feed's bytes.
pub fn feed_bytes_key(feed_id: &str) -> (r: String)
    ensures
        r@ == "gtfsrt|"@ + feed_id@ + "|alerts"@,
{
    let mut s = "gtfsrt|".to_owned();
    s.append(feed_id);
    s.append("|alerts");
    s
}

/// Cache key holding a mode feed's last-update marker.
pub fn feed_time_key(feed_id: &str) -> (r: String)
    ensures
        r@ == "gtfsrttime|"@ + feed_id@ + "|alerts"@,
{
    let mut s = "gtfsrttime|".to_owned();
    s.append(feed_id);
    s.append("|alerts");
    s
}

/// Cache key holding a mode feed's existence marker.
pub fn feed_exists_key(feed_id: &str) -> (r: String)
    ensures
        r@ == "gtfsrtexists|"@ + feed_id@,
{
    let mut s = "gtfsrtexists|".to_owned();
    s.append(feed_id);
    s
}

/// The freshness marker written beside a feed: the epoch milliseconds in decimal.
pub fn freshness_marker(now_millis: u64) -> (r: String)
    ensures
        r@ == dec_str(now_millis as nat),
{
    u64_to_dec_string(now_millis)
}

/// Remaining wait of a cycle: the cadence less the elapsed processing time,
/// and nothing when processing met or exceeded the cadence.
pub fn wait_millis(elapsed_ms: u64, cadence_ms: u64) -> (r: u64)
    ensures
        elapsed_ms < cadence_ms ==> r == cadence_ms - elapsed_ms,
        elapsed_ms >= cadence_ms ==> r == 0,
{
    if elapsed_ms < cadence_ms {
        cadence_ms - elapsed_ms
    } else {
        0
    }
}

} // verus!
