use vstd::prelude::*;
use crate::telemetry::{TelemetryCheck, ProbeFailed, check_probes, next_probe_check, probe_result};
use super::consts::GameEdition;

verus! {

/// Check whether telemetry servers are disabled, one server at a time:
/// `probes` holds, for each server probed so far in the order of
/// `GameEdition::telemetry_servers`, whether it is available, or `None`
/// where the probe failed. The answer names the next server to probe, the
/// first one that is available, or says that none is; a probe that fails
/// before any server answers fails the check
pub fn is_disabled(game_edition: GameEdition, probes: &[Option<bool>]) -> (r: Result<TelemetryCheck, ProbeFailed>)
    ensures
        probe_result(r) == next_probe_check(game_edition.spec_telemetry_servers(), probes@),
{
    check_probes(game_edition.telemetry_servers(), probes)
}

} // verus!
