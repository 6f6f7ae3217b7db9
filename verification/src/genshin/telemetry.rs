use vstd::prelude::*;
use crate::telemetry::{TelemetryCheck, check_servers, next_check};
use super::consts::{GameEdition, get_telemetry_servers, spec_telemetry_servers};

verus! {

/// Check whether telemetry servers are disabled, one server at a time:
/// `answered` holds whether each server probed so far answered, in the
/// order of `get_telemetry_servers`. The answer names the next server to
/// probe, the first one that answered, or says that none does
pub fn is_disabled(edition: GameEdition, answered: &[bool]) -> (r: TelemetryCheck)
    ensures
        r@ == next_check(spec_telemetry_servers(edition), answered@),
{
    check_servers(get_telemetry_servers(edition), answered)
}

} // verus!
