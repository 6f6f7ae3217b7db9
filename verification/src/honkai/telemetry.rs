use vstd::prelude::*;
use crate::telemetry::{TelemetryCheck, check_servers, next_check};
use super::consts::{telemetry_servers, spec_telemetry_servers};

verus! {

/// Check whether telemetry servers are disabled, one server at a time:
/// `answered` holds whether each server checked so far is not disabled, in
/// the order of `telemetry_servers`. The answer names the next server to
/// check, the first one that is not disabled, or says that all are
pub fn is_disabled(answered: &[bool]) -> (r: TelemetryCheck)
    ensures
        r@ == next_check(spec_telemetry_servers(), answered@),
{
    check_servers(telemetry_servers(), answered)
}

} // verus!
