use vstd::prelude::*;

verus! {

/// What a telemetry check does next, given the servers that were already
/// probed
#[derive(Debug, Clone, PartialEq, Eq)]
pub enum TelemetryCheck {
    /// Probe this server next
    Check(String),
    /// This server answers: telemetry is not disabled
    Enabled(String),
    /// No server answers
    Disabled,
}

/// Mathematical value of a `TelemetryCheck`
pub enum CheckModel {
    Check(Seq<char>),
    Enabled(Seq<char>),
    Disabled,
}

impl View for TelemetryCheck {
    type V = CheckModel;

    open spec fn view(&self) -> CheckModel {
        match self {
            TelemetryCheck::Check(s) => CheckModel::Check(s@),
            TelemetryCheck::Enabled(s) => CheckModel::Enabled(s@),
            TelemetryCheck::Disabled => CheckModel::Disabled,
        }
    }
}

/// Index of the first probed server that answered, or -1
pub open spec fn first_answering(servers: Seq<Seq<char>>, answered: Seq<bool>) -> int
    decreases answered.len(),
{
    if answered.len() == 0 || servers.len() == 0 {
        -1
    } else if answered[0] {
        0
    } else {
        let k = first_answering(servers.drop_first(), answered.drop_first());
        if k < 0 { -1 } else { k + 1 }
    }
}

/// The servers are probed in order and the first that answers is reported;
/// `answered` holds the results of the probes made so far
pub open spec fn next_check(servers: Seq<Seq<char>>, answered: Seq<bool>) -> CheckModel {
    let k = first_answering(servers, answered);
    if k >= 0 {
        CheckModel::Enabled(servers[k])
    } else if answered.len() < servers.len() {
        CheckModel::Check(servers[answered.len() as int])
    } else {
        CheckModel::Disabled
    }
}

proof fn lemma_first_answering(servers: Seq<Seq<char>>, answered: Seq<bool>)
    ensures
        first_answering(servers, answered) < servers.len(),
        first_answering(servers, answered) < answered.len(),
        first_answering(servers, answered) >= 0 ==> answered[first_answering(servers, answered)],
        forall|j: int| 0 <= j < answered.len() && j < servers.len()
            && (first_answering(servers, answered) < 0 || j < first_answering(servers, answered))
            ==> !#[trigger] answered[j],
    decreases answered.len(),
{
    if answered.len() > 0 && servers.len() > 0 {
        lemma_first_answering(servers.drop_first(), answered.drop_first());
        assert forall|j: int| 1 <= j < answered.len() implies #[trigger] answered[j] == answered.drop_first()[j - 1] by {}
    }
}

/// The next step of a telemetry check over `servers`, given the results of
/// the probes made so far
pub fn check_servers(servers: &[&str], answered: &[bool]) -> (r: TelemetryCheck)
    ensures
        r@ == next_check(servers@.map_values(|s: &str| s@), answered@),
{
    let ghost sv = servers@.map_values(|s: &str| s@);
    proof {
        lemma_first_answering(sv, answered@);
    }
    let n = if servers.len() < answered.len() { servers.len() } else { answered.len() };
    let mut i: usize = 0;
    while i < n
        invariant
            n <= servers@.len(),
            n <= answered@.len(),
            n == servers@.len() || n == answered@.len(),
            sv == servers@.map_values(|s: &str| s@),
            i <= n,
            forall|j: int| 0 <= j < i ==> !#[trigger] answered@[j],
            first_answering(sv, answered@) < 0 || first_answering(sv, answered@) >= i,
            first_answering(sv, answered@) < sv.len(),
            first_answering(sv, answered@) < answered@.len(),
            first_answering(sv, answered@) >= 0 ==> answered@[first_answering(sv, answered@)],
            forall|j: int| 0 <= j < answered@.len() && j < sv.len()
                && (first_answering(sv, answered@) < 0 || j < first_answering(sv, answered@))
                ==> !#[trigger] answered@[j],
        decreases n - i,
    {
        if answered[i] {
            assert(first_answering(sv, answered@) == i as int);
            return TelemetryCheck::Enabled(servers[i].to_owned());
        }
        i += 1;
    }
    if answered.len() < servers.len() {
        TelemetryCheck::Check(servers[answered.len()].to_owned())
    } else {
        TelemetryCheck::Disabled
    }
}

/// Once every server was probed, telemetry counts as disabled exactly when
/// none of them answered; otherwise the first one that answered is reported
pub proof fn lemma_disabled_iff_none_answered(servers: Seq<Seq<char>>, answered: Seq<bool>)
    requires
        answered.len() == servers.len(),
    ensures
        (next_check(servers, answered) is Disabled) <==> forall|j: int| 0 <= j < answered.len() ==> !#[trigger] answered[j],
        next_check(servers, answered) matches CheckModel::Enabled(s) ==> exists|j: int|
            0 <= j < answered.len() && #[trigger] answered[j] && servers[j] == s,
{
    lemma_first_answering(servers, answered);
    let k = first_answering(servers, answered);
    if k >= 0 {
        assert(answered[k]);
    }
}

/// A probe of a telemetry server failed: the check cannot tell whether
/// telemetry is disabled
#[derive(Debug, Clone, Copy, PartialEq, Eq)]
pub struct ProbeFailed;

/// Index of the first of the first `n` probes that did not report an
/// unavailable server (it failed, or the server answered), or -1
pub open spec fn first_decisive(probes: Seq<Option<bool>>, n: nat) -> int
    decreases probes.len(),
{
    if probes.len() == 0 || n == 0 {
        -1
    } else if probes[0] != Some(false) {
        0
    } else {
        let k = first_decisive(probes.drop_first(), (n - 1) as nat);
        if k < 0 { -1 } else { k + 1 }
    }
}

proof fn lemma_first_decisive(probes: Seq<Option<bool>>, n: nat)
    ensures
        first_decisive(probes, n) < probes.len(),
        first_decisive(probes, n) < n,
        first_decisive(probes, n) >= 0 ==> probes[first_decisive(probes, n)] != Some(false),
        forall|j: int| 0 <= j < probes.len() && j < n && (first_decisive(probes, n) < 0 || j < first_decisive(probes, n))
            ==> #[trigger] probes[j] == Some(false),
    decreases probes.len(),
{
    if probes.len() > 0 && n > 0 {
        lemma_first_decisive(probes.drop_first(), (n - 1) as nat);
        assert forall|j: int| 1 <= j < probes.len() implies #[trigger] probes[j] == probes.drop_first()[j - 1] by {}
    }
}

/// The servers are probed in order, each probe telling whether the server
/// is available or failing: the first probe that fails fails the check,
/// and otherwise the first server that is available is reported; `probes`
/// holds the results of the probes made so far
pub open spec fn next_probe_check(servers: Seq<Seq<char>>, probes: Seq<Option<bool>>) -> Result<CheckModel, ProbeFailed> {
    let k = first_decisive(probes, servers.len());
    if k >= 0 {
        if probes[k] is None {
            Err(ProbeFailed)
        } else {
            Ok(CheckModel::Enabled(servers[k]))
        }
    } else if probes.len() < servers.len() {
        Ok(CheckModel::Check(servers[probes.len() as int]))
    } else {
        Ok(CheckModel::Disabled)
    }
}

/// A check's next step or its failure, by its mathematical value
pub open spec fn probe_result(r: Result<TelemetryCheck, ProbeFailed>) -> Result<CheckModel, ProbeFailed> {
    match r {
        Ok(c) => Ok(c@),
        Err(e) => Err(e),
    }
}

/// The next step of a telemetry check over `servers` whose probes can fail,
/// given the results of the probes made so far (`None` for a failed one);
/// see `next_probe_check`
pub fn check_probes(servers: &[&str], probes: &[Option<bool>]) -> (r: Result<TelemetryCheck, ProbeFailed>)
    ensures
        probe_result(r) == next_probe_check(servers@.map_values(|s: &str| s@), probes@),
{
    let ghost sv = servers@.map_values(|s: &str| s@);
    proof {
        lemma_first_decisive(probes@, sv.len());
    }
    let n = if servers.len() < probes.len() { servers.len() } else { probes.len() };
    let mut i: usize = 0;
    while i < n
        invariant
            n <= servers@.len(),
            n <= probes@.len(),
            n == servers@.len() || n == probes@.len(),
            sv == servers@.map_values(|s: &str| s@),
            i <= n,
            forall|j: int| 0 <= j < i ==> #[trigger] probes@[j] == Some(false),
            first_decisive(probes@, sv.len()) < 0 || first_decisive(probes@, sv.len()) >= i,
            first_decisive(probes@, sv.len()) < probes@.len(),
            first_decisive(probes@, sv.len()) < sv.len(),
            first_decisive(probes@, sv.len()) >= 0 ==> probes@[first_decisive(probes@, sv.len())] != Some(false),
            forall|j: int| 0 <= j < probes@.len() && j < sv.len()
                && (first_decisive(probes@, sv.len()) < 0 || j < first_decisive(probes@, sv.len()))
                ==> #[trigger] probes@[j] == Some(false),
        decreases n - i,
    {
        match probes[i] {
            Some(false) => {},
            Some(true) => {
                assert(first_decisive(probes@, sv.len()) == i as int);
                return Ok(TelemetryCheck::Enabled(servers[i].to_owned()));
            },
            None => {
                assert(first_decisive(probes@, sv.len()) == i as int);
                return Err(ProbeFailed);
            },
        }
        i += 1;
    }
    if probes.len() < servers.len() {
        Ok(TelemetryCheck::Check(servers[probes.len()].to_owned()))
    } else {
        Ok(TelemetryCheck::Disabled)
    }
}

/// Once every server was probed, a check whose probes can fail fails
/// exactly when a probe failed before any server answered, and counts
/// telemetry as disabled exactly when every probe reported an unavailable
/// server
pub proof fn lemma_probe_check_outcomes(servers: Seq<Seq<char>>, probes: Seq<Option<bool>>)
    requires
        probes.len() == servers.len(),
    ensures
        (next_probe_check(servers, probes) is Err) <==> exists|k: int| 0 <= k < probes.len() && probes[k] is None
            && forall|j: int| 0 <= j < k ==> #[trigger] probes[j] == Some(false),
        (next_probe_check(servers, probes) == Ok::<CheckModel, ProbeFailed>(CheckModel::Disabled))
            <==> forall|j: int| 0 <= j < probes.len() ==> #[trigger] probes[j] == Some(false),
{
    lemma_first_decisive(probes, servers.len());
    let k = first_decisive(probes, servers.len());
    if exists|k2: int| 0 <= k2 < probes.len() && probes[k2] is None && forall|j: int| 0 <= j < k2 ==> #[trigger] probes[j] == Some(false) {
        let k2 = choose|k2: int| 0 <= k2 < probes.len() && probes[k2] is None && forall|j: int| 0 <= j < k2 ==> #[trigger] probes[j] == Some(false);
        if k < 0 {
            assert(probes[k2] == Some(false));
        } else if k < k2 {
            assert(probes[k] == Some(false));
        } else if k > k2 {
            assert(probes[k2] == Some(false));
        }
    }
    if k >= 0 && probes[k] is None {
        assert(forall|j: int| 0 <= j < k ==> #[trigger] probes[j] == Some(false));
    }
    if k >= 0 {
        assert(probes[k] != Some(false));
    }
}

} // verus!
