use vstd::prelude::*;
use crate::version::{Version, VersionParts, parts_lt};

verus! {

/// Number of leading bytes of a game data file that the version search skips
pub const SCAN_SKIP: usize = 4000;

/// Number of bytes that the version search reads after the skipped ones
pub const SCAN_TAKE: usize = 10000;

/// The bytes of a game data file that the version search reads: the
/// `SCAN_TAKE` bytes that follow the first `SCAN_SKIP` ones (fewer when the
/// file is shorter)
pub open spec fn scan_window(data: Seq<u8>) -> Seq<u8> {
    let start = if data.len() < SCAN_SKIP { data.len() as int } else { SCAN_SKIP as int };
    let end = if data.len() < SCAN_SKIP + SCAN_TAKE {
        data.len() as int
    } else {
        (SCAN_SKIP + SCAN_TAKE) as int
    };
    data.subrange(start, end)
}

/// ASCII digit byte
pub open spec fn is_digit_byte(b: u8) -> bool {
    48 <= b <= 57
}

/// The number that a run of ASCII digits spells, computed in `u8` arithmetic
/// (so modulo 256)
pub open spec fn digits_number(p: Seq<u8>) -> u8
    decreases p.len(),
{
    if p.len() == 0 {
        0
    } else {
        ((digits_number(p.drop_last()) as int * 10 + (p.last() as int - 48)) % 256) as u8
    }
}

/// State of the search for a `major.minor.patch` byte sequence: the digits of
/// each part read so far, the part being read, and whether the bytes since
/// the last reset can still form a version
pub struct ScanState {
    pub parts: Seq<Seq<u8>>,
    pub ptr: nat,
    pub correct: bool,
}

pub open spec fn scan_start() -> ScanState {
    ScanState { parts: seq![Seq::empty(), Seq::empty(), Seq::empty()], ptr: 0, correct: true }
}

/// All three parts hold at least one digit
pub open spec fn parts_filled(s: ScanState) -> bool {
    s.parts[0].len() > 0 && s.parts[1].len() > 0 && s.parts[2].len() > 0
}

/// The version that the parts of a state spell
pub open spec fn state_version(s: ScanState) -> VersionParts {
    (digits_number(s.parts[0]), digits_number(s.parts[1]), digits_number(s.parts[2]))
}

/// What one byte does to the state, shared by both searches: a `.` moves to
/// the next part (a fourth part spoils the sequence) and a digit extends the
/// current part; every other byte spoils the sequence
pub open spec fn common_step(s: ScanState, b: u8) -> ScanState {
    if b == 46 {
        ScanState { ptr: s.ptr + 1, correct: s.correct && s.ptr + 1 <= 2, ..s }
    } else if s.correct && is_digit_byte(b) {
        ScanState { parts: s.parts.update(s.ptr as int, s.parts[s.ptr as int].push(b)), ..s }
    } else {
        ScanState { correct: false, ..s }
    }
}

// ---------------------------------------------------------------------------
// Versions that end with `_` (like `2.5.0_...`), a NUL byte starts over

/// A `_` ends a version when the three parts are filled and nothing spoiled
/// them
pub open spec fn underscore_found(s: ScanState, b: u8) -> bool {
    b == 95 && s.correct && parts_filled(s)
}

pub open spec fn underscore_step(s: ScanState, b: u8) -> ScanState {
    if b == 0 {
        scan_start()
    } else if b == 95 {
        ScanState { correct: false, ..s }
    } else {
        common_step(s, b)
    }
}

/// The first version that the bytes hold, searched from state `s`
pub open spec fn underscore_scan(s: ScanState, bytes: Seq<u8>) -> Option<VersionParts>
    decreases bytes.len(),
{
    if bytes.len() == 0 {
        None
    } else if underscore_found(s, bytes[0]) {
        Some(state_version(s))
    } else {
        underscore_scan(underscore_step(s, bytes[0]), bytes.drop_first())
    }
}

// ---------------------------------------------------------------------------
// Versions that end with a NUL byte

/// A NUL byte ends a version when the third part is being read, all three
/// parts are filled and nothing spoiled them; otherwise it starts over
pub open spec fn nul_found(s: ScanState, b: u8) -> bool {
    b == 0 && s.correct && s.ptr == 2 && parts_filled(s)
}

pub open spec fn nul_step(s: ScanState, b: u8) -> ScanState {
    if b == 0 {
        scan_start()
    } else {
        common_step(s, b)
    }
}

/// The first version that the bytes hold, searched from state `s`
pub open spec fn nul_scan(s: ScanState, bytes: Seq<u8>) -> Option<VersionParts>
    decreases bytes.len(),
{
    if bytes.len() == 0 {
        None
    } else if nul_found(s, bytes[0]) {
        Some(state_version(s))
    } else {
        nul_scan(nul_step(s, bytes[0]), bytes.drop_first())
    }
}

// ---------------------------------------------------------------------------
// Executable search

/// The number that a run of ASCII digits spells, in `u8` arithmetic
pub fn bytes_to_num(bytes: &[u8]) -> (r: u8)
    requires
        forall|i: int| 0 <= i < bytes@.len() ==> is_digit_byte(#[trigger] bytes@[i]),
    ensures
        r == digits_number(bytes@),
{
    let mut acc: u8 = 0;
    let n = bytes.len();
    let mut i: usize = 0;
    while i < n
        invariant
            n == bytes@.len(),
            i <= n,
            forall|k: int| 0 <= k < bytes@.len() ==> is_digit_byte(#[trigger] bytes@[k]),
            acc == digits_number(bytes@.take(i as int)),
        decreases n - i,
    {
        let d: u8 = bytes[i] - 48;
        acc = ((acc as u16 * 10 + d as u16) % 256) as u8;
        assert(bytes@.take(i + 1).drop_last() =~= bytes@.take(i as int));
        i += 1;
    }
    assert(bytes@.take(n as int) =~= bytes@);
    acc
}

/// Executable state of a search
struct Scanner {
    parts: [Vec<u8>; 3],
    ptr: usize,
    correct: bool,
}

impl Scanner {
    spec fn model(&self) -> ScanState {
        ScanState {
            parts: seq![self.parts[0]@, self.parts[1]@, self.parts[2]@],
            ptr: self.ptr as nat,
            correct: self.correct,
        }
    }

    /// Digits only, and a part past the third is never written while the
    /// sequence is still correct
    spec fn wf(&self) -> bool {
        &&& self.correct ==> self.ptr <= 2
        &&& forall|p: int, k: int| 0 <= p < 3 && 0 <= k < self.parts[p]@.len() ==> is_digit_byte(
            #[trigger] self.parts[p]@[k],
        )
    }

    fn start() -> (s: Scanner)
        ensures
            s.model() == scan_start(),
            s.wf(),
            s.ptr == 0,
    {
        let s = Scanner { parts: [Vec::new(), Vec::new(), Vec::new()], ptr: 0, correct: true };
        assert(s.model().parts =~= scan_start().parts);
        s
    }

    fn filled(&self) -> (r: bool)
        ensures
            r == parts_filled(self.model()),
    {
        self.parts[0].len() > 0 && self.parts[1].len() > 0 && self.parts[2].len() > 0
    }

    fn version(&self) -> (v: Version)
        requires
            self.wf(),
        ensures
            v@ == state_version(self.model()),
    {
        let a = bytes_to_num(self.parts[0].as_slice());
        let b = bytes_to_num(self.parts[1].as_slice());
        let c = bytes_to_num(self.parts[2].as_slice());
        Version::new(a, b, c)
    }

    /// Applies `common_step`
    fn common(&mut self, b: u8)
        requires
            old(self).wf(),
            old(self).ptr < usize::MAX,
        ensures
            final(self).model() == common_step(old(self).model(), b),
            final(self).wf(),
            final(self).ptr <= old(self).ptr + 1,
    {
        let ghost m = self.model();
        if b == 46 {
            self.ptr = self.ptr + 1;
            if self.ptr > 2 {
                self.correct = false;
            }
        } else if self.correct && 48 <= b && b <= 57 {
            let p = self.ptr;
            if p == 0 {
                self.parts[0].push(b);
            } else if p == 1 {
                self.parts[1].push(b);
            } else {
                self.parts[2].push(b);
            }
            proof {
                assert forall|q: int, k: int| 0 <= q < 3 && 0 <= k < self.parts[q]@.len()
                    implies is_digit_byte(#[trigger] self.parts[q]@[k]) by {
                    if q == p && k == self.parts[q]@.len() - 1 {
                    } else {
                        assert(self.parts[q]@[k] == old(self).parts[q]@[k]);
                    }
                }
            }
        } else {
            self.correct = false;
        }
        assert(self.model().parts =~= common_step(m, b).parts);
    }
}

/// Searches `bytes` for the first `major.minor.patch` sequence that a `_`
/// ends
pub fn find_underscore_version(bytes: &[u8]) -> (r: Option<Version>)
    ensures
        crate::version::opt_parts(r) == underscore_scan(scan_start(), bytes@),
{
    let mut s = Scanner::start();
    let n = bytes.len();
    let mut i: usize = 0;
    assert(bytes@.skip(0) =~= bytes@);
    while i < n
        invariant
            n == bytes@.len(),
            i <= n,
            s.wf(),
            s.ptr <= i,
            underscore_scan(scan_start(), bytes@) == underscore_scan(s.model(), bytes@.skip(i as int)),
        decreases n - i,
    {
        let b = bytes[i];
        assert(bytes@.skip(i as int)[0] == b);
        assert(bytes@.skip(i as int).drop_first() =~= bytes@.skip(i + 1));
        if b == 0 {
            s = Scanner::start();
        } else if b == 95 {
            if s.correct && s.filled() {
                return Some(s.version());
            }
            s.correct = false;
        } else {
            s.common(b);
        }
        i += 1;
    }
    None
}

/// Searches `bytes` for the first `major.minor.patch` sequence that a NUL
/// byte ends
pub fn find_nul_version(bytes: &[u8]) -> (r: Option<Version>)
    ensures
        crate::version::opt_parts(r) == nul_scan(scan_start(), bytes@),
{
    let mut s = Scanner::start();
    let n = bytes.len();
    let mut i: usize = 0;
    assert(bytes@.skip(0) =~= bytes@);
    while i < n
        invariant
            n == bytes@.len(),
            i <= n,
            s.wf(),
            s.ptr <= i,
            nul_scan(scan_start(), bytes@) == nul_scan(s.model(), bytes@.skip(i as int)),
        decreases n - i,
    {
        let b = bytes[i];
        assert(bytes@.skip(i as int)[0] == b);
        assert(bytes@.skip(i as int).drop_first() =~= bytes@.skip(i + 1));
        if b == 0 {
            if s.correct && s.ptr == 2 && s.filled() {
                return Some(s.version());
            }
            s = Scanner::start();
        } else {
            s.common(b);
        }
        i += 1;
    }
    None
}

/// The bytes of a game data file that the version search reads
pub fn window(data: &[u8]) -> (w: &[u8])
    ensures
        w@ == scan_window(data@),
{
    let n = data.len();
    let start = if n < SCAN_SKIP { n } else { SCAN_SKIP };
    let end = if n < SCAN_SKIP + SCAN_TAKE { n } else { SCAN_SKIP + SCAN_TAKE };
    &data[start..end]
}

// ---------------------------------------------------------------------------
// Stored versions

/// The version bytes were not found and no `.version` file was stored
#[derive(Debug, Clone, Copy, PartialEq, Eq)]
pub struct VersionNotFound;

/// Version stored in a `.version` file: its first three bytes
pub fn parse_version_file(bytes: &[u8]) -> (v: Version)
    requires
        bytes@.len() >= 3,
    ensures
        v@ == (bytes@[0], bytes@[1], bytes@[2]),
{
    Version::new(bytes[0], bytes[1], bytes[2])
}

/// The version to report from a version found in the game files and one
/// stored in a `.version` file: the stored one when it is newer (it comes
/// from the API directly) or when nothing was found
pub open spec fn pick_version(found: Option<VersionParts>, stored: Option<VersionParts>) -> Option<VersionParts> {
    match found {
        Some(f) => match stored {
            Some(s) => if parts_lt(f, s) { Some(s) } else { Some(f) },
            None => Some(f),
        },
        None => stored,
    }
}

pub fn pick(found: Option<Version>, stored: Option<Version>) -> (r: Result<Version, VersionNotFound>)
    ensures
        match pick_version(crate::version::opt_parts(found), crate::version::opt_parts(stored)) {
            Some(v) => r matches Ok(x) && x@ == v,
            None => r is Err,
        },
{
    match found {
        Some(f) => match stored {
            Some(s) => if f.lt(&s) { Ok(s) } else { Ok(f) },
            None => Ok(f),
        },
        None => match stored {
            Some(s) => Ok(s),
            None => Err(VersionNotFound),
        },
    }
}

/// The reported version is the newer of the found and the stored one
pub proof fn lemma_pick_version_is_newest(f: VersionParts, s: VersionParts)
    ensures
        pick_version(Some(f), Some(s)) matches Some(v) && !parts_lt(v, f) && !parts_lt(v, s)
            && (v == f || v == s),
{
}

} // verus!
