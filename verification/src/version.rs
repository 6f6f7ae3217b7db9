use vstd::prelude::*;
use crate::strings::{to_chars, push_char, push_decimal, parse_unsigned, parse_unsigned_range, decimal, lemma_decimal, lemma_parse_decimal, str_eq};

verus! {

/// Splits a character sequence on every `.`, as `str::split('.')` does
pub open spec fn split_dots(s: Seq<char>) -> Seq<Seq<char>>
    decreases s.len(),
{
    if s.len() == 0 {
        seq![Seq::<char>::empty()]
    } else {
        let rest = split_dots(s.drop_last());
        if s.last() == '.' {
            rest.push(Seq::<char>::empty())
        } else {
            rest.update(rest.len() - 1, rest.last().push(s.last()))
        }
    }
}

pub proof fn lemma_split_dots_nonempty(s: Seq<char>)
    ensures
        split_dots(s).len() >= 1,
    decreases s.len(),
{
    if s.len() > 0 {
        lemma_split_dots_nonempty(s.drop_last());
    }
}

/// Without a `.` there is nothing to split
pub proof fn lemma_split_dots_no_dot(s: Seq<char>)
    requires
        !s.contains('.'),
    ensures
        split_dots(s) == seq![s],
    decreases s.len(),
{
    if s.len() > 0 {
        assert(!s.drop_last().contains('.')) by {
            if s.drop_last().contains('.') {
                let i = choose|i: int| 0 <= i < s.drop_last().len() && s.drop_last()[i] == '.';
                assert(s[i] == '.');
            }
        }
        lemma_split_dots_no_dot(s.drop_last());
        assert(s.last() != '.') by {
            assert(s[s.len() - 1] == s.last());
        }
        assert(s.drop_last().push(s.last()) =~= s);
        assert(split_dots(s) =~= seq![s]);
    } else {
        assert(s =~= Seq::<char>::empty());
    }
}

/// A `.` separates the parts on its two sides
pub proof fn lemma_split_dots_concat(x: Seq<char>, y: Seq<char>)
    ensures
        split_dots(x + seq!['.'] + y) == split_dots(x) + split_dots(y),
    decreases y.len(),
{
    let s = x + seq!['.'] + y;
    if y.len() == 0 {
        assert(s.drop_last() =~= x);
        assert(split_dots(y) =~= seq![Seq::<char>::empty()]);
        assert(split_dots(s) =~= split_dots(x) + split_dots(y));
    } else {
        assert(s.drop_last() =~= x + seq!['.'] + y.drop_last());
        lemma_split_dots_concat(x, y.drop_last());
        lemma_split_dots_nonempty(y.drop_last());
        lemma_split_dots_nonempty(x);
        assert(s.last() == y.last());
        assert(split_dots(s) =~= split_dots(x) + split_dots(y));
    }
}

/// The three numbers of a version, in order
pub type VersionParts = (u8, u8, u8);

/// Lexicographic order on version numbers
pub open spec fn parts_lt(a: VersionParts, b: VersionParts) -> bool {
    a.0 < b.0 || (a.0 == b.0 && (a.1 < b.1 || (a.1 == b.1 && a.2 < b.2)))
}

/// Text of a version: the three numbers in decimal, separated by dots
pub open spec fn version_text(p: VersionParts) -> Seq<char> {
    decimal(p.0 as nat) + seq!['.'] + decimal(p.1 as nat) + seq!['.'] + decimal(p.2 as nat)
}

/// Text of a version with its three numbers written together
pub open spec fn version_plain_text(p: VersionParts) -> Seq<char> {
    decimal(p.0 as nat) + decimal(p.1 as nat) + decimal(p.2 as nat)
}

/// Reads a version from text: exactly three dot separated parts, each one
/// read as std's `u8::from_str` reads it
pub open spec fn parse_version(s: Seq<char>) -> Option<VersionParts> {
    let parts = split_dots(s);
    if parts.len() == 3 && parse_unsigned(parts[0], 255) is Some && parse_unsigned(parts[1], 255)
        is Some && parse_unsigned(parts[2], 255) is Some {
        Some(
            (
                parse_unsigned(parts[0], 255)->0 as u8,
                parse_unsigned(parts[1], 255)->0 as u8,
                parse_unsigned(parts[2], 255)->0 as u8,
            ),
        )
    } else {
        None
    }
}

/// The parts of an optional version
pub open spec fn opt_parts(v: Option<Version>) -> Option<VersionParts> {
    match v {
        Some(v) => Some(v@),
        None => None,
    }
}

/// A game or component version made of three numbers, like `1.2.3`
#[derive(Debug, Clone, Copy, PartialEq, Eq, Hash)]
pub struct Version {
    pub version: [u8; 3],
}

impl View for Version {
    type V = VersionParts;

    open spec fn view(&self) -> VersionParts {
        (self.version@[0], self.version@[1], self.version@[2])
    }
}

/// Two versions with the same numbers are the same value
pub proof fn lemma_version_view_eq(a: Version, b: Version)
    requires
        a@ == b@,
    ensures
        a == b,
{
    broadcast use vstd::array::group_array_axioms;
    assert(a.version@.len() == 3);
    assert(b.version@.len() == 3);
    assert(a.version@ =~= b.version@);
    assert(a.version =~= b.version);
}

/// Finds the first `.` at or after `from`
fn find_dot(v: &[char], from: usize) -> (r: Option<usize>)
    requires
        from <= v@.len(),
    ensures
        r matches Some(i) ==> from <= i < v@.len() && v@[i as int] == '.' && forall|j: int|
            from <= j < i ==> v@[j] != '.',
        r is None ==> forall|j: int| from <= j < v@.len() ==> v@[j] != '.',
{
    let mut i = from;
    while i < v.len()
        invariant
            from <= i <= v@.len(),
            forall|j: int| from <= j < i ==> v@[j] != '.',
        decreases v@.len() - i,
    {
        if v[i] == '.' {
            return Some(i);
        }
        i += 1;
    }
    None
}

proof fn lemma_no_dot_range(v: Seq<char>, a: int, b: int)
    requires
        0 <= a <= b <= v.len(),
        forall|j: int| a <= j < b ==> v[j] != '.',
    ensures
        !v.subrange(a, b).contains('.'),
{
    if v.subrange(a, b).contains('.') {
        let i = choose|i: int| 0 <= i < v.subrange(a, b).len() && v.subrange(a, b)[i] == '.';
        assert(v[a + i] == '.');
    }
}

proof fn lemma_two_parts(v: Seq<char>, i1: int)
    requires
        0 <= i1 < v.len(),
        v[i1] == '.',
        forall|j: int| 0 <= j < i1 ==> v[j] != '.',
        forall|j: int| i1 + 1 <= j < v.len() ==> v[j] != '.',
    ensures
        split_dots(v).len() == 2,
{
    let x = v.subrange(0, i1);
    let y = v.subrange(i1 + 1, v.len() as int);
    lemma_no_dot_range(v, 0, i1);
    lemma_no_dot_range(v, i1 + 1, v.len() as int);
    assert(v =~= x + seq!['.'] + y);
    lemma_split_dots_concat(x, y);
    lemma_split_dots_no_dot(x);
    lemma_split_dots_no_dot(y);
}

proof fn lemma_four_or_more_parts(v: Seq<char>, i1: int, i2: int, i3: int)
    requires
        0 <= i1 < i2 < i3 < v.len(),
        v[i1] == '.',
        v[i2] == '.',
        v[i3] == '.',
    ensures
        split_dots(v).len() > 3,
{
    let x = v.subrange(0, i1);
    let y = v.subrange(i1 + 1, i2);
    let p = v.subrange(i2 + 1, i3);
    let q = v.subrange(i3 + 1, v.len() as int);
    assert(v =~= x + seq!['.'] + (y + seq!['.'] + (p + seq!['.'] + q)));
    lemma_split_dots_concat(x, y + seq!['.'] + (p + seq!['.'] + q));
    lemma_split_dots_concat(y, p + seq!['.'] + q);
    lemma_split_dots_concat(p, q);
    lemma_split_dots_nonempty(x);
    lemma_split_dots_nonempty(y);
    lemma_split_dots_nonempty(p);
    lemma_split_dots_nonempty(q);
}

proof fn lemma_three_parts(v: Seq<char>, i1: int, i2: int)
    requires
        0 <= i1 < i2 < v.len(),
        v[i1] == '.',
        v[i2] == '.',
        forall|j: int| 0 <= j < i1 ==> v[j] != '.',
        forall|j: int| i1 + 1 <= j < i2 ==> v[j] != '.',
        forall|j: int| i2 + 1 <= j < v.len() ==> v[j] != '.',
    ensures
        split_dots(v) == seq![v.subrange(0, i1), v.subrange(i1 + 1, i2), v.subrange(i2 + 1, v.len() as int)],
{
    let x = v.subrange(0, i1);
    let y = v.subrange(i1 + 1, i2);
    let z = v.subrange(i2 + 1, v.len() as int);
    lemma_no_dot_range(v, 0, i1);
    lemma_no_dot_range(v, i1 + 1, i2);
    lemma_no_dot_range(v, i2 + 1, v.len() as int);
    assert(v =~= x + seq!['.'] + (y + seq!['.'] + z));
    lemma_split_dots_concat(x, y + seq!['.'] + z);
    lemma_split_dots_concat(y, z);
    lemma_split_dots_no_dot(x);
    lemma_split_dots_no_dot(y);
    lemma_split_dots_no_dot(z);
    assert(split_dots(v) =~= seq![x, y, z]);
}

impl Version {
    #[inline]
    pub fn new(major: u8, minor: u8, patch: u8) -> (v: Version)
        ensures
            v@ == (major, minor, patch),
    {
        Version { version: [major, minor, patch] }
    }

    /// Parses `x.y.z` into a version
    pub fn from_str(s: &str) -> (r: Option<Version>)
        ensures
            opt_parts(r) == parse_version(s@),
    {
        let v = to_chars(s);
        let n = v.len();
        let i1 = match find_dot(v.as_slice(), 0) {
            Some(i) => i,
            None => {
                proof {
                    lemma_no_dot_range(v@, 0, n as int);
                    assert(v@.subrange(0, n as int) =~= v@);
                    lemma_split_dots_no_dot(v@);
                }
                return None;
            },
        };
        let i2 = match find_dot(v.as_slice(), i1 + 1) {
            Some(i) => i,
            None => {
                proof {
                    lemma_two_parts(v@, i1 as int);
                }
                return None;
            },
        };
        if let Some(i3) = find_dot(v.as_slice(), i2 + 1) {
            proof {
                lemma_four_or_more_parts(v@, i1 as int, i2 as int, i3 as int);
            }
            return None;
        }
        proof {
            lemma_three_parts(v@, i1 as int, i2 as int);
        }
        let a = parse_unsigned_range(v.as_slice(), 0, i1, 255);
        let b = parse_unsigned_range(v.as_slice(), i1 + 1, i2, 255);
        let c = parse_unsigned_range(v.as_slice(), i2 + 1, n, 255);
        match (a, b, c) {
            (Some(a), Some(b), Some(c)) => Some(Version::new(a as u8, b as u8, c as u8)),
            _ => None,
        }
    }

    /// Dot separated text of this version, like `1.2.3`
    pub fn to_string(&self) -> (s: String)
        ensures
            s@ == version_text(self@),
    {
        let mut s = String::new();
        push_decimal(&mut s, self.version[0] as u64);
        push_char(&mut s, '.');
        push_decimal(&mut s, self.version[1] as u64);
        push_char(&mut s, '.');
        push_decimal(&mut s, self.version[2] as u64);
        assert(s@ =~= version_text(self@));
        s
    }

    /// Text of this version without dots, like `123`
    pub fn to_plain_string(&self) -> (s: String)
        ensures
            s@ == version_plain_text(self@),
    {
        let mut s = String::new();
        push_decimal(&mut s, self.version[0] as u64);
        push_decimal(&mut s, self.version[1] as u64);
        push_decimal(&mut s, self.version[2] as u64);
        assert(s@ =~= version_plain_text(self@));
        s
    }

    /// Whether `self` comes before `other` (lexicographic order of the numbers)
    pub fn lt(&self, other: &Version) -> (r: bool)
        ensures
            r == parts_lt(self@, other@),
    {
        self.version[0] < other.version[0] || (self.version[0] == other.version[0] && (
        self.version[1] < other.version[1] || (self.version[1] == other.version[1]
            && self.version[2] < other.version[2])))
    }

    /// Whether both versions hold the same numbers
    pub fn same(&self, other: &Version) -> (r: bool)
        ensures
            r == (self@ == other@),
            r == (*self == *other),
    {
        let r = self.version[0] == other.version[0] && self.version[1] == other.version[1]
            && self.version[2] == other.version[2];
        proof {
            if r {
                lemma_version_view_eq(*self, *other);
            }
        }
        r
    }

    /// Whether this version's text equals `s`
    pub fn eq_str(&self, s: &str) -> (r: bool)
        ensures
            r == (version_text(self@) == s@),
    {
        let t = self.to_string();
        str_eq(t.as_str(), s)
    }

    /// Whether this version is at least the version that `s` names; `false`
    /// when `s` is no version
    pub fn ge_str(&self, s: &str) -> (r: bool)
        ensures
            r == (parse_version(s@) matches Some(p) && !parts_lt(self@, p)),
    {
        match Version::from_str(s) {
            Some(other) => !self.lt(&other),
            None => false,
        }
    }
}

/// Reading the text of a version gives the version back
pub proof fn lemma_version_text_roundtrip(p: VersionParts)
    ensures
        parse_version(version_text(p)) == Some(p),
{
    let a = decimal(p.0 as nat);
    let b = decimal(p.1 as nat);
    let c = decimal(p.2 as nat);
    lemma_decimal(p.0 as nat);
    lemma_decimal(p.1 as nat);
    lemma_decimal(p.2 as nat);
    assert(version_text(p) =~= a + seq!['.'] + (b + seq!['.'] + c));
    lemma_split_dots_concat(a, b + seq!['.'] + c);
    lemma_split_dots_concat(b, c);
    lemma_split_dots_no_dot(a);
    lemma_split_dots_no_dot(b);
    lemma_split_dots_no_dot(c);
    assert(split_dots(version_text(p)) =~= seq![a, b, c]);
    lemma_parse_decimal(p.0 as nat, 255);
    lemma_parse_decimal(p.1 as nat, 255);
    lemma_parse_decimal(p.2 as nat, 255);
}

} // verus!
