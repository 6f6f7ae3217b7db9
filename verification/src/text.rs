use vstd::prelude::*;
use crate::strings::{to_chars, chars_occur_at, occurs_at};

verus! {

// ---------------------------------------------------------------------------
// UTF-8 lengths

/// Number of bytes of the UTF-8 encoding of a character
pub open spec fn utf8_width(c: char) -> nat {
    let v = c as u32;
    if v < 0x80 {
        1
    } else if v < 0x800 {
        2
    } else if v < 0x10000 {
        3
    } else {
        4
    }
}

/// Number of bytes of the UTF-8 encoding of some text (what `str::len`
/// gives)
pub open spec fn byte_len(s: Seq<char>) -> nat
    decreases s.len(),
{
    if s.len() == 0 {
        0
    } else {
        byte_len(s.drop_last()) + utf8_width(s.last())
    }
}

/// Whether byte offset `b` of the text's encoding starts a character (or
/// ends the text)
pub open spec fn is_byte_boundary(s: Seq<char>, b: int) -> bool {
    exists|k: int| 0 <= k <= s.len() && byte_len(#[trigger] s.take(k)) == b
}

/// The index of the character that starts at byte offset `b`
pub open spec fn char_at_byte(s: Seq<char>, b: int) -> int {
    choose|k: int| 0 <= k <= s.len() && byte_len(#[trigger] s.take(k)) == b
}

/// Byte length grows strictly with the number of characters
pub proof fn lemma_byte_len_strict(s: Seq<char>, i: int, j: int)
    requires
        0 <= i < j <= s.len(),
    ensures
        byte_len(s.take(i)) < byte_len(s.take(j)),
    decreases j - i,
{
    assert(s.take(j).drop_last() =~= s.take(j - 1));
    if i < j - 1 {
        lemma_byte_len_strict(s, i, j - 1);
    }
}

/// Byte length adds up over concatenation
pub proof fn lemma_byte_len_concat(a: Seq<char>, b: Seq<char>)
    ensures
        byte_len(a + b) == byte_len(a) + byte_len(b),
    decreases b.len(),
{
    if b.len() == 0 {
        assert(a + b =~= a);
    } else {
        lemma_byte_len_concat(a, b.drop_last());
        assert((a + b).drop_last() =~= a + b.drop_last());
    }
}

/// The character at a byte boundary is the only one there
pub proof fn lemma_char_at_byte(s: Seq<char>, b: int, k: int)
    requires
        0 <= k <= s.len(),
        byte_len(s.take(k)) == b,
    ensures
        is_byte_boundary(s, b),
        char_at_byte(s, b) == k,
{
    assert(is_byte_boundary(s, b));
    let c = char_at_byte(s, b);
    if c < k {
        lemma_byte_len_strict(s, c, k);
    } else if k < c {
        lemma_byte_len_strict(s, k, c);
    }
}

/// An ASCII prefix has as many bytes as characters
pub proof fn lemma_ascii_prefix(s: Seq<char>, k: int)
    requires
        0 <= k <= s.len(),
        forall|i: int| 0 <= i < k ==> (#[trigger] s[i] as u32) < 0x80,
    ensures
        byte_len(s.take(k)) == k,
    decreases k,
{
    if k > 0 {
        assert(s.take(k).drop_last() =~= s.take(k - 1));
        lemma_ascii_prefix(s, k - 1);
    }
}

/// Number of bytes of the UTF-8 encoding of `c`
pub fn char_width(c: char) -> (r: usize)
    ensures
        r == utf8_width(c),
        1 <= r <= 4,
{
    let v = c as u32;
    if v < 0x80 {
        1
    } else if v < 0x800 {
        2
    } else if v < 0x10000 {
        3
    } else {
        4
    }
}

/// Number of bytes of the UTF-8 encoding of `s`
pub fn chars_byte_len(s: &[char]) -> (r: usize)
    requires
        byte_len(s@) <= usize::MAX,
    ensures
        r == byte_len(s@),
{
    let n = s.len();
    let mut acc: usize = 0;
    let mut i: usize = 0;
    while i < n
        invariant
            n == s@.len(),
            i <= n,
            byte_len(s@) <= usize::MAX,
            acc == byte_len(s@.take(i as int)),
        decreases n - i,
    {
        proof {
            assert(s@.take(i + 1).drop_last() =~= s@.take(i as int));
            if i + 1 < n {
                lemma_byte_len_strict(s@, i + 1, n as int);
            }
            assert(s@.take(n as int) =~= s@);
        }
        acc = acc + char_width(s[i]);
        i += 1;
    }
    assert(s@.take(n as int) =~= s@);
    acc
}

/// Number of bytes of the UTF-8 encoding of `s`, where it fits in `usize`
pub fn checked_byte_len(s: &[char]) -> (r: Option<usize>)
    ensures
        match r {
            Some(n) => n == byte_len(s@),
            None => byte_len(s@) > usize::MAX,
        },
{
    let n = s.len();
    let mut acc: usize = 0;
    let mut i: usize = 0;
    while i < n
        invariant
            n == s@.len(),
            i <= n,
            acc == byte_len(s@.take(i as int)),
        decreases n - i,
    {
        proof {
            assert(s@.take(i + 1).drop_last() =~= s@.take(i as int));
        }
        let w = char_width(s[i]);
        if w > usize::MAX - acc {
            proof {
                assert(s@.take(n as int) =~= s@);
                if i + 1 < n {
                    lemma_byte_len_strict(s@, i + 1, n as int);
                }
            }
            return None;
        }
        acc = acc + w;
        i += 1;
    }
    assert(s@.take(n as int) =~= s@);
    Some(acc)
}

/// Index of the character that starts at byte offset `b` of `s`, if one
/// does
pub fn char_index_at_byte(s: &[char], b: usize) -> (r: Option<usize>)
    ensures
        match r {
            Some(k) => k <= s@.len() && byte_len(s@.take(k as int)) == b && is_byte_boundary(s@, b as int)
                && char_at_byte(s@, b as int) == k,
            None => !is_byte_boundary(s@, b as int),
        },
{
    let n = s.len();
    let mut acc: usize = 0;
    let mut i: usize = 0;
    while i < n
        invariant
            n == s@.len(),
            i <= n,
            acc == byte_len(s@.take(i as int)),
            acc <= b,
            forall|k: int| 0 <= k < i ==> byte_len(#[trigger] s@.take(k)) < b,
        decreases n - i,
    {
        if acc == b {
            proof {
                lemma_char_at_byte(s@, b as int, i as int);
            }
            return Some(i);
        }
        let w = char_width(s[i]);
        proof {
            assert(s@.take(i + 1).drop_last() =~= s@.take(i as int));
        }
        if w > b - acc {
            proof {
                assert forall|k: int| 0 <= k <= n implies byte_len(#[trigger] s@.take(k)) != b by {
                    if k > i + 1 {
                        lemma_byte_len_strict(s@, i + 1, k);
                    }
                }
            }
            return None;
        }
        acc = acc + w;
        i += 1;
    }
    if acc == b {
        proof {
            lemma_char_at_byte(s@, b as int, n as int);
        }
        return Some(n);
    }
    proof {
        assert forall|k: int| 0 <= k <= n implies byte_len(#[trigger] s@.take(k)) != b by {}
    }
    None
}

// ---------------------------------------------------------------------------
// Lines

/// A line without the carriage return of a `\r\n` ending
pub open spec fn strip_cr(line: Seq<char>) -> Seq<char> {
    if line.len() > 0 && line.last() == '\r' {
        line.drop_last()
    } else {
        line
    }
}

/// Scans text from the left: the lines already ended by `\n` and the line
/// being read
pub open spec fn scan_lines(s: Seq<char>) -> (Seq<Seq<char>>, Seq<char>)
    decreases s.len(),
{
    if s.len() == 0 {
        (seq![], seq![])
    } else {
        let (done, cur) = scan_lines(s.drop_last());
        if s.last() == '\n' {
            (done.push(strip_cr(cur)), seq![])
        } else {
            (done, cur.push(s.last()))
        }
    }
}

/// The lines of some text as `str::lines` gives them: split at `\n`, with
/// the `\r` of a `\r\n` ending removed, and no empty line after a final
/// `\n`
pub open spec fn text_lines(s: Seq<char>) -> Seq<Seq<char>> {
    let (done, cur) = scan_lines(s);
    if cur.len() > 0 {
        done.push(cur)
    } else {
        done
    }
}

fn strip_cr_vec(line: Vec<char>) -> (r: Vec<char>)
    ensures
        r@ == strip_cr(line@),
{
    let mut line = line;
    if line.len() > 0 && line[line.len() - 1] == '\r' {
        line.pop();
    }
    line
}

/// The lines of `s` (see `text_lines`)
pub fn split_lines(s: &[char]) -> (r: Vec<Vec<char>>)
    ensures
        r@.map_values(|v: Vec<char>| v@) == text_lines(s@),
{
    let n = s.len();
    let mut done: Vec<Vec<char>> = Vec::new();
    let mut cur: Vec<char> = Vec::new();
    let mut i: usize = 0;
    while i < n
        invariant
            n == s@.len(),
            i <= n,
            done@.map_values(|v: Vec<char>| v@) == scan_lines(s@.take(i as int)).0,
            cur@ == scan_lines(s@.take(i as int)).1,
        decreases n - i,
    {
        let c = s[i];
        proof {
            assert(s@.take(i + 1).drop_last() =~= s@.take(i as int));
        }
        if c == '\n' {
            let line = strip_cr_vec(cur);
            let ghost lv = line@;
            done.push(line);
            assert(done@.map_values(|v: Vec<char>| v@) =~= scan_lines(s@.take(i as int)).0.push(lv));
            cur = Vec::new();
            assert(cur@ =~= seq![]);
        } else {
            cur.push(c);
        }
        i += 1;
    }
    assert(s@.take(n as int) =~= s@);
    if cur.len() > 0 {
        let ghost cv = cur@;
        done.push(cur);
        assert(done@.map_values(|v: Vec<char>| v@) =~= scan_lines(s@).0.push(cv));
    }
    done
}

// ---------------------------------------------------------------------------
// Replacing

/// `s` with every occurrence of `from` replaced by `to`, scanning from the
/// left without overlaps, as `str::replace` does (`from` is not empty)
pub open spec fn replace_all(s: Seq<char>, from: Seq<char>, to: Seq<char>) -> Seq<char>
    decreases s.len(),
{
    if from.len() == 0 || s.len() < from.len() {
        s
    } else if s.take(from.len() as int) == from {
        to + replace_all(s.skip(from.len() as int), from, to)
    } else {
        seq![s[0]] + replace_all(s.skip(1), from, to)
    }
}

/// Replacing leaves alone a prefix of `s` at whose positions `from` does not
/// occur
pub proof fn lemma_replace_skips(s: Seq<char>, from: Seq<char>, to: Seq<char>, k: int)
    requires
        from.len() > 0,
        0 <= k <= s.len(),
        forall|i: int| 0 <= i < k ==> !occurs_at(s, from, i),
    ensures
        replace_all(s, from, to) == s.take(k) + replace_all(s.skip(k), from, to),
    decreases k,
{
    if k > 0 {
        if s.len() < from.len() {
            assert(s.skip(k).len() < from.len());
            assert(s.take(k) + s.skip(k) =~= s);
        } else {
            assert(!occurs_at(s, from, 0));
            assert(s.subrange(0, from.len() as int) =~= s.take(from.len() as int));
            let t = s.skip(1);
            assert forall|i: int| 0 <= i < k - 1 implies !occurs_at(t, from, i) by {
                assert(!occurs_at(s, from, i + 1));
                if i + from.len() <= t.len() {
                    assert(t.subrange(i, i + from.len()) =~= s.subrange(i + 1, i + 1 + from.len()));
                }
            }
            lemma_replace_skips(t, from, to, k - 1);
            assert(t.skip(k - 1) =~= s.skip(k));
            assert(seq![s[0]] + t.take(k - 1) =~= s.take(k));
            assert(s.take(from.len() as int) != from);
            assert(replace_all(s, from, to) == seq![s[0]] + replace_all(t, from, to));
            assert(seq![s[0]] + (t.take(k - 1) + replace_all(t.skip(k - 1), from, to))
                =~= s.take(k) + replace_all(s.skip(k), from, to));
        }
    } else {
        assert(s.skip(0) =~= s);
        assert(s.take(0) + s =~= s);
    }
}

/// Replacing the only occurrence of `from` in `p + from + q`, where it does
/// not occur at a position of `p` nor in `q`, gives `p + to + q`
pub proof fn lemma_replace_once(p: Seq<char>, q: Seq<char>, from: Seq<char>, to: Seq<char>)
    requires
        from.len() > 0,
        forall|i: int| 0 <= i < p.len() ==> !occurs_at(p + from + q, from, i),
        forall|i: int| 0 <= i < q.len() ==> !occurs_at(q, from, i),
    ensures
        replace_all(p + from + q, from, to) == p + to + q,
{
    let s = p + from + q;
    lemma_replace_skips(s, from, to, p.len() as int);
    assert(s.take(p.len() as int) =~= p);
    let r = s.skip(p.len() as int);
    assert(r =~= from + q);
    assert(r.take(from.len() as int) =~= from);
    assert(r.skip(from.len() as int) =~= q);
    lemma_replace_skips(q, from, to, q.len() as int);
    assert(q.take(q.len() as int) =~= q);
    assert(q.skip(q.len() as int) =~= Seq::<char>::empty());
    assert(to + (q + Seq::<char>::empty()) =~= to + q);
    assert(p + (to + q) =~= p + to + q);
}

/// Replaces every occurrence of `from` in `s` by `to`, from the left
pub fn replace_chars(s: &[char], from: &str, to: &str) -> (r: Vec<char>)
    requires
        from@.len() > 0,
    ensures
        r@ == replace_all(s@, from@, to@),
{
    let f = to_chars(from);
    let t = to_chars(to);
    let n = s.len();
    let m = f.len();
    let mut out: Vec<char> = Vec::new();
    let mut i: usize = 0;
    assert(s@.skip(0) =~= s@);
    while i < n
        invariant
            n == s@.len(),
            m == f@.len(),
            m > 0,
            f@ == from@,
            t@ == to@,
            i <= n,
            out@ + replace_all(s@.skip(i as int), from@, to@) == replace_all(s@, from@, to@),
        decreases n - i,
    {
        let ghost rest = s@.skip(i as int);
        if m <= n - i && chars_occur_at(s, f.as_slice(), i) {
            proof {
                assert(rest.take(m as int) =~= s@.subrange(i as int, i + m));
                assert(rest.skip(m as int) =~= s@.skip(i + m));
            }
            let ghost before = out@;
            let mut k: usize = 0;
            while k < t.len()
                invariant
                    k <= t@.len(),
                    out@ == before + t@.take(k as int),
                decreases t@.len() - k,
            {
                out.push(t[k]);
                assert(out@ =~= before + t@.take(k + 1));
                k += 1;
            }
            assert(t@.take(t@.len() as int) =~= t@);
            assert(out@ + replace_all(s@.skip(i + m), from@, to@) =~= before + replace_all(rest, from@, to@));
            i += m;
        } else {
            proof {
                if m <= n - i {
                    assert(rest.take(m as int) != from@) by {
                        if rest.take(m as int) == from@ {
                            assert(s@.subrange(i as int, i + m) =~= rest.take(m as int));
                        }
                    }
                }
                assert(rest.skip(1) =~= s@.skip(i + 1));
            }
            let ghost before = out@;
            out.push(s[i]);
            if m <= n - i {
                assert(out@ + replace_all(s@.skip(i + 1), from@, to@) =~= before + replace_all(rest, from@, to@));
            } else {
                assert(rest.len() < m);
                assert(replace_all(rest, from@, to@) == rest);
                assert(replace_all(s@.skip(i + 1), from@, to@) == s@.skip(i + 1));
                assert(out@ + replace_all(s@.skip(i + 1), from@, to@) =~= before + replace_all(rest, from@, to@));
            }
            i += 1;
        }
    }
    assert(s@.skip(n as int) =~= seq![]);
    assert(out@ + replace_all(s@.skip(n as int), from@, to@) =~= out@);
    out
}

// ---------------------------------------------------------------------------
// Ordering

/// Lexicographic order of texts by code point (the order of their UTF-8
/// bytes too)
pub open spec fn chars_lt(a: Seq<char>, b: Seq<char>) -> bool
    decreases a.len(),
{
    if a.len() == 0 {
        b.len() > 0
    } else if b.len() == 0 {
        false
    } else if a[0] != b[0] {
        (a[0] as u32) < (b[0] as u32)
    } else {
        chars_lt(a.drop_first(), b.drop_first())
    }
}

/// Two texts are equal or one is before the other, and not both
pub proof fn lemma_chars_lt_total(a: Seq<char>, b: Seq<char>)
    ensures
        a == b || chars_lt(a, b) || chars_lt(b, a),
        !(chars_lt(a, b) && chars_lt(b, a)),
        !chars_lt(a, a),
    decreases a.len(),
{
    if a.len() > 0 {
        lemma_chars_lt_total(a.drop_first(), a.drop_first());
    }
    if a.len() > 0 && b.len() > 0 {
        lemma_chars_lt_total(a.drop_first(), b.drop_first());
        if a[0] == b[0] && a.drop_first() == b.drop_first() {
            assert(a =~= seq![a[0]] + a.drop_first());
            assert(b =~= seq![b[0]] + b.drop_first());
        }
        if a[0] != b[0] {
            vstd::utf8::char_u32_cast(a[0], a[0] as u32);
            vstd::utf8::char_u32_cast(b[0], b[0] as u32);
        }
    } else if a.len() == 0 && b.len() == 0 {
        assert(a =~= b);
    }
}

/// The order is transitive
pub proof fn lemma_chars_lt_trans(a: Seq<char>, b: Seq<char>, c: Seq<char>)
    requires
        chars_lt(a, b),
        chars_lt(b, c),
    ensures
        chars_lt(a, c),
    decreases a.len(),
{
    if a.len() > 0 && b.len() > 0 && c.len() > 0 {
        if a[0] == b[0] && b[0] == c[0] {
            lemma_chars_lt_trans(a.drop_first(), b.drop_first(), c.drop_first());
        }
        if a[0] != c[0] {
            vstd::utf8::char_u32_cast(a[0], a[0] as u32);
            vstd::utf8::char_u32_cast(c[0], c[0] as u32);
        }
    }
}

/// Whether `a` comes before `b`, comparing code points from the left
pub fn chars_less(a: &[char], b: &[char]) -> (r: bool)
    ensures
        r == chars_lt(a@, b@),
{
    let n = a.len();
    let m = b.len();
    let mut i: usize = 0;
    assert(a@.skip(0) =~= a@);
    assert(b@.skip(0) =~= b@);
    assert(a@.take(0) =~= b@.take(0));
    while i < n && i < m
        invariant
            n == a@.len(),
            m == b@.len(),
            i <= n,
            i <= m,
            a@.take(i as int) == b@.take(i as int),
            chars_lt(a@, b@) == chars_lt(a@.skip(i as int), b@.skip(i as int)),
        decreases n - i,
    {
        if a[i] != b[i] {
            assert(a@.skip(i as int)[0] == a@[i as int]);
            assert(b@.skip(i as int)[0] == b@[i as int]);
            return (a[i] as u32) < (b[i] as u32);
        }
        proof {
            assert(a@.skip(i as int).drop_first() =~= a@.skip(i + 1));
            assert(b@.skip(i as int).drop_first() =~= b@.skip(i + 1));
            assert(a@.take(i + 1) =~= a@.take(i as int).push(a@[i as int]));
            assert(b@.take(i + 1) =~= b@.take(i as int).push(b@[i as int]));
        }
        i += 1;
    }
    i == n && i < m
}

/// Index of the first greatest text of a list, `None` for an empty list
pub fn first_greatest(names: &[String]) -> (r: Option<usize>)
    ensures
        match r {
            Some(i) => {
                &&& i < names@.len()
                &&& forall|j: int| 0 <= j < names@.len() ==> !chars_lt(names@[i as int]@, #[trigger] names@[j]@)
                &&& forall|j: int| 0 <= j < i ==> chars_lt(#[trigger] names@[j]@, names@[i as int]@)
            },
            None => names@.len() == 0,
        },
{
    let n = names.len();
    if n == 0 {
        return None;
    }
    let mut best: usize = 0;
    let mut i: usize = 1;
    proof {
        lemma_chars_lt_total(names@[0]@, names@[0]@);
    }
    while i < n
        invariant
            n == names@.len(),
            1 <= i <= n,
            best < i,
            forall|j: int| 0 <= j < i ==> !chars_lt(names@[best as int]@, #[trigger] names@[j]@),
            forall|j: int| 0 <= j < best ==> chars_lt(#[trigger] names@[j]@, names@[best as int]@),
        decreases n - i,
    {
        let a = to_chars(names[best].as_str());
        let b = to_chars(names[i].as_str());
        if chars_less(a.as_slice(), b.as_slice()) {
            proof {
                let nb = names@[best as int]@;
                let ni = names@[i as int]@;
                assert forall|j: int| 0 <= j < i implies chars_lt(#[trigger] names@[j]@, ni) by {
                    let nj = names@[j]@;
                    lemma_chars_lt_total(nj, nb);
                    if j < best {
                        lemma_chars_lt_trans(nj, nb, ni);
                    } else if nj != nb {
                        lemma_chars_lt_trans(nj, nb, ni);
                    }
                }
                assert forall|j: int| 0 <= j < i + 1 implies !chars_lt(ni, #[trigger] names@[j]@) by {
                    let nj = names@[j]@;
                    lemma_chars_lt_total(ni, nj);
                    lemma_chars_lt_total(ni, ni);
                }
            }
            best = i;
        } else {
            proof {
                assert(!chars_lt(names@[best as int]@, names@[i as int]@));
            }
        }
        i += 1;
    }
    Some(best)
}

} // verus!
