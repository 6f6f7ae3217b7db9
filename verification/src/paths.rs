use vstd::prelude::*;
use crate::strings::{to_chars, from_chars, push_char, push_chars};

verus! {

/// Unix path joining as std's `Path::join` does it: an absolute segment
/// replaces the base, otherwise a separator is put between the two unless
/// the base is empty or already ends with one
pub open spec fn path_join(base: Seq<char>, seg: Seq<char>) -> Seq<char> {
    if seg.len() > 0 && seg[0] == '/' {
        seg
    } else if base.len() == 0 || base.last() == '/' {
        base + seg
    } else {
        base + seq!['/'] + seg
    }
}

/// Joins `seg` onto the path `base`
pub fn join(base: &str, seg: &str) -> (r: String)
    ensures
        r@ == path_join(base@, seg@),
{
    let b = to_chars(base);
    let s = to_chars(seg);
    if s.len() > 0 && s[0] == '/' {
        return from_chars(s.as_slice());
    }
    let mut r = from_chars(b.as_slice());
    if b.len() > 0 && b[b.len() - 1] != '/' {
        push_char(&mut r, '/');
    }
    push_chars(&mut r, s.as_slice());
    r
}


/// A path segment that names something: neither empty nor `.`
pub open spec fn is_named(seg: Seq<char>) -> bool {
    seg.len() > 0 && seg != seq!['.']
}

/// Scans a path from the left: the named segments already closed by a
/// separator, and the segment being read
pub open spec fn scan_segments(p: Seq<char>) -> (Seq<Seq<char>>, Seq<char>)
    decreases p.len(),
{
    if p.len() == 0 {
        (seq![], seq![])
    } else {
        let (done, cur) = scan_segments(p.drop_last());
        if p.last() == '/' {
            (if is_named(cur) { done.push(cur) } else { done }, seq![])
        } else {
            (done, cur.push(p.last()))
        }
    }
}

/// The components of a Unix path: its `/`-separated segments without the
/// empty ones (repeated or trailing separators) and without `.`
pub open spec fn components(p: Seq<char>) -> Seq<Seq<char>> {
    let (done, cur) = scan_segments(p);
    if is_named(cur) {
        done.push(cur)
    } else {
        done
    }
}

/// Components put back together, separated by `/`
pub open spec fn joined(c: Seq<Seq<char>>) -> Seq<char>
    decreases c.len(),
{
    if c.len() == 0 {
        seq![]
    } else if c.len() == 1 {
        c[0]
    } else {
        joined(c.drop_last()) + seq!['/'] + c.last()
    }
}

/// Whether a path starts at the root
pub open spec fn is_absolute(p: Seq<char>) -> bool {
    p.len() > 0 && p[0] == '/'
}

/// A path built from components, under the root when `absolute`
pub open spec fn rebuilt(absolute: bool, c: Seq<Seq<char>>) -> Seq<char> {
    if absolute {
        seq!['/'] + joined(c)
    } else {
        joined(c)
    }
}

/// The final component of a path, unless there is none or it is `..`
pub open spec fn path_file_name(p: Seq<char>) -> Option<Seq<char>> {
    let c = components(p);
    if c.len() > 0 && c.last() != seq!['.', '.'] {
        Some(c.last())
    } else {
        None
    }
}

/// The path without its final component, in normal form; `None` when it has
/// no component (the root or the empty path)
pub open spec fn path_parent(p: Seq<char>) -> Option<Seq<char>> {
    let c = components(p);
    if c.len() > 0 {
        Some(rebuilt(is_absolute(p), c.drop_last()))
    } else {
        None
    }
}

/// The path going up `n` times with `path_parent`, while there is a parent
pub open spec fn path_ancestor(p: Seq<char>, n: nat) -> Option<Seq<char>>
    decreases n,
{
    if n == 0 {
        Some(p)
    } else {
        match path_ancestor(p, (n - 1) as nat) {
            Some(q) => path_parent(q),
            None => None,
        }
    }
}

fn is_named_segment(seg: &Vec<char>) -> (r: bool)
    ensures
        r == is_named(seg@),
{
    if seg.len() == 0 {
        false
    } else if seg.len() == 1 && seg[0] == '.' {
        assert(seg@ =~= seq!['.']);
        false
    } else {
        assert(seg.len() == 1 ==> seg@[0] != '.');
        true
    }
}

/// The components of the path `p`
pub fn path_components(p: &str) -> (r: Vec<Vec<char>>)
    ensures
        r@.map_values(|v: Vec<char>| v@) == components(p@),
{
    let chars = to_chars(p);
    let n = chars.len();
    let mut done: Vec<Vec<char>> = Vec::new();
    let mut cur: Vec<char> = Vec::new();
    let mut i: usize = 0;
    while i < n
        invariant
            n == chars@.len(),
            chars@ == p@,
            i <= n,
            done@.map_values(|v: Vec<char>| v@) == scan_segments(p@.take(i as int)).0,
            cur@ == scan_segments(p@.take(i as int)).1,
        decreases n - i,
    {
        let c = chars[i];
        proof {
            assert(p@.take(i + 1).drop_last() =~= p@.take(i as int));
            assert(p@.take(i + 1).last() == c);
        }
        if c == '/' {
            if is_named_segment(&cur) {
                let closed = cur;
                done.push(closed);
                assert(done@.map_values(|v: Vec<char>| v@) =~= scan_segments(p@.take(i as int)).0.push(closed@));
            }
            cur = Vec::new();
            assert(cur@ =~= seq![]);
        } else {
            cur.push(c);
        }
        i += 1;
    }
    assert(p@.take(n as int) =~= p@);
    if is_named_segment(&cur) {
        let last = cur;
        done.push(last);
        assert(done@.map_values(|v: Vec<char>| v@) =~= scan_segments(p@).0.push(last@));
    }
    done
}

fn push_joined(dst: &mut String, c: &Vec<Vec<char>>, k: usize)
    requires
        k <= c@.len(),
    ensures
        final(dst)@ == old(dst)@ + joined(c@.map_values(|v: Vec<char>| v@).take(k as int)),
{
    let ghost start = dst@;
    let mut i: usize = 0;
    while i < k
        invariant
            k <= c@.len(),
            i <= k,
            dst@ == start + joined(c@.map_values(|v: Vec<char>| v@).take(i as int)),
        decreases k - i,
    {
        let ghost m = c@.map_values(|v: Vec<char>| v@);
        proof {
            assert(m.take(i + 1).drop_last() =~= m.take(i as int));
            assert(m.take(i + 1).last() == c@[i as int]@);
            if i == 0 {
                assert(m.take(1) =~= seq![c@[0]@]);
            }
        }
        if i > 0 {
            push_char(dst, '/');
        }
        push_chars(dst, c[i].as_slice());
        assert(dst@ =~= start + joined(m.take(i + 1)));
        i += 1;
    }
}

/// The final component of `p` (std's `Path::file_name` on Unix)
pub fn file_name(p: &str) -> (r: Option<String>)
    ensures
        match r {
            Some(s) => path_file_name(p@) == Some(s@),
            None => path_file_name(p@) is None,
        },
{
    let c = path_components(p);
    let n = c.len();
    if n == 0 {
        return None;
    }
    let last = &c[n - 1];
    assert(c@.map_values(|v: Vec<char>| v@).last() == last@);
    if last.len() == 2 && last[0] == '.' && last[1] == '.' {
        assert(last@ =~= seq!['.', '.']);
        None
    } else {
        assert(last@ != seq!['.', '.']);
        Some(from_chars(last.as_slice()))
    }
}

/// The path `p` without its final component, in normal form
pub fn parent(p: &str) -> (r: Option<String>)
    ensures
        match r {
            Some(s) => path_parent(p@) == Some(s@),
            None => path_parent(p@) is None,
        },
{
    let chars = to_chars(p);
    let c = path_components(p);
    let n = c.len();
    if n == 0 {
        return None;
    }
    let mut r = String::new();
    if chars.len() > 0 && chars[0] == '/' {
        push_char(&mut r, '/');
    }
    push_joined(&mut r, &c, n - 1);
    proof {
        let m = c@.map_values(|v: Vec<char>| v@);
        assert(m.take(n - 1) =~= m.drop_last());
        assert(r@ =~= rebuilt(is_absolute(p@), components(p@).drop_last()));
    }
    Some(r)
}

/// The path `n` levels above `p`, `None` when one of them has no parent
pub fn ancestor(p: &str, n: usize) -> (r: Option<String>)
    ensures
        match r {
            Some(s) => path_ancestor(p@, n as nat) == Some(s@),
            None => path_ancestor(p@, n as nat) is None,
        },
{
    let mut cur = p.to_owned();
    let mut i: usize = 0;
    while i < n
        invariant
            i <= n,
            path_ancestor(p@, i as nat) == Some(cur@),
        decreases n - i,
    {
        match parent(cur.as_str()) {
            Some(q) => {
                cur = q;
            },
            None => {
                proof {
                    lemma_ancestor_none_stays(p@, (i + 1) as nat, n as nat);
                }
                return None;
            },
        }
        i += 1;
    }
    Some(cur)
}

proof fn lemma_ancestor_none_stays(p: Seq<char>, i: nat, j: nat)
    requires
        i <= j,
        path_ancestor(p, i) is None,
    ensures
        path_ancestor(p, j) is None,
    decreases j - i,
{
    if i < j {
        lemma_ancestor_none_stays(p, i, (j - 1) as nat);
    }
}

/// A segment that names a file or folder on its own: not empty, neither `.`
/// nor `..`, and without separator
pub open spec fn is_plain_name(seg: Seq<char>) -> bool {
    &&& is_named(seg)
    &&& seg != seq!['.', '.']
    &&& forall|i: int| 0 <= i < seg.len() ==> seg[i] != '/'
}

/// Reading characters that are no separator only extends the current segment
proof fn lemma_scan_plain(y: Seq<char>, s: Seq<char>)
    requires
        forall|i: int| 0 <= i < s.len() ==> s[i] != '/',
    ensures
        scan_segments(y + s) == (scan_segments(y).0, scan_segments(y).1 + s),
    decreases s.len(),
{
    if s.len() == 0 {
        assert(y + s =~= y);
        assert(scan_segments(y).1 + s =~= scan_segments(y).1);
    } else {
        lemma_scan_plain(y, s.drop_last());
        assert((y + s).drop_last() =~= y + s.drop_last());
        assert((y + s).last() == s.last());
        assert(scan_segments(y).1 + s =~= (scan_segments(y).1 + s.drop_last()).push(s.last()));
    }
}

/// Joining a plain name onto a path adds it as the last component
pub proof fn lemma_components_join(base: Seq<char>, seg: Seq<char>)
    requires
        is_plain_name(seg),
    ensures
        components(path_join(base, seg)) == components(base).push(seg),
{
    assert(seg[0] != '/');
    if base.len() == 0 {
        lemma_scan_plain(base, seg);
        assert(base + seg =~= seg);
        assert(scan_segments(base).1 + seg =~= seg);
    } else if base.last() == '/' {
        lemma_scan_plain(base, seg);
        assert(scan_segments(base).1 =~= seq![]);
        assert(scan_segments(base).1 + seg =~= seg);
    } else {
        let b = base + seq!['/'];
        assert(b.drop_last() =~= base);
        lemma_scan_plain(b, seg);
        assert(scan_segments(b).1 + seg =~= seg);
        assert(base + seq!['/'] + seg =~= b + seg);
    }
}

/// The file name of a path that a plain name was joined onto is that name
pub proof fn lemma_file_name_of_join(base: Seq<char>, seg: Seq<char>)
    requires
        is_plain_name(seg),
    ensures
        path_file_name(path_join(base, seg)) == Some(seg),
{
    lemma_components_join(base, seg);
}

/// Components that could come out of `components`: named and without
/// separator
pub open spec fn plain_components(c: Seq<Seq<char>>) -> bool {
    forall|i: int| 0 <= i < c.len() ==> {
        &&& is_named(#[trigger] c[i])
        &&& forall|k: int| 0 <= k < c[i].len() ==> c[i][k] != '/'
    }
}

/// The segments that a scan closes are named and hold no separator, nor
/// does the segment being read
proof fn lemma_scan_parts(p: Seq<char>)
    ensures
        plain_components(scan_segments(p).0),
        forall|k: int| 0 <= k < scan_segments(p).1.len() ==> scan_segments(p).1[k] != '/',
    decreases p.len(),
{
    if p.len() > 0 {
        lemma_scan_parts(p.drop_last());
    }
}

/// What `components` gives holds named components without separator
pub proof fn lemma_components_plain(p: Seq<char>)
    ensures
        plain_components(components(p)),
{
    lemma_scan_parts(p);
}

/// Scanning text after a separator starts from the components found so far
proof fn lemma_scan_concat(x: Seq<char>, y: Seq<char>)
    requires
        scan_segments(x).1.len() == 0,
    ensures
        scan_segments(x + y) == (scan_segments(x).0 + scan_segments(y).0, scan_segments(y).1),
    decreases y.len(),
{
    if y.len() == 0 {
        assert(x + y =~= x);
        assert(scan_segments(x).0 + scan_segments(y).0 =~= scan_segments(x).0);
        assert(scan_segments(x).1 =~= scan_segments(y).1);
    } else {
        lemma_scan_concat(x, y.drop_last());
        assert((x + y).drop_last() =~= x + y.drop_last());
        assert((x + y).last() == y.last());
        let a = scan_segments(x).0;
        let d = scan_segments(y.drop_last()).0;
        let c = scan_segments(y.drop_last()).1;
        assert((a + d).push(c) =~= a + d.push(c));
    }
}

/// The components of a path followed by a relative one are those of both
pub proof fn lemma_components_join_rel(base: Seq<char>, rel: Seq<char>)
    requires
        rel.len() == 0 || rel[0] != '/',
    ensures
        components(path_join(base, rel)) == components(base) + components(rel),
{
    if base.len() == 0 {
        assert(base + rel =~= rel);
        assert(components(base) =~= seq![]);
        assert(components(base) + components(rel) =~= components(rel));
    } else if base.last() == '/' {
        assert(scan_segments(base).1 =~= seq![]);
        lemma_scan_concat(base, rel);
        let a = scan_segments(base).0;
        let d = scan_segments(rel).0;
        let c = scan_segments(rel).1;
        assert((a + d).push(c) =~= a + d.push(c));
    } else {
        let b = base + seq!['/'];
        assert(b.drop_last() =~= base);
        assert(scan_segments(b).1 =~= seq![]);
        lemma_scan_concat(b, rel);
        assert(base + seq!['/'] + rel =~= b + rel);
        let a = scan_segments(b).0;
        let d = scan_segments(rel).0;
        let c = scan_segments(rel).1;
        assert((a + d).push(c) =~= a + d.push(c));
        if rel.len() == 0 {
            assert(b + rel =~= b);
        }
    }
}

/// The components of a path rebuilt from plain components are those
/// components, and it starts at the root exactly when asked to
pub proof fn lemma_components_rebuilt(absolute: bool, c: Seq<Seq<char>>)
    requires
        plain_components(c),
    ensures
        components(rebuilt(absolute, c)) == c,
        c.len() > 0 || absolute ==> is_absolute(rebuilt(absolute, c)) == absolute,
    decreases c.len(),
{
    if c.len() == 0 {
        let e: Seq<char> = seq![];
        assert(scan_segments(e) == (Seq::<Seq<char>>::empty(), e));
        if absolute {
            let y = seq!['/'];
            assert(rebuilt(absolute, c) =~= y);
            assert(y.drop_last() =~= e);
            assert(scan_segments(y) == (Seq::<Seq<char>>::empty(), e));
        } else {
            assert(rebuilt(absolute, c) =~= e);
        }
        assert(components(rebuilt(absolute, c)) =~= c);
    } else {
        let x = c.last();
        let d = c.drop_last();
        assert(plain_components(d)) by {
            assert forall|i: int| 0 <= i < d.len() implies {
                &&& is_named(#[trigger] d[i])
                &&& forall|k: int| 0 <= k < d[i].len() ==> d[i][k] != '/'
            } by {
                assert(d[i] == c[i]);
            }
        }
        lemma_components_rebuilt(absolute, d);
        assert(is_named(c[c.len() - 1]));
        assert(forall|k: int| 0 <= k < x.len() ==> x[k] != '/');
        if d.len() == 0 {
            assert(joined(c) == x);
            if absolute {
                let y = seq!['/'];
                assert(y.drop_last() =~= seq![]);
                assert(scan_segments(y).1 =~= seq![]);
                lemma_scan_concat(y, x);
                lemma_scan_plain(seq![], x);
                assert(seq![] + x =~= x);
                assert(rebuilt(absolute, c) =~= y + x);
                assert(scan_segments(x).0 =~= seq![]);
                assert(scan_segments(y).0 =~= seq![]);
                assert(components(rebuilt(absolute, c)) =~= c);
            } else {
                lemma_scan_plain(seq![], x);
                assert(seq![] + x =~= x);
                assert(rebuilt(absolute, c) == x);
                assert(components(x) =~= c);
                assert(x[0] != '/');
            }
        } else {
            let r = rebuilt(absolute, d);
            assert(rebuilt(absolute, c) =~= r + seq!['/'] + x);
            let b = r + seq!['/'];
            assert(b.drop_last() =~= r);
            assert(scan_segments(b).0 == components(r));
            assert(scan_segments(b).1 =~= seq![]);
            lemma_scan_concat(b, x);
            lemma_scan_plain(seq![], x);
            assert(seq![] + x =~= x);
            assert(scan_segments(x).0 =~= seq![]);
            assert(components(rebuilt(absolute, c)) =~= d.push(x));
            assert(d.push(x) =~= c);
            if !absolute {
                assert(joined(d).len() > 0) by {
                    lemma_joined_starts(d);
                }
            }
        }
    }
}

/// Joined plain components start with the first one's first character
proof fn lemma_joined_starts(c: Seq<Seq<char>>)
    requires
        plain_components(c),
        c.len() > 0,
    ensures
        joined(c).len() > 0,
        joined(c)[0] == c[0][0],
    decreases c.len(),
{
    assert(is_named(c[0]));
    if c.len() > 1 {
        let d = c.drop_last();
        assert(plain_components(d)) by {
            assert forall|i: int| 0 <= i < d.len() implies {
                &&& is_named(#[trigger] d[i])
                &&& forall|k: int| 0 <= k < d[i].len() ==> d[i][k] != '/'
            } by {
                assert(d[i] == c[i]);
            }
        }
        lemma_joined_starts(d);
    }
}

/// Going up `n` levels from a path keeps its first components, in normal
/// form
pub proof fn lemma_ancestor(p: Seq<char>, n: nat)
    requires
        1 <= n <= components(p).len(),
    ensures
        path_ancestor(p, n) == Some(rebuilt(is_absolute(p), components(p).take(components(p).len() - n))),
    decreases n,
{
    let c = components(p);
    lemma_components_plain(p);
    if n == 1 {
        assert(path_ancestor(p, 0) == Some(p));
        assert(c.drop_last() =~= c.take(c.len() - 1));
    } else {
        lemma_ancestor(p, (n - 1) as nat);
        let t = c.take(c.len() - (n - 1));
        assert(plain_components(t)) by {
            assert forall|i: int| 0 <= i < t.len() implies {
                &&& is_named(#[trigger] t[i])
                &&& forall|k: int| 0 <= k < t[i].len() ==> t[i][k] != '/'
            } by {
                assert(t[i] == c[i]);
            }
        }
        lemma_components_rebuilt(is_absolute(p), t);
        assert(t.drop_last() =~= c.take(c.len() - n));
    }
}

/// No character of some text is a separator
pub open spec fn no_separator(s: Seq<char>) -> bool
    decreases s.len(),
{
    s.len() == 0 || (s[0] != '/' && no_separator(s.drop_first()))
}

proof fn lemma_no_separator(s: Seq<char>)
    requires
        no_separator(s),
    ensures
        forall|i: int| 0 <= i < s.len() ==> s[i] != '/',
    decreases s.len(),
{
    if s.len() > 0 {
        lemma_no_separator(s.drop_first());
        assert forall|i: int| 0 <= i < s.len() implies s[i] != '/' by {
            if i > 0 {
                assert(s[i] == s.drop_first()[i - 1]);
            }
        }
    }
}

/// A name without separator that is neither empty, `.` nor `..` is plain
pub proof fn lemma_plain_name(s: Seq<char>)
    requires
        no_separator(s),
        s.len() > 2 || (s.len() > 0 && s != seq!['.'] && s != seq!['.', '.']),
    ensures
        is_plain_name(s),
{
    lemma_no_separator(s);
    if s.len() > 2 {
        assert(s != seq!['.']);
        assert(s != seq!['.', '.']);
    }
}

/// The components of a plain name are that name
pub proof fn lemma_components_name(x: Seq<char>)
    requires
        is_plain_name(x),
    ensures
        components(x) == seq![x],
{
    let e: Seq<char> = seq![];
    lemma_components_join(e, x);
    assert(path_join(e, x) == x);
    assert(components(e) =~= Seq::<Seq<char>>::empty());
    assert(Seq::<Seq<char>>::empty().push(x) =~= seq![x]);
}

/// Joining a relative path keeps whether a path starts at the root
pub proof fn lemma_join_absolute(base: Seq<char>, rel: Seq<char>)
    requires
        rel.len() > 0,
        rel[0] != '/',
    ensures
        is_absolute(path_join(base, rel)) == is_absolute(base),
{
    if base.len() > 0 {
        if base.last() == '/' {
            assert((base + rel)[0] == base[0]);
        } else {
            assert((base + seq!['/'] + rel)[0] == base[0]);
        }
    } else {
        assert(base + rel =~= rel);
    }
}

/// Two paths that name the same place: both start at the root or neither
/// does, and they have the same components
pub open spec fn same_location(a: Seq<char>, b: Seq<char>) -> bool {
    is_absolute(a) == is_absolute(b) && components(a) == components(b)
}

/// A path rebuilt from the components of another names the same place
pub proof fn lemma_rebuilt_same_location(p: Seq<char>)
    ensures
        components(rebuilt(is_absolute(p), components(p))) == components(p),
        components(p).len() > 0 || is_absolute(p) ==> is_absolute(rebuilt(is_absolute(p), components(p))) == is_absolute(p),
{
    lemma_components_plain(p);
    lemma_components_rebuilt(is_absolute(p), components(p));
}

} // verus!
