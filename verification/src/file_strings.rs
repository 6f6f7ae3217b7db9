use vstd::prelude::*;
use crate::strings::push_char;

verus! {

/// A byte of printable ASCII text: a space or a visible character
pub open spec fn is_printable(b: u8) -> bool {
    0x20 <= b <= 0x7e
}

/// Scans bytes from the left: the runs of printable bytes already closed
/// (those of at least four bytes) and the run being read
pub open spec fn scan_runs(bytes: Seq<u8>) -> (Seq<Seq<u8>>, Seq<u8>)
    decreases bytes.len(),
{
    if bytes.len() == 0 {
        (seq![], seq![])
    } else {
        let (done, cur) = scan_runs(bytes.drop_last());
        let b = bytes.last();
        if is_printable(b) {
            (done, cur.push(b))
        } else if cur.len() >= 4 {
            (done.push(cur), seq![])
        } else {
            (done, seq![])
        }
    }
}

/// The strings of a binary file, as the `strings` tool lists them: the runs
/// of at least four printable bytes, in order
pub open spec fn printable_runs(bytes: Seq<u8>) -> Seq<Seq<u8>> {
    let (done, cur) = scan_runs(bytes);
    if cur.len() >= 4 {
        done.push(cur)
    } else {
        done
    }
}

/// A run of ASCII bytes as text
pub open spec fn ascii_text(run: Seq<u8>) -> Seq<char> {
    run.map_values(|b: u8| b as char)
}

/// The strings of a binary file: its runs of at least four printable bytes,
/// in order (see `printable_runs`)
pub fn file_strings(bytes: &[u8]) -> (r: Vec<String>)
    ensures
        r@.map_values(|s: String| s@) == printable_runs(bytes@).map_values(|run: Seq<u8>| ascii_text(run)),
{
    let mut done: Vec<String> = Vec::new();
    let mut cur = String::new();
    let ghost mut cur_bytes: Seq<u8> = seq![];
    let ghost mut done_bytes: Seq<Seq<u8>> = seq![];
    let mut cur_len: usize = 0;
    let n = bytes.len();
    let mut i: usize = 0;
    while i < n
        invariant
            n == bytes@.len(),
            i <= n,
            scan_runs(bytes@.take(i as int)) == (done_bytes, cur_bytes),
            done@.map_values(|s: String| s@) == done_bytes.map_values(|run: Seq<u8>| ascii_text(run)),
            cur@ == ascii_text(cur_bytes),
            cur_len == cur_bytes.len(),
            cur_len <= i,
        decreases n - i,
    {
        proof {
            assert(bytes@.take(i + 1).drop_last() =~= bytes@.take(i as int));
        }
        let b = bytes[i];
        if 0x20 <= b && b <= 0x7e {
            push_char(&mut cur, b as char);
            proof {
                cur_bytes = cur_bytes.push(b);
            }
            assert(cur@ =~= ascii_text(cur_bytes));
            cur_len = cur_len + 1;
        } else {
            if cur_len >= 4 {
                let ghost before = done@;
                let ghost old_runs = done_bytes;
                let ghost pushed = cur@;
                done.push(cur);
                proof {
                    assert(before.map_values(|s: String| s@).len() == old_runs.map_values(|run: Seq<u8>| ascii_text(run)).len());
                    assert(before.len() == old_runs.len());
                    assert(done@[before.len() as int]@ == pushed);
                    done_bytes = done_bytes.push(cur_bytes);
                    assert forall|j: int| 0 <= j < done@.len() implies
                        (#[trigger] done@[j])@ == ascii_text(done_bytes[j]) by {
                        if j < before.len() {
                            assert(done@[j] == before[j]);
                            assert(before.map_values(|s: String| s@)[j] == old_runs.map_values(|run: Seq<u8>| ascii_text(run))[j]);
                        }
                    }
                }
                assert(done@.map_values(|s: String| s@) =~= done_bytes.map_values(|run: Seq<u8>| ascii_text(run)));
            }
            cur = String::new();
            proof {
                cur_bytes = seq![];
            }
            assert(cur@ =~= ascii_text(cur_bytes));
            cur_len = 0;
        }
        i += 1;
    }
    assert(bytes@.take(n as int) =~= bytes@);
    if cur_len >= 4 {
        let ghost before = done@;
        let ghost pushed = cur@;
        done.push(cur);
        proof {
            let all = done_bytes.push(cur_bytes);
            assert(before.map_values(|s: String| s@).len() == done_bytes.map_values(|run: Seq<u8>| ascii_text(run)).len());
            assert(before.len() == done_bytes.len());
            assert(done@[before.len() as int]@ == pushed);
            assert forall|j: int| 0 <= j < done@.len() implies
                (#[trigger] done@[j])@ == ascii_text(all[j]) by {
                if j < before.len() {
                    assert(done@[j] == before[j]);
                    assert(before.map_values(|s: String| s@)[j] == done_bytes.map_values(|run: Seq<u8>| ascii_text(run))[j]);
                }
            }
        }
        assert(done@.map_values(|s: String| s@) =~= done_bytes.push(cur_bytes).map_values(|run: Seq<u8>| ascii_text(run)));
    }
    done
}

} // verus!
