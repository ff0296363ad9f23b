//! Splitting a candidate enumeration into its lines: the enumeration
//! arrives as one block of text, one candidate per line.

use vstd::prelude::*;
use vstd::string::StrSliceExecFns;

verus! {

/// The segments joined back together with the separator between each
/// pair: the inverse view of splitting.
pub open spec fn joined(segments: Seq<Seq<char>>, sep: char) -> Seq<char>
    decreases segments.len(),
{
    if segments.len() == 0 {
        Seq::empty()
    } else if segments.len() == 1 {
        segments[0]
    } else {
        joined(segments.drop_last(), sep).push(sep) + segments.last()
    }
}

/// Split a block of text at every line break. The result is never
/// empty, no piece holds a line break, and joining the pieces with
/// line breaks gives the text back — which pins the split down
/// uniquely.
pub fn split_lines(s: &str) -> (r: Vec<String>)
    ensures
        r@.len() > 0,
        joined(r@.map_values(|line: String| line@), '\n') == s@,
        forall|k: int, j: int|
            0 <= k < r@.len() && 0 <= j < r@[k]@.len() ==> r@[k]@[j] != '\n',
{
    let n = s.unicode_len();
    let mut out: Vec<String> = Vec::new();
    let mut start: usize = 0;
    let mut i: usize = 0;

    while i < n
        invariant
            n == s@.len(),
            start <= i <= n,
            forall|j: int| start <= j < i ==> s@[j] != '\n',
            forall|k: int, j: int|
                0 <= k < out@.len() && 0 <= j < out@[k]@.len() ==> out@[k]@[j] != '\n',
            out@.len() == 0 ==> start == 0,
            out@.len() > 0 ==> joined(out@.map_values(|line: String| line@), '\n').push('\n')
                == s@.take(start as int),
        decreases n - i,
    {
        if s.get_char(i) == '\n' {
            let ghost before = out@.map_values(|line: String| line@);
            let segment = s.substring_char(start, i).to_owned();
            out.push(segment);
            proof {
                let after = out@.map_values(|line: String| line@);
                assert(after.drop_last() =~= before);
                assert(after.last() == s@.subrange(start as int, i as int));
                if before.len() == 0 {
                    assert(joined(after, '\n') =~= s@.take(i as int));
                } else {
                    assert(joined(before, '\n').push('\n') + s@.subrange(
                        start as int,
                        i as int,
                    ) =~= s@.take(i as int));
                }
                assert(joined(after, '\n').push('\n') =~= s@.take(i + 1));
            }
            start = i + 1;
        }
        i = i + 1;
    }

    let ghost before = out@.map_values(|line: String| line@);
    let segment = s.substring_char(start, n).to_owned();
    out.push(segment);
    proof {
        let after = out@.map_values(|line: String| line@);
        assert(after.drop_last() =~= before);
        assert(after.last() == s@.subrange(start as int, n as int));
        if before.len() == 0 {
            assert(joined(after, '\n') =~= s@);
        } else {
            assert(joined(before, '\n').push('\n') + s@.subrange(start as int, n as int)
                =~= s@);
        }
    }
    out
}

} // verus!
