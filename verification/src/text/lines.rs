//! Lines of a text, as `str::lines` gives them.
use vstd::prelude::*;
use super::chars::chars_of;

verus! {

/// Index of the first line feed in `s`, or -1 when there is none.
pub open spec fn first_newline(s: Seq<char>) -> int
    decreases s.len(),
{
    if s.len() == 0 {
        -1
    } else if s[0] == '\n' {
        0
    } else {
        let k = first_newline(s.drop_first());
        if k < 0 {
            -1
        } else {
            k + 1
        }
    }
}

/// `first_newline` is -1 or an index of `s`.
pub proof fn lemma_first_newline_bound(s: Seq<char>)
    ensures
        -1 <= first_newline(s) < s.len(),
    decreases s.len(),
{
    if s.len() > 0 && s[0] != '\n' {
        lemma_first_newline_bound(s.drop_first());
    }
}

/// `s` without one trailing carriage return.
pub open spec fn strip_cr(s: Seq<char>) -> Seq<char> {
    if s.len() > 0 && s.last() == '\r' {
        s.drop_last()
    } else {
        s
    }
}

/// The lines of `s`: the pieces between line feeds, each without a
/// carriage return before its line feed; a final line feed ends the last
/// line rather than starting an empty one.
pub open spec fn lines_of(s: Seq<char>) -> Seq<Seq<char>>
    decreases s.len(),
{
    if s.len() == 0 {
        Seq::empty()
    } else {
        let k = first_newline(s);
        proof {
            lemma_first_newline_bound(s);
        }
        if k < 0 {
            seq![s]
        } else {
            seq![strip_cr(s.take(k))] + lines_of(s.skip(k + 1))
        }
    }
}

/// `first_newline` finds the first line feed.
pub proof fn lemma_first_newline(s: Seq<char>, k: int)
    requires
        0 <= k <= s.len(),
        forall|j: int| 0 <= j < k ==> #[trigger] s[j] != '\n',
        k == s.len() || s[k] == '\n',
    ensures
        first_newline(s) == if k == s.len() { -1 } else { k },
    decreases k,
{
    if k > 0 {
        let t = s.drop_first();
        assert forall|j: int| 0 <= j < k - 1 implies #[trigger] t[j] != '\n' by {
            assert(s[j + 1] != '\n');
        }
        lemma_first_newline(t, k - 1);
    }
}

/// The texts of a sequence of strings.
pub open spec fn line_texts(v: Seq<String>) -> Seq<Seq<char>> {
    v.map_values(|s: String| s@)
}

/// The lines of `s`, as `str::lines` gives them.
pub fn lines(s: &str) -> (r: Vec<String>)
    ensures
        line_texts(r@) == lines_of(s@),
{
    let cs = chars_of(s);
    let n = cs.len();
    let mut r: Vec<String> = Vec::new();
    let mut start: usize = 0;
    let mut i: usize = 0;
    assert(s@.skip(0) =~= s@);
    assert(line_texts(r@) + lines_of(s@) =~= lines_of(s@));
    while i < n
        invariant
            start <= i <= n == cs@.len(),
            cs@ == s@,
            forall|j: int| start <= j < i ==> #[trigger] cs@[j] != '\n',
            lines_of(s@) == line_texts(r@) + lines_of(s@.skip(start as int)),
        decreases n - i,
    {
        if cs[i] == '\n' {
            let ghost rest = s@.skip(start as int);
            proof {
                assert forall|j: int| 0 <= j < i - start implies #[trigger] rest[j] != '\n' by {
                    assert(cs@[j + start] != '\n');
                }
                lemma_first_newline(rest, i - start);
                assert(rest.skip(i - start + 1) =~= s@.skip(i + 1));
            }
            let mut end = i;
            if end > start && cs[end - 1] == '\r' {
                end = end - 1;
            }
            let line = s.substring_char(start, end).to_string();
            proof {
                let piece = rest.take(i - start);
                assert(strip_cr(piece) =~= s@.subrange(start as int, end as int));
            }
            let ghost before = r@;
            r.push(line);
            assert(line_texts(r@) =~= line_texts(before).push(line@));
            assert(lines_of(s@) =~= line_texts(r@) + lines_of(s@.skip(i + 1)));
            start = i + 1;
        }
        i = i + 1;
    }
    let ghost rest = s@.skip(start as int);
    if start < n {
        proof {
            assert forall|j: int| 0 <= j < rest.len() implies #[trigger] rest[j] != '\n' by {
                assert(cs@[j + start] != '\n');
            }
            lemma_first_newline(rest, rest.len() as int);
        }
        let line = s.substring_char(start, n).to_string();
        assert(line@ =~= rest);
        let ghost before = r@;
        r.push(line);
        assert(line_texts(r@) =~= line_texts(before).push(line@));
        assert(lines_of(s@) =~= line_texts(r@));
    } else {
        assert(rest.len() == 0);
        assert(lines_of(s@) =~= line_texts(r@));
    }
    r
}

} // verus!
