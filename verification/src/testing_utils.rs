use vstd::prelude::*;
use crate::strutil::{is_ws, is_ws_char, line_seqs, ws_prefix_len};

verus! {

/// The length of `s` once trailing whitespace is dropped.
pub open spec fn trimmed_len(s: Seq<char>) -> nat
    decreases s.len(),
{
    if s.len() == 0 {
        0
    } else if is_ws(s.last()) {
        trimmed_len(s.drop_last())
    } else {
        s.len()
    }
}

/// `s` without its trailing whitespace.
pub open spec fn trim_end_seq(s: Seq<char>) -> Seq<char> {
    s.take(trimmed_len(s) as int)
}

/// Drops empty lines off the end.
pub open spec fn drop_trailing_empties(v: Seq<Seq<char>>) -> Seq<Seq<char>>
    decreases v.len(),
{
    if v.len() > 0 && v.last().len() == 0 {
        drop_trailing_empties(v.drop_last())
    } else {
        v
    }
}

/// The views of a sequence of string slices.
pub open spec fn str_views(v: Seq<&str>) -> Seq<Seq<char>> {
    v.map_values(|x: &str| x@)
}

/// What `split_trim_end` yields: the lines of `s`, each without its
/// trailing whitespace, and without any run of blank lines at the end.
pub open spec fn split_trim_end_spec(s: Seq<char>) -> Seq<Seq<char>> {
    drop_trailing_empties(line_seqs(s).map_values(|l: Seq<char>| trim_end_seq(l)))
}

proof fn lemma_trimmed_at(s: Seq<char>, t: int)
    requires
        0 <= t <= s.len(),
        t == 0 || !is_ws(s[t - 1]),
        forall|k: int| t <= k < s.len() ==> is_ws(#[trigger] s[k]),
    ensures
        trimmed_len(s) == t,
    decreases s.len(),
{
    if s.len() > 0 {
        if t == s.len() {
        } else {
            assert(is_ws(s.last()));
            lemma_trimmed_at(s.drop_last(), t);
        }
    }
}

proof fn lemma_single_line(s: Seq<char>)
    requires
        forall|k: int| 0 <= k < s.len() ==> s[k] != '\n',
    ensures
        line_seqs(s) == seq![s],
    decreases s.len(),
{
    if s.len() == 0 {
        assert(line_seqs(s) =~~= seq![s]);
    } else {
        lemma_single_line(s.drop_first());
        assert(line_seqs(s) =~~= seq![seq![s[0]] + s.drop_first()]);
        assert(seq![s[0]] + s.drop_first() =~= s);
        assert(line_seqs(s) =~~= seq![s]);
    }
}

proof fn lemma_lines_split(s: Seq<char>, i: int, j: int)
    requires
        0 <= i <= j <= s.len(),
        forall|k: int| i <= k < j ==> s[k] != '\n',
        j < s.len() && s[j] == '\n',
    ensures
        line_seqs(s.skip(i)) == seq![s.subrange(i, j)] + line_seqs(s.skip(j + 1)),
    decreases j - i,
{
    let cur = s.skip(i);
    if i == j {
        assert(cur[0] == '\n');
        assert(cur.drop_first() =~= s.skip(i + 1));
        assert(s.subrange(i, j) =~= Seq::<char>::empty());
        assert(line_seqs(cur) =~~= seq![s.subrange(i, j)] + line_seqs(s.skip(j + 1)));
    } else {
        lemma_lines_split(s, i + 1, j);
        assert(cur[0] == s[i] && s[i] != '\n');
        assert(cur.drop_first() =~= s.skip(i + 1));
        let rest = line_seqs(s.skip(i + 1));
        assert(rest[0] == s.subrange(i + 1, j));
        assert(seq![cur[0]] + rest[0] =~= s.subrange(i, j));
        assert(rest.drop_first() =~= line_seqs(s.skip(j + 1)));
        assert(line_seqs(cur) =~~= seq![s.subrange(i, j)] + line_seqs(s.skip(j + 1)));
    }
}

proof fn lemma_last_line(s: Seq<char>, i: int)
    requires
        0 <= i <= s.len(),
        forall|k: int| i <= k < s.len() ==> s[k] != '\n',
    ensures
        line_seqs(s.skip(i)) == seq![s.subrange(i, s.len() as int)],
{
    let cur = s.skip(i);
    assert(forall|k: int| 0 <= k < cur.len() ==> cur[k] != '\n');
    lemma_single_line(cur);
    assert(cur =~= s.subrange(i, s.len() as int));
}

/// One line of `s`, ending just before its trailing whitespace.
fn trimmed_line<'a>(s: &'a str, start: usize, end: usize) -> (r: &'a str)
    requires
        start <= end <= s@.len(),
    ensures
        r@ == trim_end_seq(s@.subrange(start as int, end as int)),
{
    let mut t = end;
    while t > start
        invariant
            start <= t <= end <= s@.len(),
            forall|k: int| t <= k < end ==> is_ws(#[trigger] s@[k]),
        ensures
            start <= t <= end,
            forall|k: int| t <= k < end ==> is_ws(#[trigger] s@[k]),
            t == start || !is_ws(s@[t - 1]),
        decreases t,
    {
        let c = s.get_char(t - 1);
        if !is_ws_char(c) {
            break ;
        }
        t -= 1;
    }
    let line = s.substring_char(start, t);
    proof {
        let whole = s@.subrange(start as int, end as int);
        lemma_trimmed_at(whole, t - start);
        assert(whole.take(t - start) =~= s@.subrange(start as int, t as int));
    }
    line
}

/// Splits `s` into lines, drops each line's trailing whitespace, and
/// drops blank lines off the end: the shape outputs are compared in.
pub fn split_trim_end(to_split: &str) -> (r: Vec<&str>)
    ensures
        str_views(r@) == split_trim_end_spec(to_split@),
{
    let len = to_split.unicode_len();
    let mut lines: Vec<&str> = Vec::new();
    let mut i: usize = 0;
    let ghost all_lines = line_seqs(to_split@).map_values(|l: Seq<char>| trim_end_seq(l));
    proof {
        assert(to_split@.skip(0) =~= to_split@);
        assert(str_views(lines@) + line_seqs(to_split@.skip(0)).map_values(
            |l: Seq<char>| trim_end_seq(l),
        ) =~= all_lines);
    }
    loop
        invariant_except_break
            str_views(lines@) + line_seqs(to_split@.skip(i as int)).map_values(
                |l: Seq<char>| trim_end_seq(l),
            ) == all_lines,
        invariant
            i <= len,
            len == to_split@.len(),
        ensures
            str_views(lines@) == all_lines,
        decreases len - i,
    {
        let mut j = i;
        while j < len
            invariant
                i <= j <= len,
                len == to_split@.len(),
                forall|k: int| i <= k < j ==> to_split@[k] != '\n',
            ensures
                i <= j <= len,
                forall|k: int| i <= k < j ==> to_split@[k] != '\n',
                j == len || to_split@[j as int] == '\n',
            decreases len - j,
        {
            if to_split.get_char(j) == '\n' {
                break ;
            }
            j += 1;
        }
        let line = trimmed_line(to_split, i, j);
        if j == len {
            proof {
                lemma_last_line(to_split@, i as int);
                assert(str_views(lines@.push(line)) =~= str_views(lines@) + seq![line@]);
                assert(str_views(lines@.push(line)) =~= all_lines);
            }
            lines.push(line);
            break ;
        }
        proof {
            lemma_lines_split(to_split@, i as int, j as int);
            assert(str_views(lines@.push(line)) =~= str_views(lines@) + seq![line@]);
            assert(str_views(lines@.push(line)) + line_seqs(to_split@.skip(j + 1)).map_values(
                |l: Seq<char>| trim_end_seq(l),
            ) =~= all_lines);
        }
        lines.push(line);
        i = j + 1;
    }
    while lines.len() > 0
        invariant
            drop_trailing_empties(str_views(lines@)) == split_trim_end_spec(to_split@),
        ensures
            drop_trailing_empties(str_views(lines@)) == split_trim_end_spec(to_split@),
            lines@.len() == 0 || str_views(lines@).last().len() != 0,
        decreases lines.len(),
    {
        let last_index = lines.len() - 1;
        if !lines[last_index].is_empty() {
            proof {
                assert(str_views(lines@)[last_index as int] == lines@[last_index as int]@);
            }
            break ;
        }
        proof {
            assert(str_views(lines@)[last_index as int] == lines@[last_index as int]@);
            assert(str_views(lines@).last().len() == 0);
            assert(str_views(lines@).drop_last() =~= str_views(lines@.drop_last()));
        }
        lines.pop();
    }
    proof {
        assert(drop_trailing_empties(str_views(lines@)) =~= str_views(lines@));
    }
    lines
}

fn str_equal(a: &str, b: &str) -> (r: bool)
    ensures
        r == (a@ == b@),
{
    let a_owned: String = a.to_owned();
    let b_owned: String = b.to_owned();
    a_owned == b_owned
}

/// Whether two program outputs count as the same: equal line by line,
/// ignoring trailing whitespace on each line and blank lines at the
/// end.
pub fn outputs_match(expected: &str, actual: &str) -> (r: bool)
    ensures
        r == (split_trim_end_spec(expected@) == split_trim_end_spec(actual@)),
{
    let expected_lines = split_trim_end(expected);
    let actual_lines = split_trim_end(actual);
    if expected_lines.len() != actual_lines.len() {
        proof {
            assert(str_views(expected_lines@).len() == expected_lines@.len());
            assert(str_views(actual_lines@).len() == actual_lines@.len());
        }
        return false;
    }
    let n = expected_lines.len();
    let mut k: usize = 0;
    while k < n
        invariant
            k <= n,
            n == expected_lines@.len() == actual_lines@.len(),
            str_views(expected_lines@) == split_trim_end_spec(expected@),
            str_views(actual_lines@) == split_trim_end_spec(actual@),
            forall|q: int| 0 <= q < k ==> #[trigger] expected_lines@[q]@ == actual_lines@[q]@,
        decreases n - k,
    {
        if !str_equal(expected_lines[k], actual_lines[k]) {
            proof {
                assert(str_views(expected_lines@)[k as int] == expected_lines@[k as int]@);
                assert(str_views(actual_lines@)[k as int] == actual_lines@[k as int]@);
            }
            return false;
        }
        k += 1;
    }
    proof {
        assert(str_views(expected_lines@) =~~= str_views(actual_lines@));
    }
    true
}

/// `s` without leading or trailing whitespace.
pub open spec fn trim_seq(s: Seq<char>) -> Seq<char> {
    trim_end_seq(s).skip(ws_prefix_len(trim_end_seq(s)) as int)
}

/// Drops whitespace from both ends of `s`.
pub fn trim_chars<'a>(s: &'a str) -> (r: &'a str)
    ensures
        r@ == trim_seq(s@),
{
    let len = s.unicode_len();
    let mut t = len;
    while t > 0
        invariant
            t <= len,
            len == s@.len(),
            forall|k: int| t <= k < len ==> is_ws(#[trigger] s@[k]),
        ensures
            t <= len,
            forall|k: int| t <= k < len ==> is_ws(#[trigger] s@[k]),
            t == 0 || !is_ws(s@[t - 1]),
        decreases t,
    {
        let c = s.get_char(t - 1);
        if !is_ws_char(c) {
            break ;
        }
        t -= 1;
    }
    proof {
        lemma_trimmed_at(s@, t as int);
        assert(trim_end_seq(s@) =~= s@.subrange(0, t as int));
    }
    let mut f: usize = 0;
    while f < t
        invariant
            f <= t <= len,
            len == s@.len(),
            forall|k: int| 0 <= k < f ==> is_ws(#[trigger] s@[k]),
        ensures
            f <= t,
            forall|k: int| 0 <= k < f ==> is_ws(#[trigger] s@[k]),
            f == t || !is_ws(s@[f as int]),
        decreases t - f,
    {
        let c = s.get_char(f);
        if !is_ws_char(c) {
            break ;
        }
        f += 1;
    }
    let r = s.substring_char(f, t);
    proof {
        let trimmed_end = trim_end_seq(s@);
        crate::strutil::lemma_ws_prefix_at(trimmed_end, f as int);
        assert(trimmed_end.skip(f as int) =~= s@.subrange(f as int, t as int));
    }
    r
}

} // verus!
