use vstd::prelude::*;

verus! {

/// The character standing for one decimal digit.
pub open spec fn dec_digit(n: nat) -> char
    recommends
        n < 10,
{
    if n == 0 {
        '0'
    } else if n == 1 {
        '1'
    } else if n == 2 {
        '2'
    } else if n == 3 {
        '3'
    } else if n == 4 {
        '4'
    } else if n == 5 {
        '5'
    } else if n == 6 {
        '6'
    } else if n == 7 {
        '7'
    } else if n == 8 {
        '8'
    } else {
        '9'
    }
}

/// The decimal writing of `n`, most significant digit first.
pub open spec fn dec_seq(n: nat) -> Seq<char>
    decreases n,
{
    if n < 10 {
        seq![dec_digit(n)]
    } else {
        dec_seq(n / 10).push(dec_digit(n % 10))
    }
}

/// The decimal writing of a signed value: a minus sign before the
/// magnitude when the value is negative.
pub open spec fn dec_seq_signed(n: int) -> Seq<char> {
    if n >= 0 {
        dec_seq(n as nat)
    } else {
        seq!['-'] + dec_seq((-n) as nat)
    }
}

fn dec_digit_str(n: u64) -> (s: &'static str)
    requires
        n < 10,
    ensures
        s@ == seq![dec_digit(n as nat)],
{
    proof {
        reveal_strlit("0");
        reveal_strlit("1");
        reveal_strlit("2");
        reveal_strlit("3");
        reveal_strlit("4");
        reveal_strlit("5");
        reveal_strlit("6");
        reveal_strlit("7");
        reveal_strlit("8");
        reveal_strlit("9");
    }
    match n {
        0 => "0",
        1 => "1",
        2 => "2",
        3 => "3",
        4 => "4",
        5 => "5",
        6 => "6",
        7 => "7",
        8 => "8",
        _ => "9",
    }
}

/// Writes `n` in decimal.
pub fn u64_to_string(n: u64) -> (s: String)
    ensures
        s@ == dec_seq(n as nat),
    decreases n,
{
    if n < 10 {
        dec_digit_str(n).to_owned()
    } else {
        let mut s = u64_to_string(n / 10);
        s.append(dec_digit_str(n % 10));
        s
    }
}

/// Writes `n` in decimal, with a leading minus sign when negative.
pub fn i64_to_string(n: i64) -> (s: String)
    ensures
        s@ == dec_seq_signed(n as int),
{
    if n >= 0 {
        u64_to_string(n as u64)
    } else {
        proof {
            reveal_strlit("-");
        }
        let magnitude: u64 = if n == i64::MIN {
            9223372036854775808
        } else {
            (-n) as u64
        };
        let mut s = "-".to_owned();
        s.append(u64_to_string(magnitude).as_str());
        proof {
            assert(s@ =~= dec_seq_signed(n as int));
        }
        s
    }
}

/// `needle` occurs contiguously somewhere inside `hay`.
pub open spec fn contains_seq(hay: Seq<char>, needle: Seq<char>) -> bool {
    exists|i: int|
        0 <= i && i + needle.len() <= hay.len() && #[trigger] hay.subrange(i, i + needle.len())
            == needle
}

pub proof fn lemma_contains_self(s: Seq<char>)
    ensures
        contains_seq(s, s),
{
    assert(s.subrange(0, 0 + s.len() as int) =~= s);
}

pub proof fn lemma_contains_left(a: Seq<char>, b: Seq<char>, needle: Seq<char>)
    requires
        contains_seq(a, needle),
    ensures
        contains_seq(a + b, needle),
{
    let i = choose|i: int|
        0 <= i && i + needle.len() <= a.len() && #[trigger] a.subrange(i, i + needle.len())
            == needle;
    assert((a + b).subrange(i, i + needle.len() as int) =~= a.subrange(i, i + needle.len() as int));
}

pub proof fn lemma_contains_right(a: Seq<char>, b: Seq<char>, needle: Seq<char>)
    requires
        contains_seq(b, needle),
    ensures
        contains_seq(a + b, needle),
{
    let i = choose|i: int|
        0 <= i && i + needle.len() <= b.len() && #[trigger] b.subrange(i, i + needle.len())
            == needle;
    let j = a.len() + i;
    assert((a + b).subrange(j, j + needle.len() as int) =~= b.subrange(i, i + needle.len() as int));
}

pub proof fn lemma_contains_trans(hay: Seq<char>, mid: Seq<char>, needle: Seq<char>)
    requires
        contains_seq(hay, mid),
        contains_seq(mid, needle),
    ensures
        contains_seq(hay, needle),
{
    let i = choose|i: int|
        0 <= i && i + mid.len() <= hay.len() && #[trigger] hay.subrange(i, i + mid.len()) == mid;
    let j = choose|j: int|
        0 <= j && j + needle.len() <= mid.len() && #[trigger] mid.subrange(j, j + needle.len())
            == needle;
    assert(hay.subrange(i + j, i + j + needle.len() as int) =~= mid.subrange(
        j,
        j + needle.len() as int,
    ));
}

/// No escape character occurs in `s`; styling such a text only ever
/// wraps it whole.
pub open spec fn esc_free(s: Seq<char>) -> bool {
    forall|i: int| 0 <= i < s.len() ==> s[i] != '\u{1b}'
}

/// Whether `s` is free of escape characters.
pub fn is_esc_free(s: &str) -> (r: bool)
    ensures
        r == esc_free(s@),
{
    let len = s.unicode_len();
    let mut i: usize = 0;
    while i < len
        invariant
            i <= len,
            len == s@.len(),
            forall|k: int| 0 <= k < i ==> s@[k] != '\u{1b}',
        decreases len - i,
    {
        if s.get_char(i) == '\u{1b}' {
            assert(!esc_free(s@));
            return false;
        }
        i += 1;
    }
    true
}

/// A Unicode whitespace character: the code points with the
/// White_Space property, the set `char::is_whitespace` recognizes.
pub open spec fn is_ws(c: char) -> bool {
    c == ' ' || c == '\t' || c == '\n' || c == '\u{b}' || c == '\u{c}' || c == '\r' || c
        == '\u{85}' || c == '\u{a0}' || c == '\u{1680}' || ('\u{2000}' <= c && c <= '\u{200a}')
        || c == '\u{2028}' || c == '\u{2029}' || c == '\u{202f}' || c == '\u{205f}' || c
        == '\u{3000}'
}

/// Whether `c` is whitespace.
pub fn is_ws_char(c: char) -> (r: bool)
    ensures
        r == is_ws(c),
{
    c == ' ' || c == '\t' || c == '\n' || c == '\u{b}' || c == '\u{c}' || c == '\r' || c
        == '\u{85}' || c == '\u{a0}' || c == '\u{1680}' || ('\u{2000}' <= c && c <= '\u{200a}')
        || c == '\u{2028}' || c == '\u{2029}' || c == '\u{202f}' || c == '\u{205f}' || c
        == '\u{3000}'
}

/// The whitespace-separated tokens of `s`, in order.
pub open spec fn ws_tokens(s: Seq<char>) -> Seq<Seq<char>>
    decreases s.len(),
{
    if s.len() == 0 {
        Seq::empty()
    } else if is_ws(s[0]) {
        ws_tokens(s.drop_first())
    } else if s.len() > 1 && !is_ws(s[1]) {
        let rest = ws_tokens(s.drop_first());
        seq![seq![s[0]] + rest[0]] + rest.drop_first()
    } else {
        seq![seq![s[0]]] + ws_tokens(s.drop_first())
    }
}

proof fn lemma_ws_tokens_skip_ws(s: Seq<char>, i: int)
    requires
        0 <= i < s.len(),
        is_ws(s[i]),
    ensures
        ws_tokens(s.skip(i)) == ws_tokens(s.skip(i + 1)),
{
    assert(s.skip(i).drop_first() =~= s.skip(i + 1));
}

proof fn lemma_ws_tokens_take_token(s: Seq<char>, i: int, j: int)
    requires
        0 <= i < j <= s.len(),
        forall|k: int| i <= k < j ==> !is_ws(#[trigger] s[k]),
        j == s.len() || is_ws(s[j]),
    ensures
        ws_tokens(s.skip(i)) == seq![s.subrange(i, j)] + ws_tokens(s.skip(j)),
    decreases j - i,
{
    let cur = s.skip(i);
    assert(cur.drop_first() =~= s.skip(i + 1));
    assert(!is_ws(cur[0]));
    if j == i + 1 {
        if cur.len() > 1 {
            assert(cur[1] == s[i + 1]);
            assert(is_ws(cur[1]));
        }
        assert(s.subrange(i, j) =~= seq![s[i]]);
        assert(ws_tokens(cur) =~= seq![s.subrange(i, j)] + ws_tokens(s.skip(j)));
    } else {
        lemma_ws_tokens_take_token(s, i + 1, j);
        let rest = ws_tokens(s.skip(i + 1));
        assert(cur.len() > 1 && !is_ws(cur[1]));
        assert(rest[0] == s.subrange(i + 1, j));
        assert(seq![cur[0]] + rest[0] =~= s.subrange(i, j));
        assert(rest.drop_first() =~= ws_tokens(s.skip(j)));
        assert(ws_tokens(cur) =~= seq![s.subrange(i, j)] + ws_tokens(s.skip(j)));
    }
}

/// The views of a sequence of strings.
pub open spec fn views_of(v: Seq<String>) -> Seq<Seq<char>> {
    v.map_values(|x: String| x@)
}

/// Splits `s` at runs of ASCII whitespace, dropping the separators.
pub fn split_ws(s: &str) -> (r: Vec<String>)
    ensures
        views_of(r@) == ws_tokens(s@),
{
    let len = s.unicode_len();
    let mut tokens: Vec<String> = Vec::new();
    let mut i: usize = 0;
    proof {
        assert(s@.skip(0) =~= s@);
        assert(views_of(tokens@) + ws_tokens(s@) =~= ws_tokens(s@));
    }
    while i < len
        invariant
            i <= len,
            len == s@.len(),
            views_of(tokens@) + ws_tokens(s@.skip(i as int)) == ws_tokens(s@),
        decreases len - i,
    {
        let c = s.get_char(i);
        if is_ws_char(c) {
            proof {
                lemma_ws_tokens_skip_ws(s@, i as int);
            }
            i += 1;
        } else {
            let start = i;
            let mut j = i + 1;
            while j < len
                invariant
                    start < j <= len,
                    len == s@.len(),
                    forall|k: int| start <= k < j ==> !is_ws(#[trigger] s@[k]),
                ensures
                    start < j <= len,
                    forall|k: int| start <= k < j ==> !is_ws(#[trigger] s@[k]),
                    j == len || is_ws(s@[j as int]),
                decreases len - j,
            {
                let c2 = s.get_char(j);
                if is_ws_char(c2) {
                    break ;
                }
                j += 1;
            }
            let token = s.substring_char(start, j).to_owned();
            proof {
                lemma_ws_tokens_take_token(s@, start as int, j as int);
                assert(views_of(tokens@.push(token)) =~= views_of(tokens@) + seq![token@]);
                assert(views_of(tokens@) + (seq![s@.subrange(start as int, j as int)] + ws_tokens(
                    s@.skip(j as int),
                )) =~= views_of(tokens@.push(token)) + ws_tokens(s@.skip(j as int)));
            }
            tokens.push(token);
            i = j;
        }
    }
    proof {
        assert(s@.skip(len as int) =~= Seq::<char>::empty());
        assert(views_of(tokens@) + ws_tokens(s@.skip(len as int)) =~= views_of(tokens@));
    }
    tokens
}

/// A decimal digit.
pub open spec fn is_dec_digit(c: char) -> bool {
    '0' <= c && c <= '9'
}

/// `s` is a plain decimal numeral: one or more digits and nothing else.
pub open spec fn is_dec_numeral(s: Seq<char>) -> bool {
    s.len() > 0 && forall|i: int| 0 <= i < s.len() ==> is_dec_digit(#[trigger] s[i])
}

/// The value of the decimal numeral `s`.
pub open spec fn dec_value(s: Seq<char>) -> nat
    decreases s.len(),
{
    if s.len() == 0 {
        0
    } else {
        (dec_value(s.drop_last()) * 10 + (s.last() as int - '0' as int)) as nat
    }
}

/// Reads `s` as a decimal u64; `None` when `s` is not a plain numeral
/// or its value does not fit.
pub fn parse_u64(s: &str) -> (r: Option<u64>)
    ensures
        match r {
            Some(v) => is_dec_numeral(s@) && v == dec_value(s@) && dec_value(s@) <= u64::MAX,
            None => !is_dec_numeral(s@) || dec_value(s@) > u64::MAX,
        },
{
    let len = s.unicode_len();
    if len == 0 {
        return None;
    }
    let mut value: u64 = 0;
    let mut i: usize = 0;
    while i < len
        invariant
            i <= len,
            len == s@.len(),
            forall|k: int| 0 <= k < i ==> is_dec_digit(#[trigger] s@[k]),
            value == dec_value(s@.take(i as int)),
        decreases len - i,
    {
        let c = s.get_char(i);
        if c < '0' || c > '9' {
            assert(!is_dec_digit(s@[i as int]));
            return None;
        }
        let d: u64 = (c as u32 as u64) - 48;
        let q: u64 = (u64::MAX - d) / 10;
        proof {
            vstd::arithmetic::div_mod::lemma_fundamental_div_mod((u64::MAX - d) as int, 10);
            assert(s@.take(i + 1 as int).drop_last() =~= s@.take(i as int));
            assert(s@.take(i + 1 as int).last() == s@[i as int]);
        }
        if value > q {
            proof {
                if is_dec_numeral(s@) {
                    lemma_dec_value_prefix(s@, i + 1 as int);
                }
            }
            return None;
        }
        value = value * 10 + d;
        i += 1;
    }
    proof {
        assert(s@.take(len as int) =~= s@);
    }
    Some(value)
}

/// The value of a numeral is at least the value of any of its prefixes.
proof fn lemma_dec_value_prefix(s: Seq<char>, m: int)
    requires
        0 <= m <= s.len(),
        forall|k: int| 0 <= k < s.len() ==> is_dec_digit(#[trigger] s[k]),
    ensures
        dec_value(s) >= dec_value(s.take(m)),
    decreases s.len() - m,
{
    if m == s.len() {
        assert(s.take(m) =~= s);
    } else {
        lemma_dec_value_prefix(s, m + 1);
        assert(s.take(m + 1).drop_last() =~= s.take(m));
        assert(s.take(m + 1).last() == s[m]);
        assert(dec_value(s.take(m)) * 10 >= dec_value(s.take(m))) by (nonlinear_arith);
    }
}

/// The lines of `s`: the pieces between newline characters.
pub open spec fn line_seqs(s: Seq<char>) -> Seq<Seq<char>>
    decreases s.len(),
{
    if s.len() == 0 {
        seq![Seq::<char>::empty()]
    } else if s[0] == '\n' {
        seq![Seq::<char>::empty()] + line_seqs(s.drop_first())
    } else {
        let rest = line_seqs(s.drop_first());
        seq![seq![s[0]] + rest[0]] + rest.drop_first()
    }
}

proof fn lemma_line_seqs_len(s: Seq<char>)
    ensures
        line_seqs(s).len() >= 1,
    decreases s.len(),
{
    if s.len() == 0 {
    } else {
        lemma_line_seqs_len(s.drop_first());
    }
}

/// The second line of `s`, where one exists.
pub fn second_line(s: &str) -> (r: Option<String>)
    ensures
        match r {
            Some(l) => line_seqs(s@).len() >= 2 && l@ == line_seqs(s@)[1],
            None => line_seqs(s@).len() < 2,
        },
{
    let len = s.unicode_len();
    let mut i: usize = 0;
    // find the first newline
    while i < len
        invariant
            i <= len,
            len == s@.len(),
            forall|k: int| 0 <= k < i ==> s@[k] != '\n',
        ensures
            i <= len,
            forall|k: int| 0 <= k < i ==> s@[k] != '\n',
            i == len || s@[i as int] == '\n',
        decreases len - i,
    {
        if s.get_char(i) == '\n' {
            break ;
        }
        i += 1;
    }
    if i == len {
        proof {
            lemma_line_count_no_newline(s@);
        }
        return None;
    }
    let start = i + 1;
    let mut j = start;
    while j < len
        invariant
            start <= j <= len,
            len == s@.len(),
            forall|k: int| start <= k < j ==> s@[k] != '\n',
        ensures
            start <= j <= len,
            forall|k: int| start <= k < j ==> s@[k] != '\n',
            j == len || s@[j as int] == '\n',
        decreases len - j,
    {
        if s.get_char(j) == '\n' {
            break ;
        }
        j += 1;
    }
    let line = s.substring_char(start, j).to_owned();
    proof {
        lemma_second_line(s@, i as int, j as int);
    }
    Some(line)
}

proof fn lemma_line_count_no_newline(s: Seq<char>)
    requires
        forall|k: int| 0 <= k < s.len() ==> s[k] != '\n',
    ensures
        line_seqs(s).len() == 1,
    decreases s.len(),
{
    if s.len() > 0 {
        lemma_line_count_no_newline(s.drop_first());
    }
}

proof fn lemma_second_line(s: Seq<char>, i: int, j: int)
    requires
        0 <= i < s.len(),
        i < j <= s.len(),
        forall|k: int| 0 <= k < i ==> s[k] != '\n',
        s[i] == '\n',
        forall|k: int| i + 1 <= k < j ==> s[k] != '\n',
        j == s.len() || s[j] == '\n',
    ensures
        line_seqs(s).len() >= 2,
        line_seqs(s)[1] == s.subrange(i + 1, j),
    decreases i,
{
    if i == 0 {
        let rest = s.drop_first();
        lemma_line_seqs_len(rest);
        lemma_first_line(rest, j - 1);
        assert(rest.subrange(0, j - 1) =~= s.subrange(1, j));
    } else {
        lemma_second_line(s.drop_first(), i - 1, j - 1);
        assert(s.drop_first().subrange(i, j - 1) =~= s.subrange(i + 1, j));
        let rest = line_seqs(s.drop_first());
        assert(line_seqs(s)[1] == (seq![seq![s[0]] + rest[0]] + rest.drop_first())[1]);
        assert(rest.drop_first()[0] == rest[1]);
    }
}

proof fn lemma_first_line(s: Seq<char>, j: int)
    requires
        0 <= j <= s.len(),
        forall|k: int| 0 <= k < j ==> s[k] != '\n',
        j == s.len() || s[j] == '\n',
    ensures
        line_seqs(s)[0] == s.subrange(0, j),
    decreases j,
{
    if j == 0 {
        assert(s.subrange(0, 0) =~= Seq::<char>::empty());
        if s.len() > 0 && s[0] != '\n' {
        }
    } else {
        lemma_first_line(s.drop_first(), j - 1);
        lemma_line_seqs_len(s.drop_first());
        assert(s.drop_first().subrange(0, j - 1) =~= s.subrange(1, j));
        assert(s.subrange(0, j) =~= seq![s[0]] + s.subrange(1, j));
    }
}


fn match_at(hay: &str, needle: &str, i: usize) -> (r: bool)
    requires
        i + needle@.len() <= hay@.len(),
    ensures
        r == (hay@.subrange(i as int, i + needle@.len()) == needle@),
{
    let hay_total = hay.unicode_len();
    let needle_len = needle.unicode_len();
    let mut k: usize = 0;
    while k < needle_len
        invariant
            k <= needle_len,
            needle_len == needle@.len(),
            hay_total == hay@.len(),
            i + needle@.len() <= hay@.len(),
            forall|q: int| 0 <= q < k ==> hay@[i + q] == needle@[q],
        decreases needle_len - k,
    {
        if hay.get_char(i + k) != needle.get_char(k) {
            proof {
                assert(hay@.subrange(i as int, i + needle@.len())[k as int] != needle@[k as int]);
            }
            return false;
        }
        k += 1;
    }
    proof {
        assert(hay@.subrange(i as int, i + needle@.len()) =~= needle@);
    }
    true
}

/// Whether `hay` holds `needle` as a contiguous piece.
pub fn contains_sub(hay: &str, needle: &str) -> (r: bool)
    ensures
        r == contains_seq(hay@, needle@),
{
    let hay_len = hay.unicode_len();
    let needle_len = needle.unicode_len();
    if needle_len > hay_len {
        return false;
    }
    if needle_len == 0 {
        proof {
            assert(hay@.subrange(0, 0 + needle@.len() as int) =~= needle@);
        }
        return true;
    }
    let mut i: usize = 0;
    let last_start = hay_len - needle_len;
    while i <= last_start
        invariant
            i <= last_start + 1,
            last_start == hay_len - needle_len,
            1 <= needle_len <= hay_len,
            hay_len == hay@.len(),
            needle_len == needle@.len(),
            forall|q: int|
                0 <= q < i ==> #[trigger] hay@.subrange(q, q + needle@.len()) != needle@,
        decreases hay_len - i,
    {
        if match_at(hay, needle, i) {
            return true;
        }
        i += 1;
    }
    proof {
        assert forall|q: int|
            0 <= q && q + needle@.len() <= hay@.len() implies #[trigger] hay@.subrange(
            q,
            q + needle@.len(),
        ) != needle@ by {
            assert(q < i);
        }
    }
    false
}

/// `p` is the position of the last dot of the final path component of
/// `s`: a dot with no dot and no slash after it.
pub open spec fn ext_dot_at(s: Seq<char>, p: int) -> bool {
    0 <= p < s.len() && s[p] == '.' && (forall|k: int|
        p < k < s.len() ==> (#[trigger] s[k]) != '.' && s[k] != '/')
}

/// At most one position can be the final component's last dot.
pub proof fn lemma_ext_dot_unique(s: Seq<char>, p1: int, p2: int)
    requires
        ext_dot_at(s, p1),
        ext_dot_at(s, p2),
    ensures
        p1 == p2,
{
    if p1 < p2 {
        assert(s[p2] != '.');
    } else if p2 < p1 {
        assert(s[p1] != '.');
    }
}

/// Splits a file path at the extension dot of its final component: the
/// part before the dot and the part after it.  `None` when the final
/// component has no dot, or only a leading one (a hidden file).
pub fn split_extension(name: &str) -> (r: Option<(String, String)>)
    ensures
        match r {
            Some((stem, ext)) => exists|p: int|
                #[trigger] ext_dot_at(name@, p) && p > 0 && name@[p - 1] != '/' && stem@
                    == name@.take(p) && ext@ == name@.skip(p + 1),
            None => forall|p: int|
                #[trigger] ext_dot_at(name@, p) ==> p == 0 || name@[p - 1] == '/',
        },
{
    let len = name.unicode_len();
    let mut i = len;
    while i > 0
        invariant
            i <= len,
            len == name@.len(),
            forall|j: int| i <= j < len ==> (#[trigger] name@[j]) != '.' && name@[j] != '/',
        decreases i,
    {
        let c = name.get_char(i - 1);
        if c == '/' {
            proof {
                assert forall|p: int| #[trigger] ext_dot_at(name@, p) implies p == 0 || name@[p
                    - 1] == '/' by {
                    if p < i - 1 {
                        assert(name@[i - 1] != '/');
                    } else {
                        assert(name@[p] != '.');
                    }
                }
            }
            return None;
        }
        if c == '.' {
            if i == 1 || name.get_char(i - 2) == '/' {
                proof {
                    assert forall|p: int| #[trigger] ext_dot_at(name@, p) implies p == 0
                        || name@[p - 1] == '/' by {
                        if p < i - 1 {
                            assert(name@[i - 1] != '.');
                        } else if p > i - 1 {
                            assert(name@[p] != '.');
                        }
                    }
                }
                return None;
            }
            let stem = name.substring_char(0, i - 1).to_owned();
            let ext = name.substring_char(i, len).to_owned();
            proof {
                assert(ext_dot_at(name@, i - 1));
            }
            return Some((stem, ext));
        }
        i -= 1;
    }
    proof {
        assert forall|p: int| #[trigger] ext_dot_at(name@, p) implies p == 0 || name@[p - 1]
            == '/' by {
            assert(name@[p] != '.');
        }
    }
    None
}

/// How many leading whitespace characters `s` has.
pub open spec fn ws_prefix_len(s: Seq<char>) -> nat
    decreases s.len(),
{
    if s.len() == 0 || !is_ws(s[0]) {
        0
    } else {
        1 + ws_prefix_len(s.drop_first())
    }
}

pub proof fn lemma_ws_prefix_at(s: Seq<char>, t: int)
    requires
        0 <= t <= s.len(),
        forall|k: int| 0 <= k < t ==> is_ws(#[trigger] s[k]),
        t == s.len() || !is_ws(s[t]),
    ensures
        ws_prefix_len(s) == t,
    decreases t,
{
    if t > 0 {
        lemma_ws_prefix_at(s.drop_first(), t - 1);
    }
}

} // verus!
