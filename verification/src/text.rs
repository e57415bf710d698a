//! Verified text utilities: character-vector views of strings, substring
//! search, splitting, trimming, case folding, and decimal formatting and
//! parsing. All free-text parsing in this crate is built on these.

use vstd::prelude::*;

verus! {

/// Relies on `String::push`: appends one character to the end of the string.
#[verifier::external_body]
pub fn push_char(s: &mut String, c: char)
    ensures
        final(s)@ == old(s)@.push(c),
{
    s.push(c);
}

/// The characters of a string slice, as a vector.
pub fn str_chars(s: &str) -> (v: Vec<char>)
    ensures
        v@ == s@,
{
    let n = s.unicode_len();
    let mut v: Vec<char> = Vec::new();
    let mut i: usize = 0;
    while i < n
        invariant
            i <= n,
            n == s@.len(),
            v@ == s@.subrange(0, i as int),
        decreases n - i,
    {
        v.push(s.get_char(i));
        assert(v@ =~= s@.subrange(0, i + 1 as int));
        i = i + 1;
    }
    assert(v@ =~= s@);
    v
}

/// A string holding exactly the given characters.
pub fn chars_string(v: &Vec<char>) -> (s: String)
    ensures
        s@ == v@,
{
    let mut s = String::new();
    let mut i: usize = 0;
    while i < v.len()
        invariant
            i <= v@.len(),
            s@ == v@.subrange(0, i as int),
        decreases v@.len() - i,
    {
        push_char(&mut s, v[i]);
        assert(s@ =~= v@.subrange(0, i + 1 as int));
        i = i + 1;
    }
    assert(s@ =~= v@);
    s
}

/// Character-wise equality of two string slices.
pub fn str_eq_str(a: &str, b: &str) -> (r: bool)
    ensures
        r == (a@ == b@),
{
    let na = a.unicode_len();
    let nb = b.unicode_len();
    if na != nb {
        return false;
    }
    let mut i: usize = 0;
    while i < na
        invariant
            i <= na,
            na == a@.len(),
            na == b@.len(),
            forall|k: int| 0 <= k < i ==> a@[k] == b@[k],
        decreases na - i,
    {
        if a.get_char(i) != b.get_char(i) {
            return false;
        }
        i = i + 1;
    }
    proof {
        assert(a@ =~= b@);
    }
    true
}

/// Character-wise equality of two character vectors.
pub fn chars_eq(a: &Vec<char>, b: &Vec<char>) -> (r: bool)
    ensures
        r == (a@ == b@),
{
    let na = a.len();
    let nb = b.len();
    if na != nb {
        return false;
    }
    let mut i: usize = 0;
    while i < na
        invariant
            i <= na,
            na == a@.len(),
            na == b@.len(),
            forall|k: int| 0 <= k < i ==> a@[k] == b@[k],
        decreases na - i,
    {
        if a[i] != b[i] {
            return false;
        }
        i = i + 1;
    }
    proof {
        assert(a@ =~= b@);
    }
    true
}

/// Copy of the character range `[from, to)` of `v`.
pub fn subvec(v: &Vec<char>, from: usize, to: usize) -> (r: Vec<char>)
    requires
        from <= to <= v@.len(),
    ensures
        r@ == v@.subrange(from as int, to as int),
{
    let mut r: Vec<char> = Vec::new();
    let mut i: usize = from;
    while i < to
        invariant
            from <= i <= to <= v@.len(),
            r@ == v@.subrange(from as int, i as int),
        decreases to - i,
    {
        r.push(v[i]);
        assert(r@ =~= v@.subrange(from as int, i + 1 as int));
        i = i + 1;
    }
    r
}

/// Appends the characters of `src` to `dst`.
pub fn append_chars(dst: &mut Vec<char>, src: &Vec<char>)
    ensures
        final(dst)@ == old(dst)@ + src@,
{
    let n = src.len();
    let mut i: usize = 0;
    while i < n
        invariant
            i <= n,
            n == src@.len(),
            dst@ == old(dst)@ + src@.subrange(0, i as int),
        decreases n - i,
    {
        dst.push(src[i]);
        assert(dst@ =~= old(dst)@ + src@.subrange(0, i + 1 as int));
        i = i + 1;
    }
    assert(dst@ =~= old(dst)@ + src@);
}

/// The first position at or after `at` where `pat` occurs in `s`, if any.
pub open spec fn first_match_at(s: Seq<char>, pat: Seq<char>, at: int) -> Option<int>
    decreases s.len() - at when 0 <= at <= s.len()
{
    if at + pat.len() > s.len() {
        None
    } else if pat.len() == 0 || s.subrange(at, at + pat.len() as int) == pat {
        Some(at)
    } else {
        first_match_at(s, pat, at + 1)
    }
}

/// The first occurrence of `pat` in `s`.
pub open spec fn first_match(s: Seq<char>, pat: Seq<char>) -> Option<int> {
    first_match_at(s, pat, 0)
}

/// Whether `pat` occurs anywhere in `s`.
pub open spec fn contains_seq(s: Seq<char>, pat: Seq<char>) -> bool {
    first_match(s, pat) is Some
}

/// What a successful match means, and that it is the first one.
pub proof fn lemma_first_match_at(s: Seq<char>, pat: Seq<char>, at: int)
    requires
        0 <= at <= s.len(),
    ensures
        match first_match_at(s, pat, at) {
            Some(i) => at <= i && i + pat.len() <= s.len() && s.subrange(i, i + pat.len() as int)
                == pat && forall|j: int|
                at <= j < i ==> #[trigger] s.subrange(j, j + pat.len() as int) != pat,
            None => forall|j: int|
                at <= j && j + pat.len() <= s.len() ==> #[trigger] s.subrange(
                    j,
                    j + pat.len() as int,
                ) != pat,
        },
    decreases s.len() - at,
{
    if at + pat.len() > s.len() {
    } else if pat.len() == 0 || s.subrange(at, at + pat.len() as int) == pat {
        if pat.len() == 0 {
            assert(s.subrange(at, at + pat.len() as int) =~= pat);
        }
    } else {
        lemma_first_match_at(s, pat, at + 1);
    }
}

/// Searches `s` for `pat`, starting at position `from`.
pub fn find_sub_from(s: &Vec<char>, pat: &Vec<char>, from: usize) -> (r: Option<usize>)
    requires
        from <= s@.len(),
    ensures
        match r {
            Some(i) => from <= i && first_match_at(s@, pat@, from as int) == Some(i as int),
            None => first_match_at(s@, pat@, from as int) is None,
        },
{
    let n = s.len();
    let m = pat.len();
    if m == 0 {
        assert(s@.subrange(from as int, from as int) =~= pat@);
        return Some(from);
    }
    if m > n || from > n - m {
        assert(from + m > n);
        assert(first_match_at(s@, pat@, from as int) is None);
        return None;
    }
    let mut i: usize = from;
    while i <= n - m
        invariant
            from <= i,
            i <= n - m + 1,
            m <= n,
            n == s@.len(),
            m == pat@.len(),
            first_match_at(s@, pat@, from as int) == first_match_at(s@, pat@, i as int),
        decreases n - i,
    {
        let mut k: usize = 0;
        let mut matched: bool = true;
        while k < m
            invariant
                0 <= k <= m,
                i + m <= n,
                n == s@.len(),
                m == pat@.len(),
                matched == (forall|t: int| 0 <= t < k ==> s@[i + t] == pat@[t]),
            decreases m - k,
        {
            if s[i + k] != pat[k] {
                proof {
                    let w = k as int;
                    assert(0 <= w < m && s@[i + w] != pat@[w]);
                }
                matched = false;
                k = m;
            } else {
                proof {
                    if matched {
                        assert forall|t: int| 0 <= t < k + 1 implies s@[i + t] == pat@[t] by {
                            if t < k {
                            } else {
                                assert(t == k);
                            }
                        }
                    } else {
                        let w = choose|t: int| 0 <= t < k && s@[i + t] != pat@[t];
                        assert(0 <= w < k + 1 && s@[i + w] != pat@[w]);
                    }
                }
                k = k + 1;
            }
        }
        if matched {
            assert(s@.subrange(i as int, i + m as int) =~= pat@);
            return Some(i);
        }
        assert(s@.subrange(i as int, i + m as int) != pat@) by {
            let w = choose|t: int| 0 <= t < m && s@[i + t] != pat@[t];
            assert(s@.subrange(i as int, i + m as int)[w] != pat@[w]);
        }
        i = i + 1;
    }
    assert(first_match_at(s@, pat@, i as int) is None);
    None
}

/// Searches the whole of `s` for `pat`.
pub fn find_sub(s: &Vec<char>, pat: &Vec<char>) -> (r: Option<usize>)
    ensures
        match r {
            Some(i) => first_match(s@, pat@) == Some(i as int),
            None => first_match(s@, pat@) is None,
        },
{
    find_sub_from(s, pat, 0)
}

/// Whether `pat` occurs anywhere in `s`.
pub fn contains_sub(s: &Vec<char>, pat: &Vec<char>) -> (r: bool)
    ensures
        r == contains_seq(s@, pat@),
{
    match find_sub_from(s, pat, 0) {
        Some(_) => true,
        None => false,
    }
}

/// The pieces of `s` between occurrences of the separator `sep`, in order.
/// A leading, trailing or doubled separator contributes an empty piece.
pub open spec fn split_on(s: Seq<char>, sep: Seq<char>) -> Seq<Seq<char>>
    decreases s.len() when sep.len() >= 1 via split_on_decreases
{
    match first_match(s, sep) {
        None => seq![s],
        Some(i) => seq![s.subrange(0, i)] + split_on(
            s.subrange(i + sep.len() as int, s.len() as int),
            sep,
        ),
    }
}

#[via_fn]
proof fn split_on_decreases(s: Seq<char>, sep: Seq<char>) {
    if sep.len() >= 1 {
        lemma_first_match_at(s, sep, 0);
    }
}

/// Splits `s` on every occurrence of `sep`.
pub fn split_sub(s: &Vec<char>, sep: &Vec<char>) -> (r: Vec<Vec<char>>)
    requires
        sep@.len() >= 1,
    ensures
        r@.len() == split_on(s@, sep@).len(),
        forall|i: int| 0 <= i < r@.len() ==> #[trigger] r@[i]@ == split_on(s@, sep@)[i],
    decreases s@.len(),
{
    proof {
        lemma_first_match_at(s@, sep@, 0);
    }
    match find_sub(s, sep) {
        None => {
            let piece = subvec(s, 0, s.len());
            assert(piece@ =~= s@);
            let mut r: Vec<Vec<char>> = Vec::new();
            r.push(piece);
            r
        },
        Some(i) => {
            let n = s.len();
            assert(i + sep@.len() <= s@.len());
            let piece = subvec(s, 0, i);
            let rest = subvec(s, i + sep.len(), n);
            let mut tail = split_sub(&rest, sep);
            let ghost tail_snap = tail@;
            let mut r: Vec<Vec<char>> = Vec::new();
            r.push(piece);
            r.append(&mut tail);
            proof {
                let whole = split_on(s@, sep@);
                assert(whole == seq![s@.subrange(0, i as int)] + split_on(rest@, sep@));
                assert(r@.len() == whole.len());
                assert forall|k: int| 0 <= k < r@.len() implies #[trigger] r@[k]@ == whole[k] by {
                    if k == 0 {
                    } else {
                        assert(r@[k] == tail_snap[k - 1]);
                    }
                }
            }
            r
        },
    }
}

/// A line with a trailing carriage return removed.
pub open spec fn strip_cr(l: Seq<char>) -> Seq<char> {
    if l.len() > 0 && l.last() == '\r' {
        l.drop_last()
    } else {
        l
    }
}

/// The lines of `text`: pieces between newlines, each without a trailing
/// carriage return, and without the empty piece a trailing newline leaves.
pub open spec fn lines_of(text: Seq<char>) -> Seq<Seq<char>> {
    let pieces = split_on(text, seq!['\n']);
    let kept = if pieces.len() > 0 && pieces.last().len() == 0 {
        pieces.drop_last()
    } else {
        pieces
    };
    kept.map_values(|l: Seq<char>| strip_cr(l))
}

/// Cuts `text` into lines.
pub fn split_lines(text: &Vec<char>) -> (r: Vec<Vec<char>>)
    ensures
        r@.len() == lines_of(text@).len(),
        forall|i: int| 0 <= i < r@.len() ==> #[trigger] r@[i]@ == lines_of(text@)[i],
{
    let mut nl: Vec<char> = Vec::new();
    nl.push('\n');
    proof {
        assert(nl@ =~= seq!['\n']);
    }
    let mut pieces = split_sub(text, &nl);
    let ghost spec_pieces = split_on(text@, seq!['\n']);
    if pieces.len() > 0 && pieces[pieces.len() - 1].len() == 0 {
        let ghost before = pieces@;
        pieces.pop();
        proof {
            assert(pieces@ =~= before.drop_last());
            assert(spec_pieces.last().len() == 0);
        }
    }
    let ghost kept = if spec_pieces.len() > 0 && spec_pieces.last().len() == 0 {
        spec_pieces.drop_last()
    } else {
        spec_pieces
    };
    proof {
        assert(pieces@.len() == kept.len());
        assert(forall|k: int| 0 <= k < pieces@.len() ==> #[trigger] pieces@[k]@ == kept[k]);
    }
    let n = pieces.len();
    let mut out: Vec<Vec<char>> = Vec::new();
    let mut i: usize = 0;
    while i < n
        invariant
            i <= n,
            n == pieces@.len(),
            n == kept.len(),
            forall|k: int| 0 <= k < n ==> #[trigger] pieces@[k]@ == kept[k],
            out@.len() == i,
            forall|k: int| 0 <= k < i ==> #[trigger] out@[k]@ == strip_cr(kept[k]),
        decreases n - i,
    {
        let p = &pieces[i];
        let m = p.len();
        if m > 0 && p[m - 1] == '\r' {
            let stripped = subvec(p, 0, m - 1);
            proof {
                assert(stripped@ =~= p@.drop_last());
            }
            out.push(stripped);
        } else {
            let copy = subvec(p, 0, m);
            proof {
                assert(copy@ =~= p@);
            }
            out.push(copy);
        }
        i = i + 1;
    }
    proof {
        assert(lines_of(text@) =~= kept.map_values(|l: Seq<char>| strip_cr(l)));
    }
    out
}

/// Whitespace, as the trimming of source fields understands it.
pub open spec fn is_space(c: char) -> bool {
    c == ' ' || c == '\t' || c == '\n' || c == '\r' || c == '\u{0b}' || c == '\u{0c}'
}

/// Whether `c` counts as whitespace for trimming.
pub fn is_space_char(c: char) -> (r: bool)
    ensures
        r == is_space(c),
{
    c == ' ' || c == '\t' || c == '\n' || c == '\r' || c == '\u{0b}' || c == '\u{0c}'
}

/// `s` without its leading whitespace.
pub open spec fn trim_left(s: Seq<char>) -> Seq<char>
    decreases s.len(),
{
    if s.len() > 0 && is_space(s[0]) {
        trim_left(s.drop_first())
    } else {
        s
    }
}

/// `s` without its trailing whitespace.
pub open spec fn trim_right(s: Seq<char>) -> Seq<char>
    decreases s.len(),
{
    if s.len() > 0 && is_space(s[s.len() - 1]) {
        trim_right(s.drop_last())
    } else {
        s
    }
}

/// `s` without leading and trailing whitespace.
pub open spec fn trim_spec(s: Seq<char>) -> Seq<char> {
    trim_right(trim_left(s))
}

/// Helper: trim_left of a suffix-slice viewpoint.
proof fn lemma_trim_left_step(s: Seq<char>, a: int)
    requires
        0 <= a <= s.len(),
        forall|k: int| 0 <= k < a ==> is_space(s[k]),
    ensures
        trim_left(s) == trim_left(s.subrange(a, s.len() as int)),
    decreases a,
{
    if a == 0 {
        assert(s.subrange(0, s.len() as int) =~= s);
    } else {
        assert(s.len() > 0 && is_space(s[0]));
        assert(s.drop_first() =~= s.subrange(1, s.len() as int));
        lemma_trim_left_step(s.subrange(1, s.len() as int), a - 1);
        assert(s.subrange(1, s.len() as int).subrange(a - 1, s.len() - 1) =~= s.subrange(
            a,
            s.len() as int,
        ));
    }
}

/// Helper: trim_right of a prefix-slice viewpoint.
proof fn lemma_trim_right_step(s: Seq<char>, b: int)
    requires
        0 <= b <= s.len(),
        forall|k: int| b <= k < s.len() ==> is_space(s[k]),
    ensures
        trim_right(s) == trim_right(s.subrange(0, b)),
    decreases s.len() - b,
{
    if b == s.len() {
        assert(s.subrange(0, b) =~= s);
    } else {
        assert(is_space(s[s.len() - 1]));
        assert(s.drop_last() =~= s.subrange(0, s.len() - 1));
        lemma_trim_right_step(s.subrange(0, s.len() - 1), b);
        assert(s.subrange(0, s.len() - 1).subrange(0, b) =~= s.subrange(0, b));
    }
}

/// The characters of `v` with leading and trailing whitespace removed.
pub fn trim_chars(v: &Vec<char>) -> (r: Vec<char>)
    ensures
        r@ == trim_spec(v@),
{
    let n = v.len();
    let mut a: usize = 0;
    while a < n && is_space_char(v[a])
        invariant
            a <= n,
            n == v@.len(),
            forall|k: int| 0 <= k < a ==> is_space(v@[k]),
        decreases n - a,
    {
        a = a + 1;
    }
    proof {
        lemma_trim_left_step(v@, a as int);
        if a < n {
            assert(v@.subrange(a as int, n as int)[0] == v@[a as int]);
        }
        assert(trim_left(v@) == v@.subrange(a as int, n as int));
    }
    let mut b: usize = n;
    while b > a && is_space_char(v[b - 1])
        invariant
            a <= b <= n,
            n == v@.len(),
            forall|k: int| b <= k < n ==> is_space(v@[k]),
        decreases b,
    {
        b = b - 1;
    }
    let r = subvec(v, a, b);
    proof {
        let left = v@.subrange(a as int, n as int);
        lemma_trim_right_step(left, b - a);
        assert(left.subrange(0, b - a) =~= v@.subrange(a as int, b as int));
        if b > a {
            assert(left[b - a - 1] == v@[b - 1]);
            assert(!is_space(left.subrange(0, b - a)[b - a - 1]));
        }
        assert(trim_right(left) == left.subrange(0, b - a));
    }
    r
}

/// Uppercase image of one character, over the ASCII letters only.
pub open spec fn ascii_upper(c: char) -> char {
    if 'a' <= c && c <= 'z' {
        ((c as u8) - 0x20) as char
    } else {
        c
    }
}

/// Lowercase image of one character, over the ASCII letters only.
pub open spec fn ascii_lower(c: char) -> char {
    if 'A' <= c && c <= 'Z' {
        ((c as u8) + 0x20) as char
    } else {
        c
    }
}

/// The sequence with every ASCII letter raised to upper case.
pub open spec fn upper_seq(s: Seq<char>) -> Seq<char> {
    s.map_values(|c: char| ascii_upper(c))
}

/// The sequence with every ASCII letter lowered to lower case.
pub open spec fn lower_seq(s: Seq<char>) -> Seq<char> {
    s.map_values(|c: char| ascii_lower(c))
}

/// ASCII-uppercases every character of `v`.
pub fn upper_chars(v: &Vec<char>) -> (r: Vec<char>)
    ensures
        r@ == upper_seq(v@),
{
    let mut r: Vec<char> = Vec::new();
    let mut i: usize = 0;
    while i < v.len()
        invariant
            i <= v@.len(),
            r@ == upper_seq(v@.subrange(0, i as int)),
        decreases v@.len() - i,
    {
        let c = v[i];
        let u: char = if 'a' <= c && c <= 'z' {
            ((c as u8) - 0x20) as char
        } else {
            c
        };
        r.push(u);
        assert(r@ =~= upper_seq(v@.subrange(0, i + 1 as int)));
        i = i + 1;
    }
    assert(v@.subrange(0, v@.len() as int) =~= v@);
    r
}

/// ASCII-lowercases every character of `v`.
pub fn lower_chars(v: &Vec<char>) -> (r: Vec<char>)
    ensures
        r@ == lower_seq(v@),
{
    let mut r: Vec<char> = Vec::new();
    let mut i: usize = 0;
    while i < v.len()
        invariant
            i <= v@.len(),
            r@ == lower_seq(v@.subrange(0, i as int)),
        decreases v@.len() - i,
    {
        let c = v[i];
        let u: char = if 'A' <= c && c <= 'Z' {
            ((c as u8) + 0x20) as char
        } else {
            c
        };
        r.push(u);
        assert(r@ =~= lower_seq(v@.subrange(0, i + 1 as int)));
        i = i + 1;
    }
    assert(v@.subrange(0, v@.len() as int) =~= v@);
    r
}

/// The decimal digit character for a value below ten.
pub open spec fn digit_of(d: int) -> char {
    if d == 0 {
        '0'
    } else if d == 1 {
        '1'
    } else if d == 2 {
        '2'
    } else if d == 3 {
        '3'
    } else if d == 4 {
        '4'
    } else if d == 5 {
        '5'
    } else if d == 6 {
        '6'
    } else if d == 7 {
        '7'
    } else if d == 8 {
        '8'
    } else {
        '9'
    }
}

/// The usual decimal rendering of `n`, without sign or padding.
pub open spec fn dec_rep(n: int) -> Seq<char>
    decreases n when n >= 0
{
    if n < 10 {
        seq![digit_of(n)]
    } else {
        dec_rep(n / 10).push(digit_of(n % 10))
    }
}

/// The decimal digit character for `d`.
fn digit_char(d: u64) -> (c: char)
    requires
        d < 10,
    ensures
        c == digit_of(d as int),
{
    match d {
        0 => '0',
        1 => '1',
        2 => '2',
        3 => '3',
        4 => '4',
        5 => '5',
        6 => '6',
        7 => '7',
        8 => '8',
        _ => '9',
    }
}

/// The decimal rendering of `n`, as characters.
pub fn u64_dec_chars(n: u64) -> (r: Vec<char>)
    ensures
        r@ == dec_rep(n as int),
    decreases n,
{
    if n < 10 {
        let mut r: Vec<char> = Vec::new();
        r.push(digit_char(n));
        assert(r@ =~= dec_rep(n as int));
        r
    } else {
        let mut r = u64_dec_chars(n / 10);
        r.push(digit_char(n % 10));
        r
    }
}

/// The decimal rendering of `n`, as a string.
pub fn u64_to_dec(n: u64) -> (s: String)
    ensures
        s@ == dec_rep(n as int),
{
    let v = u64_dec_chars(n);
    chars_string(&v)
}

/// Whether `c` is a decimal digit.
pub open spec fn is_digit(c: char) -> bool {
    '0' <= c && c <= '9'
}

/// The numeric value of a digit character.
pub open spec fn digit_val(c: char) -> int {
    c as int - '0' as int
}

/// The value of a digit string, most significant digit first.
pub open spec fn dec_val(s: Seq<char>) -> int
    decreases s.len(),
{
    if s.len() == 0 {
        0
    } else {
        dec_val(s.drop_last()) * 10 + digit_val(s.last())
    }
}

/// Whether every character of `s` is a decimal digit.
pub open spec fn all_digits(s: Seq<char>) -> bool {
    forall|i: int| 0 <= i < s.len() ==> is_digit(#[trigger] s[i])
}

/// What a string must look like for the 64-bit unsigned parse to succeed:
/// an optional leading plus sign, then at least one digit, and a value that
/// fits. This is the acceptance rule the numeric coercion layer uses for
/// string-tagged counters.
pub open spec fn parse_u64_spec(s: Seq<char>) -> Option<u64> {
    let body = if s.len() >= 1 && s[0] == '+' {
        s.drop_first()
    } else {
        s
    };
    if body.len() >= 1 && all_digits(body) && dec_val(body) <= u64::MAX as int {
        Some(dec_val(body) as u64)
    } else {
        None
    }
}

/// A digit string's value only grows as digits are appended.
proof fn lemma_dec_val_prefix_le(s: Seq<char>, n: int)
    requires
        all_digits(s),
        0 <= n <= s.len(),
    ensures
        0 <= dec_val(s.subrange(0, n)) <= dec_val(s),
    decreases s.len(),
{
    if s.len() == 0 {
        assert(s.subrange(0, n) =~= s);
    } else if n == s.len() {
        assert(s.subrange(0, n) =~= s);
        lemma_dec_val_prefix_le(s.drop_last(), s.len() - 1);
        assert(s.drop_last().subrange(0, s.len() - 1) =~= s.drop_last());
    } else {
        assert(all_digits(s.drop_last()));
        assert(s.drop_last().subrange(0, n) =~= s.subrange(0, n));
        lemma_dec_val_prefix_le(s.drop_last(), n);
        assert(dec_val(s.drop_last()) * 10 >= dec_val(s.drop_last())) by (nonlinear_arith)
            requires
                dec_val(s.drop_last()) >= 0,
        ;
        assert(digit_val(s.last()) >= 0);
    }
}

/// The numeric value of a digit character.
pub fn digit_value(c: char) -> (d: u64)
    requires
        is_digit(c),
    ensures
        d == digit_val(c),
        d < 10,
{
    match c {
        '0' => 0,
        '1' => 1,
        '2' => 2,
        '3' => 3,
        '4' => 4,
        '5' => 5,
        '6' => 6,
        '7' => 7,
        '8' => 8,
        _ => {
            assert(c == '9');
            9
        },
    }
}

/// Parses the digits of `v` as an unsigned 64-bit value, in the way the
/// coercion layer accepts string-tagged numbers.
pub fn parse_u64_chars(v: &Vec<char>) -> (r: Option<u64>)
    ensures
        r == parse_u64_spec(v@),
{
    let n = v.len();
    let start: usize = if n >= 1 && v[0] == '+' {
        1
    } else {
        0
    };
    let ghost body = if v@.len() >= 1 && v@[0] == '+' {
        v@.drop_first()
    } else {
        v@
    };
    proof {
        assert(body =~= v@.subrange(start as int, n as int));
    }
    if n == start {
        return None;
    }
    let mut acc: u64 = 0;
    let mut i: usize = start;
    while i < n
        invariant
            start <= i <= n,
            start < n,
            n == v@.len(),
            body == (if v@.len() >= 1 && v@[0] == '+' {
                v@.drop_first()
            } else {
                v@
            }),
            body == v@.subrange(start as int, n as int),
            all_digits(v@.subrange(start as int, i as int)),
            acc as int == dec_val(v@.subrange(start as int, i as int)),
        decreases n - i,
    {
        let c = v[i];
        if !('0' <= c && c <= '9') {
            proof {
                assert(!is_digit(c));
                assert(body[i - start] == c);
            }
            return None;
        }
        let d: u64 = digit_value(c);
        assert(d == digit_val(c) && d < 10);
        if acc > (u64::MAX - d) / 10 {
            proof {
                let pre = v@.subrange(start as int, i + 1 as int);
                assert(pre.drop_last() =~= v@.subrange(start as int, i as int));
                assert(pre.last() == c);
                assert forall|t: int| 0 <= t < pre.len() implies is_digit(#[trigger] pre[t]) by {
                    if t < pre.len() - 1 {
                        assert(pre[t] == v@.subrange(start as int, i as int)[t]);
                    }
                }
                assert(dec_val(pre) == acc * 10 + d);
                assert(acc * 10 + d > u64::MAX as int) by (nonlinear_arith)
                    requires
                        acc > (u64::MAX as int - d) / 10,
                        0 <= d < 10,
                        acc >= 0,
                ;
                if all_digits(body) {
                    lemma_dec_val_prefix_le(body, i + 1 - start);
                    assert(body.subrange(0, i + 1 - start) =~= pre);
                }
            }
            return None;
        }
        proof {
            assert(acc * 10 + d <= u64::MAX as int) by (nonlinear_arith)
                requires
                    acc <= (u64::MAX as int - d) / 10,
                    0 <= d < 10,
                    acc >= 0,
            ;
            let pre = v@.subrange(start as int, i + 1 as int);
            assert(pre.drop_last() =~= v@.subrange(start as int, i as int));
            assert(pre.last() == c);
            assert forall|t: int| 0 <= t < pre.len() implies is_digit(#[trigger] pre[t]) by {
                if t < pre.len() - 1 {
                    assert(pre[t] == v@.subrange(start as int, i as int)[t]);
                }
            }
        }
        acc = acc * 10 + d;
        i = i + 1;
    }
    proof {
        assert(v@.subrange(start as int, n as int) =~= body);
    }
    Some(acc)
}

/// Strict lexicographic order on character sequences, by code point.
pub open spec fn lex_lt(a: Seq<char>, b: Seq<char>) -> bool
    decreases a.len(),
{
    if b.len() == 0 {
        false
    } else if a.len() == 0 {
        true
    } else if a[0] < b[0] {
        true
    } else if b[0] < a[0] {
        false
    } else {
        lex_lt(a.drop_first(), b.drop_first())
    }
}

/// Compares two character vectors in lexicographic order.
pub fn chars_lt(a: &Vec<char>, b: &Vec<char>) -> (r: bool)
    ensures
        r == lex_lt(a@, b@),
{
    let mut i: usize = 0;
    let na = a.len();
    let nb = b.len();
    proof {
        assert(a@.subrange(0, na as int) =~= a@);
        assert(b@.subrange(0, nb as int) =~= b@);
    }
    while i < na && i < nb
        invariant
            i <= na,
            i <= nb,
            na == a@.len(),
            nb == b@.len(),
            lex_lt(a@, b@) == lex_lt(
                a@.subrange(i as int, na as int),
                b@.subrange(i as int, nb as int),
            ),
        decreases na - i,
    {
        let ca = a[i];
        let cb = b[i];
        let ghost sa = a@.subrange(i as int, na as int);
        let ghost sb = b@.subrange(i as int, nb as int);
        proof {
            assert(sa[0] == ca && sb[0] == cb);
        }
        if ca == cb {
            proof {
                assert(sa.drop_first() =~= a@.subrange(i + 1 as int, na as int));
                assert(sb.drop_first() =~= b@.subrange(i + 1 as int, nb as int));
            }
            i = i + 1;
        } else {
            return ca < cb;
        }
    }
    proof {
        let sa = a@.subrange(i as int, na as int);
        let sb = b@.subrange(i as int, nb as int);
        if i >= nb {
            assert(sb.len() == 0);
        } else {
            assert(sa.len() == 0 && sb.len() > 0);
        }
    }
    na < nb
}

/// Nothing is lexicographically below itself.
pub proof fn lemma_lex_lt_irrefl(a: Seq<char>)
    ensures
        !lex_lt(a, a),
    decreases a.len(),
{
    if a.len() > 0 {
        lemma_lex_lt_irrefl(a.drop_first());
    }
}

/// Two sequences neither of which is below the other are equal.
pub proof fn lemma_lex_lt_total(a: Seq<char>, b: Seq<char>)
    requires
        !lex_lt(a, b),
        !lex_lt(b, a),
    ensures
        a == b,
    decreases a.len(),
{
    if b.len() == 0 {
        if a.len() == 0 {
            assert(a =~= b);
        }
    } else if a.len() == 0 {
    } else if a[0] < b[0] {
    } else if b[0] < a[0] {
    } else {
        assert(a[0] == b[0]);
        lemma_lex_lt_total(a.drop_first(), b.drop_first());
        assert(a.drop_first().len() == a.len() - 1);
        assert(b.drop_first().len() == b.len() - 1);
        assert(a.drop_first() == b.drop_first());
        assert(a.drop_first().len() == b.drop_first().len());
        assert(a.len() == b.len());
        assert forall|i: int| 0 <= i < a.len() implies a[i] == b[i] by {
            if i > 0 {
                assert(a.drop_first()[i - 1] == b.drop_first()[i - 1]);
            }
        }
        assert(a =~= b);
    }
}

/// Strict lexicographic order is transitive.
pub proof fn lemma_lex_lt_trans(a: Seq<char>, b: Seq<char>, c: Seq<char>)
    requires
        lex_lt(a, b),
        lex_lt(b, c),
    ensures
        lex_lt(a, c),
    decreases a.len(),
{
    if c.len() == 0 {
    } else if a.len() == 0 {
    } else {
        if b.len() == 0 {
        } else {
            if a[0] < b[0] {
                if b[0] < c[0] {
                } else if c[0] < b[0] {
                } else {
                    assert(a[0] < c[0]);
                }
            } else if b[0] < a[0] {
            } else {
                if b[0] < c[0] {
                } else if c[0] < b[0] {
                } else {
                    lemma_lex_lt_trans(a.drop_first(), b.drop_first(), c.drop_first());
                }
            }
        }
    }
}

/// Whether `s` begins with `p`.
pub open spec fn starts_with(s: Seq<char>, p: Seq<char>) -> bool {
    p.len() <= s.len() && s.subrange(0, p.len() as int) == p
}

/// Tests whether `v` begins with the characters of `p`.
pub fn starts_with_sub(v: &Vec<char>, p: &Vec<char>) -> (r: bool)
    ensures
        r == starts_with(v@, p@),
{
    let m = p.len();
    if m > v.len() {
        return false;
    }
    let mut k: usize = 0;
    while k < m
        invariant
            k <= m,
            m == p@.len(),
            m <= v@.len(),
            forall|t: int| 0 <= t < k ==> v@[t] == p@[t],
        decreases m - k,
    {
        if v[k] != p[k] {
            assert(v@.subrange(0, m as int)[k as int] != p@[k as int]);
            return false;
        }
        k = k + 1;
    }
    assert(v@.subrange(0, m as int) =~= p@);
    true
}

/// The last position where `pat` occurs in `s`, if any.
pub open spec fn last_match(s: Seq<char>, pat: Seq<char>) -> Option<int>
    decreases s.len(),
{
    if pat.len() == 0 {
        Some(s.len() as int)
    } else if s.len() < pat.len() {
        None
    } else if s.subrange(s.len() - pat.len(), s.len() as int) == pat {
        Some(s.len() - pat.len())
    } else {
        last_match(s.drop_last(), pat)
    }
}

/// Tests whether `pat` occurs in `s` at position `i`.
fn match_at(s: &Vec<char>, pat: &Vec<char>, i: usize) -> (r: bool)
    requires
        i + pat@.len() <= s@.len(),
    ensures
        r == (s@.subrange(i as int, i + pat@.len() as int) == pat@),
{
    let m = pat.len();
    let sn = s.len();
    let mut k: usize = 0;
    while k < m
        invariant
            k <= m,
            m == pat@.len(),
            sn == s@.len(),
            i + m <= s@.len(),
            forall|t: int| 0 <= t < k ==> s@[i + t] == pat@[t],
        decreases m - k,
    {
        if s[i + k] != pat[k] {
            assert(s@.subrange(i as int, i + m as int)[k as int] != pat@[k as int]);
            return false;
        }
        k = k + 1;
    }
    assert(s@.subrange(i as int, i + m as int) =~= pat@);
    true
}

/// Finds the last occurrence of `pat` in `s`.
pub fn rfind_sub(s: &Vec<char>, pat: &Vec<char>) -> (r: Option<usize>)
    ensures
        match r {
            Some(i) => i + pat@.len() <= s@.len() && last_match(s@, pat@) == Some(i as int),
            None => last_match(s@, pat@) is None,
        },
{
    let n = s.len();
    let m = pat.len();
    if m == 0 {
        return Some(n);
    }
    if m > n {
        return None;
    }
    let mut end: usize = n;
    proof {
        assert(s@.subrange(0, n as int) =~= s@);
    }
    while end >= m
        invariant
            end <= n,
            1 <= m <= n,
            n == s@.len(),
            m == pat@.len(),
            last_match(s@, pat@) == last_match(s@.subrange(0, end as int), pat@),
        decreases end,
    {
        let ghost pre = s@.subrange(0, end as int);
        proof {
            assert(pre.subrange(pre.len() - m, pre.len() as int) =~= s@.subrange(
                end - m as int,
                end as int,
            ));
        }
        if match_at(s, pat, end - m) {
            return Some(end - m);
        }
        proof {
            assert(pre.drop_last() =~= s@.subrange(0, end - 1 as int));
        }
        end = end - 1;
    }
    proof {
        let pre = s@.subrange(0, end as int);
        assert(pre.len() < m);
    }
    None
}

/// The last position of `c` in `s`, if any.
pub open spec fn last_index_of(s: Seq<char>, c: char) -> Option<int>
    decreases s.len(),
{
    if s.len() == 0 {
        None
    } else if s.last() == c {
        Some(s.len() - 1)
    } else {
        last_index_of(s.drop_last(), c)
    }
}

/// Finds the last occurrence of the character `c` in `v`.
pub fn rfind_char(v: &Vec<char>, c: char) -> (r: Option<usize>)
    ensures
        match r {
            Some(i) => i < v@.len() && last_index_of(v@, c) == Some(i as int),
            None => last_index_of(v@, c) is None,
        },
{
    let mut i: usize = v.len();
    proof {
        assert(v@.subrange(0, i as int) =~= v@);
    }
    while i > 0
        invariant
            i <= v@.len(),
            last_index_of(v@, c) == last_index_of(v@.subrange(0, i as int), c),
        decreases i,
    {
        let ghost pre = v@.subrange(0, i as int);
        if v[i - 1] == c {
            proof {
                assert(pre.last() == c);
            }
            return Some(i - 1);
        }
        proof {
            assert(pre.last() != c);
            assert(pre.drop_last() =~= v@.subrange(0, i - 1 as int));
        }
        i = i - 1;
    }
    proof {
        assert(v@.subrange(0, 0) =~= Seq::<char>::empty());
    }
    None
}

} // verus!

