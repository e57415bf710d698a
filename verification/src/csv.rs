//! The quoted-CSV dialect used by tabular command output: fields are
//! comma-separated, a field may be quoted with `"`, a doubled `""` inside
//! quotes decodes to a literal quote, and a comma inside quotes does not
//! terminate the field. Header names are matched by substring to tolerate
//! source-specific decoration.

use vstd::prelude::*;
use crate::text::{chars_string, contains_seq, contains_sub, str_chars};

verus! {

/// The fields a line decodes to, continuing a field already begun.
/// `cur` is the text of the open field and `in_q` whether a quote is open.
pub open spec fn csv_fields(s: Seq<char>, cur: Seq<char>, in_q: bool) -> Seq<Seq<char>>
    decreases s.len(),
{
    if s.len() == 0 {
        seq![cur]
    } else {
        let c = s[0];
        if c == '"' && !in_q {
            csv_fields(s.drop_first(), cur, true)
        } else if c == '"' && in_q {
            if s.len() >= 2 && s[1] == '"' {
                csv_fields(s.subrange(2, s.len() as int), cur.push('"'), true)
            } else {
                csv_fields(s.drop_first(), cur, false)
            }
        } else if c == ',' && !in_q {
            seq![cur] + csv_fields(s.drop_first(), Seq::<char>::empty(), false)
        } else {
            csv_fields(s.drop_first(), cur.push(c), in_q)
        }
    }
}

/// What one line of quoted CSV decodes to.
pub open spec fn parse_csv_line_spec(line: Seq<char>) -> Seq<Seq<char>> {
    csv_fields(line, Seq::<char>::empty(), false)
}

/// Decodes one line of quoted CSV into its fields.
pub fn parse_csv_line(line: &str) -> (r: Vec<String>)
    ensures
        r@.len() == parse_csv_line_spec(line@).len(),
        forall|i: int| 0 <= i < r@.len() ==> #[trigger] r@[i]@ == parse_csv_line_spec(line@)[i],
{
    let v = str_chars(line);
    let n = v.len();
    let mut fields: Vec<String> = Vec::new();
    let mut cur: Vec<char> = Vec::new();
    let mut in_q: bool = false;
    let mut i: usize = 0;
    proof {
        assert(v@.subrange(0, n as int) =~= v@);
    }
    while i < n
        invariant
            i <= n,
            n == v@.len(),
            parse_csv_line_spec(v@) == views_of(fields@) + csv_fields(
                v@.subrange(i as int, n as int),
                cur@,
                in_q,
            ),
        decreases n - i,
    {
        let ghost rest = v@.subrange(i as int, n as int);
        proof {
            assert(rest[0] == v@[i as int]);
            assert(rest.drop_first() =~= v@.subrange(i + 1 as int, n as int));
        }
        let c = v[i];
        if c == '"' && !in_q {
            in_q = true;
            i = i + 1;
        } else if c == '"' && in_q {
            if i + 1 < n && v[i + 1] == '"' {
                proof {
                    assert(rest.len() >= 2 && rest[1] == '"');
                    assert(rest.subrange(2, rest.len() as int) =~= v@.subrange(
                        i + 2 as int,
                        n as int,
                    ));
                }
                cur.push('"');
                i = i + 2;
            } else {
                proof {
                    if i + 1 < n {
                        assert(rest[1] == v@[i + 1 as int]);
                    }
                }
                in_q = false;
                i = i + 1;
            }
        } else if c == ',' && !in_q {
            let ghost fields_snap = fields@;
            let done = chars_string(&cur);
            fields.push(done);
            cur = Vec::new();
            proof {
                assert(views_of(fields@) =~= views_of(fields_snap).push(done@));
                assert(views_of(fields_snap) + (seq![done@] + csv_fields(
                    rest.drop_first(),
                    Seq::<char>::empty(),
                    false,
                )) =~= views_of(fields@) + csv_fields(
                    rest.drop_first(),
                    Seq::<char>::empty(),
                    false,
                ));
            }
            i = i + 1;
        } else {
            cur.push(c);
            i = i + 1;
        }
    }
    let ghost fields_snap = fields@;
    let last = chars_string(&cur);
    fields.push(last);
    proof {
        assert(v@.subrange(n as int, n as int).len() == 0);
        assert(views_of(fields@) =~= views_of(fields_snap).push(last@));
        assert(views_of(fields_snap) + seq![last@] =~= views_of(fields@));
        assert forall|k: int| 0 <= k < fields@.len() implies #[trigger] fields@[k]@
            == parse_csv_line_spec(line@)[k] by {
            assert(views_of(fields@)[k] == fields@[k]@);
        }
    }
    fields
}

/// The views of a vector of strings.
pub open spec fn views_of(fs: Seq<String>) -> Seq<Seq<char>> {
    fs.map_values(|s: String| s@)
}

/// The first position whose header contains `pat` as a substring, if any.
pub open spec fn first_containing(hs: Seq<Seq<char>>, pat: Seq<char>) -> Option<int>
    decreases hs.len(),
{
    if hs.len() == 0 {
        None
    } else if contains_seq(hs[0], pat) {
        Some(0)
    } else {
        match first_containing(hs.drop_first(), pat) {
            Some(i) => Some(i + 1),
            None => None,
        }
    }
}

/// Resolves a column: the first header that contains `name` as a substring.
pub fn position_containing(headers: &Vec<String>, name: &str) -> (r: Option<usize>)
    ensures
        match r {
            Some(i) => i < headers@.len() && first_containing(views_of(headers@), name@) == Some(
                i as int,
            ),
            None => first_containing(views_of(headers@), name@) is None,
        },
{
    let pat = str_chars(name);
    let n = headers.len();
    let mut i: usize = 0;
    proof {
        assert(views_of(headers@).subrange(0, n as int) =~= views_of(headers@.subrange(0, n as int)));
    }
    while i < n
        invariant
            i <= n,
            n == headers@.len(),
            pat@ == name@,
            forall|k: int| 0 <= k < i ==> !contains_seq(views_of(headers@)[k], name@),
            shifted_match(views_of(headers@), name@, i as int),
        decreases n - i,
    {
        let h = str_chars(headers[i].as_str());
        if contains_sub(&h, &pat) {
            proof {
                lemma_first_containing(views_of(headers@), name@, i as int);
            }
            return Some(i);
        }
        i = i + 1;
    }
    proof {
        lemma_first_containing(views_of(headers@), name@, i as int);
    }
    None
}

/// Whether the first containing-match at or after position `at` is also the
/// first overall: no earlier header contains the pattern.
spec fn shifted_match(hs: Seq<Seq<char>>, pat: Seq<char>, at: int) -> bool {
    0 <= at <= hs.len() && forall|k: int| 0 <= k < at ==> !contains_seq(#[trigger] hs[k], pat)
}

/// Relates a scan position to the recursive first-containing definition.
proof fn lemma_first_containing(hs: Seq<Seq<char>>, pat: Seq<char>, at: int)
    requires
        shifted_match(hs, pat, at),
    ensures
        at < hs.len() && contains_seq(hs[at], pat) ==> first_containing(hs, pat) == Some(at),
        at == hs.len() ==> first_containing(hs, pat) is None,
    decreases at,
{
    if at == 0 {
        if hs.len() == 0 {
        }
    } else {
        assert(!contains_seq(hs[0], pat));
        lemma_first_containing(hs.drop_first(), pat, at - 1);
        if at < hs.len() && contains_seq(hs[at], pat) {
            assert(hs.drop_first()[at - 1] == hs[at]);
            assert(first_containing(hs.drop_first(), pat) == Some(at - 1));
        }
    }
}

} // verus!
