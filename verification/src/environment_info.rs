//! The environment probe: the machine-level environment variables, as
//! name/value pairs ordered by name. A name read twice keeps the later
//! value, as a keyed store would.

use vstd::prelude::*;
use crate::text::{chars_lt, lemma_lex_lt_total, lemma_lex_lt_trans, lex_lt, str_eq_str};

verus! {

/// One environment variable.
pub struct EnvVar {
    /// The variable's name.
    pub name: String,
    /// The variable's value.
    pub value: String,
}

/// The environment category.
pub struct EnvironmentInfo {
    /// The variables, ordered by name.
    pub variables: Vec<EnvVar>,
}

/// The pairs a variable list stands for.
pub open spec fn env_pairs(t: Seq<EnvVar>) -> Seq<(Seq<char>, Seq<char>)> {
    t.map_values(|e: EnvVar| (e.name@, e.value@))
}

/// One pair put into an ordered pair list: an existing name keeps its
/// place and takes the new value; a new name goes before the first
/// strictly greater one.
pub open spec fn env_insert(t: Seq<(Seq<char>, Seq<char>)>, k: Seq<char>, v: Seq<char>) -> Seq<
    (Seq<char>, Seq<char>),
>
    decreases t.len(),
{
    if t.len() == 0 {
        seq![(k, v)]
    } else if t[0].0 == k {
        seq![(k, v)] + t.drop_first()
    } else if lex_lt(k, t[0].0) {
        seq![(k, v)] + t
    } else {
        seq![t[0]] + env_insert(t.drop_first(), k, v)
    }
}

/// The ordered table the input pairs build up, first to last.
pub open spec fn env_table(pairs: Seq<(Seq<char>, Seq<char>)>) -> Seq<(Seq<char>, Seq<char>)>
    decreases pairs.len(),
{
    if pairs.len() == 0 {
        Seq::<(Seq<char>, Seq<char>)>::empty()
    } else {
        env_insert(env_table(pairs.drop_last()), pairs.last().0, pairs.last().1)
    }
}

/// Whether names strictly grow along a pair list: ordered by name, and no
/// name twice.
pub open spec fn env_sorted(t: Seq<(Seq<char>, Seq<char>)>) -> bool {
    forall|i: int, j: int| 0 <= i < j < t.len() ==> lex_lt((#[trigger] t[i]).0, (#[trigger] t[j]).0)
}

/// Law: the built table is ordered by name, with no name twice — whatever
/// order and repetition the input pairs had.
pub proof fn lemma_env_table_sorted(pairs: Seq<(Seq<char>, Seq<char>)>)
    ensures
        env_sorted(env_table(pairs)),
    decreases pairs.len(),
{
    if pairs.len() > 0 {
        lemma_env_table_sorted(pairs.drop_last());
        lemma_env_insert_sorted(env_table(pairs.drop_last()), pairs.last().0, pairs.last().1);
    }
}

/// Inserting keeps the strict order.
proof fn lemma_env_insert_sorted(t: Seq<(Seq<char>, Seq<char>)>, k: Seq<char>, v: Seq<char>)
    requires
        env_sorted(t),
    ensures
        env_sorted(env_insert(t, k, v)),
    decreases t.len(),
{
    let r = env_insert(t, k, v);
    if t.len() == 0 {
    } else if t[0].0 == k {
        assert forall|i: int, j: int| 0 <= i < j < r.len() implies lex_lt(
            (#[trigger] r[i]).0,
            (#[trigger] r[j]).0,
        ) by {
            assert(r[j] == t[j]);
            if i == 0 {
                assert(r[0].0 == t[0].0);
            } else {
                assert(r[i] == t[i]);
            }
        }
    } else if lex_lt(k, t[0].0) {
        assert forall|i: int, j: int| 0 <= i < j < r.len() implies lex_lt(
            (#[trigger] r[i]).0,
            (#[trigger] r[j]).0,
        ) by {
            if i == 0 {
                assert(r[0].0 == k && r[j] == t[j - 1]);
                if j > 1 {
                    lemma_lex_lt_trans(k, t[0].0, t[j - 1].0);
                }
            } else {
                assert(r[i] == t[i - 1] && r[j] == t[j - 1]);
            }
        }
    } else {
        lemma_lex_lt_total_head(t, k);
        let rest = t.drop_first();
        assert(forall|i: int, j: int|
            0 <= i < j < rest.len() ==> lex_lt((#[trigger] rest[i]).0, (#[trigger] rest[j]).0)) by {
            assert(forall|x: int| 0 <= x < rest.len() ==> rest[x] == t[x + 1]);
        }
        lemma_env_insert_sorted(rest, k, v);
        let ri = env_insert(rest, k, v);
        assert forall|i: int, j: int| 0 <= i < j < r.len() implies lex_lt(
            (#[trigger] r[i]).0,
            (#[trigger] r[j]).0,
        ) by {
            if i == 0 {
                assert(r[0] == t[0] && r[j] == ri[j - 1]);
                lemma_env_insert_member(rest, k, v, j - 1);
                if ri[j - 1] == (k, v) {
                    assert(lex_lt(t[0].0, k));
                } else {
                    let w = choose|w: int| 0 <= w < rest.len() && rest[w] == ri[j - 1];
                    assert(rest[w] == t[w + 1]);
                    assert(lex_lt(t[0].0, t[w + 1].0));
                }
            } else {
                assert(r[i] == ri[i - 1] && r[j] == ri[j - 1]);
            }
        }
    }
}

/// In the walk-past branch the head's name is strictly below the key.
proof fn lemma_lex_lt_total_head(t: Seq<(Seq<char>, Seq<char>)>, k: Seq<char>)
    requires
        t.len() > 0,
        t[0].0 != k,
        !lex_lt(k, t[0].0),
    ensures
        lex_lt(t[0].0, k),
{
    if !lex_lt(t[0].0, k) {
        lemma_lex_lt_total(t[0].0, k);
    }
}

/// Every entry of an insertion's result is the inserted pair or one of the
/// list's own.
proof fn lemma_env_insert_member(t: Seq<(Seq<char>, Seq<char>)>, k: Seq<char>, v: Seq<char>, x: int)
    requires
        0 <= x < env_insert(t, k, v).len(),
    ensures
        env_insert(t, k, v)[x] == (k, v) || exists|w: int|
            0 <= w < t.len() && t[w] == env_insert(t, k, v)[x],
    decreases t.len(),
{
    let r = env_insert(t, k, v);
    if t.len() == 0 {
    } else if t[0].0 == k {
        if x > 0 {
            assert(t[x] == r[x]);
        }
    } else if lex_lt(k, t[0].0) {
        if x > 0 {
            assert(t[x - 1] == r[x]);
        }
    } else {
        if x == 0 {
            assert(t[0] == r[0]);
        } else {
            lemma_env_insert_member(t.drop_first(), k, v, x - 1);
            if r[x] != (k, v) {
                let w = choose|w: int|
                    0 <= w < t.drop_first().len() && t.drop_first()[w] == env_insert(
                        t.drop_first(),
                        k,
                        v,
                    )[x - 1];
                assert(t[w + 1] == r[x]);
            }
        }
    }
}

/// Where the scan stopped is where the recursive insert acts.
proof fn lemma_env_insert_at(t: Seq<(Seq<char>, Seq<char>)>, k: Seq<char>, v: Seq<char>, pos: int)
    requires
        0 <= pos <= t.len(),
        forall|j: int| 0 <= j < pos ==> (#[trigger] t[j]).0 != k && !lex_lt(k, t[j].0),
    ensures
        pos < t.len() && t[pos].0 == k ==> env_insert(t, k, v) == t.update(pos, (k, v)),
        pos < t.len() && t[pos].0 != k && lex_lt(k, t[pos].0) ==> env_insert(t, k, v)
            == t.subrange(0, pos) + seq![(k, v)] + t.subrange(pos, t.len() as int),
        pos == t.len() ==> env_insert(t, k, v) == t.push((k, v)),
    decreases pos,
{
    if pos == 0 {
        if t.len() == 0 {
            assert(env_insert(t, k, v) =~= t.push((k, v)));
        } else if t[0].0 == k {
            assert(env_insert(t, k, v) =~= t.update(0, (k, v)));
        } else if lex_lt(k, t[0].0) {
            assert(env_insert(t, k, v) =~= t.subrange(0, 0) + seq![(k, v)] + t.subrange(
                0,
                t.len() as int,
            ));
        }
    } else {
        assert(t[0].0 != k && !lex_lt(k, t[0].0));
        let rest = t.drop_first();
        assert(forall|j: int| 0 <= j < pos - 1 ==> (#[trigger] rest[j]).0 != k && !lex_lt(
            k,
            rest[j].0,
        )) by {
            assert(forall|j: int| 0 <= j < pos - 1 ==> rest[j] == t[j + 1]);
        }
        lemma_env_insert_at(rest, k, v, pos - 1);
        if pos < t.len() && t[pos].0 == k {
            assert(rest[pos - 1].0 == k);
            assert(env_insert(t, k, v) =~= t.update(pos, (k, v)));
        } else if pos < t.len() && lex_lt(k, t[pos].0) {
            assert(seq![t[0]] + (rest.subrange(0, pos - 1) + seq![(k, v)] + rest.subrange(
                pos - 1,
                rest.len() as int,
            )) =~= t.subrange(0, pos) + seq![(k, v)] + t.subrange(pos, t.len() as int));
        } else if pos == t.len() {
            assert(env_insert(t, k, v) =~= t.push((k, v)));
        }
    }
}

/// Puts one variable into the ordered list.
fn env_insert_exec(t: &mut Vec<EnvVar>, name: String, value: String)
    ensures
        env_pairs(final(t)@) == env_insert(env_pairs(old(t)@), name@, value@),
{
    let n = t.len();
    let mut pos: usize = 0;
    while pos < n
        invariant
            pos <= n,
            n == t@.len(),
            t@ == old(t)@,
            forall|j: int|
                0 <= j < pos ==> (#[trigger] env_pairs(t@)[j]).0 != name@ && !lex_lt(
                    name@,
                    env_pairs(t@)[j].0,
                ),
        decreases n - pos,
    {
        proof {
            assert(env_pairs(t@)[pos as int] == (t@[pos as int].name@, t@[pos as int].value@));
        }
        if str_eq_str(t[pos].name.as_str(), name.as_str()) {
            proof {
                lemma_env_insert_at(env_pairs(t@), name@, value@, pos as int);
            }
            let ghost before = t@;
            let slot = &mut t[pos];
            *slot = EnvVar { name, value };
            proof {
                assert(env_pairs(t@) =~= env_pairs(before).update(
                    pos as int,
                    (name@, value@),
                ));
            }
            return ;
        }
        let name_chars = crate::text::str_chars(name.as_str());
        let here_chars = crate::text::str_chars(t[pos].name.as_str());
        if chars_lt(&name_chars, &here_chars) {
            proof {
                lemma_env_insert_at(env_pairs(t@), name@, value@, pos as int);
            }
            let ghost before = t@;
            t.insert(pos, EnvVar { name, value });
            proof {
                assert(env_pairs(t@) =~= env_pairs(before).subrange(0, pos as int) + seq![
                    (name@, value@),
                ] + env_pairs(before).subrange(pos as int, before.len() as int));
            }
            return ;
        }
        pos = pos + 1;
    }
    proof {
        lemma_env_insert_at(env_pairs(t@), name@, value@, pos as int);
    }
    let ghost before = t@;
    t.push(EnvVar { name, value });
    proof {
        assert(env_pairs(t@) =~= env_pairs(before).push((name@, value@)));
    }
}

impl EnvironmentInfo {
    /// Orders the variables read from the configuration store by name,
    /// keeping the later value of a name read twice.
    pub fn build(entries: Vec<EnvVar>) -> (r: EnvironmentInfo)
        ensures
            env_pairs(r.variables@) == env_table(env_pairs(entries@)),
    {
        let ghost input = env_pairs(entries@);
        let n = entries.len();
        let mut variables: Vec<EnvVar> = Vec::new();
        let mut i: usize = 0;
        proof {
            assert(env_pairs(variables@) =~= env_table(input.subrange(0, 0)));
        }
        while i < n
            invariant
                i <= n,
                n == entries@.len(),
                input == env_pairs(entries@),
                env_pairs(variables@) == env_table(input.subrange(0, i as int)),
            decreases n - i,
        {
            let ghost done_next = input.subrange(0, i + 1 as int);
            proof {
                assert(done_next.drop_last() =~= input.subrange(0, i as int));
                assert(done_next.last() == input[i as int]);
                assert(input[i as int] == (entries@[i as int].name@, entries@[i as int].value@));
            }
            let name = entries[i].name.clone();
            let value = entries[i].value.clone();
            env_insert_exec(&mut variables, name, value);
            i = i + 1;
        }
        proof {
            assert(input.subrange(0, n as int) =~= input);
        }
        EnvironmentInfo { variables }
    }
}

} // verus!
