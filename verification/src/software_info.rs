//! The installed-software probe: entries enumerated from the configuration
//! store's uninstall branches. Entries without a display name, marked as
//! system components, or belonging to a parent entry are skipped; a name
//! seen twice keeps its first entry; the survivors are ordered by
//! case-folded name, stably.

use vstd::prelude::*;
use crate::text::{chars_lt, lemma_lex_lt_irrefl, lemma_lex_lt_trans, lex_lt, lower_chars, lower_seq, str_chars, str_eq_str};

verus! {

/// One raw uninstall entry, as read from the configuration store.
pub struct RegProgram {
    /// The display name, where the store holds one.
    pub display_name: Option<String>,
    /// The system-component marker; one means a component.
    pub system_component: u32,
    /// The parent entry's name; nonempty means a child entry.
    pub parent_key_name: String,
    /// The display version, or empty.
    pub display_version: String,
    /// The publisher, or empty.
    pub publisher: String,
    /// The install date, as the store holds it.
    pub install_date: String,
}

/// One installed program.
pub struct InstalledProgram {
    /// The display name.
    pub name: String,
    /// The version.
    pub version: String,
    /// The publisher.
    pub publisher: String,
    /// The install date, as text.
    pub install_date: String,
}

/// The installed-software category.
pub struct SoftwareInfo {
    /// The programs, ordered by case-folded name.
    pub programs: Vec<InstalledProgram>,
}

/// The fields of one program, at the specification level.
pub struct ProgramFields {
    /// Name text.
    pub name: Seq<char>,
    /// Version text.
    pub version: Seq<char>,
    /// Publisher text.
    pub publisher: Seq<char>,
    /// Install date text.
    pub install_date: Seq<char>,
}

impl InstalledProgram {
    /// The program's fields as sequences.
    pub open spec fn view_fields(self) -> ProgramFields {
        ProgramFields {
            name: self.name@,
            version: self.version@,
            publisher: self.publisher@,
            install_date: self.install_date@,
        }
    }
}

/// Whether a raw entry stands for a program of its own.
pub open spec fn passes(e: RegProgram) -> bool {
    e.display_name is Some && e.system_component != 1 && e.parent_key_name@.len() == 0
}

/// The fields a passing raw entry normalizes to.
pub open spec fn program_of(e: RegProgram) -> ProgramFields {
    ProgramFields {
        name: e.display_name->0@,
        version: e.display_version@,
        publisher: e.publisher@,
        install_date: e.install_date@,
    }
}

/// Whether a name already stands in a program list.
pub open spec fn has_name(ps: Seq<ProgramFields>, n: Seq<char>) -> bool {
    exists|j: int| 0 <= j < ps.len() && (#[trigger] ps[j]).name == n
}

/// The programs the raw entries contribute, in entry order: passing
/// entries whose name was not contributed before.
pub open spec fn program_list(rows: Seq<RegProgram>) -> Seq<ProgramFields>
    decreases rows.len(),
{
    if rows.len() == 0 {
        Seq::<ProgramFields>::empty()
    } else {
        let prev = program_list(rows.drop_last());
        if passes(rows.last()) && !has_name(prev, rows.last().display_name->0@) {
            prev.push(program_of(rows.last()))
        } else {
            prev
        }
    }
}

/// One program put into a list ordered by case-folded name: it goes after
/// every program whose folded name is not greater, so that earlier entries
/// of an equal folded name stay ahead.
pub open spec fn prog_insert(x: ProgramFields, s: Seq<ProgramFields>) -> Seq<ProgramFields>
    decreases s.len(),
{
    if s.len() == 0 {
        seq![x]
    } else if !lex_lt(lower_seq(x.name), lower_seq(s[0].name)) {
        seq![s[0]] + prog_insert(x, s.drop_first())
    } else {
        seq![x] + s
    }
}

/// The ordered list the programs build up, first to last.
pub open spec fn prog_sort(s: Seq<ProgramFields>) -> Seq<ProgramFields>
    decreases s.len(),
{
    if s.len() == 0 {
        Seq::<ProgramFields>::empty()
    } else {
        prog_insert(s.last(), prog_sort(s.drop_last()))
    }
}

/// What the whole probe yields from the raw entries.
pub open spec fn software_list(rows: Seq<RegProgram>) -> Seq<ProgramFields> {
    prog_sort(program_list(rows))
}

/// Where the scan stopped is where the recursive insert acts.
proof fn lemma_prog_insert_at(x: ProgramFields, s: Seq<ProgramFields>, pos: int)
    requires
        0 <= pos <= s.len(),
        forall|j: int|
            0 <= j < pos ==> !lex_lt(lower_seq(x.name), lower_seq((#[trigger] s[j]).name)),
        pos < s.len() ==> lex_lt(lower_seq(x.name), lower_seq(s[pos].name)),
    ensures
        prog_insert(x, s) == s.subrange(0, pos) + seq![x] + s.subrange(pos, s.len() as int),
    decreases pos,
{
    if pos == 0 {
        assert(prog_insert(x, s) =~= s.subrange(0, 0) + seq![x] + s.subrange(0, s.len() as int));
    } else {
        let rest = s.drop_first();
        assert(forall|j: int|
            0 <= j < pos - 1 ==> !lex_lt(lower_seq(x.name), lower_seq((#[trigger] rest[j]).name)))
            by {
            assert(forall|j: int| 0 <= j < pos - 1 ==> rest[j] == s[j + 1]);
        }
        lemma_prog_insert_at(x, rest, pos - 1);
        assert(seq![s[0]] + (rest.subrange(0, pos - 1) + seq![x] + rest.subrange(
            pos - 1,
            rest.len() as int,
        )) =~= s.subrange(0, pos) + seq![x] + s.subrange(pos, s.len() as int));
    }
}

/// The ordered list is ordered: folded names never decrease along it.
pub proof fn lemma_prog_sort_sorted(s: Seq<ProgramFields>)
    ensures
        forall|i: int, j: int|
            0 <= i < j < prog_sort(s).len() ==> !lex_lt(
                lower_seq((#[trigger] prog_sort(s)[j]).name),
                lower_seq((#[trigger] prog_sort(s)[i]).name),
            ),
    decreases s.len(),
{
    if s.len() > 0 {
        lemma_prog_sort_sorted(s.drop_last());
        lemma_prog_insert_sorted(s.last(), prog_sort(s.drop_last()));
    }
}

/// Inserting keeps the order.
proof fn lemma_prog_insert_sorted(x: ProgramFields, s: Seq<ProgramFields>)
    requires
        forall|i: int, j: int|
            0 <= i < j < s.len() ==> !lex_lt(
                lower_seq((#[trigger] s[j]).name),
                lower_seq((#[trigger] s[i]).name),
            ),
    ensures
        forall|i: int, j: int|
            0 <= i < j < prog_insert(x, s).len() ==> !lex_lt(
                lower_seq((#[trigger] prog_insert(x, s)[j]).name),
                lower_seq((#[trigger] prog_insert(x, s)[i]).name),
            ),
    decreases s.len(),
{
    if s.len() == 0 {
    } else if !lex_lt(lower_seq(x.name), lower_seq(s[0].name)) {
        let rest = s.drop_first();
        assert(forall|i: int, j: int|
            0 <= i < j < rest.len() ==> !lex_lt(
                lower_seq((#[trigger] rest[j]).name),
                lower_seq((#[trigger] rest[i]).name),
            )) by {
            assert(forall|k: int| 0 <= k < rest.len() ==> rest[k] == s[k + 1]);
        }
        lemma_prog_insert_sorted(x, rest);
        let r = prog_insert(x, s);
        let ri = prog_insert(x, rest);
        assert forall|i: int, j: int|
            0 <= i < j < r.len() implies !lex_lt(
            lower_seq((#[trigger] r[j]).name),
            lower_seq((#[trigger] r[i]).name),
        ) by {
            if i == 0 {
                assert(r[0] == s[0] && r[j] == ri[j - 1]);
                lemma_prog_insert_member(x, rest, j - 1);
                if ri[j - 1] == x {
                    assert(!lex_lt(lower_seq(x.name), lower_seq(s[0].name)));
                } else {
                    let t = choose|t: int| 0 <= t < rest.len() && rest[t] == ri[j - 1];
                    assert(rest[t] == s[t + 1]);
                    assert(!lex_lt(lower_seq(s[t + 1].name), lower_seq(s[0].name)));
                }
            } else {
                assert(r[i] == ri[i - 1] && r[j] == ri[j - 1]);
            }
        }
    } else {
        let r = prog_insert(x, s);
        assert forall|i: int, j: int|
            0 <= i < j < r.len() implies !lex_lt(
            lower_seq((#[trigger] r[j]).name),
            lower_seq((#[trigger] r[i]).name),
        ) by {
            if i == 0 {
                assert(r[0] == x && r[j] == s[j - 1]);
                if lex_lt(lower_seq(s[j - 1].name), lower_seq(x.name)) {
                    lemma_lex_lt_trans(
                        lower_seq(s[j - 1].name),
                        lower_seq(x.name),
                        lower_seq(s[0].name),
                    );
                    if j - 1 == 0 {
                        lemma_lex_lt_irrefl(lower_seq(s[0].name));
                    } else {
                        assert(!lex_lt(lower_seq(s[j - 1].name), lower_seq(s[0].name)));
                    }
                }
            } else {
                assert(r[i] == s[i - 1] && r[j] == s[j - 1]);
            }
        }
    }
}

/// Every entry of an insertion's result is the inserted one or one of the
/// list's own.
proof fn lemma_prog_insert_member(x: ProgramFields, s: Seq<ProgramFields>, k: int)
    requires
        0 <= k < prog_insert(x, s).len(),
    ensures
        prog_insert(x, s)[k] == x || exists|t: int|
            0 <= t < s.len() && s[t] == prog_insert(x, s)[k],
    decreases s.len(),
{
    if s.len() == 0 {
    } else if !lex_lt(lower_seq(x.name), lower_seq(s[0].name)) {
        if k == 0 {
            assert(s[0] == prog_insert(x, s)[0]);
        } else {
            lemma_prog_insert_member(x, s.drop_first(), k - 1);
            if prog_insert(x, s)[k] != x {
                let t = choose|t: int|
                    0 <= t < s.drop_first().len() && s.drop_first()[t] == prog_insert(
                        x,
                        s.drop_first(),
                    )[k - 1];
                assert(s[t + 1] == prog_insert(x, s)[k]);
            }
        }
    } else {
        if k > 0 {
            assert(s[k - 1] == prog_insert(x, s)[k]);
        }
    }
}

/// Whether a name already stands in a held program list.
fn has_name_exec(ps: &Vec<InstalledProgram>, n: &str) -> (r: bool)
    ensures
        r == has_name(ps@.map_values(|p: InstalledProgram| p.view_fields()), n@),
{
    let ghost views = ps@.map_values(|p: InstalledProgram| p.view_fields());
    let m = ps.len();
    let mut i: usize = 0;
    while i < m
        invariant
            i <= m,
            m == ps@.len(),
            views == ps@.map_values(|p: InstalledProgram| p.view_fields()),
            forall|j: int| 0 <= j < i ==> (#[trigger] views[j]).name != n@,
        decreases m - i,
    {
        proof {
            assert(views[i as int] == ps@[i as int].view_fields());
        }
        if str_eq_str(ps[i].name.as_str(), n) {
            return true;
        }
        i = i + 1;
    }
    false
}

impl SoftwareInfo {
    /// Normalizes the raw uninstall entries: filters, deduplicates by
    /// name (first entry wins), and orders by case-folded name, stably.
    pub fn build(rows: Vec<RegProgram>) -> (r: SoftwareInfo)
        ensures
            r.programs@.map_values(|p: InstalledProgram| p.view_fields()) == software_list(rows@),
    {
        let ghost input = rows@;
        let mut remaining = rows;
        let initial_len = remaining.len();
        let ghost total = input.len();
        proof {
            assert(initial_len == total);
        }
        let mut kept: Vec<InstalledProgram> = Vec::new();
        let mut i: usize = 0;
        proof {
            assert(kept@.map_values(|p: InstalledProgram| p.view_fields()) =~= program_list(
                input.subrange(0, 0),
            ));
        }
        while remaining.len() > 0
            invariant
                i <= total,
                total <= usize::MAX,
                total == input.len(),
                i + remaining@.len() == total,
                remaining@ == input.subrange(i as int, total as int),
                kept@.map_values(|p: InstalledProgram| p.view_fields()) == program_list(
                    input.subrange(0, i as int),
                ),
            decreases remaining@.len(),
        {
            let ghost done_next = input.subrange(0, i + 1 as int);
            proof {
                assert(done_next.drop_last() =~= input.subrange(0, i as int));
                assert(done_next.last() == input[i as int]);
                assert(remaining@[0] == input[i as int]);
            }
            let e = remaining.remove(0);
            proof {
                assert(remaining@ =~= input.subrange(i + 1 as int, total as int));
            }
            match e.display_name {
                Some(name) => {
                    if e.system_component != 1 && e.parent_key_name.as_str().is_empty() {
                        if !has_name_exec(&kept, name.as_str()) {
                            let ghost before = kept@;
                            let prog = InstalledProgram {
                                name,
                                version: e.display_version,
                                publisher: e.publisher,
                                install_date: e.install_date,
                            };
                            kept.push(prog);
                            proof {
                                assert(kept@.map_values(|p: InstalledProgram| p.view_fields())
                                    =~= before.map_values(
                                    |p: InstalledProgram| p.view_fields(),
                                ).push(program_of(input[i as int])));
                            }
                        }
                    }
                },
                None => (),
            }
            i = i + 1;
        }
        proof {
            assert(input.subrange(0, total as int) =~= input);
        }
        let ghost unsorted = program_list(input);
        let mut rest = kept;
        let rest_len = rest.len();
        let ghost kept_total = unsorted.len();
        let mut programs: Vec<InstalledProgram> = Vec::new();
        let mut j: usize = 0;
        proof {
            assert(programs@.map_values(|p: InstalledProgram| p.view_fields()) =~= prog_sort(
                unsorted.subrange(0, 0),
            ));
        }
        while rest.len() > 0
            invariant
                j <= kept_total,
                kept_total <= usize::MAX,
                kept_total == unsorted.len(),
                j + rest@.len() == kept_total,
                rest@.map_values(|p: InstalledProgram| p.view_fields()) == unsorted.subrange(
                    j as int,
                    kept_total as int,
                ),
                programs@.map_values(|p: InstalledProgram| p.view_fields()) == prog_sort(
                    unsorted.subrange(0, j as int),
                ),
            decreases rest@.len(),
        {
            let ghost done_next = unsorted.subrange(0, j + 1 as int);
            proof {
                assert(done_next.drop_last() =~= unsorted.subrange(0, j as int));
                assert(done_next.last() == unsorted[j as int]);
                assert(rest@.map_values(|p: InstalledProgram| p.view_fields())[0] == unsorted[
                    j as int
                ]);
                assert(rest@[0].view_fields() == unsorted[j as int]);
            }
            let ghost rest_before = rest@;
            let x = rest.remove(0);
            proof {
                assert(rest@ =~= rest_before.drop_first());
                assert forall|k: int| 0 <= k < rest@.len() implies rest@.map_values(
                    |p: InstalledProgram| p.view_fields(),
                )[k] == #[trigger] unsorted.subrange(j + 1 as int, kept_total as int)[k] by {
                    assert(rest@[k] == rest_before[k + 1]);
                    assert(rest_before.map_values(|p: InstalledProgram| p.view_fields())[k + 1]
                        == rest_before[k + 1].view_fields());
                }
                assert(rest@.map_values(|p: InstalledProgram| p.view_fields()) =~= unsorted
                    .subrange(j + 1 as int, kept_total as int));
            }
            let x_lower = lower_chars(&str_chars(x.name.as_str()));
            let ghost sorted_views = programs@.map_values(|p: InstalledProgram| p.view_fields());
            let n = programs.len();
            let mut pos: usize = 0;
            while pos < n && !lower_less(&x_lower, &programs[pos])
                invariant
                    pos <= n,
                    n == programs@.len(),
                    x_lower@ == lower_seq(x.name@),
                    sorted_views == programs@.map_values(|p: InstalledProgram| p.view_fields()),
                    forall|t: int|
                        0 <= t < pos ==> !lex_lt(
                            lower_seq(x.name@),
                            lower_seq((#[trigger] sorted_views[t]).name),
                        ),
                decreases n - pos,
            {
                proof {
                    assert(sorted_views[pos as int] == programs@[pos as int].view_fields());
                }
                pos = pos + 1;
            }
            proof {
                if pos < n {
                    assert(sorted_views[pos as int] == programs@[pos as int].view_fields());
                }
                lemma_prog_insert_at(x.view_fields(), sorted_views, pos as int);
            }
            let ghost before = programs@;
            programs.insert(pos, x);
            proof {
                let before_views = before.map_values(|p: InstalledProgram| p.view_fields());
                assert(programs@.map_values(|p: InstalledProgram| p.view_fields())
                    =~= before_views.subrange(0, pos as int) + seq![unsorted[j as int]]
                    + before_views.subrange(pos as int, before_views.len() as int));
            }
            j = j + 1;
        }
        proof {
            assert(unsorted.subrange(0, kept_total as int) =~= unsorted);
        }
        SoftwareInfo { programs }
    }
}

/// Whether the folded key is strictly less than a program's folded name.
fn lower_less(key: &Vec<char>, p: &InstalledProgram) -> (r: bool)
    ensures
        r == lex_lt(key@, lower_seq(p.name@)),
{
    let p_lower = lower_chars(&str_chars(p.name.as_str()));
    chars_lt(key, &p_lower)
}

} // verus!
