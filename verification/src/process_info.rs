//! The process probe: the running processes ordered by working-set size,
//! largest first, capped at thirty entries. The cap and the order are this
//! probe's own policy. Ties keep enumeration order: the sort is stable.

use vstd::prelude::*;

verus! {

/// One running process.
pub struct ProcessEntry {
    /// The image name.
    pub name: String,
    /// The process identifier.
    pub pid: u32,
    /// Accumulated run time, in seconds.
    pub cpu_seconds: u64,
    /// Working-set size, in bytes.
    pub memory_bytes: u64,
    /// The executable's path, or empty.
    pub exe_path: String,
    /// The command line, space-joined.
    pub command: String,
}

/// The process category.
pub struct ProcessInfo {
    /// At most thirty processes, largest working set first; equal sizes
    /// keep enumeration order.
    pub processes: Vec<ProcessEntry>,
}

/// How many entries the probe keeps.
pub open spec fn process_cap() -> int {
    30
}

/// One entry put into a list ordered by working set, largest first: it
/// goes after every entry at least as large, so that earlier-enumerated
/// entries of the same size stay ahead.
pub open spec fn proc_insert(x: ProcessEntry, s: Seq<ProcessEntry>) -> Seq<ProcessEntry>
    decreases s.len(),
{
    if s.len() == 0 {
        seq![x]
    } else if s[0].memory_bytes >= x.memory_bytes {
        seq![s[0]] + proc_insert(x, s.drop_first())
    } else {
        seq![x] + s
    }
}

/// The ordered list the entries build up, first to last.
pub open spec fn proc_sort(s: Seq<ProcessEntry>) -> Seq<ProcessEntry>
    decreases s.len(),
{
    if s.len() == 0 {
        Seq::<ProcessEntry>::empty()
    } else {
        proc_insert(s.last(), proc_sort(s.drop_last()))
    }
}

/// Where the scan stopped is where the recursive insert acts.
proof fn lemma_proc_insert_at(x: ProcessEntry, s: Seq<ProcessEntry>, pos: int)
    requires
        0 <= pos <= s.len(),
        forall|j: int| 0 <= j < pos ==> (#[trigger] s[j]).memory_bytes >= x.memory_bytes,
        pos < s.len() ==> s[pos].memory_bytes < x.memory_bytes,
    ensures
        proc_insert(x, s) == s.subrange(0, pos) + seq![x] + s.subrange(pos, s.len() as int),
    decreases pos,
{
    if pos == 0 {
        if s.len() == 0 {
            assert(proc_insert(x, s) =~= s.subrange(0, 0) + seq![x] + s.subrange(
                0,
                s.len() as int,
            ));
        } else {
            assert(s[0].memory_bytes < x.memory_bytes);
            assert(proc_insert(x, s) =~= s.subrange(0, 0) + seq![x] + s.subrange(
                0,
                s.len() as int,
            ));
        }
    } else {
        let rest = s.drop_first();
        assert(forall|j: int|
            0 <= j < pos - 1 ==> (#[trigger] rest[j]).memory_bytes >= x.memory_bytes) by {
            assert(forall|j: int| 0 <= j < pos - 1 ==> rest[j] == s[j + 1]);
        }
        lemma_proc_insert_at(x, rest, pos - 1);
        assert(seq![s[0]] + (rest.subrange(0, pos - 1) + seq![x] + rest.subrange(
            pos - 1,
            rest.len() as int,
        )) =~= s.subrange(0, pos) + seq![x] + s.subrange(pos, s.len() as int));
    }
}

/// The ordered list is ordered: working sets never grow along it.
pub proof fn lemma_proc_sort_sorted(s: Seq<ProcessEntry>)
    ensures
        forall|i: int, j: int|
            0 <= i < j < proc_sort(s).len() ==> (#[trigger] proc_sort(s)[i]).memory_bytes >= (
            #[trigger] proc_sort(s)[j]).memory_bytes,
    decreases s.len(),
{
    if s.len() > 0 {
        lemma_proc_sort_sorted(s.drop_last());
        lemma_proc_insert_sorted(s.last(), proc_sort(s.drop_last()));
    }
}

/// Inserting keeps the order.
proof fn lemma_proc_insert_sorted(x: ProcessEntry, s: Seq<ProcessEntry>)
    requires
        forall|i: int, j: int|
            0 <= i < j < s.len() ==> (#[trigger] s[i]).memory_bytes >= (
            #[trigger] s[j]).memory_bytes,
    ensures
        forall|i: int, j: int|
            0 <= i < j < proc_insert(x, s).len() ==> (#[trigger] proc_insert(x, s)[i]).memory_bytes
                >= (#[trigger] proc_insert(x, s)[j]).memory_bytes,
    decreases s.len(),
{
    if s.len() == 0 {
    } else if s[0].memory_bytes >= x.memory_bytes {
        let rest = s.drop_first();
        assert(forall|i: int, j: int|
            0 <= i < j < rest.len() ==> (#[trigger] rest[i]).memory_bytes >= (
            #[trigger] rest[j]).memory_bytes) by {
            assert(forall|k: int| 0 <= k < rest.len() ==> rest[k] == s[k + 1]);
        }
        lemma_proc_insert_sorted(x, rest);
        let r = proc_insert(x, s);
        let ri = proc_insert(x, rest);
        assert forall|i: int, j: int|
            0 <= i < j < r.len() implies (#[trigger] r[i]).memory_bytes >= (
        #[trigger] r[j]).memory_bytes by {
            if i == 0 {
                assert(r[0] == s[0] && r[j] == ri[j - 1]);
                lemma_proc_insert_member(x, rest, j - 1);
                if ri[j - 1] != x {
                    let t = choose|t: int| 0 <= t < rest.len() && rest[t] == ri[j - 1];
                    assert(rest[t] == s[t + 1]);
                    assert(s[0].memory_bytes >= s[t + 1].memory_bytes);
                }
            } else {
                assert(r[i] == ri[i - 1] && r[j] == ri[j - 1]);
            }
        }
    }
}

/// Every entry of an insertion's result is the inserted one or one of the
/// list's own.
proof fn lemma_proc_insert_member(x: ProcessEntry, s: Seq<ProcessEntry>, k: int)
    requires
        0 <= k < proc_insert(x, s).len(),
    ensures
        proc_insert(x, s)[k] == x || exists|t: int| 0 <= t < s.len() && s[t] == proc_insert(x, s)[k],
    decreases s.len(),
{
    if s.len() == 0 {
    } else if s[0].memory_bytes >= x.memory_bytes {
        if k == 0 {
            assert(s[0] == proc_insert(x, s)[0]);
        } else {
            lemma_proc_insert_member(x, s.drop_first(), k - 1);
            if proc_insert(x, s)[k] != x {
                let t = choose|t: int|
                    0 <= t < s.drop_first().len() && s.drop_first()[t] == proc_insert(
                        x,
                        s.drop_first(),
                    )[k - 1];
                assert(s[t + 1] == proc_insert(x, s)[k]);
            }
        }
    } else {
        if k > 0 {
            assert(s[k - 1] == proc_insert(x, s)[k]);
        }
    }
}

impl ProcessInfo {
    /// Orders the enumerated processes by working set, largest first and
    /// stably, and keeps at most thirty.
    pub fn top_processes(entries: Vec<ProcessEntry>) -> (r: ProcessInfo)
        ensures
            r.processes@ == if proc_sort(entries@).len() <= process_cap() {
                proc_sort(entries@)
            } else {
                proc_sort(entries@).subrange(0, process_cap())
            },
    {
        let ghost input = entries@;
        let mut remaining = entries;
        let mut sorted: Vec<ProcessEntry> = Vec::new();
        let ghost total = input.len();
        let initial_len = remaining.len();
        proof {
            assert(initial_len == total);
            assert(input.subrange(0, 0).len() == 0);
        }
        let mut i: usize = 0;
        while remaining.len() > 0
            invariant
                i <= total,
                total <= usize::MAX,
                total == input.len(),
                i + remaining@.len() == total,
                remaining@ == input.subrange(i as int, total as int),
                sorted@ == proc_sort(input.subrange(0, i as int)),
            decreases remaining@.len(),
    {
            let ghost done_next = input.subrange(0, i + 1 as int);
            proof {
                assert(done_next.drop_last() =~= input.subrange(0, i as int));
                assert(done_next.last() == input[i as int]);
                assert(remaining@[0] == input[i as int]);
            }
            let x = remaining.remove(0);
            proof {
                assert(remaining@ =~= input.subrange(i + 1 as int, total as int));
            }
            let n = sorted.len();
            let mut pos: usize = 0;
            while pos < n && sorted[pos].memory_bytes >= x.memory_bytes
                invariant
                    pos <= n,
                    n == sorted@.len(),
                    forall|j: int|
                        0 <= j < pos ==> (#[trigger] sorted@[j]).memory_bytes >= x.memory_bytes,
                decreases n - pos,
            {
                pos = pos + 1;
            }
            proof {
                lemma_proc_insert_at(x, sorted@, pos as int);
            }
            let ghost before = sorted@;
            sorted.insert(pos, x);
            proof {
                assert(sorted@ =~= before.subrange(0, pos as int) + seq![x] + before.subrange(
                    pos as int,
                    before.len() as int,
                ));
            }
            i = i + 1;
        }
        proof {
            assert(input.subrange(0, total as int) =~= input);
        }
        if sorted.len() > 30 {
            sorted.truncate(30);
            proof {
                assert(sorted@ =~= proc_sort(input).subrange(0, process_cap()));
            }
        }
        ProcessInfo { processes: sorted }
    }
}

} // verus!
