//! The scheduled-task probe: decodes the verbose CSV listing of the task
//! scheduler's query tool into normalized tasks. Column positions are
//! resolved once from the header row by substring match; rows under the
//! operating system's own task folder are skipped; a row too short to carry
//! a task name is skipped, not fatal.

use vstd::prelude::*;
use crate::csv::{first_containing, parse_csv_line, parse_csv_line_spec, position_containing, views_of};
use crate::text::{chars_string, last_index_of, lines_of, rfind_char, split_lines, starts_with, starts_with_sub, str_chars, subvec};

verus! {

/// One normalized scheduled task.
pub struct ScheduledTask {
    /// The task's own name: the last path segment.
    pub name: String,
    /// The full task path.
    pub path: String,
    /// The scheduler's status column.
    pub state: String,
    /// The last run time, as the tool printed it.
    pub last_run: String,
    /// The next run time, as the tool printed it.
    pub next_run: String,
    /// The last run's result code, as text.
    pub result: String,
    /// The task's author.
    pub author: String,
}

/// The scheduled-task category.
pub struct ScheduledTaskInfo {
    /// The tasks outside the operating system's own folder.
    pub tasks: Vec<ScheduledTask>,
}

/// The fields of one task, at the specification level.
pub struct TaskFields {
    /// Last path segment.
    pub name: Seq<char>,
    /// Full path.
    pub path: Seq<char>,
    /// Status column text.
    pub state: Seq<char>,
    /// Last run time text.
    pub last_run: Seq<char>,
    /// Next run time text.
    pub next_run: Seq<char>,
    /// Last result text.
    pub result: Seq<char>,
    /// Author text.
    pub author: Seq<char>,
}

impl ScheduledTask {
    /// The task's fields as sequences.
    pub open spec fn view_fields(self) -> TaskFields {
        TaskFields {
            name: self.name@,
            path: self.path@,
            state: self.state@,
            last_run: self.last_run@,
            next_run: self.next_run@,
            result: self.result@,
            author: self.author@,
        }
    }
}

/// The resolved column positions of the verbose listing.
pub struct ColumnIndex {
    /// The task-name column; the first column when no header matches.
    pub name: int,
    /// The status column, if any header matches.
    pub status: Option<int>,
    /// The last-run-time column, if any.
    pub last_run: Option<int>,
    /// The next-run-time column, if any.
    pub next_run: Option<int>,
    /// The last-result column, if any.
    pub result: Option<int>,
    /// The author column, if any.
    pub author: Option<int>,
}

/// The column at an optional position, or empty text when the position is
/// unresolved or past the row's end.
pub open spec fn col_or_empty(cols: Seq<Seq<char>>, idx: Option<int>) -> Seq<char> {
    match idx {
        Some(i) => if 0 <= i < cols.len() {
            cols[i]
        } else {
            Seq::<char>::empty()
        },
        None => Seq::<char>::empty(),
    }
}

/// The last path segment of a task path.
pub open spec fn last_segment(path: Seq<char>) -> Seq<char> {
    match last_index_of(path, '\\') {
        Some(i) => path.subrange(i + 1, path.len() as int),
        None => path,
    }
}

/// The column positions a header row resolves to.
pub open spec fn resolve_columns(header: Seq<char>) -> ColumnIndex {
    let hs = parse_csv_line_spec(header);
    ColumnIndex {
        name: match first_containing(hs, "TaskName"@) {
            Some(i) => i,
            None => 0,
        },
        status: first_containing(hs, "Status"@),
        last_run: first_containing(hs, "Last Run Time"@),
        next_run: first_containing(hs, "Next Run Time"@),
        result: first_containing(hs, "Last Result"@),
        author: first_containing(hs, "Author"@),
    }
}

/// The tasks one row contributes: none when the row is too short to carry a
/// name or when the path lies under the operating system's own folder.
pub open spec fn row_tasks(line: Seq<char>, idx: ColumnIndex) -> Seq<TaskFields> {
    let cols = parse_csv_line_spec(line);
    if cols.len() <= idx.name {
        Seq::<TaskFields>::empty()
    } else {
        let path = cols[idx.name];
        if starts_with(path, "\\Microsoft\\"@) {
            Seq::<TaskFields>::empty()
        } else {
            seq![
                TaskFields {
                    name: last_segment(path),
                    path: path,
                    state: col_or_empty(cols, idx.status),
                    last_run: col_or_empty(cols, idx.last_run),
                    next_run: col_or_empty(cols, idx.next_run),
                    result: col_or_empty(cols, idx.result),
                    author: col_or_empty(cols, idx.author),
                },
            ]
        }
    }
}

/// The tasks of the given rows, in order.
pub open spec fn tasks_of_rows(rows: Seq<Seq<char>>, idx: ColumnIndex) -> Seq<TaskFields>
    decreases rows.len(),
{
    if rows.len() == 0 {
        Seq::<TaskFields>::empty()
    } else {
        tasks_of_rows(rows.drop_last(), idx) + row_tasks(rows.last(), idx)
    }
}

/// What the whole listing decodes to: the first line resolves the columns,
/// every further line contributes its row. An empty listing has no tasks.
pub open spec fn tasks_of_output(text: Seq<char>) -> Seq<TaskFields> {
    let lines = lines_of(text);
    if lines.len() == 0 {
        Seq::<TaskFields>::empty()
    } else {
        tasks_of_rows(lines.drop_first(), resolve_columns(lines[0]))
    }
}

/// Extracts the column at an optional position from a parsed row.
fn col_string(cols: &Vec<String>, idx: Option<usize>) -> (r: String)
    ensures
        r@ == col_or_empty(views_of(cols@), spec_idx(idx)),
{
    match idx {
        Some(i) => {
            if i < cols.len() {
                cols[i].clone()
            } else {
                String::new()
            }
        },
        None => String::new(),
    }
}

/// The specification-level image of an optional column position.
pub open spec fn spec_idx(idx: Option<usize>) -> Option<int> {
    match idx {
        Some(i) => Some(i as int),
        None => None,
    }
}

impl ScheduledTaskInfo {
    /// Decodes the captured output of the task scheduler's verbose CSV
    /// query into the task list.
    pub fn from_output(stdout: &str) -> (r: ScheduledTaskInfo)
        ensures
            r.tasks@.len() == tasks_of_output(stdout@).len(),
            forall|i: int|
                0 <= i < r.tasks@.len() ==> (#[trigger] r.tasks@[i]).view_fields()
                    == tasks_of_output(stdout@)[i],
    {
        let text = str_chars(stdout);
        let lines = split_lines(&text);
        let ghost all_lines = lines_of(stdout@);
        if lines.len() == 0 {
            return ScheduledTaskInfo { tasks: Vec::new() };
        }
        let header = chars_string(&lines[0]);
        let headers = parse_csv_line(header.as_str());
        let name_idx: usize = match position_containing(&headers, "TaskName") {
            Some(i) => i,
            None => 0,
        };
        let status_idx = position_containing(&headers, "Status");
        let last_run_idx = position_containing(&headers, "Last Run Time");
        let next_run_idx = position_containing(&headers, "Next Run Time");
        let result_idx = position_containing(&headers, "Last Result");
        let author_idx = position_containing(&headers, "Author");
        let ghost idx = resolve_columns(all_lines[0]);
        proof {
            assert(views_of(headers@) =~= parse_csv_line_spec(all_lines[0]));
            assert(idx.name == name_idx as int);
            assert(idx.status == spec_idx(status_idx));
            assert(idx.last_run == spec_idx(last_run_idx));
            assert(idx.next_run == spec_idx(next_run_idx));
            assert(idx.result == spec_idx(result_idx));
            assert(idx.author == spec_idx(author_idx));
        }
        let ms_prefix = str_chars("\\Microsoft\\");
        let n = lines.len();
        let mut tasks: Vec<ScheduledTask> = Vec::new();
        let mut i: usize = 1;
        proof {
            assert(all_lines.subrange(1, 1).len() == 0);
        }
        while i < n
            invariant
                1 <= i <= n,
                n == lines@.len(),
                n == all_lines.len(),
                ms_prefix@ == "\\Microsoft\\"@,
                idx == resolve_columns(all_lines[0]),
                idx.name == name_idx as int,
                idx.status == spec_idx(status_idx),
                idx.last_run == spec_idx(last_run_idx),
                idx.next_run == spec_idx(next_run_idx),
                idx.result == spec_idx(result_idx),
                idx.author == spec_idx(author_idx),
                forall|k: int| 0 <= k < n ==> #[trigger] lines@[k]@ == all_lines[k],
                tasks@.len() == tasks_of_rows(all_lines.subrange(1, i as int), idx).len(),
                forall|k: int|
                    0 <= k < tasks@.len() ==> (#[trigger] tasks@[k]).view_fields()
                        == tasks_of_rows(all_lines.subrange(1, i as int), idx)[k],
            decreases n - i,
        {
            let ghost done = all_lines.subrange(1, i as int);
            let ghost done_next = all_lines.subrange(1, i + 1 as int);
            proof {
                assert(done_next.drop_last() =~= done);
                assert(done_next.last() == all_lines[i as int]);
            }
            let line = chars_string(&lines[i]);
            let cols = parse_csv_line(line.as_str());
            let ghost cols_spec = parse_csv_line_spec(all_lines[i as int]);
            proof {
                assert(views_of(cols@) =~= cols_spec);
            }
            if name_idx < cols.len() {
                let path = cols[name_idx].clone();
                let path_chars = str_chars(path.as_str());
                if !starts_with_sub(&path_chars, &ms_prefix) {
                    let name: String = match rfind_char(&path_chars, '\\') {
                        Some(p) => {
                            let plen = path_chars.len();
                            let seg = subvec(&path_chars, p + 1, plen);
                            chars_string(&seg)
                        },
                        None => path.clone(),
                    };
                    proof {
                        assert(name@ == last_segment(cols_spec[idx.name]));
                    }
                    let task = ScheduledTask {
                        name,
                        path,
                        state: col_string(&cols, status_idx),
                        last_run: col_string(&cols, last_run_idx),
                        next_run: col_string(&cols, next_run_idx),
                        result: col_string(&cols, result_idx),
                        author: col_string(&cols, author_idx),
                    };
                    tasks.push(task);
                }
            }
            i = i + 1;
        }
        proof {
            assert(all_lines.subrange(1, n as int) =~= all_lines.drop_first());
        }
        ScheduledTaskInfo { tasks }
    }
}

} // verus!
