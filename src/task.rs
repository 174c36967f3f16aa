use vstd::prelude::*;
use crate::language::Language;

verus! {

/// A problem of the judge, as its task listing gives it.
#[derive(Debug, PartialEq, Eq)]
pub struct Task {
    pub id: String,
    pub problem_name: String,
    pub language: Language,
}

impl Task {
    /// A copy with the same fields.
    pub fn duplicate(&self) -> (r: Task)
        ensures
            r == *self,
    {
        Task { id: self.id.clone(), problem_name: self.problem_name.clone(), language: self.language }
    }
}

/// Scans a listing for its quoted strings, from position `i` on. `open` is
/// where the string being read began, if one is. A backslash inside a string
/// keeps the character after it from closing the string.
pub open spec fn scan_quoted(s: Seq<char>, i: int, open: Option<int>, acc: Seq<Seq<char>>) -> Seq<Seq<char>>
    decreases s.len() + 1 - i,
{
    if i < 0 || i >= s.len() {
        acc
    } else {
        match open {
            None => if s[i] == '"' {
                scan_quoted(s, i + 1, Some(i + 1), acc)
            } else {
                scan_quoted(s, i + 1, None, acc)
            },
            Some(b) => if s[i] == '\\' {
                scan_quoted(s, i + 2, Some(b), acc)
            } else if s[i] == '"' {
                scan_quoted(s, i + 1, None, acc.push(s.subrange(b, i)))
            } else {
                scan_quoted(s, i + 1, Some(b), acc)
            },
        }
    }
}

/// The quoted strings of a listing, in order; one left unterminated is dropped.
pub open spec fn string_table(s: Seq<char>) -> Seq<Seq<char>> {
    scan_quoted(s, 0, None, Seq::empty())
}

/// A task listing's string table holds three type names, then three strings
/// for each task (its id, its problem's name, its count of accepted
/// submissions), then three column headers.
pub open spec fn task_count(table: Seq<Seq<char>>) -> int {
    if table.len() >= 6 {
        (table.len() - 6) / 3
    } else {
        0
    }
}

/// The id of the `k`-th task of a listing's string table.
pub open spec fn listed_id(table: Seq<Seq<char>>, k: int) -> Seq<char> {
    table[3 + 3 * k]
}

/// The problem name of the `k`-th task of a listing's string table.
pub open spec fn listed_name(table: Seq<Seq<char>>, k: int) -> Seq<char> {
    table[4 + 3 * k]
}

pub open spec fn views(v: Seq<String>) -> Seq<Seq<char>> {
    v.map_values(|x: String| x@)
}

fn quoted_strings(s: &str) -> (r: Vec<String>)
    ensures
        views(r@) == string_table(s@),
{
    let n = s.unicode_len();
    let mut acc: Vec<String> = Vec::new();
    let mut open: Option<usize> = None;
    let mut i: usize = 0;
    assert(views(acc@) =~= Seq::<Seq<char>>::empty());
    while i < n
        invariant
            n == s@.len(),
            i <= n,
            match open {
                Some(b) => b <= i,
                None => true,
            },
            string_table(s@) == scan_quoted(
                s@,
                i as int,
                match open {
                    Some(b) => Some(b as int),
                    None => None,
                },
                views(acc@),
            ),
        decreases n - i,
    {
        let c = s.get_char(i);
        match open {
            None => {
                if c == '"' {
                    open = Some(i + 1);
                }
                i = i + 1;
            },
            Some(b) => {
                if c == '\\' {
                    let ghost before = i;
                    i = if i + 1 < n { i + 2 } else { n };
                    assert(scan_quoted(s@, i as int, Some(b as int), views(acc@))
                        == scan_quoted(s@, before + 2, Some(b as int), views(acc@)));
                } else if c == '"' {
                    let piece = s.substring_char(b, i).to_owned();
                    let ghost before = views(acc@);
                    acc.push(piece);
                    assert(views(acc@) =~= before.push(s@.subrange(b as int, i as int)));
                    open = None;
                    i = i + 1;
                } else {
                    i = i + 1;
                }
            },
        }
    }
    acc
}

/// Reads the tasks out of a task listing. Their language is left unset.
pub fn parse_tasks(listing: &str) -> (r: Vec<Task>)
    ensures
        r@.len() == task_count(string_table(listing@)),
        forall|k: int|
            0 <= k < r@.len() ==> {
                &&& (#[trigger] r@[k]).id@ == listed_id(string_table(listing@), k)
                &&& r@[k].problem_name@ == listed_name(string_table(listing@), k)
                &&& r@[k].language == Language::Unsupported
            },
{
    let table = quoted_strings(listing);
    let ghost t = string_table(listing@);
    let mut tasks: Vec<Task> = Vec::new();
    if table.len() < 6 {
        return tasks;
    }
    let len: usize = table.len();
    let count: usize = (len - 6) / 3;
    let mut k: usize = 0;
    assert(3 * count + 6 <= table@.len());
    while k < count
        invariant
            views(table@) == t,
            table@.len() >= 6,
            count == (table@.len() - 6) / 3,
            3 * count + 6 <= table@.len(),
            len == table@.len(),
            k <= count,
            tasks@.len() == k,
            forall|j: int|
                0 <= j < k ==> {
                    &&& (#[trigger] tasks@[j]).id@ == t[3 + 3 * j]
                    &&& tasks@[j].problem_name@ == t[4 + 3 * j]
                    &&& tasks@[j].language == Language::Unsupported
                },
        decreases count - k,
    {
        assert(3 * k + 5 < table@.len());
        let at: usize = 3 + 3 * k;
        let id = table[at].clone();
        let name = table[at + 1].clone();
        assert(id@ == t[3 + 3 * k]);
        assert(name@ == t[4 + 3 * k]);
        tasks.push(Task { id, problem_name: name, language: Language::Unsupported });
        k = k + 1;
    }
    tasks
}

/// Where the first task with the given id stands in the list, if anywhere.
pub fn find_task(tasks: &Vec<Task>, id: &String) -> (r: Option<usize>)
    ensures
        match r {
            Some(i) => i < tasks@.len() && tasks@[i as int].id@ == id@
                && forall|j: int| 0 <= j < i ==> (#[trigger] tasks@[j]).id@ != id@,
            None => forall|j: int| 0 <= j < tasks@.len() ==> (#[trigger] tasks@[j]).id@ != id@,
        },
{
    let mut i: usize = 0;
    while i < tasks.len()
        invariant
            i <= tasks@.len(),
            forall|j: int| 0 <= j < i ==> (#[trigger] tasks@[j]).id@ != id@,
        decreases tasks@.len() - i,
    {
        if tasks[i].id == *id {
            return Some(i);
        }
        i = i + 1;
    }
    None
}

} // verus!
