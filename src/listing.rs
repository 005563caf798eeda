use vstd::prelude::*;
use vstd::string::StrSliceExecFns;

use crate::branch::{Branch, lossy_text, name_of_line, status_of_line, utf8_lossy};

verus! {

/// A line without the carriage return of a `\r\n` ending.
pub open spec fn trim_cr(line: Seq<char>) -> Seq<char> {
    if line.len() > 0 && line.last() == '\r' {
        line.drop_last()
    } else {
        line
    }
}

/// Appends a finished line to the lines read so far, unless it is empty.
pub open spec fn push_line(lines: Seq<Seq<char>>, line: Seq<char>) -> Seq<Seq<char>> {
    if trim_cr(line).len() > 0 {
        lines.push(trim_cr(line))
    } else {
        lines
    }
}

/// Reads `s` from the left: the non-empty lines finished so far, and the
/// characters of the line still open.
pub open spec fn scan_lines(s: Seq<char>) -> (Seq<Seq<char>>, Seq<char>)
    decreases s.len(),
{
    if s.len() == 0 {
        (Seq::empty(), Seq::empty())
    } else {
        let (lines, open) = scan_lines(s.drop_last());
        if s.last() == '\n' {
            (push_line(lines, open), Seq::empty())
        } else {
            (lines, open.push(s.last()))
        }
    }
}

/// The non-empty lines of `s`, in order, each without its line ending.
pub open spec fn listed_lines(s: Seq<char>) -> Seq<Seq<char>> {
    push_line(scan_lines(s).0, scan_lines(s).1)
}

/// `records` holds one branch per line of `lines`, in the same order, each
/// read as `Branch::from_line` reads it.
pub open spec fn records_of_lines(records: Seq<Branch>, lines: Seq<Seq<char>>) -> bool {
    &&& records.len() == lines.len()
    &&& forall|i: int|
        0 <= i < records.len() ==> {
            &&& #[trigger] records[i].name@ == name_of_line(lines[i])
            &&& records[i].status@ == status_of_line(lines[i])
        }
}

/// `m` is the greatest name length among `branches`, or 0 when there are
/// none.
pub open spec fn is_max_name_len(branches: Seq<Branch>, m: nat) -> bool {
    &&& forall|i: int| 0 <= i < branches.len() ==> #[trigger] branches[i].name@.len() <= m
    &&& branches.len() == 0 ==> m == 0
    &&& branches.len() > 0 ==> exists|i: int|
        0 <= i < branches.len() && #[trigger] branches[i].name@.len() == m
}

/// Appends the branch of the line `text[start..end]`, if it is not empty.
fn push_record(
    records: &mut Vec<Branch>,
    text: &str,
    start: usize,
    end: usize,
    Ghost(lines): Ghost<Seq<Seq<char>>>,
)
    requires
        start <= end <= text@.len(),
        records_of_lines(old(records)@, lines),
    ensures
        records_of_lines(final(records)@, push_line(lines, text@.subrange(start as int, end as int))),
{
    let ghost line = text@.subrange(start as int, end as int);
    let mut stop = end;
    if end > start && text.get_char(end - 1) == '\r' {
        stop = end - 1;
        assert(trim_cr(line) =~= text@.subrange(start as int, stop as int));
    } else {
        assert(trim_cr(line) =~= text@.subrange(start as int, stop as int));
    }
    if stop > start {
        let record = Branch::from_line(text.substring_char(start, stop));
        records.push(record);
        assert(records_of_lines(records@, push_line(lines, line))) by {
            let lines2 = push_line(lines, line);
            assert forall|i: int| 0 <= i < records@.len() implies {
                &&& #[trigger] records@[i].name@ == name_of_line(lines2[i])
                &&& records@[i].status@ == status_of_line(lines2[i])
            } by {
                if i < lines.len() {
                    assert(records@[i] == old(records)@[i]);
                }
            }
        }
    }
}

/// Reads the branch listing: one branch for each non-empty line, in order.
/// Lines end with `\n` or `\r\n`; the last one needs no ending.
pub fn parse_listing(text: &str) -> (r: Vec<Branch>)
    ensures
        records_of_lines(r@, listed_lines(text@)),
{
    let n = text.unicode_len();
    let mut records: Vec<Branch> = Vec::new();
    let mut start: usize = 0;
    let mut i: usize = 0;
    while i < n
        invariant
            start <= i <= n,
            n == text@.len(),
            scan_lines(text@.subrange(0, i as int)).1 == text@.subrange(start as int, i as int),
            records_of_lines(records@, scan_lines(text@.subrange(0, i as int)).0),
        decreases n - i,
    {
        let c = text.get_char(i);
        let ghost prefix = text@.subrange(0, i + 1);
        assert(prefix.drop_last() =~= text@.subrange(0, i as int));
        if c == '\n' {
            push_record(&mut records, text, start, i, Ghost(scan_lines(text@.subrange(0, i as int)).0));
            start = i + 1;
            assert(text@.subrange(start as int, i + 1) =~= Seq::<char>::empty());
        } else {
            assert(text@.subrange(start as int, i as int).push(c) =~= text@.subrange(start as int, i + 1));
        }
        i = i + 1;
    }
    assert(text@.subrange(0, n as int) =~= text@);
    push_record(&mut records, text, start, n, Ghost(scan_lines(text@).0));
    records
}

/// The length of the longest branch name, in characters; 0 for no branches.
pub fn max_branch_name_len(branches: &Vec<Branch>) -> (r: usize)
    ensures
        is_max_name_len(branches@, r as nat),
{
    let mut best: usize = 0;
    let mut i: usize = 0;
    while i < branches.len()
        invariant
            i <= branches@.len(),
            forall|j: int| 0 <= j < i ==> #[trigger] branches@[j].name@.len() <= best,
            i == 0 ==> best == 0,
            i > 0 ==> exists|j: int| 0 <= j < i && #[trigger] branches@[j].name@.len() == best,
        decreases branches@.len() - i,
    {
        let len = branches[i].name.as_str().unicode_len();
        if len > best || i == 0 {
            best = len;
            assert(branches@[i as int].name@.len() == best);
        }
        i = i + 1;
    }
    best
}

/// Reads the raw output of the branch-listing command: the branches in order,
/// and the length of the longest name.
pub fn branches_from_output(output: &[u8]) -> (r: (Vec<Branch>, usize))
    ensures
        records_of_lines(r.0@, listed_lines(utf8_lossy(output@))),
        is_max_name_len(r.0@, r.1 as nat),
{
    let text = lossy_text(output);
    let branches = parse_listing(text.as_str());
    let width = max_branch_name_len(&branches);
    (branches, width)
}

} // verus!
