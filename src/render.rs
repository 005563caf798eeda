use vstd::prelude::*;
use vstd::string::{StrSliceExecFns, StringExecFns};

use crate::branch::Branch;
use crate::listing::is_max_name_len;
use crate::picker::{BranchPicker, PickerView};

verus! {

/// `n` blanks.
pub open spec fn spaces(n: nat) -> Seq<char> {
    Seq::new(n, |_i: int| ' ')
}

/// The text of each line, in order.
pub open spec fn texts(lines: Seq<String>) -> Seq<Seq<char>> {
    lines.map_values(|l: String| l@)
}

/// One row of the list: a `-> ` marker on the selected row (three blanks on
/// the others), the name, blanks up to the width of the name column, then the
/// status after a gap of five blanks.
pub open spec fn branch_row(b: Branch, selected: bool, width: nat) -> Seq<char> {
    (if selected {
        "-> "@
    } else {
        "   "@
    }) + b.name@ + spaces((width - b.name@.len()) as nat) + "     "@ + b.status@
}

/// One entry of the help panel: the key, blanks as wide as the name column,
/// then what the key does.
pub open spec fn help_entry_text(key: Seq<char>, width: nat, effect: Seq<char>) -> Seq<char> {
    "    "@ + key + spaces(width) + "   "@ + effect
}

/// The help panel for the selected branch `name`.
pub open spec fn help_text(width: nat, name: Seq<char>) -> Seq<Seq<char>> {
    seq![
        Seq::empty(),
        Seq::empty(),
        "COMMANDS"@,
        Seq::empty(),
        help_entry_text("d"@, width, "git branch -d "@ + name),
        Seq::empty(),
        help_entry_text("D"@, width, "git branch -D "@ + name),
        Seq::empty(),
        help_entry_text("q"@, width, "Quit app"@),
        Seq::empty(),
    ]
}

/// The name of the selected branch, or nothing when the list is empty.
pub open spec fn selected_name(v: PickerView) -> Seq<char> {
    if v.selected < v.branches.len() {
        v.branches[v.selected as int].name@
    } else {
        Seq::empty()
    }
}

/// The rows of the branch list.
pub open spec fn list_rows(v: PickerView) -> Seq<Seq<char>> {
    Seq::new(
        v.branches.len(),
        |i: int| branch_row(v.branches[i], i == v.selected, v.name_width),
    )
}

/// A whole frame: the header, the list, and the help panel.
pub open spec fn frame_text(v: PickerView) -> Seq<Seq<char>> {
    seq!["BRANCHES"@, Seq::empty()] + list_rows(v) + help_text(v.name_width, selected_name(v))
}

fn blanks(n: usize) -> (r: String)
    ensures
        r@ == spaces(n as nat),
{
    let mut s = String::new();
    let mut i: usize = 0;
    while i < n
        invariant
            i <= n,
            s@ == spaces(i as nat),
        decreases n - i,
    {
        proof {
            reveal_strlit(" ");
        }
        s.append(" ");
        assert(s@ =~= spaces((i + 1) as nat));
        i = i + 1;
    }
    s
}

/// Lays out one row of the list; `width` is the width of the name column.
pub fn branch_row_line(branch: &Branch, selected: bool, width: usize) -> (r: String)
    requires
        branch.name@.len() <= width,
    ensures
        r@ == branch_row(*branch, selected, width as nat),
{
    let mut s = if selected {
        "-> ".to_owned()
    } else {
        "   ".to_owned()
    };
    let len = branch.name.as_str().unicode_len();
    s.append(branch.name.as_str());
    s.append(blanks(width - len).as_str());
    s.append("     ");
    s.append(branch.status.as_str());
    s
}

fn help_entry(key: &str, width: usize, effect: &str) -> (r: String)
    ensures
        r@ == help_entry_text(key@, width as nat, effect@),
{
    let mut s = "    ".to_owned();
    s.append(key);
    s.append(blanks(width).as_str());
    s.append("   ");
    s.append(effect);
    s
}

/// Lays out the help panel for the selected branch `name`.
pub fn help_lines(width: usize, name: &str) -> (r: Vec<String>)
    ensures
        texts(r@) == help_text(width as nat, name@),
{
    let safe = "git branch -d ".to_owned().concat(name);
    let force = "git branch -D ".to_owned().concat(name);
    let r = vec![
        String::new(),
        String::new(),
        "COMMANDS".to_owned(),
        String::new(),
        help_entry("d", width, safe.as_str()),
        String::new(),
        help_entry("D", width, force.as_str()),
        String::new(),
        help_entry("q", width, "Quit app"),
        String::new(),
    ];
    assert(texts(r@) =~= help_text(width as nat, name@));
    r
}

impl BranchPicker {
    /// The lines of the next frame, top to bottom.
    pub fn frame_lines(&self) -> (r: Vec<String>)
        requires
            self.wf(),
        ensures
            texts(r@) == frame_text(self@),
    {
        let branches = self.branches();
        let width = self.name_width();
        let selected = self.selected();
        let mut lines: Vec<String> = vec!["BRANCHES".to_owned(), String::new()];
        let mut i: usize = 0;
        while i < branches.len()
            invariant
                i <= branches@.len(),
                branches@ == self@.branches,
                width == self@.name_width,
                selected == self@.selected,
                is_max_name_len(branches@, width as nat),
                texts(lines@) =~= seq!["BRANCHES"@, Seq::<char>::empty()] + list_rows(self@).take(
                    i as int,
                ),
            decreases branches@.len() - i,
        {
            let row = branch_row_line(&branches[i], i == selected, width);
            let ghost prev = lines@;
            lines.push(row);
            assert(texts(lines@) =~= texts(prev).push(row@));
            assert(list_rows(self@)[i as int] == row@);
            assert(list_rows(self@).take(i + 1) =~= list_rows(self@).take(i as int).push(row@));
            i = i + 1;
        }
        assert(list_rows(self@).take(i as int) =~= list_rows(self@));
        let help = match self.selected_branch() {
            Some(b) => help_lines(width, b.name.as_str()),
            None => {
                proof {
                    reveal_strlit("");
                }
                help_lines(width, "")
            },
        };
        let ghost before = lines@;
        let mut j: usize = 0;
        while j < help.len()
            invariant
                j <= help@.len(),
                texts(lines@) =~= texts(before) + texts(help@).take(j as int),
            decreases help@.len() - j,
        {
            let ghost prev = lines@;
            lines.push(help[j].clone());
            assert(texts(lines@) =~= texts(prev).push(help@[j as int]@));
            assert(texts(help@).take(j + 1) =~= texts(help@).take(j as int).push(help@[j as int]@));
            j = j + 1;
        }
        assert(texts(help@).take(j as int) =~= texts(help@));
        assert(texts(help@) == help_text(width as nat, selected_name(self@)));
        lines
    }
}

} // verus!
