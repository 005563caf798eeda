use vstd::prelude::*;

use crate::branch::{Branch, utf8_lossy};
use crate::keys::{Action, DeleteMode, Key, action_of, key_to_action};
use crate::listing::{
    branches_from_output, is_max_name_len, listed_lines, max_branch_name_len, records_of_lines,
};

verus! {

/// What the picker holds: the branches in listing order, the index of the
/// highlighted one, and the width of the name column.
pub struct PickerView {
    pub branches: Seq<Branch>,
    pub selected: nat,
    pub name_width: nat,
}

/// What the caller must do after a key press.
#[derive(Clone, Copy, Debug, PartialEq, Eq, Structural)]
pub enum Step {
    /// Draw the next frame and wait for the next key.
    Continue,
    /// Leave the loop; nothing more is drawn.
    Quit,
    /// Run the delete command on the selected branch in this mode, hand its
    /// outcome to `record_delete_outcome`, then draw the next frame.
    Delete(DeleteMode),
}

/// The selection after moving up: one less, stopping at 0.
pub open spec fn moved_up(selected: nat) -> nat {
    if selected > 0 {
        (selected - 1) as nat
    } else {
        0
    }
}

/// The selection after moving down: one more, stopping at the last index.
pub open spec fn moved_down(selected: nat, len: nat) -> nat {
    if selected + 1 < len {
        selected + 1
    } else {
        selected
    }
}

/// The state after a key press, and what the caller must do.
pub open spec fn step_of(v: PickerView, key: Key) -> (PickerView, Step) {
    match action_of(key) {
        Action::MoveUp => (PickerView { selected: moved_up(v.selected), ..v }, Step::Continue),
        Action::MoveDown => (
            PickerView { selected: moved_down(v.selected, v.branches.len()), ..v },
            Step::Continue,
        ),
        Action::Quit => (v, Step::Quit),
        Action::Delete(mode) => (v, if v.branches.len() > 0 {
            Step::Delete(mode)
        } else {
            Step::Continue
        }),
        Action::NoOp => (v, Step::Continue),
    }
}

proof fn lemma_same_names_same_width(a: Seq<Branch>, b: Seq<Branch>, m: nat)
    requires
        is_max_name_len(a, m),
        a.len() == b.len(),
        forall|i: int| 0 <= i < a.len() ==> #[trigger] b[i].name == a[i].name,
    ensures
        is_max_name_len(b, m),
{
    if a.len() > 0 {
        let k = choose|k: int| 0 <= k < a.len() && #[trigger] a[k].name@.len() == m;
        assert(b[k].name == a[k].name);
    }
    assert forall|i: int| 0 <= i < b.len() implies #[trigger] b[i].name@.len() <= m by {
        assert(b[i].name == a[i].name);
    }
}

/// Pressing `q`, Escape or Ctrl+C ends the loop from any state, and leaves
/// the state as it was.
pub proof fn lemma_quit_keys_end_the_loop(v: PickerView, key: Key)
    requires
        key == Key::Char('q') || key == Key::Esc || key == Key::Ctrl('c'),
    ensures
        step_of(v, key) == (v, Step::Quit),
{
}

/// The state of the branch picker between two key presses.
pub struct BranchPicker {
    branches: Vec<Branch>,
    selected: usize,
    name_width: usize,
}

impl View for BranchPicker {
    type V = PickerView;

    closed spec fn view(&self) -> PickerView {
        PickerView {
            branches: self.branches@,
            selected: self.selected as nat,
            name_width: self.name_width as nat,
        }
    }
}

impl BranchPicker {
    /// The selection lies in the list (or is 0 when the list is empty), and
    /// the name column is as wide as the longest name.
    pub open spec fn wf(&self) -> bool {
        &&& (self@.branches.len() == 0 ==> self@.selected == 0)
        &&& (self@.branches.len() > 0 ==> self@.selected < self@.branches.len())
        &&& is_max_name_len(self@.branches, self@.name_width)
    }

    closed spec fn inner_wf(&self) -> bool {
        &&& (self.branches@.len() == 0 ==> self.selected == 0)
        &&& (self.branches@.len() > 0 ==> self.selected < self.branches@.len())
        &&& is_max_name_len(self.branches@, self.name_width as nat)
    }

    proof fn lemma_wf(&self)
        ensures
            self.wf() == self.inner_wf(),
    {
    }

    /// A picker over `branches`, with the first one selected and the name
    /// column as wide as the longest name.
    pub fn new(branches: Vec<Branch>) -> (r: BranchPicker)
        ensures
            r.wf(),
            r@.branches == branches@,
            r@.selected == 0,
    {
        let name_width = max_branch_name_len(&branches);
        BranchPicker { branches, selected: 0, name_width }
    }

    /// A picker over the branches read from the raw output of the listing
    /// command, with the first one selected.
    pub fn from_output(output: &[u8]) -> (r: BranchPicker)
        ensures
            r.wf(),
            records_of_lines(r@.branches, listed_lines(utf8_lossy(output@))),
            r@.selected == 0,
    {
        let (branches, name_width) = branches_from_output(output);
        BranchPicker { branches, selected: 0, name_width }
    }

    /// The branches, in listing order.
    pub fn branches(&self) -> (r: &Vec<Branch>)
        ensures
            r@ == self@.branches,
    {
        &self.branches
    }

    /// The index of the highlighted branch.
    pub fn selected(&self) -> (r: usize)
        ensures
            r == self@.selected,
    {
        self.selected
    }

    /// The width of the name column: the length of the longest name.
    pub fn name_width(&self) -> (r: usize)
        ensures
            r == self@.name_width,
    {
        self.name_width
    }

    /// The highlighted branch; `None` when there are no branches.
    pub fn selected_branch(&self) -> (r: Option<&Branch>)
        requires
            self.wf(),
        ensures
            self@.branches.len() == 0 <==> r is None,
            r matches Some(b) ==> *b == self@.branches[self@.selected as int],
    {
        proof {
            self.lemma_wf();
        }
        if self.selected < self.branches.len() {
            Some(&self.branches[self.selected])
        } else {
            None
        }
    }

    /// Moves the selection one branch up, staying on the first one.
    pub fn move_up(&mut self)
        requires
            old(self).wf(),
        ensures
            final(self).wf(),
            final(self)@ == (PickerView { selected: moved_up(old(self)@.selected), ..old(self)@ }),
            old(self)@.selected == 0 ==> final(self)@.selected == 0,
    {
        proof {
            self.lemma_wf();
        }
        if self.selected > 0 {
            self.selected = self.selected - 1;
        }
        proof {
            self.lemma_wf();
        }
    }

    /// Moves the selection one branch down, staying on the last one.
    pub fn move_down(&mut self)
        requires
            old(self).wf(),
        ensures
            final(self).wf(),
            final(self)@ == (PickerView {
                selected: moved_down(old(self)@.selected, old(self)@.branches.len()),
                ..old(self)@
            }),
            old(self)@.selected + 1 >= old(self)@.branches.len() ==> final(self)@.selected
                == old(self)@.selected,
    {
        proof {
            self.lemma_wf();
        }
        if self.branches.len() > 0 && self.selected < self.branches.len() - 1 {
            self.selected = self.selected + 1;
        }
        proof {
            self.lemma_wf();
        }
    }

    /// Applies one key press: moves the selection, or tells the caller to
    /// quit or to delete the selected branch. A delete key on an empty list
    /// does nothing.
    pub fn step(&mut self, key: Key) -> (r: Step)
        requires
            old(self).wf(),
        ensures
            final(self).wf(),
            (final(self)@, r) == step_of(old(self)@, key),
    {
        match key_to_action(key) {
            Action::MoveUp => {
                self.move_up();
                Step::Continue
            },
            Action::MoveDown => {
                self.move_down();
                Step::Continue
            },
            Action::Quit => Step::Quit,
            Action::Delete(mode) => {
                if self.branches.len() > 0 {
                    Step::Delete(mode)
                } else {
                    Step::Continue
                }
            },
            Action::NoOp => Step::Continue,
        }
    }

    /// Records the outcome of a delete attempt on the selected branch: its
    /// status becomes the command's standard output on success, its standard
    /// error on failure. The branch stays in the list under its name; the
    /// others and the selection are untouched.
    pub fn record_delete_outcome(&mut self, succeeded: bool, stdout: &[u8], stderr: &[u8])
        requires
            old(self).wf(),
        ensures
            final(self).wf(),
            final(self)@.selected == old(self)@.selected,
            final(self)@.name_width == old(self)@.name_width,
            final(self)@.branches.len() == old(self)@.branches.len(),
            forall|i: int|
                0 <= i < old(self)@.branches.len() ==> #[trigger] final(self)@.branches[i].name
                    == old(self)@.branches[i].name,
            forall|i: int|
                0 <= i < old(self)@.branches.len() && i != old(self)@.selected ==> #[trigger] final(self)@.branches[i]
                    == old(self)@.branches[i],
            old(self)@.branches.len() > 0 ==> final(self)@.branches[old(self)@.selected as int].status@
                == utf8_lossy(if succeeded { stdout@ } else { stderr@ }),
    {
        proof {
            self.lemma_wf();
        }
        if self.selected < self.branches.len() {
            let i = self.selected;
            self.branches[i].record_delete_outcome(succeeded, stdout, stderr);
            proof {
                lemma_same_names_same_width(old(self).branches@, self.branches@, self.name_width as nat);
            }
        }
        proof {
            self.lemma_wf();
        }
    }
}

} // verus!
