use vstd::prelude::*;
use vstd::string::StrSliceExecFns;

use crate::keys::DeleteMode;

verus! {

/// The text that the version-control tool's bytes are read as: invalid UTF-8
/// sequences are replaced, never rejected.
pub uninterp spec fn utf8_lossy(bytes: Seq<u8>) -> Seq<char>;

/// Relies on `String::from_utf8_lossy`: decodes the bytes as UTF-8, putting
/// U+FFFD in place of each invalid sequence; the result depends on the bytes
/// alone.
#[verifier::external_body]
pub(crate) fn lossy_text(bytes: &[u8]) -> (r: String)
    ensures
        r@ == utf8_lossy(bytes@),
{
    String::from_utf8_lossy(bytes).into_owned()
}

/// The status shown beside the branch that is checked out.
pub open spec fn current_branch_status() -> Seq<char> {
    "(current branch)"@
}

/// The branch name carried by one listing line: the line without its
/// two-character prefix (marker and space).
pub open spec fn name_of_line(line: Seq<char>) -> Seq<char> {
    if line.len() >= 2 {
        line.subrange(2, line.len() as int)
    } else {
        Seq::empty()
    }
}

/// The initial status of the branch on one listing line: the current-branch
/// marker when the line starts with `*`, else empty.
pub open spec fn status_of_line(line: Seq<char>) -> Seq<char> {
    if line.len() > 0 && line[0] == '*' {
        current_branch_status()
    } else {
        Seq::empty()
    }
}

/// The flag that selects a delete mode on the command line.
pub open spec fn flag_of(mode: DeleteMode) -> Seq<char> {
    match mode {
        DeleteMode::Safe => "-d"@,
        DeleteMode::Force => "-D"@,
    }
}

impl DeleteMode {
    /// The command-line flag of this mode: `-d` or `-D`.
    pub fn flag(&self) -> (r: &'static str)
        ensures
            r@ == flag_of(*self),
    {
        match self {
            DeleteMode::Safe => "-d",
            DeleteMode::Force => "-D",
        }
    }
}

/// One local branch and the last message about it.
#[derive(Debug)]
pub struct Branch {
    /// The branch name, without the listing's marker.
    pub name: String,
    /// Empty, the current-branch marker, or the output of the last delete
    /// attempt.
    pub status: String,
}

impl Branch {
    /// Reads one line of the branch listing: `"<marker> <name>"`, where the
    /// marker is `*` for the current branch.
    pub fn from_line(line: &str) -> (r: Branch)
        ensures
            r.name@ == name_of_line(line@),
            r.status@ == status_of_line(line@),
    {
        let n = line.unicode_len();
        let status = if n > 0 && line.get_char(0) == '*' {
            "(current branch)".to_owned()
        } else {
            String::new()
        };
        let name = if n >= 2 {
            line.substring_char(2, n).to_owned()
        } else {
            String::new()
        };
        Branch { name, status }
    }

    /// The arguments that delete this branch in the given mode:
    /// `branch <flag> <name>`.
    pub fn delete_args(&self, mode: DeleteMode) -> (r: Vec<String>)
        ensures
            r@.len() == 3,
            r@[0]@ == "branch"@,
            r@[1]@ == flag_of(mode),
            r@[2]@ == self.name@,
    {
        let flag = mode.flag().to_owned();
        vec!["branch".to_owned(), flag, self.name.clone()]
    }

    /// Records the outcome of a delete attempt: the standard output when the
    /// command succeeded, its standard error when it failed. The name is
    /// kept.
    pub fn record_delete_outcome(&mut self, succeeded: bool, stdout: &[u8], stderr: &[u8])
        ensures
            final(self).name == old(self).name,
            final(self).status@ == utf8_lossy(if succeeded { stdout@ } else { stderr@ }),
    {
        let bytes = if succeeded { stdout } else { stderr };
        self.status = lossy_text(bytes);
    }
}

} // verus!
