//! The typed entries that command output is parsed into: changed files,
//! commits and branches, and the entries of the action menu.

use crate::text::{
    centered, chars_of, find_separator, first_line_chars, first_separator, is_whitespace,
    lemma_leading_whitespace, lemma_line_end, lemma_trailing_whitespace, lemma_trim, line_end,
    push_spaces, skip_chars, string_of, trim, trim_chars, trim_start, trim_start_chars,
};
use vstd::prelude::*;
use vstd::slice::slice_subrange;

verus! {

/// The views of the items of `items`, in order.
pub open spec fn views_of<T: View>(items: Seq<T>) -> Seq<T::V> {
    Seq::new(items.len(), |i: int| items[i]@)
}

/// What has happened to a file, as far as its working-tree code tells.
#[derive(Clone, Copy, Debug, PartialEq, Eq, Structural)]
pub enum FileState {
    Added,
    Modified,
    Renamed,
    Removed,
    Untracked,
    Unchanged,
    Unknown,
}

/// One changed file of a status report.
#[derive(Clone, Debug)]
pub struct ProjectFile {
    pub file_path: String,
    pub state: FileState,
}

/// The mathematical value of a `ProjectFile`.
pub ghost struct ProjectFileView {
    pub file_path: Seq<char>,
    pub state: FileState,
}

impl ProjectFileView {
    /// A file counts as staged when its working-tree code is a space: it
    /// has no change that the index lacks. A file that is staged and then
    /// changed again therefore counts as not staged.
    pub open spec fn is_staged(self) -> bool {
        self.state == FileState::Unchanged
    }
}

impl View for ProjectFile {
    type V = ProjectFileView;

    open spec fn view(&self) -> ProjectFileView {
        ProjectFileView { file_path: self.file_path@, state: self.state }
    }
}

/// The state that a working-tree code stands for.
pub open spec fn state_of_code(code: char) -> FileState {
    if code == 'A' {
        FileState::Added
    } else if code == 'M' {
        FileState::Modified
    } else if code == 'R' {
        FileState::Renamed
    } else if code == 'D' {
        FileState::Removed
    } else if code == '?' {
        FileState::Untracked
    } else if code == ' ' {
        FileState::Unchanged
    } else {
        FileState::Unknown
    }
}

/// What follows the two-character marker that a line starts with; nothing
/// where the line is shorter than the marker.
pub open spec fn after_marker(line: Seq<char>) -> Seq<char> {
    if line.len() >= 2 {
        line.skip(2)
    } else {
        Seq::empty()
    }
}

/// The entry that a status line stands for. The second character of the
/// line is the working-tree code and decides the state; a line too short to
/// have one is of unknown state. The path is what follows the two code
/// characters, trimmed.
pub open spec fn project_file_of_line(line: Seq<char>) -> ProjectFileView {
    ProjectFileView {
        file_path: trim(after_marker(line)),
        state: if line.len() >= 2 {
            state_of_code(line[1])
        } else {
            FileState::Unknown
        },
    }
}

/// A status line that has its two code characters gives an entry that is
/// staged if and only if the second of them is a space, and that is of
/// unknown state if and only if that character is none of the known codes.
pub proof fn lemma_status_line_state(line: Seq<char>)
    requires
        line.len() >= 2,
    ensures
        project_file_of_line(line).state == state_of_code(line[1]),
        project_file_of_line(line).is_staged() <==> line[1] == ' ',
        project_file_of_line(line).state == FileState::Unknown <==> !(line[1] == 'A' || line[1]
            == 'M' || line[1] == 'R' || line[1] == 'D' || line[1] == '?' || line[1] == ' '),
        line[1] == '?' ==> !project_file_of_line(line).is_staged(),
{
}

impl ProjectFile {
    /// Parses one status line, given as characters.
    pub fn from_chars(line: &[char]) -> (file: ProjectFile)
        ensures
            file@ == project_file_of_line(line@),
    {
        let state = if line.len() >= 2 {
            let code = line[1];
            if code == 'A' {
                FileState::Added
            } else if code == 'M' {
                FileState::Modified
            } else if code == 'R' {
                FileState::Renamed
            } else if code == 'D' {
                FileState::Removed
            } else if code == '?' {
                FileState::Untracked
            } else if code == ' ' {
                FileState::Unchanged
            } else {
                FileState::Unknown
            }
        } else {
            FileState::Unknown
        };
        let file_path = string_of(trim_chars(skip_chars(line, 2)));
        ProjectFile { file_path, state }
    }

    /// Parses one status line.
    pub fn from_line(line: &str) -> (file: ProjectFile)
        ensures
            file@ == project_file_of_line(line@),
    {
        let chars = chars_of(line);
        ProjectFile::from_chars(chars.as_slice())
    }

    pub fn is_staged(&self) -> (staged: bool)
        ensures
            staged == self@.is_staged(),
    {
        match self.state {
            FileState::Unchanged => true,
            _ => false,
        }
    }

    pub fn is_not_staged(&self) -> (not_staged: bool)
        ensures
            not_staged == !self@.is_staged(),
    {
        !self.is_staged()
    }

    /// The text that stands for the file in a menu: its path.
    pub fn render(&self) -> (text: String)
        ensures
            text@ == self@.file_path,
    {
        self.file_path.clone()
    }
}

/// Why command output could not be parsed.
#[derive(Clone, Copy, Debug, PartialEq, Eq, Structural)]
pub enum ParseError {
    /// A line of the history lacks one of its three fields.
    MalformedCommitLine,
}

/// The width, in characters, to which a commit message is cut.
pub const MESSAGE_EXTRACT_WIDTH: usize = 60;

/// One entry of the commit history.
#[derive(Clone, Debug)]
pub struct Commit {
    pub hash: String,
    pub date: String,
    pub message_extract: String,
}

/// The mathematical value of a `Commit`.
pub ghost struct CommitView {
    pub hash: Seq<char>,
    pub date: Seq<char>,
    pub message_extract: Seq<char>,
}

impl View for Commit {
    type V = CommitView;

    open spec fn view(&self) -> CommitView {
        CommitView {
            hash: self.hash@,
            date: self.date@,
            message_extract: self.message_extract@,
        }
    }
}

/// The three fields of a history line: what stands before its first
/// separator, what stands between that and the next one, and all that
/// follows, further separators included. A line with fewer than two
/// separators has no fields.
pub open spec fn commit_fields(line: Seq<char>) -> Option<(Seq<char>, Seq<char>, Seq<char>)> {
    match first_separator(line) {
        None => None,
        Some(i) => {
            let rest = line.skip(i + 3);
            match first_separator(rest) {
                None => None,
                Some(j) => Some((line.take(i), rest.take(j), rest.skip(j + 3))),
            }
        },
    }
}

/// The mark that stands behind a message that is not shown in full.
pub open spec fn ellipsis() -> Seq<char> {
    seq!['.', '.', '.']
}

/// What is shown of a commit message: its first line, cut to
/// `MESSAGE_EXTRACT_WIDTH` characters and then trimmed, with an ellipsis
/// behind it where the message is longer than that.
pub open spec fn message_extract_of(message: Seq<char>) -> Seq<char> {
    let first_line = message.take(line_end(message) as int);
    let cut = if first_line.len() > MESSAGE_EXTRACT_WIDTH {
        first_line.take(MESSAGE_EXTRACT_WIDTH as int)
    } else {
        first_line
    };
    let extract = trim(cut);
    if message.len() > extract.len() {
        extract + ellipsis()
    } else {
        extract
    }
}

/// A message of one line that is wider than `MESSAGE_EXTRACT_WIDTH` is shown
/// as its first `MESSAGE_EXTRACT_WIDTH` characters, trimmed, and an ellipsis.
pub proof fn lemma_message_extract_of_long(message: Seq<char>)
    requires
        message.len() > MESSAGE_EXTRACT_WIDTH,
        forall|i: int| 0 <= i < message.len() ==> #[trigger] message[i] != '\n',
    ensures
        message_extract_of(message) == trim(message.take(MESSAGE_EXTRACT_WIDTH as int))
            + ellipsis(),
        message_extract_of(message).len() <= MESSAGE_EXTRACT_WIDTH + 3,
{
    lemma_line_end(message, message.len() as int);
    assert(message.take(message.len() as int) == message);
    lemma_trim(message.take(MESSAGE_EXTRACT_WIDTH as int));
}

/// A message of one line that is no wider than `MESSAGE_EXTRACT_WIDTH` and
/// has no whitespace at either end is shown as it is, without an ellipsis.
pub proof fn lemma_message_extract_of_short(message: Seq<char>)
    requires
        message.len() <= MESSAGE_EXTRACT_WIDTH,
        forall|i: int| 0 <= i < message.len() ==> #[trigger] message[i] != '\n',
        message.len() > 0 ==> !is_whitespace(message[0]) && !is_whitespace(message.last()),
    ensures
        message_extract_of(message) == message,
{
    lemma_line_end(message, message.len() as int);
    lemma_leading_whitespace(message, 0);
    lemma_trailing_whitespace(message, 0);
}

/// The commit that a history line stands for, if it has its three fields.
pub open spec fn commit_of_line(line: Seq<char>) -> Option<CommitView> {
    match commit_fields(line) {
        None => None,
        Some(fields) => Some(
            CommitView {
                hash: fields.0,
                date: fields.1,
                message_extract: message_extract_of(fields.2),
            },
        ),
    }
}

/// The text between the fields of a history line.
pub open spec fn separator() -> Seq<char> {
    seq![' ', '|', ' ']
}

/// The width, in characters, to which a commit's date is centred for display.
pub const DATE_DISPLAY_WIDTH: usize = 31;

impl CommitView {
    /// The text that stands for the commit in a menu.
    pub open spec fn render(self) -> Seq<char> {
        self.hash + separator() + centered(self.date, DATE_DISPLAY_WIDTH as nat) + separator()
            + self.message_extract
    }
}

/// Computes `message_extract_of`.
fn extract_message(message: &[char]) -> (text: String)
    ensures
        text@ == message_extract_of(message@),
{
    let first_line = first_line_chars(message);
    let cut = if first_line.len() > MESSAGE_EXTRACT_WIDTH {
        slice_subrange(first_line, 0, MESSAGE_EXTRACT_WIDTH)
    } else {
        first_line
    };
    let extract = trim_chars(cut);
    let mut text = string_of(extract);
    if message.len() > extract.len() {
        text.push('.');
        text.push('.');
        text.push('.');
    }
    text
}

/// Appends the separator of fields to `text`.
fn push_separator(text: &mut String)
    ensures
        final(text)@ == old(text)@ + separator(),
{
    text.push(' ');
    text.push('|');
    text.push(' ');
}

impl Commit {
    pub fn message_extract_width() -> (width: usize)
        ensures
            width == MESSAGE_EXTRACT_WIDTH,
    {
        MESSAGE_EXTRACT_WIDTH
    }

    /// Parses one history line, given as characters.
    pub fn from_chars(line: &[char]) -> (parsed: Result<Commit, ParseError>)
        ensures
            match parsed {
                Ok(commit) => commit_of_line(line@) == Some(commit@),
                Err(error) => commit_of_line(line@) is None && error
                    == ParseError::MalformedCommitLine,
            },
    {
        match find_separator(line) {
            None => Err(ParseError::MalformedCommitLine),
            Some(i) => {
                let hash = slice_subrange(line, 0, i);
                let rest = slice_subrange(line, i + 3, line.len());
                match find_separator(rest) {
                    None => Err(ParseError::MalformedCommitLine),
                    Some(j) => {
                        let date = slice_subrange(rest, 0, j);
                        let message = slice_subrange(rest, j + 3, rest.len());
                        Ok(
                            Commit {
                                hash: string_of(hash),
                                date: string_of(date),
                                message_extract: extract_message(message),
                            },
                        )
                    },
                }
            },
        }
    }

    /// Parses one history line. It fails if and only if the line has fewer
    /// than two separators.
    pub fn from_line(line: &str) -> (parsed: Result<Commit, ParseError>)
        ensures
            match parsed {
                Ok(commit) => commit_of_line(line@) == Some(commit@),
                Err(error) => commit_of_line(line@) is None && error
                    == ParseError::MalformedCommitLine,
            },
    {
        let chars = chars_of(line);
        Commit::from_chars(chars.as_slice())
    }

    /// The text that stands for the commit in a menu: hash, date and message,
    /// with the date centred.
    pub fn render(&self) -> (text: String)
        ensures
            text@ == self@.render(),
    {
        let mut text = self.hash.clone();
        push_separator(&mut text);
        let date_len = self.date.as_str().unicode_len();
        if date_len >= DATE_DISPLAY_WIDTH {
            text.append(self.date.as_str());
        } else {
            let fill = DATE_DISPLAY_WIDTH - date_len;
            push_spaces(&mut text, fill / 2);
            text.append(self.date.as_str());
            push_spaces(&mut text, fill - fill / 2);
        }
        push_separator(&mut text);
        text.append(self.message_extract.as_str());
        text
    }
}

/// One branch of the repository.
#[derive(Clone, Debug)]
pub struct Branch {
    pub name: String,
    pub is_checked_out: bool,
}

/// The mathematical value of a `Branch`.
pub ghost struct BranchView {
    pub name: Seq<char>,
    pub is_checked_out: bool,
}

impl View for Branch {
    type V = BranchView;

    open spec fn view(&self) -> BranchView {
        BranchView { name: self.name@, is_checked_out: self.is_checked_out }
    }
}

/// The branch that a line of the branch list stands for. Its first two
/// characters are the marker, which holds an asterisk for the branch that is
/// checked out; the name is what follows, without leading whitespace.
pub open spec fn branch_of_line(line: Seq<char>) -> BranchView {
    BranchView {
        name: trim_start(after_marker(line)),
        is_checked_out: (line.len() >= 1 && line[0] == '*') || (line.len() >= 2 && line[1]
            == '*'),
    }
}

/// The name of the entry that stands for creating a branch.
pub open spec fn new_branch_placeholder_name() -> Seq<char> {
    "[<create new branch>]"@
}

impl BranchView {
    /// The text that stands for the branch in a menu.
    pub open spec fn render(self) -> Seq<char> {
        seq![if self.is_checked_out { '*' } else { ' ' }, ' '] + self.name
    }
}

impl Branch {
    /// Parses one line of the branch list, given as characters.
    pub fn from_chars(line: &[char]) -> (branch: Branch)
        ensures
            branch@ == branch_of_line(line@),
    {
        let name = string_of(trim_start_chars(skip_chars(line, 2)));
        let is_checked_out = (line.len() >= 1 && line[0] == '*') || (line.len() >= 2 && line[1]
            == '*');
        Branch { name, is_checked_out }
    }

    /// Parses one line of the branch list.
    pub fn from_line(line: &str) -> (branch: Branch)
        ensures
            branch@ == branch_of_line(line@),
    {
        let chars = chars_of(line);
        Branch::from_chars(chars.as_slice())
    }

    /// The entry that stands for creating a branch. It is never checked out.
    pub fn new_branch_placeholder() -> (branch: Branch)
        ensures
            branch@.name == new_branch_placeholder_name(),
            !branch@.is_checked_out,
    {
        Branch { name: String::from_str("[<create new branch>]"), is_checked_out: false }
    }

    /// The text that stands for the branch in a menu: an asterisk where it is
    /// checked out, then its name.
    pub fn render(&self) -> (text: String)
        ensures
            text@ == self@.render(),
    {
        let mut text = String::new();
        if self.is_checked_out {
            text.push('*');
        } else {
            text.push(' ');
        }
        text.push(' ');
        text.append(self.name.as_str());
        text
    }
}

/// Two branches are equal when they have the same name, checked out or not.
impl PartialEq for Branch {
    fn eq(&self, other: &Branch) -> (equal: bool) {
        self.name == other.name
    }
}

impl vstd::std_specs::cmp::PartialEqSpecImpl for Branch {
    open spec fn obeys_eq_spec() -> bool {
        true
    }

    open spec fn eq_spec(&self, other: &Branch) -> bool {
        self.name@ == other.name@
    }
}

/// What an entry of the action menu stands for.
#[derive(Clone, Copy, Debug, PartialEq, Eq, Structural)]
pub enum MenuCommand {
    Status,
    Log,
    Diff,
    Staging,
    Commit,
    Checkout,
    Branch,
    Push,
    Pull,
    Exit,
}

/// One entry of the action menu: the name it is shown under and what it
/// stands for.
#[derive(Clone, Debug)]
pub struct Action {
    pub name: String,
    pub command: MenuCommand,
}

/// The mathematical value of an `Action`.
pub ghost struct ActionView {
    pub name: Seq<char>,
    pub command: MenuCommand,
}

impl View for Action {
    type V = ActionView;

    open spec fn view(&self) -> ActionView {
        ActionView { name: self.name@, command: self.command }
    }
}

impl Action {
    pub fn new(name: &str, command: MenuCommand) -> (action: Action)
        ensures
            action@ == (ActionView { name: name@, command }),
    {
        Action { name: String::from_str(name), command }
    }

    /// What is to be done when the entry is chosen.
    pub fn run_action(&self) -> (command: MenuCommand)
        ensures
            command == self@.command,
    {
        self.command
    }

    /// The text that stands for the entry in the menu: its name.
    pub fn render(&self) -> (text: String)
        ensures
            text@ == self@.name,
    {
        self.name.clone()
    }
}

} // verus!
