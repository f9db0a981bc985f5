//! The commands that the version-control tool is run with, as plain values.

use crate::types::views_of;
use vstd::prelude::*;

verus! {

/// One run of the version-control tool.
#[derive(Clone, Debug)]
pub enum GitCommand {
    /// Shows the state of the working tree.
    Status,
    /// Shows the history, oldest commit first.
    Log,
    /// Shows what has changed in the working tree.
    Diff,
    /// Records what is staged.
    Commit,
    /// Sends the commits to the remote repository.
    Push,
    /// Fetches the commits of the remote repository.
    Pull,
    /// Puts the file of this path into the staging area.
    Add(String),
    /// Takes the file of this path out of the staging area.
    Reset(String),
    /// Checks out the commit or branch of this name.
    Checkout(String),
    /// Makes a branch of this name.
    CreateBranch(String),
    /// Asks for the root directory of the repository.
    RootDir,
    /// Asks for the status report that is read by programs.
    ModifiedFiles,
    /// Asks for the history, one line for each commit.
    CommitHistory,
    /// Asks for the list of branches.
    Branches,
}

/// The mathematical value of a `GitCommand`.
pub ghost enum GitCommandView {
    Status,
    Log,
    Diff,
    Commit,
    Push,
    Pull,
    Add(Seq<char>),
    Reset(Seq<char>),
    Checkout(Seq<char>),
    CreateBranch(Seq<char>),
    RootDir,
    ModifiedFiles,
    CommitHistory,
    Branches,
}

impl View for GitCommand {
    type V = GitCommandView;

    open spec fn view(&self) -> GitCommandView {
        match self {
            GitCommand::Status => GitCommandView::Status,
            GitCommand::Log => GitCommandView::Log,
            GitCommand::Diff => GitCommandView::Diff,
            GitCommand::Commit => GitCommandView::Commit,
            GitCommand::Push => GitCommandView::Push,
            GitCommand::Pull => GitCommandView::Pull,
            GitCommand::Add(path) => GitCommandView::Add(path@),
            GitCommand::Reset(path) => GitCommandView::Reset(path@),
            GitCommand::Checkout(name) => GitCommandView::Checkout(name@),
            GitCommand::CreateBranch(name) => GitCommandView::CreateBranch(name@),
            GitCommand::RootDir => GitCommandView::RootDir,
            GitCommand::ModifiedFiles => GitCommandView::ModifiedFiles,
            GitCommand::CommitHistory => GitCommandView::CommitHistory,
            GitCommand::Branches => GitCommandView::Branches,
        }
    }
}

impl GitCommandView {
    /// The arguments that the tool is run with.
    pub open spec fn arguments(self) -> Seq<Seq<char>> {
        match self {
            GitCommandView::Status => seq!["status"@],
            GitCommandView::Log => seq!["--no-pager"@, "log"@, "--reverse"@],
            GitCommandView::Diff => seq!["--no-pager"@, "diff"@, "--reverse"@],
            GitCommandView::Commit => seq!["commit"@],
            GitCommandView::Push => seq!["push"@],
            GitCommandView::Pull => seq!["pull"@],
            GitCommandView::Add(path) => seq!["add"@, path],
            GitCommandView::Reset(path) => seq!["reset"@, path],
            GitCommandView::Checkout(name) => seq!["checkout"@, name],
            GitCommandView::CreateBranch(name) => seq!["branch"@, name],
            GitCommandView::RootDir => seq!["rev-parse"@, "--show-toplevel"@],
            GitCommandView::ModifiedFiles => seq!["status"@, "--porcelain"@],
            GitCommandView::CommitHistory => seq!["log"@, "--pretty=format:%h | %aD | %s"@],
            GitCommandView::Branches => seq!["branch"@],
        }
    }

    /// What is reported where the tool cannot be run.
    pub open spec fn failure_message(self) -> Seq<char> {
        match self {
            GitCommandView::Status => "git status failed"@,
            GitCommandView::Log => "git log failed"@,
            GitCommandView::Diff => "git diff failed"@,
            GitCommandView::Commit => "git commit failed"@,
            GitCommandView::Push => "git push failed"@,
            GitCommandView::Pull => "git pull failed"@,
            GitCommandView::Add(path) => "git add \""@ + path + "\" failed"@,
            GitCommandView::Reset(path) => "git reset \""@ + path + "\" failed"@,
            GitCommandView::Checkout(name) => "git checkout "@ + name + " failed"@,
            GitCommandView::CreateBranch(name) => "git branch "@ + name + " failed"@,
            GitCommandView::RootDir => "getting git repo root directory failed"@,
            GitCommandView::ModifiedFiles => "getting status of changed files in repo failed"@,
            GitCommandView::CommitHistory => "getting commit history failed"@,
            GitCommandView::Branches => "getting branches failed"@,
        }
    }

    /// Whether the tool runs in the root directory of the repository rather
    /// than in the current directory.
    pub open spec fn runs_in_root_dir(self) -> bool {
        self is Add || self is Reset || self is ModifiedFiles
    }
}

/// The one argument `first`.
fn one_argument(first: &str) -> (arguments: Vec<String>)
    ensures
        views_of(arguments@) == seq![first@],
{
    let mut arguments: Vec<String> = Vec::new();
    arguments.push(String::from_str(first));
    arguments
}

/// The two arguments `first` and `second`.
fn two_arguments(first: &str, second: &str) -> (arguments: Vec<String>)
    ensures
        views_of(arguments@) == seq![first@, second@],
{
    let mut arguments: Vec<String> = Vec::new();
    arguments.push(String::from_str(first));
    arguments.push(String::from_str(second));
    arguments
}

/// The three arguments `first`, `second` and `third`.
fn three_arguments(first: &str, second: &str, third: &str) -> (arguments: Vec<String>)
    ensures
        views_of(arguments@) == seq![first@, second@, third@],
{
    let mut arguments: Vec<String> = Vec::new();
    arguments.push(String::from_str(first));
    arguments.push(String::from_str(second));
    arguments.push(String::from_str(third));
    arguments
}

/// The text `before`, `name`, `after` in one.
fn message_about(before: &str, name: &str, after: &str) -> (message: String)
    ensures
        message@ == before@ + name@ + after@,
{
    let mut message = String::from_str(before);
    message.append(name);
    message.append(after);
    message
}

impl GitCommand {
    /// The arguments that the tool is run with.
    pub fn arguments(&self) -> (arguments: Vec<String>)
        ensures
            views_of(arguments@) == self@.arguments(),
    {
        match self {
            GitCommand::Status => one_argument("status"),
            GitCommand::Log => three_arguments("--no-pager", "log", "--reverse"),
            GitCommand::Diff => three_arguments("--no-pager", "diff", "--reverse"),
            GitCommand::Commit => one_argument("commit"),
            GitCommand::Push => one_argument("push"),
            GitCommand::Pull => one_argument("pull"),
            GitCommand::Add(path) => two_arguments("add", path.as_str()),
            GitCommand::Reset(path) => two_arguments("reset", path.as_str()),
            GitCommand::Checkout(name) => two_arguments("checkout", name.as_str()),
            GitCommand::CreateBranch(name) => two_arguments("branch", name.as_str()),
            GitCommand::RootDir => two_arguments("rev-parse", "--show-toplevel"),
            GitCommand::ModifiedFiles => two_arguments("status", "--porcelain"),
            GitCommand::CommitHistory => two_arguments("log", "--pretty=format:%h | %aD | %s"),
            GitCommand::Branches => one_argument("branch"),
        }
    }

    /// What is reported where the tool cannot be run.
    pub fn failure_message(&self) -> (message: String)
        ensures
            message@ == self@.failure_message(),
    {
        match self {
            GitCommand::Status => String::from_str("git status failed"),
            GitCommand::Log => String::from_str("git log failed"),
            GitCommand::Diff => String::from_str("git diff failed"),
            GitCommand::Commit => String::from_str("git commit failed"),
            GitCommand::Push => String::from_str("git push failed"),
            GitCommand::Pull => String::from_str("git pull failed"),
            GitCommand::Add(path) => message_about("git add \"", path.as_str(), "\" failed"),
            GitCommand::Reset(path) => message_about("git reset \"", path.as_str(), "\" failed"),
            GitCommand::Checkout(name) => message_about(
                "git checkout ",
                name.as_str(),
                " failed",
            ),
            GitCommand::CreateBranch(name) => message_about(
                "git branch ",
                name.as_str(),
                " failed",
            ),
            GitCommand::RootDir => String::from_str("getting git repo root directory failed"),
            GitCommand::ModifiedFiles => String::from_str(
                "getting status of changed files in repo failed",
            ),
            GitCommand::CommitHistory => String::from_str("getting commit history failed"),
            GitCommand::Branches => String::from_str("getting branches failed"),
        }
    }

    /// Whether the tool runs in the root directory of the repository rather
    /// than in the current directory.
    pub fn runs_in_root_dir(&self) -> (in_root: bool)
        ensures
            in_root == self@.runs_in_root_dir(),
    {
        match self {
            GitCommand::Add(_) => true,
            GitCommand::Reset(_) => true,
            GitCommand::ModifiedFiles => true,
            _ => false,
        }
    }
}

} // verus!
