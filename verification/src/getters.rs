//! Parsers for whole command outputs: the status report, the commit history,
//! the branch list and the repository root.

use crate::text::{
    chars_of, is_blank, is_blank_chars, lines, split_lines, string_of, trim, trim_chars,
};
use crate::types::{
    branch_of_line, commit_of_line, new_branch_placeholder_name, project_file_of_line, views_of,
    Branch, BranchView, Commit, CommitView, ParseError, ProjectFile, ProjectFileView,
};
use vstd::prelude::*;

verus! {

/// The lines of `output` that hold more than whitespace, in order.
pub open spec fn non_blank_lines(output: Seq<char>) -> Seq<Seq<char>> {
    lines(output).filter(|line: Seq<char>| !is_blank(line))
}

/// The entries of a status report: one for each line that is not blank, in
/// the order of the lines.
pub open spec fn status_entries(output: Seq<char>) -> Seq<ProjectFileView> {
    non_blank_lines(output).map_values(|line: Seq<char>| project_file_of_line(line))
}

/// The entries of a status report that are staged (`staged` is true) or that
/// are not (`staged` is false), in the order of the lines.
pub open spec fn status_entries_staged(output: Seq<char>, staged: bool) -> Seq<
    ProjectFileView,
> {
    status_entries(output).filter(|entry: ProjectFileView| entry.is_staged() == staged)
}

/// `lines` without the blank lines at its end.
pub open spec fn without_trailing_blank_lines(lines: Seq<Seq<char>>) -> Seq<Seq<char>>
    decreases lines.len(),
{
    if lines.len() > 0 && is_blank(lines.last()) {
        without_trailing_blank_lines(lines.drop_last())
    } else {
        lines
    }
}

/// The lines of a commit history that stand for commits: all of its lines
/// but the blank ones at its end.
pub open spec fn history_lines(output: Seq<char>) -> Seq<Seq<char>> {
    without_trailing_blank_lines(lines(output))
}

/// Whether every line of a commit history has its three fields, blank lines
/// at its end aside.
pub open spec fn is_commit_history(output: Seq<char>) -> bool {
    forall|i: int|
        0 <= i < history_lines(output).len() ==> commit_of_line(
            #[trigger] history_lines(output)[i],
        ) is Some
}

/// The commits of a history: one for each of its lines, in the order of the
/// lines, blank lines at its end aside.
pub open spec fn commit_history(output: Seq<char>) -> Seq<CommitView> {
    history_lines(output).map_values(|line: Seq<char>| commit_of_line(line).unwrap())
}

/// The entry that stands for creating a branch.
pub open spec fn new_branch_placeholder() -> BranchView {
    BranchView { name: new_branch_placeholder_name(), is_checked_out: false }
}

/// The entries of a branch list: one for each line, in the order of the
/// lines, and behind them the entry that stands for creating a branch.
pub open spec fn branches(output: Seq<char>) -> Seq<BranchView> {
    lines(output).map_values(|line: Seq<char>| branch_of_line(line)).push(
        new_branch_placeholder(),
    )
}

/// The lines of `output` that are not blank, in order, each as a part of
/// `output`.
fn split_non_blank_lines<'a>(output: &'a [char]) -> (kept: Vec<&'a [char]>)
    ensures
        kept.len() == non_blank_lines(output@).len(),
        forall|i: int| 0 <= i < kept.len() ==> (#[trigger] kept[i])@ == non_blank_lines(output@)[i],
{
    let all = split_lines(output);
    let ghost not_blank = |line: Seq<char>| !is_blank(line);
    let mut kept: Vec<&'a [char]> = Vec::new();
    let mut i: usize = 0;
    proof {
        reveal(Seq::filter);
    }
    while i < all.len()
        invariant
            i <= all.len(),
            all.len() == lines(output@).len(),
            forall|j: int| 0 <= j < all.len() ==> (#[trigger] all[j])@ == lines(output@)[j],
            not_blank == |line: Seq<char>| !is_blank(line),
            kept.len() == lines(output@).take(i as int).filter(not_blank).len(),
            forall|j: int|
                0 <= j < kept.len() ==> (#[trigger] kept[j])@ == lines(output@).take(
                    i as int,
                ).filter(not_blank)[j],
        decreases all.len() - i,
    {
        let line = all[i];
        proof {
            reveal(Seq::filter);
            assert(lines(output@).take(i + 1).drop_last() == lines(output@).take(i as int));
        }
        if !is_blank_chars(line) {
            kept.push(line);
        }
        i += 1;
    }
    assert(lines(output@).take(i as int) == lines(output@));
    kept
}

/// The repository root that the version-control tool printed: its output
/// without the whitespace around it.
pub fn get_git_root_dir(command_output: &str) -> (root: String)
    ensures
        root@ == trim(command_output@),
{
    let chars = chars_of(command_output);
    string_of(trim_chars(chars.as_slice()))
}

/// Parses a status report. Blank lines are passed over; every other line
/// gives one entry, whatever it holds.
pub fn get_modified_files(command_output: &str) -> (files: Vec<ProjectFile>)
    ensures
        views_of(files@) == status_entries(command_output@),
{
    let chars = chars_of(command_output);
    let kept = split_non_blank_lines(chars.as_slice());
    let mut files: Vec<ProjectFile> = Vec::new();
    let mut i: usize = 0;
    while i < kept.len()
        invariant
            i <= kept.len(),
            chars@ == command_output@,
            kept.len() == non_blank_lines(chars@).len(),
            forall|j: int|
                0 <= j < kept.len() ==> (#[trigger] kept[j])@ == non_blank_lines(chars@)[j],
            files.len() == i,
            forall|j: int|
                0 <= j < i ==> (#[trigger] files[j])@ == project_file_of_line(
                    non_blank_lines(chars@)[j],
                ),
        decreases kept.len() - i,
    {
        files.push(ProjectFile::from_chars(kept[i]));
        i += 1;
    }
    files
}

/// Parses a status report and keeps the entries that are staged
/// (`staged` is true) or those that are not (`staged` is false).
fn files_staged(command_output: &str, staged: bool) -> (files: Vec<ProjectFile>)
    ensures
        views_of(files@) == status_entries_staged(command_output@, staged),
{
    let all = get_modified_files(command_output);
    let ghost entries = status_entries(command_output@);
    let ghost wanted = |entry: ProjectFileView| entry.is_staged() == staged;
    let mut files: Vec<ProjectFile> = Vec::new();
    let mut i: usize = 0;
    proof {
        reveal(Seq::filter);
    }
    while i < all.len()
        invariant
            i <= all.len(),
            views_of(all@) == entries,
            wanted == |entry: ProjectFileView| entry.is_staged() == staged,
            views_of(files@) == entries.take(i as int).filter(wanted),
        decreases all.len() - i,
    {
        let file = &all[i];
        proof {
            reveal(Seq::filter);
            assert(entries.take(i + 1).drop_last() == entries.take(i as int));
        }
        if file.is_staged() == staged {
            files.push(ProjectFile { file_path: file.file_path.clone(), state: file.state });
        }
        i += 1;
    }
    assert(entries.take(i as int) == entries);
    files
}

/// Parses a status report and keeps the entries that are staged.
pub fn get_staged_files(command_output: &str) -> (files: Vec<ProjectFile>)
    ensures
        views_of(files@) == status_entries_staged(command_output@, true),
{
    files_staged(command_output, true)
}

/// Parses a status report and keeps the entries that are not staged.
pub fn get_not_staged_files(command_output: &str) -> (files: Vec<ProjectFile>)
    ensures
        views_of(files@) == status_entries_staged(command_output@, false),
{
    files_staged(command_output, false)
}

/// Parses a commit history. Blank lines at its end are passed over. The
/// history is refused as a whole if and only if one of its other lines lacks
/// a field.
pub fn get_commit_history(command_output: &str) -> (parsed: Result<Vec<Commit>, ParseError>)
    ensures
        match parsed {
            Ok(commits) => is_commit_history(command_output@) && views_of(commits@)
                == commit_history(command_output@),
            Err(error) => !is_commit_history(command_output@) && error
                == ParseError::MalformedCommitLine,
        },
{
    let chars = chars_of(command_output);
    let all = split_lines(chars.as_slice());
    let ghost all_lines = lines(chars@);
    let mut end: usize = all.len();
    assert(all_lines.take(end as int) == all_lines);
    while end > 0 && is_blank_chars(all[end - 1])
        invariant
            end <= all.len(),
            all.len() == all_lines.len(),
            forall|j: int| 0 <= j < all.len() ==> (#[trigger] all[j])@ == all_lines[j],
            without_trailing_blank_lines(all_lines) == without_trailing_blank_lines(
                all_lines.take(end as int),
            ),
        decreases end,
    {
        assert(all_lines.take(end as int).drop_last() == all_lines.take(end - 1));
        end -= 1;
    }
    let ghost kept = all_lines.take(end as int);
    assert(history_lines(command_output@) == kept);
    let mut commits: Vec<Commit> = Vec::new();
    let mut i: usize = 0;
    while i < end
        invariant
            i <= end <= all.len(),
            all.len() == all_lines.len(),
            forall|j: int| 0 <= j < all.len() ==> (#[trigger] all[j])@ == all_lines[j],
            kept == all_lines.take(end as int),
            kept == history_lines(command_output@),
            commits.len() == i,
            forall|j: int| 0 <= j < i ==> commit_of_line(#[trigger] kept[j]) is Some,
            forall|j: int| 0 <= j < i ==> Some((#[trigger] commits[j])@) == commit_of_line(kept[j]),
        decreases end - i,
    {
        match Commit::from_chars(all[i]) {
            Ok(commit) => {
                commits.push(commit);
            },
            Err(error) => {
                assert(commit_of_line(kept[i as int]) is None);
                return Err(error);
            },
        }
        i += 1;
    }
    Ok(commits)
}

/// Parses a branch list: one entry for each line, then the entry that stands
/// for creating a branch.
pub fn get_branches(command_output: &str) -> (list: Vec<Branch>)
    ensures
        views_of(list@) == branches(command_output@),
{
    let chars = chars_of(command_output);
    let all = split_lines(chars.as_slice());
    let mut list: Vec<Branch> = Vec::new();
    let mut i: usize = 0;
    while i < all.len()
        invariant
            i <= all.len(),
            chars@ == command_output@,
            all.len() == lines(chars@).len(),
            forall|j: int| 0 <= j < all.len() ==> (#[trigger] all[j])@ == lines(chars@)[j],
            list.len() == i,
            forall|j: int|
                0 <= j < i ==> (#[trigger] list[j])@ == branch_of_line(lines(chars@)[j]),
        decreases all.len() - i,
    {
        list.push(Branch::from_chars(all[i]));
        i += 1;
    }
    list.push(Branch::new_branch_placeholder());
    list
}

} // verus!
