//! The decisions behind the menu's modes: which files a selection stages or
//! unstages, and which command each step of a mode runs.

use crate::commands::{GitCommand, GitCommandView};
use crate::types::{
    new_branch_placeholder_name, views_of, Action, Branch, BranchView, Commit, CommitView,
    FileState, MenuCommand, ProjectFile, ProjectFileView,
};
use vstd::prelude::*;

verus! {

/// Whether an operation puts a file into the staging area or takes it out.
#[derive(Clone, Copy, Debug, PartialEq, Eq, Structural)]
pub enum OperationKind {
    Stage,
    Unstage,
}

/// One change to the staging area.
#[derive(Clone, Debug)]
pub struct Operation {
    pub kind: OperationKind,
    pub path: String,
}

/// The mathematical value of an `Operation`.
pub ghost struct OperationView {
    pub kind: OperationKind,
    pub path: Seq<char>,
}

impl View for Operation {
    type V = OperationView;

    open spec fn view(&self) -> OperationView {
        OperationView { kind: self.kind, path: self.path@ }
    }
}

/// The operation that brings one file to the wanted state: staging where it
/// is wanted staged and is not, unstaging where it is staged and not wanted
/// so, none where it is as wanted.
pub open spec fn operation_for(entry: ProjectFileView, want_staged: bool) -> Option<
    OperationView,
> {
    if want_staged && !entry.is_staged() {
        Some(OperationView { kind: OperationKind::Stage, path: entry.file_path })
    } else if !want_staged && entry.is_staged() {
        Some(OperationView { kind: OperationKind::Unstage, path: entry.file_path })
    } else {
        None
    }
}

/// Whether `selections` holds `position`.
pub open spec fn is_selected(selections: Seq<usize>, position: int) -> bool {
    exists|k: int| 0 <= k < selections.len() && selections[k] == position
}

/// The operations that bring `entries` to the selection: for each position in
/// ascending order, the operation of the entry there, where it needs one. A
/// position is wanted staged if and only if `selections` holds it.
pub open spec fn reconcile(entries: Seq<ProjectFileView>, selections: Seq<usize>) -> Seq<
    OperationView,
>
    decreases entries.len(),
{
    if entries.len() == 0 {
        Seq::empty()
    } else {
        let before = reconcile(entries.drop_last(), selections);
        let last = entries.len() - 1;
        match operation_for(entries[last], is_selected(selections, last)) {
            Some(operation) => before.push(operation),
            None => before,
        }
    }
}

/// Computes the operations that stage exactly the selected files of
/// `modified_files`. A selection that names a position twice, out of order
/// or beyond the last file selects the same files as without it.
pub fn apply_staging(modified_files: &Vec<ProjectFile>, selections: &Vec<usize>) -> (operations:
    Vec<Operation>)
    ensures
        views_of(operations@) == reconcile(views_of(modified_files@), selections@),
        (forall|i: int|
            0 <= i < modified_files.len() ==> (is_selected(selections@, i) <==> (
            #[trigger] modified_files[i])@.is_staged())) ==> operations.len() == 0,
{
    let n = modified_files.len();
    let mut wanted: Vec<bool> = vec![false; n];
    let mut k: usize = 0;
    while k < selections.len()
        invariant
            k <= selections.len(),
            wanted.len() == n,
            forall|i: int|
                0 <= i < n ==> (#[trigger] wanted[i] <==> is_selected(
                    selections@.take(k as int),
                    i,
                )),
        decreases selections.len() - k,
    {
        let position = selections[k];
        if position < n {
            wanted.set(position, true);
        }
        proof {
            let seen = selections@.take(k as int);
            let next = selections@.take(k + 1);
            assert forall|i: int| 0 <= i < n implies (#[trigger] wanted[i] <==> is_selected(
                next,
                i,
            )) by {
                if is_selected(next, i) {
                    let j = choose|j: int| 0 <= j < next.len() && next[j] == i;
                    if j < k {
                        assert(seen[j] == i);
                    }
                }
                if is_selected(seen, i) {
                    let j = choose|j: int| 0 <= j < seen.len() && seen[j] == i;
                    assert(next[j] == i);
                }
                if i == position {
                    assert(next[k as int] == i);
                }
            }
        }
        k += 1;
    }
    assert(selections@.take(k as int) == selections@);
    let ghost entries = views_of(modified_files@);
    let mut operations: Vec<Operation> = Vec::new();
    let mut i: usize = 0;
    while i < n
        invariant
            i <= n,
            n == modified_files.len(),
            wanted.len() == n,
            entries == views_of(modified_files@),
            forall|j: int| 0 <= j < n ==> (#[trigger] wanted[j] <==> is_selected(selections@, j)),
            views_of(operations@) == reconcile(entries.take(i as int), selections@),
        decreases n - i,
    {
        let current = &modified_files[i];
        let want_staged = wanted[i];
        proof {
            assert(entries.take(i + 1).drop_last() == entries.take(i as int));
        }
        if want_staged && current.is_not_staged() {
            operations.push(
                Operation { kind: OperationKind::Stage, path: current.file_path.clone() },
            );
        } else if !want_staged && current.is_staged() {
            operations.push(
                Operation { kind: OperationKind::Unstage, path: current.file_path.clone() },
            );
        }
        i += 1;
    }
    assert(entries.take(n as int) == entries);
    proof {
        if forall|i: int|
            0 <= i < modified_files.len() ==> (is_selected(selections@, i) <==> (
            #[trigger] modified_files[i])@.is_staged()) {
            lemma_reconcile_staged_selection(entries, selections@);
        }
    }
    operations
}

/// A selection that holds exactly the positions of the staged entries asks
/// for no operation.
pub proof fn lemma_reconcile_staged_selection(
    entries: Seq<ProjectFileView>,
    selections: Seq<usize>,
)
    requires
        forall|i: int|
            0 <= i < entries.len() ==> (is_selected(selections, i)
                <==> #[trigger] entries[i].is_staged()),
    ensures
        reconcile(entries, selections) == Seq::<OperationView>::empty(),
    decreases entries.len(),
{
    if entries.len() > 0 {
        lemma_reconcile_staged_selection(entries.drop_last(), selections);
    }
}

/// The operations depend on the entries and on which of their positions are
/// selected, and on nothing else: two selections that hold the same positions
/// of `entries` give the same operations, whatever their order, and equal
/// inputs give equal operations.
pub proof fn lemma_reconcile_is_determined(
    entries: Seq<ProjectFileView>,
    first: Seq<usize>,
    second: Seq<usize>,
)
    requires
        forall|i: int|
            0 <= i < entries.len() ==> (#[trigger] is_selected(first, i) <==> is_selected(
                second,
                i,
            )),
    ensures
        reconcile(entries, first) == reconcile(entries, second),
    decreases entries.len(),
{
    if entries.len() > 0 {
        lemma_reconcile_is_determined(entries.drop_last(), first, second);
    }
}

/// Every operation belongs to an entry that is not yet as the selection
/// wants it: a file is staged only where it is selected and not staged, and
/// unstaged only where it is staged and not selected. So no file is unstaged
/// that is untracked, and none is operated on that is already as wanted.
pub proof fn lemma_reconcile_operations(entries: Seq<ProjectFileView>, selections: Seq<usize>)
    ensures
        reconcile(entries, selections).len() <= entries.len(),
        forall|k: int|
            0 <= k < reconcile(entries, selections).len() ==> exists|i: int|
                0 <= i < entries.len() && operation_for(
                    entries[i],
                    is_selected(selections, i),
                ) == Some(#[trigger] reconcile(entries, selections)[k]),
    decreases entries.len(),
{
    if entries.len() > 0 {
        let before = entries.drop_last();
        let last = entries.len() - 1;
        lemma_reconcile_operations(before, selections);
        let operations = reconcile(entries, selections);
        assert forall|k: int| 0 <= k < operations.len() implies exists|i: int|
            0 <= i < entries.len() && operation_for(entries[i], is_selected(selections, i))
                == Some(#[trigger] operations[k]) by {
            if k < reconcile(before, selections).len() {
                let i = choose|i: int|
                    0 <= i < before.len() && operation_for(
                        before[i],
                        is_selected(selections, i),
                    ) == Some(reconcile(before, selections)[k]);
                assert(before[i] == entries[i]);
            } else {
                assert(operation_for(entries[last], is_selected(selections, last)) == Some(
                    operations[k],
                ));
            }
        }
    }
}

/// A file is unstaged only where it is staged and not selected. So no
/// untracked file is ever unstaged, nor any other that is not staged.
pub proof fn lemma_reconcile_unstages_only_staged(
    entries: Seq<ProjectFileView>,
    selections: Seq<usize>,
)
    ensures
        forall|k: int|
            0 <= k < reconcile(entries, selections).len() && (#[trigger] reconcile(
                entries,
                selections,
            )[k]).kind == OperationKind::Unstage ==> exists|i: int|
                0 <= i < entries.len() && (#[trigger] entries[i]).state == FileState::Unchanged
                    && !is_selected(selections, i) && entries[i].file_path == reconcile(
                    entries,
                    selections,
                )[k].path,
{
    lemma_reconcile_operations(entries, selections);
    let operations = reconcile(entries, selections);
    assert forall|k: int|
        0 <= k < operations.len() && (#[trigger] operations[k]).kind
            == OperationKind::Unstage implies exists|i: int|
        0 <= i < entries.len() && (#[trigger] entries[i]).state == FileState::Unchanged
            && !is_selected(selections, i) && entries[i].file_path == operations[k].path by {
        let i = choose|i: int|
            0 <= i < entries.len() && operation_for(entries[i], is_selected(selections, i))
                == Some(operations[k]);
        assert(entries[i].state == FileState::Unchanged);
    }
}

/// The operations come in the order of the entries: what a longer list of
/// entries asks for starts with what its first entries ask for.
pub proof fn lemma_reconcile_keeps_order(
    entries: Seq<ProjectFileView>,
    selections: Seq<usize>,
    n: int,
)
    requires
        0 <= n <= entries.len(),
    ensures
        reconcile(entries.take(n), selections).is_prefix_of(reconcile(entries, selections)),
    decreases entries.len(),
{
    if n == entries.len() {
        assert(entries.take(n) == entries);
    } else {
        lemma_reconcile_keeps_order(entries.drop_last(), selections, n);
        assert(entries.drop_last().take(n) == entries.take(n));
    }
}

impl OperationView {
    /// The command that carries the operation out.
    pub open spec fn command(self) -> GitCommandView {
        match self.kind {
            OperationKind::Stage => GitCommandView::Add(self.path),
            OperationKind::Unstage => GitCommandView::Reset(self.path),
        }
    }

    /// What the user is told once the operation is done.
    pub open spec fn report(self) -> Seq<char> {
        match self.kind {
            OperationKind::Stage => self.path + " added to staging area"@,
            OperationKind::Unstage => self.path + " removed from staging area"@,
        }
    }
}

impl Operation {
    /// The command that carries the operation out.
    pub fn command(&self) -> (command: GitCommand)
        ensures
            command@ == self@.command(),
    {
        match self.kind {
            OperationKind::Stage => GitCommand::Add(self.path.clone()),
            OperationKind::Unstage => GitCommand::Reset(self.path.clone()),
        }
    }

    /// What the user is told once the operation is done.
    pub fn report(&self) -> (text: String)
        ensures
            text@ == self@.report(),
    {
        let mut text = self.path.clone();
        match self.kind {
            OperationKind::Stage => text.append(" added to staging area"),
            OperationKind::Unstage => text.append(" removed from staging area"),
        }
        text
    }
}

/// What the staging menu shows: for each file whether it is checked, which
/// it is if and only if it is staged. Without files there is no menu.
pub fn staging_mode(modified_files: &Vec<ProjectFile>) -> (checked: Option<Vec<bool>>)
    ensures
        checked is None <==> modified_files.len() == 0,
        checked matches Some(flags) ==> flags.len() == modified_files.len() && forall|i: int|
            0 <= i < flags.len() ==> flags[i] == (#[trigger] modified_files[i])@.is_staged(),
{
    if modified_files.len() == 0 {
        return None;
    }
    let mut flags: Vec<bool> = Vec::new();
    let mut i: usize = 0;
    while i < modified_files.len()
        invariant
            i <= modified_files.len(),
            flags.len() == i,
            forall|j: int| 0 <= j < i ==> flags[j] == (#[trigger] modified_files[j])@.is_staged(),
        decreases modified_files.len() - i,
    {
        flags.push(modified_files[i].is_staged());
        i += 1;
    }
    Some(flags)
}

/// How a commit goes on, given the files of the status report.
#[derive(Clone, Copy, Debug, PartialEq, Eq, Structural)]
pub enum CommitStep {
    /// No file is staged: there is nothing to commit.
    NothingStaged,
    /// Some files are staged and some are not: the user is asked first.
    ConfirmUnstaged,
    /// Every file is staged: the commit runs.
    Commit,
}

/// Whether one of `entries` is staged (`staged` is true), or one is not
/// (`staged` is false).
pub open spec fn has_entry_staged(entries: Seq<ProjectFileView>, staged: bool) -> bool {
    exists|i: int| 0 <= i < entries.len() && (#[trigger] entries[i]).is_staged() == staged
}

/// How a commit goes on: not at all where no file is staged, after a question
/// where some file is not staged, and at once otherwise.
pub open spec fn commit_step(entries: Seq<ProjectFileView>) -> CommitStep {
    if !has_entry_staged(entries, true) {
        CommitStep::NothingStaged
    } else if has_entry_staged(entries, false) {
        CommitStep::ConfirmUnstaged
    } else {
        CommitStep::Commit
    }
}

/// Decides `has_entry_staged`.
fn any_staged(files: &Vec<ProjectFile>, staged: bool) -> (found: bool)
    ensures
        found == has_entry_staged(views_of(files@), staged),
{
    let mut i: usize = 0;
    while i < files.len()
        invariant
            i <= files.len(),
            forall|j: int| 0 <= j < i ==> (#[trigger] views_of(files@)[j]).is_staged() != staged,
        decreases files.len() - i,
    {
        if files[i].is_staged() == staged {
            assert(views_of(files@)[i as int].is_staged() == staged);
            return true;
        }
        i += 1;
    }
    false
}

/// Decides how a commit goes on, given the files of the status report.
pub fn do_commit(modified_files: &Vec<ProjectFile>) -> (step: CommitStep)
    ensures
        step == commit_step(views_of(modified_files@)),
{
    if !any_staged(modified_files, true) {
        CommitStep::NothingStaged
    } else if any_staged(modified_files, false) {
        CommitStep::ConfirmUnstaged
    } else {
        CommitStep::Commit
    }
}

/// The command that checks out the chosen commit; none where nothing was
/// chosen or the choice is no position of `all_commits`.
pub open spec fn checkout_command(all_commits: Seq<CommitView>, selected: Option<usize>) -> Option<
    GitCommandView,
> {
    match selected {
        Some(i) if i < all_commits.len() => Some(GitCommandView::Checkout(all_commits[i as int].hash)),
        _ => None,
    }
}

/// Decides what the checkout menu runs for a choice.
pub fn checkout_mode(all_commits: &Vec<Commit>, selected: Option<usize>) -> (command: Option<
    GitCommand,
>)
    ensures
        command.is_some() == checkout_command(views_of(all_commits@), selected).is_some(),
        command matches Some(c) ==> Some(c@) == checkout_command(
            views_of(all_commits@),
            selected,
        ),
{
    match selected {
        Some(i) => {
            if i < all_commits.len() {
                Some(GitCommand::Checkout(all_commits[i].hash.clone()))
            } else {
                None
            }
        },
        None => None,
    }
}

/// What the branch menu does for a choice.
#[derive(Clone, Debug)]
pub enum BranchStep {
    /// Nothing was chosen, or the chosen branch is checked out already.
    Nothing,
    /// The entry for a new branch was chosen: the user is asked for a name.
    /// `checkout` says whether the new branch is checked out as well.
    CreateBranch { checkout: bool },
    /// The branch of this name is checked out.
    Checkout(String),
}

/// The mathematical value of a `BranchStep`.
pub ghost enum BranchStepView {
    Nothing,
    CreateBranch { checkout: bool },
    Checkout(Seq<char>),
}

impl View for BranchStep {
    type V = BranchStepView;

    open spec fn view(&self) -> BranchStepView {
        match self {
            BranchStep::Nothing => BranchStepView::Nothing,
            BranchStep::CreateBranch { checkout } => BranchStepView::CreateBranch {
                checkout: *checkout,
            },
            BranchStep::Checkout(name) => BranchStepView::Checkout(name@),
        }
    }
}

/// What the branch menu does for a choice. An entry with the name of the
/// placeholder asks for a new branch; any other is checked out unless it is
/// so already. The new branch is checked out too unless the chosen entry is
/// marked as checked out.
pub open spec fn branch_step(all_branches: Seq<BranchView>, selected: Option<usize>) -> BranchStepView {
    match selected {
        Some(i) if i < all_branches.len() => {
            let branch = all_branches[i as int];
            if branch.name == new_branch_placeholder_name() {
                BranchStepView::CreateBranch { checkout: !branch.is_checked_out }
            } else if !branch.is_checked_out {
                BranchStepView::Checkout(branch.name)
            } else {
                BranchStepView::Nothing
            }
        },
        _ => BranchStepView::Nothing,
    }
}

/// Decides what the branch menu does for a choice.
pub fn branch_mode(all_branches: &Vec<Branch>, selected: Option<usize>) -> (step: BranchStep)
    ensures
        step@ == branch_step(views_of(all_branches@), selected),
{
    match selected {
        Some(i) => {
            if i < all_branches.len() {
                let selected_branch = &all_branches[i];
                if *selected_branch == Branch::new_branch_placeholder() {
                    BranchStep::CreateBranch { checkout: !selected_branch.is_checked_out }
                } else if !selected_branch.is_checked_out {
                    BranchStep::Checkout(selected_branch.name.clone())
                } else {
                    BranchStep::Nothing
                }
            } else {
                BranchStep::Nothing
            }
        },
        None => BranchStep::Nothing,
    }
}

/// The commands that make a branch of the given name, and check it out where
/// `checkout` says so.
pub open spec fn new_branch_commands(name: Seq<char>, checkout: bool) -> Seq<GitCommandView> {
    if checkout {
        seq![GitCommandView::CreateBranch(name), GitCommandView::Checkout(name)]
    } else {
        seq![GitCommandView::CreateBranch(name)]
    }
}

/// The commands that make a branch of the given name, and check it out where
/// `checkout` says so.
pub fn create_branch(new_branch_name: &str, checkout: bool) -> (commands: Vec<GitCommand>)
    ensures
        views_of(commands@) == new_branch_commands(new_branch_name@, checkout),
{
    let mut commands: Vec<GitCommand> = Vec::new();
    commands.push(GitCommand::CreateBranch(String::from_str(new_branch_name)));
    if checkout {
        commands.push(GitCommand::Checkout(String::from_str(new_branch_name)));
    }
    commands
}

/// The entries of the action menu, in the order in which they are shown.
pub open spec fn menu_entries() -> Seq<(Seq<char>, MenuCommand)> {
    seq![
        ("status"@, MenuCommand::Status),
        ("log"@, MenuCommand::Log),
        ("diff"@, MenuCommand::Diff),
        ("staging"@, MenuCommand::Staging),
        ("commit"@, MenuCommand::Commit),
        ("checkout"@, MenuCommand::Checkout),
        ("branch"@, MenuCommand::Branch),
        ("push"@, MenuCommand::Push),
        ("pull"@, MenuCommand::Pull),
        ("exit"@, MenuCommand::Exit),
    ]
}

/// The action menu and the position that was chosen last, which the menu
/// shows preselected.
#[derive(Clone, Debug)]
pub struct Menu {
    pub actions: Vec<Action>,
    pub last_selected: usize,
}

impl Menu {
    /// The menu as it is at the start: all actions, the first one preselected.
    pub fn new() -> (menu: Menu)
        ensures
            menu.last_selected == 0,
            menu.actions.len() == menu_entries().len(),
            forall|i: int|
                0 <= i < menu.actions.len() ==> (#[trigger] menu.actions[i])@.name
                    == menu_entries()[i].0 && menu.actions[i]@.command == menu_entries()[i].1,
    {
        let mut actions: Vec<Action> = Vec::new();
        actions.push(Action::new("status", MenuCommand::Status));
        actions.push(Action::new("log", MenuCommand::Log));
        actions.push(Action::new("diff", MenuCommand::Diff));
        actions.push(Action::new("staging", MenuCommand::Staging));
        actions.push(Action::new("commit", MenuCommand::Commit));
        actions.push(Action::new("checkout", MenuCommand::Checkout));
        actions.push(Action::new("branch", MenuCommand::Branch));
        actions.push(Action::new("push", MenuCommand::Push));
        actions.push(Action::new("pull", MenuCommand::Pull));
        actions.push(Action::new("exit", MenuCommand::Exit));
        Menu { actions, last_selected: 0 }
    }

    /// Takes the user's choice: the chosen position is preselected from now
    /// on, and the command of the action there is handed back. A choice that
    /// is no position of the menu changes nothing.
    pub fn select(&mut self, selected: usize) -> (command: Option<MenuCommand>)
        ensures
            final(self).actions == old(self).actions,
            selected < old(self).actions.len() ==> final(self).last_selected == selected
                && command == Some(old(self).actions[selected as int]@.command),
            selected >= old(self).actions.len() ==> final(self).last_selected == old(
                self,
            ).last_selected && command is None,
    {
        if selected < self.actions.len() {
            self.last_selected = selected;
            Some(self.actions[selected].run_action())
        } else {
            None
        }
    }
}

} // verus!
