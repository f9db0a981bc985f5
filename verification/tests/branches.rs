use gitty::getters::get_branches;
use gitty::types::Branch;

#[test]
fn branch_list_marks_the_branch_that_is_checked_out() {
    let branches = get_branches("* main\n  feature\n");
    assert_eq!(branches.len(), 3);
    assert_eq!(branches[0].name, "main");
    assert!(branches[0].is_checked_out);
    assert_eq!(branches[1].name, "feature");
    assert!(!branches[1].is_checked_out);
    assert_eq!(branches[2].name, "[<create new branch>]");
    assert!(!branches[2].is_checked_out);
}

#[test]
fn branch_list_ends_with_the_placeholder() {
    let none = get_branches("");
    assert_eq!(none.len(), 1);
    assert!(none[0] == Branch::new_branch_placeholder());
    assert_eq!(none[0].name, "[<create new branch>]");
    let some = get_branches("  a\n  b\n* c\n  d");
    assert_eq!(some.len(), 5);
    assert!(some[4] == Branch::new_branch_placeholder());
    let names: Vec<&str> = some.iter().map(|b| b.name.as_str()).collect();
    assert_eq!(names, vec!["a", "b", "c", "d", "[<create new branch>]"]);
    let checked: Vec<bool> = some.iter().map(|b| b.is_checked_out).collect();
    assert_eq!(checked, vec![false, false, true, false, false]);
}

#[test]
fn branch_list_has_an_entry_for_every_line() {
    let branches = get_branches("* main\n\n  dev\r\n");
    assert_eq!(branches.len(), 4);
    assert_eq!(branches[1].name, "");
    assert!(!branches[1].is_checked_out);
    assert_eq!(branches[2].name, "dev");
}

#[test]
fn branch_line_splits_marker_and_name() {
    let branch = Branch::from_line("  feature/login");
    assert_eq!(branch.name, "feature/login");
    assert!(!branch.is_checked_out);
    let current = Branch::from_line("* main");
    assert_eq!(current.name, "main");
    assert!(current.is_checked_out);
    let second = Branch::from_line(" *  spaced ");
    assert_eq!(second.name, "spaced ");
    assert!(second.is_checked_out);
    let later = Branch::from_line("  a*b");
    assert_eq!(later.name, "a*b");
    assert!(!later.is_checked_out);
}

#[test]
fn branch_line_shorter_than_its_marker_has_no_name() {
    let empty = Branch::from_line("");
    assert_eq!(empty.name, "");
    assert!(!empty.is_checked_out);
    let star = Branch::from_line("*");
    assert_eq!(star.name, "");
    assert!(star.is_checked_out);
    let two = Branch::from_line("* ");
    assert_eq!(two.name, "");
    assert!(two.is_checked_out);
}

#[test]
fn branch_placeholder_has_the_fixed_name() {
    let placeholder = Branch::new_branch_placeholder();
    assert_eq!(placeholder.name, "[<create new branch>]");
    assert!(!placeholder.is_checked_out);
}

#[test]
fn branches_are_equal_by_name_alone() {
    assert!(Branch::from_line("* main") == Branch::from_line("  main"));
    assert!(Branch::from_line("* main") != Branch::from_line("* mail"));
    assert!(Branch::from_line("* [<create new branch>]") == Branch::new_branch_placeholder());
    assert!(Branch::from_line("  main") != Branch::new_branch_placeholder());
}

#[test]
fn branch_renders_with_its_marker() {
    assert_eq!(Branch::from_line("* main").render(), "* main");
    assert_eq!(Branch::from_line("  dev").render(), "  dev");
    assert_eq!(Branch::new_branch_placeholder().render(), "  [<create new branch>]");
    let branch = Branch::from_line(" * x");
    assert_eq!(
        branch.render(),
        format!("{} {}", if branch.is_checked_out { "*" } else { " " }, branch.name)
    );
}
