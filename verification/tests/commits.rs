use gitty::getters::get_commit_history;
use gitty::types::{Commit, ParseError};

fn commit(line: &str) -> Commit {
    match Commit::from_line(line) {
        Ok(commit) => commit,
        Err(error) => panic!("{:?} for {:?}", error, line),
    }
}

fn shown(commit: &Commit) -> String {
    format!("{} | {:^31} | {}", commit.hash, commit.date, commit.message_extract)
}

#[test]
fn commit_line_splits_into_three_fields() {
    let parsed = commit("abc1234 | Mon, 1 Jan 2024 10:00:00 +0000 | Fix the parser");
    assert_eq!(parsed.hash, "abc1234");
    assert_eq!(parsed.date, "Mon, 1 Jan 2024 10:00:00 +0000");
    assert_eq!(parsed.message_extract, "Fix the parser");
}

#[test]
fn commit_message_of_75_characters_is_cut_to_60_and_marked() {
    let message = "abcdefghijklmno".repeat(5);
    assert_eq!(message.chars().count(), 75);
    let parsed = commit(&format!("h | d | {}", message));
    assert_eq!(parsed.message_extract, format!("{}...", &message[..60]));
    assert_eq!(parsed.message_extract.chars().count(), 63);
}

#[test]
fn commit_message_of_40_characters_passes_unchanged() {
    let message = "abcdefghij".repeat(4);
    assert_eq!(message.chars().count(), 40);
    let parsed = commit(&format!("h | d | {}", message));
    assert_eq!(parsed.message_extract, message);
}

#[test]
fn commit_message_of_exactly_60_characters_passes_unchanged() {
    let message = "abcdefghijkl".repeat(5);
    let parsed = commit(&format!("h | d | {}", message));
    assert_eq!(parsed.message_extract, message);
    let longer = format!("{}x", message);
    let cut = commit(&format!("h | d | {}", longer));
    assert_eq!(cut.message_extract, format!("{}...", message));
}

#[test]
fn commit_message_is_trimmed_after_the_cut() {
    let message = format!("{} tail of the message", "a".repeat(59));
    let parsed = commit(&format!("h | d | {}", message));
    assert_eq!(parsed.message_extract, format!("{}...", "a".repeat(59)));
}

#[test]
fn commit_message_with_whitespace_around_it_is_marked() {
    assert_eq!(commit("h | d | message ").message_extract, "message...");
    assert_eq!(commit("h | d |  message").message_extract, "message...");
    assert_eq!(commit("h | d | message").message_extract, "message");
}

#[test]
fn commit_message_of_several_lines_shows_the_first_and_is_marked() {
    let parsed = commit("h | d | first line\nsecond line");
    assert_eq!(parsed.message_extract, "first line...");
}

#[test]
fn commit_message_may_be_empty() {
    let parsed = commit("h | d | ");
    assert_eq!(parsed.hash, "h");
    assert_eq!(parsed.date, "d");
    assert_eq!(parsed.message_extract, "");
}

#[test]
fn commit_message_keeps_further_separators() {
    let parsed = commit("h | d | one | two | three");
    assert_eq!(parsed.hash, "h");
    assert_eq!(parsed.date, "d");
    assert_eq!(parsed.message_extract, "one | two | three");
}

#[test]
fn commit_message_is_measured_in_characters() {
    let message = "\u{e4}".repeat(60);
    let parsed = commit(&format!("h | d | {}", message));
    assert_eq!(parsed.message_extract, message);
    let longer = "\u{e4}".repeat(61);
    let cut = commit(&format!("h | d | {}", longer));
    assert_eq!(cut.message_extract, format!("{}...", message));
}

#[test]
fn commit_line_with_fewer_than_three_fields_is_malformed() {
    assert!(matches!(Commit::from_line("abc | only a date"), Err(ParseError::MalformedCommitLine)));
    assert!(matches!(Commit::from_line("no separator at all"), Err(ParseError::MalformedCommitLine)));
    assert!(matches!(Commit::from_line(""), Err(ParseError::MalformedCommitLine)));
    assert!(matches!(Commit::from_line("a|b|c"), Err(ParseError::MalformedCommitLine)));
    assert!(matches!(Commit::from_line("a | b |"), Err(ParseError::MalformedCommitLine)));
    assert!(matches!(Commit::from_line(" | "), Err(ParseError::MalformedCommitLine)));
}

#[test]
fn commit_line_with_empty_fields_is_accepted() {
    let parsed = commit(" |  | ");
    assert_eq!(parsed.hash, "");
    assert_eq!(parsed.date, "");
    assert_eq!(parsed.message_extract, "");
}

#[test]
fn commit_extract_width_is_60() {
    assert_eq!(Commit::message_extract_width(), 60);
}

#[test]
fn commit_renders_with_the_date_centred() {
    let short = commit("abc1234 | 2024 | Fix");
    assert_eq!(short.render(), shown(&short));
    assert_eq!(short.render(), format!("abc1234 | {}2024{} | Fix", " ".repeat(13), " ".repeat(14)));
    let even = commit("abc1234 | 1 Jan | Fix");
    assert_eq!(even.render(), format!("abc1234 | {}1 Jan{} | Fix", " ".repeat(13), " ".repeat(13)));
    let usual = commit("abc1234 | Mon, 1 Jan 2024 10:00:00 +0000 | Fix the parser");
    assert_eq!(usual.render(), shown(&usual));
    let full = commit("abc1234 | Mon, 11 Jan 2024 10:00:00 +0000 | Fix the parser");
    assert_eq!(full.date.chars().count(), 31);
    assert_eq!(full.render(), "abc1234 | Mon, 11 Jan 2024 10:00:00 +0000 | Fix the parser");
    let wide = commit("abc1234 | Monday, 11 January 2024 10:00:00 +0000 | Fix");
    assert_eq!(wide.render(), shown(&wide));
    let empty = commit("abc1234 |  | Fix");
    assert_eq!(empty.render(), shown(&empty));
    let accented = commit("abc1234 | J\u{e4}nner 2024 | Fix");
    assert_eq!(accented.render(), shown(&accented));
    assert_eq!(accented.render().chars().count(), 10 + 31 + 6);
}

#[test]
fn history_has_one_commit_for_each_line() {
    let history = "a1 | Mon | first\nb2 | Tue | second\nc3 | Wed | third";
    let commits = get_commit_history(history).unwrap();
    let hashes: Vec<&str> = commits.iter().map(|c| c.hash.as_str()).collect();
    assert_eq!(hashes, vec!["a1", "b2", "c3"]);
    assert_eq!(commits[1].date, "Tue");
    assert_eq!(commits[2].message_extract, "third");
}

#[test]
fn history_tolerates_a_blank_line_at_its_end() {
    let commits = get_commit_history("a1 | Mon | first\nb2 | Tue | second\n\n").unwrap();
    assert_eq!(commits.len(), 2);
    let with_spaces = get_commit_history("a1 | Mon | first\n   \n\n \n").unwrap();
    assert_eq!(with_spaces.len(), 1);
    assert_eq!(with_spaces[0].hash, "a1");
    assert_eq!(get_commit_history("").unwrap().len(), 0);
    assert_eq!(get_commit_history("\n\n").unwrap().len(), 0);
}

#[test]
fn history_with_a_blank_line_between_commits_is_refused() {
    let refused = get_commit_history("a1 | Mon | first\n\nb2 | Tue | second\n");
    assert!(matches!(refused, Err(ParseError::MalformedCommitLine)));
    let leading = get_commit_history("\na1 | Mon | first\n");
    assert!(matches!(leading, Err(ParseError::MalformedCommitLine)));
}

#[test]
fn history_with_a_malformed_line_is_refused() {
    let refused = get_commit_history("a1 | Mon | first\nbroken line\nc3 | Wed | third\n");
    assert!(matches!(refused, Err(ParseError::MalformedCommitLine)));
    let last = get_commit_history("a1 | Mon | first\nb2 | Tue");
    assert!(matches!(last, Err(ParseError::MalformedCommitLine)));
}

#[test]
fn history_line_ending_in_carriage_return_and_line_feed_is_not_marked() {
    let commits = get_commit_history("a1 | Mon | first\r\nb2 | Tue | second\r\n").unwrap();
    assert_eq!(commits[0].message_extract, "first");
    assert_eq!(commits[1].message_extract, "second");
}
