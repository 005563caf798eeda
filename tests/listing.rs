use branch_picker::{branches_from_output, max_branch_name_len, parse_listing, Branch};

fn names(branches: &[Branch]) -> Vec<&str> {
    branches.iter().map(|b| b.name.as_str()).collect()
}

#[test]
fn listing_of_two_branches() {
    let branches = parse_listing("* main\n  feature-1\n");
    assert_eq!(branches.len(), 2);
    assert_eq!(branches[0].name, "main");
    assert_eq!(branches[0].status, "(current branch)");
    assert_eq!(branches[1].name, "feature-1");
    assert_eq!(branches[1].status, "");
    assert_eq!(max_branch_name_len(&branches), 9);
}

#[test]
fn empty_listing_has_no_branches() {
    let branches = parse_listing("");
    assert!(branches.is_empty());
    assert_eq!(max_branch_name_len(&branches), 0);
}

#[test]
fn blank_lines_are_skipped() {
    let branches = parse_listing("\n  a\n\n\r\n* b\n\n");
    assert_eq!(names(&branches), vec!["a", "b"]);
    assert_eq!(branches[0].status, "");
    assert_eq!(branches[1].status, "(current branch)");
}

#[test]
fn crlf_endings_and_missing_final_newline() {
    let branches = parse_listing("  one\r\n* two\r\n  three");
    assert_eq!(names(&branches), vec!["one", "two", "three"]);
    assert_eq!(branches[1].status, "(current branch)");
}

#[test]
fn name_is_line_without_two_leading_characters() {
    let branches = parse_listing("  fix/ünïcode\n*x\n*\n");
    assert_eq!(names(&branches), vec!["fix/ünïcode", "", ""]);
    assert_eq!(branches[1].status, "(current branch)");
    assert_eq!(branches[2].status, "(current branch)");
    assert_eq!(max_branch_name_len(&branches), 11);
}

#[test]
fn from_line_reads_marker_and_name() {
    let current = Branch::from_line("* develop");
    assert_eq!(current.name, "develop");
    assert_eq!(current.status, "(current branch)");
    let other = Branch::from_line("  release/1.0");
    assert_eq!(other.name, "release/1.0");
    assert_eq!(other.status, "");
}

#[test]
fn max_len_picks_the_longest_name() {
    let branches = parse_listing("  ab\n  abcdef\n* abc\n");
    assert_eq!(max_branch_name_len(&branches), 6);
}

#[test]
fn output_bytes_are_decoded_lossily() {
    let (branches, width) = branches_from_output(b"* ma\xffin\n  dev\n");
    assert_eq!(names(&branches), vec!["ma\u{FFFD}in", "dev"]);
    assert_eq!(branches[0].status, "(current branch)");
    assert_eq!(width, 5);
}
