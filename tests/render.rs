use branch_picker::{branch_row_line, help_lines, BranchPicker, Branch};

#[test]
fn rows_align_the_status_column() {
    let current = Branch::from_line("* main");
    assert_eq!(branch_row_line(&current, true, 9), "-> main          (current branch)");
    let other = Branch::from_line("  feature-1");
    assert_eq!(branch_row_line(&other, false, 9), "   feature-1     ");
}

#[test]
fn help_panel_names_the_selected_branch() {
    let lines = help_lines(2, "topic");
    assert_eq!(
        lines,
        vec![
            "",
            "",
            "COMMANDS",
            "",
            "    d     git branch -d topic",
            "",
            "    D     git branch -D topic",
            "",
            "    q     Quit app",
            "",
        ]
    );
}

#[test]
fn whole_frame() {
    let p = BranchPicker::from_output(b"* ab\n  c\n");
    let lines = p.frame_lines();
    assert_eq!(
        lines,
        vec![
            "BRANCHES",
            "",
            "-> ab     (current branch)",
            "   c      ",
            "",
            "",
            "COMMANDS",
            "",
            "    d     git branch -d ab",
            "",
            "    D     git branch -D ab",
            "",
            "    q     Quit app",
            "",
        ]
    );
}

#[test]
fn frame_of_an_empty_list() {
    let p = BranchPicker::from_output(b"");
    let lines = p.frame_lines();
    assert_eq!(lines[0], "BRANCHES");
    assert_eq!(lines[1], "");
    assert_eq!(lines[6], "    d   git branch -d ");
    assert_eq!(lines.len(), 12);
}
