use branch_picker::{parse_listing, Branch, BranchPicker, DeleteMode, Key, Step};

fn picker(listing: &str) -> BranchPicker {
    BranchPicker::new(parse_listing(listing))
}

#[test]
fn down_down_up_on_three_branches() {
    let mut p = picker("* a\n  b\n  c\n");
    assert_eq!(p.selected(), 0);
    assert_eq!(p.step(Key::Char('j')), Step::Continue);
    assert_eq!(p.selected(), 1);
    assert_eq!(p.step(Key::Char('j')), Step::Continue);
    assert_eq!(p.selected(), 2);
    assert_eq!(p.step(Key::Char('k')), Step::Continue);
    assert_eq!(p.selected(), 1);
}

#[test]
fn selection_stops_at_both_ends() {
    let mut p = picker("  a\n  b\n");
    p.move_up();
    assert_eq!(p.selected(), 0);
    p.move_down();
    p.move_down();
    p.move_down();
    assert_eq!(p.selected(), 1);
    assert_eq!(p.step(Key::Down), Step::Continue);
    assert_eq!(p.selected(), 1);
}

#[test]
fn moving_in_an_empty_list_does_nothing() {
    let mut p = picker("");
    p.move_down();
    assert_eq!(p.selected(), 0);
    p.move_up();
    assert_eq!(p.selected(), 0);
    assert!(p.selected_branch().is_none());
    assert_eq!(p.step(Key::Char('d')), Step::Continue);
}

#[test]
fn quit_keys_end_the_loop_anywhere() {
    for key in [Key::Char('q'), Key::Esc, Key::Ctrl('c')] {
        for start in 0..3 {
            let mut p = picker("  a\n  b\n  c\n");
            for _ in 0..start {
                p.move_down();
            }
            assert_eq!(p.step(key), Step::Quit);
            assert_eq!(p.selected(), start);
        }
    }
}

#[test]
fn failed_force_delete_records_stderr() {
    let mut p = picker("* main\n  gone\n");
    p.move_down();
    assert_eq!(p.step(Key::Char('D')), Step::Delete(DeleteMode::Force));
    p.record_delete_outcome(false, b"", b"error: branch not found");
    assert_eq!(p.branches().len(), 2);
    assert_eq!(p.branches()[1].name, "gone");
    assert_eq!(p.branches()[1].status, "error: branch not found");
    assert_eq!(p.branches()[0].status, "(current branch)");
    assert_eq!(p.selected(), 1);
}

#[test]
fn successful_delete_records_stdout_and_keeps_the_row() {
    let mut p = picker("* main\n  old\n");
    p.move_down();
    assert_eq!(p.step(Key::Char('d')), Step::Delete(DeleteMode::Safe));
    p.record_delete_outcome(true, b"Deleted branch old (was 1234abc).\n", b"warning");
    assert_eq!(p.branches().len(), 2);
    assert_eq!(p.branches()[1].name, "old");
    assert_eq!(p.branches()[1].status, "Deleted branch old (was 1234abc).\n");
}

#[test]
fn delete_outcome_is_decoded_lossily() {
    let mut b = Branch::from_line("  topic");
    b.record_delete_outcome(false, b"", b"bad \xff byte");
    assert_eq!(b.name, "topic");
    assert_eq!(b.status, "bad \u{FFFD} byte");
}

#[test]
fn delete_arguments() {
    let b = Branch::from_line("  topic");
    assert_eq!(b.delete_args(DeleteMode::Safe), vec!["branch", "-d", "topic"]);
    assert_eq!(b.delete_args(DeleteMode::Force), vec!["branch", "-D", "topic"]);
}

#[test]
fn picker_from_raw_output() {
    let p = BranchPicker::from_output(b"  x\n* longer\n");
    assert_eq!(p.branches().len(), 2);
    assert_eq!(p.name_width(), 6);
    assert_eq!(p.selected(), 0);
    assert_eq!(p.selected_branch().map(|b| b.name.as_str()), Some("x"));
}

#[test]
fn new_picker_measures_the_name_column() {
    let p = BranchPicker::new(parse_listing("  a\n* abcd\n  ab\n"));
    assert_eq!(p.name_width(), 4);
    assert_eq!(p.selected(), 0);
}
