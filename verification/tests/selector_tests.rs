use file_merger::selector::{GlobEntry, Selector, SelectorAction, SelectorEvent};

fn file_event(p: &str) -> SelectorEvent {
    SelectorEvent::ExistingFile { path: String::from(p) }
}

#[test]
fn n_files_then_empty_line_in_input_order() {
    let mut s = Selector::new();
    assert_eq!(s.step(file_event("a.txt")), SelectorAction::Continue);
    assert_eq!(s.step(file_event("b.txt")), SelectorAction::Continue);
    assert_eq!(s.step(file_event("c.txt")), SelectorAction::Continue);
    assert_eq!(s.count(), 3);
    assert_eq!(s.step(SelectorEvent::EmptyLine), SelectorAction::Done);
    assert_eq!(s.files, vec![
        String::from("a.txt"),
        String::from("b.txt"),
        String::from("c.txt"),
    ]);
}

#[test]
fn empty_line_with_no_selection_re_prompts() {
    let mut s = Selector::new();
    assert_eq!(s.step(SelectorEvent::EmptyLine), SelectorAction::NeedAtLeastOne);
    assert_eq!(s.count(), 0);
    assert_eq!(s.step(SelectorEvent::EmptyLine), SelectorAction::NeedAtLeastOne);
    assert_eq!(s.count(), 0);
}

#[test]
fn duplicate_path_selected_twice_is_kept_twice() {
    let mut s = Selector::new();
    s.step(file_event("same.txt"));
    s.step(file_event("same.txt"));
    assert_eq!(s.files, vec![String::from("same.txt"), String::from("same.txt")]);
}

#[test]
fn glob_with_no_matches_leaves_selection_unchanged() {
    let mut s = Selector::new();
    s.step(file_event("a.txt"));
    let act = s.step(SelectorEvent::GlobMatches { matches: Vec::new() });
    assert_eq!(act, SelectorAction::Continue);
    assert_eq!(s.files, vec![String::from("a.txt")]);
}

#[test]
fn glob_matching_only_directories_adds_nothing() {
    let mut s = Selector::new();
    let matches = vec![
        GlobEntry { path: String::from("dir1"), is_file: false },
        GlobEntry { path: String::from("dir2"), is_file: false },
    ];
    let act = s.step(SelectorEvent::GlobMatches { matches });
    assert_eq!(act, SelectorAction::Continue);
    assert_eq!(s.count(), 0);
}

#[test]
fn glob_keeps_only_regular_files_in_match_order() {
    let mut s = Selector::new();
    let matches = vec![
        GlobEntry { path: String::from("one.txt"), is_file: true },
        GlobEntry { path: String::from("somedir"), is_file: false },
        GlobEntry { path: String::from("two.txt"), is_file: true },
    ];
    s.step(SelectorEvent::GlobMatches { matches });
    assert_eq!(s.files, vec![String::from("one.txt"), String::from("two.txt")]);
}

#[test]
fn invalid_input_warns_and_changes_nothing() {
    let mut s = Selector::new();
    assert_eq!(s.step(SelectorEvent::Invalid), SelectorAction::NotAValidPath);
    assert_eq!(s.count(), 0);
    s.step(file_event("a.txt"));
    assert_eq!(s.step(SelectorEvent::Invalid), SelectorAction::NotAValidPath);
    assert_eq!(s.count(), 1);
}

#[test]
fn prompt_depends_on_whether_selection_is_empty() {
    let mut s = Selector::new();
    assert_eq!(s.prompt(), "File Path: ");
    s.step(file_event("a.txt"));
    assert_eq!(s.prompt(), "File Path or Press Enter to start merge: ");
}
