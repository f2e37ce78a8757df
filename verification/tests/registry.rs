use multiwindow::action::{Action, Anchor, WindowError};
use multiwindow::registry::Registry;
use multiwindow::window::WindowConfig;

fn labels_of(open: &Registry) -> Vec<String> {
    open.labels()
}

fn opening(label: &str) -> Action {
    Action::Create(WindowConfig::new(label.to_string(), "index.html".to_string()))
}

#[test]
fn a_new_registry_is_empty() {
    let open = Registry::new();
    assert_eq!(open.len(), 0);
    assert!(!open.contains("main"));
    assert!(!open.contains(""));
    assert_eq!(labels_of(&open), Vec::<String>::new());
}

#[test]
fn create_appends_in_opening_order() {
    let mut open = Registry::new();
    assert_eq!(open.create("main".to_string()), Ok(()));
    assert_eq!(open.create("focus".to_string()), Ok(()));
    assert_eq!(open.create("effects".to_string()), Ok(()));
    assert_eq!(open.len(), 3);
    assert_eq!(labels_of(&open), vec!["main", "focus", "effects"]);
    assert!(open.contains("main"));
    assert!(open.contains("focus"));
    assert!(open.contains("effects"));
    assert!(!open.contains("floating"));
}

#[test]
fn create_refuses_a_label_that_is_taken() {
    let mut open = Registry::new();
    assert_eq!(open.create("main".to_string()), Ok(()));
    assert_eq!(open.create("main".to_string()), Err(WindowError::OperationFailed));
    assert_eq!(open.len(), 1);
    assert_eq!(labels_of(&open), vec!["main"]);
}

#[test]
fn close_takes_the_window_out_and_keeps_the_order() {
    let mut open = Registry::new();
    for label in ["a", "b", "c", "d"] {
        assert_eq!(open.create(label.to_string()), Ok(()));
    }
    assert_eq!(open.close("b"), Ok(()));
    assert_eq!(labels_of(&open), vec!["a", "c", "d"]);
    assert_eq!(open.close("d"), Ok(()));
    assert_eq!(labels_of(&open), vec!["a", "c"]);
    assert_eq!(open.close("a"), Ok(()));
    assert_eq!(labels_of(&open), vec!["c"]);
    assert_eq!(open.close("c"), Ok(()));
    assert_eq!(open.len(), 0);
}

#[test]
fn close_fails_on_a_window_that_is_not_open() {
    let mut open = Registry::new();
    assert_eq!(open.close("ghost"), Err(WindowError::OperationFailed));
    assert_eq!(open.create("main".to_string()), Ok(()));
    assert_eq!(open.close("ghost"), Err(WindowError::OperationFailed));
    assert_eq!(labels_of(&open), vec!["main"]);
}

#[test]
fn a_closed_label_is_free_again() {
    let mut open = Registry::new();
    assert_eq!(open.create("floating".to_string()), Ok(()));
    assert_eq!(open.close("floating"), Ok(()));
    assert_eq!(open.create("floating".to_string()), Ok(()));
    assert_eq!(labels_of(&open), vec!["floating"]);
}

#[test]
fn perform_opens_a_window() {
    let mut open = Registry::new();
    assert_eq!(open.perform(&opening("main"), true), Ok(()));
    assert_eq!(labels_of(&open), vec!["main"]);
}

#[test]
fn perform_refuses_a_second_window_under_one_label() {
    let mut open = Registry::new();
    assert_eq!(open.perform(&opening("main"), true), Ok(()));
    assert_eq!(open.perform(&opening("main"), true), Err(WindowError::OperationFailed));
    assert_eq!(labels_of(&open), vec!["main"]);
}

#[test]
fn perform_changes_nothing_when_the_layer_refuses() {
    let mut open = Registry::new();
    assert_eq!(open.perform(&opening("main"), false), Err(WindowError::OperationFailed));
    assert_eq!(open.len(), 0);
    assert_eq!(open.perform(&opening("main"), true), Ok(()));
    assert_eq!(
        open.perform(&Action::Close("main".to_string()), false),
        Err(WindowError::OperationFailed)
    );
    assert_eq!(
        open.perform(&Action::Focus("main".to_string()), false),
        Err(WindowError::OperationFailed)
    );
    assert_eq!(
        open.perform(&Action::MoveTo("main".to_string(), Anchor::TrayCenter), false),
        Err(WindowError::OperationFailed)
    );
    assert_eq!(
        open.perform(&Action::CloseOnBlur("main".to_string()), false),
        Err(WindowError::OperationFailed)
    );
    assert_eq!(labels_of(&open), vec!["main"]);
}

#[test]
fn perform_needs_the_window_for_everything_but_opening() {
    let mut open = Registry::new();
    assert_eq!(open.perform(&opening("main"), true), Ok(()));
    for action in [
        Action::Focus("other".to_string()),
        Action::Close("other".to_string()),
        Action::MoveTo("other".to_string(), Anchor::TrayLeft),
        Action::CloseOnBlur("other".to_string()),
    ] {
        assert_eq!(open.perform(&action, true), Err(WindowError::OperationFailed));
        assert_eq!(labels_of(&open), vec!["main"]);
    }
}

#[test]
fn perform_leaves_the_windows_alone_on_focus_move_and_watch() {
    let mut open = Registry::new();
    assert_eq!(open.perform(&opening("main"), true), Ok(()));
    assert_eq!(open.perform(&opening("side"), true), Ok(()));
    for action in [
        Action::Focus("main".to_string()),
        Action::MoveTo("side".to_string(), Anchor::TrayBottomRight),
        Action::CloseOnBlur("side".to_string()),
    ] {
        assert_eq!(open.perform(&action, true), Ok(()));
        assert_eq!(labels_of(&open), vec!["main", "side"]);
    }
}

#[test]
fn perform_closes_a_window() {
    let mut open = Registry::new();
    assert_eq!(open.perform(&opening("main"), true), Ok(()));
    assert_eq!(open.perform(&opening("side"), true), Ok(()));
    assert_eq!(open.perform(&Action::Close("main".to_string()), true), Ok(()));
    assert_eq!(labels_of(&open), vec!["side"]);
}

#[test]
fn run_takes_every_step_in_order() {
    let mut open = Registry::new();
    let plan = vec![
        opening("a"),
        opening("b"),
        Action::Focus("a".to_string()),
        Action::Close("a".to_string()),
        opening("c"),
    ];
    assert_eq!(open.run(&plan, None), Ok(()));
    assert_eq!(labels_of(&open), vec!["b", "c"]);
}

#[test]
fn run_of_an_empty_plan_does_nothing() {
    let mut open = Registry::new();
    assert_eq!(open.create("main".to_string()), Ok(()));
    assert_eq!(open.run(&Vec::new(), None), Ok(()));
    assert_eq!(open.run(&Vec::new(), Some(0)), Ok(()));
    assert_eq!(labels_of(&open), vec!["main"]);
}

#[test]
fn run_stops_at_the_first_failure() {
    let mut open = Registry::new();
    let plan = vec![opening("a"), opening("a"), opening("b")];
    assert_eq!(open.run(&plan, None), Err(WindowError::OperationFailed));
    assert_eq!(labels_of(&open), vec!["a"]);
}

#[test]
fn run_stops_where_the_layer_refuses() {
    let plan = vec![opening("a"), opening("b"), opening("c")];
    let mut open = Registry::new();
    assert_eq!(open.run(&plan, Some(0)), Err(WindowError::OperationFailed));
    assert_eq!(open.len(), 0);
    let mut open = Registry::new();
    assert_eq!(open.run(&plan, Some(1)), Err(WindowError::OperationFailed));
    assert_eq!(labels_of(&open), vec!["a"]);
    let mut open = Registry::new();
    assert_eq!(open.run(&plan, Some(2)), Err(WindowError::OperationFailed));
    assert_eq!(labels_of(&open), vec!["a", "b"]);
    let mut open = Registry::new();
    assert_eq!(open.run(&plan, Some(3)), Ok(()));
    assert_eq!(labels_of(&open), vec!["a", "b", "c"]);
}
