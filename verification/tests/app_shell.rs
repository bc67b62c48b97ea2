use bubbly_quest::greeter::greet;
use bubbly_quest::plugins::{log_targets, plugin_order, LogTarget, Plugin};
use bubbly_quest::single_instance::{
    main_window_label, second_instance_action, SecondInstanceAction,
};

#[test]
fn greet_formats_the_fixed_template() {
    assert_eq!(greet("Alice"), "Hello, Alice! You've been greeted from Rust!");
    assert_eq!(greet("!"), "Hello, !! You've been greeted from Rust!");
    assert_eq!(greet("a b c"), "Hello, a b c! You've been greeted from Rust!");
}

#[test]
fn greet_world() {
    assert_eq!(greet("World"), "Hello, World! You've been greeted from Rust!");
}

#[test]
fn greet_empty_name_is_no_special_case() {
    assert_eq!(greet(""), "Hello, ! You've been greeted from Rust!");
}

#[test]
fn greet_repeated_calls_observe_no_state() {
    let first = greet("World");
    let _ = greet("someone else");
    let _ = plugin_order(true);
    let _ = second_instance_action(&vec![], "", true);
    let second = greet("World");
    assert_eq!(first, second);
    assert_eq!(greet(""), "Hello, ! You've been greeted from Rust!");
}

#[test]
fn plugin_order_desktop_is_fixed() {
    let order = plugin_order(true);
    assert_eq!(
        order,
        vec![
            Plugin::Log,
            Plugin::Filesystem,
            Plugin::WindowState,
            Plugin::SingleInstance,
            Plugin::Opener,
        ]
    );
}

#[test]
fn plugin_order_mobile_never_holds_single_instance() {
    let order = plugin_order(false);
    assert_eq!(
        order,
        vec![Plugin::Log, Plugin::Filesystem, Plugin::WindowState, Plugin::Opener]
    );
    assert!(!order.contains(&Plugin::SingleInstance));
}

#[test]
fn plugin_order_is_deterministic_across_runs() {
    assert_eq!(plugin_order(true), plugin_order(true));
    assert_eq!(plugin_order(false), plugin_order(false));
}

#[test]
fn log_targets_are_logdir_stdout_webview() {
    let targets = log_targets();
    assert_eq!(targets.len(), 3);
    assert!(matches!(&targets[0], LogTarget::LogDir { file_name } if file_name == "bubbly_quest"));
    assert!(matches!(targets[1], LogTarget::Stdout));
    assert!(matches!(targets[2], LogTarget::Webview));
}

#[test]
fn second_instance_focuses_main_window() {
    let args = vec!["app".to_string(), "--flag".to_string(), "value".to_string()];
    let action = second_instance_action(&args, "/some/dir", true);
    assert!(matches!(action, SecondInstanceAction::FocusWindow { label } if label == "main"));
}

#[test]
fn second_instance_ignores_args_and_cwd() {
    let bare = second_instance_action(&vec![], "", true);
    let loaded = second_instance_action(
        &vec!["a".to_string(), "b".to_string(), "c".to_string()],
        "/elsewhere",
        true,
    );
    match (bare, loaded) {
        (
            SecondInstanceAction::FocusWindow { label: first },
            SecondInstanceAction::FocusWindow { label: second },
        ) => {
            assert_eq!(first, "main");
            assert_eq!(second, first);
        }
        _ => panic!("both launches must yield a focus request"),
    }
}

#[test]
fn second_instance_missing_main_window_is_fatal() {
    let action = second_instance_action(&vec!["app".to_string()], "/", false);
    assert!(matches!(action, SecondInstanceAction::FatalMissingWindow));
}

#[test]
fn main_window_label_is_main() {
    assert_eq!(main_window_label(), "main");
}
