use rusty_fork::context::ExecutionContext;
use rusty_fork::context::Role;
use rusty_fork::context::MARKER_VARIABLE;
use rusty_fork::context::SELECTION_VARIABLE;
use rusty_fork::identity::TestIdentity;
use rusty_fork::selection::encode;

#[test]
fn reserved_variables_are_two_names() {
    assert_eq!(SELECTION_VARIABLE, "RUSTY_FORK_OCCURS");
    assert_eq!(MARKER_VARIABLE, "RUSTY_FORK_MARKER");
    assert_ne!(SELECTION_VARIABLE, MARKER_VARIABLE);
}

#[test]
fn without_selection_the_process_is_a_driver() {
    let context = ExecutionContext::from_environment(None, None);
    assert_eq!(context, ExecutionContext::Driver);
    assert_eq!(context.role_of(&TestIdentity::from_digest(1, "t")), Role::Driver);
    let with_stray_marker = ExecutionContext::from_environment(None, Some("/tmp/m".to_string()));
    assert_eq!(with_stray_marker, ExecutionContext::Driver);
}

#[test]
fn with_selection_the_process_is_the_child_of_that_launch() {
    let context = ExecutionContext::from_environment(
        Some("00000000000000AB:tests::a".to_string()),
        Some("/tmp/marker".to_string()),
    );
    assert_eq!(
        context,
        ExecutionContext::Child {
            target: Some(TestIdentity::from_digest(0xAB, "tests::a")),
            marker_path: Some("/tmp/marker".to_string()),
        }
    );
    assert_eq!(context.role_of(&TestIdentity::from_digest(0xAB, "tests::a")), Role::Child);
}

#[test]
fn other_registrations_are_bystanders_in_a_child() {
    let context =
        ExecutionContext::from_environment(Some("00000000000000AB:tests::a".to_string()), None);
    assert_eq!(context.role_of(&TestIdentity::from_digest(0xAB, "tests::b")), Role::Bystander);
    assert_eq!(context.role_of(&TestIdentity::from_digest(0xAC, "tests::a")), Role::Bystander);
    assert_eq!(context.role_of(&TestIdentity::from_digest(0, "")), Role::Bystander);
}

#[test]
fn same_name_at_another_site_is_not_selected() {
    let first = TestIdentity::from_digest(0x1111, "shared_name");
    let second = TestIdentity::from_digest(0x2222, "shared_name");
    let in_child_of_first = ExecutionContext::from_environment(Some(encode(&first)), None);
    assert_eq!(in_child_of_first.role_of(&first), Role::Child);
    assert_eq!(in_child_of_first.role_of(&second), Role::Bystander);
    let in_child_of_second = ExecutionContext::from_environment(Some(encode(&second)), None);
    assert_eq!(in_child_of_second.role_of(&first), Role::Bystander);
    assert_eq!(in_child_of_second.role_of(&second), Role::Child);
}

#[test]
fn unreadable_selection_makes_every_launch_a_bystander() {
    let context = ExecutionContext::from_environment(Some("yes".to_string()), None);
    assert_eq!(context, ExecutionContext::Child { target: None, marker_path: None });
    assert_eq!(context.role_of(&TestIdentity::from_digest(1, "t")), Role::Bystander);
    let empty = ExecutionContext::from_environment(Some(String::new()), None);
    assert_eq!(empty.role_of(&TestIdentity::from_digest(0, "")), Role::Bystander);
}
