use dlsite_sync::command::{CommandProvider, Runtime};
use dlsite_sync::guard::OperationGuard;
use dlsite_sync::scan::{downloads_to_register, ScannedEntry};

#[test]
fn only_directories_with_usable_names_are_registered() {
    let entries = vec![
        ScannedEntry { name: Some(b"RJ100".to_vec()), is_dir: true },
        ScannedEntry { name: Some(b"stray.zip".to_vec()), is_dir: false },
        ScannedEntry { name: None, is_dir: true },
        ScannedEntry { name: Some(b"RJ200".to_vec()), is_dir: true },
    ];
    let names = downloads_to_register(&entries);
    assert_eq!(names, vec![b"RJ100".to_vec(), b"RJ200".to_vec()]);
}

#[test]
fn empty_scan_registers_nothing() {
    assert!(downloads_to_register(&Vec::new()).is_empty());
}

#[test]
fn guard_admits_one_pass_at_a_time() {
    let mut guard = OperationGuard::new();
    assert!(!guard.is_running());
    assert!(guard.try_begin(), "the idle guard admits a pass");
    assert!(guard.is_running());
    assert!(!guard.try_begin(), "a second pass is refused while one runs");
    guard.finish();
    assert!(!guard.is_running());
    assert!(guard.try_begin(), "the guard admits a pass again once released");
}

struct TestShell {
    commands_attached: bool,
}

struct TestRuntime;

impl Runtime for TestRuntime {}

impl CommandProvider<TestRuntime> for TestShell {
    fn attach_commands(self) -> Self {
        TestShell { commands_attached: true }
    }
}

#[test]
fn a_host_builder_attaches_the_command_set() {
    let shell = TestShell { commands_attached: false }.attach_commands();
    assert!(shell.commands_attached);
}
