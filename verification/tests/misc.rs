//! The counter and the project window state.

use bluebird_core::extensions::AnyExts;
use bluebird_core::Counter;
use bluebird_core::DesignerCore;
use bluebird_core::HostRequest;
use bluebird_core::NullNotifier;
use bluebird_core::ProjectManagerWindow;
use bluebird_core::WindowStatus;

#[test]
fn counter_starts_at_zero_and_advances() {
    let mut counter = Counter::new();
    assert_eq!(counter.count, 0);
    assert_eq!(counter.count(), 1);
    assert_eq!(counter.count(), 2);
    assert_eq!(counter.count, 2);
}

#[test]
fn let_self_applies_the_transformation() {
    let doubled = 21i64.let_self(|x| x * 2);
    assert_eq!(doubled, 42);
}

#[test]
fn open_project_publishes_the_open_command() {
    let mut core = DesignerCore::new(NullNotifier {});
    core.initialize_plugins();
    ProjectManagerWindow::open_project(&mut core, "/p");
    let requests = core.take_host_requests();
    assert_eq!(requests.len(), 1);
    assert!(matches!(&requests[0], HostRequest::ReadProjectFile { path } if path == "/p"));
}

#[test]
fn project_window_opens_the_create_dialog() {
    let mut window = ProjectManagerWindow::new();
    assert_eq!(window.status, WindowStatus::Closed);
    assert!(!window.dialog_has_open);
    assert!(window.path.is_none());
    assert_eq!(window.project.version, (0, 0, 1));
    window.create_project("/p".to_string());
    assert_eq!(window.status, WindowStatus::New);
    assert!(window.dialog_has_open);
    assert_eq!(window.path.as_deref(), Some("/p"));
}
