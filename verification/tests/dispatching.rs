//! The coordinator: FIFO dispatch, delivery to enabled plugins in
//! registration order, re-entrancy-safe queuing, lifecycle, lookup, and the
//! host-request boundary.

use bluebird_core::plugins::file_manager::FileEntry;
use bluebird_core::plugins::file_manager::FileEntryType;
use bluebird_core::plugins::file_manager::FileManagerIo;
use bluebird_core::plugins::logger::LogCommand;
use bluebird_core::plugins::logger::Logger;
use bluebird_core::plugins::project_manager::Project;
use bluebird_core::plugins::project_manager::ProjectManagerCommand;
use bluebird_core::plugins::project_manager::ProjectManagerIo;
use bluebird_core::plugins::window_manager::WindowManagerCommand;
use bluebird_core::plugins::window_manager::WindowManagerIo;
use bluebird_core::Command;
use bluebird_core::DesignerCore;
use bluebird_core::HostRequest;
use bluebird_core::NullNotifier;
use bluebird_core::PluginKind;
use bluebird_core::PluginStatus;
use bluebird_core::StructValue;

fn fresh_core() -> DesignerCore<NullNotifier> {
    let mut core = DesignerCore::new(NullNotifier {});
    core.initialize_plugins();
    core
}

fn demo_project() -> Project {
    Project {
        name: "blue".to_string(),
        description: "a bird".to_string(),
        version: (0, 0, 1),
        package_name: "org.blue".to_string(),
        author: "me".to_string(),
        email: "me@blue".to_string(),
    }
}

fn recorded_actions(core: &DesignerCore<NullNotifier>) -> Vec<String> {
    let slot = core.get_plugin(PluginKind::SystemEventInterceptor).unwrap();
    let interceptor = slot.as_event_interceptor().unwrap();
    interceptor.collected_events.iter().map(|e| e.action.clone()).collect()
}

fn logger_lines(core: &DesignerCore<NullNotifier>) -> Vec<(String, String, String)> {
    let slot = core.get_plugin(PluginKind::Logger).unwrap();
    slot.as_logger().unwrap().logs.clone()
}

#[test]
fn initialize_enables_every_plugin() {
    let mut core = DesignerCore::new(NullNotifier {});
    for kind in [
        PluginKind::SystemEventInterceptor,
        PluginKind::Logger,
        PluginKind::ProjectManager,
        PluginKind::WindowManager,
        PluginKind::FileManager,
    ] {
        assert_eq!(core.get_plugin(kind).unwrap().status(), PluginStatus::Disabled);
    }
    core.initialize_plugins();
    for kind in [
        PluginKind::SystemEventInterceptor,
        PluginKind::Logger,
        PluginKind::ProjectManager,
        PluginKind::WindowManager,
        PluginKind::FileManager,
    ] {
        assert_eq!(core.get_plugin(kind).unwrap().status(), PluginStatus::Enabled);
    }
}

#[test]
fn lifecycle_toggles_are_idempotent() {
    let mut logger = Logger::new();
    logger.enable();
    logger.enable();
    assert_eq!(logger.status(), PluginStatus::Enabled);
    logger.disable();
    logger.disable();
    assert_eq!(logger.status(), PluginStatus::Disabled);
}

#[test]
fn get_plugin_returns_the_same_identity_every_time() {
    let core = fresh_core();
    let first = core.get_plugin(PluginKind::ProjectManager).unwrap();
    let second = core.get_plugin(PluginKind::ProjectManager).unwrap();
    assert_eq!(first.info().uuid, second.info().uuid);
    assert_eq!(first.info().uuid, "3979dec2-8e5c-4860-8b1c-07a8fd2d560f");
}

#[test]
fn only_enabled_plugins_receive_envelopes() {
    let mut core = fresh_core();
    let line = LogCommand::Generate {
        category: "Info".to_string(),
        content: "first".to_string(),
    };
    core.publish_message("A", &line);
    assert_eq!(logger_lines(&core).len(), 1);
    assert_eq!(
        logger_lines(&core)[0],
        ("A".to_string(), "Info".to_string(), "first".to_string())
    );
    assert_eq!(recorded_actions(&core).len(), 1);

    core.disable_plugin(PluginKind::Logger);
    let second = LogCommand::Generate {
        category: "Info".to_string(),
        content: "second".to_string(),
    };
    core.publish_message("A", &second);
    assert_eq!(logger_lines(&core).len(), 1);
    assert_eq!(recorded_actions(&core).len(), 2);

    core.enable_plugin(PluginKind::Logger);
    let third = LogCommand::Generate {
        category: "Info".to_string(),
        content: "third".to_string(),
    };
    core.publish_message("A", &third);
    assert_eq!(logger_lines(&core).len(), 2);
    assert_eq!(logger_lines(&core)[1].2, "third");
}

#[test]
fn foreign_action_reaches_enabled_plugins_with_identical_arguments() {
    let mut core = fresh_core();
    core.disable_plugin(PluginKind::WindowManager);
    let command = Command {
        action: "x.y.open".to_string(),
        args: StructValue::Object(vec![("path".to_string(), StructValue::text("/p"))]),
    };
    core.publish_message("A", &command);
    let slot = core.get_plugin(PluginKind::SystemEventInterceptor).unwrap();
    let interceptor = slot.as_event_interceptor().unwrap();
    assert_eq!(interceptor.collected_events.len(), 1);
    let event = &interceptor.collected_events[0];
    assert_eq!(event.sender, "A");
    assert_eq!(event.action, "x.y.open");
    assert_eq!(
        event.args.get("path").unwrap().as_text().unwrap(),
        "/p"
    );
    assert!(logger_lines(&core).is_empty());
}

#[test]
fn nested_publishes_are_delivered_after_the_current_envelope() {
    let mut core = fresh_core();
    let io = ProjectManagerIo::Loaded { path: "/p".to_string(), project: demo_project() };
    core.publish_message("host", &io);

    // The loaded answer makes the project manager announce `Opened`; that
    // announcement makes the window manager ask itself to load the dock
    // state and the file manager ask itself to reload, in registry order.
    // Each of those envelopes is queued and delivered only after the one
    // being handled has reached every plugin.
    assert_eq!(
        recorded_actions(&core),
        vec![
            "designer.project_manager.io".to_string(),
            "designer.project_manager.event".to_string(),
            "designer.window_manager.management".to_string(),
            "designer.file_manager.management".to_string(),
        ]
    );

    let pm_slot = core.get_plugin(PluginKind::ProjectManager).unwrap();
    let pm = pm_slot.as_project_manager().unwrap();
    assert_eq!(pm.path.as_deref(), Some("/p"));
    assert!(pm.project_is_available());

    let requests = core.take_host_requests();
    assert_eq!(requests.len(), 2);
    assert!(matches!(&requests[0], HostRequest::ReadDockSettings { path } if path == "/p"));
    assert!(matches!(&requests[1], HostRequest::ScanProjectFiles { path } if path == "/p"));
    assert!(core.take_host_requests().is_empty());
}

#[test]
fn open_project_command_becomes_a_read_request() {
    let mut core = fresh_core();
    let open = ProjectManagerCommand::OpenProject { path: "/p".to_string() };
    core.publish_message("ui", &open);
    let requests = core.take_host_requests();
    assert_eq!(requests.len(), 1);
    assert!(matches!(&requests[0], HostRequest::ReadProjectFile { path } if path == "/p"));
    let pm_slot = core.get_plugin(PluginKind::ProjectManager).unwrap();
    assert!(!pm_slot.as_project_manager().unwrap().project_is_available());
}

#[test]
fn failed_project_read_becomes_a_log_line() {
    let mut core = fresh_core();
    let io = ProjectManagerIo::LoadFailed { path: "/p".to_string() };
    core.publish_message("host", &io);
    let lines = logger_lines(&core);
    assert_eq!(lines.len(), 1);
    assert_eq!(lines[0].1, "Error");
    assert_eq!(lines[0].2, "Cannot open project file.");
    let pm_slot = core.get_plugin(PluginKind::ProjectManager).unwrap();
    assert!(!pm_slot.as_project_manager().unwrap().project_is_available());
}

#[test]
fn create_project_command_writes_and_announces() {
    let mut core = fresh_core();
    let create = ProjectManagerCommand::CreateProject {
        path: "/q".to_string(),
        project: demo_project(),
    };
    core.publish_message("ui", &create);
    let requests = core.take_host_requests();
    assert_eq!(requests.len(), 1);
    assert!(matches!(&requests[0], HostRequest::WriteProjectFile { path, .. } if path == "/q"));
    assert_eq!(
        recorded_actions(&core),
        vec![
            "designer.project_manager.management".to_string(),
            "designer.project_manager.event".to_string(),
        ]
    );
}

#[test]
fn dock_state_save_and_load_flow() {
    let mut core = fresh_core();
    let io = ProjectManagerIo::Loaded { path: "/p".to_string(), project: demo_project() };
    core.publish_message("host", &io);
    let _ = core.take_host_requests();

    let save = WindowManagerCommand::SaveDockState(StructValue::text("layout"));
    core.publish_message("ui", &save);
    let requests = core.take_host_requests();
    assert_eq!(requests.len(), 1);
    assert!(
        matches!(&requests[0], HostRequest::WriteDockSettings { path, value }
            if path == "/p" && value.as_text().unwrap() == "layout")
    );
    let lines = logger_lines(&core);
    assert_eq!(lines.last().unwrap().1, "Succeed");
    assert_eq!(lines.last().unwrap().2, "Window dock state is stored.");

    let loaded = WindowManagerIo::DockLoaded { value: StructValue::text("layout") };
    core.publish_message("host", &loaded);
    let wm_slot = core.get_plugin(PluginKind::WindowManager).unwrap();
    let wm = wm_slot.as_window_manager().unwrap();
    assert_eq!(wm.dock_state.as_ref().unwrap().as_text().unwrap(), "layout");
    assert_eq!(wm.dock_changes.count, 1);
    let lines = logger_lines(&core);
    assert_eq!(lines.last().unwrap().2, "Window dock state is restored.");
}

#[test]
fn dock_commands_without_an_open_project_do_nothing() {
    let mut core = fresh_core();
    let save = WindowManagerCommand::SaveDockState(StructValue::text("layout"));
    core.publish_message("ui", &save);
    core.publish_message("ui", &WindowManagerCommand::LoadDockState);
    assert!(core.take_host_requests().is_empty());
    assert!(logger_lines(&core).is_empty());
}

#[test]
fn missing_dock_state_clears_the_layout_silently() {
    let mut core = fresh_core();
    core.publish_message("host", &WindowManagerIo::DockLoaded { value: StructValue::Int(1) });
    core.publish_message("host", &WindowManagerIo::DockMissing);
    let wm_slot = core.get_plugin(PluginKind::WindowManager).unwrap();
    assert!(wm_slot.as_window_manager().unwrap().dock_state.is_none());
}

#[test]
fn unreadable_dock_state_is_discarded_with_a_log_line() {
    let mut core = fresh_core();
    core.publish_message("host", &WindowManagerIo::DockUnreadable);
    let wm_slot = core.get_plugin(PluginKind::WindowManager).unwrap();
    assert!(wm_slot.as_window_manager().unwrap().dock_state.is_none());
    let lines = logger_lines(&core);
    assert_eq!(lines.last().unwrap().1, "Error");
    assert_eq!(
        lines.last().unwrap().2,
        "Cannot deserialize window dock state so discarded."
    );
}

#[test]
fn scanned_tree_is_installed_and_announced() {
    let mut core = fresh_core();
    let io = FileManagerIo::TreeLoaded {
        root: FileEntry {
            name: "root".to_string(),
            file_type: FileEntryType::Folder(vec![]),
        },
    };
    core.publish_message("host", &io);
    let fm_slot = core.get_plugin(PluginKind::FileManager).unwrap();
    assert_eq!(fm_slot.as_file_manager().unwrap().root.as_ref().unwrap().name, "root");
    assert_eq!(
        recorded_actions(&core),
        vec![
            "designer.file_manager.io".to_string(),
            "designer.file_manager.event".to_string(),
        ]
    );
}

#[test]
fn clear_command_empties_the_log() {
    let mut core = fresh_core();
    let line = LogCommand::Generate {
        category: "Info".to_string(),
        content: "x".to_string(),
    };
    core.publish_message("A", &line);
    assert_eq!(logger_lines(&core).len(), 1);
    core.publish_message("A", &LogCommand::Clear);
    assert!(logger_lines(&core).is_empty());
}

#[test]
fn malformed_payload_is_ignored() {
    let mut core = fresh_core();
    let bogus = Command {
        action: "designer.logger.log".to_string(),
        args: StructValue::Int(13),
    };
    core.publish_message("A", &bogus);
    assert!(logger_lines(&core).is_empty());
    assert_eq!(recorded_actions(&core).len(), 1);
}

#[test]
fn interceptor_keeps_only_the_newest_events_at_the_cap() {
    let mut core = fresh_core();
    for i in 0..520u32 {
        let command = Command {
            action: format!("tick.{}", i),
            args: StructValue::Null,
        };
        core.publish_message("A", &command);
    }
    let slot = core.get_plugin(PluginKind::SystemEventInterceptor).unwrap();
    let interceptor = slot.as_event_interceptor().unwrap();
    assert_eq!(interceptor.collected_events.len(), 512);
    assert_eq!(interceptor.collected_events[0].action, "tick.8");
    assert_eq!(interceptor.collected_events[511].action, "tick.519");
}
