//! Message codecs: every command, event and host answer decodes back to
//! what was encoded, and garbage is rejected.

use bluebird_core::commands::IEncode;
use bluebird_core::plugin::decode_status;
use bluebird_core::plugin::encode_status;
use bluebird_core::plugins::event_interceptor::decode_event;
use bluebird_core::plugins::event_interceptor::encode_event;
use bluebird_core::plugins::event_interceptor::SystemEvent;
use bluebird_core::plugins::file_manager::decode_entry;
use bluebird_core::plugins::file_manager::decode_fm_command;
use bluebird_core::plugins::file_manager::decode_fm_io;
use bluebird_core::plugins::file_manager::encode_entry;
use bluebird_core::plugins::file_manager::FileEntry;
use bluebird_core::plugins::file_manager::FileEntryType;
use bluebird_core::plugins::file_manager::FileManagerCommand;
use bluebird_core::plugins::file_manager::FileManagerIo;
use bluebird_core::plugins::logger::decode_log_command;
use bluebird_core::plugins::logger::LogCommand;
use bluebird_core::plugins::project_manager::decode_pm_command;
use bluebird_core::plugins::project_manager::decode_pm_event;
use bluebird_core::plugins::project_manager::decode_pm_io;
use bluebird_core::plugins::project_manager::decode_project;
use bluebird_core::plugins::project_manager::Project;
use bluebird_core::plugins::project_manager::ProjectManagerCommand;
use bluebird_core::plugins::project_manager::ProjectManagerEvent;
use bluebird_core::plugins::project_manager::ProjectManagerIo;
use bluebird_core::plugins::window_manager::decode_window_id;
use bluebird_core::plugins::window_manager::decode_wm_command;
use bluebird_core::plugins::window_manager::decode_wm_event;
use bluebird_core::plugins::window_manager::decode_wm_io;
use bluebird_core::plugins::window_manager::encode_window_id;
use bluebird_core::plugins::window_manager::EditorWindowId;
use bluebird_core::plugins::window_manager::WindowManagerCommand;
use bluebird_core::plugins::window_manager::WindowManagerEvent;
use bluebird_core::plugins::window_manager::WindowManagerIo;
use bluebird_core::PluginStatus;
use bluebird_core::StructValue;

fn sample_project() -> Project {
    Project {
        name: "blue".to_string(),
        description: "a bird".to_string(),
        version: (1, 2, 3),
        package_name: "org.blue".to_string(),
        author: "me".to_string(),
        email: "me@blue".to_string(),
    }
}

#[test]
fn log_command_round_trips() {
    let generate = LogCommand::Generate {
        category: "Error".to_string(),
        content: "boom".to_string(),
    };
    match decode_log_command(&generate.encode()).unwrap() {
        LogCommand::Generate { category, content } => {
            assert_eq!(category, "Error");
            assert_eq!(content, "boom");
        }
        _ => panic!("wrong variant"),
    }
    assert!(matches!(
        decode_log_command(&LogCommand::Clear.encode()),
        Some(LogCommand::Clear)
    ));
    assert!(decode_log_command(&StructValue::Int(1)).is_none());
    assert!(decode_log_command(&StructValue::text("Unknown")).is_none());
}

#[test]
fn project_round_trips() {
    let p = sample_project();
    let decoded = decode_project(&p.encode()).unwrap();
    assert_eq!(decoded.name, "blue");
    assert_eq!(decoded.description, "a bird");
    assert_eq!(decoded.version, (1, 2, 3));
    assert_eq!(decoded.package_name, "org.blue");
    assert_eq!(decoded.author, "me");
    assert_eq!(decoded.email, "me@blue");
    assert!(decode_project(&StructValue::Null).is_none());
}

#[test]
fn project_manager_command_round_trips() {
    let open = ProjectManagerCommand::OpenProject { path: "/p".to_string() };
    match decode_pm_command(&open.encode()).unwrap() {
        ProjectManagerCommand::OpenProject { path } => assert_eq!(path, "/p"),
        _ => panic!("wrong variant"),
    }
    let create = ProjectManagerCommand::CreateProject {
        path: "/q".to_string(),
        project: sample_project(),
    };
    match decode_pm_command(&create.encode()).unwrap() {
        ProjectManagerCommand::CreateProject { path, project } => {
            assert_eq!(path, "/q");
            assert_eq!(project.name, "blue");
        }
        _ => panic!("wrong variant"),
    }
    assert!(matches!(
        decode_pm_command(&ProjectManagerCommand::CloseProject.encode()),
        Some(ProjectManagerCommand::CloseProject)
    ));
    assert!(decode_pm_command(&StructValue::Bool(false)).is_none());
}

#[test]
fn project_manager_event_round_trips() {
    let opened = ProjectManagerEvent::Opened { path: "/p".to_string() };
    match decode_pm_event(&opened.encode()).unwrap() {
        ProjectManagerEvent::Opened { path } => assert_eq!(path, "/p"),
        _ => panic!("wrong variant"),
    }
    let created = ProjectManagerEvent::Created { path: "/q".to_string() };
    match decode_pm_event(&created.encode()).unwrap() {
        ProjectManagerEvent::Created { path } => assert_eq!(path, "/q"),
        _ => panic!("wrong variant"),
    }
}

#[test]
fn project_manager_io_round_trips() {
    let loaded = ProjectManagerIo::Loaded { path: "/p".to_string(), project: sample_project() };
    match decode_pm_io(&loaded.encode()).unwrap() {
        ProjectManagerIo::Loaded { path, project } => {
            assert_eq!(path, "/p");
            assert_eq!(project.version, (1, 2, 3));
        }
        _ => panic!("wrong variant"),
    }
    let failed = ProjectManagerIo::LoadFailed { path: "/p".to_string() };
    assert!(matches!(
        decode_pm_io(&failed.encode()),
        Some(ProjectManagerIo::LoadFailed { .. })
    ));
}

#[test]
fn window_id_round_trips_all_ten() {
    let ids = [
        EditorWindowId::WelcomePage,
        EditorWindowId::FileManagerWindow,
        EditorWindowId::LogViewWindow,
        EditorWindowId::InspectorWindow,
        EditorWindowId::LibraryWindow,
        EditorWindowId::ProjectSettingsWindow,
        EditorWindowId::EditorSettingsWindow,
        EditorWindowId::ExtensionsWindow,
        EditorWindowId::NodeEditorWindow,
        EditorWindowId::CodeEditorWindow,
    ];
    for id in ids {
        assert_eq!(decode_window_id(encode_window_id(id).as_str()), Some(id));
    }
    assert_eq!(decode_window_id("NoSuchWindow"), None);
}

#[test]
fn window_manager_command_round_trips() {
    let open = WindowManagerCommand::OpenWindow(EditorWindowId::LibraryWindow);
    assert!(matches!(
        decode_wm_command(&open.encode()),
        Some(WindowManagerCommand::OpenWindow(EditorWindowId::LibraryWindow))
    ));
    let close = WindowManagerCommand::CloseWindow(EditorWindowId::WelcomePage);
    assert!(matches!(
        decode_wm_command(&close.encode()),
        Some(WindowManagerCommand::CloseWindow(EditorWindowId::WelcomePage))
    ));
    let save = WindowManagerCommand::SaveDockState(StructValue::Int(42));
    match decode_wm_command(&save.encode()).unwrap() {
        WindowManagerCommand::SaveDockState(v) => assert_eq!(v.as_int(), Some(42)),
        _ => panic!("wrong variant"),
    }
    assert!(matches!(
        decode_wm_command(&WindowManagerCommand::LoadDockState.encode()),
        Some(WindowManagerCommand::LoadDockState)
    ));
    assert!(decode_wm_command(&StructValue::Null).is_none());
}

#[test]
fn window_manager_event_round_trips() {
    assert!(matches!(
        decode_wm_event(&WindowManagerEvent::DockStateSaved.encode()),
        Some(WindowManagerEvent::DockStateSaved)
    ));
    assert!(matches!(
        decode_wm_event(&WindowManagerEvent::DockStateRestored.encode()),
        Some(WindowManagerEvent::DockStateRestored)
    ));
    assert!(decode_wm_event(&StructValue::text("Other")).is_none());
}

#[test]
fn window_manager_io_round_trips() {
    let loaded = WindowManagerIo::DockLoaded { value: StructValue::text("layout") };
    match decode_wm_io(&loaded.encode()).unwrap() {
        WindowManagerIo::DockLoaded { value } => {
            assert_eq!(value.as_text().unwrap(), "layout")
        }
        _ => panic!("wrong variant"),
    }
    assert!(matches!(
        decode_wm_io(&WindowManagerIo::DockMissing.encode()),
        Some(WindowManagerIo::DockMissing)
    ));
    assert!(matches!(
        decode_wm_io(&WindowManagerIo::DockUnreadable.encode()),
        Some(WindowManagerIo::DockUnreadable)
    ));
}

#[test]
fn file_manager_command_round_trips() {
    assert!(matches!(
        decode_fm_command(&FileManagerCommand::ReloadProjectFiles.encode()),
        Some(FileManagerCommand::ReloadProjectFiles)
    ));
    match decode_fm_command(&FileManagerCommand::OpenFile("a.rs".to_string()).encode()).unwrap() {
        FileManagerCommand::OpenFile(p) => assert_eq!(p, "a.rs"),
        _ => panic!("wrong variant"),
    }
    match decode_fm_command(&FileManagerCommand::CloseFile("b.rs".to_string()).encode()).unwrap() {
        FileManagerCommand::CloseFile(p) => assert_eq!(p, "b.rs"),
        _ => panic!("wrong variant"),
    }
    match decode_fm_command(&FileManagerCommand::RequestContextMenu("c".to_string()).encode())
        .unwrap()
    {
        FileManagerCommand::RequestContextMenu(p) => assert_eq!(p, "c"),
        _ => panic!("wrong variant"),
    }
}

fn sample_tree() -> FileEntry {
    FileEntry {
        name: "root".to_string(),
        file_type: FileEntryType::Folder(vec![
            FileEntry { name: "a.rs".to_string(), file_type: FileEntryType::File },
            FileEntry {
                name: "sub".to_string(),
                file_type: FileEntryType::Folder(vec![FileEntry {
                    name: "b.rs".to_string(),
                    file_type: FileEntryType::File,
                }]),
            },
        ]),
    }
}

#[test]
fn file_entry_tree_round_trips() {
    let tree = sample_tree();
    let decoded = decode_entry(&encode_entry(&tree)).unwrap();
    assert_eq!(decoded.name, "root");
    match decoded.file_type {
        FileEntryType::Folder(children) => {
            assert_eq!(children.len(), 2);
            assert_eq!(children[0].name, "a.rs");
            assert!(matches!(children[0].file_type, FileEntryType::File));
            match &children[1].file_type {
                FileEntryType::Folder(inner) => {
                    assert_eq!(inner.len(), 1);
                    assert_eq!(inner[0].name, "b.rs");
                }
                _ => panic!("wrong variant"),
            }
        }
        _ => panic!("wrong variant"),
    }
    assert!(decode_entry(&StructValue::text("File")).is_none());
}

#[test]
fn file_manager_io_round_trips() {
    let io = FileManagerIo::TreeLoaded { root: sample_tree() };
    match decode_fm_io(&io.encode()).unwrap() {
        FileManagerIo::TreeLoaded { root } => assert_eq!(root.name, "root"),
    }
    assert!(decode_fm_io(&StructValue::Null).is_none());
}

#[test]
fn system_event_round_trips() {
    let e = SystemEvent {
        sender: "A".to_string(),
        action: "x.y".to_string(),
        args: StructValue::Int(7),
    };
    let decoded = decode_event(&encode_event(&e)).unwrap();
    assert_eq!(decoded.sender, "A");
    assert_eq!(decoded.action, "x.y");
    assert_eq!(decoded.args.as_int(), Some(7));
    assert!(decode_event(&StructValue::Null).is_none());
}

#[test]
fn status_round_trips() {
    assert_eq!(
        decode_status(&encode_status(PluginStatus::Enabled)),
        Some(PluginStatus::Enabled)
    );
    assert_eq!(
        decode_status(&encode_status(PluginStatus::Disabled)),
        Some(PluginStatus::Disabled)
    );
    assert_eq!(decode_status(&StructValue::text("Paused")), None);
}
