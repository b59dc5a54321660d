//! The storage contract: for every plugin, storing and then loading leaves
//! the diagnostic snapshot unchanged, and a snapshot that does not decode
//! is reported, never fatal.

use bluebird_core::plugins::event_interceptor::SystemEvent;
use bluebird_core::plugins::event_interceptor::SystemEventInterceptor;
use bluebird_core::plugins::file_manager::FileEntry;
use bluebird_core::plugins::file_manager::FileEntryType;
use bluebird_core::plugins::file_manager::FileManager;
use bluebird_core::plugins::logger::Logger;
use bluebird_core::plugins::project_manager::ProjectManager;
use bluebird_core::plugins::window_manager::WindowManager;
use bluebird_core::CoreError;
use bluebird_core::IPluginStateStorage;
use bluebird_core::MemoryStorage;
use bluebird_core::StructValue;

#[test]
fn logger_state_round_trips() {
    let mut logger = Logger::new();
    logger.logs.push(("A".to_string(), "Info".to_string(), "hello".to_string()));
    logger.logs.push(("B".to_string(), "Error".to_string(), "boom".to_string()));
    let before = logger.get_state();
    let mut store = MemoryStorage::new();
    logger.store_state(&mut store);
    let mut restored = Logger::new();
    restored.load_state(&mut store).unwrap();
    assert!(restored.get_state().same_as(&before));
    assert_eq!(restored.logs.len(), 2);
    assert_eq!(restored.logs[1].2, "boom");
}

#[test]
fn empty_logger_state_round_trips() {
    let logger = Logger::new();
    let before = logger.get_state();
    let mut store = MemoryStorage::new();
    logger.store_state(&mut store);
    let mut restored = Logger::new();
    restored.load_state(&mut store).unwrap();
    assert!(restored.get_state().same_as(&before));
    assert!(restored.logs.is_empty());
}

#[test]
fn project_manager_state_round_trips() {
    let mut pm = ProjectManager::new();
    pm.path = Some("/p".to_string());
    pm.recent_projects.push("/p".to_string());
    pm.recent_projects.push("/q".to_string());
    let before = pm.get_state();
    let mut store = MemoryStorage::new();
    pm.store_state(&mut store);
    let mut restored = ProjectManager::new();
    restored.load_state(&mut store).unwrap();
    assert!(restored.get_state().same_as(&before));
    assert_eq!(restored.path.as_deref(), Some("/p"));
    assert_eq!(restored.recent_projects, vec!["/p".to_string(), "/q".to_string()]);
    assert!(restored.project.is_none());
}

#[test]
fn window_manager_state_round_trips() {
    let mut wm = WindowManager::new();
    wm.dock_state = Some(StructValue::text("layout"));
    let before = wm.get_state();
    let mut store = MemoryStorage::new();
    wm.store_state(&mut store);
    let mut restored = WindowManager::new();
    restored.load_state(&mut store).unwrap();
    assert!(restored.get_state().same_as(&before));
    assert_eq!(restored.dock_state.as_ref().unwrap().as_text().unwrap(), "layout");
}

#[test]
fn window_manager_null_layout_stays_distinguishable() {
    let mut with_null_layout = WindowManager::new();
    with_null_layout.dock_state = Some(StructValue::Null);
    let mut store = MemoryStorage::new();
    with_null_layout.store_state(&mut store);
    let mut restored = WindowManager::new();
    restored.load_state(&mut store).unwrap();
    assert!(matches!(restored.dock_state, Some(StructValue::Null)));

    let without_layout = WindowManager::new();
    without_layout.store_state(&mut store);
    restored.load_state(&mut store).unwrap();
    assert!(restored.dock_state.is_none());
}

#[test]
fn file_manager_state_round_trips() {
    let mut fm = FileManager::new();
    fm.root = Some(FileEntry {
        name: "root".to_string(),
        file_type: FileEntryType::Folder(vec![FileEntry {
            name: "a.rs".to_string(),
            file_type: FileEntryType::File,
        }]),
    });
    let before = fm.get_state();
    let mut store = MemoryStorage::new();
    fm.store_state(&mut store);
    let mut restored = FileManager::new();
    restored.load_state(&mut store).unwrap();
    assert!(restored.get_state().same_as(&before));
    assert_eq!(restored.root.as_ref().unwrap().name, "root");
}

#[test]
fn interceptor_state_round_trips() {
    let mut interceptor = SystemEventInterceptor::new();
    interceptor.collected_events.push_back(SystemEvent {
        sender: "A".to_string(),
        action: "x.y".to_string(),
        args: StructValue::Int(1),
    });
    let before = interceptor.get_state();
    let mut store = MemoryStorage::new();
    interceptor.store_state(&mut store);
    let mut restored = SystemEventInterceptor::new();
    restored.load_state(&mut store).unwrap();
    assert!(restored.get_state().same_as(&before));
    assert_eq!(restored.collected_events.len(), 1);
    assert_eq!(restored.collected_events[0].action, "x.y");
}

#[test]
fn undecodable_snapshot_is_reported_not_fatal() {
    let mut store = MemoryStorage::new();
    store.store_state(StructValue::text("not a snapshot"));
    let mut logger = Logger::new();
    logger.logs.push(("A".to_string(), "Info".to_string(), "keep".to_string()));
    assert!(matches!(
        logger.load_state(&mut store),
        Err(CoreError::StateDeserializationFailed)
    ));
    assert_eq!(logger.logs.len(), 1);

    let mut pm = ProjectManager::new();
    assert!(matches!(
        pm.load_state(&mut store),
        Err(CoreError::StateDeserializationFailed)
    ));
    let mut wm = WindowManager::new();
    assert!(matches!(
        wm.load_state(&mut store),
        Err(CoreError::StateDeserializationFailed)
    ));
    let mut fm = FileManager::new();
    assert!(matches!(
        fm.load_state(&mut store),
        Err(CoreError::StateDeserializationFailed)
    ));
    let mut interceptor = SystemEventInterceptor::new();
    assert!(matches!(
        interceptor.load_state(&mut store),
        Err(CoreError::StateDeserializationFailed)
    ));
}

#[test]
fn memory_storage_returns_last_stored_value() {
    let mut store = MemoryStorage::new();
    assert!(store.load_state().same_as(&StructValue::Null));
    store.store_state(StructValue::Int(5));
    assert!(store.load_state().same_as(&StructValue::Int(5)));
    store.store_state(StructValue::text("next"));
    assert!(store.load_state().same_as(&StructValue::text("next")));
}
