use fs_service::types::WatchEventType;
use fs_service::watch::{watch_event, watch_event_type, NativeEventKind, WatchRegistry};

#[test]
fn registry_adds_and_removes() {
    let mut r = WatchRegistry::new();
    assert_eq!(r.len(), 0);
    assert!(!r.register("/a"));
    assert!(!r.register("/b"));
    assert!(r.register("/a"));
    assert_eq!(r.len(), 2);
    assert!(r.is_watching("/a"));
    assert!(r.unregister("/a"));
    assert!(!r.unregister("/a"));
    assert!(!r.is_watching("/a"));
    assert_eq!(r.watched_paths(), vec!["/b".to_string()]);
}

#[test]
fn native_events_map_to_four_kinds() {
    assert_eq!(watch_event_type(NativeEventKind::Create), WatchEventType::Created);
    assert_eq!(watch_event_type(NativeEventKind::Modify), WatchEventType::Modified);
    assert_eq!(watch_event_type(NativeEventKind::ModifyName), WatchEventType::Renamed);
    assert_eq!(watch_event_type(NativeEventKind::Remove), WatchEventType::Deleted);
    assert_eq!(watch_event_type(NativeEventKind::Access), WatchEventType::Other);
    assert_eq!(watch_event_type(NativeEventKind::Any), WatchEventType::Other);
    assert_eq!(watch_event_type(NativeEventKind::Other), WatchEventType::Other);
}

#[test]
fn watch_event_carries_path_and_time() {
    let e = watch_event(NativeEventKind::Remove, "/w/x".to_string(), 42);
    assert_eq!(e.event_type, WatchEventType::Deleted);
    assert_eq!(e.path, "/w/x");
    assert_eq!(e.timestamp, 42);
}
