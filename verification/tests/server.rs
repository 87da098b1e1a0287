use plugin_host::codec::MetadataError;
use plugin_host::codec::WireArena;
use plugin_host::example_plugin::plugin_metadata;
use plugin_host::lifecycle::LifecycleState;
use plugin_host::loader::LoadError;
use plugin_host::loader::LoadEvent;
use plugin_host::server::LogEntry;
use plugin_host::server::PLUGIN_API_VERSION;
use plugin_host::server::Server;

#[test]
fn cannot_open_returns_error_and_registers_nothing() {
    let mut server = Server::new();
    let mut arena = WireArena::new();
    let r = server.load_plugin(&mut arena, LoadEvent::CannotOpenModule, true);
    assert_eq!(r.unwrap_err(), LoadError::CannotOpen);
    assert_eq!(server.plugin_count(), 0);
}

#[test]
fn missing_entry_symbol_returns_error_and_registers_nothing() {
    let mut server = Server::new();
    let mut arena = WireArena::new();
    let r = server.load_plugin(&mut arena, LoadEvent::MissingEntrySymbol, true);
    assert_eq!(r.unwrap_err(), LoadError::MissingEntryPoint);
    assert_eq!(server.plugin_count(), 0);
}

#[test]
fn bad_metadata_returns_error_registers_nothing_and_frees_the_wire() {
    let mut server = Server::new();
    let mut arena = WireArena::new();
    let wire = plugin_host::codec::OwnedMetadata {
        name: arena.allocate(b"\xFFbroken\0".to_vec()),
        author: arena.allocate(b"Ada\0".to_vec()),
        description: arena.allocate(b"A plugin.\0".to_vec()),
        version: arena.allocate(b"1.0\0".to_vec()),
    };
    let r = server.load_plugin(&mut arena, LoadEvent::ModuleLoaded { module: 5, wire }, true);
    assert_eq!(r.unwrap_err(), LoadError::BadMetadata(MetadataError::InvalidEncoding));
    assert_eq!(server.plugin_count(), 0);
    assert!(!arena.is_live(wire.name));
    assert!(!arena.is_live(wire.author));
    assert!(!arena.is_live(wire.description));
    assert!(!arena.is_live(wire.version));
}

#[test]
fn broadcast_visits_plugins_in_load_order_every_time() {
    let mut server = Server::new();
    let mut arena = WireArena::new();
    for module in [10u64, 20, 30] {
        let wire = plugin_metadata(&mut arena);
        let r = server.load_plugin(&mut arena, LoadEvent::ModuleLoaded { module, wire }, true);
        assert!(r.is_ok());
    }
    assert_eq!(server.plugin_count(), 3);
    let first = server.tick_plugins();
    let second = server.tick_plugins();
    assert_eq!(first, vec![10, 20, 30]);
    assert_eq!(second, vec![10, 20, 30]);
    let last = server.shutdown_plugins();
    assert_eq!(last, vec![10, 20, 30]);
    assert_eq!(server.plugin_state(0), LifecycleState::ShutDown);
    assert_eq!(server.plugin_state(2), LifecycleState::ShutDown);
}

#[test]
fn loading_the_same_module_twice_registers_two_plugins() {
    let mut server = Server::new();
    let mut arena = WireArena::new();
    for _ in 0..2 {
        let wire = plugin_metadata(&mut arena);
        server
            .load_plugin(&mut arena, LoadEvent::ModuleLoaded { module: 7, wire }, true)
            .unwrap();
    }
    assert_eq!(server.plugin_count(), 2);
    assert_eq!(server.tick_plugins(), vec![7, 7]);
}

#[test]
fn log_message_classifies_null_invalid_and_valid_messages() {
    let mut server = Server::new();
    server.log_message(None);
    server.log_message(Some(vec![0xC0, 0x80]));
    server.log_message(Some(b"hello".to_vec()));
    let entries = server.log_entries();
    assert_eq!(entries.len(), 3);
    assert_eq!(entries[0], LogEntry::NullMessage);
    assert_eq!(entries[1], LogEntry::InvalidUtf8);
    assert_eq!(entries[2], LogEntry::Message(b"hello".to_vec()));
}

#[test]
fn host_exposes_its_version_and_number() {
    let server = Server::new();
    assert_eq!(server.host_version(), PLUGIN_API_VERSION);
    assert_eq!(server.host_version(), 1);
    assert_eq!(server.get_eventually_modified_number(), 42);
}

#[test]
fn spawn_entity_records_identifiers_in_call_order() {
    let mut server = Server::new();
    server.spawn_entity(1001);
    server.spawn_entity(1002);
    assert_eq!(server.spawned(), &vec![1001, 1002]);
}
