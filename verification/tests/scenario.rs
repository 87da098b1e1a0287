use plugin_host::codec::WireArena;
use plugin_host::example_plugin::ExamplePlugin;
use plugin_host::example_plugin::InitError;
use plugin_host::example_plugin::plugin_metadata;
use plugin_host::example_plugin::u32_decimal;
use plugin_host::lifecycle::LifecycleState;
use plugin_host::loader::LoadError;
use plugin_host::loader::LoadEvent;
use plugin_host::server::HostCall;
use plugin_host::server::LogEntry;
use plugin_host::server::Server;

#[test]
fn matching_version_runs_the_whole_lifecycle() {
    let mut server = Server::new();
    let mut arena = WireArena::new();
    let mut plugin = ExamplePlugin::new(1);

    // Load: the module's metadata function hands four wire strings over.
    let wire = plugin_metadata(&mut arena);
    // Init: the plugin checks the host's version (1 against 1) and accepts.
    let init_calls = plugin.plugin_init(server.host_version()).unwrap();
    server
        .load_plugin(&mut arena, LoadEvent::ModuleLoaded { module: 1, wire }, true)
        .unwrap();
    assert_eq!(server.plugin_count(), 1);
    assert_eq!(server.plugin_state(0), LifecycleState::Initialized);

    // The host observes one log call and one spawn of entity 1001.
    assert_eq!(init_calls.len(), 2);
    for c in init_calls {
        server.perform(c);
    }
    assert_eq!(server.log_entries().len(), 1);
    assert_eq!(server.log_entries()[0], LogEntry::Message(b"Plugin initialized!".to_vec()));
    assert_eq!(server.spawned(), &vec![1001]);

    // One tick: the host observes one log holding the current number (42)
    // and one spawn of entity 1002.
    let order = server.tick_plugins();
    assert_eq!(order, vec![1]);
    let tick_calls = plugin.plugin_tick(server.get_eventually_modified_number());
    assert_eq!(tick_calls.len(), 2);
    for c in tick_calls {
        server.perform(c);
    }
    assert_eq!(server.log_entries().len(), 2);
    assert_eq!(server.log_entries()[1], LogEntry::Message(b"42".to_vec()));
    assert_eq!(server.spawned(), &vec![1001, 1002]);

    // Shutdown: one farewell log, and the handle is terminal.
    let order = server.shutdown_plugins();
    assert_eq!(order, vec![1]);
    let bye_calls = plugin.plugin_shutdown();
    assert_eq!(bye_calls.len(), 1);
    for c in bye_calls {
        server.perform(c);
    }
    assert_eq!(server.log_entries().len(), 3);
    assert_eq!(server.log_entries()[2], LogEntry::Message(b"Plugin shutting down.".to_vec()));
    assert_eq!(server.plugin_state(0), LifecycleState::ShutDown);
    // No further host call was recorded after the shutdown log.
    assert_eq!(server.spawned(), &vec![1001, 1002]);
}

#[test]
fn version_mismatch_fails_fast_before_any_spawn() {
    let mut server = Server::new();
    let mut arena = WireArena::new();
    // A plugin compiled against interface version 2, against a host at 1.
    let mut plugin = ExamplePlugin::new(2);

    let wire = plugin_metadata(&mut arena);
    let init_result = plugin.plugin_init(server.host_version());
    assert_eq!(init_result.unwrap_err(), InitError::VersionMismatch);

    let r = server.load_plugin(
        &mut arena,
        LoadEvent::ModuleLoaded { module: 1, wire },
        false,
    );
    assert_eq!(r.unwrap_err(), LoadError::VersionMismatch);

    // Nothing was registered, no host call was observed, and the wire
    // buffers were still released.
    assert_eq!(server.plugin_count(), 0);
    assert_eq!(server.spawned(), &Vec::<u32>::new());
    assert_eq!(server.log_entries().len(), 0);
    assert!(!arena.is_live(wire.name));
    assert!(!arena.is_live(wire.version));
}

#[test]
fn example_metadata_decodes_to_the_published_fields() {
    let mut server = Server::new();
    let mut arena = WireArena::new();
    let wire = plugin_metadata(&mut arena);
    server
        .load_plugin(&mut arena, LoadEvent::ModuleLoaded { module: 9, wire }, true)
        .unwrap();
    assert_eq!(server.plugin_count(), 1);
    let meta = server.plugin_metadata(0);
    assert_eq!(meta.name, b"Example Plugin".to_vec());
    assert_eq!(meta.author, b"Your Name".to_vec());
    assert_eq!(meta.description, b"An example plugin for the server.".to_vec());
    assert_eq!(meta.version, b"0.1.0".to_vec());
}

#[test]
fn decimal_rendering_matches_expected_digits() {
    assert_eq!(u32_decimal(0), b"0".to_vec());
    assert_eq!(u32_decimal(7), b"7".to_vec());
    assert_eq!(u32_decimal(42), b"42".to_vec());
    assert_eq!(u32_decimal(1002), b"1002".to_vec());
    assert_eq!(u32_decimal(u32::MAX), b"4294967295".to_vec());
}

#[test]
fn host_calls_apply_in_the_order_the_plugin_made_them() {
    let mut server = Server::new();
    server.perform(HostCall::SpawnEntity(5));
    server.perform(HostCall::Log(b"after".to_vec()));
    assert_eq!(server.spawned(), &vec![5]);
    assert_eq!(server.log_entries()[0], LogEntry::Message(b"after".to_vec()));
}
