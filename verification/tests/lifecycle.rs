use plugin_host::codec::RustTypePluginMetadata;
use plugin_host::lifecycle::LifecycleState;
use plugin_host::lifecycle::PluginHandle;

fn sample_metadata() -> RustTypePluginMetadata {
    RustTypePluginMetadata {
        name: b"Alpha".to_vec(),
        author: b"Ada".to_vec(),
        description: b"A plugin.".to_vec(),
        version: b"1.0".to_vec(),
    }
}

#[test]
fn handle_walks_the_lifecycle_in_order() {
    let mut h = PluginHandle::new(7, sample_metadata());
    assert_eq!(h.state(), LifecycleState::Loaded);
    assert_eq!(h.module(), 7);
    assert_eq!(h.metadata().name, b"Alpha".to_vec());
    h.mark_initialized();
    assert_eq!(h.state(), LifecycleState::Initialized);
    h.mark_tick();
    h.mark_tick();
    assert_eq!(h.state(), LifecycleState::Initialized);
    h.mark_shutdown();
    assert_eq!(h.state(), LifecycleState::ShutDown);
}

#[test]
fn handle_can_shut_down_without_any_tick() {
    let mut h = PluginHandle::new(3, sample_metadata());
    h.mark_initialized();
    h.mark_shutdown();
    assert_eq!(h.state(), LifecycleState::ShutDown);
}
