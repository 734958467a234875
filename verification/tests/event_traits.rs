use mbus_events::event::{
    initialize_source_component, Component, EventMeta, EventSource, Version,
};

#[test]
fn component_initialization_with_unknown_input() {
    let component = initialize_source_component("component");
    let event_source = EventSource::new(component, "".to_string());
    let event_meta = EventMeta::from_source(event_source);
    assert_eq!(event_meta.source.unwrap().component, Component::UnknownComponent);
}

#[test]
fn event_traits_component_initialization_with_unknown_input() {
    let component = initialize_source_component("component");
    let event_source = EventSource::new(component, "".to_string());
    let event_meta = EventMeta::from_source(event_source);
    assert_eq!(event_meta.source.unwrap().component, Component::UnknownComponent);
}

#[test]
fn metadata_for_new_event() {
    let component = initialize_source_component("component");
    let event_source = EventSource::new(component, "".to_string());
    let event_meta = EventMeta::from_source(event_source);
    assert!(!event_meta.id.is_empty());
    assert!(event_meta.timestamp.is_some());
    assert_eq!(event_meta.version, Version::V1);
    assert!(event_meta.source.is_some());
}

#[test]
fn event_traits_metadata_for_new_event() {
    let component = initialize_source_component("component");
    let event_source = EventSource::new(component, "".to_string());
    let event_meta = EventMeta::from_source(event_source);
    assert!(!event_meta.id.is_empty());
    assert!(event_meta.timestamp.is_some());
    assert_eq!(event_meta.version, Version::V1);
    assert!(event_meta.source.is_some());
}

#[test]
fn known_components_are_recognized() {
    assert_eq!(initialize_source_component("agent-core"), Component::CoreAgent);
    assert_eq!(initialize_source_component("io-engine"), Component::IoEngine);
    assert_eq!(initialize_source_component("agent-ha-cluster"), Component::HaClusterAgent);
    assert_eq!(initialize_source_component("agent-ha-node"), Component::HaNodeAgent);
}

#[test]
fn fresh_event_ids_are_unique_uuids() {
    let component = initialize_source_component("agent-core");
    let a = EventMeta::from_source(EventSource::new(component, "node-1".to_string()));
    let b = EventMeta::from_source(EventSource::new(component, "node-1".to_string()));
    assert_eq!(a.id.len(), 36);
    assert_eq!(b.id.len(), 36);
    assert_ne!(a.id, b.id);
}

#[test]
fn rebuild_builder_sets_only_rebuild_details() {
    let component = initialize_source_component("io-engine");
    let source = EventSource::new(component, "node-1".to_string());
    let source = source.with_rebuild_data(
        mbus_events::event::RebuildStatus::Failed,
        "uri-src",
        "uri-dst",
        Some("disk gone".to_string()),
    );
    let details = source.event_details.unwrap();
    let rebuild = details.rebuild_details.unwrap();
    assert_eq!(rebuild.source_replica, "uri-src");
    assert_eq!(rebuild.destination_replica, "uri-dst");
    assert_eq!(rebuild.error, Some("disk gone".to_string()));
    assert!(details.replica_details.is_none());
    assert!(details.snapshot_details.is_none());
}

#[test]
fn target_builder_updates_existing_host_details() {
    let component = initialize_source_component("io-engine");
    let source = EventSource::new(component, "node-1".to_string())
        .with_subsystem_data("nqn-1")
        .with_target_data("nexus", "uuid-1")
        .with_host_initiator_data("host-nqn-1");
    let details = source.event_details.unwrap();
    let host = details.host_initiator_details.unwrap();
    assert_eq!(host.subsystem_nqn, "nqn-1");
    assert_eq!(host.target, "nexus");
    assert_eq!(host.uuid, "uuid-1");
    assert_eq!(host.host_nqn, "host-nqn-1");
}
