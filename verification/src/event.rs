//! Event metadata and source construction: the component identity, the
//! per-event metadata (unique id, source, timestamp, version), and the
//! builders that attach kind-specific details to an event source.
//!
//! The component identity is an explicit value threaded through
//! construction, so independent identities can coexist in one process.

use vstd::prelude::*;
use crate::strutil::str_eq;
use crate::timestamp::{Duration, Timestamp};

verus! {

/// The service that emits events.
#[derive(Clone, Copy, Debug, PartialEq, Eq, Structural)]
pub enum Component {
    /// A service no component name matched.
    UnknownComponent,
    /// The core agent of the control plane.
    CoreAgent,
    /// The io-engine data plane.
    IoEngine,
    /// The cluster-wide high-availability agent.
    HaClusterAgent,
    /// The per-node high-availability agent.
    HaNodeAgent,
}

/// Version of the event message.
#[derive(Clone, Copy, Debug, PartialEq, Eq, Structural)]
pub enum Version {
    /// The first and only version so far.
    V1,
}

/// The component a service name denotes; names no component claims denote
/// the unknown component.
pub open spec fn spec_component_of(name: Seq<char>) -> Component {
    if name == "agent-core"@ {
        Component::CoreAgent
    } else if name == "io-engine"@ {
        Component::IoEngine
    } else if name == "agent-ha-cluster"@ {
        Component::HaClusterAgent
    } else if name == "agent-ha-node"@ {
        Component::HaNodeAgent
    } else {
        Component::UnknownComponent
    }
}

/// Derives the event-source component from the service name; a name no
/// component claims yields the unknown component. The caller owns the value
/// and threads it through event-source construction.
pub fn initialize_source_component(comp: &str) -> (c: Component)
    ensures
        c == spec_component_of(comp@),
{
    if str_eq(comp, "agent-core") {
        Component::CoreAgent
    } else if str_eq(comp, "io-engine") {
        Component::IoEngine
    } else if str_eq(comp, "agent-ha-cluster") {
        Component::HaClusterAgent
    } else if str_eq(comp, "agent-ha-node") {
        Component::HaNodeAgent
    } else {
        Component::UnknownComponent
    }
}

/// Relies on `uuid::Uuid::new_v4` and `uuid::Uuid::to_string`: a fresh
/// random identifier, rendered in the 36-character lowercase hyphenated
/// form. Nothing links two calls: only the shape is promised.
#[verifier::external_body]
fn new_event_id() -> (r: String)
    ensures
        r@.len() == 36,
        forall|i: int|
            0 <= i < r@.len() ==> ((#[trigger] r@[i]) == '-' || ('0' <= r@[i] <= '9') || ('a'
                <= r@[i] <= 'f')),
{
    uuid::Uuid::new_v4().to_string()
}

/// Relies on `chrono::Utc::now`, `DateTime::timestamp` and
/// `DateTime::timestamp_subsec_nanos`: the current time as seconds and
/// nanoseconds since the Unix epoch. The value depends on the clock, so only
/// the nanosecond range is promised: below two seconds (above one only
/// while a leap second is smeared).
#[verifier::external_body]
fn now_timestamp() -> (r: Timestamp)
    ensures
        0 <= r.nanos < 2_000_000_000,
{
    let now = chrono::Utc::now();
    Timestamp { seconds: now.timestamp(), nanos: now.timestamp_subsec_nanos() as i32 }
}

/// Rebuild status for rebuild events.
#[derive(Clone, Copy, Debug, PartialEq, Eq, Structural)]
pub enum RebuildStatus {
    /// No known status.
    Unknown,
    /// The rebuild began.
    Started,
    /// The rebuild finished successfully.
    Completed,
    /// The rebuild failed.
    Failed,
}

/// Switch-over status for high-availability events.
#[derive(Clone, Copy, Debug, PartialEq, Eq, Structural)]
pub enum SwitchOverStatus {
    /// No known status.
    Unknown,
    /// The switch-over began.
    Started,
    /// The switch-over finished successfully.
    Completed,
    /// The switch-over failed.
    Failed,
}

/// Rebuild event specific data.
#[derive(Clone, Debug)]
pub struct RebuildEventDetails {
    /// Rebuild status.
    pub rebuild_status: RebuildStatus,
    /// Rebuild source replica uri.
    pub source_replica: String,
    /// Rebuild destination replica uri.
    pub destination_replica: String,
    /// Rebuild error, for a failed rebuild.
    pub error: Option<String>,
}

/// Replica event specific data.
#[derive(Clone, Debug)]
pub struct ReplicaEventDetails {
    /// Name of the pool holding the replica.
    pub pool_name: String,
    /// Uuid of that pool.
    pub pool_uuid: String,
    /// Name of the replica.
    pub replica_name: String,
}

/// High-availability switch-over event specific data.
#[derive(Clone, Debug)]
pub struct SwitchOverEventDetails {
    /// Switch-over status.
    pub switch_over_status: SwitchOverStatus,
    /// Switch-over start time.
    pub start_time: Option<Timestamp>,
    /// Failed nexus path of the volume.
    pub existing_nqn: String,
    /// New nexus path of the volume.
    pub new_path: Option<String>,
    /// Number of failed attempts in the current stage.
    pub retry_count: u64,
}

/// Nexus child event specific data.
#[derive(Clone, Debug)]
pub struct NexusChildEventDetails {
    /// Uri of the child.
    pub uri: String,
}

/// Nvme path event specific data.
#[derive(Clone, Debug)]
pub struct NvmePathEventDetails {
    /// The qualified name of the subsystem.
    pub nqn: String,
    /// The path.
    pub path: String,
}

/// Host initiator event specific data.
#[derive(Clone, Debug)]
pub struct HostInitiatorEventDetails {
    /// The qualified name of the subsystem.
    pub subsystem_nqn: String,
    /// The target (nexus or replica).
    pub target: String,
    /// The target's uuid.
    pub uuid: String,
    /// The qualified name of the host.
    pub host_nqn: String,
}

/// How long an event's action took.
#[derive(Clone, Copy, Debug)]
pub struct EventActionDuration {
    /// The time taken.
    pub time_taken: Option<Duration>,
}

/// Reactor event specific data.
#[derive(Clone, Debug)]
pub struct ReactorEventDetails {
    /// The logical core the reactor runs on.
    pub lcore: u64,
    /// The reactor's state.
    pub state: String,
}

/// State change event specific data.
#[derive(Clone, Debug)]
pub struct StateChangeEventDetails {
    /// The state before the change.
    pub previous: String,
    /// The state after the change.
    pub next: String,
}

/// Error details for an event.
#[derive(Clone, Debug)]
pub struct ErrorDetails {
    /// The error.
    pub error: String,
}

/// Subsystem pause details for an event.
#[derive(Clone, Debug)]
pub struct SubsystemPauseDetails {
    /// The nexus pause state.
    pub nexus_pause_state: String,
}

/// Snapshot event specific data.
#[derive(Clone, Debug)]
pub struct SnapshotEventDetails {
    /// The replica the snapshot was taken of.
    pub replica_id: String,
    /// When the snapshot was created.
    pub create_time: String,
    /// The volume the snapshot belongs to.
    pub volume_id: String,
}

/// Clone event specific data.
#[derive(Clone, Debug)]
pub struct CloneEventDetails {
    /// The snapshot the clone was made from.
    pub source_uuid: String,
    /// When the clone was created.
    pub create_time: String,
}

/// Event specific details, at most a few of which are set on any one event.
#[derive(Clone, Debug)]
pub struct EventDetails {
    /// Rebuild details, for rebuild events.
    pub rebuild_details: Option<RebuildEventDetails>,
    /// Replica details, for replica events.
    pub replica_details: Option<ReplicaEventDetails>,
    /// Switch-over details, for high-availability events.
    pub switch_over_details: Option<SwitchOverEventDetails>,
    /// Nexus child details.
    pub nexus_child_details: Option<NexusChildEventDetails>,
    /// Nvme path details.
    pub nvme_path_details: Option<NvmePathEventDetails>,
    /// Host initiator details.
    pub host_initiator_details: Option<HostInitiatorEventDetails>,
    /// How long the event's action took.
    pub action_duration_details: Option<EventActionDuration>,
    /// Reactor details.
    pub reactor_details: Option<ReactorEventDetails>,
    /// State change details.
    pub state_change_details: Option<StateChangeEventDetails>,
    /// Error details.
    pub error_details: Option<ErrorDetails>,
    /// Subsystem pause details.
    pub subsystem_pause_details: Option<SubsystemPauseDetails>,
    /// Snapshot details.
    pub snapshot_details: Option<SnapshotEventDetails>,
    /// Clone details.
    pub clone_details: Option<CloneEventDetails>,
}

/// Details holding nothing.
pub open spec fn spec_empty_details() -> EventDetails {
    EventDetails {
        rebuild_details: None,
        replica_details: None,
        switch_over_details: None,
        nexus_child_details: None,
        nvme_path_details: None,
        host_initiator_details: None,
        action_duration_details: None,
        reactor_details: None,
        state_change_details: None,
        error_details: None,
        subsystem_pause_details: None,
        snapshot_details: None,
        clone_details: None,
    }
}

impl Default for EventDetails {
    /// Details holding nothing.
    fn default() -> (d: Self)
        ensures
            d == spec_empty_details(),
    {
        EventDetails {
            rebuild_details: None,
            replica_details: None,
            switch_over_details: None,
            nexus_child_details: None,
            nvme_path_details: None,
            host_initiator_details: None,
            action_duration_details: None,
            reactor_details: None,
            state_change_details: None,
            error_details: None,
            subsystem_pause_details: None,
            snapshot_details: None,
            clone_details: None,
        }
    }
}

/// Event source.
#[derive(Clone, Debug)]
pub struct EventSource {
    /// The component that emitted the event.
    pub component: Component,
    /// Node name.
    pub node: String,
    /// Event specific details.
    pub event_details: Option<EventDetails>,
}

/// Event metadata.
#[derive(Clone, Debug)]
pub struct EventMeta {
    /// Something that uniquely identifies events: a UUIDv4 / GUID.
    pub id: String,
    /// The source that emitted the event.
    pub source: Option<EventSource>,
    /// Event timestamp.
    pub timestamp: Option<Timestamp>,
    /// Version of the event message.
    pub version: Version,
}

impl EventMeta {
    /// New event metadata with default values: a fresh unique id, the
    /// current time, and the current version.
    fn new() -> (meta: Self)
        ensures
            meta.id@.len() == 36,
            meta.timestamp is Some,
            meta.version == Version::V1,
    {
        EventMeta {
            id: new_event_id(),
            source: None,
            timestamp: Some(now_timestamp()),
            version: Version::V1,
        }
    }

    /// Event metadata with the given source: a fresh unique id, the current
    /// time, the current version, and exactly that source.
    pub fn from_source(source: EventSource) -> (meta: Self)
        ensures
            meta.id@.len() > 0,
            meta.id@.len() == 36,
            meta.source == Some(source),
            meta.timestamp is Some,
            meta.version == Version::V1,
    {
        let mut meta = Self::new();
        meta.source = Some(source);
        meta
    }
}

impl EventSource {
    /// New event source for the given component identity, with no details.
    pub fn new(component: Component, node: String) -> (source: Self)
        ensures
            source.component == component,
            source.node == node,
            source.event_details is None,
    {
        EventSource { component, node, event_details: None }
    }

    /// Add rebuild event specific data to event source.
    pub fn with_rebuild_data(
        self,
        status: RebuildStatus,
        source: &str,
        destination: &str,
        error: Option<String>,
    ) -> (r: Self)
        ensures
            r.component == self.component,
            r.node == self.node,
            r.event_details matches Some(d) && (d == (EventDetails {
                rebuild_details: d.rebuild_details,
                ..spec_empty_details()
            })) && d.rebuild_details is Some && d.rebuild_details->0.rebuild_status == status
                && d.rebuild_details->0.source_replica@ == source@ && d.rebuild_details->0.destination_replica@ == destination@
                && d.rebuild_details->0.error == error,
    {
        EventSource {
            event_details: Some(
                EventDetails {
                    rebuild_details: Some(
                        RebuildEventDetails {
                            rebuild_status: status,
                            source_replica: source.to_owned(),
                            destination_replica: destination.to_owned(),
                            error,
                        },
                    ),
                    ..Default::default()
                },
            ),
            ..self
        }
    }

    /// Add replica event specific data to event source.
    pub fn with_replica_data(self, pool_name: &str, pool_uuid: &str, replica_name: &str) -> (r:
        Self)
        ensures
            r.component == self.component,
            r.node == self.node,
            r.event_details matches Some(d) && (d == (EventDetails {
                replica_details: d.replica_details,
                ..spec_empty_details()
            })) && d.replica_details is Some && d.replica_details->0.pool_name@ == pool_name@
                && d.replica_details->0.pool_uuid@ == pool_uuid@ && d.replica_details->0.replica_name@ == replica_name@,
    {
        EventSource {
            event_details: Some(
                EventDetails {
                    replica_details: Some(
                        ReplicaEventDetails {
                            pool_name: pool_name.to_owned(),
                            pool_uuid: pool_uuid.to_owned(),
                            replica_name: replica_name.to_owned(),
                        },
                    ),
                    ..Default::default()
                },
            ),
            ..self
        }
    }

    /// Add high-availability switch-over event specific data to event source.
    pub fn with_switch_over_data(
        self,
        status: SwitchOverStatus,
        start_time: Timestamp,
        existing_nqn: &str,
        new_path: Option<String>,
        retry_count: u64,
    ) -> (r: Self)
        ensures
            r.component == self.component,
            r.node == self.node,
            r.event_details matches Some(d) && (d == (EventDetails {
                switch_over_details: d.switch_over_details,
                ..spec_empty_details()
            })) && d.switch_over_details is Some && d.switch_over_details->0.switch_over_status == status
                && d.switch_over_details->0.start_time == Some(start_time) && d.switch_over_details->0.existing_nqn@ == existing_nqn@
                && d.switch_over_details->0.new_path == new_path && d.switch_over_details->0.retry_count == retry_count,
    {
        EventSource {
            event_details: Some(
                EventDetails {
                    switch_over_details: Some(
                        SwitchOverEventDetails {
                            switch_over_status: status,
                            start_time: Some(start_time),
                            existing_nqn: existing_nqn.to_owned(),
                            new_path,
                            retry_count,
                        },
                    ),
                    ..Default::default()
                },
            ),
            ..self
        }
    }

    /// Add nexus child event specific data to event source.
    pub fn with_nexus_child_data(self, uri: &str) -> (r: Self)
        ensures
            r.component == self.component,
            r.node == self.node,
            r.event_details matches Some(d) && (d == (EventDetails {
                nexus_child_details: d.nexus_child_details,
                ..spec_empty_details()
            })) && d.nexus_child_details is Some && d.nexus_child_details->0.uri@ == uri@,
    {
        EventSource {
            event_details: Some(
                EventDetails {
                    nexus_child_details: Some(NexusChildEventDetails { uri: uri.to_owned() }),
                    ..Default::default()
                },
            ),
            ..self
        }
    }

    /// Add nvme path event specific data to event source.
    pub fn with_nvme_path_data(self, nqn: &str, path: &str) -> (r: Self)
        ensures
            r.component == self.component,
            r.node == self.node,
            r.event_details matches Some(d) && (d == (EventDetails {
                nvme_path_details: d.nvme_path_details,
                ..spec_empty_details()
            })) && d.nvme_path_details is Some && d.nvme_path_details->0.nqn@ == nqn@ && d.nvme_path_details->0.path@ == path@,
    {
        EventSource {
            event_details: Some(
                EventDetails {
                    nvme_path_details: Some(
                        NvmePathEventDetails { nqn: nqn.to_owned(), path: path.to_owned() },
                    ),
                    ..Default::default()
                },
            ),
            ..self
        }
    }

    /// Add subsystem event specific data to host event source.
    pub fn with_subsystem_data(self, subsystem_nqn: &str) -> (r: Self)
        ensures
            r.component == self.component,
            r.node == self.node,
            r.event_details matches Some(d) && (d == (EventDetails {
                host_initiator_details: d.host_initiator_details,
                ..spec_empty_details()
            })) && d.host_initiator_details is Some && d.host_initiator_details->0.subsystem_nqn@ == subsystem_nqn@
                && d.host_initiator_details->0.target@.len() == 0 && d.host_initiator_details->0.uuid@.len() == 0 && d.host_initiator_details->0.host_nqn@.len() == 0,
    {
        EventSource {
            event_details: Some(
                EventDetails {
                    host_initiator_details: Some(
                        HostInitiatorEventDetails {
                            subsystem_nqn: subsystem_nqn.to_owned(),
                            target: String::new(),
                            uuid: String::new(),
                            host_nqn: String::new(),
                        },
                    ),
                    ..Default::default()
                },
            ),
            ..self
        }
    }

    /// Add target (nexus/replica) details to host event meta data, where
    /// host initiator details are already present.
    pub fn with_target_data(self, target: &str, uuid: &str) -> (r: Self)
        ensures
            r.component == self.component,
            r.node == self.node,
            (match self.event_details {
                None => r.event_details is None,
                Some(d) => (match d.host_initiator_details {
                    None => r.event_details == Some(d),
                    Some(h) => r.event_details matches Some(d2) && (d2 == (EventDetails {
                        host_initiator_details: d2.host_initiator_details,
                        ..d
                    })) && d2.host_initiator_details is Some && d2.host_initiator_details->0.target@ == target@
                        && d2.host_initiator_details->0.uuid@ == uuid@ && d2.host_initiator_details->0.subsystem_nqn == h.subsystem_nqn && d2.host_initiator_details->0.host_nqn
                        == h.host_nqn,
                }),
            }),
    {
        let mut this = self;
        match this.event_details {
            Some(mut event_details) => {
                match event_details.host_initiator_details {
                    Some(mut host_initiator_details) => {
                        host_initiator_details.target = target.to_owned();
                        host_initiator_details.uuid = uuid.to_owned();
                        event_details.host_initiator_details = Some(host_initiator_details);
                    },
                    None => {},
                }
                this.event_details = Some(event_details);
            },
            None => {},
        }
        this
    }

    /// Add host event specific data to event source, where host initiator
    /// details are already present.
    pub fn with_host_initiator_data(self, host_nqn: &str) -> (r: Self)
        ensures
            r.component == self.component,
            r.node == self.node,
            (match self.event_details {
                None => r.event_details is None,
                Some(d) => (match d.host_initiator_details {
                    None => r.event_details == Some(d),
                    Some(h) => r.event_details matches Some(d2) && (d2 == (EventDetails {
                        host_initiator_details: d2.host_initiator_details,
                        ..d
                    })) && d2.host_initiator_details is Some && d2.host_initiator_details->0.host_nqn@ == host_nqn@
                        && d2.host_initiator_details->0.subsystem_nqn == h.subsystem_nqn && d2.host_initiator_details->0.target == h.target && d2.host_initiator_details->0.uuid
                        == h.uuid,
                }),
            }),
    {
        let mut this = self;
        match this.event_details {
            Some(mut event_details) => {
                match event_details.host_initiator_details {
                    Some(mut host_initiator_details) => {
                        host_initiator_details.host_nqn = host_nqn.to_owned();
                        event_details.host_initiator_details = Some(host_initiator_details);
                    },
                    None => {},
                }
                this.event_details = Some(event_details);
            },
            None => {},
        }
        this
    }

    /// Add event action duration details to event source, keeping whatever
    /// details are already present.
    pub fn with_event_action_duration_details(self, time_taken: Duration) -> (r: Self)
        ensures
            r.component == self.component,
            r.node == self.node,
            r.event_details matches Some(d) && (d == (EventDetails {
                action_duration_details: d.action_duration_details,
                ..(match self.event_details {
                    Some(existing) => existing,
                    None => spec_empty_details(),
                })
            })) && d.action_duration_details is Some && d.action_duration_details->0.time_taken == Some(time_taken),
    {
        let existing = match self.event_details {
            Some(existing) => existing,
            None => Default::default(),
        };
        EventSource {
            event_details: Some(
                EventDetails {
                    action_duration_details: Some(
                        EventActionDuration { time_taken: Some(time_taken) },
                    ),
                    ..existing
                },
            ),
            ..self
        }
    }

    /// Add reactor event specific data to io-engine event source.
    pub fn with_reactor_details(self, lcore: u64, state: &str) -> (r: Self)
        ensures
            r.component == self.component,
            r.node == self.node,
            r.event_details matches Some(d) && (d == (EventDetails {
                reactor_details: d.reactor_details,
                ..spec_empty_details()
            })) && d.reactor_details is Some && d.reactor_details->0.lcore == lcore && d.reactor_details->0.state@ == state@,
    {
        EventSource {
            event_details: Some(
                EventDetails {
                    reactor_details: Some(
                        ReactorEventDetails { lcore, state: state.to_owned() },
                    ),
                    ..Default::default()
                },
            ),
            ..self
        }
    }

    /// Add state change event specific data to event source.
    pub fn with_state_change_data(self, previous: String, next: String) -> (r: Self)
        ensures
            r.component == self.component,
            r.node == self.node,
            r.event_details matches Some(d) && (d == (EventDetails {
                state_change_details: d.state_change_details,
                ..spec_empty_details()
            })) && d.state_change_details is Some && d.state_change_details->0.previous == previous && d.state_change_details->0.next
                == next,
    {
        EventSource {
            event_details: Some(
                EventDetails {
                    state_change_details: Some(StateChangeEventDetails { previous, next }),
                    ..Default::default()
                },
            ),
            ..self
        }
    }

    /// Add error details to event source, keeping whatever details are
    /// already present.
    pub fn with_error_details(self, error: String) -> (r: Self)
        ensures
            r.component == self.component,
            r.node == self.node,
            r.event_details matches Some(d) && (d == (EventDetails {
                error_details: d.error_details,
                ..(match self.event_details {
                    Some(existing) => existing,
                    None => spec_empty_details(),
                })
            })) && d.error_details is Some && d.error_details->0.error == error,
    {
        let existing = match self.event_details {
            Some(existing) => existing,
            None => Default::default(),
        };
        EventSource {
            event_details: Some(
                EventDetails { error_details: Some(ErrorDetails { error }), ..existing },
            ),
            ..self
        }
    }

    /// Add subsystem pause details to event source.
    pub fn with_subsystem_pause_details(self, nexus_pause_state: String) -> (r: Self)
        ensures
            r.component == self.component,
            r.node == self.node,
            r.event_details matches Some(d) && (d == (EventDetails {
                subsystem_pause_details: d.subsystem_pause_details,
                ..spec_empty_details()
            })) && d.subsystem_pause_details is Some && d.subsystem_pause_details->0.nexus_pause_state
                == nexus_pause_state,
    {
        EventSource {
            event_details: Some(
                EventDetails {
                    subsystem_pause_details: Some(SubsystemPauseDetails { nexus_pause_state }),
                    ..Default::default()
                },
            ),
            ..self
        }
    }

    /// Add snapshot event specific data to event source.
    pub fn with_snapshot_data(self, replica_id: String, create_time: String, volume_id: String)
        -> (r: Self)
        ensures
            r.component == self.component,
            r.node == self.node,
            r.event_details matches Some(d) && (d == (EventDetails {
                snapshot_details: d.snapshot_details,
                ..spec_empty_details()
            })) && d.snapshot_details is Some && d.snapshot_details->0.replica_id == replica_id
                && d.snapshot_details->0.create_time == create_time && d.snapshot_details->0.volume_id == volume_id,
    {
        EventSource {
            event_details: Some(
                EventDetails {
                    snapshot_details: Some(
                        SnapshotEventDetails { replica_id, create_time, volume_id },
                    ),
                    ..Default::default()
                },
            ),
            ..self
        }
    }

    /// Add clone event specific data to event source.
    pub fn with_clone_data(self, source_uuid: String, create_time: String) -> (r: Self)
        ensures
            r.component == self.component,
            r.node == self.node,
            r.event_details matches Some(d) && (d == (EventDetails {
                clone_details: d.clone_details,
                ..spec_empty_details()
            })) && d.clone_details is Some && d.clone_details->0.source_uuid == source_uuid
                && d.clone_details->0.create_time == create_time,
    {
        EventSource {
            event_details: Some(
                EventDetails {
                    clone_details: Some(CloneEventDetails { source_uuid, create_time }),
                    ..Default::default()
                },
            ),
            ..self
        }
    }
}

} // verus!
