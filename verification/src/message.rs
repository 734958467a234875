//! The event envelope carried on the message bus, and its mathematical model.

use vstd::prelude::*;
use vstd::string::StringExecFns;
use vstd::utf8::encode_utf8;

verus! {

/// Event category.
#[derive(Clone, Copy, Debug, PartialEq, Eq, Structural)]
pub enum Category {
    Pool,
    Volume,
    Unknown,
}

/// Event action.
#[derive(Clone, Copy, Debug, PartialEq, Eq, Structural)]
pub enum Action {
    CreateEvent,
    DeleteEvent,
    Unknown,
}

impl Category {
    /// The lowercase name used in message subjects (empty for `Unknown`).
    pub open spec fn subject_name(self) -> Seq<char> {
        match self {
            Category::Pool => "pool"@,
            Category::Volume => "volume"@,
            Category::Unknown => ""@,
        }
    }

    /// The lowercase name of the category, as used in message subjects.
    pub fn to_string(&self) -> (name: String)
        ensures
            name@ == self.subject_name(),
    {
        match self {
            Category::Pool => String::from_str("pool"),
            Category::Volume => String::from_str("volume"),
            Category::Unknown => {
                proof {
                    reveal_strlit("");
                    assert(""@ =~= Seq::<char>::empty());
                }
                String::new()
            },
        }
    }
}

/// Event source.
#[derive(Clone, Debug)]
pub struct EventSource {
    /// Io-engine or core-agent.
    pub component: String,
    /// Node name.
    pub node: String,
}

/// Event metadata.
#[derive(Clone, Debug)]
pub struct EventMeta {
    /// Something that uniquely identifies events: a UUIDv4 / GUID.
    pub id: String,
    /// The source that emitted the event.
    pub source: EventSource,
    /// Event timestamp.
    pub event_timestamp: String,
    /// Version of the event message.
    pub version: String,
}

/// General structure of a message bus event.
#[derive(Clone, Debug)]
pub struct EventMessage {
    /// Event category.
    pub category: Category,
    /// Event action.
    pub action: Action,
    /// Target id for the category against which action is performed.
    pub target: String,
    /// Event meta data.
    pub metadata: EventMeta,
}

/// Mathematical view of an event message: the category and action, and each
/// text field as its sequence of UTF-8 bytes.
pub ghost struct EventModel {
    pub category: Category,
    pub action: Action,
    pub target: Seq<u8>,
    pub id: Seq<u8>,
    pub component: Seq<u8>,
    pub node: Seq<u8>,
    pub event_timestamp: Seq<u8>,
    pub version: Seq<u8>,
}

/// True if every byte of `s` is printable ASCII (0x20 inclusive to 0x80
/// exclusive).
pub open spec fn printable(s: Seq<u8>) -> bool {
    forall|i: int| 0 <= i < s.len() ==> 0x20 <= #[trigger] s[i] < 0x80
}

impl EventModel {
    /// All text fields consist of printable ASCII bytes only.
    pub open spec fn printable_ascii(self) -> bool {
        &&& printable(self.target)
        &&& printable(self.id)
        &&& printable(self.component)
        &&& printable(self.node)
        &&& printable(self.event_timestamp)
        &&& printable(self.version)
    }
}

impl View for EventMessage {
    type V = EventModel;

    open spec fn view(&self) -> EventModel {
        EventModel {
            category: self.category,
            action: self.action,
            target: encode_utf8(self.target@),
            id: encode_utf8(self.metadata.id@),
            component: encode_utf8(self.metadata.source.component@),
            node: encode_utf8(self.metadata.source.node@),
            event_timestamp: encode_utf8(self.metadata.event_timestamp@),
            version: encode_utf8(self.metadata.version@),
        }
    }
}

} // verus!
