use mbus_events::codec::{decode_event, encode_event};
use mbus_events::message::{Action, Category, EventMessage, EventMeta, EventSource};

fn sample(category: Category, id: &str, target: &str) -> EventMessage {
    EventMessage {
        category,
        action: Action::CreateEvent,
        target: target.to_string(),
        metadata: EventMeta {
            id: id.to_string(),
            source: EventSource {
                component: "agent-core".to_string(),
                node: "node-1".to_string(),
            },
            event_timestamp: "2024-01-02T03:04:05Z".to_string(),
            version: "v1".to_string(),
        },
    }
}

#[test]
fn encoding_is_the_expected_json_text() {
    let msg = sample(Category::Pool, "p-1", "pool-target");
    let bytes = encode_event(&msg);
    let expected = "{\"category\":\"Pool\",\"action\":\"CreateEvent\",\"target\":\"pool-target\",\"metadata\":{\"id\":\"p-1\",\"source\":{\"component\":\"agent-core\",\"node\":\"node-1\"},\"event_timestamp\":\"2024-01-02T03:04:05Z\",\"version\":\"v1\"}}";
    assert_eq!(bytes, expected.as_bytes().to_vec());
}

#[test]
fn encoding_parses_as_json_with_the_right_fields() {
    let msg = sample(Category::Volume, "v-7", "some volume");
    let bytes = encode_event(&msg);
    let value: serde_json::Value = serde_json::from_slice(&bytes).unwrap();
    assert_eq!(value["category"], serde_json::Value::String("Volume".to_string()));
    assert_eq!(value["action"], serde_json::Value::String("CreateEvent".to_string()));
    assert_eq!(value["target"], serde_json::Value::String("some volume".to_string()));
    assert_eq!(value["metadata"]["id"], serde_json::Value::String("v-7".to_string()));
    assert_eq!(
        value["metadata"]["source"]["component"],
        serde_json::Value::String("agent-core".to_string())
    );
    assert_eq!(
        value["metadata"]["source"]["node"],
        serde_json::Value::String("node-1".to_string())
    );
}

#[test]
fn escaped_characters_survive_json_and_round_trip() {
    let mut msg = sample(Category::Pool, "p-2", "with \"quotes\" and \\slashes\\");
    msg.action = Action::DeleteEvent;
    let bytes = encode_event(&msg);
    let value: serde_json::Value = serde_json::from_slice(&bytes).unwrap();
    assert_eq!(
        value["target"],
        serde_json::Value::String("with \"quotes\" and \\slashes\\".to_string())
    );
    let decoded = decode_event(&bytes).unwrap();
    assert_eq!(decoded.target, "with \"quotes\" and \\slashes\\");
}

#[test]
fn decode_inverts_encode() {
    let msg = sample(Category::Unknown, "u-1", "t");
    let bytes = encode_event(&msg);
    let decoded = decode_event(&bytes).unwrap();
    assert_eq!(decoded.category, Category::Unknown);
    assert_eq!(decoded.action, Action::CreateEvent);
    assert_eq!(decoded.target, msg.target);
    assert_eq!(decoded.metadata.id, msg.metadata.id);
    assert_eq!(decoded.metadata.source.component, msg.metadata.source.component);
    assert_eq!(decoded.metadata.source.node, msg.metadata.source.node);
    assert_eq!(decoded.metadata.event_timestamp, msg.metadata.event_timestamp);
    assert_eq!(decoded.metadata.version, msg.metadata.version);
}

#[test]
fn garbage_does_not_decode() {
    assert!(decode_event(&b"not json at all".to_vec()).is_none());
    assert!(decode_event(&Vec::new()).is_none());
    assert!(decode_event(&b"{\"category\":\"Pool\"".to_vec()).is_none());
    assert!(decode_event(&vec![0u8, 159, 146, 150]).is_none());
}

#[test]
fn trailing_bytes_do_not_decode() {
    let msg = sample(Category::Pool, "p-3", "t");
    let mut bytes = encode_event(&msg);
    bytes.push(b' ');
    assert!(decode_event(&bytes).is_none());
}

#[test]
fn category_subject_names() {
    assert_eq!(Category::Pool.to_string(), "pool");
    assert_eq!(Category::Volume.to_string(), "volume");
    assert_eq!(Category::Unknown.to_string(), "");
}
