//! Plain data carried across the client's boundary: the caller's
//! connection descriptor, entity metadata for queues, topics and
//! subscriptions, and messages with their decoded bodies.

use vstd::prelude::*;

verus! {

/// A stored connection descriptor: either a connection string or an
/// Azure-AD identity (namespace, tenant and client), never both active.
#[derive(Clone, Debug)]
pub struct ServiceBusConnection {
    pub id: String,
    pub name: String,
    pub connection_string: Option<String>,
    pub namespace: Option<String>,
    pub use_azure_ad: Option<bool>,
    pub tenant_id: Option<String>,
    pub client_id: Option<String>,
    pub created_at: i64,
    pub updated_at: i64,
}

/// Queue metadata. `None` means "not specified" on writes and "not
/// reported" on reads. The counters near the end are read-only runtime
/// values that the server populates; they are never written back.
#[derive(Clone, Debug)]
pub struct QueueProperties {
    pub name: String,
    pub max_size_in_megabytes: Option<u64>,
    pub lock_duration_in_seconds: Option<u64>,
    pub max_delivery_count: Option<u32>,
    pub default_message_time_to_live_in_seconds: Option<u64>,
    pub dead_lettering_on_message_expiration: Option<bool>,
    pub duplicate_detection_history_time_window_in_seconds: Option<u64>,
    pub enable_batched_operations: Option<bool>,
    pub enable_partitioning: Option<bool>,
    pub requires_session: Option<bool>,
    pub requires_duplicate_detection: Option<bool>,
    pub message_count: Option<u64>,
    pub active_message_count: Option<u64>,
    pub dead_letter_message_count: Option<u64>,
    pub scheduled_message_count: Option<u64>,
    pub transfer_message_count: Option<u64>,
    pub transfer_dead_letter_message_count: Option<u64>,
    pub size_in_bytes: Option<u64>,
}

/// Topic metadata, mirroring the queue fields that apply to topics.
#[derive(Clone, Debug)]
pub struct TopicProperties {
    pub name: String,
    pub max_size_in_megabytes: Option<u64>,
    pub default_message_time_to_live_in_seconds: Option<u64>,
    pub duplicate_detection_history_time_window_in_seconds: Option<u64>,
    pub enable_batched_operations: Option<bool>,
    pub enable_partitioning: Option<bool>,
    pub requires_duplicate_detection: Option<bool>,
    pub size_in_bytes: Option<u64>,
    pub subscription_count: Option<u64>,
}

/// Subscription metadata, scoped under its topic.
#[derive(Clone, Debug)]
pub struct SubscriptionProperties {
    pub topic_name: String,
    pub subscription_name: String,
    pub max_delivery_count: Option<u32>,
    pub lock_duration_in_seconds: Option<u64>,
    pub default_message_time_to_live_in_seconds: Option<u64>,
    pub dead_lettering_on_message_expiration: Option<bool>,
    pub enable_batched_operations: Option<bool>,
    pub requires_session: Option<bool>,
    pub message_count: Option<u64>,
    pub active_message_count: Option<u64>,
    pub dead_letter_message_count: Option<u64>,
    pub transfer_message_count: Option<u64>,
    pub transfer_dead_letter_message_count: Option<u64>,
}

/// A message body after decoding: JSON text when the bytes parse as a
/// JSON document, plain text when they are UTF-8 but not JSON, the raw
/// bytes when they are neither, and nothing when the message had no
/// content.
#[derive(Clone, Debug)]
pub enum MessageBody {
    Json(String),
    Text(String),
    Binary(Vec<u8>),
    Empty,
}

/// A message, either built by the caller for a send or decoded from a
/// wire message on a peek. Fields the server assigns (sequence number,
/// timestamps, delivery count) are `None` on outbound messages.
#[derive(Clone, Debug)]
pub struct ServiceBusMessage {
    pub body: MessageBody,
    pub message_id: Option<String>,
    pub content_type: Option<String>,
    pub correlation_id: Option<String>,
    pub session_id: Option<String>,
    pub reply_to: Option<String>,
    pub reply_to_session_id: Option<String>,
    pub subject: Option<String>,
    pub time_to_live: Option<u64>,
    pub to: Option<String>,
    pub application_properties: Option<String>,
    pub delivery_count: Option<u32>,
    pub enqueued_time_utc: Option<String>,
    pub locked_until_utc: Option<String>,
    pub sequence_number: Option<u64>,
    pub dead_letter_reason: Option<String>,
    pub dead_letter_error_description: Option<String>,
}

impl ServiceBusMessage {
    /// A message with the given body and no optional fields set.
    pub fn with_body(body: MessageBody) -> (r: ServiceBusMessage)
        ensures
            r.body == body,
            r.message_id is None,
            r.content_type is None,
            r.correlation_id is None,
            r.session_id is None,
            r.reply_to is None,
            r.reply_to_session_id is None,
            r.subject is None,
            r.time_to_live is None,
            r.to is None,
            r.application_properties is None,
            r.delivery_count is None,
            r.enqueued_time_utc is None,
            r.locked_until_utc is None,
            r.sequence_number is None,
            r.dead_letter_reason is None,
            r.dead_letter_error_description is None,
    {
        ServiceBusMessage {
            body,
            message_id: None,
            content_type: None,
            correlation_id: None,
            session_id: None,
            reply_to: None,
            reply_to_session_id: None,
            subject: None,
            time_to_live: None,
            to: None,
            application_properties: None,
            delivery_count: None,
            enqueued_time_utc: None,
            locked_until_utc: None,
            sequence_number: None,
            dead_letter_reason: None,
            dead_letter_error_description: None,
        }
    }
}

} // verus!
