//! Entity metadata against the wire: reading queue, topic and
//! subscription properties out of an entry's content XML, merging a
//! caller's partial update against the existing entity, and rendering
//! the Atom entry bodies for create and update requests.
//!
//! On update, the fields the service treats as immutable after creation
//! (partitioning, session requirement, duplicate-detection requirement)
//! are omitted from the request body entirely, and the read-only runtime
//! counters are never written.

use vstd::prelude::*;
use crate::duration::{duration_spec, parse_duration_spec, parse_duration_to_seconds,
    seconds_to_duration};
use crate::strutil::{all_digits, dec_spec, dec_val, parse_u64, str_eq};
use crate::types::{QueueProperties, SubscriptionProperties, TopicProperties};
use crate::xmlfeed::{extract_tag_value, tag_value_spec};

verus! {

// ---------------------------------------------------------------------------
// Reading scalar fields out of content XML
// ---------------------------------------------------------------------------

/// The tag's value as an unsigned number, when present, all digits, and
/// in range.
pub open spec fn spec_u64_field(c: Seq<char>, name: Seq<char>) -> Option<u64> {
    match tag_value_spec(c, name) {
        Some(v) => if v.len() > 0 && all_digits(v) && dec_val(v) <= u64::MAX {
            Some(dec_val(v) as u64)
        } else {
            None
        },
        None => None,
    }
}

/// As `spec_u64_field`, further restricted to the `u32` range.
pub open spec fn spec_u32_field(c: Seq<char>, name: Seq<char>) -> Option<u32> {
    match tag_value_spec(c, name) {
        Some(v) => if v.len() > 0 && all_digits(v) && dec_val(v) <= u32::MAX {
            Some(dec_val(v) as u32)
        } else {
            None
        },
        None => None,
    }
}

/// The tag's value read as exactly `true` or `false`.
pub open spec fn spec_bool_field(c: Seq<char>, name: Seq<char>) -> Option<bool> {
    match tag_value_spec(c, name) {
        Some(v) => if v == "true"@ {
            Some(true)
        } else if v == "false"@ {
            Some(false)
        } else {
            None
        },
        None => None,
    }
}

/// The tag's value read as an ISO-8601 duration, in whole seconds.
pub open spec fn spec_duration_field(c: Seq<char>, name: Seq<char>) -> Option<u64> {
    match tag_value_spec(c, name) {
        Some(v) => match parse_duration_spec(v) {
            Some(x) => if 0 <= x <= u64::MAX {
                Some(x as u64)
            } else {
                None
            },
            None => None,
        },
        None => None,
    }
}

fn u64_field(c: &str, name: &str) -> (r: Option<u64>)
    ensures
        r == spec_u64_field(c@, name@),
{
    match extract_tag_value(c, name) {
        Some(v) => parse_u64(v.as_str()),
        None => None,
    }
}

fn u32_field(c: &str, name: &str) -> (r: Option<u32>)
    ensures
        r == spec_u32_field(c@, name@),
{
    match extract_tag_value(c, name) {
        Some(v) => match parse_u64(v.as_str()) {
            Some(x) => if x <= (u32::MAX as u64) {
                Some(x as u32)
            } else {
                None
            },
            None => None,
        },
        None => None,
    }
}

fn bool_field(c: &str, name: &str) -> (r: Option<bool>)
    ensures
        r == spec_bool_field(c@, name@),
{
    match extract_tag_value(c, name) {
        Some(v) => {
            if str_eq(v.as_str(), "true") {
                Some(true)
            } else if str_eq(v.as_str(), "false") {
                Some(false)
            } else {
                None
            }
        }
        None => None,
    }
}

fn duration_field(c: &str, name: &str) -> (r: Option<u64>)
    ensures
        r == spec_duration_field(c@, name@),
{
    match extract_tag_value(c, name) {
        Some(v) => parse_duration_to_seconds(v.as_str()),
        None => None,
    }
}

// ---------------------------------------------------------------------------
// Entry content to properties
// ---------------------------------------------------------------------------

/// Field-by-field statement that `p` is the queue read out of an entry
/// with this title and content XML.
pub open spec fn queue_props_match(p: QueueProperties, title: Seq<char>, content: Seq<char>) -> bool {
    &&& p.name@ == title
    &&& p.max_size_in_megabytes == spec_u64_field(content, "MaxSizeInMegabytes"@)
    &&& p.lock_duration_in_seconds == spec_duration_field(content, "LockDuration"@)
    &&& p.max_delivery_count == spec_u32_field(content, "MaxDeliveryCount"@)
    &&& p.default_message_time_to_live_in_seconds == spec_duration_field(
        content,
        "DefaultMessageTimeToLive"@,
    )
    &&& p.dead_lettering_on_message_expiration == spec_bool_field(
        content,
        "DeadLetteringOnMessageExpiration"@,
    )
    &&& p.duplicate_detection_history_time_window_in_seconds == spec_duration_field(
        content,
        "DuplicateDetectionHistoryTimeWindow"@,
    )
    &&& p.enable_batched_operations == spec_bool_field(content, "EnableBatchedOperations"@)
    &&& p.enable_partitioning == spec_bool_field(content, "EnablePartitioning"@)
    &&& p.requires_session == spec_bool_field(content, "RequiresSession"@)
    &&& p.requires_duplicate_detection == spec_bool_field(content, "RequiresDuplicateDetection"@)
    &&& p.message_count == spec_u64_field(content, "MessageCount"@)
    &&& p.active_message_count == spec_u64_field(content, "ActiveMessageCount"@)
    &&& p.dead_letter_message_count == spec_u64_field(content, "DeadLetterMessageCount"@)
    &&& p.scheduled_message_count == spec_u64_field(content, "ScheduledMessageCount"@)
    &&& p.transfer_message_count == spec_u64_field(content, "TransferMessageCount"@)
    &&& p.transfer_dead_letter_message_count == spec_u64_field(
        content,
        "TransferDeadLetterMessageCount"@,
    )
    &&& p.size_in_bytes == spec_u64_field(content, "SizeInBytes"@)
}

/// Queue properties read out of one entry: the entry title is the queue
/// name; every other field is read from its tag in the content XML, with
/// durations converted to seconds.
pub fn queue_entry_to_properties(title: &str, content: &str) -> (r: QueueProperties)
    ensures
        queue_props_match(r, title@, content@),
{
    QueueProperties {
        name: title.to_owned(),
        max_size_in_megabytes: u64_field(content, "MaxSizeInMegabytes"),
        lock_duration_in_seconds: duration_field(content, "LockDuration"),
        max_delivery_count: u32_field(content, "MaxDeliveryCount"),
        default_message_time_to_live_in_seconds: duration_field(
            content,
            "DefaultMessageTimeToLive",
        ),
        dead_lettering_on_message_expiration: bool_field(
            content,
            "DeadLetteringOnMessageExpiration",
        ),
        duplicate_detection_history_time_window_in_seconds: duration_field(
            content,
            "DuplicateDetectionHistoryTimeWindow",
        ),
        enable_batched_operations: bool_field(content, "EnableBatchedOperations"),
        enable_partitioning: bool_field(content, "EnablePartitioning"),
        requires_session: bool_field(content, "RequiresSession"),
        requires_duplicate_detection: bool_field(content, "RequiresDuplicateDetection"),
        message_count: u64_field(content, "MessageCount"),
        active_message_count: u64_field(content, "ActiveMessageCount"),
        dead_letter_message_count: u64_field(content, "DeadLetterMessageCount"),
        scheduled_message_count: u64_field(content, "ScheduledMessageCount"),
        transfer_message_count: u64_field(content, "TransferMessageCount"),
        transfer_dead_letter_message_count: u64_field(content, "TransferDeadLetterMessageCount"),
        size_in_bytes: u64_field(content, "SizeInBytes"),
    }
}

/// Field-by-field statement that `p` is the topic read out of an entry.
pub open spec fn topic_props_match(p: TopicProperties, title: Seq<char>, content: Seq<char>) -> bool {
    &&& p.name@ == title
    &&& p.max_size_in_megabytes == spec_u64_field(content, "MaxSizeInMegabytes"@)
    &&& p.default_message_time_to_live_in_seconds == spec_duration_field(
        content,
        "DefaultMessageTimeToLive"@,
    )
    &&& p.duplicate_detection_history_time_window_in_seconds == spec_duration_field(
        content,
        "DuplicateDetectionHistoryTimeWindow"@,
    )
    &&& p.enable_batched_operations == spec_bool_field(content, "EnableBatchedOperations"@)
    &&& p.enable_partitioning == spec_bool_field(content, "EnablePartitioning"@)
    &&& p.requires_duplicate_detection == spec_bool_field(content, "RequiresDuplicateDetection"@)
    &&& p.size_in_bytes == spec_u64_field(content, "SizeInBytes"@)
    &&& p.subscription_count == spec_u64_field(content, "SubscriptionCount"@)
}

/// Topic properties read out of one entry.
pub fn topic_entry_to_properties(title: &str, content: &str) -> (r: TopicProperties)
    ensures
        topic_props_match(r, title@, content@),
{
    TopicProperties {
        name: title.to_owned(),
        max_size_in_megabytes: u64_field(content, "MaxSizeInMegabytes"),
        default_message_time_to_live_in_seconds: duration_field(
            content,
            "DefaultMessageTimeToLive",
        ),
        duplicate_detection_history_time_window_in_seconds: duration_field(
            content,
            "DuplicateDetectionHistoryTimeWindow",
        ),
        enable_batched_operations: bool_field(content, "EnableBatchedOperations"),
        enable_partitioning: bool_field(content, "EnablePartitioning"),
        requires_duplicate_detection: bool_field(content, "RequiresDuplicateDetection"),
        size_in_bytes: u64_field(content, "SizeInBytes"),
        subscription_count: u64_field(content, "SubscriptionCount"),
    }
}

/// Field-by-field statement that `p` is the subscription read out of an
/// entry under `topic`.
pub open spec fn subscription_props_match(
    p: SubscriptionProperties,
    topic: Seq<char>,
    title: Seq<char>,
    content: Seq<char>,
) -> bool {
    &&& p.topic_name@ == topic
    &&& p.subscription_name@ == title
    &&& p.max_delivery_count == spec_u32_field(content, "MaxDeliveryCount"@)
    &&& p.lock_duration_in_seconds == spec_duration_field(content, "LockDuration"@)
    &&& p.default_message_time_to_live_in_seconds == spec_duration_field(
        content,
        "DefaultMessageTimeToLive"@,
    )
    &&& p.dead_lettering_on_message_expiration == spec_bool_field(
        content,
        "DeadLetteringOnMessageExpiration"@,
    )
    &&& p.enable_batched_operations == spec_bool_field(content, "EnableBatchedOperations"@)
    &&& p.requires_session == spec_bool_field(content, "RequiresSession"@)
    &&& p.message_count == spec_u64_field(content, "MessageCount"@)
    &&& p.active_message_count == spec_u64_field(content, "ActiveMessageCount"@)
    &&& p.dead_letter_message_count == spec_u64_field(content, "DeadLetterMessageCount"@)
    &&& p.transfer_message_count == spec_u64_field(content, "TransferMessageCount"@)
    &&& p.transfer_dead_letter_message_count == spec_u64_field(
        content,
        "TransferDeadLetterMessageCount"@,
    )
}

/// Subscription properties read out of one entry, under its topic.
pub fn subscription_entry_to_properties(topic_name: &str, title: &str, content: &str) -> (r:
    SubscriptionProperties)
    ensures
        subscription_props_match(r, topic_name@, title@, content@),
{
    SubscriptionProperties {
        topic_name: topic_name.to_owned(),
        subscription_name: title.to_owned(),
        max_delivery_count: u32_field(content, "MaxDeliveryCount"),
        lock_duration_in_seconds: duration_field(content, "LockDuration"),
        default_message_time_to_live_in_seconds: duration_field(
            content,
            "DefaultMessageTimeToLive",
        ),
        dead_lettering_on_message_expiration: bool_field(
            content,
            "DeadLetteringOnMessageExpiration",
        ),
        enable_batched_operations: bool_field(content, "EnableBatchedOperations"),
        requires_session: bool_field(content, "RequiresSession"),
        message_count: u64_field(content, "MessageCount"),
        active_message_count: u64_field(content, "ActiveMessageCount"),
        dead_letter_message_count: u64_field(content, "DeadLetterMessageCount"),
        transfer_message_count: u64_field(content, "TransferMessageCount"),
        transfer_dead_letter_message_count: u64_field(content, "TransferDeadLetterMessageCount"),
    }
}

// ---------------------------------------------------------------------------
// Update merges
// ---------------------------------------------------------------------------

/// The queue properties an update request carries: each updatable field
/// takes the caller's value when present, else the existing one; the
/// immutable fields and the runtime counters are left out entirely.
pub open spec fn merge_queue_update_spec(
    existing: QueueProperties,
    update: QueueProperties,
) -> QueueProperties {
    QueueProperties {
        name: update.name,
        max_size_in_megabytes: if update.max_size_in_megabytes is Some {
            update.max_size_in_megabytes
        } else {
            existing.max_size_in_megabytes
        },
        lock_duration_in_seconds: if update.lock_duration_in_seconds is Some {
            update.lock_duration_in_seconds
        } else {
            existing.lock_duration_in_seconds
        },
        max_delivery_count: if update.max_delivery_count is Some {
            update.max_delivery_count
        } else {
            existing.max_delivery_count
        },
        default_message_time_to_live_in_seconds: if update.default_message_time_to_live_in_seconds
            is Some {
            update.default_message_time_to_live_in_seconds
        } else {
            existing.default_message_time_to_live_in_seconds
        },
        dead_lettering_on_message_expiration: if update.dead_lettering_on_message_expiration
            is Some {
            update.dead_lettering_on_message_expiration
        } else {
            existing.dead_lettering_on_message_expiration
        },
        duplicate_detection_history_time_window_in_seconds: if update
            .duplicate_detection_history_time_window_in_seconds is Some {
            update.duplicate_detection_history_time_window_in_seconds
        } else {
            existing.duplicate_detection_history_time_window_in_seconds
        },
        enable_batched_operations: if update.enable_batched_operations is Some {
            update.enable_batched_operations
        } else {
            existing.enable_batched_operations
        },
        enable_partitioning: None,
        requires_session: None,
        requires_duplicate_detection: None,
        message_count: None,
        active_message_count: None,
        dead_letter_message_count: None,
        scheduled_message_count: None,
        transfer_message_count: None,
        transfer_dead_letter_message_count: None,
        size_in_bytes: None,
    }
}

/// Build the properties for a queue update request.
pub fn merge_queue_for_update(existing: &QueueProperties, update: &QueueProperties) -> (r:
    QueueProperties)
    ensures
        r == merge_queue_update_spec(*existing, *update),
{
    QueueProperties {
        name: update.name.clone(),
        max_size_in_megabytes: match update.max_size_in_megabytes {
            Some(v) => Some(v),
            None => existing.max_size_in_megabytes,
        },
        lock_duration_in_seconds: match update.lock_duration_in_seconds {
            Some(v) => Some(v),
            None => existing.lock_duration_in_seconds,
        },
        max_delivery_count: match update.max_delivery_count {
            Some(v) => Some(v),
            None => existing.max_delivery_count,
        },
        default_message_time_to_live_in_seconds: match update
            .default_message_time_to_live_in_seconds {
            Some(v) => Some(v),
            None => existing.default_message_time_to_live_in_seconds,
        },
        dead_lettering_on_message_expiration: match update.dead_lettering_on_message_expiration {
            Some(v) => Some(v),
            None => existing.dead_lettering_on_message_expiration,
        },
        duplicate_detection_history_time_window_in_seconds: match update
            .duplicate_detection_history_time_window_in_seconds {
            Some(v) => Some(v),
            None => existing.duplicate_detection_history_time_window_in_seconds,
        },
        enable_batched_operations: match update.enable_batched_operations {
            Some(v) => Some(v),
            None => existing.enable_batched_operations,
        },
        enable_partitioning: None,
        requires_session: None,
        requires_duplicate_detection: None,
        message_count: None,
        active_message_count: None,
        dead_letter_message_count: None,
        scheduled_message_count: None,
        transfer_message_count: None,
        transfer_dead_letter_message_count: None,
        size_in_bytes: None,
    }
}

/// The topic properties an update request carries, by the same rule.
pub open spec fn merge_topic_update_spec(
    existing: TopicProperties,
    update: TopicProperties,
) -> TopicProperties {
    TopicProperties {
        name: update.name,
        max_size_in_megabytes: if update.max_size_in_megabytes is Some {
            update.max_size_in_megabytes
        } else {
            existing.max_size_in_megabytes
        },
        default_message_time_to_live_in_seconds: if update.default_message_time_to_live_in_seconds
            is Some {
            update.default_message_time_to_live_in_seconds
        } else {
            existing.default_message_time_to_live_in_seconds
        },
        duplicate_detection_history_time_window_in_seconds: if update
            .duplicate_detection_history_time_window_in_seconds is Some {
            update.duplicate_detection_history_time_window_in_seconds
        } else {
            existing.duplicate_detection_history_time_window_in_seconds
        },
        enable_batched_operations: if update.enable_batched_operations is Some {
            update.enable_batched_operations
        } else {
            existing.enable_batched_operations
        },
        enable_partitioning: None,
        requires_duplicate_detection: None,
        size_in_bytes: None,
        subscription_count: None,
    }
}

/// Build the properties for a topic update request.
pub fn merge_topic_for_update(existing: &TopicProperties, update: &TopicProperties) -> (r:
    TopicProperties)
    ensures
        r == merge_topic_update_spec(*existing, *update),
{
    TopicProperties {
        name: update.name.clone(),
        max_size_in_megabytes: match update.max_size_in_megabytes {
            Some(v) => Some(v),
            None => existing.max_size_in_megabytes,
        },
        default_message_time_to_live_in_seconds: match update
            .default_message_time_to_live_in_seconds {
            Some(v) => Some(v),
            None => existing.default_message_time_to_live_in_seconds,
        },
        duplicate_detection_history_time_window_in_seconds: match update
            .duplicate_detection_history_time_window_in_seconds {
            Some(v) => Some(v),
            None => existing.duplicate_detection_history_time_window_in_seconds,
        },
        enable_batched_operations: match update.enable_batched_operations {
            Some(v) => Some(v),
            None => existing.enable_batched_operations,
        },
        enable_partitioning: None,
        requires_duplicate_detection: None,
        size_in_bytes: None,
        subscription_count: None,
    }
}

/// However the caller fills the update, the request body's properties
/// never carry the immutable fields (partitioning, session requirement,
/// duplicate-detection requirement) nor any runtime counter: their tags
/// are omitted from the rendered XML, so no change to them can be sent.
pub proof fn lemma_update_merge_omits_immutable(existing: QueueProperties, update: QueueProperties)
    ensures
        merge_queue_update_spec(existing, update).enable_partitioning is None,
        merge_queue_update_spec(existing, update).requires_session is None,
        merge_queue_update_spec(existing, update).requires_duplicate_detection is None,
        merge_queue_update_spec(existing, update).message_count is None,
        merge_queue_update_spec(existing, update).active_message_count is None,
        merge_queue_update_spec(existing, update).dead_letter_message_count is None,
        merge_queue_update_spec(existing, update).scheduled_message_count is None,
        merge_queue_update_spec(existing, update).transfer_message_count is None,
        merge_queue_update_spec(existing, update).transfer_dead_letter_message_count is None,
        merge_queue_update_spec(existing, update).size_in_bytes is None,
        opt_bool_tag_spec("EnablePartitioning"@, merge_queue_update_spec(existing, update).enable_partitioning)
            == Seq::<char>::empty(),
        opt_bool_tag_spec("RequiresSession"@, merge_queue_update_spec(existing, update).requires_session)
            == Seq::<char>::empty(),
        opt_bool_tag_spec("RequiresDuplicateDetection"@, merge_queue_update_spec(existing, update).requires_duplicate_detection)
            == Seq::<char>::empty(),
{
}

// ---------------------------------------------------------------------------
// Rendering request bodies
// ---------------------------------------------------------------------------

/// `<Name>value</Name>` for a present value, nothing for an absent one.
pub open spec fn opt_u64_tag_spec(name: Seq<char>, v: Option<u64>) -> Seq<char> {
    match v {
        Some(x) => "<"@ + name + ">"@ + dec_spec(x as int) + "</"@ + name + ">"@,
        None => Seq::<char>::empty(),
    }
}

pub open spec fn opt_u32_tag_spec(name: Seq<char>, v: Option<u32>) -> Seq<char> {
    match v {
        Some(x) => "<"@ + name + ">"@ + dec_spec(x as int) + "</"@ + name + ">"@,
        None => Seq::<char>::empty(),
    }
}

pub open spec fn opt_bool_tag_spec(name: Seq<char>, v: Option<bool>) -> Seq<char> {
    match v {
        Some(x) => "<"@ + name + ">"@ + (if x {
            "true"@
        } else {
            "false"@
        }) + "</"@ + name + ">"@,
        None => Seq::<char>::empty(),
    }
}

/// A present duration field renders as ISO-8601.
pub open spec fn opt_duration_tag_spec(name: Seq<char>, v: Option<u64>) -> Seq<char> {
    match v {
        Some(x) => "<"@ + name + ">"@ + duration_spec(x as int) + "</"@ + name + ">"@,
        None => Seq::<char>::empty(),
    }
}

fn push_tag_open(out: &mut String, name: &str)
    ensures
        final(out)@ == old(out)@ + "<"@ + name@ + ">"@,
{
    out.append("<");
    out.append(name);
    out.append(">");
}

fn push_tag_close(out: &mut String, name: &str)
    ensures
        final(out)@ == old(out)@ + "</"@ + name@ + ">"@,
{
    out.append("</");
    out.append(name);
    out.append(">");
}

fn push_u64_tag(out: &mut String, name: &str, v: &Option<u64>)
    ensures
        final(out)@ == old(out)@ + opt_u64_tag_spec(name@, *v),
{
    match v {
        Some(x) => {
            push_tag_open(out, name);
            let d = crate::strutil::dec_of_u64(*x);
            out.append(d.as_str());
            push_tag_close(out, name);
            proof {
                assert(out@ =~= old(out)@ + opt_u64_tag_spec(name@, *v));
            }
        }
        None => {
            proof {
                assert(out@ =~= old(out)@ + opt_u64_tag_spec(name@, *v));
            }
        }
    }
}

fn push_u32_tag(out: &mut String, name: &str, v: &Option<u32>)
    ensures
        final(out)@ == old(out)@ + opt_u32_tag_spec(name@, *v),
{
    match v {
        Some(x) => {
            push_tag_open(out, name);
            let d = crate::strutil::dec_of_u64(*x as u64);
            out.append(d.as_str());
            push_tag_close(out, name);
            proof {
                assert(out@ =~= old(out)@ + opt_u32_tag_spec(name@, *v));
            }
        }
        None => {
            proof {
                assert(out@ =~= old(out)@ + opt_u32_tag_spec(name@, *v));
            }
        }
    }
}

fn push_bool_tag(out: &mut String, name: &str, v: &Option<bool>)
    ensures
        final(out)@ == old(out)@ + opt_bool_tag_spec(name@, *v),
{
    match v {
        Some(x) => {
            push_tag_open(out, name);
            if *x {
                out.append("true");
            } else {
                out.append("false");
            }
            push_tag_close(out, name);
            proof {
                assert(out@ =~= old(out)@ + opt_bool_tag_spec(name@, *v));
            }
        }
        None => {
            proof {
                assert(out@ =~= old(out)@ + opt_bool_tag_spec(name@, *v));
            }
        }
    }
}

fn push_duration_tag(out: &mut String, name: &str, v: &Option<u64>)
    ensures
        final(out)@ == old(out)@ + opt_duration_tag_spec(name@, *v),
{
    match v {
        Some(x) => {
            push_tag_open(out, name);
            let d = seconds_to_duration(*x);
            out.append(d.as_str());
            push_tag_close(out, name);
            proof {
                assert(out@ =~= old(out)@ + opt_duration_tag_spec(name@, *v));
            }
        }
        None => {
            proof {
                assert(out@ =~= old(out)@ + opt_duration_tag_spec(name@, *v));
            }
        }
    }
}

/// The description fields of a queue request body, in schema order. Only
/// present fields are emitted; runtime counters never are.
pub open spec fn queue_desc_fields_spec(p: QueueProperties) -> Seq<char> {
    opt_duration_tag_spec("LockDuration"@, p.lock_duration_in_seconds) + opt_u64_tag_spec(
        "MaxSizeInMegabytes"@,
        p.max_size_in_megabytes,
    ) + opt_bool_tag_spec("RequiresDuplicateDetection"@, p.requires_duplicate_detection)
        + opt_bool_tag_spec("RequiresSession"@, p.requires_session) + opt_duration_tag_spec(
        "DefaultMessageTimeToLive"@,
        p.default_message_time_to_live_in_seconds,
    ) + opt_bool_tag_spec(
        "DeadLetteringOnMessageExpiration"@,
        p.dead_lettering_on_message_expiration,
    ) + opt_duration_tag_spec(
        "DuplicateDetectionHistoryTimeWindow"@,
        p.duplicate_detection_history_time_window_in_seconds,
    ) + opt_u32_tag_spec("MaxDeliveryCount"@, p.max_delivery_count) + opt_bool_tag_spec(
        "EnableBatchedOperations"@,
        p.enable_batched_operations,
    ) + opt_bool_tag_spec("EnablePartitioning"@, p.enable_partitioning)
}

fn queue_desc_fields(p: &QueueProperties) -> (r: String)
    ensures
        r@ == queue_desc_fields_spec(*p),
{
    let mut out = String::new();
    push_duration_tag(&mut out, "LockDuration", &p.lock_duration_in_seconds);
    push_u64_tag(&mut out, "MaxSizeInMegabytes", &p.max_size_in_megabytes);
    push_bool_tag(&mut out, "RequiresDuplicateDetection", &p.requires_duplicate_detection);
    push_bool_tag(&mut out, "RequiresSession", &p.requires_session);
    push_duration_tag(
        &mut out,
        "DefaultMessageTimeToLive",
        &p.default_message_time_to_live_in_seconds,
    );
    push_bool_tag(
        &mut out,
        "DeadLetteringOnMessageExpiration",
        &p.dead_lettering_on_message_expiration,
    );
    push_duration_tag(
        &mut out,
        "DuplicateDetectionHistoryTimeWindow",
        &p.duplicate_detection_history_time_window_in_seconds,
    );
    push_u32_tag(&mut out, "MaxDeliveryCount", &p.max_delivery_count);
    push_bool_tag(&mut out, "EnableBatchedOperations", &p.enable_batched_operations);
    push_bool_tag(&mut out, "EnablePartitioning", &p.enable_partitioning);
    proof {
        assert(out@ =~= queue_desc_fields_spec(*p));
    }
    out
}

/// The description fields of a topic request body, in schema order.
pub open spec fn topic_desc_fields_spec(p: TopicProperties) -> Seq<char> {
    opt_duration_tag_spec("DefaultMessageTimeToLive"@, p.default_message_time_to_live_in_seconds)
        + opt_u64_tag_spec("MaxSizeInMegabytes"@, p.max_size_in_megabytes) + opt_bool_tag_spec(
        "RequiresDuplicateDetection"@,
        p.requires_duplicate_detection,
    ) + opt_duration_tag_spec(
        "DuplicateDetectionHistoryTimeWindow"@,
        p.duplicate_detection_history_time_window_in_seconds,
    ) + opt_bool_tag_spec("EnableBatchedOperations"@, p.enable_batched_operations)
        + opt_bool_tag_spec("EnablePartitioning"@, p.enable_partitioning)
}

fn topic_desc_fields(p: &TopicProperties) -> (r: String)
    ensures
        r@ == topic_desc_fields_spec(*p),
{
    let mut out = String::new();
    push_duration_tag(
        &mut out,
        "DefaultMessageTimeToLive",
        &p.default_message_time_to_live_in_seconds,
    );
    push_u64_tag(&mut out, "MaxSizeInMegabytes", &p.max_size_in_megabytes);
    push_bool_tag(&mut out, "RequiresDuplicateDetection", &p.requires_duplicate_detection);
    push_duration_tag(
        &mut out,
        "DuplicateDetectionHistoryTimeWindow",
        &p.duplicate_detection_history_time_window_in_seconds,
    );
    push_bool_tag(&mut out, "EnableBatchedOperations", &p.enable_batched_operations);
    push_bool_tag(&mut out, "EnablePartitioning", &p.enable_partitioning);
    proof {
        assert(out@ =~= topic_desc_fields_spec(*p));
    }
    out
}

/// The description fields of a subscription request body.
pub open spec fn subscription_desc_fields_spec(p: SubscriptionProperties) -> Seq<char> {
    opt_duration_tag_spec("LockDuration"@, p.lock_duration_in_seconds) + opt_bool_tag_spec(
        "RequiresSession"@,
        p.requires_session,
    ) + opt_duration_tag_spec(
        "DefaultMessageTimeToLive"@,
        p.default_message_time_to_live_in_seconds,
    ) + opt_bool_tag_spec(
        "DeadLetteringOnMessageExpiration"@,
        p.dead_lettering_on_message_expiration,
    ) + opt_u32_tag_spec("MaxDeliveryCount"@, p.max_delivery_count) + opt_bool_tag_spec(
        "EnableBatchedOperations"@,
        p.enable_batched_operations,
    )
}

fn subscription_desc_fields(p: &SubscriptionProperties) -> (r: String)
    ensures
        r@ == subscription_desc_fields_spec(*p),
{
    let mut out = String::new();
    push_duration_tag(&mut out, "LockDuration", &p.lock_duration_in_seconds);
    push_bool_tag(&mut out, "RequiresSession", &p.requires_session);
    push_duration_tag(
        &mut out,
        "DefaultMessageTimeToLive",
        &p.default_message_time_to_live_in_seconds,
    );
    push_bool_tag(
        &mut out,
        "DeadLetteringOnMessageExpiration",
        &p.dead_lettering_on_message_expiration,
    );
    push_u32_tag(&mut out, "MaxDeliveryCount", &p.max_delivery_count);
    push_bool_tag(&mut out, "EnableBatchedOperations", &p.enable_batched_operations);
    proof {
        assert(out@ =~= subscription_desc_fields_spec(*p));
    }
    out
}

/// The full Atom entry for a create or update request: XML declaration,
/// entry with the description element and its fields inside `<content>`.
pub open spec fn atom_entry_xml_spec(desc_tag: Seq<char>, fields: Seq<char>) -> Seq<char> {
    "<?xml version=\"1.0\" encoding=\"utf-8\"?><entry xmlns=\"http://www.w3.org/2005/Atom\"><content type=\"application/xml\"><"@
        + desc_tag
        + " xmlns=\"http://schemas.microsoft.com/netservices/2010/10/servicebus/connect\" xmlns:i=\"http://www.w3.org/2001/XMLSchema-instance\">"@
        + fields + "</"@ + desc_tag + "></content></entry>"@
}

fn atom_entry_xml(desc_tag: &str, fields: &str) -> (r: String)
    ensures
        r@ == atom_entry_xml_spec(desc_tag@, fields@),
{
    let mut out = String::from_str(
        "<?xml version=\"1.0\" encoding=\"utf-8\"?><entry xmlns=\"http://www.w3.org/2005/Atom\"><content type=\"application/xml\"><",
    );
    out.append(desc_tag);
    out.append(
        " xmlns=\"http://schemas.microsoft.com/netservices/2010/10/servicebus/connect\" xmlns:i=\"http://www.w3.org/2001/XMLSchema-instance\">",
    );
    out.append(fields);
    out.append("</");
    out.append(desc_tag);
    out.append("></content></entry>");
    proof {
        assert(out@ =~= atom_entry_xml_spec(desc_tag@, fields@));
    }
    out
}

/// Render a queue create/update body. Absent properties render an empty
/// description, letting the server apply its defaults.
pub fn queue_properties_to_xml(properties: Option<&QueueProperties>) -> (r: String)
    ensures
        match properties {
            Some(p) => r@ == atom_entry_xml_spec("QueueDescription"@, queue_desc_fields_spec(*p)),
            None => r@ == atom_entry_xml_spec("QueueDescription"@, Seq::<char>::empty()),
        },
{
    let fields = match properties {
        Some(p) => queue_desc_fields(p),
        None => String::new(),
    };
    atom_entry_xml("QueueDescription", fields.as_str())
}

/// Render a topic create/update body.
pub fn topic_properties_to_xml(properties: Option<&TopicProperties>) -> (r: String)
    ensures
        match properties {
            Some(p) => r@ == atom_entry_xml_spec("TopicDescription"@, topic_desc_fields_spec(*p)),
            None => r@ == atom_entry_xml_spec("TopicDescription"@, Seq::<char>::empty()),
        },
{
    let fields = match properties {
        Some(p) => topic_desc_fields(p),
        None => String::new(),
    };
    atom_entry_xml("TopicDescription", fields.as_str())
}

/// Render a subscription create body.
pub fn subscription_properties_to_xml(properties: Option<&SubscriptionProperties>) -> (r: String)
    ensures
        match properties {
            Some(p) => r@ == atom_entry_xml_spec(
                "SubscriptionDescription"@,
                subscription_desc_fields_spec(*p),
            ),
            None => r@ == atom_entry_xml_spec("SubscriptionDescription"@, Seq::<char>::empty()),
        },
{
    let fields = match properties {
        Some(p) => subscription_desc_fields(p),
        None => String::new(),
    };
    atom_entry_xml("SubscriptionDescription", fields.as_str())
}

} // verus!
