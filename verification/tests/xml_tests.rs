use servicebus_client::entities::{
    merge_queue_for_update, merge_topic_for_update, queue_entry_to_properties,
    queue_properties_to_xml, subscription_entry_to_properties, subscription_properties_to_xml,
    topic_entry_to_properties, topic_properties_to_xml,
};
use servicebus_client::types::{QueueProperties, SubscriptionProperties, TopicProperties};
use servicebus_client::xmlfeed::{
    extract_entries, extract_entry_bodies, extract_next_link, extract_tag_value, parse_feed_page,
};

fn queue_props(name: &str) -> QueueProperties {
    QueueProperties {
        name: name.to_string(),
        max_size_in_megabytes: None,
        lock_duration_in_seconds: None,
        max_delivery_count: None,
        default_message_time_to_live_in_seconds: None,
        dead_lettering_on_message_expiration: None,
        duplicate_detection_history_time_window_in_seconds: None,
        enable_batched_operations: None,
        enable_partitioning: None,
        requires_session: None,
        requires_duplicate_detection: None,
        message_count: None,
        active_message_count: None,
        dead_letter_message_count: None,
        scheduled_message_count: None,
        transfer_message_count: None,
        transfer_dead_letter_message_count: None,
        size_in_bytes: None,
    }
}

#[test]
fn next_link_is_extracted_and_unescaped() {
    let xml = r#"<feed><link rel="next" href="https://ns.servicebus.windows.net/$Resources/Queues?api-version=2021-05&amp;%24skip=100"/><entry><title>q</title><content>x</content></entry></feed>"#;
    let link = extract_next_link(xml).unwrap();
    assert_eq!(
        link,
        "https://ns.servicebus.windows.net/$Resources/Queues?api-version=2021-05&%24skip=100"
    );
}

#[test]
fn next_link_tolerates_whitespace_runs_and_other_links() {
    // a self link first, then a next link with varied whitespace
    let xml = "<feed><link rel=\"self\" href=\"https://here\"/>\n\
        <link   rel=\"next\"\n\t href=\"https://ns.servicebus.windows.net/page2\"/></feed>";
    assert_eq!(
        extract_next_link(xml).as_deref(),
        Some("https://ns.servicebus.windows.net/page2")
    );
}

#[test]
fn link_without_next_relation_is_no_next_link() {
    let xml = r#"<feed><link rel="self" href="https://here"/></feed>"#;
    assert_eq!(extract_next_link(xml), None);
}

#[test]
fn entries_are_extracted_with_title_and_content() {
    let xml = "<feed>\
        <entry><id>1</id><title type=\"text\">alpha</title><content type=\"application/xml\"><QueueDescription><MaxSizeInMegabytes>1024</MaxSizeInMegabytes></QueueDescription></content></entry>\
        <entry><title>beta</title><content><d2p1:ActiveMessageCount>7</d2p1:ActiveMessageCount></content></entry>\
        </feed>";
    let entries = extract_entries(xml);
    assert_eq!(entries.len(), 2);
    assert_eq!(entries[0].0, "alpha");
    assert!(entries[0].1.contains("<MaxSizeInMegabytes>1024</MaxSizeInMegabytes>"));
    assert_eq!(entries[1].0, "beta");
    // foreign-namespace-prefixed content survives extraction untouched
    assert!(entries[1].1.contains("d2p1:ActiveMessageCount"));
    let bodies = extract_entry_bodies(xml);
    assert_eq!(bodies.len(), 2);
    assert!(bodies[0].starts_with("<entry>"));
}

#[test]
fn tag_values_tolerate_namespace_prefixes() {
    let content = "<QueueDescription><MaxSizeInMegabytes>2048</MaxSizeInMegabytes>\
        <d2p1:MessageCount>5</d2p1:MessageCount><d2p1:ActiveMessageCount>3</d2p1:ActiveMessageCount></QueueDescription>";
    assert_eq!(extract_tag_value(content, "MaxSizeInMegabytes").as_deref(), Some("2048"));
    assert_eq!(extract_tag_value(content, "MessageCount").as_deref(), Some("5"));
    assert_eq!(extract_tag_value(content, "ActiveMessageCount").as_deref(), Some("3"));
    assert_eq!(extract_tag_value(content, "SizeInBytes"), None);
}

#[test]
fn self_referential_next_link_ends_pagination() {
    // a feed whose next link points back at the page it came from must
    // terminate after that single page
    let current = "https://ns.servicebus.windows.net/$Resources/Queues?api-version=2021-05";
    let xml = r#"<feed><link rel="next" href="https://ns.servicebus.windows.net/%24Resources/Queues?api-version=2021-05"/><entry><title>q1</title><content>c</content></entry></feed>"#;
    let page = parse_feed_page(current, xml);
    assert_eq!(page.entries.len(), 1);
    assert!(page.next.is_none());
}

#[test]
fn fresh_next_link_continues_pagination() {
    let current = "https://ns.servicebus.windows.net/$Resources/Queues?api-version=2021-05";
    let xml = r#"<feed><link rel="next" href="https://ns.servicebus.windows.net/%24Resources/Queues?api-version=2021-05&amp;%24skip=100"/><entry><title>q1</title><content>c</content></entry></feed>"#;
    let page = parse_feed_page(current, xml);
    assert_eq!(
        page.next.as_deref(),
        Some("https://ns.servicebus.windows.net/%24Resources/Queues?api-version=2021-05&%24skip=100")
    );
}

#[test]
fn page_without_entries_ends_pagination() {
    let current = "https://ns.servicebus.windows.net/$Resources/Queues?api-version=2021-05";
    let xml = r#"<feed><link rel="next" href="https://elsewhere/page2"/></feed>"#;
    let page = parse_feed_page(current, xml);
    assert!(page.entries.is_empty());
    assert!(page.next.is_none());
}

#[test]
fn queue_properties_are_read_from_content() {
    let content = "<QueueDescription><LockDuration>PT30S</LockDuration>\
        <MaxSizeInMegabytes>1024</MaxSizeInMegabytes>\
        <RequiresDuplicateDetection>false</RequiresDuplicateDetection>\
        <RequiresSession>true</RequiresSession>\
        <DefaultMessageTimeToLive>PT1H</DefaultMessageTimeToLive>\
        <DeadLetteringOnMessageExpiration>true</DeadLetteringOnMessageExpiration>\
        <MaxDeliveryCount>10</MaxDeliveryCount>\
        <EnablePartitioning>true</EnablePartitioning>\
        <d2p1:MessageCount>42</d2p1:MessageCount>\
        <d2p1:SizeInBytes>2048</d2p1:SizeInBytes></QueueDescription>";
    let q = queue_entry_to_properties("q1", content);
    assert_eq!(q.name, "q1");
    assert_eq!(q.lock_duration_in_seconds, Some(30));
    assert_eq!(q.max_size_in_megabytes, Some(1024));
    assert_eq!(q.requires_duplicate_detection, Some(false));
    assert_eq!(q.requires_session, Some(true));
    assert_eq!(q.default_message_time_to_live_in_seconds, Some(3600));
    assert_eq!(q.dead_lettering_on_message_expiration, Some(true));
    assert_eq!(q.max_delivery_count, Some(10));
    assert_eq!(q.enable_partitioning, Some(true));
    assert_eq!(q.message_count, Some(42));
    assert_eq!(q.size_in_bytes, Some(2048));
    assert_eq!(q.active_message_count, None);
}

#[test]
fn topic_and_subscription_properties_are_read() {
    let t = topic_entry_to_properties(
        "t1",
        "<TopicDescription><MaxSizeInMegabytes>512</MaxSizeInMegabytes><EnableBatchedOperations>true</EnableBatchedOperations></TopicDescription>",
    );
    assert_eq!(t.name, "t1");
    assert_eq!(t.max_size_in_megabytes, Some(512));
    assert_eq!(t.enable_batched_operations, Some(true));

    let s = subscription_entry_to_properties(
        "t1",
        "sub1",
        "<SubscriptionDescription><MaxDeliveryCount>7</MaxDeliveryCount><LockDuration>PT1M</LockDuration></SubscriptionDescription>",
    );
    assert_eq!(s.topic_name, "t1");
    assert_eq!(s.subscription_name, "sub1");
    assert_eq!(s.max_delivery_count, Some(7));
    assert_eq!(s.lock_duration_in_seconds, Some(60));
}

#[test]
fn create_body_emits_only_present_fields() {
    let mut p = queue_props("q1");
    p.max_size_in_megabytes = Some(1024);
    p.max_delivery_count = Some(10);
    let xml = queue_properties_to_xml(Some(&p));
    assert!(xml.contains("<MaxSizeInMegabytes>1024</MaxSizeInMegabytes>"));
    assert!(xml.contains("<MaxDeliveryCount>10</MaxDeliveryCount>"));
    assert!(!xml.contains("LockDuration"));
    assert!(xml.contains("<QueueDescription"));
    assert!(xml.contains("</QueueDescription></content></entry>"));
    // absent properties give an empty description
    let empty = queue_properties_to_xml(None);
    assert!(!empty.contains("MaxSizeInMegabytes"));
}

#[test]
fn durations_render_iso8601_in_bodies() {
    let mut p = queue_props("q1");
    p.lock_duration_in_seconds = Some(30);
    p.default_message_time_to_live_in_seconds = Some(604800);
    let xml = queue_properties_to_xml(Some(&p));
    assert!(xml.contains("<LockDuration>PT30S</LockDuration>"));
    assert!(xml.contains("<DefaultMessageTimeToLive>PT168H</DefaultMessageTimeToLive>"));
}

#[test]
fn update_body_never_carries_a_partitioning_change() {
    // existing entity is partitioned; the caller tries to flip it off
    let mut existing = queue_props("q1");
    existing.enable_partitioning = Some(true);
    existing.requires_session = Some(true);
    existing.requires_duplicate_detection = Some(true);
    existing.max_size_in_megabytes = Some(1024);
    existing.message_count = Some(42);
    let mut update = queue_props("q1");
    update.enable_partitioning = Some(false);
    update.max_delivery_count = Some(15);

    let merged = merge_queue_for_update(&existing, &update);
    let xml = queue_properties_to_xml(Some(&merged));
    // the immutable fields are omitted entirely from the update body
    assert!(!xml.contains("EnablePartitioning"));
    assert!(!xml.contains("RequiresSession"));
    assert!(!xml.contains("RequiresDuplicateDetection"));
    // runtime counters are never written
    assert!(!xml.contains("MessageCount"));
    // updatable fields: the caller's value when present, else the existing one
    assert!(xml.contains("<MaxDeliveryCount>15</MaxDeliveryCount>"));
    assert!(xml.contains("<MaxSizeInMegabytes>1024</MaxSizeInMegabytes>"));
}

#[test]
fn topic_update_body_omits_immutable_fields() {
    let existing = TopicProperties {
        name: "t1".to_string(),
        max_size_in_megabytes: Some(512),
        default_message_time_to_live_in_seconds: None,
        duplicate_detection_history_time_window_in_seconds: None,
        enable_batched_operations: None,
        enable_partitioning: Some(true),
        requires_duplicate_detection: Some(true),
        size_in_bytes: Some(9),
        subscription_count: Some(2),
    };
    let update = TopicProperties {
        name: "t1".to_string(),
        max_size_in_megabytes: None,
        default_message_time_to_live_in_seconds: Some(60),
        duplicate_detection_history_time_window_in_seconds: None,
        enable_batched_operations: None,
        enable_partitioning: Some(false),
        requires_duplicate_detection: Some(false),
        size_in_bytes: None,
        subscription_count: None,
    };
    let merged = merge_topic_for_update(&existing, &update);
    let xml = topic_properties_to_xml(Some(&merged));
    assert!(!xml.contains("EnablePartitioning"));
    assert!(!xml.contains("RequiresDuplicateDetection"));
    assert!(!xml.contains("SubscriptionCount"));
    assert!(xml.contains("<MaxSizeInMegabytes>512</MaxSizeInMegabytes>"));
    assert!(xml.contains("<DefaultMessageTimeToLive>PT1M</DefaultMessageTimeToLive>"));
}

#[test]
fn subscription_body_renders_fields() {
    let p = SubscriptionProperties {
        topic_name: "t1".to_string(),
        subscription_name: "s1".to_string(),
        max_delivery_count: Some(4),
        lock_duration_in_seconds: Some(45),
        default_message_time_to_live_in_seconds: None,
        dead_lettering_on_message_expiration: Some(false),
        enable_batched_operations: None,
        requires_session: Some(true),
        message_count: None,
        active_message_count: None,
        dead_letter_message_count: None,
        transfer_message_count: None,
        transfer_dead_letter_message_count: None,
    };
    let xml = subscription_properties_to_xml(Some(&p));
    assert!(xml.contains("<SubscriptionDescription"));
    assert!(xml.contains("<LockDuration>PT45S</LockDuration>"));
    assert!(xml.contains("<RequiresSession>true</RequiresSession>"));
    assert!(xml.contains("<MaxDeliveryCount>4</MaxDeliveryCount>"));
    assert!(xml.contains("<DeadLetteringOnMessageExpiration>false</DeadLetteringOnMessageExpiration>"));
}

#[test]
fn created_queue_reads_back_with_its_properties() {
    // create then get: the created body carries the requested values,
    // and a server echo of those values reads back identically
    let mut p = queue_props("q1");
    p.max_size_in_megabytes = Some(1024);
    p.max_delivery_count = Some(10);
    let put_body = queue_properties_to_xml(Some(&p));
    assert!(put_body.contains("<MaxSizeInMegabytes>1024</MaxSizeInMegabytes>"));
    assert!(put_body.contains("<MaxDeliveryCount>10</MaxDeliveryCount>"));

    let get_response = "<entry><title type=\"text\">q1</title><content type=\"application/xml\">\
        <QueueDescription><MaxSizeInMegabytes>1024</MaxSizeInMegabytes><MaxDeliveryCount>10</MaxDeliveryCount></QueueDescription>\
        </content></entry>";
    let entries = extract_entries(get_response);
    assert_eq!(entries.len(), 1);
    let got = queue_entry_to_properties(entries[0].0.as_str(), entries[0].1.as_str());
    assert_eq!(got.name, "q1");
    assert_eq!(got.max_size_in_megabytes, Some(1024));
    assert_eq!(got.max_delivery_count, Some(10));
}
