use servicebus_client::client::{
    is_success_status, queues_from_entries, subscriptions_from_entries, topics_from_entries,
    ServiceBusClient,
};
use servicebus_client::error::SbError;
use servicebus_client::types::ServiceBusConnection;
use servicebus_client::CloudDomain;

fn connection_with(cs: Option<&str>, ad: Option<bool>, ns: Option<&str>) -> ServiceBusConnection {
    ServiceBusConnection {
        id: "c1".to_string(),
        name: "test".to_string(),
        connection_string: cs.map(|s| s.to_string()),
        namespace: ns.map(|s| s.to_string()),
        use_azure_ad: ad,
        tenant_id: None,
        client_id: None,
        created_at: 0,
        updated_at: 0,
    }
}

const CS: &str = "Endpoint=sb://myns.servicebus.windows.net/;SharedAccessKeyName=kn;SharedAccessKey=secret";

#[test]
fn create_resolves_namespace_and_domain() {
    let client = ServiceBusClient::create(&connection_with(Some(CS), None, None)).unwrap();
    assert_eq!(client.namespace, "myns");
    assert_eq!(client.endpoint_domain, CloudDomain::Public);
    assert!(!client.use_azure_ad);
    assert_eq!(
        client.get_base_url(),
        "https://myns.servicebus.windows.net"
    );
}

#[test]
fn create_requires_a_connection_string() {
    match ServiceBusClient::create(&connection_with(None, Some(false), None)) {
        Err(SbError::Validation(m)) => assert!(m.contains("Connection string")),
        other => panic!("expected Validation, got {:?}", other),
    }
}

#[test]
fn create_in_ad_mode_defaults_to_public_cloud() {
    let client =
        ServiceBusClient::create(&connection_with(None, Some(true), Some("adns"))).unwrap();
    assert_eq!(client.namespace, "adns");
    assert_eq!(client.endpoint_domain, CloudDomain::Public);
    assert!(client.use_azure_ad);
}

#[test]
fn create_in_ad_mode_requires_a_namespace() {
    match ServiceBusClient::create(&connection_with(None, Some(true), None)) {
        Err(SbError::Validation(m)) => assert!(m.contains("Namespace")),
        other => panic!("expected Validation, got {:?}", other),
    }
}

#[test]
fn ad_mode_auth_is_a_typed_unimplemented_error() {
    let client =
        ServiceBusClient::create(&connection_with(None, Some(true), Some("adns"))).unwrap();
    match client.get_auth_header("https://adns.servicebus.windows.net/q1") {
        Err(SbError::Unimplemented(m)) => assert!(m.contains("not yet implemented")),
        other => panic!("expected Unimplemented, got {:?}", other),
    }
}

#[test]
fn auth_header_is_a_shared_access_signature() {
    let client = ServiceBusClient::create(&connection_with(Some(CS), None, None)).unwrap();
    let header = client
        .get_auth_header("https://myns.servicebus.windows.net/q1")
        .unwrap();
    assert!(header.starts_with("SharedAccessSignature sr="));
    assert!(header.contains("&skn=kn"));
}

#[test]
fn request_urls_have_the_documented_shapes() {
    let client = ServiceBusClient::create(&connection_with(Some(CS), None, None)).unwrap();
    let base = "https://myns.servicebus.windows.net";
    assert_eq!(
        client.list_queues_url(),
        format!("{}/$Resources/Queues?api-version=2021-05", base)
    );
    assert_eq!(
        client.list_topics_url(),
        format!("{}/$Resources/Topics?api-version=2021-05", base)
    );
    assert_eq!(client.entity_url("q1"), format!("{}/q1?api-version=2021-05", base));
    assert_eq!(
        client.list_subscriptions_url("t1"),
        format!("{}/t1/Subscriptions?api-version=2021-05", base)
    );
    assert_eq!(
        client.subscription_url("t1", "s1"),
        format!("{}/t1/Subscriptions/s1?api-version=2021-05", base)
    );
    assert_eq!(
        client.send_url("q1"),
        format!("{}/q1/messages?api-version=2021-05", base)
    );
    assert_eq!(
        client.peek_url("q1", 10, None),
        format!(
            "{}/q1/messages/head?timeout=60&api-version=2021-05&maxcount=10",
            base
        )
    );
    assert_eq!(
        client.peek_url("q1", 10, Some(42)),
        format!(
            "{}/q1/messages/head?timeout=60&api-version=2021-05&maxcount=10&from=42",
            base
        )
    );
}

#[test]
fn data_plane_connection_string_is_rebuilt_from_components() {
    let client = ServiceBusClient::create(&connection_with(Some(CS), None, None)).unwrap();
    assert_eq!(
        client.data_plane_connection_string().unwrap(),
        "Endpoint=sb://myns.servicebus.windows.net/;SharedAccessKeyName=kn;SharedAccessKey=secret"
    );
    let ad = ServiceBusClient::create(&connection_with(None, Some(true), Some("adns"))).unwrap();
    assert!(matches!(
        ad.data_plane_connection_string(),
        Err(SbError::Unimplemented(_))
    ));
}

#[test]
fn status_classification() {
    assert!(is_success_status(200));
    assert!(is_success_status(204));
    assert!(is_success_status(299));
    assert!(!is_success_status(199));
    assert!(!is_success_status(300));
    assert!(!is_success_status(404));
    assert!(!is_success_status(500));
}

#[test]
fn entry_lists_convert_in_order() {
    let entries = vec![
        (
            "q1".to_string(),
            "<QueueDescription><MaxSizeInMegabytes>1</MaxSizeInMegabytes></QueueDescription>"
                .to_string(),
        ),
        (
            "q2".to_string(),
            "<QueueDescription><MaxSizeInMegabytes>2</MaxSizeInMegabytes></QueueDescription>"
                .to_string(),
        ),
    ];
    let queues = queues_from_entries(&entries);
    assert_eq!(queues.len(), 2);
    assert_eq!(queues[0].name, "q1");
    assert_eq!(queues[0].max_size_in_megabytes, Some(1));
    assert_eq!(queues[1].name, "q2");
    assert_eq!(queues[1].max_size_in_megabytes, Some(2));

    let topics = topics_from_entries(&entries);
    assert_eq!(topics.len(), 2);
    assert_eq!(topics[1].name, "q2");

    let subs = subscriptions_from_entries("t1", &entries);
    assert_eq!(subs.len(), 2);
    assert_eq!(subs[0].topic_name, "t1");
    assert_eq!(subs[0].subscription_name, "q1");
}

#[test]
fn server_errors_carry_status_and_body() {
    let e = SbError::Server(404, "No such queue".to_string());
    let msg = e.message();
    assert!(msg.contains("404"));
    assert!(msg.contains("No such queue"));
}

#[test]
fn transport_and_parse_errors_carry_their_cause() {
    let t = SbError::Transport("connection refused".to_string());
    assert!(t.message().contains("connection refused"));
    let p = SbError::Parse("response held no entry".to_string());
    assert!(p.message().contains("response held no entry"));
}
