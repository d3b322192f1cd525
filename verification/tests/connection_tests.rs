use servicebus_client::connection::{
    derive_namespace_and_domain, get_endpoint_domain, get_namespace_from_endpoint,
    normalize_endpoint, parse_connection_string,
};
use servicebus_client::error::{ConnField, SbError};
use servicebus_client::CloudDomain;

#[test]
fn parse_full_connection_string() {
    let cs = "Endpoint=sb://myns.servicebus.windows.net/;SharedAccessKeyName=RootManageSharedAccessKey;SharedAccessKey=abc123=;EntityPath=queue1";
    let p = parse_connection_string(cs).unwrap();
    assert_eq!(p.endpoint, "sb://myns.servicebus.windows.net/");
    assert_eq!(p.shared_access_key_name, "RootManageSharedAccessKey");
    assert_eq!(p.shared_access_key, "abc123=");
    assert_eq!(p.entity_path.as_deref(), Some("queue1"));
}

#[test]
fn parse_is_case_insensitive_and_trims() {
    let cs = "  endpoint = sb://x.servicebus.windows.net ; sharedaccesskeyname = kn ; SHAREDACCESSKEY = k  ";
    let p = parse_connection_string(cs).unwrap();
    assert_eq!(p.endpoint, "sb://x.servicebus.windows.net");
    assert_eq!(p.shared_access_key_name, "kn");
    assert_eq!(p.shared_access_key, "k");
    assert!(p.entity_path.is_none());
}

#[test]
fn parse_ignores_unknown_keys_and_later_duplicate_wins() {
    let cs = "Endpoint=sb://a.servicebus.windows.net;Foo=bar;SharedAccessKeyName=k1;SharedAccessKeyName=k2;SharedAccessKey=s";
    let p = parse_connection_string(cs).unwrap();
    assert_eq!(p.shared_access_key_name, "k2");
}

#[test]
fn parse_empty_connection_string_is_rejected() {
    match parse_connection_string("   ") {
        Err(SbError::EmptyConnectionString) => {}
        other => panic!("expected EmptyConnectionString, got {:?}", other),
    }
}

#[test]
fn parse_missing_key_name_names_the_field() {
    // a connection string missing SharedAccessKeyName fails naming it
    match parse_connection_string("Endpoint=sb://x;SharedAccessKey=abc") {
        Err(e @ SbError::MissingField(ConnField::SharedAccessKeyName)) => {
            assert!(e.message().contains("SharedAccessKeyName"));
        }
        other => panic!("expected MissingField(SharedAccessKeyName), got {:?}", other),
    }
}

#[test]
fn parse_missing_endpoint_names_the_field() {
    match parse_connection_string("SharedAccessKeyName=kn;SharedAccessKey=abc") {
        Err(e @ SbError::MissingField(ConnField::Endpoint)) => {
            assert!(e.message().contains("Endpoint"));
        }
        other => panic!("expected MissingField(Endpoint), got {:?}", other),
    }
}

#[test]
fn parse_missing_key_names_the_field() {
    match parse_connection_string("Endpoint=sb://x;SharedAccessKeyName=kn") {
        Err(e @ SbError::MissingField(ConnField::SharedAccessKey)) => {
            assert!(e.message().contains("SharedAccessKey"));
        }
        other => panic!("expected MissingField(SharedAccessKey), got {:?}", other),
    }
}

#[test]
fn normalize_rewrites_sb_scheme_and_strips_slashes() {
    assert_eq!(
        normalize_endpoint("sb://ns.servicebus.windows.net/"),
        "https://ns.servicebus.windows.net"
    );
    assert_eq!(
        normalize_endpoint("  https://ns.servicebus.windows.net///  "),
        "https://ns.servicebus.windows.net"
    );
    assert_eq!(
        normalize_endpoint("ns.servicebus.windows.net"),
        "https://ns.servicebus.windows.net"
    );
    assert_eq!(
        normalize_endpoint("http://ns.servicebus.windows.net"),
        "http://ns.servicebus.windows.net"
    );
}

#[test]
fn namespace_round_trips_for_all_four_clouds() {
    let hosts = [
        ("myns.servicebus.windows.net", CloudDomain::Public),
        ("gov.servicebus.usgovcloudapi.net", CloudDomain::UsGov),
        ("cn.servicebus.chinacloudapi.cn", CloudDomain::China),
        ("de.servicebus.cloudapi.de", CloudDomain::Germany),
    ];
    for (host, cloud) in hosts {
        let (ns, d) = derive_namespace_and_domain(host).unwrap();
        assert_eq!(d, cloud);
        // the namespace plus the suffix is exactly the original host
        assert_eq!(format!("{}{}", ns, d.suffix()), host);
    }
}

#[test]
fn namespace_from_endpoint_via_url_host() {
    assert_eq!(
        get_namespace_from_endpoint("sb://myns.servicebus.windows.net/").unwrap(),
        "myns"
    );
    assert_eq!(
        get_endpoint_domain("sb://myns.servicebus.windows.net/").unwrap(),
        CloudDomain::Public
    );
    assert_eq!(
        get_namespace_from_endpoint("https://gov.servicebus.usgovcloudapi.net").unwrap(),
        "gov"
    );
}

#[test]
fn unsupported_host_error_lists_all_four_suffixes() {
    match derive_namespace_and_domain("foo.example.com") {
        Err(e @ SbError::UnsupportedEndpoint(_)) => {
            let msg = e.message();
            assert!(msg.contains(".servicebus.windows.net"));
            assert!(msg.contains(".servicebus.usgovcloudapi.net"));
            assert!(msg.contains(".servicebus.chinacloudapi.cn"));
            assert!(msg.contains(".servicebus.cloudapi.de"));
            assert!(msg.contains("foo.example.com"));
        }
        other => panic!("expected UnsupportedEndpoint, got {:?}", other),
    }
}

#[test]
fn unparseable_endpoint_is_invalid() {
    match get_namespace_from_endpoint("sb://") {
        Err(SbError::InvalidEndpoint(_)) => {}
        other => panic!("expected InvalidEndpoint, got {:?}", other),
    }
}
