//! The client façade: resolve a connection descriptor once, then plan
//! every management request (URL and body) and read every response
//! (feed pages, entries, properties) as pure functions. The HTTP and
//! AMQP transports live with the caller, which hands raw response text
//! back into these functions.

use vstd::prelude::*;
use crate::connection::{
    conn_field_value, domain_of_host, normalize_endpoint_spec, parse_connection_string,
    url_host, get_endpoint_domain, get_namespace_from_endpoint, ParsedConnectionString,
};
use crate::entities::{
    queue_entry_to_properties, queue_props_match, subscription_entry_to_properties,
    subscription_props_match, topic_entry_to_properties, topic_props_match,
};
use crate::error::{ConnField, SbError};
use crate::messages::{message_entry_match, message_entry_to_message};
use crate::sas::{generate_sas_token, sign_from_now_result};
use crate::strutil::{dec_of_u64, dec_spec, trim_spec};
use crate::types::{
    QueueProperties, ServiceBusConnection, ServiceBusMessage, SubscriptionProperties,
    TopicProperties,
};
use crate::CloudDomain;

verus! {

/// Management requests authenticate with a token valid this long.
pub const TOKEN_VALIDITY_SECONDS: u64 = 3600;

/// A resolved client: the namespace and cloud domain, and, in
/// connection-string mode, the key material for signing. Azure-AD mode
/// resolves but cannot sign management requests (a typed `Unimplemented`
/// error, not a broken token).
#[derive(Debug)]
pub struct ServiceBusClient {
    pub namespace: String,
    pub endpoint_domain: CloudDomain,
    pub parsed_connection: Option<ParsedConnectionString>,
    pub use_azure_ad: bool,
}

impl ServiceBusClient {
    /// Key material is held exactly in connection-string mode.
    pub open spec fn wf(&self) -> bool {
        self.use_azure_ad == (self.parsed_connection is None)
    }

    pub open spec fn base_url_spec(&self) -> Seq<char> {
        "https://"@ + self.namespace@ + self.endpoint_domain.suffix_spec()
    }

    /// Resolve a connection descriptor into a client.
    ///
    /// Azure-AD mode needs a namespace and defaults to the public cloud
    /// domain (cross-cloud AD resolution is out of scope). Connection
    /// string mode parses the string, then derives namespace and domain
    /// from the endpoint host.
    pub fn create(connection: &ServiceBusConnection) -> (r: Result<ServiceBusClient, SbError>)
        ensures
            r matches Ok(c) ==> c.wf(),
            connection.use_azure_ad == Some(true) ==> (match connection.namespace {
                Some(ns) => r matches Ok(c) && c.namespace@ == ns@ && c.endpoint_domain
                    == CloudDomain::Public && c.use_azure_ad,
                None => r matches Err(e) && e matches SbError::Validation(m) && m@
                    == "Namespace is required for Azure AD authentication"@,
            }),
            connection.use_azure_ad != Some(true) ==> (match connection.connection_string {
                Some(cs) => {
                    &&& (r is Ok <==> (trim_spec(cs@).len() > 0 && (conn_field_value(
                        cs@,
                        "Endpoint"@,
                    ) matches Some(ep) && conn_field_value(cs@, "SharedAccessKeyName"@) is Some
                        && conn_field_value(cs@, "SharedAccessKey"@) is Some && (url_host(
                        normalize_endpoint_spec(ep),
                    ) matches Some(h) && domain_of_host(h) is Some))))
                    &&& (r matches Ok(c) ==> (!c.use_azure_ad && (c.parsed_connection matches Some(
                        p,
                    ) && conn_field_value(cs@, "Endpoint"@) == Some(p.endpoint@)
                        && conn_field_value(cs@, "SharedAccessKeyName"@) == Some(
                        p.shared_access_key_name@,
                    ) && conn_field_value(cs@, "SharedAccessKey"@) == Some(p.shared_access_key@)
                        && crate::connection::opt_str_is(
                        p.entity_path,
                        conn_field_value(cs@, "EntityPath"@),
                    ) && (url_host(normalize_endpoint_spec(p.endpoint@)) matches Some(h)
                        && domain_of_host(h) == Some(c.endpoint_domain) && c.namespace@
                        + c.endpoint_domain.suffix_spec() == h))))
                    &&& (r == Err::<ServiceBusClient, SbError>(SbError::EmptyConnectionString)
                        <==> trim_spec(cs@).len() == 0)
                    &&& (r == Err::<ServiceBusClient, SbError>(
                        SbError::MissingField(ConnField::Endpoint),
                    ) <==> trim_spec(cs@).len() > 0 && conn_field_value(cs@, "Endpoint"@)
                        is None)
                    &&& (r == Err::<ServiceBusClient, SbError>(
                        SbError::MissingField(ConnField::SharedAccessKeyName),
                    ) <==> trim_spec(cs@).len() > 0 && conn_field_value(cs@, "Endpoint"@)
                        is Some && conn_field_value(cs@, "SharedAccessKeyName"@) is None)
                    &&& (r == Err::<ServiceBusClient, SbError>(
                        SbError::MissingField(ConnField::SharedAccessKey),
                    ) <==> trim_spec(cs@).len() > 0 && conn_field_value(cs@, "Endpoint"@)
                        is Some && conn_field_value(cs@, "SharedAccessKeyName"@) is Some
                        && conn_field_value(cs@, "SharedAccessKey"@) is None)
                    &&& (trim_spec(cs@).len() > 0 ==> (conn_field_value(cs@, "Endpoint"@)
                        matches Some(ep) ==> ((conn_field_value(cs@, "SharedAccessKeyName"@)
                        is Some && conn_field_value(cs@, "SharedAccessKey"@) is Some && url_host(
                        normalize_endpoint_spec(ep),
                    ) is None) ==> (r matches Err(e) && e matches SbError::InvalidEndpoint(x)
                        && x@ == normalize_endpoint_spec(ep)))))
                    &&& (trim_spec(cs@).len() > 0 ==> (conn_field_value(cs@, "Endpoint"@)
                        matches Some(ep) ==> ((conn_field_value(cs@, "SharedAccessKeyName"@)
                        is Some && conn_field_value(cs@, "SharedAccessKey"@) is Some) ==> (
                    url_host(normalize_endpoint_spec(ep)) matches Some(h) ==> (domain_of_host(h)
                        is None ==> (r matches Err(e) && e matches SbError::UnsupportedEndpoint(
                        x,
                    ) && x@ == h))))))
                },
                None => r matches Err(e) && e matches SbError::Validation(m) && m@
                    == "Connection string is required"@,
            }),
    {
        let ad = match connection.use_azure_ad {
            Some(b) => b,
            None => false,
        };
        if ad {
            match &connection.namespace {
                Some(ns) => Ok(
                    ServiceBusClient {
                        namespace: ns.clone(),
                        endpoint_domain: CloudDomain::Public,
                        parsed_connection: None,
                        use_azure_ad: true,
                    },
                ),
                None => Err(
                    SbError::Validation(
                        String::from_str("Namespace is required for Azure AD authentication"),
                    ),
                ),
            }
        } else {
            match &connection.connection_string {
                None => Err(
                    SbError::Validation(String::from_str("Connection string is required")),
                ),
                Some(cs) => {
                    let parsed = match parse_connection_string(cs.as_str()) {
                        Ok(p) => p,
                        Err(e) => {
                            return Err(e);
                        }
                    };
                    let namespace = match get_namespace_from_endpoint(parsed.endpoint.as_str()) {
                        Ok(n) => n,
                        Err(e) => {
                            return Err(e);
                        }
                    };
                    let endpoint_domain = match get_endpoint_domain(parsed.endpoint.as_str()) {
                        Ok(d) => d,
                        Err(e) => {
                            return Err(e);
                        }
                    };
                    Ok(
                        ServiceBusClient {
                            namespace,
                            endpoint_domain,
                            parsed_connection: Some(parsed),
                            use_azure_ad: false,
                        },
                    )
                }
            }
        }
    }

    /// `https://{namespace}{domain}`.
    pub fn get_base_url(&self) -> (r: String)
        ensures
            r@ == self.base_url_spec(),
    {
        let mut r = String::from_str("https://");
        r.append(self.namespace.as_str());
        r.append(self.endpoint_domain.suffix());
        proof {
            assert(r@ =~= self.base_url_spec());
        }
        r
    }

    /// The `Authorization` header value for one request: a fresh SAS
    /// token for exactly the resource URI being hit, valid for one hour.
    /// In Azure-AD mode this is a stable `Unimplemented` error: the REST
    /// surface would need an OAuth token exchange this client does not
    /// perform.
    pub fn get_auth_header(&self, resource_uri: &str) -> (r: Result<String, SbError>)
        ensures
            self.use_azure_ad ==> (r matches Err(e) && e matches SbError::Unimplemented(m) && m@
                == "Azure AD authentication via REST API requires OAuth token - not yet implemented"@),
            !self.use_azure_ad ==> (match self.parsed_connection {
                Some(p) => exists|n: int|
                    sign_from_now_result(
                        n,
                        resource_uri@,
                        p.shared_access_key_name@,
                        p.shared_access_key@,
                        TOKEN_VALIDITY_SECONDS,
                        r,
                    ),
                None => r matches Err(e) && e matches SbError::Validation(m) && m@
                    == "Connection string not available"@,
            }),
    {
        if self.use_azure_ad {
            Err(
                SbError::Unimplemented(
                    String::from_str(
                        "Azure AD authentication via REST API requires OAuth token - not yet implemented",
                    ),
                ),
            )
        } else {
            match &self.parsed_connection {
                None => Err(
                    SbError::Validation(String::from_str("Connection string not available")),
                ),
                Some(p) => generate_sas_token(
                    resource_uri,
                    p.shared_access_key_name.as_str(),
                    p.shared_access_key.as_str(),
                    TOKEN_VALIDITY_SECONDS,
                ),
            }
        }
    }

    /// The namespace-scoped connection string the data-plane transport
    /// is opened with, rebuilt from the parsed components. Azure-AD mode
    /// holds no key material, so there is nothing to rebuild.
    pub fn data_plane_connection_string(&self) -> (r: Result<String, SbError>)
        ensures
            match self.parsed_connection {
                Some(p) => r matches Ok(t) && t@ == "Endpoint=sb://"@ + self.namespace@
                    + self.endpoint_domain.suffix_spec() + "/;SharedAccessKeyName="@
                    + p.shared_access_key_name@ + ";SharedAccessKey="@ + p.shared_access_key@,
                None => r matches Err(e) && e matches SbError::Unimplemented(_),
            },
    {
        match &self.parsed_connection {
            None => Err(
                SbError::Unimplemented(
                    String::from_str(
                        "Azure AD authentication via AMQP requires OAuth token - not yet implemented",
                    ),
                ),
            ),
            Some(p) => {
                let mut r = String::from_str("Endpoint=sb://");
                r.append(self.namespace.as_str());
                r.append(self.endpoint_domain.suffix());
                r.append("/;SharedAccessKeyName=");
                r.append(p.shared_access_key_name.as_str());
                r.append(";SharedAccessKey=");
                r.append(p.shared_access_key.as_str());
                proof {
                    assert(r@ =~= "Endpoint=sb://"@ + self.namespace@
                        + self.endpoint_domain.suffix_spec() + "/;SharedAccessKeyName="@
                        + p.shared_access_key_name@ + ";SharedAccessKey="@
                        + p.shared_access_key@);
                }
                Ok(r)
            }
        }
    }

    /// First page of the queue listing.
    pub fn list_queues_url(&self) -> (r: String)
        ensures
            r@ == self.base_url_spec() + "/$Resources/Queues?api-version=2021-05"@,
    {
        let mut r = self.get_base_url();
        r.append("/$Resources/Queues?api-version=2021-05");
        r
    }

    /// First page of the topic listing.
    pub fn list_topics_url(&self) -> (r: String)
        ensures
            r@ == self.base_url_spec() + "/$Resources/Topics?api-version=2021-05"@,
    {
        let mut r = self.get_base_url();
        r.append("/$Resources/Topics?api-version=2021-05");
        r
    }

    /// URL of one entity (queue or topic), for GET, PUT and DELETE.
    pub fn entity_url(&self, name: &str) -> (r: String)
        ensures
            r@ == self.base_url_spec() + "/"@ + name@ + "?api-version=2021-05"@,
    {
        let mut r = self.get_base_url();
        r.append("/");
        r.append(name);
        r.append("?api-version=2021-05");
        proof {
            assert(r@ =~= self.base_url_spec() + "/"@ + name@ + "?api-version=2021-05"@);
        }
        r
    }

    /// First page of a topic's subscription listing.
    pub fn list_subscriptions_url(&self, topic_name: &str) -> (r: String)
        ensures
            r@ == self.base_url_spec() + "/"@ + topic_name@
                + "/Subscriptions?api-version=2021-05"@,
    {
        let mut r = self.get_base_url();
        r.append("/");
        r.append(topic_name);
        r.append("/Subscriptions?api-version=2021-05");
        proof {
            assert(r@ =~= self.base_url_spec() + "/"@ + topic_name@
                + "/Subscriptions?api-version=2021-05"@);
        }
        r
    }

    /// URL of one subscription under its topic.
    pub fn subscription_url(&self, topic_name: &str, subscription_name: &str) -> (r: String)
        ensures
            r@ == self.base_url_spec() + "/"@ + topic_name@ + "/Subscriptions/"@
                + subscription_name@ + "?api-version=2021-05"@,
    {
        let mut r = self.get_base_url();
        r.append("/");
        r.append(topic_name);
        r.append("/Subscriptions/");
        r.append(subscription_name);
        r.append("?api-version=2021-05");
        proof {
            assert(r@ =~= self.base_url_spec() + "/"@ + topic_name@ + "/Subscriptions/"@
                + subscription_name@ + "?api-version=2021-05"@);
        }
        r
    }

    /// URL that accepts messages sent to the entity.
    pub fn send_url(&self, path: &str) -> (r: String)
        ensures
            r@ == self.base_url_spec() + "/"@ + path@ + "/messages?api-version=2021-05"@,
    {
        let mut r = self.get_base_url();
        r.append("/");
        r.append(path);
        r.append("/messages?api-version=2021-05");
        proof {
            assert(r@ =~= self.base_url_spec() + "/"@ + path@
                + "/messages?api-version=2021-05"@);
        }
        r
    }

    /// URL of one non-destructive peek request: up to `count` messages,
    /// resuming after `from_sequence` when a previous page set a cursor.
    pub fn peek_url(&self, path: &str, count: u32, from_sequence: Option<u64>) -> (r: String)
        ensures
            r@ == self.base_url_spec() + "/"@ + path@
                + "/messages/head?timeout=60&api-version=2021-05&maxcount="@ + dec_spec(
                count as int,
            ) + (match from_sequence {
                Some(s) => "&from="@ + dec_spec(s as int),
                None => Seq::<char>::empty(),
            }),
    {
        let mut r = self.get_base_url();
        r.append("/");
        r.append(path);
        r.append("/messages/head?timeout=60&api-version=2021-05&maxcount=");
        let c = dec_of_u64(count as u64);
        r.append(c.as_str());
        match from_sequence {
            Some(s) => {
                r.append("&from=");
                let d = dec_of_u64(s);
                r.append(d.as_str());
            }
            None => {}
        }
        proof {
            assert(r@ =~= self.base_url_spec() + "/"@ + path@
                + "/messages/head?timeout=60&api-version=2021-05&maxcount="@ + dec_spec(
                count as int,
            ) + (match from_sequence {
                Some(s) => "&from="@ + dec_spec(s as int),
                None => Seq::<char>::empty(),
            }));
        }
        r
    }
}

/// Whether an HTTP status reports success.
pub fn is_success_status(status: u16) -> (r: bool)
    ensures
        r == (200 <= status < 300),
{
    200 <= status && status < 300
}

/// Convert a listing page's entries into queue properties, in order.
pub fn queues_from_entries(entries: &Vec<(String, String)>) -> (r: Vec<QueueProperties>)
    ensures
        r@.len() == entries@.len(),
        forall|k: int|
            0 <= k < entries@.len() ==> queue_props_match(
                #[trigger] r@[k],
                entries@[k].0@,
                entries@[k].1@,
            ),
{
    let mut r: Vec<QueueProperties> = Vec::new();
    let mut i: usize = 0;
    while i < entries.len()
        invariant
            i <= entries@.len(),
            r@.len() == i,
            forall|k: int|
                0 <= k < i ==> queue_props_match(#[trigger] r@[k], entries@[k].0@, entries@[k].1@),
        decreases entries@.len() - i,
    {
        let props = queue_entry_to_properties(entries[i].0.as_str(), entries[i].1.as_str());
        r.push(props);
        i = i + 1;
    }
    r
}

/// Convert a listing page's entries into topic properties, in order.
pub fn topics_from_entries(entries: &Vec<(String, String)>) -> (r: Vec<TopicProperties>)
    ensures
        r@.len() == entries@.len(),
        forall|k: int|
            0 <= k < entries@.len() ==> topic_props_match(
                #[trigger] r@[k],
                entries@[k].0@,
                entries@[k].1@,
            ),
{
    let mut r: Vec<TopicProperties> = Vec::new();
    let mut i: usize = 0;
    while i < entries.len()
        invariant
            i <= entries@.len(),
            r@.len() == i,
            forall|k: int|
                0 <= k < i ==> topic_props_match(#[trigger] r@[k], entries@[k].0@, entries@[k].1@),
        decreases entries@.len() - i,
    {
        let props = topic_entry_to_properties(entries[i].0.as_str(), entries[i].1.as_str());
        r.push(props);
        i = i + 1;
    }
    r
}

/// Convert a listing page's entries into subscription properties.
pub fn subscriptions_from_entries(topic_name: &str, entries: &Vec<(String, String)>) -> (r: Vec<
    SubscriptionProperties>)
    ensures
        r@.len() == entries@.len(),
        forall|k: int|
            0 <= k < entries@.len() ==> subscription_props_match(
                #[trigger] r@[k],
                topic_name@,
                entries@[k].0@,
                entries@[k].1@,
            ),
{
    let mut r: Vec<SubscriptionProperties> = Vec::new();
    let mut i: usize = 0;
    while i < entries.len()
        invariant
            i <= entries@.len(),
            r@.len() == i,
            forall|k: int|
                0 <= k < i ==> subscription_props_match(
                    #[trigger] r@[k],
                    topic_name@,
                    entries@[k].0@,
                    entries@[k].1@,
                ),
        decreases entries@.len() - i,
    {
        let props = subscription_entry_to_properties(
            topic_name,
            entries[i].0.as_str(),
            entries[i].1.as_str(),
        );
        r.push(props);
        i = i + 1;
    }
    r
}

/// Convert a peek page's raw entry bodies into messages, in order.
pub fn messages_from_entry_bodies(bodies: &Vec<String>) -> (r: Vec<ServiceBusMessage>)
    ensures
        r@.len() == bodies@.len(),
        forall|k: int|
            0 <= k < bodies@.len() ==> message_entry_match(#[trigger] r@[k], bodies@[k]@),
{
    let mut r: Vec<ServiceBusMessage> = Vec::new();
    let mut i: usize = 0;
    while i < bodies.len()
        invariant
            i <= bodies@.len(),
            r@.len() == i,
            forall|k: int| 0 <= k < i ==> message_entry_match(#[trigger] r@[k], bodies@[k]@),
        decreases bodies@.len() - i,
    {
        let m = message_entry_to_message(bodies[i].as_str());
        r.push(m);
        i = i + 1;
    }
    r
}

} // verus!
