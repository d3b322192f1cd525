//! A verified client core for the Azure Service Bus management and data
//! planes: connection-string resolution, SAS token signing, Atom/XML feed
//! extraction, entity CRUD request planning, and the bounded message-drain
//! state machine. Network transport lives outside the library; every
//! function here is pure compute with a contract.

use vstd::prelude::*;

pub mod client;
pub mod connection;
pub mod duration;
pub mod entities;
pub mod error;
pub mod keychain;
pub mod messages;
pub mod purge;
pub mod sas;
pub mod strutil;
pub mod types;
pub mod xmlfeed;

verus! {

/// The four cloud environments whose Service Bus host suffixes are accepted.
#[derive(Clone, Copy, Debug, PartialEq, Eq, Structural)]
pub enum CloudDomain {
    Public,
    UsGov,
    China,
    Germany,
}

impl CloudDomain {
    /// The DNS suffix of this cloud, with its leading dot.
    pub fn suffix(&self) -> (r: &'static str)
        ensures
            r@ == self.suffix_spec(),
    {
        match self {
            CloudDomain::Public => ".servicebus.windows.net",
            CloudDomain::UsGov => ".servicebus.usgovcloudapi.net",
            CloudDomain::China => ".servicebus.chinacloudapi.cn",
            CloudDomain::Germany => ".servicebus.cloudapi.de",
        }
    }

    pub open spec fn suffix_spec(&self) -> Seq<char> {
        match self {
            CloudDomain::Public => ".servicebus.windows.net"@,
            CloudDomain::UsGov => ".servicebus.usgovcloudapi.net"@,
            CloudDomain::China => ".servicebus.chinacloudapi.cn"@,
            CloudDomain::Germany => ".servicebus.cloudapi.de"@,
        }
    }
}

} // verus!
