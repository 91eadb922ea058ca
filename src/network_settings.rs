//! Reading and writing the well-known network settings that live in the
//! dynamic store: the global IPv4 state (primary service, primary interface,
//! router) and the DNS settings of a service.
use crate::ipv4::{ipv4_octets, parse_ipv4};
use crate::property_list::{dictionary_lookup, PropertyList};
use vstd::prelude::*;
use vstd::string::*;

verus! {

/// The dynamic-store key of the global IPv4 state.
pub const GLOBAL_IPV4_KEY: &'static str = "State:/Network/Global/IPv4";

/// Key of the primary service's identifier in the global IPv4 state.
pub const PRIMARY_SERVICE_KEY: &'static str = "PrimaryService";

/// Key of the primary interface's name in the global IPv4 state.
pub const PRIMARY_INTERFACE_KEY: &'static str = "PrimaryInterface";

/// Key of the router address in the global IPv4 state.
pub const ROUTER_KEY: &'static str = "Router";

/// Key of the DNS server addresses in a service's DNS settings.
pub const SERVER_ADDRESSES_KEY: &'static str = "ServerAddresses";

/// Key of the DNS domain name in a service's DNS settings.
pub const DOMAIN_NAME_KEY: &'static str = "DomainName";

/// The two domains of the dynamic store: the live state, and the setup that
/// the preferences hold.
#[derive(Clone, Copy, Debug, PartialEq, Eq, Structural)]
pub enum StoreDomain {
    State,
    Setup,
}

/// The prefix of the keys in a domain.
pub open spec fn domain_prefix(domain: StoreDomain) -> Seq<char> {
    match domain {
        StoreDomain::State => "State:"@,
        StoreDomain::Setup => "Setup:"@,
    }
}

/// The dynamic-store key of the DNS settings of the service `service_id` in
/// `domain`.
pub open spec fn service_dns_key_of(domain: StoreDomain, service_id: Seq<char>) -> Seq<char> {
    domain_prefix(domain) + "/Network/Service/"@ + service_id + "/DNS"@
}

/// The dynamic-store key of the DNS settings of the service `service_id` in
/// `domain`, such as `State:/Network/Service/<id>/DNS`.
pub fn service_dns_key(domain: StoreDomain, service_id: &str) -> (r: String)
    ensures
        r@ == service_dns_key_of(domain, service_id@),
{
    let mut key = match domain {
        StoreDomain::State => String::from_str("State:"),
        StoreDomain::Setup => String::from_str("Setup:"),
    };
    key.append("/Network/Service/");
    key.append(service_id);
    key.append("/DNS");
    key
}

/// The primary service's identifier in the global IPv4 state; `None` when the
/// state is no dictionary or holds no string under the key.
pub fn primary_service(ipv4: &PropertyList) -> (r: Option<&String>)
    ensures
        r is Some <==> (dictionary_lookup(*ipv4, PRIMARY_SERVICE_KEY@) matches Some(v)
            && v is String),
        r matches Some(s) ==> dictionary_lookup(*ipv4, PRIMARY_SERVICE_KEY@) == Some(
            PropertyList::String(*s),
        ),
{
    ipv4.get_string(PRIMARY_SERVICE_KEY)
}

/// The primary interface's name in the global IPv4 state; `None` when the
/// state is no dictionary or holds no string under the key.
pub fn primary_interface(ipv4: &PropertyList) -> (r: Option<&String>)
    ensures
        r is Some <==> (dictionary_lookup(*ipv4, PRIMARY_INTERFACE_KEY@) matches Some(v)
            && v is String),
        r matches Some(s) ==> dictionary_lookup(*ipv4, PRIMARY_INTERFACE_KEY@) == Some(
            PropertyList::String(*s),
        ),
{
    ipv4.get_string(PRIMARY_INTERFACE_KEY)
}

/// The router address, as text, in the global IPv4 state.
pub fn router_text(ipv4: &PropertyList) -> (r: Option<&String>)
    ensures
        r is Some <==> (dictionary_lookup(*ipv4, ROUTER_KEY@) matches Some(v) && v is String),
        r matches Some(s) ==> dictionary_lookup(*ipv4, ROUTER_KEY@) == Some(
            PropertyList::String(*s),
        ),
{
    ipv4.get_string(ROUTER_KEY)
}

/// The router address in the global IPv4 state, as its four octets; `None`
/// when there is no string under the key or the string is no IPv4 address.
pub fn router(ipv4: &PropertyList) -> (r: Option<Vec<u8>>)
    ensures
        match dictionary_lookup(*ipv4, ROUTER_KEY@) {
            Some(PropertyList::String(s)) => match ipv4_octets(s@) {
                Some(o) => r matches Some(v) && v@ == o,
                None => r is None,
            },
            _ => r is None,
        },
{
    match router_text(ipv4) {
        Some(s) => parse_ipv4(s.as_str()),
        None => None,
    }
}

/// The DNS server addresses in a service's DNS settings: `None` unless the
/// settings are a dictionary whose value under the key is an array of strings.
pub fn dns_server_addresses(dns: &PropertyList) -> (r: Option<Vec<String>>)
    ensures
        r is Some <==> (dictionary_lookup(*dns, SERVER_ADDRESSES_KEY@) matches Some(
            PropertyList::Array(items),
        ) && crate::property_list::all_strings(items@)),
        r matches Some(v) ==> (dictionary_lookup(*dns, SERVER_ADDRESSES_KEY@) matches Some(
            PropertyList::Array(items),
        ) && v@.len() == items@.len() && forall|i: int|
            0 <= i < v@.len() ==> #[trigger] v@[i]@ == crate::property_list::string_text(
                items@[i],
            )),
{
    match dns.get(SERVER_ADDRESSES_KEY) {
        Some(v) => v.string_list(),
        None => None,
    }
}

/// The DNS domain name in a service's DNS settings.
pub fn dns_domain_name(dns: &PropertyList) -> (r: Option<&String>)
    ensures
        r is Some <==> (dictionary_lookup(*dns, DOMAIN_NAME_KEY@) matches Some(v)
            && v is String),
        r matches Some(s) ==> dictionary_lookup(*dns, DOMAIN_NAME_KEY@) == Some(
            PropertyList::String(*s),
        ),
{
    dns.get_string(DOMAIN_NAME_KEY)
}

/// DNS settings that list `addresses` as the server addresses, in order, and
/// nothing else.
pub fn dns_settings(addresses: &Vec<String>) -> (r: PropertyList)
    ensures
        r matches PropertyList::Dictionary(entries) && entries@.len() == 1 && entries@[0].0@
            == SERVER_ADDRESSES_KEY@ && (entries@[0].1 matches PropertyList::Array(items)
            && items@.len() == addresses@.len() && forall|i: int|
            0 <= i < addresses@.len() ==> #[trigger] items@[i] == PropertyList::String(
                addresses@[i],
            )),
{
    let mut entries: Vec<(String, PropertyList)> = Vec::new();
    entries.push((String::from_str(SERVER_ADDRESSES_KEY), PropertyList::from_strings(addresses)));
    PropertyList::Dictionary(entries)
}

} // verus!
