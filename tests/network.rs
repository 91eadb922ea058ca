use system_configuration::ipv4::parse_ipv4;
use system_configuration::network_configuration::{
    SCNetworkInterface, SCNetworkInterfaceType, SCNetworkService, SCNetworkSet,
};
use system_configuration::network_settings::{
    dns_domain_name, dns_server_addresses, dns_settings, primary_interface, primary_service,
    router, router_text, service_dns_key, StoreDomain, GLOBAL_IPV4_KEY,
};
use system_configuration::dynamic_store::MemoryStore;
use system_configuration::property_list::PropertyList;
use system_configuration::text::chars_equal;

const ALL_TYPES: [(&str, SCNetworkInterfaceType); 17] = [
    ("6to4", SCNetworkInterfaceType::SixToFour),
    ("Bluetooth", SCNetworkInterfaceType::Bluetooth),
    ("Bridge", SCNetworkInterfaceType::Bridge),
    ("Bond", SCNetworkInterfaceType::Bond),
    ("Ethernet", SCNetworkInterfaceType::Ethernet),
    ("FireWire", SCNetworkInterfaceType::FireWire),
    ("IEEE80211", SCNetworkInterfaceType::IEEE80211),
    ("IPSec", SCNetworkInterfaceType::IPSec),
    ("IrDA", SCNetworkInterfaceType::IrDA),
    ("L2TP", SCNetworkInterfaceType::L2TP),
    ("Modem", SCNetworkInterfaceType::Modem),
    ("PPP", SCNetworkInterfaceType::PPP),
    ("PPTP", SCNetworkInterfaceType::PPTP),
    ("Serial", SCNetworkInterfaceType::Serial),
    ("VLAN", SCNetworkInterfaceType::VLAN),
    ("WWAN", SCNetworkInterfaceType::WWAN),
    ("IPv4", SCNetworkInterfaceType::IPv4),
];

fn text(s: &str) -> PropertyList {
    PropertyList::String(s.to_string())
}

fn global_ipv4() -> PropertyList {
    PropertyList::Dictionary(vec![
        ("PrimaryService".to_string(), text("8F2C...")),
        ("Router".to_string(), text("192.168.1.1")),
    ])
}

#[test]
fn interface_types_are_recognized_by_identifier() {
    for (id, t) in ALL_TYPES {
        assert_eq!(SCNetworkInterfaceType::from_type_id(id), Some(t));
        assert_eq!(t.type_id(), id);
    }
}

#[test]
fn unrecognized_interface_types_are_none() {
    assert_eq!(SCNetworkInterfaceType::from_type_id("ethernet"), None);
    assert_eq!(SCNetworkInterfaceType::from_type_id(""), None);
    assert_eq!(SCNetworkInterfaceType::from_type_id("Ethernet "), None);
    assert_eq!(SCNetworkInterfaceType::from_type_id("Thunderbolt"), None);
}

#[test]
fn interface_records_report_their_type() {
    let wifi = SCNetworkInterface {
        interface_type_id: Some("IEEE80211".to_string()),
        bsd_name: Some("en0".to_string()),
        display_name: Some("Wi-Fi".to_string()),
    };
    assert_eq!(wifi.interface_type(), Some(SCNetworkInterfaceType::IEEE80211));
    assert_eq!(wifi.interface_type_string().map(|s| s.as_str()), Some("IEEE80211"));
    assert_eq!(wifi.bsd_name().map(|s| s.as_str()), Some("en0"));
    assert_eq!(wifi.display_name().map(|s| s.as_str()), Some("Wi-Fi"));
    let odd = SCNetworkInterface {
        interface_type_id: Some("Quantum".to_string()),
        bsd_name: None,
        display_name: None,
    };
    assert_eq!(odd.interface_type(), None);
    assert_eq!(odd.interface_type_string().map(|s| s.as_str()), Some("Quantum"));
    let bare = SCNetworkInterface { interface_type_id: None, bsd_name: None, display_name: None };
    assert_eq!(bare.interface_type(), None);

    let service = SCNetworkService { id: Some("8F2C".to_string()), enabled: true, interface: Some(wifi) };
    assert!(service.enabled());
    assert_eq!(service.id().map(|s| s.as_str()), Some("8F2C"));
    assert_eq!(service.network_interface().unwrap().bsd_name().map(|s| s.as_str()), Some("en0"));
    let set = SCNetworkSet { service_order: vec!["8F2C".to_string(), "1A2B".to_string()] };
    assert_eq!(set.service_order(), &vec!["8F2C".to_string(), "1A2B".to_string()]);
}

#[test]
fn global_ipv4_state_scenario() {
    let mut store = MemoryStore::new();
    assert!(store.set(GLOBAL_IPV4_KEY, global_ipv4()));
    let ipv4 = store.get("State:/Network/Global/IPv4").expect("global state");
    assert_eq!(primary_service(ipv4).map(|s| s.as_str()), Some("8F2C..."));
    assert_eq!(router_text(ipv4).map(|s| s.as_str()), Some("192.168.1.1"));
    assert_eq!(router(ipv4), Some(vec![192, 168, 1, 1]));
    assert_eq!(primary_interface(ipv4), None);
}

#[test]
fn router_that_is_no_address_is_none() {
    let ipv4 = PropertyList::Dictionary(vec![("Router".to_string(), text("gateway"))]);
    assert_eq!(router(&ipv4), None);
    let ipv4 = PropertyList::Dictionary(vec![("Router".to_string(), PropertyList::Number(1))]);
    assert_eq!(router(&ipv4), None);
    assert_eq!(router(&text("192.168.1.1")), None);
}

#[test]
fn ipv4_parsing_accepts_dotted_quads() {
    assert_eq!(parse_ipv4("192.168.1.1"), Some(vec![192, 168, 1, 1]));
    assert_eq!(parse_ipv4("0.0.0.0"), Some(vec![0, 0, 0, 0]));
    assert_eq!(parse_ipv4("255.255.255.255"), Some(vec![255, 255, 255, 255]));
    assert_eq!(parse_ipv4("8.8.4.4"), Some(vec![8, 8, 4, 4]));
    assert_eq!(parse_ipv4("10.200.0.99"), Some(vec![10, 200, 0, 99]));
}

#[test]
fn ipv4_parsing_rejects_everything_else() {
    for bad in [
        "", "1.2.3", "1.2.3.4.5", "256.1.1.1", "1.2.3.300", "01.2.3.4", "1.2.3.00",
        "1..2.3", ".1.2.3", "1.2.3.", "1.2.3.4 ", " 1.2.3.4", "1.2.3.a", "1000.1.1.1",
        "1,2,3,4", "::1",
    ] {
        assert_eq!(parse_ipv4(bad), None, "{}", bad);
    }
}

#[test]
fn service_dns_key_names_the_service() {
    assert_eq!(service_dns_key(StoreDomain::State, "8F2C"), "State:/Network/Service/8F2C/DNS");
    assert_eq!(service_dns_key(StoreDomain::Setup, "8F2C"), "Setup:/Network/Service/8F2C/DNS");
    assert_eq!(service_dns_key(StoreDomain::State, ""), "State:/Network/Service//DNS");
}

#[test]
fn dns_settings_round_trip() {
    let addresses = vec!["8.8.8.8".to_string(), "8.8.4.4".to_string()];
    let dns = dns_settings(&addresses);
    assert_eq!(dns_server_addresses(&dns), Some(addresses));
    assert_eq!(dns_domain_name(&dns), None);
    let named = PropertyList::Dictionary(vec![
        ("DomainName".to_string(), text("example.com")),
        ("ServerAddresses".to_string(), PropertyList::Array(vec![text("1.1.1.1"), PropertyList::Boolean(true)])),
    ]);
    assert_eq!(dns_domain_name(&named).map(|s| s.as_str()), Some("example.com"));
    assert_eq!(dns_server_addresses(&named), None);
}

#[test]
fn chars_equal_compares_whole_strings() {
    assert!(chars_equal("Bridge", "Bridge"));
    assert!(!chars_equal("Bridge", "Bridg"));
    assert!(!chars_equal("Bond", "Bone"));
    assert!(chars_equal("", ""));
    assert!(chars_equal("ü", "ü"));
}
