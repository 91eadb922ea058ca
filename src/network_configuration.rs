//! Network interfaces, services and sets, as the framework describes them.
//!
//! The records here hold the plain values that the framework reports for an
//! interface, a service or a set; the host side fills them in from the
//! framework's objects.
use crate::text::chars_equal;
use vstd::prelude::*;

verus! {

/// The possible network interface types.
#[derive(Clone, Copy, Debug, PartialEq, Eq, Structural, Hash)]
pub enum SCNetworkInterfaceType {
    /// A 6to4 interface.
    SixToFour,
    /// Bluetooth interface.
    Bluetooth,
    /// Bridge interface.
    Bridge,
    /// Ethernet bond interface.
    Bond,
    /// Ethernet interface.
    Ethernet,
    /// FireWire interface.
    FireWire,
    /// IEEE80211 interface.
    IEEE80211,
    /// IPSec interface.
    IPSec,
    /// IrDA interface.
    IrDA,
    /// L2TP interface.
    L2TP,
    /// Modem interface.
    Modem,
    /// PPP interface.
    PPP,
    /// PPTP interface (deprecated in favour of PPP).
    PPTP,
    /// Serial interface.
    Serial,
    /// VLAN interface.
    VLAN,
    /// WWAN interface.
    WWAN,
    /// IPv4 interface.
    IPv4,
}

/// The framework's type identifier string for each interface type.
pub open spec fn interface_type_id(t: SCNetworkInterfaceType) -> Seq<char> {
    match t {
        SCNetworkInterfaceType::SixToFour => "6to4"@,
        SCNetworkInterfaceType::Bluetooth => "Bluetooth"@,
        SCNetworkInterfaceType::Bridge => "Bridge"@,
        SCNetworkInterfaceType::Bond => "Bond"@,
        SCNetworkInterfaceType::Ethernet => "Ethernet"@,
        SCNetworkInterfaceType::FireWire => "FireWire"@,
        SCNetworkInterfaceType::IEEE80211 => "IEEE80211"@,
        SCNetworkInterfaceType::IPSec => "IPSec"@,
        SCNetworkInterfaceType::IrDA => "IrDA"@,
        SCNetworkInterfaceType::L2TP => "L2TP"@,
        SCNetworkInterfaceType::Modem => "Modem"@,
        SCNetworkInterfaceType::PPP => "PPP"@,
        SCNetworkInterfaceType::PPTP => "PPTP"@,
        SCNetworkInterfaceType::Serial => "Serial"@,
        SCNetworkInterfaceType::VLAN => "VLAN"@,
        SCNetworkInterfaceType::WWAN => "WWAN"@,
        SCNetworkInterfaceType::IPv4 => "IPv4"@,
    }
}

/// The interface type whose identifier is `id`, if any: the vocabulary is open,
/// so an identifier that names none of the known types is no error.
pub open spec fn interface_type_from_id(id: Seq<char>) -> Option<SCNetworkInterfaceType> {
    if id == "6to4"@ {
        Some(SCNetworkInterfaceType::SixToFour)
    } else if id == "Bluetooth"@ {
        Some(SCNetworkInterfaceType::Bluetooth)
    } else if id == "Bridge"@ {
        Some(SCNetworkInterfaceType::Bridge)
    } else if id == "Bond"@ {
        Some(SCNetworkInterfaceType::Bond)
    } else if id == "Ethernet"@ {
        Some(SCNetworkInterfaceType::Ethernet)
    } else if id == "FireWire"@ {
        Some(SCNetworkInterfaceType::FireWire)
    } else if id == "IEEE80211"@ {
        Some(SCNetworkInterfaceType::IEEE80211)
    } else if id == "IPSec"@ {
        Some(SCNetworkInterfaceType::IPSec)
    } else if id == "IrDA"@ {
        Some(SCNetworkInterfaceType::IrDA)
    } else if id == "L2TP"@ {
        Some(SCNetworkInterfaceType::L2TP)
    } else if id == "Modem"@ {
        Some(SCNetworkInterfaceType::Modem)
    } else if id == "PPP"@ {
        Some(SCNetworkInterfaceType::PPP)
    } else if id == "PPTP"@ {
        Some(SCNetworkInterfaceType::PPTP)
    } else if id == "Serial"@ {
        Some(SCNetworkInterfaceType::Serial)
    } else if id == "VLAN"@ {
        Some(SCNetworkInterfaceType::VLAN)
    } else if id == "WWAN"@ {
        Some(SCNetworkInterfaceType::WWAN)
    } else if id == "IPv4"@ {
        Some(SCNetworkInterfaceType::IPv4)
    } else {
        None
    }
}

impl SCNetworkInterfaceType {
    /// Matches a type identifier against the identifiers of the known interface
    /// types; `None` when none matches.
    pub fn from_type_id(type_id: &str) -> (r: Option<Self>)
        ensures
            r == interface_type_from_id(type_id@),
    {
        if chars_equal(type_id, "6to4") {
            Some(SCNetworkInterfaceType::SixToFour)
        } else if chars_equal(type_id, "Bluetooth") {
            Some(SCNetworkInterfaceType::Bluetooth)
        } else if chars_equal(type_id, "Bridge") {
            Some(SCNetworkInterfaceType::Bridge)
        } else if chars_equal(type_id, "Bond") {
            Some(SCNetworkInterfaceType::Bond)
        } else if chars_equal(type_id, "Ethernet") {
            Some(SCNetworkInterfaceType::Ethernet)
        } else if chars_equal(type_id, "FireWire") {
            Some(SCNetworkInterfaceType::FireWire)
        } else if chars_equal(type_id, "IEEE80211") {
            Some(SCNetworkInterfaceType::IEEE80211)
        } else if chars_equal(type_id, "IPSec") {
            Some(SCNetworkInterfaceType::IPSec)
        } else if chars_equal(type_id, "IrDA") {
            Some(SCNetworkInterfaceType::IrDA)
        } else if chars_equal(type_id, "L2TP") {
            Some(SCNetworkInterfaceType::L2TP)
        } else if chars_equal(type_id, "Modem") {
            Some(SCNetworkInterfaceType::Modem)
        } else if chars_equal(type_id, "PPP") {
            Some(SCNetworkInterfaceType::PPP)
        } else if chars_equal(type_id, "PPTP") {
            Some(SCNetworkInterfaceType::PPTP)
        } else if chars_equal(type_id, "Serial") {
            Some(SCNetworkInterfaceType::Serial)
        } else if chars_equal(type_id, "VLAN") {
            Some(SCNetworkInterfaceType::VLAN)
        } else if chars_equal(type_id, "WWAN") {
            Some(SCNetworkInterfaceType::WWAN)
        } else if chars_equal(type_id, "IPv4") {
            Some(SCNetworkInterfaceType::IPv4)
        } else {
            None
        }
    }

    /// The framework's identifier for this interface type.
    pub fn type_id(&self) -> (r: &'static str)
        ensures
            r@ == interface_type_id(*self),
    {
        match self {
            SCNetworkInterfaceType::SixToFour => "6to4",
            SCNetworkInterfaceType::Bluetooth => "Bluetooth",
            SCNetworkInterfaceType::Bridge => "Bridge",
            SCNetworkInterfaceType::Bond => "Bond",
            SCNetworkInterfaceType::Ethernet => "Ethernet",
            SCNetworkInterfaceType::FireWire => "FireWire",
            SCNetworkInterfaceType::IEEE80211 => "IEEE80211",
            SCNetworkInterfaceType::IPSec => "IPSec",
            SCNetworkInterfaceType::IrDA => "IrDA",
            SCNetworkInterfaceType::L2TP => "L2TP",
            SCNetworkInterfaceType::Modem => "Modem",
            SCNetworkInterfaceType::PPP => "PPP",
            SCNetworkInterfaceType::PPTP => "PPTP",
            SCNetworkInterfaceType::Serial => "Serial",
            SCNetworkInterfaceType::VLAN => "VLAN",
            SCNetworkInterfaceType::WWAN => "WWAN",
            SCNetworkInterfaceType::IPv4 => "IPv4",
        }
    }
}

/// A network interface, as the framework reports it.
pub struct SCNetworkInterface {
    /// The raw interface type identifier.
    pub interface_type_id: Option<String>,
    /// The BSD name, such as `en0`.
    pub bsd_name: Option<String>,
    /// The localized display name.
    pub display_name: Option<String>,
}

impl SCNetworkInterface {
    /// The type of the interface, when its identifier is one of the known
    /// types; `None` for a missing or unrecognized identifier.
    pub fn interface_type(&self) -> (r: Option<SCNetworkInterfaceType>)
        ensures
            r == (match self.interface_type_id {
                Some(id) => interface_type_from_id(id@),
                None => None,
            }),
    {
        match &self.interface_type_id {
            Some(id) => SCNetworkInterfaceType::from_type_id(id.as_str()),
            None => None,
        }
    }

    /// The raw interface type identifier.
    pub fn interface_type_string(&self) -> (r: Option<&String>)
        ensures
            r is Some <==> self.interface_type_id is Some,
            r matches Some(s) ==> self.interface_type_id == Some(*s),
    {
        self.interface_type_id.as_ref()
    }

    /// The BSD name of the interface, such as `en0`.
    pub fn bsd_name(&self) -> (r: Option<&String>)
        ensures
            r is Some <==> self.bsd_name is Some,
            r matches Some(s) ==> self.bsd_name == Some(*s),
    {
        self.bsd_name.as_ref()
    }

    /// The localized display name of the interface.
    pub fn display_name(&self) -> (r: Option<&String>)
        ensures
            r is Some <==> self.display_name is Some,
            r matches Some(s) ==> self.display_name == Some(*s),
    {
        self.display_name.as_ref()
    }
}

/// A network service, as the framework reports it.
pub struct SCNetworkService {
    /// The service identifier.
    pub id: Option<String>,
    /// Whether the service is enabled.
    pub enabled: bool,
    /// The interface backing the service, if it has one.
    pub interface: Option<SCNetworkInterface>,
}

impl SCNetworkService {
    /// Whether the service is currently enabled.
    pub fn enabled(&self) -> (r: bool)
        ensures
            r == self.enabled,
    {
        self.enabled
    }

    /// The interface backing the service, if it has one.
    pub fn network_interface(&self) -> (r: Option<&SCNetworkInterface>)
        ensures
            r is Some <==> self.interface is Some,
            r matches Some(i) ==> self.interface == Some(*i),
    {
        self.interface.as_ref()
    }

    /// The service identifier.
    pub fn id(&self) -> (r: Option<&String>)
        ensures
            r is Some <==> self.id is Some,
            r matches Some(s) ==> self.id == Some(*s),
    {
        self.id.as_ref()
    }
}

/// A network set: the configuration of the host, as the identifiers of its
/// services in priority order.
pub struct SCNetworkSet {
    /// Service identifiers, highest priority first.
    pub service_order: Vec<String>,
}

impl SCNetworkSet {
    /// The service identifiers, highest priority first.
    pub fn service_order(&self) -> (r: &Vec<String>)
        ensures
            r == &self.service_order,
    {
        &self.service_order
    }
}

/// Every interface type is recognized again from its own identifier.
pub proof fn lemma_interface_type_id_round_trip(t: SCNetworkInterfaceType)
    ensures
        interface_type_from_id(interface_type_id(t)) == Some(t),
{
    match t {
        SCNetworkInterfaceType::SixToFour => {
            reveal_strlit("6to4");
        },
        SCNetworkInterfaceType::Bluetooth => {
            reveal_strlit("Bluetooth");
            reveal_strlit("6to4");
            assert("Bluetooth"@.len() != "6to4"@.len());
        },
        SCNetworkInterfaceType::Bridge => {
            reveal_strlit("Bridge");
            reveal_strlit("6to4");
            assert("Bridge"@.len() != "6to4"@.len());
            reveal_strlit("Bluetooth");
            assert("Bridge"@.len() != "Bluetooth"@.len());
        },
        SCNetworkInterfaceType::Bond => {
            reveal_strlit("Bond");
            reveal_strlit("6to4");
            assert("Bond"@[0] != "6to4"@[0]);
            reveal_strlit("Bluetooth");
            assert("Bond"@.len() != "Bluetooth"@.len());
            reveal_strlit("Bridge");
            assert("Bond"@.len() != "Bridge"@.len());
        },
        SCNetworkInterfaceType::Ethernet => {
            reveal_strlit("Ethernet");
            reveal_strlit("6to4");
            assert("Ethernet"@.len() != "6to4"@.len());
            reveal_strlit("Bluetooth");
            assert("Ethernet"@.len() != "Bluetooth"@.len());
            reveal_strlit("Bridge");
            assert("Ethernet"@.len() != "Bridge"@.len());
            reveal_strlit("Bond");
            assert("Ethernet"@.len() != "Bond"@.len());
        },
        SCNetworkInterfaceType::FireWire => {
            reveal_strlit("FireWire");
            reveal_strlit("6to4");
            assert("FireWire"@.len() != "6to4"@.len());
            reveal_strlit("Bluetooth");
            assert("FireWire"@.len() != "Bluetooth"@.len());
            reveal_strlit("Bridge");
            assert("FireWire"@.len() != "Bridge"@.len());
            reveal_strlit("Bond");
            assert("FireWire"@.len() != "Bond"@.len());
            reveal_strlit("Ethernet");
            assert("FireWire"@[0] != "Ethernet"@[0]);
        },
        SCNetworkInterfaceType::IEEE80211 => {
            reveal_strlit("IEEE80211");
            reveal_strlit("6to4");
            assert("IEEE80211"@.len() != "6to4"@.len());
            reveal_strlit("Bluetooth");
            assert("IEEE80211"@[0] != "Bluetooth"@[0]);
            reveal_strlit("Bridge");
            assert("IEEE80211"@.len() != "Bridge"@.len());
            reveal_strlit("Bond");
            assert("IEEE80211"@.len() != "Bond"@.len());
            reveal_strlit("Ethernet");
            assert("IEEE80211"@.len() != "Ethernet"@.len());
            reveal_strlit("FireWire");
            assert("IEEE80211"@.len() != "FireWire"@.len());
        },
        SCNetworkInterfaceType::IPSec => {
            reveal_strlit("IPSec");
            reveal_strlit("6to4");
            assert("IPSec"@.len() != "6to4"@.len());
            reveal_strlit("Bluetooth");
            assert("IPSec"@.len() != "Bluetooth"@.len());
            reveal_strlit("Bridge");
            assert("IPSec"@.len() != "Bridge"@.len());
            reveal_strlit("Bond");
            assert("IPSec"@.len() != "Bond"@.len());
            reveal_strlit("Ethernet");
            assert("IPSec"@.len() != "Ethernet"@.len());
            reveal_strlit("FireWire");
            assert("IPSec"@.len() != "FireWire"@.len());
            reveal_strlit("IEEE80211");
            assert("IPSec"@.len() != "IEEE80211"@.len());
        },
        SCNetworkInterfaceType::IrDA => {
            reveal_strlit("IrDA");
            reveal_strlit("6to4");
            assert("IrDA"@[0] != "6to4"@[0]);
            reveal_strlit("Bluetooth");
            assert("IrDA"@.len() != "Bluetooth"@.len());
            reveal_strlit("Bridge");
            assert("IrDA"@.len() != "Bridge"@.len());
            reveal_strlit("Bond");
            assert("IrDA"@[0] != "Bond"@[0]);
            reveal_strlit("Ethernet");
            assert("IrDA"@.len() != "Ethernet"@.len());
            reveal_strlit("FireWire");
            assert("IrDA"@.len() != "FireWire"@.len());
            reveal_strlit("IEEE80211");
            assert("IrDA"@.len() != "IEEE80211"@.len());
            reveal_strlit("IPSec");
            assert("IrDA"@.len() != "IPSec"@.len());
        },
        SCNetworkInterfaceType::L2TP => {
            reveal_strlit("L2TP");
            reveal_strlit("6to4");
            assert("L2TP"@[0] != "6to4"@[0]);
            reveal_strlit("Bluetooth");
            assert("L2TP"@.len() != "Bluetooth"@.len());
            reveal_strlit("Bridge");
            assert("L2TP"@.len() != "Bridge"@.len());
            reveal_strlit("Bond");
            assert("L2TP"@[0] != "Bond"@[0]);
            reveal_strlit("Ethernet");
            assert("L2TP"@.len() != "Ethernet"@.len());
            reveal_strlit("FireWire");
            assert("L2TP"@.len() != "FireWire"@.len());
            reveal_strlit("IEEE80211");
            assert("L2TP"@.len() != "IEEE80211"@.len());
            reveal_strlit("IPSec");
            assert("L2TP"@.len() != "IPSec"@.len());
            reveal_strlit("IrDA");
            assert("L2TP"@[0] != "IrDA"@[0]);
        },
        SCNetworkInterfaceType::Modem => {
            reveal_strlit("Modem");
            reveal_strlit("6to4");
            assert("Modem"@.len() != "6to4"@.len());
            reveal_strlit("Bluetooth");
            assert("Modem"@.len() != "Bluetooth"@.len());
            reveal_strlit("Bridge");
            assert("Modem"@.len() != "Bridge"@.len());
            reveal_strlit("Bond");
            assert("Modem"@.len() != "Bond"@.len());
            reveal_strlit("Ethernet");
            assert("Modem"@.len() != "Ethernet"@.len());
            reveal_strlit("FireWire");
            assert("Modem"@.len() != "FireWire"@.len());
            reveal_strlit("IEEE80211");
            assert("Modem"@.len() != "IEEE80211"@.len());
            reveal_strlit("IPSec");
            assert("Modem"@[0] != "IPSec"@[0]);
            reveal_strlit("IrDA");
            assert("Modem"@.len() != "IrDA"@.len());
            reveal_strlit("L2TP");
            assert("Modem"@.len() != "L2TP"@.len());
        },
        SCNetworkInterfaceType::PPP => {
            reveal_strlit("PPP");
            reveal_strlit("6to4");
            assert("PPP"@.len() != "6to4"@.len());
            reveal_strlit("Bluetooth");
            assert("PPP"@.len() != "Bluetooth"@.len());
            reveal_strlit("Bridge");
            assert("PPP"@.len() != "Bridge"@.len());
            reveal_strlit("Bond");
            assert("PPP"@.len() != "Bond"@.len());
            reveal_strlit("Ethernet");
            assert("PPP"@.len() != "Ethernet"@.len());
            reveal_strlit("FireWire");
            assert("PPP"@.len() != "FireWire"@.len());
            reveal_strlit("IEEE80211");
            assert("PPP"@.len() != "IEEE80211"@.len());
            reveal_strlit("IPSec");
            assert("PPP"@.len() != "IPSec"@.len());
            reveal_strlit("IrDA");
            assert("PPP"@.len() != "IrDA"@.len());
            reveal_strlit("L2TP");
            assert("PPP"@.len() != "L2TP"@.len());
            reveal_strlit("Modem");
            assert("PPP"@.len() != "Modem"@.len());
        },
        SCNetworkInterfaceType::PPTP => {
            reveal_strlit("PPTP");
            reveal_strlit("6to4");
            assert("PPTP"@[0] != "6to4"@[0]);
            reveal_strlit("Bluetooth");
            assert("PPTP"@.len() != "Bluetooth"@.len());
            reveal_strlit("Bridge");
            assert("PPTP"@.len() != "Bridge"@.len());
            reveal_strlit("Bond");
            assert("PPTP"@[0] != "Bond"@[0]);
            reveal_strlit("Ethernet");
            assert("PPTP"@.len() != "Ethernet"@.len());
            reveal_strlit("FireWire");
            assert("PPTP"@.len() != "FireWire"@.len());
            reveal_strlit("IEEE80211");
            assert("PPTP"@.len() != "IEEE80211"@.len());
            reveal_strlit("IPSec");
            assert("PPTP"@.len() != "IPSec"@.len());
            reveal_strlit("IrDA");
            assert("PPTP"@[0] != "IrDA"@[0]);
            reveal_strlit("L2TP");
            assert("PPTP"@[0] != "L2TP"@[0]);
            reveal_strlit("Modem");
            assert("PPTP"@.len() != "Modem"@.len());
            reveal_strlit("PPP");
            assert("PPTP"@.len() != "PPP"@.len());
        },
        SCNetworkInterfaceType::Serial => {
            reveal_strlit("Serial");
            reveal_strlit("6to4");
            assert("Serial"@.len() != "6to4"@.len());
            reveal_strlit("Bluetooth");
            assert("Serial"@.len() != "Bluetooth"@.len());
            reveal_strlit("Bridge");
            assert("Serial"@[0] != "Bridge"@[0]);
            reveal_strlit("Bond");
            assert("Serial"@.len() != "Bond"@.len());
            reveal_strlit("Ethernet");
            assert("Serial"@.len() != "Ethernet"@.len());
            reveal_strlit("FireWire");
            assert("Serial"@.len() != "FireWire"@.len());
            reveal_strlit("IEEE80211");
            assert("Serial"@.len() != "IEEE80211"@.len());
            reveal_strlit("IPSec");
            assert("Serial"@.len() != "IPSec"@.len());
            reveal_strlit("IrDA");
            assert("Serial"@.len() != "IrDA"@.len());
            reveal_strlit("L2TP");
            assert("Serial"@.len() != "L2TP"@.len());
            reveal_strlit("Modem");
            assert("Serial"@.len() != "Modem"@.len());
            reveal_strlit("PPP");
            assert("Serial"@.len() != "PPP"@.len());
            reveal_strlit("PPTP");
            assert("Serial"@.len() != "PPTP"@.len());
        },
        SCNetworkInterfaceType::VLAN => {
            reveal_strlit("VLAN");
            reveal_strlit("6to4");
            assert("VLAN"@[0] != "6to4"@[0]);
            reveal_strlit("Bluetooth");
            assert("VLAN"@.len() != "Bluetooth"@.len());
            reveal_strlit("Bridge");
            assert("VLAN"@.len() != "Bridge"@.len());
            reveal_strlit("Bond");
            assert("VLAN"@[0] != "Bond"@[0]);
            reveal_strlit("Ethernet");
            assert("VLAN"@.len() != "Ethernet"@.len());
            reveal_strlit("FireWire");
            assert("VLAN"@.len() != "FireWire"@.len());
            reveal_strlit("IEEE80211");
            assert("VLAN"@.len() != "IEEE80211"@.len());
            reveal_strlit("IPSec");
            assert("VLAN"@.len() != "IPSec"@.len());
            reveal_strlit("IrDA");
            assert("VLAN"@[0] != "IrDA"@[0]);
            reveal_strlit("L2TP");
            assert("VLAN"@[0] != "L2TP"@[0]);
            reveal_strlit("Modem");
            assert("VLAN"@.len() != "Modem"@.len());
            reveal_strlit("PPP");
            assert("VLAN"@.len() != "PPP"@.len());
            reveal_strlit("PPTP");
            assert("VLAN"@[0] != "PPTP"@[0]);
            reveal_strlit("Serial");
            assert("VLAN"@.len() != "Serial"@.len());
        },
        SCNetworkInterfaceType::WWAN => {
            reveal_strlit("WWAN");
            reveal_strlit("6to4");
            assert("WWAN"@[0] != "6to4"@[0]);
            reveal_strlit("Bluetooth");
            assert("WWAN"@.len() != "Bluetooth"@.len());
            reveal_strlit("Bridge");
            assert("WWAN"@.len() != "Bridge"@.len());
            reveal_strlit("Bond");
            assert("WWAN"@[0] != "Bond"@[0]);
            reveal_strlit("Ethernet");
            assert("WWAN"@.len() != "Ethernet"@.len());
            reveal_strlit("FireWire");
            assert("WWAN"@.len() != "FireWire"@.len());
            reveal_strlit("IEEE80211");
            assert("WWAN"@.len() != "IEEE80211"@.len());
            reveal_strlit("IPSec");
            assert("WWAN"@.len() != "IPSec"@.len());
            reveal_strlit("IrDA");
            assert("WWAN"@[0] != "IrDA"@[0]);
            reveal_strlit("L2TP");
            assert("WWAN"@[0] != "L2TP"@[0]);
            reveal_strlit("Modem");
            assert("WWAN"@.len() != "Modem"@.len());
            reveal_strlit("PPP");
            assert("WWAN"@.len() != "PPP"@.len());
            reveal_strlit("PPTP");
            assert("WWAN"@[0] != "PPTP"@[0]);
            reveal_strlit("Serial");
            assert("WWAN"@.len() != "Serial"@.len());
            reveal_strlit("VLAN");
            assert("WWAN"@[0] != "VLAN"@[0]);
        },
        SCNetworkInterfaceType::IPv4 => {
            reveal_strlit("IPv4");
            reveal_strlit("6to4");
            assert("IPv4"@[0] != "6to4"@[0]);
            reveal_strlit("Bluetooth");
            assert("IPv4"@.len() != "Bluetooth"@.len());
            reveal_strlit("Bridge");
            assert("IPv4"@.len() != "Bridge"@.len());
            reveal_strlit("Bond");
            assert("IPv4"@[0] != "Bond"@[0]);
            reveal_strlit("Ethernet");
            assert("IPv4"@.len() != "Ethernet"@.len());
            reveal_strlit("FireWire");
            assert("IPv4"@.len() != "FireWire"@.len());
            reveal_strlit("IEEE80211");
            assert("IPv4"@.len() != "IEEE80211"@.len());
            reveal_strlit("IPSec");
            assert("IPv4"@.len() != "IPSec"@.len());
            reveal_strlit("IrDA");
            assert("IPv4"@[1] != "IrDA"@[1]);
            reveal_strlit("L2TP");
            assert("IPv4"@[0] != "L2TP"@[0]);
            reveal_strlit("Modem");
            assert("IPv4"@.len() != "Modem"@.len());
            reveal_strlit("PPP");
            assert("IPv4"@.len() != "PPP"@.len());
            reveal_strlit("PPTP");
            assert("IPv4"@[0] != "PPTP"@[0]);
            reveal_strlit("Serial");
            assert("IPv4"@.len() != "Serial"@.len());
            reveal_strlit("VLAN");
            assert("IPv4"@[0] != "VLAN"@[0]);
            reveal_strlit("WWAN");
            assert("IPv4"@[0] != "WWAN"@[0]);
        },
    }
}

} // verus!
