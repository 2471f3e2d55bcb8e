//! The data the dashboard shows: interface snapshots, the DNS snapshot, the
//! row projected from them, and the columns a table can be sorted by.

use vstd::prelude::*;
use vstd::string::*;
use crate::text::{
    clone_opt_text, contains_text, has_substring, join, joined, lowercase, opt_text, same_text,
    starts_with_text, texts, to_lowercase,
};

verus! {

/// The kind of an interface, derived from its name.
#[derive(Debug, Clone, Copy, PartialEq, Eq, Structural)]
pub enum InterfaceType {
    Ethernet,
    WiFi,
    Loopback,
    Bridge,
    Virtual,
    Tunnel,
    Unknown,
}

/// The kind that the ordered prefix and substring rules give a lower-cased
/// interface name.
pub open spec fn classify(n: Seq<char>) -> InterfaceType {
    if "lo"@.is_prefix_of(n) {
        InterfaceType::Loopback
    } else if "eth"@.is_prefix_of(n) || ("en"@.is_prefix_of(n) && !has_substring(n, "wlan"@)) {
        InterfaceType::Ethernet
    } else if has_substring(n, "wlan"@) || has_substring(n, "wifi"@) || "wl"@.is_prefix_of(n) {
        InterfaceType::WiFi
    } else if "br"@.is_prefix_of(n) || "bridge"@.is_prefix_of(n) {
        InterfaceType::Bridge
    } else if "veth"@.is_prefix_of(n) || "docker"@.is_prefix_of(n) || "virbr"@.is_prefix_of(n) {
        InterfaceType::Virtual
    } else if "tun"@.is_prefix_of(n) || "tap"@.is_prefix_of(n) || has_substring(n, "vpn"@) {
        InterfaceType::Tunnel
    } else {
        InterfaceType::Unknown
    }
}

impl InterfaceType {
    /// The label shown for this kind.
    pub open spec fn label(self) -> Seq<char> {
        match self {
            InterfaceType::Ethernet => "Ethernet"@,
            InterfaceType::WiFi => "WiFi"@,
            InterfaceType::Loopback => "Loopback"@,
            InterfaceType::Bridge => "Bridge"@,
            InterfaceType::Virtual => "Virtual"@,
            InterfaceType::Tunnel => "Tunnel/VPN"@,
            InterfaceType::Unknown => "Unknown"@,
        }
    }

    /// Classifies a name that is already in lower case.
    pub fn from_lowercase_name(name_lower: &str) -> (kind: Self)
        ensures
            kind == classify(name_lower@),
    {
        if starts_with_text(name_lower, "lo") {
            InterfaceType::Loopback
        } else if starts_with_text(name_lower, "eth") || (starts_with_text(name_lower, "en")
            && !contains_text(name_lower, "wlan")) {
            InterfaceType::Ethernet
        } else if contains_text(name_lower, "wlan") || contains_text(name_lower, "wifi")
            || starts_with_text(name_lower, "wl") {
            InterfaceType::WiFi
        } else if starts_with_text(name_lower, "br") || starts_with_text(name_lower, "bridge") {
            InterfaceType::Bridge
        } else if starts_with_text(name_lower, "veth") || starts_with_text(name_lower, "docker")
            || starts_with_text(name_lower, "virbr") {
            InterfaceType::Virtual
        } else if starts_with_text(name_lower, "tun") || starts_with_text(name_lower, "tap")
            || contains_text(name_lower, "vpn") {
            InterfaceType::Tunnel
        } else {
            InterfaceType::Unknown
        }
    }

    /// Classifies an interface by its name, whatever its case.
    pub fn from_name(name: &str) -> (kind: Self)
        ensures
            kind == classify(lowercase(name@)),
    {
        let name_lower = to_lowercase(name);
        Self::from_lowercase_name(name_lower.as_str())
    }

    /// The label shown for this kind.
    pub fn as_str(&self) -> (r: &'static str)
        ensures
            r@ == self.label(),
    {
        match self {
            InterfaceType::Ethernet => "Ethernet",
            InterfaceType::WiFi => "WiFi",
            InterfaceType::Loopback => "Loopback",
            InterfaceType::Bridge => "Bridge",
            InterfaceType::Virtual => "Virtual",
            InterfaceType::Tunnel => "Tunnel/VPN",
            InterfaceType::Unknown => "Unknown",
        }
    }
}

/// One address of an interface, each part in its text form.
#[derive(Debug, Clone, PartialEq)]
pub struct InterfaceAddress {
    pub ip: String,
    pub netmask: Option<String>,
    pub broadcast: Option<String>,
    /// Whether `ip` is an IPv6 address.
    pub v6: bool,
}

/// The view of an [`InterfaceAddress`].
pub struct AddressView {
    pub ip: Seq<char>,
    pub netmask: Option<Seq<char>>,
    pub broadcast: Option<Seq<char>>,
    pub v6: bool,
}

impl View for InterfaceAddress {
    type V = AddressView;

    open spec fn view(&self) -> AddressView {
        AddressView {
            ip: self.ip@,
            netmask: opt_text(self.netmask),
            broadcast: opt_text(self.broadcast),
            v6: self.v6,
        }
    }
}

impl InterfaceAddress {
    /// Whether this is an IPv6 address.
    pub fn is_ipv6(&self) -> (r: bool)
        ensures
            r == self@.v6,
    {
        self.v6
    }

    /// A copy of this address.
    pub fn duplicate(&self) -> (out: Self)
        ensures
            out@ == self@,
    {
        InterfaceAddress {
            ip: self.ip.clone(),
            netmask: clone_opt_text(&self.netmask),
            broadcast: clone_opt_text(&self.broadcast),
            v6: self.v6,
        }
    }
}

/// The views of a list of addresses.
pub open spec fn addresses(v: Seq<InterfaceAddress>) -> Seq<AddressView> {
    v.map_values(|a: InterfaceAddress| a@)
}

/// A snapshot of one interface.
#[derive(Debug, Clone, PartialEq)]
pub struct NetworkInterface {
    pub name: String,
    pub interface_type: InterfaceType,
    pub ip_addresses: Vec<InterfaceAddress>,
    pub mac_address: Option<String>,
    pub is_up: bool,
    pub is_loopback: bool,
    pub mtu: Option<u32>,
    pub ipv6_enabled: bool,
    pub ssid: Option<String>,
}

/// The view of a [`NetworkInterface`].
pub struct InterfaceView {
    pub name: Seq<char>,
    pub interface_type: InterfaceType,
    pub ip_addresses: Seq<AddressView>,
    pub mac_address: Option<Seq<char>>,
    pub is_up: bool,
    pub is_loopback: bool,
    pub mtu: Option<u32>,
    pub ipv6_enabled: bool,
    pub ssid: Option<Seq<char>>,
}

impl View for NetworkInterface {
    type V = InterfaceView;

    open spec fn view(&self) -> InterfaceView {
        InterfaceView {
            name: self.name@,
            interface_type: self.interface_type,
            ip_addresses: addresses(self.ip_addresses@),
            mac_address: opt_text(self.mac_address),
            is_up: self.is_up,
            is_loopback: self.is_loopback,
            mtu: self.mtu,
            ipv6_enabled: self.ipv6_enabled,
            ssid: opt_text(self.ssid),
        }
    }
}

/// The views of a list of interfaces.
pub open spec fn interfaces_view(v: Seq<NetworkInterface>) -> Seq<InterfaceView> {
    v.map_values(|i: NetworkInterface| i@)
}

/// The DNS snapshot: name servers in display order, and search domains.
#[derive(Debug, Clone)]
pub struct DnsConfiguration {
    pub nameservers: Vec<String>,
    pub search_domains: Vec<String>,
}

/// The view of a [`DnsConfiguration`].
pub struct DnsView {
    pub nameservers: Seq<Seq<char>>,
    pub search_domains: Seq<Seq<char>>,
}

impl View for DnsConfiguration {
    type V = DnsView;

    open spec fn view(&self) -> DnsView {
        DnsView {
            nameservers: texts(self.nameservers@),
            search_domains: texts(self.search_domains@),
        }
    }
}

/// One line of the table.
#[derive(Debug, Clone)]
pub struct InterfaceTableRow {
    pub name: String,
    pub interface_type: String,
    pub ip_address: String,
    pub mac_address: String,
    pub subnet_mask: String,
    pub dns_servers: String,
    pub status: String,
}

/// The view of an [`InterfaceTableRow`].
pub struct RowView {
    pub name: Seq<char>,
    pub interface_type: Seq<char>,
    pub ip_address: Seq<char>,
    pub mac_address: Seq<char>,
    pub subnet_mask: Seq<char>,
    pub dns_servers: Seq<char>,
    pub status: Seq<char>,
}

impl View for InterfaceTableRow {
    type V = RowView;

    open spec fn view(&self) -> RowView {
        RowView {
            name: self.name@,
            interface_type: self.interface_type@,
            ip_address: self.ip_address@,
            mac_address: self.mac_address@,
            subnet_mask: self.subnet_mask@,
            dns_servers: self.dns_servers@,
            status: self.status@,
        }
    }
}

/// The views of a list of rows.
pub open spec fn rows_view(v: Seq<InterfaceTableRow>) -> Seq<RowView> {
    v.map_values(|r: InterfaceTableRow| r@)
}

/// `t` if there is one, else the placeholder shown for a missing value.
pub open spec fn or_na(t: Option<Seq<char>>) -> Seq<char> {
    match t {
        Some(s) => s,
        None => "N/A"@,
    }
}

/// The row that stands for an interface under a DNS snapshot.
pub open spec fn project(iface: InterfaceView, dns: DnsView) -> RowView {
    let servers = joined(dns.nameservers, ", "@);
    RowView {
        name: iface.name,
        interface_type: iface.interface_type.label(),
        ip_address: if iface.ip_addresses.len() > 0 {
            iface.ip_addresses[0].ip
        } else {
            "N/A"@
        },
        mac_address: or_na(iface.mac_address),
        subnet_mask: if iface.ip_addresses.len() > 0 {
            or_na(iface.ip_addresses[0].netmask)
        } else {
            "N/A"@
        },
        dns_servers: if servers.len() == 0 {
            "N/A"@
        } else {
            servers
        },
        status: if iface.is_up {
            "UP"@
        } else {
            "DOWN"@
        },
    }
}

/// The text a row shows under a column title, empty for an unknown title.
pub open spec fn field_of(row: RowView, column: Seq<char>) -> Seq<char> {
    if column == "Interface"@ {
        row.name
    } else if column == "Type"@ {
        row.interface_type
    } else if column == "IP Address"@ {
        row.ip_address
    } else if column == "MAC Address"@ {
        row.mac_address
    } else if column == "Subnet Mask"@ {
        row.subnet_mask
    } else if column == "DNS Servers"@ {
        row.dns_servers
    } else if column == "Status"@ {
        row.status
    } else {
        Seq::empty()
    }
}

impl InterfaceTableRow {
    /// The row that stands for an interface under a DNS snapshot.
    pub fn from_interface(iface: &NetworkInterface, dns: &DnsConfiguration) -> (row: Self)
        ensures
            row@ == project(iface@, dns@),
    {
        let ip_address = if iface.ip_addresses.len() > 0 {
            iface.ip_addresses[0].ip.clone()
        } else {
            String::from_str("N/A")
        };
        let subnet_mask = if iface.ip_addresses.len() > 0 {
            match &iface.ip_addresses[0].netmask {
                Some(mask) => mask.clone(),
                None => String::from_str("N/A"),
            }
        } else {
            String::from_str("N/A")
        };
        let mac_address = match &iface.mac_address {
            Some(mac) => mac.clone(),
            None => String::from_str("N/A"),
        };
        let servers = join(&dns.nameservers, ", ");
        let dns_servers = if servers.as_str().is_empty() {
            String::from_str("N/A")
        } else {
            servers
        };
        let status = if iface.is_up {
            String::from_str("UP")
        } else {
            String::from_str("DOWN")
        };
        InterfaceTableRow {
            name: iface.name.clone(),
            interface_type: String::from_str(iface.interface_type.as_str()),
            ip_address,
            mac_address,
            subnet_mask,
            dns_servers,
            status,
        }
    }

    /// The text of this row under a column title; empty for an unknown title.
    pub fn get_field(&self, column: &str) -> (r: &str)
        ensures
            r@ == field_of(self@, column@),
    {
        if same_text(column, "Interface") {
            self.name.as_str()
        } else if same_text(column, "Type") {
            self.interface_type.as_str()
        } else if same_text(column, "IP Address") {
            self.ip_address.as_str()
        } else if same_text(column, "MAC Address") {
            self.mac_address.as_str()
        } else if same_text(column, "Subnet Mask") {
            self.subnet_mask.as_str()
        } else if same_text(column, "DNS Servers") {
            self.dns_servers.as_str()
        } else if same_text(column, "Status") {
            self.status.as_str()
        } else {
            let empty: &'static str = "";
            proof {
                reveal_strlit("");
            }
            assert(empty@ == Seq::<char>::empty());
            empty
        }
    }

    /// Whether two rows show the same texts.
    pub fn same_as(&self, other: &InterfaceTableRow) -> (r: bool)
        ensures
            r == (self@ == other@),
    {
        self.name == other.name && self.interface_type == other.interface_type
            && self.ip_address == other.ip_address && self.mac_address == other.mac_address
            && self.subnet_mask == other.subnet_mask && self.dns_servers == other.dns_servers
            && self.status == other.status
    }
}

/// A column the table can be sorted by.
#[derive(Debug, Clone, Copy, PartialEq, Eq, Structural)]
pub enum SortColumn {
    Interface,
    Type,
    IpAddress,
    MacAddress,
    SubnetMask,
    DnsServers,
    Status,
}

impl SortColumn {
    /// The column's title.
    pub open spec fn title(self) -> Seq<char> {
        match self {
            SortColumn::Interface => "Interface"@,
            SortColumn::Type => "Type"@,
            SortColumn::IpAddress => "IP Address"@,
            SortColumn::MacAddress => "MAC Address"@,
            SortColumn::SubnetMask => "Subnet Mask"@,
            SortColumn::DnsServers => "DNS Servers"@,
            SortColumn::Status => "Status"@,
        }
    }

    /// The column's place in the ring the sort keys cycle through.
    pub open spec fn position(self) -> int {
        match self {
            SortColumn::Interface => 0,
            SortColumn::Type => 1,
            SortColumn::IpAddress => 2,
            SortColumn::MacAddress => 3,
            SortColumn::SubnetMask => 4,
            SortColumn::DnsServers => 5,
            SortColumn::Status => 6,
        }
    }

    /// The column at a place of the ring.
    pub open spec fn at(position: int) -> SortColumn {
        if position == 0 {
            SortColumn::Interface
        } else if position == 1 {
            SortColumn::Type
        } else if position == 2 {
            SortColumn::IpAddress
        } else if position == 3 {
            SortColumn::MacAddress
        } else if position == 4 {
            SortColumn::SubnetMask
        } else if position == 5 {
            SortColumn::DnsServers
        } else {
            SortColumn::Status
        }
    }

    /// The column after this one in the ring.
    pub open spec fn following(self) -> SortColumn {
        Self::at((self.position() + 1) % 7)
    }

    /// The column before this one in the ring.
    pub open spec fn preceding(self) -> SortColumn {
        Self::at((self.position() + 6) % 7)
    }

    /// The text of a row that this column sorts by.
    pub open spec fn key(self, row: RowView) -> Seq<char> {
        match self {
            SortColumn::Interface => row.name,
            SortColumn::Type => row.interface_type,
            SortColumn::IpAddress => row.ip_address,
            SortColumn::MacAddress => row.mac_address,
            SortColumn::SubnetMask => row.subnet_mask,
            SortColumn::DnsServers => row.dns_servers,
            SortColumn::Status => row.status,
        }
    }

    /// The column's title.
    pub fn as_str(&self) -> (r: &'static str)
        ensures
            r@ == self.title(),
    {
        match self {
            SortColumn::Interface => "Interface",
            SortColumn::Type => "Type",
            SortColumn::IpAddress => "IP Address",
            SortColumn::MacAddress => "MAC Address",
            SortColumn::SubnetMask => "Subnet Mask",
            SortColumn::DnsServers => "DNS Servers",
            SortColumn::Status => "Status",
        }
    }

    /// The column after this one in the ring.
    pub fn next(&self) -> (r: Self)
        ensures
            r == self.following(),
    {
        match self {
            SortColumn::Interface => SortColumn::Type,
            SortColumn::Type => SortColumn::IpAddress,
            SortColumn::IpAddress => SortColumn::MacAddress,
            SortColumn::MacAddress => SortColumn::SubnetMask,
            SortColumn::SubnetMask => SortColumn::DnsServers,
            SortColumn::DnsServers => SortColumn::Status,
            SortColumn::Status => SortColumn::Interface,
        }
    }

    /// The column before this one in the ring.
    pub fn prev(&self) -> (r: Self)
        ensures
            r == self.preceding(),
    {
        match self {
            SortColumn::Interface => SortColumn::Status,
            SortColumn::Type => SortColumn::Interface,
            SortColumn::IpAddress => SortColumn::Type,
            SortColumn::MacAddress => SortColumn::IpAddress,
            SortColumn::SubnetMask => SortColumn::MacAddress,
            SortColumn::DnsServers => SortColumn::SubnetMask,
            SortColumn::Status => SortColumn::DnsServers,
        }
    }

    /// The key of a row under this column.
    pub fn key_of<'a>(&self, row: &'a InterfaceTableRow) -> (r: &'a str)
        ensures
            r@ == self.key(row@),
    {
        match self {
            SortColumn::Interface => row.name.as_str(),
            SortColumn::Type => row.interface_type.as_str(),
            SortColumn::IpAddress => row.ip_address.as_str(),
            SortColumn::MacAddress => row.mac_address.as_str(),
            SortColumn::SubnetMask => row.subnet_mask.as_str(),
            SortColumn::DnsServers => row.dns_servers.as_str(),
            SortColumn::Status => row.status.as_str(),
        }
    }
}

/// Going forward and then back in the ring of columns, or back and then
/// forward, returns to the column one started from.
pub proof fn sort_column_ring(c: SortColumn)
    ensures
        c.following().preceding() == c,
        c.preceding().following() == c,
{
}

/// How an interface gets its IPv4 address.
#[derive(Debug, Clone, Copy, PartialEq, Eq, Structural)]
pub enum IpConfigMode {
    DHCP,
    Static,
}

impl IpConfigMode {
    /// The name of the mode.
    pub open spec fn label(self) -> Seq<char> {
        match self {
            IpConfigMode::DHCP => "DHCP"@,
            IpConfigMode::Static => "Static"@,
        }
    }

    /// The name of the mode.
    pub fn as_str(&self) -> (r: &'static str)
        ensures
            r@ == self.label(),
    {
        match self {
            IpConfigMode::DHCP => "DHCP",
            IpConfigMode::Static => "Static",
        }
    }
}

} // verus!
