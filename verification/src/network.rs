//! From what the system reports to snapshots: raw addresses grouped into
//! interfaces, the texts of the probing commands read, and the DNS
//! configuration put together. Reading the system is the caller's part;
//! here is what is made of what was read.

use vstd::prelude::*;
use vstd::string::*;
use crate::models::{
    addresses, classify, interfaces_view, AddressView, DnsConfiguration, DnsView,
    InterfaceAddress, InterfaceType, InterfaceView, NetworkInterface,
};
use crate::sudo::Platform;
use crate::text::{
    after_first, clone_texts, contains_text, extend_texts, has_substring, holds_text, lines,
    lowercase,
    no_texts, opt_text, pieces, rest_after, split, split_lines, split_whitespace,
    starts_with_text, strip_prefix, text_before, text_lt, text_lt_asymmetric,
    text_lt_connected, text_lt_transitive, texts, trim, trimmed, without_prefix, words,
};

verus! {

/// One address as the system lists it: the interface it belongs to, the
/// address, and whether that interface is a loopback.
#[derive(Debug, Clone)]
pub struct RawAddress {
    pub name: String,
    pub address: InterfaceAddress,
    pub loopback: bool,
}

/// The view of a [`RawAddress`].
pub struct RawAddressView {
    pub name: Seq<char>,
    pub address: AddressView,
    pub loopback: bool,
}

impl View for RawAddress {
    type V = RawAddressView;

    open spec fn view(&self) -> RawAddressView {
        RawAddressView { name: self.name@, address: self.address@, loopback: self.loopback }
    }
}

/// The views of a list of raw addresses.
pub open spec fn raw_view(v: Seq<RawAddress>) -> Seq<RawAddressView> {
    v.map_values(|a: RawAddress| a@)
}

/// The interface that a first address stands for: classified by its name,
/// up unless it is a loopback, with nothing probed yet.
pub open spec fn fresh(a: RawAddressView) -> InterfaceView {
    InterfaceView {
        name: a.name,
        interface_type: classify(lowercase(a.name)),
        ip_addresses: seq![a.address],
        mac_address: None,
        is_up: !a.loopback,
        is_loopback: a.loopback,
        mtu: None,
        ipv6_enabled: true,
        ssid: None,
    }
}

/// The interface with one more address.
pub open spec fn extended(iface: InterfaceView, address: AddressView) -> InterfaceView {
    InterfaceView { ip_addresses: iface.ip_addresses.push(address), ..iface }
}

/// A list of interfaces in the order of their names, with one more address
/// taken in: it goes to the interface of its name, or a new interface for
/// it takes its place in the order.
pub open spec fn with_address(list: Seq<InterfaceView>, a: RawAddressView) -> Seq<InterfaceView>
    decreases list.len(),
{
    if list.len() == 0 {
        seq![fresh(a)]
    } else if text_lt(a.name, list.last().name) {
        with_address(list.drop_last(), a).push(list.last())
    } else if list.last().name == a.name {
        list.drop_last().push(extended(list.last(), a.address))
    } else {
        list.push(fresh(a))
    }
}

/// The interfaces of a list of raw addresses: one for each name, in the
/// order of the names, each with its addresses in the order they came in.
pub open spec fn grouped(addrs: Seq<RawAddressView>) -> Seq<InterfaceView>
    decreases addrs.len(),
{
    if addrs.len() == 0 {
        Seq::empty()
    } else {
        with_address(grouped(addrs.drop_last()), addrs.last())
    }
}

/// Where `with_address` puts an address: with the names from `j` on coming
/// after its name, it joins the interface before `j` if that has its name,
/// and else a new interface is put in at `j`.
pub proof fn with_address_at(list: Seq<InterfaceView>, a: RawAddressView, j: int)
    requires
        0 <= j <= list.len(),
        forall|k: int| j <= k < list.len() ==> text_lt(a.name, (#[trigger] list[k]).name),
        j == 0 || !text_lt(a.name, list[j - 1].name),
    ensures
        with_address(list, a) == if j > 0 && list[j - 1].name == a.name {
            list.update(j - 1, extended(list[j - 1], a.address))
        } else {
            list.insert(j, fresh(a))
        },
    decreases list.len(),
{
    if list.len() == 0 {
        assert(seq![fresh(a)] =~= list.insert(j, fresh(a)));
    } else if j == list.len() {
        if list.last().name == a.name {
            assert(list.drop_last().push(extended(list.last(), a.address)) =~= list.update(
                j - 1,
                extended(list[j - 1], a.address),
            ));
        } else {
            assert(list.push(fresh(a)) =~= list.insert(j, fresh(a)));
        }
    } else {
        assert(text_lt(a.name, list[list.len() - 1].name));
        with_address_at(list.drop_last(), a, j);
        if j > 0 && list[j - 1].name == a.name {
            assert(list.drop_last().update(j - 1, extended(list[j - 1], a.address)).push(
                list.last(),
            ) =~= list.update(j - 1, extended(list[j - 1], a.address)));
        } else {
            assert(list.drop_last().insert(j, fresh(a)).push(list.last()) =~= list.insert(
                j,
                fresh(a),
            ));
        }
    }
}

/// The names of the list rise strictly: it is in the order of its names and
/// no name comes twice.
pub open spec fn names_rise(list: Seq<InterfaceView>) -> bool {
    forall|i: int, j: int|
        0 <= i < j < list.len() ==> text_lt((#[trigger] list[i]).name, (#[trigger] list[j]).name)
}

/// Taking an address into a list whose names rise gives a list whose
/// names rise, and brings in no name but that of the address.
pub proof fn with_address_rises(list: Seq<InterfaceView>, a: RawAddressView)
    requires
        names_rise(list),
    ensures
        names_rise(with_address(list, a)),
        forall|k: int|
            0 <= k < with_address(list, a).len() ==> (#[trigger] with_address(list, a)[k]).name
                == a.name || exists|m: int|
                0 <= m < list.len() && (#[trigger] list[m]).name == with_address(list, a)[k].name,
    decreases list.len(),
{
    let out = with_address(list, a);
    if list.len() == 0 {
    } else if text_lt(a.name, list.last().name) {
        let front = list.drop_last();
        let inner = with_address(front, a);
        assert(names_rise(front)) by {
            assert forall|i: int, j: int| 0 <= i < j < front.len() implies text_lt(
                (#[trigger] front[i]).name,
                (#[trigger] front[j]).name,
            ) by {
                assert(text_lt(list[i].name, list[j].name));
            }
        }
        with_address_rises(front, a);
        assert forall|k: int| 0 <= k < out.len() implies (#[trigger] out[k]).name == a.name
            || exists|m: int| 0 <= m < list.len() && (#[trigger] list[m]).name == out[k].name by {
            if k < inner.len() {
                assert(out[k] == inner[k]);
                if inner[k].name != a.name {
                    let m = choose|m: int|
                        0 <= m < front.len() && (#[trigger] front[m]).name == inner[k].name;
                    assert(list[m].name == out[k].name);
                }
            } else {
                assert(list[list.len() - 1].name == out[k].name);
            }
        }
        assert forall|i: int, j: int| 0 <= i < j < out.len() implies text_lt(
            (#[trigger] out[i]).name,
            (#[trigger] out[j]).name,
        ) by {
            if j == out.len() - 1 {
                assert(out[i] == inner[i]);
                if inner[i].name != a.name {
                    let m = choose|m: int|
                        0 <= m < front.len() && (#[trigger] front[m]).name == inner[i].name;
                    assert(text_lt(list[m].name, list[list.len() - 1].name));
                }
            } else {
                assert(text_lt(inner[i].name, inner[j].name));
            }
        }
    } else if list.last().name == a.name {
        assert forall|i: int, j: int| 0 <= i < j < out.len() implies text_lt(
            (#[trigger] out[i]).name,
            (#[trigger] out[j]).name,
        ) by {
            assert(text_lt(list[i].name, list[j].name));
        }
        assert forall|k: int| 0 <= k < out.len() implies (#[trigger] out[k]).name == a.name
            || exists|m: int| 0 <= m < list.len() && (#[trigger] list[m]).name == out[k].name by {
            assert(list[k].name == out[k].name);
        }
    } else {
        text_lt_connected(a.name, list.last().name);
        assert forall|i: int, j: int| 0 <= i < j < out.len() implies text_lt(
            (#[trigger] out[i]).name,
            (#[trigger] out[j]).name,
        ) by {
            if j == out.len() - 1 {
                if i < list.len() - 1 {
                    assert(text_lt(list[i].name, list[list.len() - 1].name));
                    text_lt_transitive(list[i].name, list.last().name, a.name);
                }
            } else {
                assert(text_lt(list[i].name, list[j].name));
            }
        }
        assert forall|k: int| 0 <= k < out.len() implies (#[trigger] out[k]).name == a.name
            || exists|m: int| 0 <= m < list.len() && (#[trigger] list[m]).name == out[k].name by {
            if k < list.len() {
                assert(list[k].name == out[k].name);
            }
        }
    }
}

/// The interfaces grouped from any list of addresses stand in the order
/// of their names, and no two of them bear the same name.
pub proof fn grouped_names_rise(addrs: Seq<RawAddressView>)
    ensures
        names_rise(grouped(addrs)),
    decreases addrs.len(),
{
    if addrs.len() > 0 {
        grouped_names_rise(addrs.drop_last());
        with_address_rises(grouped(addrs.drop_last()), addrs.last());
    }
}

/// The addresses that a list of raw addresses names for an interface, in
/// the order they came in.
pub open spec fn addresses_named(addrs: Seq<RawAddressView>, name: Seq<char>) -> Seq<AddressView>
    decreases addrs.len(),
{
    if addrs.len() == 0 {
        Seq::empty()
    } else if addrs.last().name == name {
        addresses_named(addrs.drop_last(), name).push(addrs.last().address)
    } else {
        addresses_named(addrs.drop_last(), name)
    }
}

/// The addresses of the interface of the list that bears the name; none
/// where no interface bears it.
pub open spec fn addresses_held(list: Seq<InterfaceView>, name: Seq<char>) -> Seq<AddressView>
    decreases list.len(),
{
    if list.len() == 0 {
        Seq::empty()
    } else if list.last().name == name {
        list.last().ip_addresses
    } else {
        addresses_held(list.drop_last(), name)
    }
}

/// A list in which no interface bears the name holds no address for it.
pub proof fn unnamed_holds_nothing(list: Seq<InterfaceView>, name: Seq<char>)
    requires
        forall|k: int| 0 <= k < list.len() ==> (#[trigger] list[k]).name != name,
    ensures
        addresses_held(list, name) == Seq::<AddressView>::empty(),
    decreases list.len(),
{
    if list.len() > 0 {
        assert(list[list.len() - 1].name != name);
        assert forall|k: int| 0 <= k < list.drop_last().len() implies (
        #[trigger] list.drop_last()[k]).name != name by {
            assert(list[k].name != name);
        }
        unnamed_holds_nothing(list.drop_last(), name);
    }
}

/// Taking an address in adds it to the addresses held for its name and
/// leaves those held for every other name as they are.
pub proof fn with_address_keeps(list: Seq<InterfaceView>, a: RawAddressView, name: Seq<char>)
    requires
        names_rise(list),
    ensures
        addresses_held(with_address(list, a), name) == if name == a.name {
            addresses_held(list, name).push(a.address)
        } else {
            addresses_held(list, name)
        },
    decreases list.len(),
{
    let out = with_address(list, a);
    text_lt_asymmetric(a.name, a.name);
    if list.len() == 0 {
        assert(out.drop_last() =~= list);
    } else if text_lt(a.name, list.last().name) {
        let front = list.drop_last();
        assert(names_rise(front)) by {
            assert forall|i: int, j: int| 0 <= i < j < front.len() implies text_lt(
                (#[trigger] front[i]).name,
                (#[trigger] front[j]).name,
            ) by {
                assert(text_lt(list[i].name, list[j].name));
            }
        }
        with_address_keeps(front, a, name);
        assert(out.drop_last() =~= with_address(front, a));
    } else if list.last().name == a.name {
        assert(out.drop_last() =~= list.drop_last());
    } else {
        text_lt_connected(a.name, list.last().name);
        assert(out.drop_last() =~= list);
        if name == a.name {
            assert forall|k: int| 0 <= k < list.len() implies (#[trigger] list[k]).name
                != name by {
                if k < list.len() - 1 {
                    assert(text_lt(list[k].name, list[list.len() - 1].name));
                    text_lt_transitive(list[k].name, list.last().name, a.name);
                }
                text_lt_asymmetric(list[k].name, list[k].name);
            }
            unnamed_holds_nothing(list, name);
        }
    }
}

/// The interfaces grouped from a list of addresses hold, for every name,
/// exactly the addresses listed under that name, in the order they came in.
pub proof fn grouped_keeps_addresses(addrs: Seq<RawAddressView>, name: Seq<char>)
    ensures
        addresses_held(grouped(addrs), name) == addresses_named(addrs, name),
    decreases addrs.len(),
{
    if addrs.len() > 0 {
        grouped_keeps_addresses(addrs.drop_last(), name);
        grouped_names_rise(addrs.drop_last());
        with_address_keeps(grouped(addrs.drop_last()), addrs.last(), name);
    }
}

/// Groups the addresses the system lists into interfaces, one for each
/// name, in the order of the names.
pub fn get_network_interfaces(addrs: &Vec<RawAddress>) -> (out: Vec<NetworkInterface>)
    ensures
        interfaces_view(out@) == grouped(raw_view(addrs@)),
{
    let mut out: Vec<NetworkInterface> = Vec::new();
    let mut i: usize = 0;
    assert(raw_view(addrs@).take(0) =~= Seq::<RawAddressView>::empty());
    assert(interfaces_view(out@) =~= Seq::<InterfaceView>::empty());
    while i < addrs.len()
        invariant
            i <= addrs.len(),
            interfaces_view(out@) == grouped(raw_view(addrs@).take(i as int)),
        decreases addrs.len() - i,
    {
        let raw = &addrs[i];
        let ghost list = interfaces_view(out@);
        assert(raw_view(addrs@).take(i + 1).drop_last() =~= raw_view(addrs@).take(i as int));
        assert(raw_view(addrs@).take(i + 1).last() == raw@);
        let mut j: usize = out.len();
        while j > 0 && text_before(raw.name.as_str(), out[j - 1].name.as_str())
            invariant
                j <= out.len(),
                list == interfaces_view(out@),
                forall|k: int|
                    j <= k < list.len() ==> text_lt(raw@.name, (#[trigger] list[k]).name),
            decreases j,
        {
            assert(list[j - 1] == out@[j - 1]@);
            j -= 1;
        }
        proof {
            if j > 0 {
                assert(list[j - 1] == out@[j - 1]@);
            }
            with_address_at(list, raw@, j as int);
        }
        if j > 0 && out[j - 1].name == raw.name {
            let mut iface = out.remove(j - 1);
            let ghost before = iface@;
            iface.ip_addresses.push(raw.address.duplicate());
            assert(addresses(iface.ip_addresses@) =~= before.ip_addresses.push(raw@.address));
            out.insert(j - 1, iface);
            assert(interfaces_view(out@) =~= list.update(
                j - 1,
                extended(list[j - 1], raw@.address),
            ));
        } else {
            let mut ip_addresses: Vec<InterfaceAddress> = Vec::new();
            ip_addresses.push(raw.address.duplicate());
            assert(addresses(ip_addresses@) =~= seq![raw@.address]);
            let iface = NetworkInterface {
                name: raw.name.clone(),
                interface_type: InterfaceType::from_name(raw.name.as_str()),
                ip_addresses,
                mac_address: None,
                is_up: !raw.loopback,
                is_loopback: raw.loopback,
                mtu: None,
                ipv6_enabled: true,
                ssid: None,
            };
            out.insert(j, iface);
            assert(interfaces_view(out@) =~= list.insert(j as int, fresh(raw@)));
        }
        i += 1;
    }
    assert(raw_view(addrs@).take(addrs.len() as int) =~= raw_view(addrs@));
    out
}

/// The interface with what the probes found: a MAC address if one was
/// read, and for a wireless interface the WiFi type and the network name if
/// one was read.
pub open spec fn probed(
    iface: InterfaceView,
    mac: Option<Seq<char>>,
    wifi: bool,
    ssid: Option<Seq<char>>,
) -> InterfaceView {
    InterfaceView {
        mac_address: match mac {
            Some(m) => Some(m),
            None => iface.mac_address,
        },
        interface_type: if wifi {
            InterfaceType::WiFi
        } else {
            iface.interface_type
        },
        ssid: if wifi && ssid is Some {
            ssid
        } else {
            iface.ssid
        },
        ..iface
    }
}

/// Takes what the probes found into an interface.
pub fn with_probes(
    iface: NetworkInterface,
    mac: Option<String>,
    wifi: bool,
    ssid: Option<String>,
) -> (out: NetworkInterface)
    ensures
        out@ == probed(iface@, opt_text(mac), wifi, opt_text(ssid)),
{
    let mut out = iface;
    match mac {
        Some(m) => {
            out.mac_address = Some(m);
        },
        None => {},
    }
    if wifi {
        out.interface_type = InterfaceType::WiFi;
        match ssid {
            Some(s) => {
                out.ssid = Some(s);
            },
            None => {},
        }
    }
    out
}

/// The MAC address in the lines of an `ifconfig` report: the second word of
/// the first line that begins, white space aside, with `ether `.
pub open spec fn ether_in(ls: Seq<Seq<char>>) -> Seq<char>
    decreases ls.len(),
{
    if ls.len() == 0 {
        "N/A"@
    } else if "ether "@.is_prefix_of(trimmed(ls[0])) && words(trimmed(ls[0])).len() >= 2 {
        words(trimmed(ls[0]))[1]
    } else {
        ether_in(ls.drop_first())
    }
}

/// Reads the MAC address from an `ifconfig` report; `N/A` where it has
/// none.
pub fn mac_from_ifconfig(report: &str) -> (mac: String)
    ensures
        mac@ == ether_in(lines(report@)),
{
    let all = split_lines(report);
    let ghost ls = texts(all@);
    let mut i: usize = 0;
    assert(ls.skip(0) =~= ls);
    while i < all.len()
        invariant
            i <= all.len(),
            ls == texts(all@),
            ls == lines(report@),
            ether_in(ls) == ether_in(ls.skip(i as int)),
        decreases all.len() - i,
    {
        assert(ls.skip(i as int).drop_first() =~= ls.skip(i + 1));
        assert(ls.skip(i as int)[0] == all@[i as int]@);
        let line = trim(all[i].as_str());
        if starts_with_text(line.as_str(), "ether ") {
            let parts = split_whitespace(line.as_str());
            assert(texts(parts@).len() == parts.len());
            if parts.len() >= 2 {
                assert(texts(parts@)[1] == parts@[1]@);
                return parts[1].clone();
            }
        }
        i += 1;
    }
    assert(ls.skip(all.len() as int) =~= Seq::<Seq<char>>::empty());
    String::from_str("N/A")
}

/// The MAC address from the content of the address file of an interface:
/// the content without the white space round it, or `N/A` where the file
/// could not be read.
pub fn mac_from_sysfs(content: Option<&str>) -> (mac: String)
    ensures
        mac@ == match content {
            Some(c) => trimmed(c@),
            None => "N/A"@,
        },
{
    match content {
        Some(c) => trim(c),
        None => String::from_str("N/A"),
    }
}

/// Whether the lines of a hardware listing name the interface as the
/// device of a wireless entry. `armed` says that the last entry seen so far
/// is a wireless one whose device line has not come yet.
pub open spec fn wifi_device_in(ls: Seq<Seq<char>>, name: Seq<char>, armed: bool) -> bool
    decreases ls.len(),
{
    if ls.len() == 0 {
        false
    } else if has_substring(trimmed(ls[0]), "Wi-Fi"@) || has_substring(
        trimmed(ls[0]),
        "AirPort"@,
    ) {
        wifi_device_in(ls.drop_first(), name, true)
    } else if armed && "Device:"@.is_prefix_of(trimmed(ls[0])) {
        if has_substring(trimmed(ls[0]), name) {
            true
        } else {
            wifi_device_in(ls.drop_first(), name, false)
        }
    } else {
        wifi_device_in(ls.drop_first(), name, armed)
    }
}

/// Whether a hardware listing names the interface as the device of a
/// wireless entry.
pub fn is_wifi_device(listing: &str, interface_name: &str) -> (r: bool)
    ensures
        r == wifi_device_in(lines(listing@), interface_name@, false),
{
    let all = split_lines(listing);
    let ghost ls = texts(all@);
    let mut armed = false;
    let mut i: usize = 0;
    assert(ls.skip(0) =~= ls);
    while i < all.len()
        invariant
            i <= all.len(),
            ls == texts(all@),
            ls == lines(listing@),
            wifi_device_in(ls, interface_name@, false) == wifi_device_in(
                ls.skip(i as int),
                interface_name@,
                armed,
            ),
        decreases all.len() - i,
    {
        assert(ls.skip(i as int).drop_first() =~= ls.skip(i + 1));
        assert(ls.skip(i as int)[0] == all@[i as int]@);
        let line = trim(all[i].as_str());
        if contains_text(line.as_str(), "Wi-Fi") || contains_text(line.as_str(), "AirPort") {
            armed = true;
        } else if armed && starts_with_text(line.as_str(), "Device:") {
            if contains_text(line.as_str(), interface_name) {
                return true;
            }
            armed = false;
        }
        i += 1;
    }
    assert(ls.skip(all.len() as int) =~= Seq::<Seq<char>>::empty());
    false
}

/// The network name in the lines of a wireless report: what follows the
/// colon of the first line that begins, white space aside, with `SSID:`.
pub open spec fn ssid_in(ls: Seq<Seq<char>>) -> Seq<char>
    decreases ls.len(),
{
    if ls.len() == 0 {
        "Not connected"@
    } else if "SSID:"@.is_prefix_of(trimmed(ls[0])) && rest_after(trimmed(ls[0]), ':') is Some {
        trimmed(rest_after(trimmed(ls[0]), ':')->0)
    } else {
        ssid_in(ls.drop_first())
    }
}

/// Reads the network name from a wireless report; `Not connected` where it
/// names none.
pub fn ssid_from_report(report: &str) -> (ssid: String)
    ensures
        ssid@ == ssid_in(lines(report@)),
{
    let all = split_lines(report);
    let ghost ls = texts(all@);
    let mut i: usize = 0;
    assert(ls.skip(0) =~= ls);
    while i < all.len()
        invariant
            i <= all.len(),
            ls == texts(all@),
            ls == lines(report@),
            ssid_in(ls) == ssid_in(ls.skip(i as int)),
        decreases all.len() - i,
    {
        assert(ls.skip(i as int).drop_first() =~= ls.skip(i + 1));
        assert(ls.skip(i as int)[0] == all@[i as int]@);
        let line = trim(all[i].as_str());
        if starts_with_text(line.as_str(), "SSID:") {
            match after_first(line.as_str(), ':') {
                Some(rest) => {
                    return trim(rest.as_str());
                },
                None => {},
            }
        }
        i += 1;
    }
    assert(ls.skip(all.len() as int) =~= Seq::<Seq<char>>::empty());
    String::from_str("Not connected")
}

/// The network name that `iwgetid` printed, if it ran well and printed
/// one.
pub fn ssid_from_iwgetid(success: bool, printed: &str) -> (ssid: Option<String>)
    ensures
        opt_text(ssid) == if success && trimmed(printed@).len() > 0 {
            Some(trimmed(printed@))
        } else {
            None
        },
{
    if success {
        let name = trim(printed);
        if !name.as_str().is_empty() {
            return Some(name);
        }
    }
    None
}

/// What a report names as DNS servers and search domains, as it stands in
/// the report: whether a server text is an address is not looked at here.
#[derive(Debug, Clone)]
pub struct DnsScan {
    pub servers: Vec<String>,
    pub domains: Vec<String>,
}

/// The view of a [`DnsScan`].
pub struct DnsScanView {
    pub servers: Seq<Seq<char>>,
    pub domains: Seq<Seq<char>>,
}

impl View for DnsScan {
    type V = DnsScanView;

    open spec fn view(&self) -> DnsScanView {
        DnsScanView { servers: texts(self.servers@), domains: texts(self.domains@) }
    }
}

/// What the lines of an `scutil --dns` report name: after each
/// `nameserver[` the text between the first and the second colon, and
/// after each `search domain[` likewise, a domain once only.
pub open spec fn scutil_scan(ls: Seq<Seq<char>>) -> DnsScanView
    decreases ls.len(),
{
    if ls.len() == 0 {
        DnsScanView { servers: Seq::empty(), domains: Seq::empty() }
    } else {
        let before = scutil_scan(ls.drop_last());
        let line = trimmed(ls.last());
        let parts = pieces(line, ':');
        if "nameserver["@.is_prefix_of(line) {
            if parts.len() >= 2 {
                DnsScanView { servers: before.servers.push(trimmed(parts[1])), ..before }
            } else {
                before
            }
        } else if "search domain["@.is_prefix_of(line) {
            if parts.len() >= 2 && !before.domains.contains(trimmed(parts[1])) {
                DnsScanView { domains: before.domains.push(trimmed(parts[1])), ..before }
            } else {
                before
            }
        } else {
            before
        }
    }
}

/// Reads the servers and search domains out of an `scutil --dns` report.
pub fn scan_scutil(report: &str) -> (scan: DnsScan)
    ensures
        scan@ == scutil_scan(lines(report@)),
{
    let all = split_lines(report);
    let ghost ls = texts(all@);
    let mut servers = no_texts();
    let mut domains = no_texts();
    let mut i: usize = 0;
    assert(ls.take(0) =~= Seq::<Seq<char>>::empty());
    while i < all.len()
        invariant
            i <= all.len(),
            ls == texts(all@),
            scutil_scan(ls.take(i as int)) == (DnsScanView {
                servers: texts(servers@),
                domains: texts(domains@),
            }),
        decreases all.len() - i,
    {
        assert(ls.take(i + 1).drop_last() =~= ls.take(i as int));
        assert(ls.take(i + 1).last() == all@[i as int]@);
        let line = trim(all[i].as_str());
        let is_server = starts_with_text(line.as_str(), "nameserver[");
        let is_domain = starts_with_text(line.as_str(), "search domain[");
        if is_server || is_domain {
            let parts = split(line.as_str(), ':');
            assert(texts(parts@).len() == parts.len());
            if parts.len() >= 2 {
                assert(texts(parts@)[1] == parts@[1]@);
                let value = trim(parts[1].as_str());
                if is_server {
                    let ghost old_servers = servers@;
                    servers.push(value);
                    assert(texts(servers@) =~= texts(old_servers).push(value@));
                } else if !holds_text(&domains, value.as_str()) {
                    let ghost old_domains = domains@;
                    domains.push(value);
                    assert(texts(domains@) =~= texts(old_domains).push(value@));
                }
            }
        }
        i += 1;
    }
    assert(ls.take(all.len() as int) =~= ls);
    DnsScan { servers, domains }
}

/// What the lines of a `resolvectl status` report name: the words after
/// each `DNS Servers:` and the text after each `DNS Domain:`.
pub open spec fn resolvectl_scan(ls: Seq<Seq<char>>) -> DnsScanView
    decreases ls.len(),
{
    if ls.len() == 0 {
        DnsScanView { servers: Seq::empty(), domains: Seq::empty() }
    } else {
        let before = resolvectl_scan(ls.drop_last());
        let line = trimmed(ls.last());
        if "DNS Servers:"@.is_prefix_of(line) {
            DnsScanView {
                servers: before.servers + words(without_prefix(line, "DNS Servers:"@)->0),
                ..before
            }
        } else if "DNS Domain:"@.is_prefix_of(line) {
            DnsScanView {
                domains: before.domains.push(trimmed(without_prefix(line, "DNS Domain:"@)->0)),
                ..before
            }
        } else {
            before
        }
    }
}

/// Reads the servers and search domains out of a `resolvectl status`
/// report.
pub fn scan_resolvectl(report: &str) -> (scan: DnsScan)
    ensures
        scan@ == resolvectl_scan(lines(report@)),
{
    let all = split_lines(report);
    let ghost ls = texts(all@);
    let mut servers = no_texts();
    let mut domains = no_texts();
    let mut i: usize = 0;
    assert(ls.take(0) =~= Seq::<Seq<char>>::empty());
    while i < all.len()
        invariant
            i <= all.len(),
            ls == texts(all@),
            resolvectl_scan(ls.take(i as int)) == (DnsScanView {
                servers: texts(servers@),
                domains: texts(domains@),
            }),
        decreases all.len() - i,
    {
        assert(ls.take(i + 1).drop_last() =~= ls.take(i as int));
        assert(ls.take(i + 1).last() == all@[i as int]@);
        let line = trim(all[i].as_str());
        match strip_prefix(line.as_str(), "DNS Servers:") {
            Some(rest) => {
                let found = split_whitespace(rest.as_str());
                extend_texts(&mut servers, &found);
            },
            None => {
                match strip_prefix(line.as_str(), "DNS Domain:") {
                    Some(rest) => {
                        let ghost old_domains = domains@;
                        let value = trim(rest.as_str());
                        domains.push(value);
                        assert(texts(domains@) =~= texts(old_domains).push(value@));
                    },
                    None => {},
                }
            },
        }
        i += 1;
    }
    assert(ls.take(all.len() as int) =~= ls);
    DnsScan { servers, domains }
}

/// The views of a list of optional strings.
pub open spec fn opt_texts(v: Seq<Option<String>>) -> Seq<Option<Seq<char>>> {
    v.map_values(|o: Option<String>| opt_text(o))
}

/// The texts that are there, in order.
pub open spec fn present(list: Seq<Option<Seq<char>>>) -> Seq<Seq<char>>
    decreases list.len(),
{
    if list.len() == 0 {
        Seq::empty()
    } else {
        match list.last() {
            Some(t) => present(list.drop_last()).push(t),
            None => present(list.drop_last()),
        }
    }
}

/// The texts of the list, each kept where it comes first.
pub open spec fn distinct(list: Seq<Seq<char>>) -> Seq<Seq<char>>
    decreases list.len(),
{
    if list.len() == 0 {
        Seq::empty()
    } else if distinct(list.drop_last()).contains(list.last()) {
        distinct(list.drop_last())
    } else {
        distinct(list.drop_last()).push(list.last())
    }
}

/// No text stands twice in the list.
pub open spec fn no_repeats(list: Seq<Seq<char>>) -> bool {
    forall|i: int, j: int| 0 <= i < j < list.len() ==> list[i] != list[j]
}

/// `distinct` keeps exactly the texts of the list: a text is in the result
/// if and only if it is in the list.
pub proof fn distinct_keeps_members(list: Seq<Seq<char>>, t: Seq<char>)
    ensures
        distinct(list).contains(t) <==> list.contains(t),
    decreases list.len(),
{
    if list.len() > 0 {
        let front = list.drop_last();
        distinct_keeps_members(front, t);
        distinct_keeps_members(front, list.last());
        if list.contains(t) {
            let k = choose|k: int| 0 <= k < list.len() && list[k] == t;
            if k < list.len() - 1 {
                assert(front[k] == t);
            }
        }
        if front.contains(t) {
            let k = choose|k: int| 0 <= k < front.len() && front[k] == t;
            assert(list[k] == t);
        }
        if distinct(front).contains(t) && !distinct(front).contains(list.last()) {
            let k = choose|k: int| 0 <= k < distinct(front).len() && distinct(front)[k] == t;
            assert(distinct(list)[k] == t);
        }
        if !distinct(front).contains(list.last()) {
            assert(distinct(list)[distinct(list).len() - 1] == list.last());
        }
        assert(list[list.len() - 1] == list.last());
    }
}

/// `distinct` leaves no text twice.
pub proof fn distinct_has_no_repeats(list: Seq<Seq<char>>)
    ensures
        no_repeats(distinct(list)),
    decreases list.len(),
{
    if list.len() > 0 {
        distinct_has_no_repeats(list.drop_last());
    }
}

/// `distinct` changes nothing in a list that holds no text twice, so the
/// texts it keeps stand in the order in which they first came.
pub proof fn distinct_of_distinct(list: Seq<Seq<char>>)
    requires
        no_repeats(list),
    ensures
        distinct(list) == list,
    decreases list.len(),
{
    if list.len() > 0 {
        let front = list.drop_last();
        assert(no_repeats(front)) by {
            assert forall|i: int, j: int| 0 <= i < j < front.len() implies front[i]
                != front[j] by {
                assert(list[i] != list[j]);
            }
        }
        distinct_of_distinct(front);
        if front.contains(list.last()) {
            let k = choose|k: int| 0 <= k < front.len() && front[k] == list.last();
            assert(list[k] != list[list.len() - 1]);
        }
        assert(front.push(list.last()) =~= list);
    }
}

/// `distinct` keeps the texts in the order in which they first came: what
/// it makes of the first `n` texts of a list stands at the front of what
/// it makes of the whole list.
pub proof fn distinct_keeps_order(list: Seq<Seq<char>>, n: int)
    requires
        0 <= n <= list.len(),
    ensures
        distinct(list.take(n)).is_prefix_of(distinct(list)),
    decreases list.len(),
{
    if n == list.len() {
        assert(list.take(n) =~= list);
    } else {
        let front = list.drop_last();
        distinct_keeps_order(front, n);
        assert(front.take(n) =~= list.take(n));
    }
}

/// `distinct` leaves something of every list that holds something.
pub proof fn distinct_of_some(list: Seq<Seq<char>>)
    ensures
        distinct(list).len() == 0 <==> list.len() == 0,
    decreases list.len(),
{
    if list.len() > 0 {
        distinct_of_some(list.drop_last());
        if distinct(list.drop_last()).contains(list.last()) {
            assert(distinct(list.drop_last()).len() > 0);
        }
    }
}

/// The strings of the list, each kept where it comes first.
pub fn without_repeats(list: &Vec<String>) -> (out: Vec<String>)
    ensures
        texts(out@) == distinct(texts(list@)),
{
    let ghost all = texts(list@);
    let mut out = no_texts();
    let mut i: usize = 0;
    assert(all.take(0) =~= Seq::<Seq<char>>::empty());
    while i < list.len()
        invariant
            i <= list.len(),
            all == texts(list@),
            texts(out@) == distinct(all.take(i as int)),
        decreases list.len() - i,
    {
        assert(all.take(i + 1).drop_last() =~= all.take(i as int));
        assert(all.take(i + 1).last() == list@[i as int]@);
        if !holds_text(&out, list[i].as_str()) {
            let ghost before = out@;
            out.push(list[i].clone());
            assert(texts(out@) =~= texts(before).push(list@[i as int]@));
        }
        i += 1;
    }
    assert(all.take(list.len() as int) =~= all);
    out
}

/// The servers of a scan that are addresses, each once. `canonical` holds,
/// for each server text of the scan, the address it writes in its usual
/// form, or nothing where it writes none.
pub fn valid_servers(canonical: &Vec<Option<String>>) -> (out: Vec<String>)
    ensures
        texts(out@) == distinct(present(opt_texts(canonical@))),
{
    let ghost all = opt_texts(canonical@);
    let mut kept = no_texts();
    let mut i: usize = 0;
    assert(all.take(0) =~= Seq::<Option<Seq<char>>>::empty());
    while i < canonical.len()
        invariant
            i <= canonical.len(),
            all == opt_texts(canonical@),
            texts(kept@) == present(all.take(i as int)),
        decreases canonical.len() - i,
    {
        assert(all.take(i + 1).drop_last() =~= all.take(i as int));
        assert(all.take(i + 1).last() == opt_text(canonical@[i as int]));
        match &canonical[i] {
            Some(address) => {
                let ghost old_kept = kept@;
                kept.push(address.clone());
                assert(texts(kept@) =~= texts(old_kept).push(address@));
            },
            None => {},
        }
        i += 1;
    }
    assert(all.take(canonical.len() as int) =~= all);
    without_repeats(&kept)
}

/// What the resolver configuration file yields: the name servers it lists,
/// each in its usual text form without a scope, and the suffixes of its
/// last `search` or `domain` line; nothing where a line of it is wrong. It
/// is what `resolv_conf::Config::parse` makes of the content.
pub uninterp spec fn resolver_file(content: Seq<char>) -> Option<
    (Seq<Seq<char>>, Seq<Seq<char>>),
>;

/// Parses the content of a resolver configuration file with
/// `resolv_conf::Config::parse` and hands out the name servers and, from
/// `Config::get_last_search_or_domain`, the search suffixes as texts. The
/// result is named by [`resolver_file`].
#[verifier::external_body]
pub(crate) fn parse_resolver_file(content: &str) -> (r: Option<(Vec<String>, Vec<String>)>)
    ensures
        match r {
            Some((servers, domains)) => resolver_file(content@) == Some(
                (texts(servers@), texts(domains@)),
            ),
            None => resolver_file(content@) is None,
        },
{
    match resolv_conf::Config::parse(content) {
        Ok(config) => Some(
            (
                config.nameservers.iter().map(
                    |ns| match ns {
                        resolv_conf::ScopedIp::V4(ip) => ip.to_string(),
                        resolv_conf::ScopedIp::V6(ip, _) => ip.to_string(),
                    },
                ).collect(),
                config.get_last_search_or_domain().cloned().collect(),
            ),
        ),
        Err(_) => None,
    }
}

/// The DNS snapshot chosen from what was found. What the system's own
/// tool reported wins; on Linux the resolver file is the fallback; where
/// neither gives anything, the snapshot is empty. Whatever the source, a
/// name server stands in the snapshot once, where it came first.
pub open spec fn chosen_dns(
    platform: Platform,
    reported: Option<DnsView>,
    file: Option<(Seq<Seq<char>>, Seq<Seq<char>>)>,
) -> DnsView {
    match reported {
        Some(dns) => DnsView { nameservers: distinct(dns.nameservers), ..dns },
        None => match (platform, file) {
            (Platform::Linux, Some((servers, domains))) => DnsView {
                nameservers: distinct(servers),
                search_domains: domains,
            },
            _ => DnsView { nameservers: Seq::empty(), search_domains: Seq::empty() },
        },
    }
}

/// The view of an optional DNS snapshot.
pub open spec fn opt_dns(o: Option<DnsConfiguration>) -> Option<DnsView> {
    match o {
        Some(dns) => Some(dns@),
        None => None,
    }
}

/// The view of what was parsed from a resolver file.
pub open spec fn file_view(o: Option<(Vec<String>, Vec<String>)>) -> Option<
    (Seq<Seq<char>>, Seq<Seq<char>>),
> {
    match o {
        Some((servers, domains)) => Some((texts(servers@), texts(domains@))),
        None => None,
    }
}

/// Chooses the DNS snapshot from a report and a parsed resolver file.
pub fn choose_dns(
    platform: Platform,
    reported: Option<DnsConfiguration>,
    file: Option<(Vec<String>, Vec<String>)>,
) -> (dns: DnsConfiguration)
    ensures
        dns@ == chosen_dns(platform, opt_dns(reported), file_view(file)),
{
    match reported {
        Some(dns) => DnsConfiguration {
            nameservers: without_repeats(&dns.nameservers),
            search_domains: dns.search_domains,
        },
        None => {
            match (platform, file) {
                (Platform::Linux, Some((servers, domains))) => DnsConfiguration {
                    nameservers: without_repeats(&servers),
                    search_domains: domains,
                },
                _ => DnsConfiguration { nameservers: no_texts(), search_domains: no_texts() },
            }
        },
    }
}

/// The DNS snapshot of a `resolvectl` scan whose server texts were checked:
/// the servers that are addresses, each once, and the domains; nothing
/// where no server is an address.
pub fn resolved_dns(canonical: &Vec<Option<String>>, domains: &Vec<String>) -> (dns: Option<
    DnsConfiguration,
>)
    ensures
        opt_dns(dns) == if present(opt_texts(canonical@)).len() == 0 {
            None
        } else {
            Some(
                DnsView {
                    nameservers: distinct(present(opt_texts(canonical@))),
                    search_domains: texts(domains@),
                },
            )
        },
{
    let servers = valid_servers(canonical);
    proof {
        distinct_of_some(present(opt_texts(canonical@)));
    }
    assert(texts(servers@).len() == servers.len());
    if servers.len() == 0 {
        None
    } else {
        Some(DnsConfiguration { nameservers: servers, search_domains: clone_texts(domains) })
    }
}

/// The DNS snapshot of an `scutil` scan whose server texts were checked:
/// the servers that are addresses, each once, and the domains.
pub fn scutil_dns(canonical: &Vec<Option<String>>, domains: &Vec<String>) -> (dns: DnsConfiguration)
    ensures
        dns@ == (DnsView {
            nameservers: distinct(present(opt_texts(canonical@))),
            search_domains: texts(domains@),
        }),
{
    DnsConfiguration {
        nameservers: valid_servers(canonical),
        search_domains: clone_texts(domains),
    }
}

/// The DNS snapshot of the system: what its own tool reported, or on Linux
/// what the resolver file holds, or nothing, with every name server once.
/// `resolver` is the content of the resolver file where it could be read.
pub fn get_dns_configuration(
    platform: Platform,
    reported: Option<DnsConfiguration>,
    resolver: Option<&str>,
) -> (dns: DnsConfiguration)
    ensures
        dns@ == chosen_dns(
            platform,
            opt_dns(reported),
            match resolver {
                Some(content) => resolver_file(content@),
                None => None,
            },
        ),
{
    let file = match resolver {
        Some(content) => parse_resolver_file(content),
        None => None,
    };
    choose_dns(platform, reported, file)
}

} // verus!
