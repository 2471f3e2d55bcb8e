use netutil::app::{App, AppMode, CommandOutput};
use netutil::models::{
    DnsConfiguration, InterfaceAddress, InterfaceTableRow, InterfaceType, IpConfigMode,
    NetworkInterface, SortColumn,
};
use netutil::rows::{filter_rows, sort_indices};
use netutil::screen::{
    details_lines, edit_dns_lines, edit_ip_lines, edit_ipv6_lines, header_label, help_line,
    ip_mode_boxes, ipv6_switch_boxes, output_title, page_window, status_line, table_title,
    window, Piece,
};

fn iface(name: &str, ip: Option<&str>, mac: Option<&str>, up: bool) -> NetworkInterface {
    NetworkInterface {
        name: name.to_string(),
        interface_type: InterfaceType::from_name(name),
        ip_addresses: match ip {
            Some(ip) => vec![InterfaceAddress {
                ip: ip.to_string(),
                netmask: Some("255.255.255.0".to_string()),
                broadcast: None,
                v6: false,
            }],
            None => vec![],
        },
        mac_address: mac.map(|m| m.to_string()),
        is_up: up,
        is_loopback: name == "lo",
        mtu: None,
        ipv6_enabled: true,
        ssid: None,
    }
}

fn no_dns() -> DnsConfiguration {
    DnsConfiguration { nameservers: vec![], search_domains: vec![] }
}

fn three() -> App {
    App::new(
        vec![
            iface("eth0", Some("10.0.0.2"), Some("AA:BB:CC:00:00:01"), true),
            iface("wlan0", Some("192.168.1.7"), Some("aa:bb:cc:00:00:02"), false),
            iface("eth1", None, None, true),
        ],
        no_dns(),
    )
}

fn many(n: usize) -> App {
    let list = (0..n).map(|i| iface(&format!("eth{:03}", i), None, None, true)).collect();
    App::new(list, no_dns())
}

#[test]
fn interface_type_follows_the_ordered_rules() {
    assert_eq!(InterfaceType::from_name("lo"), InterfaceType::Loopback);
    assert_eq!(InterfaceType::from_name("lo0"), InterfaceType::Loopback);
    assert_eq!(InterfaceType::from_name("eth0"), InterfaceType::Ethernet);
    assert_eq!(InterfaceType::from_name("enp3s0"), InterfaceType::Ethernet);
    assert_eq!(InterfaceType::from_name("en0"), InterfaceType::Ethernet);
    assert_eq!(InterfaceType::from_name("enwlan0"), InterfaceType::WiFi);
    assert_eq!(InterfaceType::from_name("wlan0"), InterfaceType::WiFi);
    assert_eq!(InterfaceType::from_name("mywifi"), InterfaceType::WiFi);
    assert_eq!(InterfaceType::from_name("wlp2s0"), InterfaceType::WiFi);
    assert_eq!(InterfaceType::from_name("br0"), InterfaceType::Bridge);
    assert_eq!(InterfaceType::from_name("bridge100"), InterfaceType::Bridge);
    assert_eq!(InterfaceType::from_name("veth12ab"), InterfaceType::Virtual);
    assert_eq!(InterfaceType::from_name("docker0"), InterfaceType::Virtual);
    assert_eq!(InterfaceType::from_name("virbr0"), InterfaceType::Virtual);
    assert_eq!(InterfaceType::from_name("tun0"), InterfaceType::Tunnel);
    assert_eq!(InterfaceType::from_name("tap1"), InterfaceType::Tunnel);
    assert_eq!(InterfaceType::from_name("myvpn"), InterfaceType::Tunnel);
    assert_eq!(InterfaceType::from_name("utun3"), InterfaceType::Unknown);
    assert_eq!(InterfaceType::from_name(""), InterfaceType::Unknown);
}

#[test]
fn interface_type_ignores_case() {
    assert_eq!(InterfaceType::from_name("ETH0"), InterfaceType::Ethernet);
    assert_eq!(InterfaceType::from_name("Lo"), InterfaceType::Loopback);
    assert_eq!(InterfaceType::from_name("WLAN0"), InterfaceType::WiFi);
    assert_eq!(InterfaceType::from_lowercase_name("ETH0"), InterfaceType::Unknown);
}

#[test]
fn labels_of_types_columns_and_modes() {
    assert_eq!(InterfaceType::Ethernet.as_str(), "Ethernet");
    assert_eq!(InterfaceType::WiFi.as_str(), "WiFi");
    assert_eq!(InterfaceType::Loopback.as_str(), "Loopback");
    assert_eq!(InterfaceType::Bridge.as_str(), "Bridge");
    assert_eq!(InterfaceType::Virtual.as_str(), "Virtual");
    assert_eq!(InterfaceType::Tunnel.as_str(), "Tunnel/VPN");
    assert_eq!(InterfaceType::Unknown.as_str(), "Unknown");
    assert_eq!(SortColumn::Interface.as_str(), "Interface");
    assert_eq!(SortColumn::Type.as_str(), "Type");
    assert_eq!(SortColumn::IpAddress.as_str(), "IP Address");
    assert_eq!(SortColumn::MacAddress.as_str(), "MAC Address");
    assert_eq!(SortColumn::SubnetMask.as_str(), "Subnet Mask");
    assert_eq!(SortColumn::DnsServers.as_str(), "DNS Servers");
    assert_eq!(SortColumn::Status.as_str(), "Status");
    assert_eq!(IpConfigMode::DHCP.as_str(), "DHCP");
    assert_eq!(IpConfigMode::Static.as_str(), "Static");
}

#[test]
fn sort_columns_form_a_ring() {
    let order = [
        SortColumn::Interface,
        SortColumn::Type,
        SortColumn::IpAddress,
        SortColumn::MacAddress,
        SortColumn::SubnetMask,
        SortColumn::DnsServers,
        SortColumn::Status,
    ];
    for i in 0..7 {
        assert_eq!(order[i].next(), order[(i + 1) % 7]);
        assert_eq!(order[i].prev(), order[(i + 6) % 7]);
        assert_eq!(order[i].next().prev(), order[i]);
    }
}

#[test]
fn row_projection_fills_in_placeholders() {
    let dns = DnsConfiguration {
        nameservers: vec!["1.1.1.1".to_string(), "8.8.8.8".to_string()],
        search_domains: vec![],
    };
    let full = InterfaceTableRow::from_interface(
        &iface("eth0", Some("10.0.0.2"), Some("aa:bb"), true),
        &dns,
    );
    assert_eq!(full.name, "eth0");
    assert_eq!(full.interface_type, "Ethernet");
    assert_eq!(full.ip_address, "10.0.0.2");
    assert_eq!(full.subnet_mask, "255.255.255.0");
    assert_eq!(full.mac_address, "aa:bb");
    assert_eq!(full.dns_servers, "1.1.1.1, 8.8.8.8");
    assert_eq!(full.status, "UP");
    let bare = InterfaceTableRow::from_interface(&iface("tun0", None, None, false), &no_dns());
    assert_eq!(bare.interface_type, "Tunnel/VPN");
    assert_eq!(bare.ip_address, "N/A");
    assert_eq!(bare.subnet_mask, "N/A");
    assert_eq!(bare.mac_address, "N/A");
    assert_eq!(bare.dns_servers, "N/A");
    assert_eq!(bare.status, "DOWN");
}

#[test]
fn row_projection_without_netmask() {
    let mut one = iface("eth0", Some("10.0.0.2"), None, true);
    one.ip_addresses[0].netmask = None;
    let row = InterfaceTableRow::from_interface(&one, &no_dns());
    assert_eq!(row.ip_address, "10.0.0.2");
    assert_eq!(row.subnet_mask, "N/A");
}

#[test]
fn get_field_by_column_title() {
    let row = InterfaceTableRow::from_interface(
        &iface("eth0", Some("10.0.0.2"), Some("aa:bb"), true),
        &no_dns(),
    );
    assert_eq!(row.get_field("Interface"), "eth0");
    assert_eq!(row.get_field("Type"), "Ethernet");
    assert_eq!(row.get_field("IP Address"), "10.0.0.2");
    assert_eq!(row.get_field("MAC Address"), "aa:bb");
    assert_eq!(row.get_field("Subnet Mask"), "255.255.255.0");
    assert_eq!(row.get_field("DNS Servers"), "N/A");
    assert_eq!(row.get_field("Status"), "UP");
    assert_eq!(row.get_field("status"), "");
    assert_eq!(row.get_field(""), "");
}

#[test]
fn new_app_shows_every_row_in_order() {
    let app = three();
    assert_eq!(app.table_rows.len(), 3);
    assert_eq!(app.filtered_rows, vec![0, 1, 2]);
    assert_eq!(app.selected_index, 0);
    assert_eq!(app.scroll_offset, 0);
    assert_eq!(app.mode, AppMode::Normal);
    assert_eq!(app.search_query, "");
    assert_eq!(app.sort_column, SortColumn::Interface);
    assert!(app.sort_ascending);
    assert_eq!(app.page_size, 20);
    assert!(!app.should_quit);
    assert!(app.status_message.is_none());
    assert_eq!(app.ipv6_edit_state.prefix_buffer, "64");
    assert!(app.ipv6_edit_state.enabled);
    assert!(app.confirm_action.is_none());
    assert!(!app.terminal_needs_clear);
}

#[test]
fn query_eth_keeps_rows_zero_and_two() {
    let mut app = three();
    app.search_query = "eth".to_string();
    app.apply_filter();
    assert_eq!(app.filtered_rows, vec![0, 2]);
}

#[test]
fn filter_compares_in_lower_case() {
    let mut app = three();
    app.search_query = "ETH".to_string();
    app.apply_filter();
    assert_eq!(app.filtered_rows, vec![0, 2]);
    app.search_query = "aa:bb:cc:00:00:01".to_string();
    app.apply_filter();
    assert_eq!(app.filtered_rows, vec![0]);
    app.search_query = "AA:BB".to_string();
    app.apply_filter();
    assert_eq!(app.filtered_rows, vec![0, 1]);
}

#[test]
fn filter_looks_at_name_address_mac_and_type_only() {
    let mut app = three();
    app.search_query = "192.168".to_string();
    app.apply_filter();
    assert_eq!(app.filtered_rows, vec![1]);
    app.search_query = "wifi".to_string();
    app.apply_filter();
    assert_eq!(app.filtered_rows, vec![1]);
    app.search_query = "n/a".to_string();
    app.apply_filter();
    assert_eq!(app.filtered_rows, vec![2]);
    app.search_query = "255.255".to_string();
    app.apply_filter();
    assert!(app.filtered_rows.is_empty());
    app.search_query = "down".to_string();
    app.apply_filter();
    assert!(app.filtered_rows.is_empty());
}

#[test]
fn empty_query_keeps_all_rows() {
    let mut app = three();
    app.search_query = "zzz".to_string();
    app.apply_filter();
    assert!(app.filtered_rows.is_empty());
    app.clear_search();
    assert_eq!(app.filtered_rows, vec![0, 1, 2]);
    assert_eq!(app.search_query, "");
}

#[test]
fn filter_rows_on_plain_rows() {
    let app = three();
    assert_eq!(filter_rows(&app.table_rows, ""), vec![0, 1, 2]);
    assert_eq!(filter_rows(&app.table_rows, "wlan"), vec![1]);
    assert_eq!(filter_rows(&app.table_rows, "0"), vec![0, 1]);
    assert_eq!(filter_rows(&vec![], "x"), Vec::<usize>::new());
}

#[test]
fn filter_moves_a_selection_behind_the_list_to_its_end() {
    let mut app = three();
    app.selected_index = 2;
    app.search_query = "eth".to_string();
    app.apply_filter();
    assert_eq!(app.selected_index, 1);
    app.search_query = "nothing".to_string();
    app.apply_filter();
    assert!(app.filtered_rows.is_empty());
    assert_eq!(app.selected_index, 1);
}

#[test]
fn typing_and_erasing_the_query_refilters() {
    let mut app = three();
    app.add_search_char('w');
    assert_eq!(app.search_query, "w");
    assert_eq!(app.filtered_rows, vec![1]);
    app.add_search_char('x');
    assert!(app.filtered_rows.is_empty());
    app.remove_search_char();
    assert_eq!(app.search_query, "w");
    assert_eq!(app.filtered_rows, vec![1]);
    app.remove_search_char();
    app.remove_search_char();
    assert_eq!(app.search_query, "");
    assert_eq!(app.filtered_rows, vec![0, 1, 2]);
}

#[test]
fn sort_orders_by_the_column_text() {
    let mut app = three();
    app.apply_sort();
    assert_eq!(app.filtered_rows, vec![0, 2, 1]);
    app.sort_ascending = false;
    app.apply_sort();
    assert_eq!(app.filtered_rows, vec![1, 2, 0]);
    app.sort_column = SortColumn::IpAddress;
    app.sort_ascending = true;
    app.apply_sort();
    assert_eq!(app.filtered_rows, vec![0, 1, 2]);
}

#[test]
fn sort_is_stable() {
    let mut app = three();
    app.sort_column = SortColumn::Type;
    app.apply_sort();
    assert_eq!(app.filtered_rows, vec![0, 2, 1]);
    app.sort_column = SortColumn::Status;
    app.sort_ascending = true;
    app.apply_sort();
    assert_eq!(app.filtered_rows, vec![1, 0, 2]);
    app.sort_ascending = false;
    app.apply_sort();
    assert_eq!(app.filtered_rows, vec![0, 2, 1]);
}

#[test]
fn sort_twice_is_sort_once() {
    let mut app = three();
    app.sort_column = SortColumn::MacAddress;
    app.sort_ascending = false;
    app.apply_sort();
    let once = app.filtered_rows.clone();
    app.apply_sort();
    assert_eq!(app.filtered_rows, once);
    assert_eq!(once, vec![1, 2, 0]);
}

#[test]
fn sort_compares_by_code_point() {
    let app = App::new(
        vec![
            iface("b", None, None, true),
            iface("B", None, None, true),
            iface("a", None, None, true),
            iface("ab", None, None, true),
            iface("é", None, None, true),
        ],
        no_dns(),
    );
    let sorted = sort_indices(&vec![0, 1, 2, 3, 4], &app.table_rows, SortColumn::Interface, true);
    assert_eq!(sorted, vec![1, 2, 3, 0, 4]);
    let reversed =
        sort_indices(&vec![0, 1, 2, 3, 4], &app.table_rows, SortColumn::Interface, false);
    assert_eq!(reversed, vec![4, 0, 3, 2, 1]);
}

#[test]
fn sort_works_on_the_filtered_rows_only() {
    let mut app = three();
    app.search_query = "eth".to_string();
    app.apply_filter();
    app.sort_ascending = false;
    app.apply_sort();
    assert_eq!(app.filtered_rows, vec![2, 0]);
    assert_eq!(app.table_rows[0].name, "eth0");
    assert_eq!(app.table_rows[1].name, "wlan0");
    assert_eq!(app.table_rows[2].name, "eth1");
}

#[test]
fn choosing_the_same_column_turns_the_direction() {
    let mut app = three();
    app.set_sort_column(SortColumn::Interface);
    assert_eq!(app.sort_column, SortColumn::Interface);
    assert!(!app.sort_ascending);
    assert_eq!(app.filtered_rows, vec![1, 2, 0]);
    app.set_sort_column(SortColumn::Interface);
    assert!(app.sort_ascending);
    assert_eq!(app.filtered_rows, vec![0, 2, 1]);
    app.set_sort_column(SortColumn::Interface);
    assert!(!app.sort_ascending);
    app.set_sort_column(SortColumn::Status);
    assert_eq!(app.sort_column, SortColumn::Status);
    assert!(app.sort_ascending);
}

#[test]
fn next_and_previous_wrap_around() {
    let mut app = three();
    app.next_item();
    assert_eq!(app.selected_index, 1);
    app.next_item();
    assert_eq!(app.selected_index, 2);
    app.next_item();
    assert_eq!(app.selected_index, 0);
    app.previous_item();
    assert_eq!(app.selected_index, 2);
    app.previous_item();
    assert_eq!(app.selected_index, 1);
}

#[test]
fn navigation_on_an_empty_list_changes_nothing() {
    let mut app = App::new(vec![], no_dns());
    app.next_item();
    assert_eq!((app.selected_index, app.scroll_offset), (0, 0));
    app.previous_item();
    assert_eq!((app.selected_index, app.scroll_offset), (0, 0));
    app.next_page();
    assert_eq!((app.selected_index, app.scroll_offset), (0, 0));
    app.last_item();
    assert_eq!((app.selected_index, app.scroll_offset), (0, 0));
    app.previous_page();
    assert_eq!((app.selected_index, app.scroll_offset), (0, 0));
    assert!(app.get_selected_row().is_none());
    assert!(app.get_selected_interface().is_none());
}

#[test]
fn pages_stop_at_the_ends() {
    let mut app = many(50);
    app.next_page();
    assert_eq!(app.selected_index, 20);
    assert_eq!(app.scroll_offset, 1);
    app.next_page();
    assert_eq!(app.selected_index, 40);
    assert_eq!(app.scroll_offset, 21);
    app.next_page();
    assert_eq!(app.selected_index, 49);
    assert_eq!(app.scroll_offset, 30);
    app.next_page();
    assert_eq!(app.selected_index, 49);
    app.previous_page();
    assert_eq!(app.selected_index, 29);
    assert_eq!(app.scroll_offset, 10);
    app.previous_page();
    assert_eq!(app.selected_index, 9);
    assert_eq!(app.scroll_offset, 0);
    app.previous_page();
    assert_eq!(app.selected_index, 0);
    assert_eq!(app.scroll_offset, 0);
}

#[test]
fn scrolling_keeps_the_selection_on_the_page() {
    let mut app = many(45);
    for _ in 0..100 {
        app.next_item();
        assert!(app.scroll_offset <= app.selected_index);
        assert!(app.selected_index < app.scroll_offset + app.page_size);
    }
    for _ in 0..100 {
        app.previous_item();
        assert!(app.scroll_offset <= app.selected_index);
        assert!(app.selected_index < app.scroll_offset + app.page_size);
    }
}

#[test]
fn scrolling_puts_the_page_at_the_least_offset() {
    let mut app = many(45);
    for _ in 0..19 {
        app.next_item();
    }
    assert_eq!((app.selected_index, app.scroll_offset), (19, 0));
    app.next_item();
    assert_eq!((app.selected_index, app.scroll_offset), (20, 1));
    app.previous_item();
    assert_eq!((app.selected_index, app.scroll_offset), (19, 0));
    app.previous_item();
    app.previous_item();
    assert_eq!((app.selected_index, app.scroll_offset), (17, 0));
    app.previous_item();
    assert_eq!((app.selected_index, app.scroll_offset), (16, 0));
    app.selected_index = 5;
    app.scroll_offset = 5;
    app.adjust_scroll();
    assert_eq!(app.scroll_offset, 0);
    app.selected_index = 30;
    app.scroll_offset = 30;
    app.adjust_scroll();
    assert_eq!(app.scroll_offset, 11);
    app.scroll_offset = 0;
    app.adjust_scroll();
    assert_eq!(app.scroll_offset, 11);
    app.selected_index = 0;
    app.adjust_scroll();
    assert_eq!(app.scroll_offset, 0);
    app.previous_item();
    assert_eq!((app.selected_index, app.scroll_offset), (44, 25));
    app.next_item();
    assert_eq!((app.selected_index, app.scroll_offset), (0, 0));
    for _ in 0..200 {
        app.next_item();
        let least = (app.selected_index + 1).saturating_sub(app.page_size);
        assert_eq!(app.scroll_offset, least);
    }
    app.page_size = 1;
    app.selected_index = usize::MAX;
    app.adjust_scroll();
    assert_eq!(app.scroll_offset, usize::MAX);
}

#[test]
fn first_and_last_item() {
    let mut app = many(45);
    app.last_item();
    assert_eq!((app.selected_index, app.scroll_offset), (44, 25));
    app.first_item();
    assert_eq!((app.selected_index, app.scroll_offset), (0, 0));
}

#[test]
fn selected_row_follows_the_shown_order() {
    let mut app = three();
    app.apply_sort();
    app.selected_index = 1;
    assert_eq!(app.get_selected_row().map(|r| r.name.as_str()), Some("eth1"));
    assert_eq!(app.get_selected_interface().map(|i| i.name.as_str()), Some("eth1"));
    app.selected_index = 7;
    assert!(app.get_selected_row().is_none());
}

#[test]
fn refresh_takes_over_new_data_under_query_and_sort() {
    let mut app = three();
    app.search_query = "eth".to_string();
    app.apply_filter();
    app.sort_ascending = false;
    app.selected_index = 1;
    app.refresh_data(
        vec![
            iface("eth5", None, None, true),
            iface("lo", Some("127.0.0.1"), None, true),
            iface("eth2", None, None, true),
            iface("eth9", None, None, true),
        ],
        DnsConfiguration { nameservers: vec!["9.9.9.9".to_string()], search_domains: vec![] },
    );
    assert_eq!(app.interfaces.len(), 4);
    assert_eq!(app.table_rows.len(), 4);
    assert_eq!(app.table_rows[1].dns_servers, "9.9.9.9");
    assert_eq!(app.filtered_rows, vec![3, 0, 2]);
    assert_eq!(app.selected_index, 1);
    assert_eq!(app.search_query, "eth");
}

#[test]
fn refresh_clamps_the_selection() {
    let mut app = three();
    app.selected_index = 2;
    app.refresh_data(vec![iface("eth0", None, None, true)], no_dns());
    assert_eq!(app.filtered_rows, vec![0]);
    assert_eq!(app.selected_index, 0);
}

#[test]
fn status_can_be_set_and_cleared() {
    let mut app = three();
    app.set_status("hello".to_string());
    assert_eq!(app.status_message.as_deref(), Some("hello"));
    app.clear_status();
    assert!(app.status_message.is_none());
}

#[test]
fn table_title_counts_rows_and_pages() {
    let mut app = many(45);
    assert_eq!(table_title(&app), " Network Interfaces (1/45) - Page 1/3 - Press 'i' for details ");
    app.last_item();
    assert_eq!(table_title(&app), " Network Interfaces (45/45) - Page 2/3 - Press 'i' for details ");
    app.scroll_offset = 40;
    assert_eq!(table_title(&app), " Network Interfaces (45/45) - Page 3/3 - Press 'i' for details ");
    let exact = many(40);
    assert_eq!(table_title(&exact), " Network Interfaces (1/40) - Page 1/2 - Press 'i' for details ");
    let empty = many(0);
    assert_eq!(table_title(&empty), " Network Interfaces (0/0) - No matches ");
    let mut far = many(1);
    far.selected_index = usize::MAX;
    far.scroll_offset = usize::MAX;
    far.page_size = 1;
    assert_eq!(
        table_title(&far),
        format!(
            " Network Interfaces ({}/1) - Page {}/1 - Press 'i' for details ",
            usize::MAX as u128 + 1,
            usize::MAX as u128 + 1
        )
    );
}

#[test]
fn status_line_shows_query_status_or_counts() {
    let mut app = three();
    assert_eq!(status_line(&app), "Total: 3 | Filtered: 3 | Sort: Interface ▲");
    app.search_query = "eth".to_string();
    app.apply_filter();
    app.sort_column = SortColumn::MacAddress;
    app.sort_ascending = false;
    assert_eq!(status_line(&app), "Total: 3 | Filtered: 2 | Sort: MAC Address ▼");
    app.set_status("Data refreshed".to_string());
    assert_eq!(status_line(&app), "Data refreshed");
    app.mode = AppMode::Search;
    assert_eq!(status_line(&app), "Search: eth (Esc to cancel)");
}

#[test]
fn key_hints_by_mode() {
    assert_eq!(
        help_line(AppMode::Normal),
        "q:Quit | ?:Help | /:Search | i:Details | x:Terminal | Ctrl+f:FlushDNS | r:Refresh | e:IP | d:DNS | 6:IPv6"
    );
    assert_eq!(help_line(AppMode::Search), "Type to search | Esc:Cancel | Enter:Done");
    assert_eq!(help_line(AppMode::Terminal), "Enter:Execute | ↑↓:Scroll | Ctrl+l:Clear | Esc:Back");
    for mode in [
        AppMode::EditIp,
        AppMode::EditDns,
        AppMode::EditIpv6,
        AppMode::Details,
        AppMode::Help,
        AppMode::ConfirmDialog,
    ] {
        assert_eq!(help_line(mode), "Esc:Cancel | Tab:Next field");
    }
}

#[test]
fn column_heads_mark_the_sort_column() {
    assert_eq!(header_label(SortColumn::Type, SortColumn::Type, true), "Type ▲");
    assert_eq!(header_label(SortColumn::Type, SortColumn::Type, false), "Type ▼");
    assert_eq!(header_label(SortColumn::IpAddress, SortColumn::Type, true), "IP Address");
}

#[test]
fn page_window_is_cut_to_the_rows() {
    let mut app = many(45);
    assert_eq!(page_window(&app), (0, 20));
    app.scroll_offset = 30;
    assert_eq!(page_window(&app), (30, 45));
    app.scroll_offset = 45;
    assert_eq!(page_window(&app), (45, 45));
    app.scroll_offset = usize::MAX;
    assert_eq!(page_window(&app), (45, 45));
    app.scroll_offset = 3;
    app.page_size = usize::MAX;
    assert_eq!(page_window(&app), (3, 45));
    app.page_size = 0;
    assert_eq!(page_window(&app), (3, 3));
}

#[test]
fn boxes_and_output_title() {
    assert_eq!(ip_mode_boxes(IpConfigMode::DHCP), "[X] DHCP  [ ] Static");
    assert_eq!(ip_mode_boxes(IpConfigMode::Static), "[ ] DHCP  [X] Static");
    assert_eq!(ipv6_switch_boxes(true), "[X] Enabled  [ ] Disabled");
    assert_eq!(ipv6_switch_boxes(false), "[ ] Enabled  [X] Disabled");
    let mut app = three();
    assert_eq!(output_title(&app), " Output (empty) ");
    app.finish_terminal_command(Ok(CommandOutput {
        stdout: "x\n".repeat(25),
        stderr: String::new(),
        success: true,
        code: Some(0),
    }));
    assert_eq!(output_title(&app), " Output (6/25) ");
    app.terminal_scroll = 0;
    assert_eq!(output_title(&app), " Output (1/25) ");
    app.terminal_scroll = 90;
    assert_eq!(output_title(&app), " Output (25/25) ");
}

#[test]
fn operations_keep_the_state_well_formed() {
    let mut app = many(45);
    assert!(app.is_well_formed());
    app.next_page();
    app.add_search_char('1');
    app.set_sort_column(SortColumn::Status);
    app.last_item();
    app.start_edit_dns();
    app.dns_edit_state.append_entry();
    app.prepare_dns_config();
    assert!(app.is_well_formed());
    app.cancel_confirm();
    app.refresh_data(vec![iface("lo", None, None, true)], no_dns());
    assert!(app.is_well_formed());
    assert!(App::new(vec![], no_dns()).is_well_formed());
}

#[test]
fn a_broken_state_is_told_apart() {
    let mut wrong_index = three();
    wrong_index.filtered_rows = vec![0, 3];
    assert!(!wrong_index.is_well_formed());
    let mut wrong_selection = three();
    wrong_selection.selected_index = 3;
    assert!(!wrong_selection.is_well_formed());
    let mut no_page = three();
    no_page.page_size = 0;
    assert!(!no_page.is_well_formed());
    let mut dialog_without_action = three();
    dialog_without_action.mode = AppMode::ConfirmDialog;
    assert!(!dialog_without_action.is_well_formed());
    let mut stale_rows = three();
    stale_rows.table_rows[0].name = "other".to_string();
    assert!(!stale_rows.is_well_formed());
    let mut missing_row = three();
    missing_row.table_rows.pop();
    missing_row.filtered_rows = vec![0, 1];
    assert!(!missing_row.is_well_formed());
    let mut wrong_cursor = three();
    wrong_cursor.dns_edit_state.server_index = 1;
    assert!(!wrong_cursor.is_well_formed());
    let mut wrong_scroll = three();
    wrong_scroll.terminal_scroll = 1;
    assert!(!wrong_scroll.is_well_formed());
    let mut empty_selection = App::new(vec![], no_dns());
    empty_selection.selected_index = 9;
    assert!(empty_selection.is_well_formed());
}

fn shown(lines: Vec<Vec<Piece>>) -> Vec<String> {
    lines
        .into_iter()
        .map(|line| {
            line.into_iter()
                .map(|piece| format!("[{:?}]{}", piece.tone, piece.text))
                .collect::<Vec<_>>()
                .join("")
        })
        .collect()
}

#[test]
fn details_screen_lines() {
    let mut full = iface("wlan0", Some("192.168.1.7"), Some("aa:bb"), true);
    full.ssid = Some("home".to_string());
    full.mtu = Some(1500);
    full.ip_addresses[0].broadcast = Some("192.168.1.255".to_string());
    full.ip_addresses.push(InterfaceAddress {
        ip: "fe80::1".to_string(),
        netmask: None,
        broadcast: None,
        v6: true,
    });
    let dns = DnsConfiguration {
        nameservers: vec!["1.1.1.1".to_string(), "8.8.8.8".to_string()],
        search_domains: vec!["lan".to_string()],
    };
    assert_eq!(
        shown(details_lines(&full, &dns)),
        vec![
            "[Label]Interface: [Plain]wlan0",
            "[Label]Type: [Plain]WiFi",
            "[Label]Status: [Good]UP",
            "[Label]MAC Address: [Plain]aa:bb",
            "[Label]WiFi SSID: [Accent]home",
            "[Label]MTU: [Plain]1500",
            "[Plain]",
            "[Heading]IP Addresses:",
            "[Plain]  1. IPv4 [Good]192.168.1.7",
            "[Plain]     Netmask: [Plain]255.255.255.0",
            "[Plain]     Broadcast: [Plain]192.168.1.255",
            "[Plain]  2. IPv6 [Good]fe80::1",
            "[Plain]",
            "[Heading]DNS Configuration:",
            "[Plain]  1. 1.1.1.1",
            "[Plain]  2. 8.8.8.8",
            "[Plain]",
            "[Heading]Search Domains:",
            "[Plain]  - lan",
        ]
    );
    let bare = iface("tun0", None, None, false);
    assert_eq!(
        shown(details_lines(&bare, &no_dns())),
        vec![
            "[Label]Interface: [Plain]tun0",
            "[Label]Type: [Plain]Tunnel/VPN",
            "[Label]Status: [Bad]DOWN",
            "[Label]MAC Address: [Plain]N/A",
            "[Plain]",
            "[Heading]IP Addresses:",
            "[Plain]",
            "[Heading]DNS Configuration:",
        ]
    );
}

#[test]
fn edit_screen_lines() {
    let mut app = three();
    app.start_edit_ip();
    assert_eq!(
        shown(edit_ip_lines("eth0", &app.ip_edit_state)),
        vec![
            "[Field]Interface: [Plain]eth0",
            "[Plain]",
            "[Field]Configuration Mode: [Plain][X] DHCP  [ ] Static",
        ]
    );
    app.ip_edit_state.toggle_mode();
    app.ip_edit_state.tab();
    app.ip_edit_state.tab();
    assert_eq!(
        shown(edit_ip_lines("eth0", &app.ip_edit_state)),
        vec![
            "[Field]Interface: [Plain]eth0",
            "[Plain]",
            "[Field]Configuration Mode: [Plain][ ] DHCP  [X] Static",
            "[Plain]",
            "[Field]IP Address: [Plain]10.0.0.2",
            "[Field]Netmask: [Active]255.255.255.0",
            "[Field]Gateway (optional): [Plain]None",
        ]
    );
    app.ip_edit_state.tab();
    app.ip_edit_state.insert('9');
    assert_eq!(
        shown(edit_ip_lines("eth0", &app.ip_edit_state))[6],
        "[Field]Gateway (optional): [Active]9"
    );

    app.start_edit_dns();
    assert_eq!(
        shown(edit_dns_lines(&app.dns_edit_state)),
        vec![
            "[Heading]DNS Servers:",
            "[Plain]  1. [Chosen]<empty>",
            "[Plain]",
            "[Heading]Search Domains:",
            "[Plain]  (none)",
        ]
    );
    app.dns_edit_state.insert('9');
    app.dns_edit_state.append_entry();
    app.dns_edit_state.switch_section();
    app.dns_edit_state.append_entry();
    app.dns_edit_state.append_entry();
    app.dns_edit_state.insert('x');
    assert_eq!(
        shown(edit_dns_lines(&app.dns_edit_state)),
        vec![
            "[Heading]DNS Servers:",
            "[Plain]  1. [Plain]9",
            "[Plain]  2. [Plain]<empty>",
            "[Plain]",
            "[Heading]Search Domains:",
            "[Plain]  1. [Plain]",
            "[Plain]  2. [Chosen]x",
        ]
    );

    app.start_edit_ipv6();
    app.ipv6_edit_state.enabled = true;
    app.ipv6_edit_state.tab();
    assert_eq!(
        shown(edit_ipv6_lines("eth0", &app.ipv6_edit_state)),
        vec![
            "[Field]Interface: [Plain]eth0",
            "[Plain]",
            "[Field]IPv6 Status: [Plain][X] Enabled  [ ] Disabled",
            "[Plain]",
            "[Field]IPv6 Address (optional for static): ",
            "[Plain]  [Active]Auto (SLAAC)",
            "[Field]Prefix Length: [Plain]64",
        ]
    );
    app.ipv6_edit_state.insert(':');
    app.ipv6_edit_state.tab();
    assert_eq!(
        shown(edit_ipv6_lines("eth0", &app.ipv6_edit_state))[5..],
        ["[Plain]  [Plain]:", "[Field]Prefix Length: [Active]64"]
    );
    app.ipv6_edit_state.toggle_enabled();
    assert_eq!(
        shown(edit_ipv6_lines("eth0", &app.ipv6_edit_state)),
        vec![
            "[Field]Interface: [Plain]eth0",
            "[Plain]",
            "[Field]IPv6 Status: [Plain][ ] Enabled  [X] Disabled",
        ]
    );
}

#[test]
fn window_of_a_list() {
    assert_eq!(window(30, 11, 20), (11, 30));
    assert_eq!(window(30, 0, 20), (0, 20));
    assert_eq!(window(30, 5, 0), (5, 5));
    assert_eq!(window(0, 0, 20), (0, 0));
    assert_eq!(window(3, 7, 20), (3, 3));
    assert_eq!(window(usize::MAX, usize::MAX - 1, usize::MAX), (usize::MAX - 1, usize::MAX));
}
