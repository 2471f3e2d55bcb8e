use netutil::app::{App, AppMode, ConfirmAction};
use netutil::event::{handle_key_event, Effect, KeyCode, KeyEvent};
use netutil::models::{
    DnsConfiguration, InterfaceAddress, InterfaceType, IpConfigMode, NetworkInterface,
    SortColumn,
};

fn plain(code: KeyCode) -> KeyEvent {
    KeyEvent { code, control: false }
}

fn ch(c: char) -> KeyEvent {
    plain(KeyCode::Char(c))
}

fn ctrl(c: char) -> KeyEvent {
    KeyEvent { code: KeyCode::Char(c), control: true }
}

fn press(app: &mut App, key: KeyEvent) -> Effect {
    let effect = handle_key_event(app, key);
    assert_eq!(app.confirm_action.is_some(), app.mode == AppMode::ConfirmDialog);
    effect
}

fn nothing(effect: Effect) {
    assert!(matches!(effect, Effect::Nothing), "{:?}", effect);
}

fn board(n: usize) -> App {
    let list = (0..n)
        .map(|i| NetworkInterface {
            name: format!("eth{}", i),
            interface_type: InterfaceType::Ethernet,
            ip_addresses: vec![InterfaceAddress {
                ip: format!("10.0.0.{}", i + 1),
                netmask: None,
                broadcast: None,
                v6: false,
            }],
            mac_address: Some(format!("00:00:00:00:00:0{}", i)),
            is_up: i % 2 == 0,
            is_loopback: false,
            mtu: None,
            ipv6_enabled: false,
            ssid: None,
        })
        .collect();
    App::new(list, DnsConfiguration { nameservers: vec![], search_domains: vec![] })
}

#[test]
fn q_quits_in_normal_mode() {
    let mut app = board(3);
    nothing(press(&mut app, ch('q')));
    assert!(app.should_quit);
    let mut other = board(3);
    nothing(press(&mut other, ch('Q')));
    assert!(other.should_quit);
}

#[test]
fn navigation_keys_move_the_selection_and_clear_the_status() {
    let mut app = board(50);
    app.set_status("old".to_string());
    nothing(press(&mut app, ch('j')));
    assert_eq!(app.selected_index, 1);
    assert!(app.status_message.is_none());
    nothing(press(&mut app, plain(KeyCode::Down)));
    assert_eq!(app.selected_index, 2);
    nothing(press(&mut app, ch('k')));
    nothing(press(&mut app, plain(KeyCode::Up)));
    assert_eq!(app.selected_index, 0);
    nothing(press(&mut app, ctrl('d')));
    assert_eq!(app.selected_index, 20);
    nothing(press(&mut app, plain(KeyCode::PageDown)));
    assert_eq!(app.selected_index, 40);
    nothing(press(&mut app, ctrl('u')));
    assert_eq!(app.selected_index, 20);
    nothing(press(&mut app, plain(KeyCode::PageUp)));
    assert_eq!(app.selected_index, 0);
    nothing(press(&mut app, ch('G')));
    assert_eq!(app.selected_index, 49);
    nothing(press(&mut app, ch('g')));
    assert_eq!((app.selected_index, app.scroll_offset), (0, 0));
    nothing(press(&mut app, plain(KeyCode::End)));
    assert_eq!(app.selected_index, 49);
    nothing(press(&mut app, plain(KeyCode::Home)));
    assert_eq!((app.selected_index, app.scroll_offset), (0, 0));
    nothing(press(&mut app, ch('u')));
    assert_eq!(app.selected_index, 0);
}

#[test]
fn s_cycles_the_sort_column() {
    let mut app = board(3);
    app.sort_ascending = false;
    nothing(press(&mut app, ch('s')));
    assert_eq!(app.sort_column, SortColumn::Type);
    assert!(!app.sort_ascending);
    assert_eq!(app.status_message.as_deref(), Some("Sorted by Type"));
    nothing(press(&mut app, ch('S')));
    nothing(press(&mut app, ch('S')));
    assert_eq!(app.sort_column, SortColumn::Status);
    assert_eq!(app.status_message.as_deref(), Some("Sorted by Status"));
    assert_eq!(app.filtered_rows, vec![2, 0, 1]);
}

#[test]
fn slash_enters_search_and_typing_filters() {
    let mut app = board(12);
    nothing(press(&mut app, ch('/')));
    assert_eq!(app.mode, AppMode::Search);
    nothing(press(&mut app, ch('1')));
    nothing(press(&mut app, ch('1')));
    assert_eq!(app.search_query, "11");
    assert_eq!(app.filtered_rows, vec![10, 11]);
    nothing(press(&mut app, plain(KeyCode::Backspace)));
    assert_eq!(app.search_query, "1");
    nothing(press(&mut app, ch('q')));
    assert_eq!(app.search_query, "1q");
    assert!(!app.should_quit);
    nothing(press(&mut app, plain(KeyCode::Enter)));
    assert_eq!(app.mode, AppMode::Normal);
    assert_eq!(app.search_query, "1q");
    nothing(press(&mut app, plain(KeyCode::Esc)));
    assert_eq!(app.search_query, "");
    assert_eq!(app.filtered_rows.len(), 12);
    nothing(press(&mut app, ch('/')));
    nothing(press(&mut app, plain(KeyCode::Esc)));
    assert_eq!(app.mode, AppMode::Normal);
}

#[test]
fn r_asks_for_a_refresh() {
    let mut app = board(3);
    assert!(matches!(press(&mut app, ch('r')), Effect::Refresh(true)));
    assert!(matches!(press(&mut app, ch('R')), Effect::Refresh(true)));
    assert!(app.status_message.is_none());
}

#[test]
fn copy_keys_ask_for_the_clipboard() {
    let mut app = board(3);
    app.selected_index = 1;
    match press(&mut app, ch('c')) {
        Effect::Copy { field, text } => {
            assert_eq!(field, "Interface");
            assert_eq!(text, "eth1");
        }
        other => panic!("unexpected effect {:?}", other),
    }
    match press(&mut app, ctrl('i')) {
        Effect::Copy { field, text } => {
            assert_eq!(field, "IP Address");
            assert_eq!(text, "10.0.0.2");
        }
        other => panic!("unexpected effect {:?}", other),
    }
    match press(&mut app, ctrl('m')) {
        Effect::Copy { field, text } => {
            assert_eq!(field, "MAC Address");
            assert_eq!(text, "00:00:00:00:00:01");
        }
        other => panic!("unexpected effect {:?}", other),
    }
    let mut empty = board(0);
    nothing(press(&mut empty, ch('c')));
    assert!(empty.status_message.is_none());
}

#[test]
fn help_and_details_come_and_go() {
    let mut app = board(3);
    nothing(press(&mut app, ch('?')));
    assert_eq!(app.mode, AppMode::Help);
    nothing(press(&mut app, ch('x')));
    assert_eq!(app.mode, AppMode::Help);
    nothing(press(&mut app, ch('?')));
    assert_eq!(app.mode, AppMode::Normal);
    nothing(press(&mut app, ch('?')));
    nothing(press(&mut app, ch('q')));
    assert_eq!(app.mode, AppMode::Normal);
    assert!(!app.should_quit);
    nothing(press(&mut app, ch('i')));
    assert_eq!(app.mode, AppMode::Details);
    nothing(press(&mut app, plain(KeyCode::Esc)));
    assert_eq!(app.mode, AppMode::Normal);
    nothing(press(&mut app, ch('I')));
    assert_eq!(app.mode, AppMode::Details);
    nothing(press(&mut app, ch('q')));
    assert_eq!(app.mode, AppMode::Normal);
    nothing(press(&mut app, ch('i')));
    nothing(press(&mut app, ch('e')));
    assert_eq!(app.mode, AppMode::EditIp);
    app.mode = AppMode::Details;
    nothing(press(&mut app, ch('d')));
    assert_eq!(app.mode, AppMode::EditDns);
    app.mode = AppMode::Details;
    nothing(press(&mut app, ch('6')));
    assert_eq!(app.mode, AppMode::EditIpv6);
}

#[test]
fn ip_session_by_keys() {
    let mut app = board(3);
    nothing(press(&mut app, ch('e')));
    assert_eq!(app.mode, AppMode::EditIp);
    nothing(press(&mut app, ch('x')));
    assert_eq!(app.ip_edit_state.ip_buffer, "10.0.0.1");
    nothing(press(&mut app, ch(' ')));
    assert_eq!(app.ip_edit_state.mode, IpConfigMode::Static);
    nothing(press(&mut app, plain(KeyCode::Tab)));
    nothing(press(&mut app, plain(KeyCode::Backspace)));
    nothing(press(&mut app, ch('9')));
    nothing(press(&mut app, ch(' ')));
    assert_eq!(app.ip_edit_state.ip_buffer, "10.0.0.9 ");
    nothing(press(&mut app, plain(KeyCode::Backspace)));
    nothing(press(&mut app, plain(KeyCode::Tab)));
    nothing(press(&mut app, plain(KeyCode::Tab)));
    nothing(press(&mut app, plain(KeyCode::Tab)));
    assert_eq!(app.ip_edit_state.current_field, 3);
    nothing(press(&mut app, ch('1')));
    nothing(press(&mut app, plain(KeyCode::BackTab)));
    assert_eq!(app.ip_edit_state.current_field, 2);
    nothing(press(&mut app, plain(KeyCode::Enter)));
    assert_eq!(app.mode, AppMode::ConfirmDialog);
    match &app.confirm_action {
        Some(ConfirmAction::SetStaticIp(name, ip, mask, gw)) => {
            assert_eq!(name, "eth0");
            assert_eq!(ip, "10.0.0.9");
            assert_eq!(mask, "255.255.255.0");
            assert_eq!(gw.as_deref(), Some("1"));
        }
        other => panic!("unexpected action {:?}", other),
    }
}

#[test]
fn ip_session_in_dhcp_mode_asks_for_dhcp() {
    let mut app = board(3);
    nothing(press(&mut app, ch('e')));
    nothing(press(&mut app, plain(KeyCode::Enter)));
    assert!(matches!(&app.confirm_action, Some(ConfirmAction::SetDhcp(n)) if n == "eth0"));
    nothing(press(&mut app, plain(KeyCode::Esc)));
    assert_eq!(app.mode, AppMode::Normal);
    nothing(press(&mut app, ch('e')));
    nothing(press(&mut app, plain(KeyCode::Esc)));
    assert_eq!(app.mode, AppMode::Normal);
    assert!(app.confirm_action.is_none());
}

#[test]
fn dns_session_by_keys() {
    let mut app = board(3);
    nothing(press(&mut app, ch('d')));
    assert_eq!(app.mode, AppMode::EditDns);
    assert_eq!(app.dns_edit_state.dns_servers, vec![""]);
    for c in "9.9.9.9".chars() {
        nothing(press(&mut app, ch(c)));
    }
    nothing(press(&mut app, ch('a')));
    nothing(press(&mut app, ch('1')));
    nothing(press(&mut app, plain(KeyCode::Enter)));
    assert_eq!(app.mode, AppMode::EditDns);
    assert_eq!(app.dns_edit_state.dns_servers, vec!["9.9.9.9", "1"]);
    nothing(press(&mut app, ch('k')));
    assert_eq!(app.dns_edit_state.server_index, 0);
    nothing(press(&mut app, plain(KeyCode::Down)));
    nothing(press(&mut app, ch('j')));
    assert_eq!(app.dns_edit_state.server_index, 1);
    nothing(press(&mut app, plain(KeyCode::Up)));
    nothing(press(&mut app, ch('x')));
    assert_eq!(app.dns_edit_state.dns_servers, vec!["1"]);
    nothing(press(&mut app, plain(KeyCode::Backspace)));
    nothing(press(&mut app, ch('s')));
    assert_eq!(app.dns_edit_state.dns_servers, vec!["s"]);
    nothing(press(&mut app, plain(KeyCode::Tab)));
    assert_eq!(app.dns_edit_state.current_field, 1);
    nothing(press(&mut app, ch('l')));
    assert!(app.dns_edit_state.search_domains.is_empty());
    nothing(press(&mut app, ch('a')));
    nothing(press(&mut app, ch('l')));
    assert_eq!(app.dns_edit_state.search_domains, vec!["l"]);
    nothing(press(&mut app, ctrl('s')));
    assert_eq!(app.mode, AppMode::ConfirmDialog);
    assert!(matches!(
        &app.confirm_action,
        Some(ConfirmAction::SetDns(s, d)) if s == &vec!["s"] && d == &vec!["l"]
    ));
}

#[test]
fn ipv6_session_by_keys() {
    let mut app = board(3);
    nothing(press(&mut app, ch('6')));
    assert_eq!(app.mode, AppMode::EditIpv6);
    assert!(!app.ipv6_edit_state.enabled);
    nothing(press(&mut app, plain(KeyCode::Tab)));
    assert_eq!(app.ipv6_edit_state.current_field, 0);
    nothing(press(&mut app, ch('z')));
    nothing(press(&mut app, ch(' ')));
    assert!(app.ipv6_edit_state.enabled);
    nothing(press(&mut app, plain(KeyCode::Tab)));
    for c in "::5".chars() {
        nothing(press(&mut app, ch(c)));
    }
    nothing(press(&mut app, plain(KeyCode::Tab)));
    nothing(press(&mut app, plain(KeyCode::Backspace)));
    nothing(press(&mut app, plain(KeyCode::Backspace)));
    nothing(press(&mut app, ch('5')));
    nothing(press(&mut app, ch('6')));
    nothing(press(&mut app, plain(KeyCode::BackTab)));
    assert_eq!(app.ipv6_edit_state.current_field, 1);
    nothing(press(&mut app, plain(KeyCode::Enter)));
    assert!(matches!(
        &app.confirm_action,
        Some(ConfirmAction::SetStaticIpv6(n, ip, 56)) if n == "eth0" && ip == "::5"
    ));
}

#[test]
fn confirm_dialog_executes_or_cancels() {
    let mut app = board(3);
    nothing(press(&mut app, ch('t')));
    assert_eq!(app.mode, AppMode::ConfirmDialog);
    nothing(press(&mut app, ch('q')));
    nothing(press(&mut app, ch('j')));
    assert_eq!(app.mode, AppMode::ConfirmDialog);
    assert_eq!(app.selected_index, 0);
    match press(&mut app, plain(KeyCode::Enter)) {
        Effect::Execute(ConfirmAction::ToggleInterface(name, up)) => {
            assert_eq!(name, "eth0");
            assert!(!up);
        }
        other => panic!("unexpected effect {:?}", other),
    }
    assert_eq!(app.mode, AppMode::Normal);
    assert!(app.confirm_action.is_none());
    nothing(press(&mut app, ch('t')));
    nothing(press(&mut app, plain(KeyCode::Esc)));
    assert_eq!(app.mode, AppMode::Normal);
    assert!(app.confirm_action.is_none());
    assert!(app.status_message.is_none());
}

#[test]
fn control_f_asks_for_a_flush_without_confirmation() {
    let mut app = board(3);
    assert!(matches!(press(&mut app, ctrl('f')), Effect::FlushDnsCache));
    assert_eq!(app.mode, AppMode::Normal);
    nothing(press(&mut app, ch('f')));
}

#[test]
fn terminal_by_keys() {
    let mut app = board(3);
    nothing(press(&mut app, ch('x')));
    assert_eq!(app.mode, AppMode::Terminal);
    nothing(press(&mut app, plain(KeyCode::Enter)));
    assert!(app.terminal_output.is_empty());
    for c in "echo hix".chars() {
        nothing(press(&mut app, ch(c)));
    }
    nothing(press(&mut app, plain(KeyCode::Backspace)));
    match press(&mut app, plain(KeyCode::Enter)) {
        Effect::Run(command) => {
            assert_eq!(command.program, "echo");
            assert_eq!(command.args, vec!["hi"]);
        }
        other => panic!("unexpected effect {:?}", other),
    }
    assert_eq!(app.terminal_output, vec!["$ echo hi"]);
    nothing(press(&mut app, plain(KeyCode::Up)));
    nothing(press(&mut app, plain(KeyCode::Down)));
    assert_eq!(app.terminal_scroll, 0);
    nothing(press(&mut app, ch('l')));
    assert_eq!(app.terminal_command, "echo hil");
    nothing(press(&mut app, ctrl('l')));
    assert!(app.terminal_needs_clear);
    assert!(app.terminal_output.is_empty());
    assert_eq!(app.terminal_command, "");
    nothing(press(&mut app, plain(KeyCode::Esc)));
    assert_eq!(app.mode, AppMode::Normal);
}

#[test]
fn unknown_keys_change_nothing() {
    for mode in [
        AppMode::Normal,
        AppMode::Search,
        AppMode::EditIp,
        AppMode::EditDns,
        AppMode::EditIpv6,
        AppMode::Details,
        AppMode::Help,
        AppMode::Terminal,
    ] {
        let mut app = board(3);
        app.mode = mode;
        nothing(press(&mut app, plain(KeyCode::Other)));
        assert_eq!(app.mode, mode);
        assert_eq!(app.selected_index, 0);
        assert!(app.status_message.is_none());
    }
}
