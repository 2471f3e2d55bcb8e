//! The application state and its operations: selection and scrolling, search
//! and sort, the start of each edit session, the confirmation dialog and the
//! mini-shell. Outside work (fetching, privileged commands, the clipboard,
//! processes) is never done here: an operation hands out what is to be done
//! and a second one takes the outcome.

use vstd::prelude::*;
use vstd::string::*;
use crate::event::KeyEvent;
use crate::edit::{
    DnsEditState, DnsEditView, IpEditState, IpEditView, Ipv6EditState, Ipv6EditView,
};
use crate::models::{
    addresses, field_of, interfaces_view, project, rows_view, AddressView, DnsConfiguration,
    DnsView, InterfaceAddress, InterfaceTableRow, InterfaceView, IpConfigMode,
    NetworkInterface, RowView, SortColumn,
};
use crate::rows::{filter_rows, filtered, identity, row_order, sort_indices, stable_sort};
use crate::text::{
    clone_texts, concat2, concat3, decimal, digits, extend_texts, join,
    joined, lines, non_empty, opt_text, parse_u8, parsed_u8, pop_char, push_char, signed_decimal,
    signed_digits, split_lines, split_whitespace, texts, words,
};

verus! {

/// What the keyboard currently drives.
#[derive(Debug, Clone, Copy, PartialEq, Eq, Structural)]
pub enum AppMode {
    Normal,
    Search,
    EditIp,
    EditDns,
    EditIpv6,
    Details,
    Help,
    ConfirmDialog,
    Terminal,
}

/// A change to the system that waits for confirmation, with every value it
/// will be carried out with.
#[derive(Debug, Clone)]
pub enum ConfirmAction {
    SetDhcp(String),
    SetStaticIp(String, String, String, Option<String>),
    SetDns(Vec<String>, Vec<String>),
    ToggleInterface(String, bool),
    DisableIpv6(String),
    EnableIpv6(String),
    SetStaticIpv6(String, String, u8),
}

/// The view of a [`ConfirmAction`]: the same variants over texts.
pub enum ConfirmActionView {
    SetDhcp(Seq<char>),
    SetStaticIp(Seq<char>, Seq<char>, Seq<char>, Option<Seq<char>>),
    SetDns(Seq<Seq<char>>, Seq<Seq<char>>),
    ToggleInterface(Seq<char>, bool),
    DisableIpv6(Seq<char>),
    EnableIpv6(Seq<char>),
    SetStaticIpv6(Seq<char>, Seq<char>, u8),
}

impl View for ConfirmAction {
    type V = ConfirmActionView;

    open spec fn view(&self) -> ConfirmActionView {
        match *self {
            ConfirmAction::SetDhcp(iface) => ConfirmActionView::SetDhcp(iface@),
            ConfirmAction::SetStaticIp(iface, ip, netmask, gateway) => {
                ConfirmActionView::SetStaticIp(iface@, ip@, netmask@, opt_text(gateway))
            },
            ConfirmAction::SetDns(servers, domains) => ConfirmActionView::SetDns(
                texts(servers@),
                texts(domains@),
            ),
            ConfirmAction::ToggleInterface(iface, up) => ConfirmActionView::ToggleInterface(
                iface@,
                up,
            ),
            ConfirmAction::DisableIpv6(iface) => ConfirmActionView::DisableIpv6(iface@),
            ConfirmAction::EnableIpv6(iface) => ConfirmActionView::EnableIpv6(iface@),
            ConfirmAction::SetStaticIpv6(iface, ip, prefix) => ConfirmActionView::SetStaticIpv6(
                iface@,
                ip@,
                prefix,
            ),
        }
    }
}

/// The view of an optional action.
pub open spec fn opt_action(a: Option<ConfirmAction>) -> Option<ConfirmActionView> {
    match a {
        Some(action) => Some(action@),
        None => None,
    }
}

/// The whole state of the dashboard.
pub struct App {
    pub interfaces: Vec<NetworkInterface>,
    pub dns_config: DnsConfiguration,
    pub table_rows: Vec<InterfaceTableRow>,
    pub filtered_rows: Vec<usize>,
    pub selected_index: usize,
    pub scroll_offset: usize,
    pub mode: AppMode,
    pub search_query: String,
    pub sort_column: SortColumn,
    pub sort_ascending: bool,
    pub page_size: usize,
    pub should_quit: bool,
    pub status_message: Option<String>,
    pub ip_edit_state: IpEditState,
    pub dns_edit_state: DnsEditState,
    pub ipv6_edit_state: Ipv6EditState,
    pub confirm_message: String,
    pub confirm_action: Option<ConfirmAction>,
    pub terminal_command: String,
    pub terminal_output: Vec<String>,
    pub terminal_scroll: usize,
    pub terminal_needs_clear: bool,
}

/// The view of the [`App`]: every field as a mathematical value.
pub struct AppView {
    pub interfaces: Seq<InterfaceView>,
    pub dns_config: DnsView,
    pub table_rows: Seq<RowView>,
    pub filtered_rows: Seq<usize>,
    pub selected_index: usize,
    pub scroll_offset: usize,
    pub mode: AppMode,
    pub search_query: Seq<char>,
    pub sort_column: SortColumn,
    pub sort_ascending: bool,
    pub page_size: usize,
    pub should_quit: bool,
    pub status_message: Option<Seq<char>>,
    pub ip_edit_state: IpEditView,
    pub dns_edit_state: DnsEditView,
    pub ipv6_edit_state: Ipv6EditView,
    pub confirm_message: Seq<char>,
    pub confirm_action: Option<ConfirmActionView>,
    pub terminal_command: Seq<char>,
    pub terminal_output: Seq<Seq<char>>,
    pub terminal_scroll: usize,
    pub terminal_needs_clear: bool,
}

impl View for App {
    type V = AppView;

    open spec fn view(&self) -> AppView {
        AppView {
            interfaces: interfaces_view(self.interfaces@),
            dns_config: self.dns_config@,
            table_rows: rows_view(self.table_rows@),
            filtered_rows: self.filtered_rows@,
            selected_index: self.selected_index,
            scroll_offset: self.scroll_offset,
            mode: self.mode,
            search_query: self.search_query@,
            sort_column: self.sort_column,
            sort_ascending: self.sort_ascending,
            page_size: self.page_size,
            should_quit: self.should_quit,
            status_message: opt_text(self.status_message),
            ip_edit_state: self.ip_edit_state@,
            dns_edit_state: self.dns_edit_state@,
            ipv6_edit_state: self.ipv6_edit_state@,
            confirm_message: self.confirm_message@,
            confirm_action: opt_action(self.confirm_action),
            terminal_command: self.terminal_command@,
            terminal_output: texts(self.terminal_output@),
            terminal_scroll: self.terminal_scroll,
            terminal_needs_clear: self.terminal_needs_clear,
        }
    }
}

/// A command for the mini-shell to run: a program and its arguments.
#[derive(Debug, Clone)]
pub struct ShellCommand {
    pub program: String,
    pub args: Vec<String>,
}

/// The view of a [`ShellCommand`].
pub struct ShellCommandView {
    pub program: Seq<char>,
    pub args: Seq<Seq<char>>,
}

impl View for ShellCommand {
    type V = ShellCommandView;

    open spec fn view(&self) -> ShellCommandView {
        ShellCommandView { program: self.program@, args: texts(self.args@) }
    }
}

/// What a finished process left behind.
#[derive(Debug, Clone)]
pub struct CommandOutput {
    pub stdout: String,
    pub stderr: String,
    pub success: bool,
    pub code: Option<i32>,
}

/// The view of a [`CommandOutput`].
pub struct CommandOutputView {
    pub stdout: Seq<char>,
    pub stderr: Seq<char>,
    pub success: bool,
    pub code: Option<i32>,
}

impl View for CommandOutput {
    type V = CommandOutputView;

    open spec fn view(&self) -> CommandOutputView {
        CommandOutputView {
            stdout: self.stdout@,
            stderr: self.stderr@,
            success: self.success,
            code: self.code,
        }
    }
}

/// The view of how a process run ended: its output, or why it did not start.
pub open spec fn run_outcome(outcome: Result<CommandOutput, String>) -> Result<
    CommandOutputView,
    Seq<char>,
> {
    match outcome {
        Ok(output) => Ok(output@),
        Err(error) => Err(error@),
    }
}

/// The view of how outside work without a result ended.
pub open spec fn plain_outcome(outcome: Result<(), String>) -> Result<(), Seq<char>> {
    match outcome {
        Ok(_) => Ok(()),
        Err(error) => Err(error@),
    }
}

/// The question asked before an interface is set to DHCP.
pub open spec fn dhcp_question(name: Seq<char>) -> Seq<char> {
    "Set interface '"@ + name + "' to use DHCP?\nThis will remove any static IP configuration."@
}

/// The question asked before a static address is set.
pub open spec fn static_ip_question(
    name: Seq<char>,
    ip: Seq<char>,
    netmask: Seq<char>,
    gateway: Option<Seq<char>>,
) -> Seq<char> {
    "Set static IP on '"@ + name + "'?\nIP: "@ + ip + "\nNetmask: "@ + netmask + "\nGateway: "@
        + match gateway {
        Some(g) => g,
        None => "None"@,
    }
}

/// The question asked before the DNS configuration is written.
pub open spec fn dns_question(servers: Seq<Seq<char>>, domains: Seq<Seq<char>>) -> Seq<char> {
    "Update DNS configuration?\nServers: "@ + joined(servers, ", "@) + "\nSearch domains: "@
        + if domains.len() == 0 {
        "None"@
    } else {
        joined(domains, ", "@)
    }
}

/// The question asked before an interface is brought up or down.
pub open spec fn toggle_question(name: Seq<char>, up: bool) -> Seq<char> {
    (if up {
        "Enable"@
    } else {
        "Disable"@
    }) + " interface '"@ + name + "'?"@
}

/// The question asked before IPv6 is switched off.
pub open spec fn disable_ipv6_question(name: Seq<char>) -> Seq<char> {
    "Disable IPv6 on '"@ + name + "'?"@
}

/// The question asked before IPv6 is switched on.
pub open spec fn enable_ipv6_question(name: Seq<char>) -> Seq<char> {
    "Enable IPv6 on '"@ + name + "'?"@
}

/// The question asked before a static IPv6 address is set.
pub open spec fn static_ipv6_question(name: Seq<char>, ip: Seq<char>, prefix: u8) -> Seq<char> {
    "Set static IPv6 on '"@ + name + "'?\nAddress: "@ + ip + "/"@ + digits(prefix as nat)
}

/// The question that is asked before an action is carried out. It shows
/// every value the action will be carried out with.
pub open spec fn question_of(action: ConfirmActionView) -> Seq<char> {
    match action {
        ConfirmActionView::SetDhcp(iface) => dhcp_question(iface),
        ConfirmActionView::SetStaticIp(iface, ip, netmask, gateway) => static_ip_question(
            iface,
            ip,
            netmask,
            gateway,
        ),
        ConfirmActionView::SetDns(servers, domains) => dns_question(servers, domains),
        ConfirmActionView::ToggleInterface(iface, up) => toggle_question(iface, up),
        ConfirmActionView::DisableIpv6(iface) => disable_ipv6_question(iface),
        ConfirmActionView::EnableIpv6(iface) => enable_ipv6_question(iface),
        ConfirmActionView::SetStaticIpv6(iface, ip, prefix) => static_ipv6_question(
            iface,
            ip,
            prefix,
        ),
    }
}

impl ConfirmAction {
    /// The question that is asked before this action is carried out.
    pub fn question(&self) -> (text: String)
        ensures
            text@ == question_of(self@),
    {
        match self {
            ConfirmAction::SetDhcp(iface) => concat3(
                "Set interface '",
                iface.as_str(),
                "' to use DHCP?\nThis will remove any static IP configuration.",
            ),
            ConfirmAction::SetStaticIp(iface, ip, netmask, gateway) => {
                let mut text = concat3("Set static IP on '", iface.as_str(), "'?\nIP: ");
                text.append(ip.as_str());
                text.append("\nNetmask: ");
                text.append(netmask.as_str());
                text.append("\nGateway: ");
                match gateway {
                    Some(g) => text.append(g.as_str()),
                    None => text.append("None"),
                }
                text
            },
            ConfirmAction::SetDns(servers, domains) => {
                let mut text = concat3(
                    "Update DNS configuration?\nServers: ",
                    join(servers, ", ").as_str(),
                    "\nSearch domains: ",
                );
                assert(texts(domains@).len() == domains.len());
                if domains.len() == 0 {
                    text.append("None");
                } else {
                    text.append(join(domains, ", ").as_str());
                }
                text
            },
            ConfirmAction::ToggleInterface(iface, up) => {
                let mut text = if *up {
                    String::from_str("Enable")
                } else {
                    String::from_str("Disable")
                };
                text.append(" interface '");
                text.append(iface.as_str());
                text.append("'?");
                text
            },
            ConfirmAction::DisableIpv6(iface) => concat3(
                "Disable IPv6 on '",
                iface.as_str(),
                "'?",
            ),
            ConfirmAction::EnableIpv6(iface) => concat3("Enable IPv6 on '", iface.as_str(), "'?"),
            ConfirmAction::SetStaticIpv6(iface, ip, prefix) => {
                let mut text = concat3("Set static IPv6 on '", iface.as_str(), "'?\nAddress: ");
                text.append(ip.as_str());
                text.append("/");
                text.append(decimal(*prefix as u128).as_str());
                text
            },
        }
    }
}

/// The prefix length that the prefix buffer gives: what it reads as, or 64
/// where it does not read as a number.
pub open spec fn prefix_of(buffer: Seq<char>) -> u8 {
    match parsed_u8(buffer) {
        Some(p) => p,
        None => 64,
    }
}

/// The status shown after an action was carried out.
pub open spec fn done_message(action: ConfirmActionView) -> Seq<char> {
    match action {
        ConfirmActionView::SetDhcp(iface) => "DHCP enabled on "@ + iface,
        ConfirmActionView::SetStaticIp(iface, _, _, _) => "Static IP set on "@ + iface,
        ConfirmActionView::SetDns(_, _) => "DNS configuration updated"@,
        ConfirmActionView::ToggleInterface(iface, up) => "Interface "@ + iface + " "@ + if up {
            "enabled"@
        } else {
            "disabled"@
        },
        ConfirmActionView::DisableIpv6(iface) => "IPv6 disabled on "@ + iface,
        ConfirmActionView::EnableIpv6(iface) => "IPv6 enabled on "@ + iface,
        ConfirmActionView::SetStaticIpv6(iface, _, _) => "Static IPv6 set on "@ + iface,
    }
}

/// The lines that a finished run adds to the log: the lines of its output,
/// those of its error output marked as such, and its exit code if it failed;
/// or one line that says why it did not start.
pub open spec fn run_report(outcome: Result<CommandOutputView, Seq<char>>) -> Seq<Seq<char>> {
    match outcome {
        Ok(output) => lines(output.stdout) + lines(output.stderr).map_values(
            |l: Seq<char>| "ERROR: "@ + l,
        ) + if output.success {
            Seq::empty()
        } else {
            seq![
                "Command exited with status: "@ + signed_digits(
                    match output.code {
                        Some(code) => code as int,
                        None => -1,
                    },
                ),
            ]
        },
        Err(error) => seq!["Failed to execute command: "@ + error],
    }
}

/// The number of lines of the mini-shell's log that are shown at once.
pub const TERMINAL_WINDOW: usize = 20;

/// The least offset at which a page of `page_size` rows shows the row
/// `selected`: the selection is the last row of the page, or the page
/// starts at the top where the selection is less than a page down.
pub open spec fn least_offset(selected: usize, page_size: usize) -> usize {
    if selected + 1 >= page_size {
        (selected + 1 - page_size) as usize
    } else {
        0
    }
}

/// The rows of a list of interfaces under a DNS snapshot, one each, in order.
pub open spec fn projections(interfaces: Seq<InterfaceView>, dns: DnsView) -> Seq<RowView> {
    Seq::new(interfaces.len(), |k: int| project(interfaces[k], dns))
}

/// The first interface of the list that bears the name.
pub open spec fn first_named(interfaces: Seq<InterfaceView>, name: Seq<char>) -> Option<
    InterfaceView,
>
    decreases interfaces.len(),
{
    if interfaces.len() == 0 {
        None
    } else if interfaces[0].name == name {
        Some(interfaces[0])
    } else {
        first_named(interfaces.drop_first(), name)
    }
}

/// The first address of the list that is IPv6 (`v6` true) or IPv4 (false).
pub open spec fn first_address(addresses: Seq<AddressView>, v6: bool) -> Option<AddressView>
    decreases addresses.len(),
{
    if addresses.len() == 0 {
        None
    } else if addresses[0].v6 == v6 {
        Some(addresses[0])
    } else {
        first_address(addresses.drop_first(), v6)
    }
}

impl AppView {
    /// The shown indices all point into the row list.
    pub open spec fn rows_in_range(self) -> bool {
        forall|k: int|
            0 <= k < self.filtered_rows.len() ==> (#[trigger] self.filtered_rows[k])
                < self.table_rows.len()
    }

    /// What holds of the state between any two key presses.
    pub open spec fn wf(self) -> bool {
        &&& self.table_rows == projections(self.interfaces, self.dns_config)
        &&& self.rows_in_range()
        &&& (self.filtered_rows.len() > 0 ==> self.selected_index < self.filtered_rows.len())
        &&& self.page_size > 0
        &&& (self.confirm_action is Some <==> self.mode == AppMode::ConfirmDialog)
        &&& (self.confirm_action is Some ==> self.confirm_message == question_of(
            self.confirm_action->0,
        ))
        &&& self.dns_edit_state.wf()
        &&& (self.terminal_scroll == 0 || self.terminal_scroll + TERMINAL_WINDOW
            <= self.terminal_output.len())
    }

    /// The selection is inside the scrolled page.
    pub open spec fn selection_visible(self) -> bool {
        self.scroll_offset <= self.selected_index < self.scroll_offset + self.page_size
    }

    /// The page starts as early as it can while it shows the selection.
    pub open spec fn scroll_is_least(self) -> bool {
        self.scroll_offset == least_offset(self.selected_index, self.page_size)
    }

    /// The state right after start-up.
    pub open spec fn initial(interfaces: Seq<InterfaceView>, dns: DnsView) -> AppView {
        AppView {
            interfaces,
            dns_config: dns,
            table_rows: projections(interfaces, dns),
            filtered_rows: identity(interfaces.len()),
            selected_index: 0,
            scroll_offset: 0,
            mode: AppMode::Normal,
            search_query: Seq::empty(),
            sort_column: SortColumn::Interface,
            sort_ascending: true,
            page_size: 20,
            should_quit: false,
            status_message: None,
            ip_edit_state: IpEditView {
                mode: IpConfigMode::DHCP,
                ip_buffer: Seq::empty(),
                netmask_buffer: Seq::empty(),
                gateway_buffer: Seq::empty(),
                current_field: 0,
            },
            dns_edit_state: DnsEditView {
                dns_servers: Seq::empty(),
                search_domains: Seq::empty(),
                current_field: 0,
                server_index: 0,
                domain_index: 0,
                edit_buffer: Seq::empty(),
            },
            ipv6_edit_state: Ipv6EditView {
                enabled: true,
                ip_buffer: Seq::empty(),
                prefix_buffer: "64"@,
                current_field: 0,
            },
            confirm_message: Seq::empty(),
            confirm_action: None,
            terminal_command: Seq::empty(),
            terminal_output: Seq::empty(),
            terminal_scroll: 0,
            terminal_needs_clear: false,
        }
    }

    /// The shown rows recomputed from the search query; a selection that
    /// falls behind the new list moves to its last row.
    pub open spec fn apply_filter(self) -> AppView {
        let shown = filtered(self.table_rows, self.search_query);
        AppView {
            filtered_rows: shown,
            selected_index: if self.selected_index >= shown.len() && shown.len() > 0 {
                (shown.len() - 1) as usize
            } else {
                self.selected_index
            },
            ..self
        }
    }

    /// The shown rows put in the order of the sort column.
    pub open spec fn apply_sort(self) -> AppView {
        AppView {
            filtered_rows: stable_sort(
                self.filtered_rows,
                row_order(self.table_rows, self.sort_column, self.sort_ascending),
            ),
            ..self
        }
    }

    /// New snapshots taken over whole, the rows rebuilt, and the current
    /// query and sort applied again.
    pub open spec fn refresh_data(self, interfaces: Seq<InterfaceView>, dns: DnsView) -> AppView {
        AppView {
            interfaces,
            dns_config: dns,
            table_rows: projections(interfaces, dns),
            ..self
        }.apply_filter().apply_sort()
    }

    /// The page put at the least offset at which it shows the selection.
    pub open spec fn adjust_scroll(self) -> AppView {
        AppView { scroll_offset: least_offset(self.selected_index, self.page_size), ..self }
    }

    /// One row down, from the last row round to the first.
    pub open spec fn next_item(self) -> AppView {
        if self.filtered_rows.len() > 0 {
            AppView {
                selected_index: ((self.selected_index + 1) % (
                self.filtered_rows.len() as int)) as usize,
                ..self
            }.adjust_scroll()
        } else {
            self
        }
    }

    /// One row up, from the first row round to the last.
    pub open spec fn previous_item(self) -> AppView {
        if self.filtered_rows.len() > 0 {
            AppView {
                selected_index: if self.selected_index == 0 {
                    (self.filtered_rows.len() - 1) as usize
                } else {
                    (self.selected_index - 1) as usize
                },
                ..self
            }.adjust_scroll()
        } else {
            self
        }
    }

    /// One page down, stopping at the last row.
    pub open spec fn next_page(self) -> AppView {
        if self.filtered_rows.len() > 0 {
            AppView {
                selected_index: if self.selected_index + self.page_size
                    < self.filtered_rows.len() {
                    (self.selected_index + self.page_size) as usize
                } else {
                    (self.filtered_rows.len() - 1) as usize
                },
                ..self
            }.adjust_scroll()
        } else {
            self
        }
    }

    /// One page up, stopping at the first row.
    pub open spec fn previous_page(self) -> AppView {
        AppView {
            selected_index: if self.selected_index >= self.page_size {
                (self.selected_index - self.page_size) as usize
            } else {
                0
            },
            ..self
        }.adjust_scroll()
    }

    /// To the first row.
    pub open spec fn first_item(self) -> AppView {
        AppView { selected_index: 0, scroll_offset: 0, ..self }
    }

    /// To the last row.
    pub open spec fn last_item(self) -> AppView {
        if self.filtered_rows.len() > 0 {
            AppView {
                selected_index: (self.filtered_rows.len() - 1) as usize,
                ..self
            }.adjust_scroll()
        } else {
            self
        }
    }

    /// The column chosen for sorting: the same column again turns the
    /// direction round, another column starts ascending.
    pub open spec fn set_sort_column(self, column: SortColumn) -> AppView {
        if self.sort_column == column {
            AppView { sort_ascending: !self.sort_ascending, ..self }.apply_sort()
        } else {
            AppView { sort_column: column, sort_ascending: true, ..self }.apply_sort()
        }
    }

    /// The row under the selection, if there is one.
    pub open spec fn selected_row(self) -> Option<RowView> {
        if self.selected_index < self.filtered_rows.len()
            && self.filtered_rows[self.selected_index as int] < self.table_rows.len() {
            Some(self.table_rows[self.filtered_rows[self.selected_index as int] as int])
        } else {
            None
        }
    }

    /// The interface that the selected row names.
    pub open spec fn selected_interface(self) -> Option<InterfaceView> {
        match self.selected_row() {
            Some(row) => first_named(self.interfaces, row.name),
            None => None,
        }
    }

    /// The query with one more character, and the rows filtered anew.
    pub open spec fn add_search_char(self, c: char) -> AppView {
        AppView { search_query: self.search_query.push(c), ..self }.apply_filter()
    }

    /// The query without its last character, and the rows filtered anew.
    pub open spec fn remove_search_char(self) -> AppView {
        AppView {
            search_query: if self.search_query.len() > 0 {
                self.search_query.drop_last()
            } else {
                self.search_query
            },
            ..self
        }.apply_filter()
    }

    /// The query emptied, so that every row is shown again.
    pub open spec fn clear_search(self) -> AppView {
        AppView { search_query: Seq::empty(), ..self }.apply_filter()
    }

    /// The state with this status message.
    pub open spec fn set_status(self, message: Seq<char>) -> AppView {
        AppView { status_message: Some(message), ..self }
    }

    /// The state without a status message.
    pub open spec fn clear_status(self) -> AppView {
        AppView { status_message: None, ..self }
    }

    /// The IPv4 session opened on the selected interface, with its first
    /// IPv4 address and netmask copied in.
    pub open spec fn start_edit_ip(self) -> AppView {
        match self.selected_interface() {
            Some(iface) => {
                let address = first_address(iface.ip_addresses, false);
                AppView {
                    ip_edit_state: IpEditView {
                        mode: IpConfigMode::DHCP,
                        ip_buffer: match address {
                            Some(a) => a.ip,
                            None => Seq::empty(),
                        },
                        netmask_buffer: match address {
                            Some(a) => match a.netmask {
                                Some(mask) => mask,
                                None => "255.255.255.0"@,
                            },
                            None => "255.255.255.0"@,
                        },
                        gateway_buffer: Seq::empty(),
                        current_field: 0,
                    },
                    mode: AppMode::EditIp,
                    ..self
                }
            },
            None => self,
        }
    }

    /// The DNS session opened on the current DNS snapshot; an empty server
    /// list gets one empty entry to type into.
    pub open spec fn start_edit_dns(self) -> AppView {
        AppView {
            dns_edit_state: DnsEditView {
                dns_servers: if self.dns_config.nameservers.len() == 0 {
                    seq![Seq::empty()]
                } else {
                    self.dns_config.nameservers
                },
                search_domains: self.dns_config.search_domains,
                current_field: 0,
                server_index: 0,
                domain_index: 0,
                edit_buffer: Seq::empty(),
            },
            mode: AppMode::EditDns,
            ..self
        }
    }

    /// The IPv6 session opened on the selected interface.
    pub open spec fn start_edit_ipv6(self) -> AppView {
        match self.selected_interface() {
            Some(iface) => AppView {
                ipv6_edit_state: Ipv6EditView {
                    enabled: iface.ipv6_enabled,
                    ip_buffer: match first_address(iface.ip_addresses, true) {
                        Some(a) => a.ip,
                        None => Seq::empty(),
                    },
                    prefix_buffer: "64"@,
                    current_field: 0,
                },
                mode: AppMode::EditIpv6,
                ..self
            },
            None => self,
        }
    }

    /// The details screen opened.
    pub open spec fn show_details(self) -> AppView {
        AppView { mode: AppMode::Details, ..self }
    }

    /// The state with the question of an action put and the action waiting.
    pub open spec fn ask(self, action: ConfirmActionView) -> AppView {
        AppView {
            confirm_message: question_of(action),
            confirm_action: Some(action),
            mode: AppMode::ConfirmDialog,
            ..self
        }
    }

    /// The question for DHCP on the selected interface put; nothing happens
    /// without a selected interface.
    pub open spec fn prepare_dhcp_config(self) -> AppView {
        match self.selected_interface() {
            Some(iface) => self.ask(ConfirmActionView::SetDhcp(iface.name)),
            None => self,
        }
    }

    /// The gateway of the IPv4 session: none where the buffer is empty.
    pub open spec fn gateway(self) -> Option<Seq<char>> {
        if self.ip_edit_state.gateway_buffer.len() == 0 {
            None
        } else {
            Some(self.ip_edit_state.gateway_buffer)
        }
    }

    /// The question for a static address on the selected interface put, with
    /// the buffers of the IPv4 session as they stand.
    pub open spec fn prepare_static_ip_config(self) -> AppView {
        match self.selected_interface() {
            Some(iface) => self.ask(
                ConfirmActionView::SetStaticIp(
                    iface.name,
                    self.ip_edit_state.ip_buffer,
                    self.ip_edit_state.netmask_buffer,
                    self.gateway(),
                ),
            ),
            None => self,
        }
    }

    /// The servers of the DNS session that are not empty.
    pub open spec fn servers_to_set(self) -> Seq<Seq<char>> {
        self.dns_edit_state.dns_servers.filter(|s: Seq<char>| s.len() > 0)
    }

    /// The question for the DNS session put: the servers that are not empty,
    /// and the domains as they are.
    pub open spec fn prepare_dns_config(self) -> AppView {
        self.ask(
            ConfirmActionView::SetDns(self.servers_to_set(), self.dns_edit_state.search_domains),
        )
    }

    /// Disabled wins over everything; else an address means a static
    /// address with the prefix of the prefix buffer; else automatic.
    pub open spec fn prepare_ipv6_config(self) -> AppView {
        match self.selected_interface() {
            Some(iface) => if !self.ipv6_edit_state.enabled {
                self.ask(ConfirmActionView::DisableIpv6(iface.name))
            } else if self.ipv6_edit_state.ip_buffer.len() > 0 {
                self.ask(
                    ConfirmActionView::SetStaticIpv6(
                        iface.name,
                        self.ipv6_edit_state.ip_buffer,
                        prefix_of(self.ipv6_edit_state.prefix_buffer),
                    ),
                )
            } else {
                self.ask(ConfirmActionView::EnableIpv6(iface.name))
            },
            None => self,
        }
    }

    /// The question put to bring the selected interface down if it is up, and
    /// up if it is down.
    pub open spec fn toggle_interface(self) -> AppView {
        match self.selected_interface() {
            Some(iface) => self.ask(ConfirmActionView::ToggleInterface(iface.name, !iface.is_up)),
            None => self,
        }
    }

    /// The waiting action taken out and the dialog left, if one waits.
    pub open spec fn execute_confirmed_action(self) -> AppView {
        if self.confirm_action is Some {
            AppView { confirm_action: None, mode: AppMode::Normal, ..self }
        } else {
            self
        }
    }

    /// The status after the action was tried.
    pub open spec fn finish_confirmed_action(
        self,
        action: ConfirmActionView,
        outcome: Result<(), Seq<char>>,
    ) -> AppView {
        match outcome {
            Ok(_) => self.set_status(done_message(action)),
            Err(error) => self.set_status("Error: "@ + error),
        }
    }

    /// The waiting action dropped and the dialog left.
    pub open spec fn cancel_confirm(self) -> AppView {
        AppView { confirm_action: None, mode: AppMode::Normal, ..self }
    }

    /// The mini-shell opened, with an empty command buffer and an empty log.
    pub open spec fn open_terminal(self) -> AppView {
        AppView {
            mode: AppMode::Terminal,
            terminal_command: Seq::empty(),
            terminal_output: Seq::empty(),
            terminal_scroll: 0,
            ..self
        }
    }

    /// The command buffer with one more character.
    pub open spec fn add_terminal_char(self, c: char) -> AppView {
        AppView { terminal_command: self.terminal_command.push(c), ..self }
    }

    /// The command buffer without its last character.
    pub open spec fn remove_terminal_char(self) -> AppView {
        AppView {
            terminal_command: if self.terminal_command.len() > 0 {
                self.terminal_command.drop_last()
            } else {
                self.terminal_command
            },
            ..self
        }
    }

    /// The command to run for the command buffer: its first word as the
    /// program and the other words as arguments, if it has a word.
    pub open spec fn shell_command(self) -> Option<ShellCommandView> {
        let parts = words(self.terminal_command);
        if parts.len() == 0 {
            None
        } else {
            Some(ShellCommandView { program: parts[0], args: parts.skip(1) })
        }
    }

    /// Enter in the mini-shell: a command buffer that is not empty is echoed
    /// into the log.
    pub open spec fn execute_terminal_command(self) -> AppView {
        if self.terminal_command.len() == 0 {
            self
        } else {
            AppView {
                terminal_output: self.terminal_output.push("$ "@ + self.terminal_command),
                ..self
            }
        }
    }

    /// The run's report added to the log, the command buffer emptied, and a
    /// log longer than the window scrolled to its end.
    pub open spec fn finish_terminal_command(
        self,
        outcome: Result<CommandOutputView, Seq<char>>,
    ) -> AppView {
        let log = self.terminal_output + run_report(outcome);
        AppView {
            terminal_output: log,
            terminal_command: Seq::empty(),
            terminal_scroll: if log.len() > TERMINAL_WINDOW {
                (log.len() - TERMINAL_WINDOW) as usize
            } else {
                self.terminal_scroll
            },
            ..self
        }
    }

    /// The log scrolled one line up, not above its first line.
    pub open spec fn terminal_scroll_up(self) -> AppView {
        if self.terminal_scroll > 0 {
            AppView { terminal_scroll: (self.terminal_scroll - 1) as usize, ..self }
        } else {
            self
        }
    }

    /// The log scrolled one line down, not past its last window.
    pub open spec fn terminal_scroll_down(self) -> AppView {
        if self.terminal_scroll + TERMINAL_WINDOW < self.terminal_output.len() {
            AppView { terminal_scroll: (self.terminal_scroll + 1) as usize, ..self }
        } else {
            self
        }
    }

    /// The mini-shell emptied, and a full redraw asked for.
    pub open spec fn clear_terminal(self) -> AppView {
        AppView {
            terminal_output: Seq::empty(),
            terminal_command: Seq::empty(),
            terminal_scroll: 0,
            terminal_needs_clear: true,
            ..self
        }
    }

    /// The status after the DNS cache was flushed, or could not be.
    pub open spec fn flush_dns_cache(self, outcome: Result<(), Seq<char>>) -> AppView {
        match outcome {
            Ok(_) => self.set_status("DNS cache flushed successfully"@),
            Err(error) => self.set_status("Failed to flush DNS cache: "@ + error),
        }
    }

    /// The text of the selected row under a column title.
    pub open spec fn copy_selected_field(self, field: Seq<char>) -> Option<Seq<char>> {
        match self.selected_row() {
            Some(row) => Some(field_of(row, field)),
            None => None,
        }
    }

    /// The status after a field was copied, or could not be.
    pub open spec fn finish_copy(
        self,
        field: Seq<char>,
        outcome: Result<(), Seq<char>>,
    ) -> AppView {
        match outcome {
            Ok(_) => self.set_status("Copied "@ + field + " to clipboard"@),
            Err(error) => self.set_status("Failed to copy: "@ + error),
        }
    }

    /// The status after a fetch failed.
    pub open spec fn refresh_failed(self, error: Seq<char>) -> AppView {
        self.set_status("Error: "@ + error)
    }

    /// The state after a fetch: new snapshots are taken over, and announced
    /// if asked for; a failure is reported and changes nothing else.
    pub open spec fn finish_refresh(
        self,
        fetched: Result<(Seq<InterfaceView>, DnsView), Seq<char>>,
        announce: bool,
    ) -> AppView {
        match fetched {
            Ok((interfaces, dns)) => if announce {
                self.refresh_data(interfaces, dns).set_status("Data refreshed"@)
            } else {
                self.refresh_data(interfaces, dns)
            },
            Err(error) => self.refresh_failed(error),
        }
    }
}

/// The view of what a fetch brought: the two snapshots, or why it failed.
pub open spec fn fetch_outcome(
    fetched: Result<(Vec<NetworkInterface>, DnsConfiguration), String>,
) -> Result<(Seq<InterfaceView>, DnsView), Seq<char>> {
    match fetched {
        Ok((interfaces, dns)) => Ok((interfaces_view(interfaces@), dns@)),
        Err(error) => Err(error@),
    }
}

/// The first address of the list of the wanted family.
fn first_of(list: &Vec<InterfaceAddress>, v6: bool) -> (r: Option<&InterfaceAddress>)
    ensures
        match r {
            Some(a) => first_address(addresses(list@), v6) == Some(a@),
            None => first_address(addresses(list@), v6) is None,
        },
{
    let ghost all = addresses(list@);
    let mut i: usize = 0;
    assert(all.skip(0) =~= all);
    while i < list.len()
        invariant
            i <= list.len(),
            all == addresses(list@),
            first_address(all, v6) == first_address(all.skip(i as int), v6),
        decreases list.len() - i,
    {
        assert(all.skip(i as int).drop_first() =~= all.skip(i + 1));
        assert(all.skip(i as int)[0] == list@[i as int]@);
        if list[i].v6 == v6 {
            assert(first_address(all, v6) == Some(list@[i as int]@));
            return Some(&list[i]);
        }
        i += 1;
    }
    None
}

/// Adds copies of the strings of `src` to the end of `dst`, each behind
/// `prefix`.
fn append_prefixed(dst: &mut Vec<String>, prefix: &str, src: &Vec<String>)
    ensures
        texts(final(dst)@) == texts(old(dst)@) + texts(src@).map_values(
            |l: Seq<char>| prefix@ + l,
        ),
{
    let mut i: usize = 0;
    assert(texts(dst@) =~= texts(old(dst)@) + texts(src@).map_values(
        |l: Seq<char>| prefix@ + l,
    ).take(0));
    while i < src.len()
        invariant
            i <= src.len(),
            texts(dst@) == texts(old(dst)@) + texts(src@).map_values(
                |l: Seq<char>| prefix@ + l,
            ).take(i as int),
        decreases src.len() - i,
    {
        let ghost before = dst@;
        let line = concat2(prefix, src[i].as_str());
        dst.push(line);
        i += 1;
        assert(texts(dst@) =~= texts(before).push(prefix@ + src@[i - 1]@));
        assert(texts(dst@) =~= texts(old(dst)@) + texts(src@).map_values(
            |l: Seq<char>| prefix@ + l,
        ).take(i as int));
    }
    assert(texts(src@).map_values(|l: Seq<char>| prefix@ + l).take(src.len() as int)
        =~= texts(src@).map_values(|l: Seq<char>| prefix@ + l));
}

impl App {
    /// The rows of a list of interfaces under a DNS snapshot.
    pub fn create_table_rows(
        interfaces: &Vec<NetworkInterface>,
        dns_config: &DnsConfiguration,
    ) -> (out: Vec<InterfaceTableRow>)
        ensures
            rows_view(out@) == projections(interfaces_view(interfaces@), dns_config@),
    {
        let mut out: Vec<InterfaceTableRow> = Vec::new();
        let mut i: usize = 0;
        while i < interfaces.len()
            invariant
                i <= interfaces.len(),
                out.len() == i,
                forall|k: int|
                    0 <= k < i ==> (#[trigger] out@[k])@ == project(interfaces@[k]@, dns_config@),
            decreases interfaces.len() - i,
        {
            out.push(InterfaceTableRow::from_interface(&interfaces[i], dns_config));
            i += 1;
        }
        assert(rows_view(out@) =~= projections(interfaces_view(interfaces@), dns_config@));
        out
    }

    /// The state at start-up, from the first snapshots.
    pub fn new(interfaces: Vec<NetworkInterface>, dns_config: DnsConfiguration) -> (app: Self)
        ensures
            app@ == AppView::initial(interfaces_view(interfaces@), dns_config@),
            app@.wf(),
    {
        let table_rows = Self::create_table_rows(&interfaces, &dns_config);
        let filtered_rows = filter_rows(&table_rows, "");
        proof {
            reveal_strlit("");
            reveal_strlit("64");
            assert(rows_view(table_rows@).len() == interfaces.len());
            assert(interfaces_view(interfaces@).len() == interfaces.len());
        }
        let app = App {
            interfaces,
            dns_config,
            table_rows,
            filtered_rows,
            selected_index: 0,
            scroll_offset: 0,
            mode: AppMode::Normal,
            search_query: String::new(),
            sort_column: SortColumn::Interface,
            sort_ascending: true,
            page_size: 20,
            should_quit: false,
            status_message: None,
            ip_edit_state: IpEditState {
                mode: IpConfigMode::DHCP,
                ip_buffer: String::new(),
                netmask_buffer: String::new(),
                gateway_buffer: String::new(),
                current_field: 0,
            },
            dns_edit_state: DnsEditState {
                dns_servers: Vec::new(),
                search_domains: Vec::new(),
                current_field: 0,
                server_index: 0,
                domain_index: 0,
                edit_buffer: String::new(),
            },
            ipv6_edit_state: Ipv6EditState {
                enabled: true,
                ip_buffer: String::new(),
                prefix_buffer: String::from_str("64"),
                current_field: 0,
            },
            confirm_message: String::new(),
            confirm_action: None,
            terminal_command: String::new(),
            terminal_output: Vec::new(),
            terminal_scroll: 0,
            terminal_needs_clear: false,
        };
        assert(app@.dns_edit_state.dns_servers =~= Seq::<Seq<char>>::empty());
        assert(app@.dns_edit_state.search_domains =~= Seq::<Seq<char>>::empty());
        assert(app@.terminal_output =~= Seq::<Seq<char>>::empty());
        app
    }

    /// Whether the state is well formed. Every operation keeps it so; a
    /// caller that has written to the fields by hand can ask here.
    pub fn is_well_formed(&self) -> (ok: bool)
        ensures
            ok == self@.wf(),
    {
        let ghost rows = rows_view(self.table_rows@);
        let ghost wanted = projections(interfaces_view(self.interfaces@), self.dns_config@);
        assert(rows.len() == self.table_rows.len());
        assert(wanted.len() == self.interfaces.len());
        assert(texts(self.terminal_output@).len() == self.terminal_output.len());
        if self.table_rows.len() != self.interfaces.len() {
            return false;
        }
        let mut i: usize = 0;
        while i < self.table_rows.len()
            invariant
                i <= self.table_rows.len(),
                self.table_rows.len() == self.interfaces.len(),
                rows == rows_view(self.table_rows@),
                wanted == projections(interfaces_view(self.interfaces@), self.dns_config@),
                forall|k: int| 0 <= k < i ==> rows[k] == wanted[k],
            decreases self.table_rows.len() - i,
        {
            let row = InterfaceTableRow::from_interface(&self.interfaces[i], &self.dns_config);
            if !self.table_rows[i].same_as(&row) {
                assert(rows[i as int] != wanted[i as int]);
                return false;
            }
            i += 1;
        }
        assert(rows =~= wanted);
        let mut k: usize = 0;
        while k < self.filtered_rows.len()
            invariant
                k <= self.filtered_rows.len(),
                rows == rows_view(self.table_rows@),
                rows.len() == self.table_rows.len(),
                forall|m: int| 0 <= m < k ==> self.filtered_rows@[m] < rows.len(),
            decreases self.filtered_rows.len() - k,
        {
            if self.filtered_rows[k] >= self.table_rows.len() {
                assert(!(self@.filtered_rows[k as int] < self@.table_rows.len()));
                return false;
            }
            k += 1;
        }
        assert(self@.rows_in_range());
        let selection_ok = self.filtered_rows.len() == 0 || self.selected_index
            < self.filtered_rows.len();
        let dialog_ok = self.confirm_action.is_some() == (self.mode == AppMode::ConfirmDialog);
        let question_ok = match &self.confirm_action {
            Some(action) => self.confirm_message == action.question(),
            None => true,
        };
        let scroll_ok = self.terminal_scroll == 0 || (self.terminal_output.len()
            >= TERMINAL_WINDOW && self.terminal_scroll <= self.terminal_output.len()
            - TERMINAL_WINDOW);
        selection_ok && self.page_size > 0 && dialog_ok && question_ok
            && self.dns_edit_state.is_well_formed() && scroll_ok
    }

    /// Takes over new snapshots and shows them under the current query and
    /// sort order.
    pub fn refresh_data(&mut self, interfaces: Vec<NetworkInterface>, dns_config: DnsConfiguration)
        ensures
            final(self)@ == old(self)@.refresh_data(interfaces_view(interfaces@), dns_config@),
            old(self)@.wf() ==> final(self)@.wf(),
    {
        self.table_rows = Self::create_table_rows(&interfaces, &dns_config);
        self.interfaces = interfaces;
        self.dns_config = dns_config;
        self.apply_filter();
        self.apply_sort();
    }

    /// Recomputes the shown rows from the search query; a selection that falls
    /// behind the new list moves to its last row.
    pub fn apply_filter(&mut self)
        ensures
            final(self)@ == old(self)@.apply_filter(),
            final(self)@.rows_in_range(),
            old(self)@.wf() ==> final(self)@.wf(),
    {
        self.filtered_rows = filter_rows(&self.table_rows, self.search_query.as_str());
        if self.selected_index >= self.filtered_rows.len() && self.filtered_rows.len() > 0 {
            self.selected_index = self.filtered_rows.len() - 1;
        }
    }

    /// Puts the shown rows in the order of the sort column: a stable sort.
    pub fn apply_sort(&mut self)
        requires
            old(self)@.rows_in_range(),
        ensures
            final(self)@ == old(self)@.apply_sort(),
            final(self)@.rows_in_range(),
            old(self)@.wf() ==> final(self)@.wf(),
    {
        assert(rows_view(self.table_rows@).len() == self.table_rows.len());
        self.filtered_rows = sort_indices(
            &self.filtered_rows,
            &self.table_rows,
            self.sort_column,
            self.sort_ascending,
        );
    }

    /// Puts the page at the least offset at which it shows the selection.
    pub fn adjust_scroll(&mut self)
        requires
            old(self).page_size > 0,
        ensures
            final(self)@ == old(self)@.adjust_scroll(),
            final(self)@.selection_visible(),
            final(self)@.scroll_is_least(),
            old(self)@.wf() ==> final(self)@.wf(),
    {
        let rest: usize = self.page_size - 1;
        if self.selected_index >= rest {
            self.scroll_offset = self.selected_index - rest;
        } else {
            self.scroll_offset = 0;
        }
    }

    /// Selects the next row, from the last row round to the first.
    pub fn next_item(&mut self)
        requires
            old(self).page_size > 0,
        ensures
            final(self)@ == old(self)@.next_item(),
            old(self)@.wf() ==> final(self)@.wf(),
            old(self)@.filtered_rows.len() > 0 ==> final(self)@.selection_visible()
                && final(self)@.scroll_is_least(),
    {
        let shown = self.filtered_rows.len();
        if shown > 0 {
            proof {
                vstd::arithmetic::div_mod::lemma_add_mod_noop_right(
                    1,
                    self.selected_index as int,
                    shown as int,
                );
            }
            self.selected_index = (self.selected_index % shown + 1) % shown;
            self.adjust_scroll();
        }
    }

    /// Selects the row before, from the first row round to the last.
    pub fn previous_item(&mut self)
        requires
            old(self).page_size > 0,
        ensures
            final(self)@ == old(self)@.previous_item(),
            old(self)@.wf() ==> final(self)@.wf(),
            old(self)@.filtered_rows.len() > 0 ==> final(self)@.selection_visible()
                && final(self)@.scroll_is_least(),
    {
        if self.filtered_rows.len() > 0 {
            if self.selected_index == 0 {
                self.selected_index = self.filtered_rows.len() - 1;
            } else {
                self.selected_index = self.selected_index - 1;
            }
            self.adjust_scroll();
        }
    }

    /// Selects the row one page down, stopping at the last row.
    pub fn next_page(&mut self)
        requires
            old(self).page_size > 0,
        ensures
            final(self)@ == old(self)@.next_page(),
            old(self)@.wf() ==> final(self)@.wf(),
            old(self)@.filtered_rows.len() > 0 ==> final(self)@.selection_visible()
                && final(self)@.scroll_is_least(),
    {
        let shown = self.filtered_rows.len();
        if shown > 0 {
            if self.selected_index < shown && self.page_size < shown - self.selected_index {
                self.selected_index = self.selected_index + self.page_size;
            } else {
                self.selected_index = shown - 1;
            }
            self.adjust_scroll();
        }
    }

    /// Selects the row one page up, stopping at the first row.
    pub fn previous_page(&mut self)
        requires
            old(self).page_size > 0,
        ensures
            final(self)@ == old(self)@.previous_page(),
            old(self)@.wf() ==> final(self)@.wf(),
            final(self)@.selection_visible(),
            final(self)@.scroll_is_least(),
    {
        if self.selected_index >= self.page_size {
            self.selected_index = self.selected_index - self.page_size;
        } else {
            self.selected_index = 0;
        }
        self.adjust_scroll();
    }

    /// Selects the first row and scrolls to the top.
    pub fn first_item(&mut self)
        ensures
            final(self)@ == old(self)@.first_item(),
            old(self)@.wf() ==> final(self)@.wf(),
            old(self).page_size > 0 ==> final(self)@.selection_visible()
                && final(self)@.scroll_is_least(),
    {
        self.selected_index = 0;
        self.scroll_offset = 0;
    }

    /// Selects the last row.
    pub fn last_item(&mut self)
        requires
            old(self).page_size > 0,
        ensures
            final(self)@ == old(self)@.last_item(),
            old(self)@.wf() ==> final(self)@.wf(),
            old(self)@.filtered_rows.len() > 0 ==> final(self)@.selection_visible()
                && final(self)@.scroll_is_least(),
    {
        if self.filtered_rows.len() > 0 {
            self.selected_index = self.filtered_rows.len() - 1;
            self.adjust_scroll();
        }
    }

    /// Chooses the sort column: the same column again turns the direction
    /// round, another column starts ascending. The rows are sorted anew.
    pub fn set_sort_column(&mut self, column: SortColumn)
        requires
            old(self)@.rows_in_range(),
        ensures
            final(self)@ == old(self)@.set_sort_column(column),
            final(self)@.rows_in_range(),
            old(self)@.wf() ==> final(self)@.wf(),
    {
        if self.sort_column == column {
            self.sort_ascending = !self.sort_ascending;
        } else {
            self.sort_column = column;
            self.sort_ascending = true;
        }
        self.apply_sort();
    }

    /// The row under the selection, if there is one.
    pub fn get_selected_row(&self) -> (r: Option<&InterfaceTableRow>)
        ensures
            match r {
                Some(row) => self@.selected_row() == Some(row@),
                None => self@.selected_row() is None,
            },
    {
        assert(rows_view(self.table_rows@).len() == self.table_rows.len());
        if self.selected_index < self.filtered_rows.len() {
            let idx = self.filtered_rows[self.selected_index];
            if idx < self.table_rows.len() {
                return Some(&self.table_rows[idx]);
            }
        }
        None
    }

    /// The first interface that bears the name of the selected row.
    pub fn get_selected_interface(&self) -> (r: Option<&NetworkInterface>)
        ensures
            match r {
                Some(iface) => self@.selected_interface() == Some(iface@),
                None => self@.selected_interface() is None,
            },
    {
        match self.get_selected_row() {
            None => None,
            Some(row) => {
                let ghost all = interfaces_view(self.interfaces@);
                let mut i: usize = 0;
                assert(all.skip(0) =~= all);
                while i < self.interfaces.len()
                    invariant
                        i <= self.interfaces.len(),
                        all == interfaces_view(self.interfaces@),
                        self@.selected_row() == Some(row@),
                        first_named(all, row@.name) == first_named(all.skip(i as int), row@.name),
                    decreases self.interfaces.len() - i,
                {
                    assert(all.skip(i as int).drop_first() =~= all.skip(i + 1));
                    assert(all.skip(i as int)[0] == self.interfaces@[i as int]@);
                    if self.interfaces[i].name == row.name {
                        assert(all.skip(i as int)[0].name == row@.name);
                        assert(first_named(all, row@.name) == Some(self.interfaces@[i as int]@));
                        return Some(&self.interfaces[i]);
                    }
                    i += 1;
                }
                None
            },
        }
    }

    /// Adds a character to the query and filters the rows anew.
    pub fn add_search_char(&mut self, c: char)
        ensures
            final(self)@ == old(self)@.add_search_char(c),
            old(self)@.wf() ==> final(self)@.wf(),
    {
        push_char(&mut self.search_query, c);
        self.apply_filter();
    }

    /// Removes the last character of the query and filters the rows anew.
    pub fn remove_search_char(&mut self)
        ensures
            final(self)@ == old(self)@.remove_search_char(),
            old(self)@.wf() ==> final(self)@.wf(),
    {
        let _ = pop_char(&mut self.search_query);
        self.apply_filter();
    }

    /// Empties the query, so that every row is shown again.
    pub fn clear_search(&mut self)
        ensures
            final(self)@ == old(self)@.clear_search(),
            old(self)@.wf() ==> final(self)@.wf(),
    {
        self.search_query = String::new();
        self.apply_filter();
    }

    /// Sets the status message.
    pub fn set_status(&mut self, message: String)
        ensures
            final(self)@ == old(self)@.set_status(message@),
            old(self)@.wf() ==> final(self)@.wf(),
    {
        self.status_message = Some(message);
    }

    /// Removes the status message.
    pub fn clear_status(&mut self)
        ensures
            final(self)@ == old(self)@.clear_status(),
            old(self)@.wf() ==> final(self)@.wf(),
    {
        self.status_message = None;
    }
    /// Opens the IPv4 session on the selected interface, with its first IPv4
    /// address and netmask copied in.
    pub fn start_edit_ip(&mut self)
        ensures
            final(self)@ == old(self)@.start_edit_ip(),
            old(self)@.wf() && old(self)@.mode != AppMode::ConfirmDialog ==> final(self)@.wf(),
    {
        let buffers = match self.get_selected_interface() {
            Some(iface) => {
                match first_of(&iface.ip_addresses, false) {
                    Some(address) => {
                        let mask = match &address.netmask {
                            Some(mask) => mask.clone(),
                            None => String::from_str("255.255.255.0"),
                        };
                        Some((address.ip.clone(), mask))
                    },
                    None => Some((String::new(), String::from_str("255.255.255.0"))),
                }
            },
            None => None,
        };
        match buffers {
            Some((ip_buffer, netmask_buffer)) => {
                self.ip_edit_state.mode = IpConfigMode::DHCP;
                self.ip_edit_state.ip_buffer = ip_buffer;
                self.ip_edit_state.netmask_buffer = netmask_buffer;
                self.ip_edit_state.gateway_buffer = String::new();
                self.ip_edit_state.current_field = 0;
                self.mode = AppMode::EditIp;
            },
            None => {},
        }
    }

    /// Opens the DNS session on a copy of the current DNS snapshot.
    pub fn start_edit_dns(&mut self)
        ensures
            final(self)@ == old(self)@.start_edit_dns(),
            old(self)@.wf() && old(self)@.mode != AppMode::ConfirmDialog ==> final(self)@.wf(),
    {
        let mut servers = clone_texts(&self.dns_config.nameservers);
        if servers.len() == 0 {
            servers.push(String::new());
            assert(texts(servers@) =~= seq![Seq::<char>::empty()]);
        }
        self.dns_edit_state.dns_servers = servers;
        self.dns_edit_state.search_domains = clone_texts(&self.dns_config.search_domains);
        self.dns_edit_state.current_field = 0;
        self.dns_edit_state.server_index = 0;
        self.dns_edit_state.domain_index = 0;
        self.dns_edit_state.edit_buffer = String::new();
        self.mode = AppMode::EditDns;
    }

    /// Opens the IPv6 session on the selected interface.
    pub fn start_edit_ipv6(&mut self)
        ensures
            final(self)@ == old(self)@.start_edit_ipv6(),
            old(self)@.wf() && old(self)@.mode != AppMode::ConfirmDialog ==> final(self)@.wf(),
    {
        let found = match self.get_selected_interface() {
            Some(iface) => {
                let ip_buffer = match first_of(&iface.ip_addresses, true) {
                    Some(address) => address.ip.clone(),
                    None => String::new(),
                };
                Some((iface.ipv6_enabled, ip_buffer))
            },
            None => None,
        };
        match found {
            Some((enabled, ip_buffer)) => {
                self.ipv6_edit_state.enabled = enabled;
                self.ipv6_edit_state.ip_buffer = ip_buffer;
                self.ipv6_edit_state.prefix_buffer = String::from_str("64");
                self.ipv6_edit_state.current_field = 0;
                self.mode = AppMode::EditIpv6;
            },
            None => {},
        }
    }

    /// Opens the details screen.
    pub fn show_details(&mut self)
        ensures
            final(self)@ == old(self)@.show_details(),
            old(self)@.wf() && old(self)@.mode != AppMode::ConfirmDialog ==> final(self)@.wf(),
    {
        self.mode = AppMode::Details;
    }

    /// The text of the selected row under a column title, for the clipboard;
    /// nothing where no row is selected.
    pub fn copy_selected_field(&self, field: &str) -> (text: Option<String>)
        ensures
            opt_text(text) == self@.copy_selected_field(field@),
    {
        match self.get_selected_row() {
            Some(row) => Some(String::from_str(row.get_field(field))),
            None => None,
        }
    }

    /// Reports how copying a field to the clipboard ended.
    pub fn finish_copy(&mut self, field: &str, outcome: Result<(), String>)
        ensures
            final(self)@ == old(self)@.finish_copy(field@, plain_outcome(outcome)),
            old(self)@.wf() ==> final(self)@.wf(),
    {
        match outcome {
            Ok(_) => {
                self.set_status(concat3("Copied ", field, " to clipboard"));
            },
            Err(error) => {
                self.set_status(concat2("Failed to copy: ", error.as_str()));
            },
        }
    }

    /// Reports that fetching new snapshots failed; the state stays as it is.
    pub fn refresh_failed(&mut self, error: &str)
        ensures
            final(self)@ == old(self)@.refresh_failed(error@),
            old(self)@.wf() ==> final(self)@.wf(),
    {
        self.set_status(concat2("Error: ", error));
    }

    /// Reports how fetching new snapshots ended.
    pub fn finish_refresh(
        &mut self,
        fetched: Result<(Vec<NetworkInterface>, DnsConfiguration), String>,
        announce: bool,
    )
        ensures
            final(self)@ == old(self)@.finish_refresh(fetch_outcome(fetched), announce),
            old(self)@.wf() ==> final(self)@.wf(),
    {
        match fetched {
            Ok((interfaces, dns_config)) => {
                self.refresh_data(interfaces, dns_config);
                if announce {
                    self.set_status(String::from_str("Data refreshed"));
                }
            },
            Err(error) => {
                self.refresh_failed(error.as_str());
            },
        }
    }

    /// Puts the question of an action and lets the action wait for the
    /// answer.
    fn ask(&mut self, action: ConfirmAction)
        ensures
            final(self)@ == old(self)@.ask(action@),
            old(self)@.wf() ==> final(self)@.wf(),
    {
        self.confirm_message = action.question();
        self.confirm_action = Some(action);
        self.mode = AppMode::ConfirmDialog;
    }

    /// The name of the selected interface, if there is one.
    fn selected_name(&self) -> (name: Option<String>)
        ensures
            opt_text(name) == match self@.selected_interface() {
                Some(iface) => Some(iface.name),
                None => None,
            },
    {
        match self.get_selected_interface() {
            Some(iface) => Some(iface.name.clone()),
            None => None,
        }
    }

    /// Asks whether the selected interface is to be set to DHCP.
    pub fn prepare_dhcp_config(&mut self)
        ensures
            final(self)@ == old(self)@.prepare_dhcp_config(),
            old(self)@.wf() ==> final(self)@.wf(),
    {
        match self.selected_name() {
            Some(name) => {
                self.ask(ConfirmAction::SetDhcp(name));
            },
            None => {},
        }
    }

    /// Asks whether the address of the IPv4 session is to be set, with the
    /// buffers as they stand now.
    pub fn prepare_static_ip_config(&mut self)
        ensures
            final(self)@ == old(self)@.prepare_static_ip_config(),
            old(self)@.wf() ==> final(self)@.wf(),
    {
        match self.selected_name() {
            Some(name) => {
                let ip = self.ip_edit_state.ip_buffer.clone();
                let netmask = self.ip_edit_state.netmask_buffer.clone();
                let gateway = if self.ip_edit_state.gateway_buffer.as_str().is_empty() {
                    None
                } else {
                    Some(self.ip_edit_state.gateway_buffer.clone())
                };
                self.ask(ConfirmAction::SetStaticIp(name, ip, netmask, gateway));
            },
            None => {},
        }
    }

    /// Asks whether the DNS session is to be written: the servers that are not
    /// empty, and the domains as they are.
    pub fn prepare_dns_config(&mut self)
        ensures
            final(self)@ == old(self)@.prepare_dns_config(),
            old(self)@.wf() ==> final(self)@.wf(),
    {
        let servers = non_empty(&self.dns_edit_state.dns_servers);
        let domains = clone_texts(&self.dns_edit_state.search_domains);
        self.ask(ConfirmAction::SetDns(servers, domains));
    }

    /// Asks for what the IPv6 session stands for. Disabled wins over
    /// everything; else an address means a static address; else automatic.
    pub fn prepare_ipv6_config(&mut self)
        ensures
            final(self)@ == old(self)@.prepare_ipv6_config(),
            old(self)@.wf() ==> final(self)@.wf(),
    {
        match self.selected_name() {
            Some(name) => {
                if !self.ipv6_edit_state.enabled {
                    self.ask(ConfirmAction::DisableIpv6(name));
                } else if !self.ipv6_edit_state.ip_buffer.as_str().is_empty() {
                    let prefix: u8 = match parse_u8(self.ipv6_edit_state.prefix_buffer.as_str()) {
                        Some(p) => p,
                        None => 64,
                    };
                    let ip = self.ipv6_edit_state.ip_buffer.clone();
                    self.ask(ConfirmAction::SetStaticIpv6(name, ip, prefix));
                } else {
                    self.ask(ConfirmAction::EnableIpv6(name));
                }
            },
            None => {},
        }
    }

    /// Takes the waiting action out and leaves the dialog. The caller
    /// carries the action out and reports with `finish_confirmed_action`.
    pub fn execute_confirmed_action(&mut self) -> (action: Option<ConfirmAction>)
        ensures
            final(self)@ == old(self)@.execute_confirmed_action(),
            opt_action(action) == old(self)@.confirm_action,
            final(self)@.confirm_action is None,
            old(self)@.confirm_action is Some ==> final(self)@.mode == AppMode::Normal,
            old(self)@.wf() ==> final(self)@.wf(),
    {
        let action = self.confirm_action.take();
        if action.is_some() {
            self.mode = AppMode::Normal;
        }
        action
    }

    /// Reports how carrying out an action ended. Returns whether the data
    /// is to be fetched anew, which is so after a success.
    pub fn finish_confirmed_action(
        &mut self,
        action: &ConfirmAction,
        outcome: Result<(), String>,
    ) -> (refresh: bool)
        ensures
            final(self)@ == old(self)@.finish_confirmed_action(action@, plain_outcome(outcome)),
            refresh == outcome is Ok,
            old(self)@.wf() ==> final(self)@.wf(),
    {
        match outcome {
            Ok(_) => {
                let message = match action {
                    ConfirmAction::SetDhcp(iface) => concat2("DHCP enabled on ", iface.as_str()),
                    ConfirmAction::SetStaticIp(iface, _, _, _) => concat2(
                        "Static IP set on ",
                        iface.as_str(),
                    ),
                    ConfirmAction::SetDns(_, _) => String::from_str("DNS configuration updated"),
                    ConfirmAction::ToggleInterface(iface, up) => {
                        let mut message = concat3("Interface ", iface.as_str(), " ");
                        if *up {
                            message.append("enabled");
                        } else {
                            message.append("disabled");
                        }
                        message
                    },
                    ConfirmAction::DisableIpv6(iface) => concat2(
                        "IPv6 disabled on ",
                        iface.as_str(),
                    ),
                    ConfirmAction::EnableIpv6(iface) => concat2("IPv6 enabled on ", iface.as_str()),
                    ConfirmAction::SetStaticIpv6(iface, _, _) => concat2(
                        "Static IPv6 set on ",
                        iface.as_str(),
                    ),
                };
                self.set_status(message);
                true
            },
            Err(error) => {
                self.set_status(concat2("Error: ", error.as_str()));
                false
            },
        }
    }

    /// Drops the waiting action and leaves the dialog.
    pub fn cancel_confirm(&mut self)
        ensures
            final(self)@ == old(self)@.cancel_confirm(),
            final(self)@.confirm_action is None,
            final(self)@.mode == AppMode::Normal,
            old(self)@.wf() ==> final(self)@.wf(),
    {
        self.confirm_action = None;
        self.mode = AppMode::Normal;
    }

    /// Asks whether the selected interface is to be brought down if it is up,
    /// and up if it is down.
    pub fn toggle_interface(&mut self)
        ensures
            final(self)@ == old(self)@.toggle_interface(),
            old(self)@.wf() ==> final(self)@.wf(),
    {
        let target = match self.get_selected_interface() {
            Some(iface) => Some((iface.name.clone(), !iface.is_up)),
            None => None,
        };
        match target {
            Some((name, up)) => {
                self.ask(ConfirmAction::ToggleInterface(name, up));
            },
            None => {},
        }
    }

    /// Opens the mini-shell with an empty command buffer and an empty log.
    pub fn open_terminal(&mut self)
        ensures
            final(self)@ == old(self)@.open_terminal(),
            old(self)@.wf() && old(self)@.mode != AppMode::ConfirmDialog ==> final(self)@.wf(),
    {
        self.mode = AppMode::Terminal;
        self.terminal_command = String::new();
        self.terminal_output = Vec::new();
        self.terminal_scroll = 0;
        assert(texts(self.terminal_output@) =~= Seq::<Seq<char>>::empty());
    }

    /// Adds a character to the command buffer.
    pub fn add_terminal_char(&mut self, c: char)
        ensures
            final(self)@ == old(self)@.add_terminal_char(c),
            old(self)@.wf() ==> final(self)@.wf(),
    {
        push_char(&mut self.terminal_command, c);
    }

    /// Removes the last character of the command buffer.
    pub fn remove_terminal_char(&mut self)
        ensures
            final(self)@ == old(self)@.remove_terminal_char(),
            old(self)@.wf() ==> final(self)@.wf(),
    {
        let _ = pop_char(&mut self.terminal_command);
    }

    /// Enter in the mini-shell: echoes a command buffer that is not empty
    /// into the log and hands out the command to run, if the buffer holds a
    /// word. The caller runs it and reports with `finish_terminal_command`.
    pub fn execute_terminal_command(&mut self) -> (command: Option<ShellCommand>)
        ensures
            final(self)@ == old(self)@.execute_terminal_command(),
            match command {
                Some(c) => old(self)@.terminal_command.len() > 0 && old(self)@.shell_command()
                    == Some(c@),
                None => old(self)@.terminal_command.len() == 0
                    || old(self)@.shell_command() is None,
            },
            old(self)@.wf() ==> final(self)@.wf(),
    {
        if self.terminal_command.as_str().is_empty() {
            return None;
        }
        let ghost log = self.terminal_output@;
        let echo = concat2("$ ", self.terminal_command.as_str());
        self.terminal_output.push(echo);
        assert(texts(self.terminal_output@) =~= texts(log).push(
            "$ "@ + self.terminal_command@,
        ));
        let mut parts = split_whitespace(self.terminal_command.as_str());
        assert(texts(parts@).len() == parts.len());
        if parts.len() == 0 {
            return None;
        }
        let ghost all = parts@;
        let program = parts.remove(0);
        assert(texts(parts@) =~= texts(all).skip(1));
        Some(ShellCommand { program, args: parts })
    }

    /// Reports how the run of a command ended.
    pub fn finish_terminal_command(&mut self, outcome: Result<CommandOutput, String>)
        ensures
            final(self)@ == old(self)@.finish_terminal_command(run_outcome(outcome)),
            old(self)@.wf() ==> final(self)@.wf(),
    {
        let ghost log = texts(self.terminal_output@);
        match outcome {
            Ok(output) => {
                let out_lines = split_lines(output.stdout.as_str());
                extend_texts(&mut self.terminal_output, &out_lines);
                let err_lines = split_lines(output.stderr.as_str());
                append_prefixed(&mut self.terminal_output, "ERROR: ", &err_lines);
                if !output.success {
                    let code: i32 = match output.code {
                        Some(code) => code,
                        None => -1,
                    };
                    let ghost before = self.terminal_output@;
                    let line = concat2(
                        "Command exited with status: ",
                        signed_decimal(code).as_str(),
                    );
                    self.terminal_output.push(line);
                    assert(texts(self.terminal_output@) =~= texts(before).push(line@));
                    assert(texts(self.terminal_output@) =~= log + run_report(
                        run_outcome(outcome),
                    ));
                } else {
                    assert(texts(self.terminal_output@) =~= log + run_report(
                        run_outcome(outcome),
                    ));
                }
            },
            Err(error) => {
                let line = concat2("Failed to execute command: ", error.as_str());
                self.terminal_output.push(line);
                assert(texts(self.terminal_output@) =~= log + run_report(run_outcome(outcome)));
            },
        }
        self.terminal_command = String::new();
        assert(texts(self.terminal_output@).len() == self.terminal_output.len());
        if self.terminal_output.len() > TERMINAL_WINDOW {
            self.terminal_scroll = self.terminal_output.len() - TERMINAL_WINDOW;
        }
    }

    /// Scrolls the log one line up, not above its first line.
    pub fn terminal_scroll_up(&mut self)
        ensures
            final(self)@ == old(self)@.terminal_scroll_up(),
            old(self)@.wf() ==> final(self)@.wf(),
    {
        if self.terminal_scroll > 0 {
            self.terminal_scroll = self.terminal_scroll - 1;
        }
    }

    /// Scrolls the log one line down, not past its last window.
    pub fn terminal_scroll_down(&mut self)
        ensures
            final(self)@ == old(self)@.terminal_scroll_down(),
            old(self)@.wf() ==> final(self)@.wf(),
    {
        assert(texts(self.terminal_output@).len() == self.terminal_output.len());
        let max_scroll: usize = if self.terminal_output.len() > TERMINAL_WINDOW {
            self.terminal_output.len() - TERMINAL_WINDOW
        } else {
            0
        };
        if self.terminal_scroll < max_scroll {
            self.terminal_scroll = self.terminal_scroll + 1;
        }
    }

    /// Empties the mini-shell and asks for a full redraw.
    pub fn clear_terminal(&mut self)
        ensures
            final(self)@ == old(self)@.clear_terminal(),
            old(self)@.wf() ==> final(self)@.wf(),
    {
        self.terminal_output = Vec::new();
        self.terminal_command = String::new();
        self.terminal_scroll = 0;
        self.terminal_needs_clear = true;
        assert(texts(self.terminal_output@) =~= Seq::<Seq<char>>::empty());
    }

    /// Reports how flushing the DNS cache ended.
    pub fn flush_dns_cache(&mut self, outcome: Result<(), String>)
        ensures
            final(self)@ == old(self)@.flush_dns_cache(plain_outcome(outcome)),
            old(self)@.wf() ==> final(self)@.wf(),
    {
        match outcome {
            Ok(_) => {
                self.set_status(String::from_str("DNS cache flushed successfully"));
            },
            Err(error) => {
                self.set_status(concat2("Failed to flush DNS cache: ", error.as_str()));
            },
        }
    }
}

/// Choosing the column that is already the sort column turns the direction
/// round, so choosing it twice gives the direction back; choosing another
/// column starts ascending.
pub proof fn sort_column_choice(s: AppView, column: SortColumn)
    ensures
        s.set_sort_column(column).sort_column == column,
        s.sort_column != column ==> s.set_sort_column(column).sort_ascending,
        s.sort_column == column ==> s.set_sort_column(column).sort_ascending
            == !s.sort_ascending,
        s.set_sort_column(column).set_sort_column(column).sort_ascending == !s.set_sort_column(
            column,
        ).sort_ascending,
        s.set_sort_column(column).set_sort_column(column).set_sort_column(column).sort_ascending
            == s.set_sort_column(column).sort_ascending,
{
}

/// Stepping down from the last shown row leads to the first, stepping up
/// from the first leads to the last, and with no row shown neither step
/// changes anything.
pub proof fn selection_wraps(s: AppView)
    requires
        s.filtered_rows.len() <= usize::MAX,
    ensures
        s.filtered_rows.len() > 0 && s.selected_index == s.filtered_rows.len() - 1
            ==> s.next_item().selected_index == 0,
        s.filtered_rows.len() > 0 && s.selected_index == 0 ==> s.previous_item().selected_index
            == s.filtered_rows.len() - 1,
        s.filtered_rows.len() == 0 ==> s.next_item() == s && s.previous_item() == s,
{
    let n = s.filtered_rows.len() as int;
    if n > 0 && s.selected_index == n - 1 {
        assert(n % n == 0) by (nonlinear_arith)
            requires
                n > 0,
        ;
    }
}

/// After a navigation step the selection is inside the scrolled page, and
/// the page starts as early as it can. The steps that do nothing while no
/// row is shown are taken with a row shown.
pub proof fn navigation_keeps_selection_visible(s: AppView)
    requires
        s.page_size > 0,
        s.filtered_rows.len() <= usize::MAX,
    ensures
        s.previous_page().selection_visible() && s.previous_page().scroll_is_least(),
        s.first_item().selection_visible() && s.first_item().scroll_is_least(),
        s.filtered_rows.len() > 0 ==> {
            &&& s.next_item().selection_visible() && s.next_item().scroll_is_least()
            &&& s.previous_item().selection_visible() && s.previous_item().scroll_is_least()
            &&& s.next_page().selection_visible() && s.next_page().scroll_is_least()
            &&& s.last_item().selection_visible() && s.last_item().scroll_is_least()
        },
{
}

/// The offset that scrolling chooses shows the selection, and no smaller
/// offset does: every offset whose page holds the selection is at least the
/// one chosen.
pub proof fn scroll_offset_is_least(s: AppView, offset: int)
    requires
        s.page_size > 0,
        0 <= offset <= s.selected_index < offset + s.page_size,
    ensures
        s.adjust_scroll().selection_visible(),
        s.adjust_scroll().scroll_offset <= offset,
        s.adjust_scroll().selected_index == s.selected_index,
{
}

/// A confirm action waits exactly while the confirmation dialog is open: if
/// that is so before a key, it is so after it.
#[verifier::rlimit(50)]
pub proof fn action_waits_in_dialog(s: AppView, key: KeyEvent)
    requires
        s.confirm_action is Some <==> s.mode == AppMode::ConfirmDialog,
    ensures
        s.step(key).0.confirm_action is Some <==> s.step(key).0.mode == AppMode::ConfirmDialog,
{
    match s.mode {
        AppMode::Normal => {
            let after = s.normal_step(key).0;
            assert(after.confirm_action is Some <==> after.mode == AppMode::ConfirmDialog);
        },
        AppMode::Search => {},
        AppMode::EditIp => {},
        AppMode::EditDns => {},
        AppMode::EditIpv6 => {},
        AppMode::Details => {},
        AppMode::Help => {},
        AppMode::ConfirmDialog => {},
        AppMode::Terminal => {},
    }
}

/// The question on the screen is that of the waiting action at every step:
/// if it is so before a key, it is so after it. So what is confirmed is
/// what was shown.
#[verifier::rlimit(50)]
pub proof fn question_shows_the_action(s: AppView, key: KeyEvent)
    requires
        s.confirm_action is Some ==> s.confirm_message == question_of(s.confirm_action->0),
    ensures
        s.step(key).0.confirm_action is Some ==> s.step(key).0.confirm_message == question_of(
            s.step(key).0.confirm_action->0,
        ),
{
    match s.mode {
        AppMode::Normal => {
            let after = s.normal_step(key).0;
            assert(after.confirm_action is Some ==> after.confirm_message == question_of(
                after.confirm_action->0,
            ));
        },
        AppMode::Search => {},
        AppMode::EditIp => {},
        AppMode::EditDns => {},
        AppMode::EditIpv6 => {},
        AppMode::Details => {},
        AppMode::Help => {},
        AppMode::ConfirmDialog => {},
        AppMode::Terminal => {},
    }
}

/// Both answers to the confirmation dialog end with no action waiting, in
/// normal mode; cancelling changes nothing else.
pub proof fn dialog_answers(s: AppView)
    requires
        s.confirm_action is Some,
    ensures
        s.execute_confirmed_action().confirm_action is None,
        s.execute_confirmed_action().mode == AppMode::Normal,
        s.cancel_confirm().confirm_action is None,
        s.cancel_confirm().mode == AppMode::Normal,
        s.cancel_confirm() == (AppView { confirm_action: None, mode: AppMode::Normal, ..s }),
        s.cancel_confirm().status_message == s.status_message,
{
}

/// The precedence of the IPv6 session: disabled asks to disable whatever
/// the buffers hold; enabled with an empty address asks for automatic
/// configuration; enabled with an address asks for that address with the
/// prefix of the prefix buffer.
pub proof fn ipv6_precedence(s: AppView)
    requires
        s.selected_interface() is Some,
    ensures
        !s.ipv6_edit_state.enabled ==> s.prepare_ipv6_config().confirm_action == Some(
            ConfirmActionView::DisableIpv6(s.selected_interface()->0.name),
        ),
        s.ipv6_edit_state.enabled && s.ipv6_edit_state.ip_buffer.len() == 0
            ==> s.prepare_ipv6_config().confirm_action == Some(
            ConfirmActionView::EnableIpv6(s.selected_interface()->0.name),
        ),
        s.ipv6_edit_state.enabled && s.ipv6_edit_state.ip_buffer.len() > 0
            ==> s.prepare_ipv6_config().confirm_action == Some(
            ConfirmActionView::SetStaticIpv6(
                s.selected_interface()->0.name,
                s.ipv6_edit_state.ip_buffer,
                prefix_of(s.ipv6_edit_state.prefix_buffer),
            ),
        ),
        s.prepare_ipv6_config().mode == AppMode::ConfirmDialog,
{
}

} // verus!
