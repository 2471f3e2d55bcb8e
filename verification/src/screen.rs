//! What the screens say: titles, the status line, the key hints, the part
//! of a list that is on the page, and the lines of the details and edit
//! screens, each piece with the tone it is to be shown in. Drawing them is
//! the caller's part.

use vstd::prelude::*;
use vstd::string::*;
use crate::app::{App, AppMode, AppView};
use crate::edit::{DnsEditState, DnsEditView, IpEditState, IpEditView, Ipv6EditState, Ipv6EditView};
use crate::models::{
    AddressView, DnsConfiguration, DnsView, InterfaceAddress, InterfaceView, IpConfigMode,
    NetworkInterface, SortColumn,
};
use crate::text::{concat2, concat3, decimal, digits, texts};

verus! {

/// The title of the table: the place of the selection among the shown rows
/// and the page it is on, or a note that nothing is shown.
pub open spec fn table_title_text(s: AppView) -> Seq<char> {
    if s.filtered_rows.len() == 0 {
        " Network Interfaces (0/0) - No matches "@
    } else {
        " Network Interfaces ("@ + digits((s.selected_index + 1) as nat) + "/"@ + digits(
            s.filtered_rows.len(),
        ) + ") - Page "@ + digits((s.scroll_offset / s.page_size + 1) as nat) + "/"@ + digits(
            ((s.filtered_rows.len() + s.page_size - 1) / (s.page_size as int)) as nat,
        ) + " - Press 'i' for details "@
    }
}

/// The title of the table.
pub fn table_title(app: &App) -> (title: String)
    requires
        app.page_size > 0,
    ensures
        title@ == table_title_text(app@),
{
    if app.filtered_rows.len() == 0 {
        String::from_str(" Network Interfaces (0/0) - No matches ")
    } else {
        let shown: u128 = app.filtered_rows.len() as u128;
        let page: u128 = app.page_size as u128;
        let mut title = concat3(
            " Network Interfaces (",
            decimal(app.selected_index as u128 + 1).as_str(),
            "/",
        );
        title.append(decimal(shown).as_str());
        title.append(") - Page ");
        title.append(decimal(app.scroll_offset as u128 / page + 1).as_str());
        title.append("/");
        title.append(decimal((shown + page - 1) / page).as_str());
        title.append(" - Press 'i' for details ");
        title
    }
}

/// The mark of the sort direction.
pub open spec fn direction_mark(ascending: bool) -> Seq<char> {
    if ascending {
        "▲"@
    } else {
        "▼"@
    }
}

/// The status line: the query while it is typed, else the status message,
/// else the counts and the sort order.
pub open spec fn status_text(s: AppView) -> Seq<char> {
    if s.mode == AppMode::Search {
        "Search: "@ + s.search_query + " (Esc to cancel)"@
    } else {
        match s.status_message {
            Some(message) => message,
            None => "Total: "@ + digits(s.table_rows.len()) + " | Filtered: "@ + digits(
                s.filtered_rows.len(),
            ) + " | Sort: "@ + s.sort_column.title() + " "@ + direction_mark(s.sort_ascending),
        }
    }
}

/// The status line.
pub fn status_line(app: &App) -> (line: String)
    ensures
        line@ == status_text(app@),
{
    if app.mode == AppMode::Search {
        concat3("Search: ", app.search_query.as_str(), " (Esc to cancel)")
    } else {
        match &app.status_message {
            Some(message) => message.clone(),
            None => {
                assert(app@.table_rows.len() == app.table_rows.len());
                let mut line = concat3(
                    "Total: ",
                    decimal(app.table_rows.len() as u128).as_str(),
                    " | Filtered: ",
                );
                line.append(decimal(app.filtered_rows.len() as u128).as_str());
                line.append(" | Sort: ");
                line.append(app.sort_column.as_str());
                line.append(" ");
                if app.sort_ascending {
                    line.append("▲");
                } else {
                    line.append("▼");
                }
                line
            },
        }
    }
}

/// The key hints under the main screen.
pub open spec fn help_text(mode: AppMode) -> Seq<char> {
    match mode {
        AppMode::Normal => "q:Quit | ?:Help | /:Search | i:Details | x:Terminal | Ctrl+f:FlushDNS | r:Refresh | e:IP | d:DNS | 6:IPv6"@,
        AppMode::Search => "Type to search | Esc:Cancel | Enter:Done"@,
        AppMode::Terminal => "Enter:Execute | ↑↓:Scroll | Ctrl+l:Clear | Esc:Back"@,
        _ => "Esc:Cancel | Tab:Next field"@,
    }
}

/// The key hints under the main screen.
pub fn help_line(mode: AppMode) -> (line: &'static str)
    ensures
        line@ == help_text(mode),
{
    match mode {
        AppMode::Normal => "q:Quit | ?:Help | /:Search | i:Details | x:Terminal | Ctrl+f:FlushDNS | r:Refresh | e:IP | d:DNS | 6:IPv6",
        AppMode::Search => "Type to search | Esc:Cancel | Enter:Done",
        AppMode::Terminal => "Enter:Execute | ↑↓:Scroll | Ctrl+l:Clear | Esc:Back",
        _ => "Esc:Cancel | Tab:Next field",
    }
}

/// The head of a column: its title, with the direction mark behind it if
/// the table is sorted by it.
pub open spec fn header_text(column: SortColumn, sorted_by: SortColumn, ascending: bool) -> Seq<
    char,
> {
    if column == sorted_by {
        column.title() + " "@ + direction_mark(ascending)
    } else {
        column.title()
    }
}

/// The head of a column.
pub fn header_label(column: SortColumn, sorted_by: SortColumn, ascending: bool) -> (label: String)
    ensures
        label@ == header_text(column, sorted_by, ascending),
{
    if column == sorted_by {
        if ascending {
            concat3(column.as_str(), " ", "▲")
        } else {
            concat3(column.as_str(), " ", "▼")
        }
    } else {
        String::from_str(column.as_str())
    }
}

/// The least of two numbers.
pub open spec fn least(a: int, b: int) -> int {
    if a <= b {
        a
    } else {
        b
    }
}

/// The places in the shown rows that are on the page: from the scroll
/// offset on, a page long, and no further than the rows go.
pub fn page_window(app: &App) -> (window: (usize, usize))
    ensures
        window.0 == least(app@.scroll_offset as int, app@.filtered_rows.len() as int),
        window.1 == least(
            app@.scroll_offset + app@.page_size,
            app@.filtered_rows.len() as int,
        ),
        window.0 <= window.1 <= app@.filtered_rows.len(),
{
    window(app.filtered_rows.len(), app.scroll_offset, app.page_size)
}

/// The title of the mini-shell's log: the first line on the page and the
/// number of lines, or a note that the log is empty.
pub open spec fn output_title_text(s: AppView) -> Seq<char> {
    if s.terminal_output.len() == 0 {
        " Output (empty) "@
    } else {
        " Output ("@ + digits(
            least(s.terminal_scroll + 1, s.terminal_output.len() as int) as nat,
        ) + "/"@ + digits(s.terminal_output.len()) + ") "@
    }
}

/// The title of the mini-shell's log.
pub fn output_title(app: &App) -> (title: String)
    ensures
        title@ == output_title_text(app@),
{
    assert(app@.terminal_output.len() == app.terminal_output.len());
    if app.terminal_output.len() == 0 {
        String::from_str(" Output (empty) ")
    } else {
        let total: u128 = app.terminal_output.len() as u128;
        let first: u128 = if (app.terminal_scroll as u128) + 1 <= total {
            app.terminal_scroll as u128 + 1
        } else {
            total
        };
        let mut title = concat3(" Output (", decimal(first).as_str(), "/");
        title.append(decimal(total).as_str());
        title.append(") ");
        title
    }
}

/// The two boxes of the IPv4 mode, the chosen one ticked.
pub open spec fn ip_mode_text(mode: IpConfigMode) -> Seq<char> {
    match mode {
        IpConfigMode::DHCP => "[X] DHCP  [ ] Static"@,
        IpConfigMode::Static => "[ ] DHCP  [X] Static"@,
    }
}

/// The two boxes of the IPv4 mode.
pub fn ip_mode_boxes(mode: IpConfigMode) -> (boxes: &'static str)
    ensures
        boxes@ == ip_mode_text(mode),
{
    match mode {
        IpConfigMode::DHCP => "[X] DHCP  [ ] Static",
        IpConfigMode::Static => "[ ] DHCP  [X] Static",
    }
}

/// The two boxes of the IPv6 switch, the chosen one ticked.
pub open spec fn ipv6_switch_text(enabled: bool) -> Seq<char> {
    if enabled {
        "[X] Enabled  [ ] Disabled"@
    } else {
        "[ ] Enabled  [X] Disabled"@
    }
}

/// The two boxes of the IPv6 switch.
pub fn ipv6_switch_boxes(enabled: bool) -> (boxes: &'static str)
    ensures
        boxes@ == ipv6_switch_text(enabled),
{
    if enabled {
        "[X] Enabled  [ ] Disabled"
    } else {
        "[ ] Enabled  [X] Disabled"
    }
}

/// How a piece of a line is to look.
#[derive(Debug, Clone, Copy, PartialEq, Eq, Structural)]
pub enum Tone {
    /// Ordinary text.
    Plain,
    /// The name of a value on the details screen.
    Label,
    /// The name of a field of an edit session.
    Field,
    /// The head of a group of lines.
    Heading,
    /// Something that is well: an interface that is up, an address.
    Good,
    /// Something that is not: an interface that is down.
    Bad,
    /// A value to be noticed, such as the name of a wireless network.
    Accent,
    /// The entry of a list that the cursor is on.
    Chosen,
    /// The field that the cursor is in.
    Active,
}

/// A run of text in one tone.
#[derive(Debug, Clone)]
pub struct Piece {
    pub text: String,
    pub tone: Tone,
}

/// The view of a [`Piece`].
pub struct PieceView {
    pub text: Seq<char>,
    pub tone: Tone,
}

impl View for Piece {
    type V = PieceView;

    open spec fn view(&self) -> PieceView {
        PieceView { text: self.text@, tone: self.tone }
    }
}

/// The view of a line: its pieces in order.
pub open spec fn line_view(line: Seq<Piece>) -> Seq<PieceView> {
    line.map_values(|p: Piece| p@)
}

/// The views of the lines of a screen.
pub open spec fn lines_view(lines: Seq<Vec<Piece>>) -> Seq<Seq<PieceView>> {
    lines.map_values(|l: Vec<Piece>| line_view(l@))
}

/// A line of one piece.
pub open spec fn one(text: Seq<char>, tone: Tone) -> Seq<PieceView> {
    seq![PieceView { text, tone }]
}

/// A line of two pieces.
pub open spec fn two(
    first: Seq<char>,
    first_tone: Tone,
    second: Seq<char>,
    second_tone: Tone,
) -> Seq<PieceView> {
    seq![PieceView { text: first, tone: first_tone }].push(
        PieceView { text: second, tone: second_tone },
    )
}

/// An empty line.
pub open spec fn blank() -> Seq<PieceView> {
    one(Seq::empty(), Tone::Plain)
}

fn make_one(text: String, tone: Tone) -> (line: Vec<Piece>)
    ensures
        line_view(line@) == one(text@, tone),
{
    let mut line: Vec<Piece> = Vec::new();
    line.push(Piece { text, tone });
    assert(line_view(line@) =~= one(text@, tone));
    line
}

fn make_two(first: String, first_tone: Tone, second: String, second_tone: Tone) -> (line: Vec<
    Piece,
>)
    ensures
        line_view(line@) == two(first@, first_tone, second@, second_tone),
{
    let mut line: Vec<Piece> = Vec::new();
    line.push(Piece { text: first, tone: first_tone });
    line.push(Piece { text: second, tone: second_tone });
    assert(line_view(line@) =~= two(first@, first_tone, second@, second_tone));
    line
}

fn make_blank() -> (line: Vec<Piece>)
    ensures
        line_view(line@) == blank(),
{
    make_one(String::new(), Tone::Plain)
}

fn no_lines() -> (lines: Vec<Vec<Piece>>)
    ensures
        lines_view(lines@) == Seq::<Seq<PieceView>>::empty(),
{
    let lines: Vec<Vec<Piece>> = Vec::new();
    assert(lines_view(lines@) =~= Seq::<Seq<PieceView>>::empty());
    lines
}

fn put(lines: &mut Vec<Vec<Piece>>, line: Vec<Piece>)
    ensures
        lines_view(final(lines)@) == lines_view(old(lines)@).push(line_view(line@)),
{
    lines.push(line);
    assert(lines_view(lines@) =~= lines_view(old(lines)@).push(line_view(line@)));
}

/// `IPv6` or `IPv4`.
pub open spec fn family_text(v6: bool) -> Seq<char> {
    if v6 {
        "IPv6"@
    } else {
        "IPv4"@
    }
}

/// The lines `so_far` with those of the first `n` addresses behind them:
/// for each its number, family and address, then its netmask and its
/// broadcast address where it has them.
pub open spec fn with_address_lines(
    so_far: Seq<Seq<PieceView>>,
    list: Seq<AddressView>,
    n: nat,
) -> Seq<Seq<PieceView>>
    decreases n,
{
    if n == 0 {
        so_far
    } else {
        let before = with_address_lines(so_far, list, (n - 1) as nat);
        let address = list[n - 1];
        let head = before.push(
            two(
                "  "@ + digits(n) + ". "@ + family_text(address.v6) + " "@,
                Tone::Plain,
                address.ip,
                Tone::Good,
            ),
        );
        let masked = match address.netmask {
            Some(mask) => head.push(two("     Netmask: "@, Tone::Plain, mask, Tone::Plain)),
            None => head,
        };
        match address.broadcast {
            Some(broadcast) => masked.push(
                two("     Broadcast: "@, Tone::Plain, broadcast, Tone::Plain),
            ),
            None => masked,
        }
    }
}

/// The lines `so_far` with one numbered line for each of the first `n`
/// servers behind them.
pub open spec fn with_server_lines(
    so_far: Seq<Seq<PieceView>>,
    servers: Seq<Seq<char>>,
    n: nat,
) -> Seq<Seq<PieceView>>
    decreases n,
{
    if n == 0 {
        so_far
    } else {
        with_server_lines(so_far, servers, (n - 1) as nat).push(
            one("  "@ + digits(n) + ". "@ + servers[n - 1], Tone::Plain),
        )
    }
}

/// The lines `so_far` with one dashed line for each of the first `n`
/// domains behind them.
pub open spec fn with_domain_lines(
    so_far: Seq<Seq<PieceView>>,
    domains: Seq<Seq<char>>,
    n: nat,
) -> Seq<Seq<PieceView>>
    decreases n,
{
    if n == 0 {
        so_far
    } else {
        with_domain_lines(so_far, domains, (n - 1) as nat).push(
            one("  - "@ + domains[n - 1], Tone::Plain),
        )
    }
}

/// The lines of the details screen for an interface: name, type, status and
/// MAC address; the wireless network and the MTU where they are known; the
/// addresses; the DNS servers; and the search domains where there are any.
pub open spec fn details_text(iface: InterfaceView, dns: DnsView) -> Seq<Seq<PieceView>> {
    let head = seq![two("Interface: "@, Tone::Label, iface.name, Tone::Plain)].push(
        two("Type: "@, Tone::Label, iface.interface_type.label(), Tone::Plain),
    ).push(
        if iface.is_up {
            two("Status: "@, Tone::Label, "UP"@, Tone::Good)
        } else {
            two("Status: "@, Tone::Label, "DOWN"@, Tone::Bad)
        },
    ).push(
        two(
            "MAC Address: "@,
            Tone::Label,
            match iface.mac_address {
                Some(mac) => mac,
                None => "N/A"@,
            },
            Tone::Plain,
        ),
    );
    let with_ssid = match iface.ssid {
        Some(ssid) => head.push(two("WiFi SSID: "@, Tone::Label, ssid, Tone::Accent)),
        None => head,
    };
    let with_mtu = match iface.mtu {
        Some(mtu) => with_ssid.push(two("MTU: "@, Tone::Label, digits(mtu as nat), Tone::Plain)),
        None => with_ssid,
    };
    let with_addresses = with_address_lines(
        with_mtu.push(blank()).push(one("IP Addresses:"@, Tone::Heading)),
        iface.ip_addresses,
        iface.ip_addresses.len(),
    );
    let with_servers = with_server_lines(
        with_addresses.push(blank()).push(one("DNS Configuration:"@, Tone::Heading)),
        dns.nameservers,
        dns.nameservers.len(),
    );
    if dns.search_domains.len() == 0 {
        with_servers
    } else {
        with_domain_lines(
            with_servers.push(blank()).push(one("Search Domains:"@, Tone::Heading)),
            dns.search_domains,
            dns.search_domains.len(),
        )
    }
}

/// The lines of the details screen for an interface.
pub fn details_lines(iface: &NetworkInterface, dns: &DnsConfiguration) -> (lines: Vec<Vec<Piece>>)
    ensures
        lines_view(lines@) == details_text(iface@, dns@),
{
    let mut lines = no_lines();
    put(
        &mut lines,
        make_two(String::from_str("Interface: "), Tone::Label, iface.name.clone(), Tone::Plain),
    );
    put(
        &mut lines,
        make_two(
            String::from_str("Type: "),
            Tone::Label,
            String::from_str(iface.interface_type.as_str()),
            Tone::Plain,
        ),
    );
    if iface.is_up {
        put(
            &mut lines,
            make_two(
                String::from_str("Status: "),
                Tone::Label,
                String::from_str("UP"),
                Tone::Good,
            ),
        );
    } else {
        put(
            &mut lines,
            make_two(
                String::from_str("Status: "),
                Tone::Label,
                String::from_str("DOWN"),
                Tone::Bad,
            ),
        );
    }
    let mac = match &iface.mac_address {
        Some(mac) => mac.clone(),
        None => String::from_str("N/A"),
    };
    put(&mut lines, make_two(String::from_str("MAC Address: "), Tone::Label, mac, Tone::Plain));
    match &iface.ssid {
        Some(ssid) => {
            put(
                &mut lines,
                make_two(String::from_str("WiFi SSID: "), Tone::Label, ssid.clone(), Tone::Accent),
            );
        },
        None => {},
    }
    match iface.mtu {
        Some(mtu) => {
            put(
                &mut lines,
                make_two(
                    String::from_str("MTU: "),
                    Tone::Label,
                    decimal(mtu as u128),
                    Tone::Plain,
                ),
            );
        },
        None => {},
    }
    put(&mut lines, make_blank());
    put(&mut lines, make_one(String::from_str("IP Addresses:"), Tone::Heading));
    let ghost start = lines_view(lines@);
    let ghost list = iface@.ip_addresses;
    assert(list.len() == iface.ip_addresses.len());
    let mut i: usize = 0;
    while i < iface.ip_addresses.len()
        invariant
            i <= iface.ip_addresses.len(),
            list == iface@.ip_addresses,
            list.len() == iface.ip_addresses.len(),
            lines_view(lines@) == with_address_lines(start, list, i as nat),
        decreases iface.ip_addresses.len() - i,
    {
        let address = &iface.ip_addresses[i];
        assert(list[i as int] == address@);
        let mut head = concat3("  ", decimal(i as u128 + 1).as_str(), ". ");
        if address.v6 {
            head.append("IPv6");
        } else {
            head.append("IPv4");
        }
        head.append(" ");
        put(&mut lines, make_two(head, Tone::Plain, address.ip.clone(), Tone::Good));
        match &address.netmask {
            Some(mask) => {
                put(
                    &mut lines,
                    make_two(
                        String::from_str("     Netmask: "),
                        Tone::Plain,
                        mask.clone(),
                        Tone::Plain,
                    ),
                );
            },
            None => {},
        }
        match &address.broadcast {
            Some(broadcast) => {
                put(
                    &mut lines,
                    make_two(
                        String::from_str("     Broadcast: "),
                        Tone::Plain,
                        broadcast.clone(),
                        Tone::Plain,
                    ),
                );
            },
            None => {},
        }
        i += 1;
    }
    put(&mut lines, make_blank());
    put(&mut lines, make_one(String::from_str("DNS Configuration:"), Tone::Heading));
    let ghost start = lines_view(lines@);
    let ghost servers = dns@.nameservers;
    assert(servers.len() == dns.nameservers.len());
    let mut i: usize = 0;
    while i < dns.nameservers.len()
        invariant
            i <= dns.nameservers.len(),
            servers == dns@.nameservers,
            servers.len() == dns.nameservers.len(),
            lines_view(lines@) == with_server_lines(start, servers, i as nat),
        decreases dns.nameservers.len() - i,
    {
        assert(servers[i as int] == dns.nameservers@[i as int]@);
        let mut line = concat3("  ", decimal(i as u128 + 1).as_str(), ". ");
        line.append(dns.nameservers[i].as_str());
        put(&mut lines, make_one(line, Tone::Plain));
        i += 1;
    }
    let ghost domains = dns@.search_domains;
    assert(domains.len() == dns.search_domains.len());
    if dns.search_domains.len() > 0 {
        put(&mut lines, make_blank());
        put(&mut lines, make_one(String::from_str("Search Domains:"), Tone::Heading));
        let ghost start = lines_view(lines@);
        let mut i: usize = 0;
        while i < dns.search_domains.len()
            invariant
                i <= dns.search_domains.len(),
                domains == dns@.search_domains,
                domains.len() == dns.search_domains.len(),
                lines_view(lines@) == with_domain_lines(start, domains, i as nat),
            decreases dns.search_domains.len() - i,
        {
            assert(domains[i as int] == dns.search_domains@[i as int]@);
            put(
                &mut lines,
                make_one(concat2("  - ", dns.search_domains[i].as_str()), Tone::Plain),
            );
            i += 1;
        }
    }
    lines
}

/// The tone of a field of an edit session: active where the cursor is.
pub open spec fn field_tone(cursor: usize, field: usize) -> Tone {
    if cursor == field {
        Tone::Active
    } else {
        Tone::Plain
    }
}

fn tone_of_field(cursor: usize, field: usize) -> (tone: Tone)
    ensures
        tone == field_tone(cursor, field),
{
    if cursor == field {
        Tone::Active
    } else {
        Tone::Plain
    }
}

/// `t`, or the stand-in where `t` is empty.
pub open spec fn or_else(t: Seq<char>, stand_in: Seq<char>) -> Seq<char> {
    if t.len() == 0 {
        stand_in
    } else {
        t
    }
}

fn text_or(t: &String, stand_in: &str) -> (out: String)
    ensures
        out@ == or_else(t@, stand_in@),
{
    if t.as_str().is_empty() {
        String::from_str(stand_in)
    } else {
        t.clone()
    }
}

/// The lines of the IPv4 session: the interface and the mode, and in static
/// mode the three fields, the one under the cursor marked.
pub open spec fn edit_ip_text(name: Seq<char>, s: IpEditView) -> Seq<Seq<PieceView>> {
    let head = seq![two("Interface: "@, Tone::Field, name, Tone::Plain)].push(blank()).push(
        two("Configuration Mode: "@, Tone::Field, ip_mode_text(s.mode), Tone::Plain),
    );
    if s.mode == IpConfigMode::Static {
        head.push(blank()).push(
            two("IP Address: "@, Tone::Field, s.ip_buffer, field_tone(s.current_field, 1)),
        ).push(
            two("Netmask: "@, Tone::Field, s.netmask_buffer, field_tone(s.current_field, 2)),
        ).push(
            two(
                "Gateway (optional): "@,
                Tone::Field,
                or_else(s.gateway_buffer, "None"@),
                field_tone(s.current_field, 3),
            ),
        )
    } else {
        head
    }
}

/// The lines of the IPv4 session for the interface of this name.
pub fn edit_ip_lines(name: &str, state: &IpEditState) -> (lines: Vec<Vec<Piece>>)
    ensures
        lines_view(lines@) == edit_ip_text(name@, state@),
{
    let mut lines = no_lines();
    put(
        &mut lines,
        make_two(
            String::from_str("Interface: "),
            Tone::Field,
            String::from_str(name),
            Tone::Plain,
        ),
    );
    put(&mut lines, make_blank());
    put(
        &mut lines,
        make_two(
            String::from_str("Configuration Mode: "),
            Tone::Field,
            String::from_str(ip_mode_boxes(state.mode)),
            Tone::Plain,
        ),
    );
    if state.mode == IpConfigMode::Static {
        put(&mut lines, make_blank());
        put(
            &mut lines,
            make_two(
                String::from_str("IP Address: "),
                Tone::Field,
                state.ip_buffer.clone(),
                tone_of_field(state.current_field, 1),
            ),
        );
        put(
            &mut lines,
            make_two(
                String::from_str("Netmask: "),
                Tone::Field,
                state.netmask_buffer.clone(),
                tone_of_field(state.current_field, 2),
            ),
        );
        put(
            &mut lines,
            make_two(
                String::from_str("Gateway (optional): "),
                Tone::Field,
                text_or(&state.gateway_buffer, "None"),
                tone_of_field(state.current_field, 3),
            ),
        );
    }
    lines
}

/// The lines `so_far` with one numbered line for each of the first `n`
/// entries behind them; the entry at `chosen`, if that is one, is marked,
/// and an empty entry shows the stand-in.
pub open spec fn with_entry_lines(
    so_far: Seq<Seq<PieceView>>,
    entries: Seq<Seq<char>>,
    chosen: Option<usize>,
    stand_in: Seq<char>,
    n: nat,
) -> Seq<Seq<PieceView>>
    decreases n,
{
    if n == 0 {
        so_far
    } else {
        with_entry_lines(so_far, entries, chosen, stand_in, (n - 1) as nat).push(
            two(
                "  "@ + digits(n) + ". "@,
                Tone::Plain,
                or_else(entries[n - 1], stand_in),
                if chosen == Some((n - 1) as usize) {
                    Tone::Chosen
                } else {
                    Tone::Plain
                },
            ),
        )
    }
}

fn put_entries(
    lines: &mut Vec<Vec<Piece>>,
    entries: &Vec<String>,
    chosen: Option<usize>,
    stand_in: &str,
)
    ensures
        lines_view(final(lines)@) == with_entry_lines(
            lines_view(old(lines)@),
            texts(entries@),
            chosen,
            stand_in@,
            entries.len() as nat,
        ),
{
    let ghost start = lines_view(lines@);
    let ghost list = texts(entries@);
    assert(list.len() == entries.len());
    let mut i: usize = 0;
    while i < entries.len()
        invariant
            i <= entries.len(),
            list == texts(entries@),
            list.len() == entries.len(),
            lines_view(lines@) == with_entry_lines(start, list, chosen, stand_in@, i as nat),
        decreases entries.len() - i,
    {
        assert(list[i as int] == entries@[i as int]@);
        let tone = match chosen {
            Some(at) => if at == i {
                Tone::Chosen
            } else {
                Tone::Plain
            },
            None => Tone::Plain,
        };
        put(
            lines,
            make_two(
                concat3("  ", decimal(i as u128 + 1).as_str(), ". "),
                Tone::Plain,
                text_or(&entries[i], stand_in),
                tone,
            ),
        );
        i += 1;
    }
}

/// The cursor of a section of the DNS session, if that section is the
/// active one.
pub open spec fn chosen_in(s: DnsEditView, section: usize) -> Option<usize> {
    if section == 0 {
        if s.current_field == 0 {
            Some(s.server_index)
        } else {
            None
        }
    } else if s.current_field == 1 {
        Some(s.domain_index)
    } else {
        None
    }
}

/// The lines of the DNS session: the servers, numbered, then the search
/// domains, numbered, or a note that there are none; the entry under the
/// cursor is marked.
pub open spec fn edit_dns_text(s: DnsEditView) -> Seq<Seq<PieceView>> {
    let servers = with_entry_lines(
        seq![one("DNS Servers:"@, Tone::Heading)],
        s.dns_servers,
        chosen_in(s, 0),
        "<empty>"@,
        s.dns_servers.len(),
    ).push(blank()).push(one("Search Domains:"@, Tone::Heading));
    if s.search_domains.len() == 0 {
        servers.push(one("  (none)"@, Tone::Plain))
    } else {
        with_entry_lines(
            servers,
            s.search_domains,
            chosen_in(s, 1),
            Seq::empty(),
            s.search_domains.len(),
        )
    }
}

/// The lines of the DNS session.
pub fn edit_dns_lines(state: &DnsEditState) -> (lines: Vec<Vec<Piece>>)
    ensures
        lines_view(lines@) == edit_dns_text(state@),
{
    proof {
        reveal_strlit("");
    }
    let mut lines = no_lines();
    put(&mut lines, make_one(String::from_str("DNS Servers:"), Tone::Heading));
    let chosen_server = if state.current_field == 0 {
        Some(state.server_index)
    } else {
        None
    };
    put_entries(&mut lines, &state.dns_servers, chosen_server, "<empty>");
    put(&mut lines, make_blank());
    put(&mut lines, make_one(String::from_str("Search Domains:"), Tone::Heading));
    assert(texts(state.search_domains@).len() == state.search_domains.len());
    if state.search_domains.len() == 0 {
        put(&mut lines, make_one(String::from_str("  (none)"), Tone::Plain));
    } else {
        let chosen_domain = if state.current_field == 1 {
            Some(state.domain_index)
        } else {
            None
        };
        assert(""@ =~= Seq::<char>::empty());
        put_entries(&mut lines, &state.search_domains, chosen_domain, "");
    }
    lines
}

/// The lines of the IPv6 session: the interface and the switch, and while
/// IPv6 is enabled the address and the prefix length, the one under the
/// cursor marked.
pub open spec fn edit_ipv6_text(name: Seq<char>, s: Ipv6EditView) -> Seq<Seq<PieceView>> {
    let head = seq![two("Interface: "@, Tone::Field, name, Tone::Plain)].push(blank()).push(
        two("IPv6 Status: "@, Tone::Field, ipv6_switch_text(s.enabled), Tone::Plain),
    );
    if s.enabled {
        head.push(blank()).push(one("IPv6 Address (optional for static): "@, Tone::Field)).push(
            two(
                "  "@,
                Tone::Plain,
                or_else(s.ip_buffer, "Auto (SLAAC)"@),
                field_tone(s.current_field, 1),
            ),
        ).push(
            two("Prefix Length: "@, Tone::Field, s.prefix_buffer, field_tone(s.current_field, 2)),
        )
    } else {
        head
    }
}

/// The lines of the IPv6 session for the interface of this name.
pub fn edit_ipv6_lines(name: &str, state: &Ipv6EditState) -> (lines: Vec<Vec<Piece>>)
    ensures
        lines_view(lines@) == edit_ipv6_text(name@, state@),
{
    let mut lines = no_lines();
    put(
        &mut lines,
        make_two(
            String::from_str("Interface: "),
            Tone::Field,
            String::from_str(name),
            Tone::Plain,
        ),
    );
    put(&mut lines, make_blank());
    put(
        &mut lines,
        make_two(
            String::from_str("IPv6 Status: "),
            Tone::Field,
            String::from_str(ipv6_switch_boxes(state.enabled)),
            Tone::Plain,
        ),
    );
    if state.enabled {
        put(&mut lines, make_blank());
        put(
            &mut lines,
            make_one(String::from_str("IPv6 Address (optional for static): "), Tone::Field),
        );
        put(
            &mut lines,
            make_two(
                String::from_str("  "),
                Tone::Plain,
                text_or(&state.ip_buffer, "Auto (SLAAC)"),
                tone_of_field(state.current_field, 1),
            ),
        );
        put(
            &mut lines,
            make_two(
                String::from_str("Prefix Length: "),
                Tone::Field,
                state.prefix_buffer.clone(),
                tone_of_field(state.current_field, 2),
            ),
        );
    }
    lines
}

/// The places of a list of `len` items that a window of `size` items shows
/// from `offset` on.
pub fn window(len: usize, offset: usize, size: usize) -> (range: (usize, usize))
    ensures
        range.0 == least(offset as int, len as int),
        range.1 == least(offset + size, len as int),
        range.0 <= range.1 <= len,
{
    if offset >= len {
        (len, len)
    } else if size >= len - offset {
        (offset, len)
    } else {
        (offset, offset + size)
    }
}

} // verus!
