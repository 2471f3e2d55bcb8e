//! The three edit sessions: IPv4, DNS and IPv6. Each holds copies of the
//! values being edited and a cursor; nothing here touches an interface.

use vstd::prelude::*;
use crate::models::IpConfigMode;
use crate::text::{pop_char, push_char, texts};

verus! {

/// The IPv4 session: field 0 is the mode, 1 the address, 2 the netmask and
/// 3 the gateway.
#[derive(Debug, Clone)]
pub struct IpEditState {
    pub mode: IpConfigMode,
    pub ip_buffer: String,
    pub netmask_buffer: String,
    pub gateway_buffer: String,
    pub current_field: usize,
}

/// The view of an [`IpEditState`].
pub struct IpEditView {
    pub mode: IpConfigMode,
    pub ip_buffer: Seq<char>,
    pub netmask_buffer: Seq<char>,
    pub gateway_buffer: Seq<char>,
    pub current_field: usize,
}

impl View for IpEditState {
    type V = IpEditView;

    open spec fn view(&self) -> IpEditView {
        IpEditView {
            mode: self.mode,
            ip_buffer: self.ip_buffer@,
            netmask_buffer: self.netmask_buffer@,
            gateway_buffer: self.gateway_buffer@,
            current_field: self.current_field,
        }
    }
}

/// `t` without its last character, if it has one.
pub open spec fn chopped(t: Seq<char>) -> Seq<char> {
    if t.len() > 0 {
        t.drop_last()
    } else {
        t
    }
}

impl IpEditView {
    /// Tab: from the mode field always to the address; further on only in
    /// static mode, and never past the gateway.
    pub open spec fn tab(self) -> IpEditView {
        if self.current_field == 0 {
            IpEditView { current_field: 1, ..self }
        } else if self.mode == IpConfigMode::Static {
            IpEditView {
                current_field: if self.current_field < 3 {
                    (self.current_field + 1) as usize
                } else {
                    3
                },
                ..self
            }
        } else {
            self
        }
    }

    /// Shift-Tab: one field back, never below the mode field.
    pub open spec fn back_tab(self) -> IpEditView {
        if self.current_field > 0 {
            IpEditView { current_field: (self.current_field - 1) as usize, ..self }
        } else {
            self
        }
    }

    /// The other mode.
    pub open spec fn toggle_mode(self) -> IpEditView {
        IpEditView {
            mode: if self.mode == IpConfigMode::DHCP {
                IpConfigMode::Static
            } else {
                IpConfigMode::DHCP
            },
            ..self
        }
    }

    /// A character typed into the buffer under the cursor.
    pub open spec fn insert(self, c: char) -> IpEditView {
        if self.current_field == 1 {
            IpEditView { ip_buffer: self.ip_buffer.push(c), ..self }
        } else if self.current_field == 2 {
            IpEditView { netmask_buffer: self.netmask_buffer.push(c), ..self }
        } else if self.current_field == 3 {
            IpEditView { gateway_buffer: self.gateway_buffer.push(c), ..self }
        } else {
            self
        }
    }

    /// Backspace in the buffer under the cursor.
    pub open spec fn backspace(self) -> IpEditView {
        if self.current_field == 1 {
            IpEditView { ip_buffer: chopped(self.ip_buffer), ..self }
        } else if self.current_field == 2 {
            IpEditView { netmask_buffer: chopped(self.netmask_buffer), ..self }
        } else if self.current_field == 3 {
            IpEditView { gateway_buffer: chopped(self.gateway_buffer), ..self }
        } else {
            self
        }
    }
}

impl IpEditState {
    /// Tab: moves the cursor to the next field, as far as the session allows.
    pub fn tab(&mut self)
        ensures
            final(self)@ == old(self)@.tab(),
    {
        if self.current_field == 0 {
            self.current_field = 1;
        } else if self.mode == IpConfigMode::Static {
            if self.current_field < 3 {
                self.current_field = self.current_field + 1;
            } else {
                self.current_field = 3;
            }
        }
    }

    /// Shift-Tab: moves the cursor one field back, never below the first.
    pub fn back_tab(&mut self)
        ensures
            final(self)@ == old(self)@.back_tab(),
    {
        if self.current_field > 0 {
            self.current_field = self.current_field - 1;
        }
    }

    /// Switches between DHCP and static.
    pub fn toggle_mode(&mut self)
        ensures
            final(self)@ == old(self)@.toggle_mode(),
    {
        self.mode = match self.mode {
            IpConfigMode::DHCP => IpConfigMode::Static,
            IpConfigMode::Static => IpConfigMode::DHCP,
        };
    }

    /// Types a character into what is under the cursor.
    pub fn insert(&mut self, c: char)
        ensures
            final(self)@ == old(self)@.insert(c),
    {
        if self.current_field == 1 {
            push_char(&mut self.ip_buffer, c);
        } else if self.current_field == 2 {
            push_char(&mut self.netmask_buffer, c);
        } else if self.current_field == 3 {
            push_char(&mut self.gateway_buffer, c);
        }
    }

    /// Removes the last character of what is under the cursor.
    pub fn backspace(&mut self)
        ensures
            final(self)@ == old(self)@.backspace(),
    {
        if self.current_field == 1 {
            let _ = pop_char(&mut self.ip_buffer);
        } else if self.current_field == 2 {
            let _ = pop_char(&mut self.netmask_buffer);
        } else if self.current_field == 3 {
            let _ = pop_char(&mut self.gateway_buffer);
        }
    }
}

/// The DNS session: two lists, servers (section 0) and search domains (any
/// other section), each with its own cursor.
#[derive(Debug, Clone)]
pub struct DnsEditState {
    pub dns_servers: Vec<String>,
    pub search_domains: Vec<String>,
    pub current_field: usize,
    pub server_index: usize,
    pub domain_index: usize,
    pub edit_buffer: String,
}

/// The view of a [`DnsEditState`].
pub struct DnsEditView {
    pub dns_servers: Seq<Seq<char>>,
    pub search_domains: Seq<Seq<char>>,
    pub current_field: usize,
    pub server_index: usize,
    pub domain_index: usize,
    pub edit_buffer: Seq<char>,
}

impl View for DnsEditState {
    type V = DnsEditView;

    open spec fn view(&self) -> DnsEditView {
        DnsEditView {
            dns_servers: texts(self.dns_servers@),
            search_domains: texts(self.search_domains@),
            current_field: self.current_field,
            server_index: self.server_index,
            domain_index: self.domain_index,
            edit_buffer: self.edit_buffer@,
        }
    }
}

/// A cursor is inside its list, or at 0 when the list is empty.
pub open spec fn cursor_ok(cursor: usize, len: nat) -> bool {
    if len == 0 {
        cursor == 0
    } else {
        cursor < len
    }
}

/// The cursor one step up.
pub open spec fn cursor_up(cursor: usize) -> usize {
    if cursor > 0 {
        (cursor - 1) as usize
    } else {
        cursor
    }
}

/// The cursor one step down in a list of `len` entries.
pub open spec fn cursor_down(cursor: usize, len: nat) -> usize {
    if cursor + 1 < len {
        (cursor + 1) as usize
    } else {
        cursor
    }
}

/// The list without the entry under the cursor.
pub open spec fn without(list: Seq<Seq<char>>, cursor: usize) -> Seq<Seq<char>> {
    if list.len() > 0 {
        list.remove(cursor as int)
    } else {
        list
    }
}

/// Where the cursor stands once the entry under it is gone: one step back
/// if it would else stand behind the list.
pub open spec fn cursor_after_delete(cursor: usize, len: nat) -> usize {
    if len > 0 && cursor >= len - 1 && cursor > 0 {
        (cursor - 1) as usize
    } else {
        cursor
    }
}

/// The list with `c` typed into the entry under the cursor.
pub open spec fn typed(list: Seq<Seq<char>>, cursor: usize, c: char) -> Seq<Seq<char>> {
    if cursor < list.len() {
        list.update(cursor as int, list[cursor as int].push(c))
    } else {
        list
    }
}

/// The list with the last character of the entry under the cursor removed.
pub open spec fn erased(list: Seq<Seq<char>>, cursor: usize) -> Seq<Seq<char>> {
    if cursor < list.len() {
        list.update(cursor as int, chopped(list[cursor as int]))
    } else {
        list
    }
}

impl DnsEditView {
    /// Both cursors are inside their lists.
    pub open spec fn wf(self) -> bool {
        &&& cursor_ok(self.server_index, self.dns_servers.len())
        &&& cursor_ok(self.domain_index, self.search_domains.len())
    }

    /// Tab: the other section, both cursors at the top.
    pub open spec fn switch_section(self) -> DnsEditView {
        DnsEditView {
            current_field: if self.current_field % 2 == 0 {
                1
            } else {
                0
            },
            server_index: 0,
            domain_index: 0,
            ..self
        }
    }

    /// The active cursor one entry up, not above the first.
    pub open spec fn move_up(self) -> DnsEditView {
        if self.current_field == 0 {
            DnsEditView { server_index: cursor_up(self.server_index), ..self }
        } else {
            DnsEditView { domain_index: cursor_up(self.domain_index), ..self }
        }
    }

    /// The active cursor one entry down, not below the last.
    pub open spec fn move_down(self) -> DnsEditView {
        if self.current_field == 0 {
            DnsEditView {
                server_index: cursor_down(self.server_index, self.dns_servers.len()),
                ..self
            }
        } else {
            DnsEditView {
                domain_index: cursor_down(self.domain_index, self.search_domains.len()),
                ..self
            }
        }
    }

    /// A new empty entry at the end of the active list, with the cursor on it.
    pub open spec fn append_entry(self) -> DnsEditView {
        if self.current_field == 0 {
            DnsEditView {
                dns_servers: self.dns_servers.push(Seq::empty()),
                server_index: self.dns_servers.len() as usize,
                ..self
            }
        } else {
            DnsEditView {
                search_domains: self.search_domains.push(Seq::empty()),
                domain_index: self.search_domains.len() as usize,
                ..self
            }
        }
    }

    /// The entry under the active cursor removed.
    pub open spec fn delete_entry(self) -> DnsEditView {
        if self.current_field == 0 {
            DnsEditView {
                dns_servers: without(self.dns_servers, self.server_index),
                server_index: cursor_after_delete(self.server_index, self.dns_servers.len()),
                ..self
            }
        } else {
            DnsEditView {
                search_domains: without(self.search_domains, self.domain_index),
                domain_index: cursor_after_delete(self.domain_index, self.search_domains.len()),
                ..self
            }
        }
    }

    /// A character typed into the entry under the active cursor.
    pub open spec fn insert(self, c: char) -> DnsEditView {
        if self.current_field == 0 {
            DnsEditView { dns_servers: typed(self.dns_servers, self.server_index, c), ..self }
        } else {
            DnsEditView {
                search_domains: typed(self.search_domains, self.domain_index, c),
                ..self
            }
        }
    }

    /// Backspace in the entry under the active cursor.
    pub open spec fn backspace(self) -> DnsEditView {
        if self.current_field == 0 {
            DnsEditView { dns_servers: erased(self.dns_servers, self.server_index), ..self }
        } else {
            DnsEditView { search_domains: erased(self.search_domains, self.domain_index), ..self }
        }
    }
}

/// Appending an entry and deleting it at once gives both lists back as they
/// were.
pub proof fn append_then_delete_restores(s: DnsEditView)
    requires
        s.dns_servers.len() < usize::MAX,
        s.search_domains.len() < usize::MAX,
    ensures
        s.append_entry().delete_entry().dns_servers == s.dns_servers,
        s.append_entry().delete_entry().search_domains == s.search_domains,
        s.append_entry().delete_entry().current_field == s.current_field,
{
    if s.current_field == 0 {
        assert(s.dns_servers.push(Seq::empty()).remove(s.dns_servers.len() as int)
            =~= s.dns_servers);
    } else {
        assert(s.search_domains.push(Seq::empty()).remove(s.search_domains.len() as int)
            =~= s.search_domains);
    }
}

/// Every step of the DNS session keeps both cursors inside their lists, and
/// at 0 where a list is empty.
pub proof fn dns_cursor_stays_inside(s: DnsEditView, c: char)
    requires
        s.wf(),
        s.dns_servers.len() < usize::MAX,
        s.search_domains.len() < usize::MAX,
    ensures
        s.switch_section().wf(),
        s.move_up().wf(),
        s.move_down().wf(),
        s.append_entry().wf(),
        s.delete_entry().wf(),
        s.insert(c).wf(),
        s.backspace().wf(),
{
}

/// `list[cursor]` with `c` at its end, put back in its place.
fn type_into(list: &mut Vec<String>, cursor: usize, c: char)
    ensures
        texts(final(list)@) == typed(texts(old(list)@), cursor, c),
{
    if cursor < list.len() {
        let mut entry = list[cursor].clone();
        push_char(&mut entry, c);
        list.set(cursor, entry);
        assert(texts(list@) =~= typed(texts(old(list)@), cursor, c));
    }
}

/// `list[cursor]` without its last character, put back in its place.
fn erase_from(list: &mut Vec<String>, cursor: usize)
    ensures
        texts(final(list)@) == erased(texts(old(list)@), cursor),
{
    if cursor < list.len() {
        let mut entry = list[cursor].clone();
        let _ = pop_char(&mut entry);
        list.set(cursor, entry);
        assert(texts(list@) =~= erased(texts(old(list)@), cursor));
    }
}

/// Removes `list[cursor]` from a list that is not empty.
fn delete_from(list: &mut Vec<String>, cursor: usize)
    requires
        cursor_ok(cursor, old(list).len() as nat),
    ensures
        texts(final(list)@) == without(texts(old(list)@), cursor),
        final(list).len() == if old(list).len() > 0 {
            old(list).len() - 1
        } else {
            0
        },
{
    if list.len() > 0 {
        let _ = list.remove(cursor);
        assert(texts(list@) =~= without(texts(old(list)@), cursor));
    }
}

impl DnsEditState {
    /// Whether both cursors are inside their lists.
    pub fn is_well_formed(&self) -> (ok: bool)
        ensures
            ok == self@.wf(),
    {
        assert(texts(self.dns_servers@).len() == self.dns_servers.len());
        assert(texts(self.search_domains@).len() == self.search_domains.len());
        let servers_ok = if self.dns_servers.len() == 0 {
            self.server_index == 0
        } else {
            self.server_index < self.dns_servers.len()
        };
        let domains_ok = if self.search_domains.len() == 0 {
            self.domain_index == 0
        } else {
            self.domain_index < self.search_domains.len()
        };
        servers_ok && domains_ok
    }

    /// Tab: goes to the other section and puts both cursors at the top.
    pub fn switch_section(&mut self)
        ensures
            final(self)@ == old(self)@.switch_section(),
    {
        self.current_field = if self.current_field % 2 == 0 {
            1
        } else {
            0
        };
        self.server_index = 0;
        self.domain_index = 0;
    }

    /// Moves the active cursor one entry up, not above the first.
    pub fn move_up(&mut self)
        ensures
            final(self)@ == old(self)@.move_up(),
    {
        if self.current_field == 0 {
            if self.server_index > 0 {
                self.server_index = self.server_index - 1;
            }
        } else if self.domain_index > 0 {
            self.domain_index = self.domain_index - 1;
        }
    }

    /// Moves the active cursor one entry down, not below the last.
    pub fn move_down(&mut self)
        ensures
            final(self)@ == old(self)@.move_down(),
    {
        if self.current_field == 0 {
            if self.server_index < self.dns_servers.len() && self.server_index + 1
                < self.dns_servers.len() {
                self.server_index = self.server_index + 1;
            }
        } else if self.domain_index < self.search_domains.len() && self.domain_index + 1
            < self.search_domains.len() {
            self.domain_index = self.domain_index + 1;
        }
    }

    /// Adds an empty entry to the end of the active list and selects it.
    pub fn append_entry(&mut self)
        ensures
            final(self)@ == old(self)@.append_entry(),
    {
        if self.current_field == 0 {
            self.server_index = self.dns_servers.len();
            self.dns_servers.push(String::new());
            assert(texts(self.dns_servers@) =~= texts(old(self).dns_servers@).push(Seq::empty()));
        } else {
            self.domain_index = self.search_domains.len();
            self.search_domains.push(String::new());
            assert(texts(self.search_domains@) =~= texts(old(self).search_domains@).push(
                Seq::empty(),
            ));
        }
    }

    /// Removes the entry under the active cursor; the cursor steps back if it
    /// would else stand behind the list.
    pub fn delete_entry(&mut self)
        requires
            old(self)@.wf(),
        ensures
            final(self)@ == old(self)@.delete_entry(),
    {
        if self.current_field == 0 {
            if self.dns_servers.len() > 0 {
                delete_from(&mut self.dns_servers, self.server_index);
                if self.server_index >= self.dns_servers.len() && self.server_index > 0 {
                    self.server_index = self.server_index - 1;
                }
            }
        } else if self.search_domains.len() > 0 {
            delete_from(&mut self.search_domains, self.domain_index);
            if self.domain_index >= self.search_domains.len() && self.domain_index > 0 {
                self.domain_index = self.domain_index - 1;
            }
        }
    }

    /// Types a character into what is under the cursor.
    pub fn insert(&mut self, c: char)
        ensures
            final(self)@ == old(self)@.insert(c),
    {
        if self.current_field == 0 {
            type_into(&mut self.dns_servers, self.server_index, c);
        } else {
            type_into(&mut self.search_domains, self.domain_index, c);
        }
    }

    /// Removes the last character of what is under the cursor.
    pub fn backspace(&mut self)
        ensures
            final(self)@ == old(self)@.backspace(),
    {
        if self.current_field == 0 {
            erase_from(&mut self.dns_servers, self.server_index);
        } else {
            erase_from(&mut self.search_domains, self.domain_index);
        }
    }
}

/// The IPv6 session: field 0 is the enabled flag, 1 the address and 2 the
/// prefix length.
#[derive(Debug, Clone)]
pub struct Ipv6EditState {
    pub enabled: bool,
    pub ip_buffer: String,
    pub prefix_buffer: String,
    pub current_field: usize,
}

/// The view of an [`Ipv6EditState`].
pub struct Ipv6EditView {
    pub enabled: bool,
    pub ip_buffer: Seq<char>,
    pub prefix_buffer: Seq<char>,
    pub current_field: usize,
}

impl View for Ipv6EditState {
    type V = Ipv6EditView;

    open spec fn view(&self) -> Ipv6EditView {
        Ipv6EditView {
            enabled: self.enabled,
            ip_buffer: self.ip_buffer@,
            prefix_buffer: self.prefix_buffer@,
            current_field: self.current_field,
        }
    }
}

impl Ipv6EditView {
    /// Tab: round the three fields, but only while IPv6 is enabled.
    pub open spec fn tab(self) -> Ipv6EditView {
        if self.enabled {
            Ipv6EditView { current_field: ((self.current_field + 1) % 3) as usize, ..self }
        } else {
            self
        }
    }

    /// Shift-Tab: one field back, never below the flag.
    pub open spec fn back_tab(self) -> Ipv6EditView {
        if self.current_field > 0 {
            Ipv6EditView { current_field: (self.current_field - 1) as usize, ..self }
        } else {
            self
        }
    }

    /// IPv6 switched on if it was off, and off if it was on.
    pub open spec fn toggle_enabled(self) -> Ipv6EditView {
        Ipv6EditView { enabled: !self.enabled, ..self }
    }

    /// A character typed into the entry under the active cursor.
    pub open spec fn insert(self, c: char) -> Ipv6EditView {
        if self.current_field == 1 {
            Ipv6EditView { ip_buffer: self.ip_buffer.push(c), ..self }
        } else if self.current_field == 2 {
            Ipv6EditView { prefix_buffer: self.prefix_buffer.push(c), ..self }
        } else {
            self
        }
    }

    /// Backspace in the entry under the active cursor.
    pub open spec fn backspace(self) -> Ipv6EditView {
        if self.current_field == 1 {
            Ipv6EditView { ip_buffer: chopped(self.ip_buffer), ..self }
        } else if self.current_field == 2 {
            Ipv6EditView { prefix_buffer: chopped(self.prefix_buffer), ..self }
        } else {
            self
        }
    }
}

impl Ipv6EditState {
    /// Tab: moves the cursor to the next field, as far as the session allows.
    pub fn tab(&mut self)
        ensures
            final(self)@ == old(self)@.tab(),
    {
        if self.enabled {
            self.current_field = (self.current_field % 3 + 1) % 3;
        }
    }

    /// Shift-Tab: moves the cursor one field back, never below the first.
    pub fn back_tab(&mut self)
        ensures
            final(self)@ == old(self)@.back_tab(),
    {
        if self.current_field > 0 {
            self.current_field = self.current_field - 1;
        }
    }

    /// Switches IPv6 on or off.
    pub fn toggle_enabled(&mut self)
        ensures
            final(self)@ == old(self)@.toggle_enabled(),
    {
        self.enabled = !self.enabled;
    }

    /// Types a character into what is under the cursor.
    pub fn insert(&mut self, c: char)
        ensures
            final(self)@ == old(self)@.insert(c),
    {
        if self.current_field == 1 {
            push_char(&mut self.ip_buffer, c);
        } else if self.current_field == 2 {
            push_char(&mut self.prefix_buffer, c);
        }
    }

    /// Removes the last character of what is under the cursor.
    pub fn backspace(&mut self)
        ensures
            final(self)@ == old(self)@.backspace(),
    {
        if self.current_field == 1 {
            let _ = pop_char(&mut self.ip_buffer);
        } else if self.current_field == 2 {
            let _ = pop_char(&mut self.prefix_buffer);
        }
    }
}

} // verus!
