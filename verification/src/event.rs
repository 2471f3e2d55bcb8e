//! The key dispatcher: one step of the state machine for each key, by mode.
//! A step changes the state and may ask for outside work, which the event
//! loop performs and then reports to the matching `finish_` operation.

use vstd::prelude::*;
use vstd::string::*;
use crate::app::{
    App, AppMode, AppView, CommandOutputView, ConfirmAction, ConfirmActionView, ShellCommand,
    ShellCommandView,
};
use crate::models::IpConfigMode;
use crate::text::concat2;

verus! {

/// The keys the dashboard tells apart.
#[derive(Debug, Clone, Copy, PartialEq, Eq, Structural)]
pub enum KeyCode {
    Char(char),
    Enter,
    Esc,
    Backspace,
    Tab,
    BackTab,
    Up,
    Down,
    PageUp,
    PageDown,
    Home,
    End,
    Other,
}

/// A key press: the key, and whether Control was held.
#[derive(Debug, Clone, Copy, PartialEq, Eq, Structural)]
pub struct KeyEvent {
    pub code: KeyCode,
    pub control: bool,
}

/// Outside work that a step asks the event loop to do.
#[derive(Debug, Clone)]
pub enum Effect {
    /// Nothing to do.
    Nothing,
    /// Fetch the interfaces and the DNS configuration, then call
    /// `App::finish_refresh` with what came and with this flag.
    Refresh(bool),
    /// Put `text` on the clipboard, then call `App::finish_copy` with
    /// `field`.
    Copy { field: String, text: String },
    /// Carry the action out, then call `App::finish_confirmed_action`; if
    /// that returns true, fetch as for `Refresh(false)`.
    Execute(ConfirmAction),
    /// Flush the DNS cache, then call `App::flush_dns_cache`.
    FlushDnsCache,
    /// Run the command, then call `App::finish_terminal_command`.
    Run(ShellCommand),
}

/// The view of an [`Effect`].
pub enum EffectView {
    Nothing,
    Refresh(bool),
    Copy { field: Seq<char>, text: Seq<char> },
    Execute(ConfirmActionView),
    FlushDnsCache,
    Run(ShellCommandView),
}

impl View for Effect {
    type V = EffectView;

    open spec fn view(&self) -> EffectView {
        match *self {
            Effect::Nothing => EffectView::Nothing,
            Effect::Refresh(announce) => EffectView::Refresh(announce),
            Effect::Copy { field, text } => EffectView::Copy { field: field@, text: text@ },
            Effect::Execute(action) => EffectView::Execute(action@),
            Effect::FlushDnsCache => EffectView::FlushDnsCache,
            Effect::Run(command) => EffectView::Run(command@),
        }
    }
}

impl AppView {
    /// The state with another mode.
    pub open spec fn in_mode(self, mode: AppMode) -> AppView {
        AppView { mode, ..self }
    }

    /// The state with the sort column moved one place in the ring, sorted
    /// anew, and the column announced.
    pub open spec fn cycle_sort(self, forward: bool) -> AppView {
        let column = if forward {
            self.sort_column.following()
        } else {
            self.sort_column.preceding()
        };
        AppView { sort_column: column, ..self }.apply_sort().set_status(
            "Sorted by "@ + column.title(),
        )
    }

    /// The request to copy a field of the selected row, if a row is selected.
    pub open spec fn copy_request(self, field: Seq<char>) -> EffectView {
        match self.copy_selected_field(field) {
            Some(text) => EffectView::Copy { field, text },
            None => EffectView::Nothing,
        }
    }

    /// A key in normal mode.
    pub open spec fn normal_step(self, key: KeyEvent) -> (AppView, EffectView) {
        match key.code {
            KeyCode::Char(c) => {
                if c == 'q' || c == 'Q' {
                    (AppView { should_quit: true, ..self }, EffectView::Nothing)
                } else if c == 'j' {
                    (self.next_item().clear_status(), EffectView::Nothing)
                } else if c == 'k' {
                    (self.previous_item().clear_status(), EffectView::Nothing)
                } else if c == 'd' && key.control {
                    (self.next_page().clear_status(), EffectView::Nothing)
                } else if c == 'u' && key.control {
                    (self.previous_page().clear_status(), EffectView::Nothing)
                } else if c == 'g' {
                    (self.first_item().clear_status(), EffectView::Nothing)
                } else if c == 'G' {
                    (self.last_item().clear_status(), EffectView::Nothing)
                } else if c == 's' {
                    (self.cycle_sort(true), EffectView::Nothing)
                } else if c == 'S' {
                    (self.cycle_sort(false), EffectView::Nothing)
                } else if c == '/' {
                    (self.in_mode(AppMode::Search).clear_status(), EffectView::Nothing)
                } else if c == 'r' || c == 'R' {
                    (self, EffectView::Refresh(true))
                } else if c == '?' {
                    (self.in_mode(AppMode::Help), EffectView::Nothing)
                } else if c == 'c' {
                    (self, self.copy_request("Interface"@))
                } else if c == 'i' && key.control {
                    (self, self.copy_request("IP Address"@))
                } else if c == 'i' || c == 'I' {
                    (self.show_details(), EffectView::Nothing)
                } else if c == 'm' && key.control {
                    (self, self.copy_request("MAC Address"@))
                } else if c == 'e' {
                    (self.start_edit_ip(), EffectView::Nothing)
                } else if c == 'd' {
                    (self.start_edit_dns(), EffectView::Nothing)
                } else if c == '6' {
                    (self.start_edit_ipv6(), EffectView::Nothing)
                } else if c == 't' {
                    (self.toggle_interface(), EffectView::Nothing)
                } else if c == 'x' {
                    (self.open_terminal(), EffectView::Nothing)
                } else if c == 'f' && key.control {
                    (self, EffectView::FlushDnsCache)
                } else {
                    (self, EffectView::Nothing)
                }
            },
            KeyCode::Down => (self.next_item().clear_status(), EffectView::Nothing),
            KeyCode::Up => (self.previous_item().clear_status(), EffectView::Nothing),
            KeyCode::PageDown => (self.next_page().clear_status(), EffectView::Nothing),
            KeyCode::PageUp => (self.previous_page().clear_status(), EffectView::Nothing),
            KeyCode::Home => (self.first_item().clear_status(), EffectView::Nothing),
            KeyCode::End => (self.last_item().clear_status(), EffectView::Nothing),
            KeyCode::Esc => (self.clear_search().clear_status(), EffectView::Nothing),
            _ => (self, EffectView::Nothing),
        }
    }

    /// A key while the search query is typed.
    pub open spec fn search_step(self, key: KeyEvent) -> AppView {
        match key.code {
            KeyCode::Esc => self.in_mode(AppMode::Normal),
            KeyCode::Enter => self.in_mode(AppMode::Normal),
            KeyCode::Backspace => self.remove_search_char(),
            KeyCode::Char(c) => self.add_search_char(c),
            _ => self,
        }
    }

    /// A key in the IPv4 session.
    pub open spec fn edit_ip_step(self, key: KeyEvent) -> AppView {
        match key.code {
            KeyCode::Esc => self.in_mode(AppMode::Normal),
            KeyCode::Tab => AppView { ip_edit_state: self.ip_edit_state.tab(), ..self },
            KeyCode::BackTab => AppView { ip_edit_state: self.ip_edit_state.back_tab(), ..self },
            KeyCode::Enter => if self.ip_edit_state.mode == IpConfigMode::DHCP {
                self.prepare_dhcp_config()
            } else {
                self.prepare_static_ip_config()
            },
            KeyCode::Backspace => AppView {
                ip_edit_state: self.ip_edit_state.backspace(),
                ..self
            },
            KeyCode::Char(c) => if self.ip_edit_state.current_field == 0 {
                if c == ' ' {
                    AppView { ip_edit_state: self.ip_edit_state.toggle_mode(), ..self }
                } else {
                    self
                }
            } else {
                AppView { ip_edit_state: self.ip_edit_state.insert(c), ..self }
            },
            _ => self,
        }
    }

    /// A key in the DNS session.
    pub open spec fn edit_dns_step(self, key: KeyEvent) -> AppView {
        match key.code {
            KeyCode::Esc => self.in_mode(AppMode::Normal),
            KeyCode::Tab => AppView {
                dns_edit_state: self.dns_edit_state.switch_section(),
                ..self
            },
            KeyCode::Up => AppView { dns_edit_state: self.dns_edit_state.move_up(), ..self },
            KeyCode::Down => AppView { dns_edit_state: self.dns_edit_state.move_down(), ..self },
            KeyCode::Backspace => AppView {
                dns_edit_state: self.dns_edit_state.backspace(),
                ..self
            },
            KeyCode::Char(c) => if c == 's' && key.control {
                self.prepare_dns_config()
            } else if c == 'k' {
                AppView { dns_edit_state: self.dns_edit_state.move_up(), ..self }
            } else if c == 'j' {
                AppView { dns_edit_state: self.dns_edit_state.move_down(), ..self }
            } else if c == 'a' {
                AppView { dns_edit_state: self.dns_edit_state.append_entry(), ..self }
            } else if c == 'x' {
                AppView { dns_edit_state: self.dns_edit_state.delete_entry(), ..self }
            } else {
                AppView { dns_edit_state: self.dns_edit_state.insert(c), ..self }
            },
            _ => self,
        }
    }

    /// A key in the IPv6 session.
    pub open spec fn edit_ipv6_step(self, key: KeyEvent) -> AppView {
        match key.code {
            KeyCode::Esc => self.in_mode(AppMode::Normal),
            KeyCode::Tab => AppView { ipv6_edit_state: self.ipv6_edit_state.tab(), ..self },
            KeyCode::BackTab => AppView {
                ipv6_edit_state: self.ipv6_edit_state.back_tab(),
                ..self
            },
            KeyCode::Enter => self.prepare_ipv6_config(),
            KeyCode::Backspace => AppView {
                ipv6_edit_state: self.ipv6_edit_state.backspace(),
                ..self
            },
            KeyCode::Char(c) => if self.ipv6_edit_state.current_field == 0 {
                if c == ' ' {
                    AppView { ipv6_edit_state: self.ipv6_edit_state.toggle_enabled(), ..self }
                } else {
                    self
                }
            } else {
                AppView { ipv6_edit_state: self.ipv6_edit_state.insert(c), ..self }
            },
            _ => self,
        }
    }

    /// A key on the details screen.
    pub open spec fn details_step(self, key: KeyEvent) -> AppView {
        match key.code {
            KeyCode::Esc => self.in_mode(AppMode::Normal),
            KeyCode::Char(c) => if c == 'q' {
                self.in_mode(AppMode::Normal)
            } else if c == 'e' {
                self.start_edit_ip()
            } else if c == 'd' {
                self.start_edit_dns()
            } else if c == '6' {
                self.start_edit_ipv6()
            } else {
                self
            },
            _ => self,
        }
    }

    /// A key on the help screen.
    pub open spec fn help_step(self, key: KeyEvent) -> AppView {
        match key.code {
            KeyCode::Esc => self.in_mode(AppMode::Normal),
            KeyCode::Char(c) => if c == 'q' || c == '?' {
                self.in_mode(AppMode::Normal)
            } else {
                self
            },
            _ => self,
        }
    }

    /// A key in the confirmation dialog.
    pub open spec fn confirm_step(self, key: KeyEvent) -> (AppView, EffectView) {
        match key.code {
            KeyCode::Enter => (
                self.execute_confirmed_action(),
                match self.confirm_action {
                    Some(action) => EffectView::Execute(action),
                    None => EffectView::Nothing,
                },
            ),
            KeyCode::Esc => (self.cancel_confirm(), EffectView::Nothing),
            _ => (self, EffectView::Nothing),
        }
    }

    /// A key in the mini-shell.
    pub open spec fn terminal_step(self, key: KeyEvent) -> (AppView, EffectView) {
        match key.code {
            KeyCode::Esc => (self.in_mode(AppMode::Normal), EffectView::Nothing),
            KeyCode::Enter => (
                self.execute_terminal_command(),
                if self.terminal_command.len() == 0 {
                    EffectView::Nothing
                } else {
                    match self.shell_command() {
                        Some(command) => EffectView::Run(command),
                        None => EffectView::Nothing,
                    }
                },
            ),
            KeyCode::Up => (self.terminal_scroll_up(), EffectView::Nothing),
            KeyCode::Down => (self.terminal_scroll_down(), EffectView::Nothing),
            KeyCode::Backspace => (self.remove_terminal_char(), EffectView::Nothing),
            KeyCode::Char(c) => if c == 'l' && key.control {
                (self.clear_terminal(), EffectView::Nothing)
            } else {
                (self.add_terminal_char(c), EffectView::Nothing)
            },
            _ => (self, EffectView::Nothing),
        }
    }

    /// One step of the state machine: the key goes to the current mode.
    pub open spec fn step(self, key: KeyEvent) -> (AppView, EffectView) {
        match self.mode {
            AppMode::Normal => self.normal_step(key),
            AppMode::Search => (self.search_step(key), EffectView::Nothing),
            AppMode::EditIp => (self.edit_ip_step(key), EffectView::Nothing),
            AppMode::EditDns => (self.edit_dns_step(key), EffectView::Nothing),
            AppMode::EditIpv6 => (self.edit_ipv6_step(key), EffectView::Nothing),
            AppMode::Details => (self.details_step(key), EffectView::Nothing),
            AppMode::Help => (self.help_step(key), EffectView::Nothing),
            AppMode::ConfirmDialog => self.confirm_step(key),
            AppMode::Terminal => self.terminal_step(key),
        }
    }
}

/// Moves the sort column one place in the ring and sorts anew.
fn cycle_sort(app: &mut App, forward: bool)
    requires
        old(app)@.rows_in_range(),
    ensures
        final(app)@ == old(app)@.cycle_sort(forward),
        old(app)@.wf() ==> final(app)@.wf(),
{
    app.sort_column = if forward {
        app.sort_column.next()
    } else {
        app.sort_column.prev()
    };
    app.apply_sort();
    app.set_status(concat2("Sorted by ", app.sort_column.as_str()));
}

/// The request to copy a field of the selected row.
fn copy_request(app: &App, field: &str) -> (effect: Effect)
    ensures
        effect@ == app@.copy_request(field@),
{
    match app.copy_selected_field(field) {
        Some(text) => Effect::Copy { field: String::from_str(field), text },
        None => Effect::Nothing,
    }
}

/// A key in normal mode: navigation, sorting, search, and the way into
/// every other mode.
pub fn handle_normal_mode(app: &mut App, key: KeyEvent) -> (effect: Effect)
    requires
        old(app).page_size > 0,
        old(app)@.rows_in_range(),
    ensures
        (final(app)@, effect@) == old(app)@.normal_step(key),
        old(app)@.wf() && old(app)@.mode != AppMode::ConfirmDialog ==> final(app)@.wf(),
{
    match key.code {
        KeyCode::Char(c) => {
            if c == 'q' || c == 'Q' {
                app.should_quit = true;
            } else if c == 'j' {
                app.next_item();
                app.clear_status();
            } else if c == 'k' {
                app.previous_item();
                app.clear_status();
            } else if c == 'd' && key.control {
                app.next_page();
                app.clear_status();
            } else if c == 'u' && key.control {
                app.previous_page();
                app.clear_status();
            } else if c == 'g' {
                app.first_item();
                app.clear_status();
            } else if c == 'G' {
                app.last_item();
                app.clear_status();
            } else if c == 's' {
                cycle_sort(app, true);
            } else if c == 'S' {
                cycle_sort(app, false);
            } else if c == '/' {
                app.mode = AppMode::Search;
                app.clear_status();
            } else if c == 'r' || c == 'R' {
                return Effect::Refresh(true);
            } else if c == '?' {
                app.mode = AppMode::Help;
            } else if c == 'c' {
                return copy_request(app, "Interface");
            } else if c == 'i' && key.control {
                return copy_request(app, "IP Address");
            } else if c == 'i' || c == 'I' {
                app.show_details();
            } else if c == 'm' && key.control {
                return copy_request(app, "MAC Address");
            } else if c == 'e' {
                app.start_edit_ip();
            } else if c == 'd' {
                app.start_edit_dns();
            } else if c == '6' {
                app.start_edit_ipv6();
            } else if c == 't' {
                app.toggle_interface();
            } else if c == 'x' {
                app.open_terminal();
            } else if c == 'f' && key.control {
                return Effect::FlushDnsCache;
            }
        },
        KeyCode::Down => {
            app.next_item();
            app.clear_status();
        },
        KeyCode::Up => {
            app.previous_item();
            app.clear_status();
        },
        KeyCode::PageDown => {
            app.next_page();
            app.clear_status();
        },
        KeyCode::PageUp => {
            app.previous_page();
            app.clear_status();
        },
        KeyCode::Home => {
            app.first_item();
            app.clear_status();
        },
        KeyCode::End => {
            app.last_item();
            app.clear_status();
        },
        KeyCode::Esc => {
            app.clear_search();
            app.clear_status();
        },
        _ => {},
    }
    Effect::Nothing
}

/// A key while the search query is typed.
pub fn handle_search_mode(app: &mut App, key: KeyEvent)
    ensures
        final(app)@ == old(app)@.search_step(key),
        old(app)@.wf() && old(app)@.mode != AppMode::ConfirmDialog ==> final(app)@.wf(),
{
    match key.code {
        KeyCode::Esc => {
            app.mode = AppMode::Normal;
        },
        KeyCode::Enter => {
            app.mode = AppMode::Normal;
        },
        KeyCode::Backspace => {
            app.remove_search_char();
        },
        KeyCode::Char(c) => {
            app.add_search_char(c);
        },
        _ => {},
    }
}

/// A key in the IPv4 session.
pub fn handle_edit_ip_mode(app: &mut App, key: KeyEvent)
    ensures
        final(app)@ == old(app)@.edit_ip_step(key),
        old(app)@.wf() && old(app)@.mode != AppMode::ConfirmDialog ==> final(app)@.wf(),
{
    match key.code {
        KeyCode::Esc => {
            app.mode = AppMode::Normal;
        },
        KeyCode::Tab => {
            app.ip_edit_state.tab();
        },
        KeyCode::BackTab => {
            app.ip_edit_state.back_tab();
        },
        KeyCode::Enter => {
            match app.ip_edit_state.mode {
                IpConfigMode::DHCP => app.prepare_dhcp_config(),
                IpConfigMode::Static => app.prepare_static_ip_config(),
            }
        },
        KeyCode::Backspace => {
            app.ip_edit_state.backspace();
        },
        KeyCode::Char(c) => {
            if app.ip_edit_state.current_field == 0 {
                if c == ' ' {
                    app.ip_edit_state.toggle_mode();
                }
            } else {
                app.ip_edit_state.insert(c);
            }
        },
        _ => {},
    }
}

/// A key in the DNS session.
pub fn handle_edit_dns_mode(app: &mut App, key: KeyEvent)
    requires
        old(app)@.dns_edit_state.wf(),
    ensures
        final(app)@ == old(app)@.edit_dns_step(key),
        old(app)@.wf() && old(app)@.mode != AppMode::ConfirmDialog ==> final(app)@.wf(),
{
    match key.code {
        KeyCode::Esc => {
            app.mode = AppMode::Normal;
        },
        KeyCode::Tab => {
            app.dns_edit_state.switch_section();
        },
        KeyCode::Up => {
            app.dns_edit_state.move_up();
        },
        KeyCode::Down => {
            app.dns_edit_state.move_down();
        },
        KeyCode::Backspace => {
            app.dns_edit_state.backspace();
        },
        KeyCode::Char(c) => {
            if c == 's' && key.control {
                app.prepare_dns_config();
            } else if c == 'k' {
                app.dns_edit_state.move_up();
            } else if c == 'j' {
                app.dns_edit_state.move_down();
            } else if c == 'a' {
                app.dns_edit_state.append_entry();
            } else if c == 'x' {
                app.dns_edit_state.delete_entry();
            } else {
                app.dns_edit_state.insert(c);
            }
        },
        _ => {},
    }
}

/// A key in the IPv6 session.
pub fn handle_edit_ipv6_mode(app: &mut App, key: KeyEvent)
    ensures
        final(app)@ == old(app)@.edit_ipv6_step(key),
        old(app)@.wf() && old(app)@.mode != AppMode::ConfirmDialog ==> final(app)@.wf(),
{
    match key.code {
        KeyCode::Esc => {
            app.mode = AppMode::Normal;
        },
        KeyCode::Tab => {
            app.ipv6_edit_state.tab();
        },
        KeyCode::BackTab => {
            app.ipv6_edit_state.back_tab();
        },
        KeyCode::Enter => {
            app.prepare_ipv6_config();
        },
        KeyCode::Backspace => {
            app.ipv6_edit_state.backspace();
        },
        KeyCode::Char(c) => {
            if app.ipv6_edit_state.current_field == 0 {
                if c == ' ' {
                    app.ipv6_edit_state.toggle_enabled();
                }
            } else {
                app.ipv6_edit_state.insert(c);
            }
        },
        _ => {},
    }
}

/// A key on the details screen.
pub fn handle_details_mode(app: &mut App, key: KeyEvent)
    ensures
        final(app)@ == old(app)@.details_step(key),
        old(app)@.wf() && old(app)@.mode != AppMode::ConfirmDialog ==> final(app)@.wf(),
{
    match key.code {
        KeyCode::Esc => {
            app.mode = AppMode::Normal;
        },
        KeyCode::Char(c) => {
            if c == 'q' {
                app.mode = AppMode::Normal;
            } else if c == 'e' {
                app.start_edit_ip();
            } else if c == 'd' {
                app.start_edit_dns();
            } else if c == '6' {
                app.start_edit_ipv6();
            }
        },
        _ => {},
    }
}

/// A key on the help screen.
pub fn handle_help_mode(app: &mut App, key: KeyEvent)
    ensures
        final(app)@ == old(app)@.help_step(key),
        old(app)@.wf() && old(app)@.mode != AppMode::ConfirmDialog ==> final(app)@.wf(),
{
    match key.code {
        KeyCode::Esc => {
            app.mode = AppMode::Normal;
        },
        KeyCode::Char(c) => {
            if c == 'q' || c == '?' {
                app.mode = AppMode::Normal;
            }
        },
        _ => {},
    }
}

/// A key in the confirmation dialog: Enter hands the action out to be
/// carried out, Esc drops it.
pub fn handle_confirm_mode(app: &mut App, key: KeyEvent) -> (effect: Effect)
    ensures
        (final(app)@, effect@) == old(app)@.confirm_step(key),
        old(app)@.wf() ==> final(app)@.wf(),
{
    match key.code {
        KeyCode::Enter => {
            match app.execute_confirmed_action() {
                Some(action) => Effect::Execute(action),
                None => Effect::Nothing,
            }
        },
        KeyCode::Esc => {
            app.cancel_confirm();
            Effect::Nothing
        },
        _ => Effect::Nothing,
    }
}

/// A key in the mini-shell.
pub fn handle_terminal_mode(app: &mut App, key: KeyEvent) -> (effect: Effect)
    ensures
        (final(app)@, effect@) == old(app)@.terminal_step(key),
        old(app)@.wf() && old(app)@.mode != AppMode::ConfirmDialog ==> final(app)@.wf(),
{
    match key.code {
        KeyCode::Esc => {
            app.mode = AppMode::Normal;
        },
        KeyCode::Enter => {
            match app.execute_terminal_command() {
                Some(command) => {
                    return Effect::Run(command);
                },
                None => {},
            }
        },
        KeyCode::Up => {
            app.terminal_scroll_up();
        },
        KeyCode::Down => {
            app.terminal_scroll_down();
        },
        KeyCode::Backspace => {
            app.remove_terminal_char();
        },
        KeyCode::Char(c) => {
            if c == 'l' && key.control {
                app.clear_terminal();
            } else {
                app.add_terminal_char(c);
            }
        },
        _ => {},
    }
    Effect::Nothing
}

/// One step of the state machine for a key press. The state stays well
/// formed, so a confirm action waits exactly while the dialog is open.
pub fn handle_key_event(app: &mut App, key: KeyEvent) -> (effect: Effect)
    requires
        old(app)@.wf(),
    ensures
        (final(app)@, effect@) == old(app)@.step(key),
        final(app)@.wf(),
{
    match app.mode {
        AppMode::Normal => handle_normal_mode(app, key),
        AppMode::Search => {
            handle_search_mode(app, key);
            Effect::Nothing
        },
        AppMode::EditIp => {
            handle_edit_ip_mode(app, key);
            Effect::Nothing
        },
        AppMode::EditDns => {
            handle_edit_dns_mode(app, key);
            Effect::Nothing
        },
        AppMode::EditIpv6 => {
            handle_edit_ipv6_mode(app, key);
            Effect::Nothing
        },
        AppMode::Details => {
            handle_details_mode(app, key);
            Effect::Nothing
        },
        AppMode::Help => {
            handle_help_mode(app, key);
            Effect::Nothing
        },
        AppMode::ConfirmDialog => handle_confirm_mode(app, key),
        AppMode::Terminal => handle_terminal_mode(app, key),
    }
}

/// A key press never changes the snapshots or the rows made of them: only
/// a fetch brings new ones.
#[verifier::rlimit(50)]
pub proof fn keys_leave_the_snapshots(s: AppView, key: KeyEvent)
    ensures
        s.step(key).0.interfaces == s.interfaces,
        s.step(key).0.dns_config == s.dns_config,
        s.step(key).0.table_rows == s.table_rows,
        s.step(key).0.page_size == s.page_size,
{
    match s.mode {
        AppMode::Normal => {
            let after = s.normal_step(key).0;
            assert(after.interfaces == s.interfaces && after.dns_config == s.dns_config
                && after.table_rows == s.table_rows && after.page_size == s.page_size);
        },
        AppMode::Search => {},
        AppMode::EditIp => {},
        AppMode::EditDns => {},
        AppMode::EditIpv6 => {},
        AppMode::Details => {},
        AppMode::Help => {},
        AppMode::ConfirmDialog => {},
        AppMode::Terminal => {},
    }
}

/// A key in one edit session leaves the buffers of the other two as they
/// are.
pub proof fn sessions_keep_apart(s: AppView, key: KeyEvent)
    ensures
        s.mode == AppMode::EditIp ==> s.step(key).0.dns_edit_state == s.dns_edit_state
            && s.step(key).0.ipv6_edit_state == s.ipv6_edit_state,
        s.mode == AppMode::EditDns ==> s.step(key).0.ip_edit_state == s.ip_edit_state
            && s.step(key).0.ipv6_edit_state == s.ipv6_edit_state,
        s.mode == AppMode::EditIpv6 ==> s.step(key).0.ip_edit_state == s.ip_edit_state
            && s.step(key).0.dns_edit_state == s.dns_edit_state,
{
}

/// Nothing is carried out without a confirmation: a key asks for an action
/// to be executed only in the confirmation dialog, only by Enter, and then
/// for the action that was waiting, with the values it was asked with.
pub proof fn execution_needs_confirmation(s: AppView, key: KeyEvent)
    ensures
        s.step(key).1 is Execute ==> s.mode == AppMode::ConfirmDialog && key.code
            == KeyCode::Enter && s.confirm_action == Some(s.step(key).1->Execute_0),
{
}

/// The log of the mini-shell only grows while commands are run: Enter and
/// the report of a run leave every line that was there in its place.
pub proof fn log_is_append_only(s: AppView, outcome: Result<CommandOutputView, Seq<char>>)
    ensures
        s.terminal_output.is_prefix_of(s.execute_terminal_command().terminal_output),
        s.terminal_output.is_prefix_of(s.finish_terminal_command(outcome).terminal_output),
{
}

} // verus!
