//! Plans for the privileged changes: which commands are to be run for each
//! change, on which system, in which order, and what a failure of each
//! means. Nothing is run here; the event loop runs a plan step by step and
//! asks `after` where to go on.

use vstd::prelude::*;
use vstd::string::*;
use crate::app::{ConfirmAction, ConfirmActionView};
use crate::text::{
    add_text, all_digits, chars_of, concat3, decimal, digits, extend_texts, join, joined, lines,
    no_texts, number, parse_u8, pieces, split, split_lines, starts_with_text, texts,
};

verus! {

/// The system the commands are for.
#[derive(Debug, Clone, Copy, PartialEq, Eq, Structural)]
pub enum Platform {
    Linux,
    MacOs,
}

/// A program and its arguments, to be run with raised privileges.
#[derive(Debug, Clone)]
pub struct SudoCommand {
    pub program: String,
    pub args: Vec<String>,
}

/// The view of a [`SudoCommand`].
pub struct CommandView {
    pub program: Seq<char>,
    pub args: Seq<Seq<char>>,
}

impl View for SudoCommand {
    type V = CommandView;

    open spec fn view(&self) -> CommandView {
        CommandView { program: self.program@, args: texts(self.args@) }
    }
}

/// One thing for the event loop to do.
#[derive(Debug, Clone)]
pub enum Action {
    /// Run a command with raised privileges; it fails if it cannot be
    /// started or exits with an error.
    Sudo(SudoCommand),
    /// Write a file as the current user.
    Write { path: String, content: String },
    /// Succeed exactly if the path exists.
    Exists(String),
}

/// The view of an [`Action`].
pub enum ActionView {
    Sudo(CommandView),
    Write { path: Seq<char>, content: Seq<char> },
    Exists(Seq<char>),
}

impl View for Action {
    type V = ActionView;

    open spec fn view(&self) -> ActionView {
        match *self {
            Action::Sudo(command) => ActionView::Sudo(command@),
            Action::Write { path, content } => ActionView::Write {
                path: path@,
                content: content@,
            },
            Action::Exists(path) => ActionView::Exists(path@),
        }
    }
}

/// What a failed step means for its plan.
#[derive(Debug, Clone)]
pub enum OnFailure {
    /// Nothing: the plan goes on.
    Ignore,
    /// The plan fails with the error of the step.
    Abort,
    /// The plan fails with this message.
    AbortWith(String),
}

/// The view of an [`OnFailure`].
pub enum OnFailureView {
    Ignore,
    Abort,
    AbortWith(Seq<char>),
}

impl View for OnFailure {
    type V = OnFailureView;

    open spec fn view(&self) -> OnFailureView {
        match *self {
            OnFailure::Ignore => OnFailureView::Ignore,
            OnFailure::Abort => OnFailureView::Abort,
            OnFailure::AbortWith(message) => OnFailureView::AbortWith(message@),
        }
    }
}

/// A step of a plan. A success of a decisive step ends the plan at once.
#[derive(Debug, Clone)]
pub struct Step {
    pub action: Action,
    pub decisive: bool,
    pub on_failure: OnFailure,
}

/// The view of a [`Step`].
pub struct StepView {
    pub action: ActionView,
    pub decisive: bool,
    pub on_failure: OnFailureView,
}

impl View for Step {
    type V = StepView;

    open spec fn view(&self) -> StepView {
        StepView {
            action: self.action@,
            decisive: self.decisive,
            on_failure: self.on_failure@,
        }
    }
}

/// The views of the steps of a plan.
pub open spec fn plan_view(plan: Seq<Step>) -> Seq<StepView> {
    plan.map_values(|s: Step| s@)
}

/// Where a plan stands after a step: at another step, or at its end.
#[derive(Debug)]
pub enum Progress {
    At(usize),
    Done(Result<(), String>),
}

/// The view of a [`Progress`].
pub enum ProgressView {
    At(usize),
    Done(Result<(), Seq<char>>),
}

impl View for Progress {
    type V = ProgressView;

    open spec fn view(&self) -> ProgressView {
        match *self {
            Progress::At(n) => ProgressView::At(n),
            Progress::Done(Ok(_)) => ProgressView::Done(Ok(())),
            Progress::Done(Err(error)) => ProgressView::Done(Err(error@)),
        }
    }
}

/// Where a plan stands once step `at` has ended with `outcome`: a decisive
/// success and the success of the last step end it well; a failure ends it
/// badly unless it is to be ignored; else the next step is due.
pub open spec fn progress_after(
    plan: Seq<StepView>,
    at: usize,
    outcome: Result<(), Seq<char>>,
) -> ProgressView {
    let next = if at + 1 < plan.len() {
        ProgressView::At((at + 1) as usize)
    } else {
        ProgressView::Done(Ok(()))
    };
    match outcome {
        Ok(_) => if plan[at as int].decisive {
            ProgressView::Done(Ok(()))
        } else {
            next
        },
        Err(error) => match plan[at as int].on_failure {
            OnFailureView::Ignore => next,
            OnFailureView::Abort => ProgressView::Done(Err(error)),
            OnFailureView::AbortWith(message) => ProgressView::Done(Err(message)),
        },
    }
}

/// The view of how a step ended.
pub open spec fn step_outcome(outcome: Result<(), String>) -> Result<(), Seq<char>> {
    match outcome {
        Ok(_) => Ok(()),
        Err(error) => Err(error@),
    }
}

/// Where the plan stands once step `at` has ended with `outcome`.
pub fn after(plan: &Vec<Step>, at: usize, outcome: Result<(), String>) -> (progress: Progress)
    requires
        at < plan.len(),
    ensures
        progress@ == progress_after(plan_view(plan@), at, step_outcome(outcome)),
{
    assert(plan_view(plan@).len() == plan.len());
    let last = at + 1 >= plan.len();
    match outcome {
        Ok(_) => {
            if plan[at].decisive || last {
                Progress::Done(Ok(()))
            } else {
                Progress::At(at + 1)
            }
        },
        Err(error) => match &plan[at].on_failure {
            OnFailure::Ignore => {
                if last {
                    Progress::Done(Ok(()))
                } else {
                    Progress::At(at + 1)
                }
            },
            OnFailure::Abort => Progress::Done(Err(error)),
            OnFailure::AbortWith(message) => Progress::Done(Err(message.clone())),
        },
    }
}

/// A privileged command as an action.
pub open spec fn sudo(program: Seq<char>, args: Seq<Seq<char>>) -> ActionView {
    ActionView::Sudo(CommandView { program, args })
}

/// A step whose failure fails the plan.
pub open spec fn required(action: ActionView) -> StepView {
    StepView { action, decisive: false, on_failure: OnFailureView::Abort }
}

/// A step whose failure does not matter.
pub open spec fn best_effort(action: ActionView) -> StepView {
    StepView { action, decisive: false, on_failure: OnFailureView::Ignore }
}

/// A step whose success ends the plan and whose failure lets the next step
/// try.
pub open spec fn attempt(action: ActionView) -> StepView {
    StepView { action, decisive: true, on_failure: OnFailureView::Ignore }
}

/// A step whose failure fails the plan with a message of its own.
pub open spec fn guarded(action: ActionView, message: Seq<char>) -> StepView {
    StepView { action, decisive: false, on_failure: OnFailureView::AbortWith(message) }
}

fn make_sudo(program: &str, args: Vec<String>) -> (action: Action)
    ensures
        action@ == sudo(program@, texts(args@)),
{
    Action::Sudo(SudoCommand { program: String::from_str(program), args })
}

fn make_required(action: Action) -> (step: Step)
    ensures
        step@ == required(action@),
{
    Step { action, decisive: false, on_failure: OnFailure::Abort }
}

fn make_best_effort(action: Action) -> (step: Step)
    ensures
        step@ == best_effort(action@),
{
    Step { action, decisive: false, on_failure: OnFailure::Ignore }
}

fn make_attempt(action: Action) -> (step: Step)
    ensures
        step@ == attempt(action@),
{
    Step { action, decisive: true, on_failure: OnFailure::Ignore }
}

fn make_guarded(action: Action, message: &str) -> (step: Step)
    ensures
        step@ == guarded(action@, message@),
{
    Step {
        action,
        decisive: false,
        on_failure: OnFailure::AbortWith(String::from_str(message)),
    }
}

fn no_steps() -> (plan: Vec<Step>)
    ensures
        plan_view(plan@) == Seq::<StepView>::empty(),
{
    let plan: Vec<Step> = Vec::new();
    assert(plan_view(plan@) =~= Seq::<StepView>::empty());
    plan
}

fn add_step(plan: &mut Vec<Step>, step: Step)
    ensures
        plan_view(final(plan)@) == plan_view(old(plan)@).push(step@),
{
    plan.push(step);
    assert(plan_view(plan@) =~= plan_view(old(plan)@).push(step@));
}

/// The steps that set an interface to DHCP.
pub open spec fn dhcp_plan(platform: Platform, interface: Seq<char>) -> Seq<StepView> {
    match platform {
        Platform::MacOs => seq![
            required(sudo("networksetup"@, seq!["-setdhcp"@].push(interface))),
        ],
        Platform::Linux => seq![
            best_effort(sudo("ip"@, seq!["addr"@].push("flush"@).push("dev"@).push(interface))),
        ].push(attempt(sudo("dhclient"@, seq![interface]))).push(
            required(sudo("dhcpcd"@, seq![interface])),
        ),
    }
}

/// Plans setting an interface to DHCP. On Linux a static address is
/// flushed first, whatever comes of it, and `dhcpcd` is tried where
/// `dhclient` fails.
pub fn set_dhcp(platform: Platform, interface: &str) -> (plan: Vec<Step>)
    ensures
        plan_view(plan@) == dhcp_plan(platform, interface@),
{
    let mut plan = no_steps();
    match platform {
        Platform::MacOs => {
            let mut args = no_texts();
            add_text(&mut args, "-setdhcp");
            add_text(&mut args, interface);
            add_step(&mut plan, make_required(make_sudo("networksetup", args)));
        },
        Platform::Linux => {
            let mut flush = no_texts();
            add_text(&mut flush, "addr");
            add_text(&mut flush, "flush");
            add_text(&mut flush, "dev");
            add_text(&mut flush, interface);
            add_step(&mut plan, make_best_effort(make_sudo("ip", flush)));
            let mut first = no_texts();
            add_text(&mut first, interface);
            add_step(&mut plan, make_attempt(make_sudo("dhclient", first)));
            let mut second = no_texts();
            add_text(&mut second, interface);
            add_step(&mut plan, make_required(make_sudo("dhcpcd", second)));
        },
    }
    plan
}

/// The number of one bits of a byte.
pub open spec fn ones(b: nat) -> nat
    decreases b,
{
    if b == 0 {
        0
    } else {
        b % 2 + ones(b / 2)
    }
}

/// What a piece of a dotted address reads as: one to three decimal digits
/// that write at most 255, with no zero in front of another digit.
pub open spec fn octet(part: Seq<char>) -> Option<u8> {
    if 1 <= part.len() <= 3 && all_digits(part) && (part.len() == 1 || part[0] != '0') && number(
        part,
    ) <= 255 {
        Some(number(part) as u8)
    } else {
        None
    }
}

/// The prefix length of a netmask in dotted form: the number of one bits of
/// its four octets. Nothing where the text is not four octets with dots
/// between them.
pub open spec fn cidr_of(netmask: Seq<char>) -> Option<u8> {
    let parts = pieces(netmask, '.');
    if parts.len() == 4 && octet(parts[0]) is Some && octet(parts[1]) is Some && octet(
        parts[2],
    ) is Some && octet(parts[3]) is Some {
        Some(
            (ones(octet(parts[0])->0 as nat) + ones(octet(parts[1])->0 as nat) + ones(
                octet(parts[2])->0 as nat,
            ) + ones(octet(parts[3])->0 as nat)) as u8,
        )
    } else {
        None
    }
}

/// A byte has at most eight one bits.
pub proof fn ones_bounded(b: nat, bits: nat)
    requires
        b < vstd::arithmetic::power2::pow2(bits),
    ensures
        ones(b) <= bits,
    decreases b,
{
    vstd::arithmetic::power2::lemma2_to64();
    if b > 0 {
        if bits == 0 {
            assert(vstd::arithmetic::power2::pow2(0) == 1);
        } else {
            vstd::arithmetic::power2::lemma_pow2_unfold(bits);
            assert(b / 2 < vstd::arithmetic::power2::pow2((bits - 1) as nat));
            ones_bounded(b / 2, (bits - 1) as nat);
        }
    }
}

fn count_ones(b: u8) -> (n: u8)
    ensures
        n == ones(b as nat),
        n <= 8,
{
    proof {
        vstd::arithmetic::power2::lemma2_to64();
        ones_bounded(b as nat, 8);
    }
    let mut rest: u8 = b;
    let mut n: u8 = 0;
    while rest > 0
        invariant
            n + ones(rest as nat) == ones(b as nat),
            ones(b as nat) <= 8,
        decreases rest,
    {
        n = n + rest % 2;
        rest = rest / 2;
    }
    n
}

fn read_octet(part: &str) -> (r: Option<u8>)
    ensures
        r == octet(part@),
{
    let v = chars_of(part);
    if v.len() < 1 || v.len() > 3 {
        return None;
    }
    if v.len() > 1 && v[0] == '0' {
        return None;
    }
    if v[0] == '+' {
        assert(crate::text::digit_value(part@[0]) is None);
        return None;
    }
    let r = parse_u8(part);
    assert(part@.len() > 0 && part@[0] != '+');
    r
}

/// The prefix length of a netmask given in dotted form.
pub fn netmask_to_cidr(netmask: &str) -> (r: Option<u8>)
    ensures
        r == cidr_of(netmask@),
{
    let parts = split(netmask, '.');
    assert(texts(parts@).len() == parts.len());
    if parts.len() != 4 {
        return None;
    }
    let a = read_octet(parts[0].as_str());
    let b = read_octet(parts[1].as_str());
    let c = read_octet(parts[2].as_str());
    let d = read_octet(parts[3].as_str());
    assert(texts(parts@)[0] == parts@[0]@);
    assert(texts(parts@)[1] == parts@[1]@);
    assert(texts(parts@)[2] == parts@[2]@);
    assert(texts(parts@)[3] == parts@[3]@);
    match (a, b, c, d) {
        (Some(a), Some(b), Some(c), Some(d)) => Some(
            count_ones(a) + count_ones(b) + count_ones(c) + count_ones(d),
        ),
        _ => None,
    }
}

/// What is said where a netmask cannot be read.
pub open spec fn bad_netmask() -> Seq<char> {
    "invalid IPv4 address syntax"@
}

/// The steps that set a static IPv4 address.
pub open spec fn static_ip_plan(
    platform: Platform,
    interface: Seq<char>,
    ip: Seq<char>,
    netmask: Seq<char>,
    gateway: Option<Seq<char>>,
) -> Result<Seq<StepView>, Seq<char>> {
    match platform {
        Platform::MacOs => match gateway {
            Some(gw) => Ok(
                seq![
                    required(
                        sudo(
                            "networksetup"@,
                            seq!["-setmanual"@].push(interface).push(ip).push(netmask).push(gw),
                        ),
                    ),
                ],
            ),
            None => Ok(
                seq![
                    required(
                        sudo("ifconfig"@, seq![interface].push(ip).push("netmask"@).push(netmask)),
                    ),
                ],
            ),
        },
        Platform::Linux => match cidr_of(netmask) {
            None => Err(bad_netmask()),
            Some(prefix) => {
                let address = ip + "/"@ + digits(prefix as nat);
                let add = sudo(
                    "ip"@,
                    seq!["addr"@].push("add"@).push(address).push("dev"@).push(interface),
                );
                let up = sudo("ip"@, seq!["link"@].push("set"@).push(interface).push("up"@));
                match gateway {
                    Some(gw) => {
                        let route = sudo(
                            "ip"@,
                            seq!["route"@].push("add"@).push("default"@).push("via"@).push(gw).push(
                                "dev"@,
                            ).push(interface),
                        );
                        Ok(seq![required(add)].push(required(up)).push(required(route)))
                    },
                    None => Ok(seq![required(add)].push(required(up))),
                }
            },
        },
    }
}

/// The view of a plan that may have failed to be made.
pub open spec fn planned(r: Result<Vec<Step>, String>) -> Result<Seq<StepView>, Seq<char>> {
    match r {
        Ok(plan) => Ok(plan_view(plan@)),
        Err(error) => Err(error@),
    }
}

/// Plans setting a static IPv4 address. On Linux the netmask becomes a
/// prefix length, the interface is brought up, and a gateway becomes the
/// default route; a netmask that cannot be read fails the planning.
pub fn set_static_ip(
    platform: Platform,
    interface: &str,
    ip: &str,
    netmask: &str,
    gateway: Option<&str>,
) -> (r: Result<Vec<Step>, String>)
    ensures
        planned(r) == static_ip_plan(
            platform,
            interface@,
            ip@,
            netmask@,
            match gateway {
                Some(gw) => Some(gw@),
                None => None,
            },
        ),
{
    let mut plan = no_steps();
    match platform {
        Platform::MacOs => {
            let mut args = no_texts();
            match gateway {
                Some(gw) => {
                    add_text(&mut args, "-setmanual");
                    add_text(&mut args, interface);
                    add_text(&mut args, ip);
                    add_text(&mut args, netmask);
                    add_text(&mut args, gw);
                    add_step(&mut plan, make_required(make_sudo("networksetup", args)));
                },
                None => {
                    add_text(&mut args, interface);
                    add_text(&mut args, ip);
                    add_text(&mut args, "netmask");
                    add_text(&mut args, netmask);
                    add_step(&mut plan, make_required(make_sudo("ifconfig", args)));
                },
            }
        },
        Platform::Linux => {
            let prefix = match netmask_to_cidr(netmask) {
                Some(prefix) => prefix,
                None => {
                    return Err(String::from_str("invalid IPv4 address syntax"));
                },
            };
            let address = concat3(ip, "/", decimal(prefix as u128).as_str());
            let mut add = no_texts();
            add_text(&mut add, "addr");
            add_text(&mut add, "add");
            add_text(&mut add, address.as_str());
            add_text(&mut add, "dev");
            add_text(&mut add, interface);
            add_step(&mut plan, make_required(make_sudo("ip", add)));
            let mut up = no_texts();
            add_text(&mut up, "link");
            add_text(&mut up, "set");
            add_text(&mut up, interface);
            add_text(&mut up, "up");
            add_step(&mut plan, make_required(make_sudo("ip", up)));
            match gateway {
                Some(gw) => {
                    let mut route = no_texts();
                    add_text(&mut route, "route");
                    add_text(&mut route, "add");
                    add_text(&mut route, "default");
                    add_text(&mut route, "via");
                    add_text(&mut route, gw);
                    add_text(&mut route, "dev");
                    add_text(&mut route, interface);
                    add_step(&mut plan, make_required(make_sudo("ip", route)));
                },
                None => {},
            }
        },
    }
    Ok(plan)
}

/// The file a new resolver configuration is written to before it is copied
/// into place.
pub open spec fn staging_path() -> Seq<char> {
    "/tmp/resolv.conf.new"@
}

/// The resolver configuration file.
pub open spec fn resolver_path() -> Seq<char> {
    "/etc/resolv.conf"@
}

/// One `nameserver` line for each server.
pub open spec fn nameserver_lines(servers: Seq<Seq<char>>) -> Seq<char>
    decreases servers.len(),
{
    if servers.len() == 0 {
        Seq::empty()
    } else {
        nameserver_lines(servers.drop_last()) + "nameserver "@ + servers.last() + "\n"@
    }
}

/// The step that copies the staged file into place.
pub open spec fn install_step() -> StepView {
    required(sudo("cp"@, seq![staging_path()].push(resolver_path())))
}

/// The steps that write a resolver configuration.
pub open spec fn install_plan(content: Seq<char>) -> Seq<StepView> {
    seq![required(ActionView::Write { path: staging_path(), content })].push(install_step())
}

fn install(content: String) -> (plan: Vec<Step>)
    ensures
        plan_view(plan@) == install_plan(content@),
{
    let mut plan = no_steps();
    add_step(
        &mut plan,
        make_required(
            Action::Write { path: String::from_str("/tmp/resolv.conf.new"), content },
        ),
    );
    let mut args = no_texts();
    add_text(&mut args, "/tmp/resolv.conf.new");
    add_text(&mut args, "/etc/resolv.conf");
    add_step(&mut plan, make_required(make_sudo("cp", args)));
    plan
}

/// The steps that set the DNS servers.
pub open spec fn dns_servers_plan(
    platform: Platform,
    interface: Seq<char>,
    servers: Seq<Seq<char>>,
) -> Seq<StepView> {
    match platform {
        Platform::MacOs => seq![
            required(sudo("networksetup"@, seq!["-setdnsservers"@].push(interface) + servers)),
        ],
        Platform::Linux => install_plan(nameserver_lines(servers)),
    }
}

/// Plans setting the DNS servers: on macOS for the interface, on Linux by
/// a new resolver configuration that names them.
pub fn set_dns_servers(platform: Platform, interface: &str, servers: &Vec<String>) -> (plan: Vec<
    Step,
>)
    ensures
        plan_view(plan@) == dns_servers_plan(platform, interface@, texts(servers@)),
{
    match platform {
        Platform::MacOs => {
            let mut plan = no_steps();
            let mut args = no_texts();
            add_text(&mut args, "-setdnsservers");
            add_text(&mut args, interface);
            extend_texts(&mut args, servers);
            add_step(&mut plan, make_required(make_sudo("networksetup", args)));
            plan
        },
        Platform::Linux => {
            let mut content = String::new();
            let mut i: usize = 0;
            assert(texts(servers@).take(0) =~= Seq::<Seq<char>>::empty());
            while i < servers.len()
                invariant
                    i <= servers.len(),
                    content@ == nameserver_lines(texts(servers@).take(i as int)),
                decreases servers.len() - i,
            {
                assert(texts(servers@).take(i + 1).drop_last() =~= texts(servers@).take(i as int));
                content.append("nameserver ");
                content.append(servers[i].as_str());
                content.append("\n");
                i += 1;
            }
            assert(texts(servers@).take(servers.len() as int) =~= texts(servers@));
            install(content)
        },
    }
}

/// The `nameserver` lines among `all`, each with a line feed behind it.
pub open spec fn kept_nameservers(all: Seq<Seq<char>>) -> Seq<char>
    decreases all.len(),
{
    if all.len() == 0 {
        Seq::empty()
    } else if "nameserver"@.is_prefix_of(all.last()) {
        kept_nameservers(all.drop_last()) + all.last() + "\n"@
    } else {
        kept_nameservers(all.drop_last())
    }
}

/// The resolver configuration that keeps the name servers of `existing` and
/// searches `domains`.
pub open spec fn search_content(existing: Seq<char>, domains: Seq<Seq<char>>) -> Seq<char> {
    if domains.len() == 0 {
        kept_nameservers(lines(existing))
    } else {
        kept_nameservers(lines(existing)) + "search "@ + joined(domains, " "@) + "\n"@
    }
}

/// The steps that set the search domains.
pub open spec fn search_domains_plan(
    platform: Platform,
    interface: Seq<char>,
    domains: Seq<Seq<char>>,
    existing: Seq<char>,
) -> Seq<StepView> {
    match platform {
        Platform::MacOs => seq![
            required(sudo("networksetup"@, seq!["-setsearchdomains"@].push(interface) + domains)),
        ],
        Platform::Linux => install_plan(search_content(existing, domains)),
    }
}

/// Plans setting the search domains. `existing` is what the resolver
/// configuration holds now (empty where it cannot be read): on Linux its
/// name servers are kept and the domains added in one `search` line.
pub fn set_search_domains(
    platform: Platform,
    interface: &str,
    domains: &Vec<String>,
    existing: &str,
) -> (plan: Vec<Step>)
    ensures
        plan_view(plan@) == search_domains_plan(platform, interface@, texts(domains@), existing@),
{
    match platform {
        Platform::MacOs => {
            let mut plan = no_steps();
            let mut args = no_texts();
            add_text(&mut args, "-setsearchdomains");
            add_text(&mut args, interface);
            extend_texts(&mut args, domains);
            add_step(&mut plan, make_required(make_sudo("networksetup", args)));
            plan
        },
        Platform::Linux => {
            let all = split_lines(existing);
            let mut content = String::new();
            let mut i: usize = 0;
            assert(texts(all@).take(0) =~= Seq::<Seq<char>>::empty());
            while i < all.len()
                invariant
                    i <= all.len(),
                    content@ == kept_nameservers(texts(all@).take(i as int)),
                decreases all.len() - i,
            {
                assert(texts(all@).take(i + 1).drop_last() =~= texts(all@).take(i as int));
                assert(texts(all@).take(i + 1).last() == all@[i as int]@);
                if starts_with_text(all[i].as_str(), "nameserver") {
                    content.append(all[i].as_str());
                    content.append("\n");
                }
                i += 1;
            }
            assert(texts(all@).take(all.len() as int) =~= texts(all@));
            assert(texts(domains@).len() == domains.len());
            if domains.len() > 0 {
                content.append("search ");
                content.append(join(domains, " ").as_str());
                content.append("\n");
            }
            install(content)
        },
    }
}

/// `up` or `down`.
pub open spec fn link_state(enabled: bool) -> Seq<char> {
    if enabled {
        "up"@
    } else {
        "down"@
    }
}

/// The steps that bring an interface up or down.
pub open spec fn interface_status_plan(
    platform: Platform,
    interface: Seq<char>,
    enabled: bool,
) -> Seq<StepView> {
    match platform {
        Platform::MacOs => seq![
            required(sudo("ifconfig"@, seq![interface].push(link_state(enabled)))),
        ],
        Platform::Linux => seq![
            required(
                sudo("ip"@, seq!["link"@].push("set"@).push(interface).push(link_state(enabled))),
            ),
        ],
    }
}

/// Plans bringing an interface up or down.
pub fn set_interface_status(platform: Platform, interface: &str, enabled: bool) -> (plan: Vec<Step>)
    ensures
        plan_view(plan@) == interface_status_plan(platform, interface@, enabled),
{
    let state = if enabled {
        "up"
    } else {
        "down"
    };
    let mut plan = no_steps();
    let mut args = no_texts();
    match platform {
        Platform::MacOs => {
            add_text(&mut args, interface);
            add_text(&mut args, state);
            add_step(&mut plan, make_required(make_sudo("ifconfig", args)));
        },
        Platform::Linux => {
            add_text(&mut args, "link");
            add_text(&mut args, "set");
            add_text(&mut args, interface);
            add_text(&mut args, state);
            add_step(&mut plan, make_required(make_sudo("ip", args)));
        },
    }
    plan
}

/// What is said where the kernel offers no IPv6 switch for an interface.
pub open spec fn no_ipv6() -> Seq<char> {
    "IPv6 is not available on this interface (kernel module may be disabled)"@
}

/// The steps that switch IPv6 on or off on Linux: the switch must exist,
/// then it is set.
pub open spec fn linux_ipv6_switch(interface: Seq<char>, value: Seq<char>) -> Seq<StepView> {
    seq![
        guarded(
            ActionView::Exists("/proc/sys/net/ipv6/conf/"@ + interface + "/disable_ipv6"@),
            no_ipv6(),
        ),
    ].push(
        required(
            sudo(
                "sysctl"@,
                seq!["-w"@].push("net.ipv6.conf."@ + interface + ".disable_ipv6"@ + "="@ + value),
            ),
        ),
    )
}

fn linux_switch(interface: &str, value: &str) -> (plan: Vec<Step>)
    ensures
        plan_view(plan@) == linux_ipv6_switch(interface@, value@),
{
    let mut plan = no_steps();
    let path = concat3("/proc/sys/net/ipv6/conf/", interface, "/disable_ipv6");
    add_step(
        &mut plan,
        make_guarded(
            Action::Exists(path),
            "IPv6 is not available on this interface (kernel module may be disabled)",
        ),
    );
    let mut setting = concat3("net.ipv6.conf.", interface, ".disable_ipv6");
    setting.append("=");
    setting.append(value);
    let mut args = no_texts();
    add_text(&mut args, "-w");
    add_text(&mut args, setting.as_str());
    add_step(&mut plan, make_required(make_sudo("sysctl", args)));
    plan
}

/// The steps that switch IPv6 off on an interface.
pub open spec fn disable_ipv6_plan(platform: Platform, interface: Seq<char>) -> Seq<StepView> {
    match platform {
        Platform::MacOs => seq![
            required(sudo("networksetup"@, seq!["-setv6off"@].push(interface))),
        ],
        Platform::Linux => linux_ipv6_switch(interface, "1"@),
    }
}

/// Plans switching IPv6 off on an interface.
pub fn disable_ipv6(platform: Platform, interface: &str) -> (plan: Vec<Step>)
    ensures
        plan_view(plan@) == disable_ipv6_plan(platform, interface@),
{
    match platform {
        Platform::MacOs => {
            let mut plan = no_steps();
            let mut args = no_texts();
            add_text(&mut args, "-setv6off");
            add_text(&mut args, interface);
            add_step(&mut plan, make_required(make_sudo("networksetup", args)));
            plan
        },
        Platform::Linux => linux_switch(interface, "1"),
    }
}

/// The steps that switch IPv6 on, with automatic addresses.
pub open spec fn enable_ipv6_plan(platform: Platform, interface: Seq<char>) -> Seq<StepView> {
    match platform {
        Platform::MacOs => seq![
            required(sudo("networksetup"@, seq!["-setv6automatic"@].push(interface))),
        ],
        Platform::Linux => linux_ipv6_switch(interface, "0"@),
    }
}

/// Plans switching IPv6 on for an interface.
pub fn enable_ipv6(platform: Platform, interface: &str) -> (plan: Vec<Step>)
    ensures
        plan_view(plan@) == enable_ipv6_plan(platform, interface@),
{
    match platform {
        Platform::MacOs => {
            let mut plan = no_steps();
            let mut args = no_texts();
            add_text(&mut args, "-setv6automatic");
            add_text(&mut args, interface);
            add_step(&mut plan, make_required(make_sudo("networksetup", args)));
            plan
        },
        Platform::Linux => linux_switch(interface, "0"),
    }
}

/// The steps that set a static IPv6 address.
pub open spec fn static_ipv6_plan(
    platform: Platform,
    interface: Seq<char>,
    ipv6: Seq<char>,
    prefix: u8,
) -> Seq<StepView> {
    let address = ipv6 + "/"@ + digits(prefix as nat);
    match platform {
        Platform::MacOs => seq![
            required(sudo("ifconfig"@, seq![interface].push("inet6"@).push(address))),
        ],
        Platform::Linux => seq![
            required(
                sudo(
                    "ip"@,
                    seq!["-6"@].push("addr"@).push("add"@).push(address).push("dev"@).push(
                        interface,
                    ),
                ),
            ),
        ],
    }
}

/// Plans setting a static IPv6 address with its prefix length.
pub fn set_static_ipv6(platform: Platform, interface: &str, ipv6: &str, prefix: u8) -> (plan: Vec<
    Step,
>)
    ensures
        plan_view(plan@) == static_ipv6_plan(platform, interface@, ipv6@, prefix),
{
    let address = concat3(ipv6, "/", decimal(prefix as u128).as_str());
    let mut plan = no_steps();
    let mut args = no_texts();
    match platform {
        Platform::MacOs => {
            add_text(&mut args, interface);
            add_text(&mut args, "inet6");
            add_text(&mut args, address.as_str());
            add_step(&mut plan, make_required(make_sudo("ifconfig", args)));
        },
        Platform::Linux => {
            add_text(&mut args, "-6");
            add_text(&mut args, "addr");
            add_text(&mut args, "add");
            add_text(&mut args, address.as_str());
            add_text(&mut args, "dev");
            add_text(&mut args, interface);
            add_step(&mut plan, make_required(make_sudo("ip", args)));
        },
    }
    plan
}

/// What is said where no way to flush the DNS cache worked.
pub open spec fn no_flush() -> Seq<char> {
    "Could not flush DNS cache. No supported DNS caching service found."@
}

/// The steps that flush the DNS cache: on macOS two commands that must both
/// work; on Linux four ways tried in turn until one works.
pub open spec fn flush_plan(platform: Platform) -> Seq<StepView> {
    match platform {
        Platform::MacOs => seq![required(sudo("dscacheutil"@, seq!["-flushcache"@]))].push(
            required(sudo("killall"@, seq!["-HUP"@].push("mDNSResponder"@))),
        ),
        Platform::Linux => seq![attempt(sudo("resolvectl"@, seq!["flush-caches"@]))].push(
            attempt(sudo("systemd-resolve"@, seq!["--flush-caches"@])),
        ).push(attempt(sudo("nscd"@, seq!["-i"@].push("hosts"@)))).push(
            guarded(sudo("killall"@, seq!["-HUP"@].push("dnsmasq"@)), no_flush()),
        ),
    }
}

/// Plans flushing the DNS cache.
pub fn flush_dns_cache(platform: Platform) -> (plan: Vec<Step>)
    ensures
        plan_view(plan@) == flush_plan(platform),
{
    let mut plan = no_steps();
    match platform {
        Platform::MacOs => {
            let mut first = no_texts();
            add_text(&mut first, "-flushcache");
            add_step(&mut plan, make_required(make_sudo("dscacheutil", first)));
            let mut second = no_texts();
            add_text(&mut second, "-HUP");
            add_text(&mut second, "mDNSResponder");
            add_step(&mut plan, make_required(make_sudo("killall", second)));
        },
        Platform::Linux => {
            let mut first = no_texts();
            add_text(&mut first, "flush-caches");
            add_step(&mut plan, make_attempt(make_sudo("resolvectl", first)));
            let mut second = no_texts();
            add_text(&mut second, "--flush-caches");
            add_step(&mut plan, make_attempt(make_sudo("systemd-resolve", second)));
            let mut third = no_texts();
            add_text(&mut third, "-i");
            add_text(&mut third, "hosts");
            add_step(&mut plan, make_attempt(make_sudo("nscd", third)));
            let mut fourth = no_texts();
            add_text(&mut fourth, "-HUP");
            add_text(&mut fourth, "dnsmasq");
            add_step(
                &mut plan,
                make_guarded(
                    make_sudo("killall", fourth),
                    "Could not flush DNS cache. No supported DNS caching service found.",
                ),
            );
        },
    }
    plan
}

/// The plan of stage `stage` of a confirmed action, if it has such a
/// stage. Every action has one stage, but setting DNS with search domains
/// has two: the servers, then the domains.
pub open spec fn stage_plan(
    platform: Platform,
    action: ConfirmActionView,
    stage: usize,
    existing: Seq<char>,
) -> Option<Result<Seq<StepView>, Seq<char>>> {
    match action {
        ConfirmActionView::SetDns(servers, domains) => if stage == 0 {
            Some(Ok(dns_servers_plan(platform, Seq::empty(), servers)))
        } else if stage == 1 && domains.len() > 0 {
            Some(Ok(search_domains_plan(platform, Seq::empty(), domains, existing)))
        } else {
            None
        },
        _ => if stage != 0 {
            None
        } else {
            Some(
                match action {
                    ConfirmActionView::SetDhcp(iface) => Ok(dhcp_plan(platform, iface)),
                    ConfirmActionView::SetStaticIp(iface, ip, netmask, gateway) => static_ip_plan(
                        platform,
                        iface,
                        ip,
                        netmask,
                        gateway,
                    ),
                    ConfirmActionView::ToggleInterface(iface, up) => Ok(
                        interface_status_plan(platform, iface, up),
                    ),
                    ConfirmActionView::DisableIpv6(iface) => Ok(disable_ipv6_plan(platform, iface)),
                    ConfirmActionView::EnableIpv6(iface) => Ok(enable_ipv6_plan(platform, iface)),
                    ConfirmActionView::SetStaticIpv6(iface, ip, prefix) => Ok(
                        static_ipv6_plan(platform, iface, ip, prefix),
                    ),
                    ConfirmActionView::SetDns(_, _) => Ok(Seq::empty()),
                },
            )
        },
    }
}

/// The view of what `plan_stage` returns.
pub open spec fn staged(r: Option<Result<Vec<Step>, String>>) -> Option<
    Result<Seq<StepView>, Seq<char>>,
> {
    match r {
        Some(plan) => Some(planned(plan)),
        None => None,
    }
}

/// Plans one stage of a confirmed action, with exactly the values the
/// action was confirmed with. `existing` is what the resolver configuration
/// holds when the stage starts.
pub fn plan_stage(platform: Platform, action: &ConfirmAction, stage: usize, existing: &str) -> (r:
    Option<Result<Vec<Step>, String>>)
    ensures
        staged(r) == stage_plan(platform, action@, stage, existing@),
{
    proof {
        reveal_strlit("");
    }
    match action {
        ConfirmAction::SetDns(servers, domains) => {
            assert(texts(domains@).len() == domains.len());
            assert(""@ =~= Seq::<char>::empty());
            if stage == 0 {
                Some(Ok(set_dns_servers(platform, "", servers)))
            } else if stage == 1 && domains.len() > 0 {
                Some(Ok(set_search_domains(platform, "", domains, existing)))
            } else {
                None
            }
        },
        ConfirmAction::SetDhcp(iface) => {
            if stage != 0 {
                None
            } else {
                Some(Ok(set_dhcp(platform, iface.as_str())))
            }
        },
        ConfirmAction::SetStaticIp(iface, ip, netmask, gateway) => {
            if stage != 0 {
                None
            } else {
                let gw: Option<&str> = match gateway {
                    Some(g) => Some(g.as_str()),
                    None => None,
                };
                Some(set_static_ip(platform, iface.as_str(), ip.as_str(), netmask.as_str(), gw))
            }
        },
        ConfirmAction::ToggleInterface(iface, up) => {
            if stage != 0 {
                None
            } else {
                Some(Ok(set_interface_status(platform, iface.as_str(), *up)))
            }
        },
        ConfirmAction::DisableIpv6(iface) => {
            if stage != 0 {
                None
            } else {
                Some(Ok(disable_ipv6(platform, iface.as_str())))
            }
        },
        ConfirmAction::EnableIpv6(iface) => {
            if stage != 0 {
                None
            } else {
                Some(Ok(enable_ipv6(platform, iface.as_str())))
            }
        },
        ConfirmAction::SetStaticIpv6(iface, ip, prefix) => {
            if stage != 0 {
                None
            } else {
                Some(Ok(set_static_ipv6(platform, iface.as_str(), ip.as_str(), *prefix)))
            }
        },
    }
}

} // verus!
