use netutil::app::ConfirmAction;
use netutil::sudo::{
    after, disable_ipv6, enable_ipv6, flush_dns_cache, netmask_to_cidr, plan_stage, set_dhcp,
    set_dns_servers, set_interface_status, set_search_domains, set_static_ip, set_static_ipv6,
    Action, OnFailure, Platform, Progress, Step,
};

fn shown(plan: &[Step]) -> Vec<String> {
    plan.iter()
        .map(|step| {
            let what = match &step.action {
                Action::Sudo(c) => format!("sudo {} {}", c.program, c.args.join(" ")),
                Action::Write { path, content } => format!("write {} {:?}", path, content),
                Action::Exists(path) => format!("exists {}", path),
            };
            let fail = match &step.on_failure {
                OnFailure::Ignore => "ignore".to_string(),
                OnFailure::Abort => "abort".to_string(),
                OnFailure::AbortWith(m) => format!("abort with {}", m),
            };
            format!("{} | decisive={} | {}", what, step.decisive, fail)
        })
        .collect()
}

fn texts_of(list: &[&str]) -> Vec<String> {
    list.iter().map(|s| s.to_string()).collect()
}

#[test]
fn dhcp_plans() {
    assert_eq!(
        shown(&set_dhcp(Platform::MacOs, "en0")),
        vec!["sudo networksetup -setdhcp en0 | decisive=false | abort"]
    );
    assert_eq!(
        shown(&set_dhcp(Platform::Linux, "eth0")),
        vec![
            "sudo ip addr flush dev eth0 | decisive=false | ignore",
            "sudo dhclient eth0 | decisive=true | ignore",
            "sudo dhcpcd eth0 | decisive=false | abort",
        ]
    );
}

#[test]
fn netmask_becomes_a_prefix_length() {
    assert_eq!(netmask_to_cidr("255.255.255.0"), Some(24));
    assert_eq!(netmask_to_cidr("255.255.0.0"), Some(16));
    assert_eq!(netmask_to_cidr("255.255.255.255"), Some(32));
    assert_eq!(netmask_to_cidr("0.0.0.0"), Some(0));
    assert_eq!(netmask_to_cidr("255.255.254.0"), Some(23));
    assert_eq!(netmask_to_cidr("255.0.255.0"), Some(16));
    assert_eq!(netmask_to_cidr("1.2.3.4"), Some(1 + 1 + 2 + 1));
    for bad in [
        "", "255", "255.255.255", "255.255.255.0.0", "255.255.255.", ".255.255.255",
        "255..255.0", "256.0.0.0", "255.255.255.00", "255.255.255.01", "+1.0.0.0", "a.b.c.d",
        "255.255.255.0 ", "1234.0.0.0", "٢.0.0.0",
    ] {
        assert_eq!(netmask_to_cidr(bad), None, "{:?}", bad);
    }
}

#[test]
fn static_ip_plans() {
    assert_eq!(
        shown(&set_static_ip(Platform::MacOs, "en0", "10.0.0.5", "255.255.255.0", Some("10.0.0.1")).unwrap()),
        vec!["sudo networksetup -setmanual en0 10.0.0.5 255.255.255.0 10.0.0.1 | decisive=false | abort"]
    );
    assert_eq!(
        shown(&set_static_ip(Platform::MacOs, "en0", "10.0.0.5", "bogus", None).unwrap()),
        vec!["sudo ifconfig en0 10.0.0.5 netmask bogus | decisive=false | abort"]
    );
    assert_eq!(
        shown(&set_static_ip(Platform::Linux, "eth0", "10.0.0.5", "255.255.255.0", Some("10.0.0.1")).unwrap()),
        vec![
            "sudo ip addr add 10.0.0.5/24 dev eth0 | decisive=false | abort",
            "sudo ip link set eth0 up | decisive=false | abort",
            "sudo ip route add default via 10.0.0.1 dev eth0 | decisive=false | abort",
        ]
    );
    assert_eq!(
        shown(&set_static_ip(Platform::Linux, "eth0", "10.0.0.5", "255.240.0.0", None).unwrap()),
        vec![
            "sudo ip addr add 10.0.0.5/12 dev eth0 | decisive=false | abort",
            "sudo ip link set eth0 up | decisive=false | abort",
        ]
    );
}

#[test]
fn static_ip_with_a_bad_netmask_is_refused_on_linux() {
    let refused = set_static_ip(Platform::Linux, "eth0", "10.0.0.5", "255.255.255", None);
    assert_eq!(refused.err().as_deref(), Some("invalid IPv4 address syntax"));
}

#[test]
fn dns_server_plans() {
    let servers = texts_of(&["1.1.1.1", "8.8.8.8"]);
    assert_eq!(
        shown(&set_dns_servers(Platform::MacOs, "Wi-Fi", &servers)),
        vec!["sudo networksetup -setdnsservers Wi-Fi 1.1.1.1 8.8.8.8 | decisive=false | abort"]
    );
    assert_eq!(
        shown(&set_dns_servers(Platform::Linux, "", &servers)),
        vec![
            "write /tmp/resolv.conf.new \"nameserver 1.1.1.1\\nnameserver 8.8.8.8\\n\" | decisive=false | abort",
            "sudo cp /tmp/resolv.conf.new /etc/resolv.conf | decisive=false | abort",
        ]
    );
    assert_eq!(
        shown(&set_dns_servers(Platform::Linux, "", &vec![]))[0],
        "write /tmp/resolv.conf.new \"\" | decisive=false | abort"
    );
}

#[test]
fn search_domain_plans() {
    let domains = texts_of(&["lan", "example.org"]);
    assert_eq!(
        shown(&set_search_domains(Platform::MacOs, "Wi-Fi", &domains, "ignored")),
        vec!["sudo networksetup -setsearchdomains Wi-Fi lan example.org | decisive=false | abort"]
    );
    let existing = "# made by hand\nnameserver 1.1.1.1\nsearch old\n nameserver 2.2.2.2\nnameserver 9.9.9.9";
    assert_eq!(
        shown(&set_search_domains(Platform::Linux, "", &domains, existing)),
        vec![
            "write /tmp/resolv.conf.new \"nameserver 1.1.1.1\\nnameserver 9.9.9.9\\nsearch lan example.org\\n\" | decisive=false | abort",
            "sudo cp /tmp/resolv.conf.new /etc/resolv.conf | decisive=false | abort",
        ]
    );
    assert_eq!(
        shown(&set_search_domains(Platform::Linux, "", &vec![], existing))[0],
        "write /tmp/resolv.conf.new \"nameserver 1.1.1.1\\nnameserver 9.9.9.9\\n\" | decisive=false | abort"
    );
    assert_eq!(
        shown(&set_search_domains(Platform::Linux, "", &domains, ""))[0],
        "write /tmp/resolv.conf.new \"search lan example.org\\n\" | decisive=false | abort"
    );
}

#[test]
fn interface_status_plans() {
    assert_eq!(
        shown(&set_interface_status(Platform::MacOs, "en0", true)),
        vec!["sudo ifconfig en0 up | decisive=false | abort"]
    );
    assert_eq!(
        shown(&set_interface_status(Platform::Linux, "eth0", false)),
        vec!["sudo ip link set eth0 down | decisive=false | abort"]
    );
    assert_eq!(
        shown(&set_interface_status(Platform::Linux, "eth0", true)),
        vec!["sudo ip link set eth0 up | decisive=false | abort"]
    );
}

#[test]
fn ipv6_switch_plans() {
    assert_eq!(
        shown(&disable_ipv6(Platform::MacOs, "Wi-Fi")),
        vec!["sudo networksetup -setv6off Wi-Fi | decisive=false | abort"]
    );
    assert_eq!(
        shown(&enable_ipv6(Platform::MacOs, "Wi-Fi")),
        vec!["sudo networksetup -setv6automatic Wi-Fi | decisive=false | abort"]
    );
    assert_eq!(
        shown(&disable_ipv6(Platform::Linux, "eth0")),
        vec![
            "exists /proc/sys/net/ipv6/conf/eth0/disable_ipv6 | decisive=false | abort with IPv6 is not available on this interface (kernel module may be disabled)",
            "sudo sysctl -w net.ipv6.conf.eth0.disable_ipv6=1 | decisive=false | abort",
        ]
    );
    assert_eq!(
        shown(&enable_ipv6(Platform::Linux, "eth0")),
        vec![
            "exists /proc/sys/net/ipv6/conf/eth0/disable_ipv6 | decisive=false | abort with IPv6 is not available on this interface (kernel module may be disabled)",
            "sudo sysctl -w net.ipv6.conf.eth0.disable_ipv6=0 | decisive=false | abort",
        ]
    );
}

#[test]
fn static_ipv6_plans() {
    assert_eq!(
        shown(&set_static_ipv6(Platform::Linux, "eth0", "2001:db8::2", 64)),
        vec!["sudo ip -6 addr add 2001:db8::2/64 dev eth0 | decisive=false | abort"]
    );
    assert_eq!(
        shown(&set_static_ipv6(Platform::MacOs, "en0", "fe80::1", 128)),
        vec!["sudo ifconfig en0 inet6 fe80::1/128 | decisive=false | abort"]
    );
    assert_eq!(
        shown(&set_static_ipv6(Platform::Linux, "eth0", "::", 0)),
        vec!["sudo ip -6 addr add ::/0 dev eth0 | decisive=false | abort"]
    );
}

#[test]
fn flush_plans() {
    assert_eq!(
        shown(&flush_dns_cache(Platform::MacOs)),
        vec![
            "sudo dscacheutil -flushcache | decisive=false | abort",
            "sudo killall -HUP mDNSResponder | decisive=false | abort",
        ]
    );
    assert_eq!(
        shown(&flush_dns_cache(Platform::Linux)),
        vec![
            "sudo resolvectl flush-caches | decisive=true | ignore",
            "sudo systemd-resolve --flush-caches | decisive=true | ignore",
            "sudo nscd -i hosts | decisive=true | ignore",
            "sudo killall -HUP dnsmasq | decisive=false | abort with Could not flush DNS cache. No supported DNS caching service found.",
        ]
    );
}

fn outcome_of(plan: &Vec<Step>, results: &[bool]) -> (Result<(), String>, usize) {
    let mut at = 0;
    let mut ran = 0;
    loop {
        let outcome = if results[at] { Ok(()) } else { Err(format!("step {} failed", at)) };
        ran += 1;
        match after(plan, at, outcome) {
            Progress::At(next) => at = next,
            Progress::Done(r) => return (r, ran),
        }
    }
}

#[test]
fn a_plan_of_required_steps_stops_at_the_first_failure() {
    let plan = set_static_ip(Platform::Linux, "eth0", "10.0.0.5", "255.255.255.0", Some("10.0.0.1")).unwrap();
    assert_eq!(outcome_of(&plan, &[true, true, true]), (Ok(()), 3));
    assert_eq!(outcome_of(&plan, &[true, false, true]), (Err("step 1 failed".to_string()), 2));
    assert_eq!(outcome_of(&plan, &[false, true, true]), (Err("step 0 failed".to_string()), 1));
    assert_eq!(outcome_of(&plan, &[true, true, false]), (Err("step 2 failed".to_string()), 3));
}

#[test]
fn the_linux_dhcp_plan_falls_back() {
    let plan = set_dhcp(Platform::Linux, "eth0");
    assert_eq!(outcome_of(&plan, &[true, true, true]), (Ok(()), 2));
    assert_eq!(outcome_of(&plan, &[false, true, true]), (Ok(()), 2));
    assert_eq!(outcome_of(&plan, &[false, false, true]), (Ok(()), 3));
    assert_eq!(outcome_of(&plan, &[true, false, false]), (Err("step 2 failed".to_string()), 3));
}

#[test]
fn the_linux_flush_plan_tries_each_way_in_turn() {
    let plan = flush_dns_cache(Platform::Linux);
    assert_eq!(outcome_of(&plan, &[true, true, true, true]), (Ok(()), 1));
    assert_eq!(outcome_of(&plan, &[false, false, true, true]), (Ok(()), 3));
    assert_eq!(outcome_of(&plan, &[false, false, false, true]), (Ok(()), 4));
    assert_eq!(
        outcome_of(&plan, &[false, false, false, false]),
        (
            Err("Could not flush DNS cache. No supported DNS caching service found.".to_string()),
            4
        )
    );
}

#[test]
fn the_linux_ipv6_switch_needs_the_kernel_entry() {
    let plan = disable_ipv6(Platform::Linux, "eth0");
    assert_eq!(
        outcome_of(&plan, &[false, true]),
        (
            Err("IPv6 is not available on this interface (kernel module may be disabled)".to_string()),
            1
        )
    );
    assert_eq!(outcome_of(&plan, &[true, true]), (Ok(()), 2));
    assert_eq!(outcome_of(&plan, &[true, false]), (Err("step 1 failed".to_string()), 2));
}

#[test]
fn confirmed_actions_are_planned_with_their_own_values() {
    let dhcp = ConfirmAction::SetDhcp("eth0".to_string());
    assert_eq!(
        shown(&plan_stage(Platform::Linux, &dhcp, 0, "").unwrap().unwrap()),
        shown(&set_dhcp(Platform::Linux, "eth0"))
    );
    assert!(plan_stage(Platform::Linux, &dhcp, 1, "").is_none());
    let fixed = ConfirmAction::SetStaticIp(
        "eth0".to_string(),
        "10.0.0.5".to_string(),
        "255.255.255.0".to_string(),
        Some("10.0.0.1".to_string()),
    );
    assert_eq!(plan_stage(Platform::Linux, &fixed, 0, "").unwrap().unwrap().len(), 3);
    let bad = ConfirmAction::SetStaticIp("eth0".to_string(), "1".to_string(), "x".to_string(), None);
    assert_eq!(
        plan_stage(Platform::Linux, &bad, 0, "").unwrap().err().as_deref(),
        Some("invalid IPv4 address syntax")
    );
    let toggle = ConfirmAction::ToggleInterface("eth0".to_string(), false);
    assert_eq!(
        shown(&plan_stage(Platform::MacOs, &toggle, 0, "").unwrap().unwrap()),
        vec!["sudo ifconfig eth0 down | decisive=false | abort"]
    );
    let off = ConfirmAction::DisableIpv6("en0".to_string());
    assert_eq!(shown(&plan_stage(Platform::MacOs, &off, 0, "").unwrap().unwrap()), shown(&disable_ipv6(Platform::MacOs, "en0")));
    let on = ConfirmAction::EnableIpv6("en0".to_string());
    assert_eq!(shown(&plan_stage(Platform::MacOs, &on, 0, "").unwrap().unwrap()), shown(&enable_ipv6(Platform::MacOs, "en0")));
    let six = ConfirmAction::SetStaticIpv6("eth0".to_string(), "::2".to_string(), 48);
    assert_eq!(
        shown(&plan_stage(Platform::Linux, &six, 0, "").unwrap().unwrap()),
        vec!["sudo ip -6 addr add ::2/48 dev eth0 | decisive=false | abort"]
    );
}

#[test]
fn setting_dns_has_a_second_stage_for_search_domains() {
    let both = ConfirmAction::SetDns(texts_of(&["1.1.1.1"]), texts_of(&["lan"]));
    assert_eq!(
        shown(&plan_stage(Platform::Linux, &both, 0, "").unwrap().unwrap()),
        shown(&set_dns_servers(Platform::Linux, "", &texts_of(&["1.1.1.1"])))
    );
    assert_eq!(
        shown(&plan_stage(Platform::Linux, &both, 1, "nameserver 1.1.1.1\n").unwrap().unwrap()),
        vec![
            "write /tmp/resolv.conf.new \"nameserver 1.1.1.1\\nsearch lan\\n\" | decisive=false | abort",
            "sudo cp /tmp/resolv.conf.new /etc/resolv.conf | decisive=false | abort",
        ]
    );
    assert!(plan_stage(Platform::Linux, &both, 2, "").is_none());
    let servers_only = ConfirmAction::SetDns(texts_of(&["1.1.1.1"]), vec![]);
    assert!(plan_stage(Platform::Linux, &servers_only, 0, "").is_some());
    assert!(plan_stage(Platform::Linux, &servers_only, 1, "").is_none());
    assert_eq!(
        shown(&plan_stage(Platform::MacOs, &both, 1, "").unwrap().unwrap()),
        vec!["sudo networksetup -setsearchdomains  lan | decisive=false | abort"]
    );
}
