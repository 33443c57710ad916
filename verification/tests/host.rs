use kytan::cli::{client_args, server_args, Args, Client, Server, DEFAULT_DNS, DEFAULT_LISTEN, DEFAULT_PORT};
use kytan::device::{
    address, create_tun_attempt, interface_name, request_name, tun_name, up, utun_frame,
    utun_packet, utun_written, IFNAMSIZ, UNIT_LIMIT, UTUN_HEADER_LEN, UTUN_INET, UTUN_INET6,
};
use kytan::utils::{
    add_route, delete_default_gateway, delete_route, enable_ipv4_forwarding, get_default_gateway,
    get_public_ip, get_route_gateway, printed_value, set_default_gateway, set_dns, Command,
    DefaultGateway, Platform, RouteOp, RouteType,
};
use std::cell::Cell;

fn command(program: &str, args: &[&str]) -> Command {
    Command { program: program.to_string(), args: args.iter().map(|a| a.to_string()).collect() }
}

fn add(route_type: RouteType, route: &str, gateway: &str) -> RouteOp {
    RouteOp::Add { route_type, route: route.to_string(), gateway: gateway.to_string() }
}

fn delete(route_type: RouteType, route: &str) -> RouteOp {
    RouteOp::Delete { route_type, route: route.to_string() }
}

/// A routing table that knows what the changes mean.
fn run(table: &mut Vec<(RouteType, String, String)>, ops: &[RouteOp]) {
    for op in ops {
        match op {
            RouteOp::Add { route_type, route, gateway } => {
                table.retain(|(t, r, _)| !(t == route_type && r == route));
                table.push((*route_type, route.clone(), gateway.clone()));
            }
            RouteOp::Delete { route_type, route } => {
                table.retain(|(t, r, _)| !(t == route_type && r == route));
            }
        }
    }
}

fn sorted(mut table: Vec<(RouteType, String, String)>) -> Vec<(bool, String, String)> {
    let mut rows: Vec<(bool, String, String)> =
        table.drain(..).map(|(t, r, g)| (t == RouteType::Host, r, g)).collect();
    rows.sort();
    rows
}

#[test]
fn route_changes_are_what_they_are_made_of() {
    assert_eq!(add_route(RouteType::Host, "1.1.1.1", "192.168.0.1"), add(RouteType::Host, "1.1.1.1", "192.168.0.1"));
    assert_eq!(add_route(RouteType::Net, "10.0.0.0/8", "10.10.10.1"), add(RouteType::Net, "10.0.0.0/8", "10.10.10.1"));
    assert_eq!(delete_route(RouteType::Host, "1.1.1.1"), delete(RouteType::Host, "1.1.1.1"));
    assert_eq!(set_default_gateway("10.10.10.1"), add(RouteType::Net, "default", "10.10.10.1"));
    assert_eq!(delete_default_gateway(), delete(RouteType::Net, "default"));
}

#[test]
fn route_commands_on_linux() {
    assert_eq!(
        add(RouteType::Host, "1.1.1.1", "192.168.0.1").command(Platform::Linux),
        command("route", &["-n", "add", "-host", "1.1.1.1", "gw", "192.168.0.1"])
    );
    assert_eq!(
        set_default_gateway("10.10.10.1").command(Platform::Linux),
        command("route", &["-n", "add", "-net", "default", "gw", "10.10.10.1"])
    );
    assert_eq!(
        delete(RouteType::Host, "1.1.1.1").command(Platform::Linux),
        command("route", &["-n", "del", "-host", "1.1.1.1"])
    );
    assert_eq!(
        delete_default_gateway().command(Platform::Linux),
        command("route", &["-n", "del", "-net", "default"])
    );
}

#[test]
fn route_commands_on_macos() {
    assert_eq!(
        add(RouteType::Host, "1.1.1.1", "192.168.0.1").command(Platform::MacOs),
        command("route", &["-n", "add", "-host", "1.1.1.1", "192.168.0.1"])
    );
    assert_eq!(
        add(RouteType::Net, "default", "10.10.10.1").command(Platform::MacOs),
        command("route", &["-n", "add", "-net", "default", "10.10.10.1"])
    );
    assert_eq!(
        delete(RouteType::Host, "1.1.1.1").command(Platform::MacOs),
        command("route", &["-n", "delete", "-host", "1.1.1.1"])
    );
    assert_eq!(
        delete(RouteType::Net, "default").command(Platform::MacOs),
        command("route", &["-n", "delete", "-net", "default"])
    );
}

#[test]
fn host_commands() {
    assert_eq!(
        enable_ipv4_forwarding(Platform::Linux),
        command("sysctl", &["-w", "net.ipv4.ip_forward=1"])
    );
    assert_eq!(
        enable_ipv4_forwarding(Platform::MacOs),
        command("sysctl", &["-w", "net.inet.ip.forwarding=1"])
    );
    assert_eq!(
        get_default_gateway(Platform::Linux),
        command("bash", &["-c", "ip -4 route list 0/0 | awk '{print $3}'"])
    );
    assert_eq!(
        get_default_gateway(Platform::MacOs),
        command("bash", &["-c", "route -n get default | grep gateway | awk '{print $2}'"])
    );
    assert_eq!(get_route_gateway("0/0"), command("bash", &["-c", "ip -4 route list 0/0"]));
    assert_eq!(get_route_gateway("1.1.1.1"), command("bash", &["-c", "ip -4 route list 1.1.1.1"]));
    assert_eq!(get_public_ip(), command("curl", &["ipecho.net/plain"]));
    assert_eq!(
        set_dns("8.8.8.8"),
        command("bash", &["-c", "echo nameserver 8.8.8.8 > /etc/resolv.conf"])
    );
}

#[test]
fn printed_value_drops_white_space_at_the_end_only() {
    assert_eq!(printed_value("192.168.0.1\n"), "192.168.0.1");
    assert_eq!(printed_value("192.168.0.1"), "192.168.0.1");
    assert_eq!(printed_value(" a b \t\r\n \n"), " a b");
    assert_eq!(printed_value("\n"), "");
    assert_eq!(printed_value(""), "");
    assert_eq!(printed_value("x\u{a0}\u{2003}\u{3000}\u{85}"), "x");
    assert_eq!(printed_value("x\u{200b}"), "x\u{200b}");
    assert_eq!(printed_value("x\0"), "x\0");
}

#[test]
fn gateway_plan_with_default_route() {
    let plan = DefaultGateway::create("10.10.10.1", "203.0.113.5", true, "192.168.0.1");
    assert_eq!(
        plan.setup(),
        vec![
            add(RouteType::Host, "203.0.113.5", "192.168.0.1"),
            delete(RouteType::Net, "default"),
            add(RouteType::Net, "default", "10.10.10.1"),
        ]
    );
    assert_eq!(
        plan.teardown(),
        vec![
            delete(RouteType::Net, "default"),
            add(RouteType::Net, "default", "192.168.0.1"),
            delete(RouteType::Host, "203.0.113.5"),
        ]
    );
    assert_eq!(plan.rollback(0), vec![]);
    assert_eq!(plan.rollback(1), vec![delete(RouteType::Host, "203.0.113.5")]);
    assert_eq!(
        plan.rollback(2),
        vec![add(RouteType::Net, "default", "192.168.0.1"), delete(RouteType::Host, "203.0.113.5")]
    );
    assert_eq!(plan.rollback(3), plan.teardown());
    assert_eq!(plan.rollback(usize::MAX), plan.teardown());
}

#[test]
fn gateway_plan_without_default_route() {
    let plan = DefaultGateway::create("10.10.10.1", "203.0.113.5", false, "192.168.0.1");
    assert_eq!(plan.setup(), vec![add(RouteType::Host, "203.0.113.5", "192.168.0.1")]);
    assert_eq!(plan.teardown(), vec![delete(RouteType::Host, "203.0.113.5")]);
    assert_eq!(plan.rollback(0), vec![]);
    assert_eq!(plan.rollback(1), plan.teardown());
    assert_eq!(plan.rollback(2), plan.teardown());
}

#[test]
fn routes_are_as_before_after_setup_and_teardown() {
    for default in [true, false] {
        let plan = DefaultGateway::create("10.10.10.1", "203.0.113.5", default, "192.168.0.1");
        let before = vec![
            (RouteType::Net, "default".to_string(), "192.168.0.1".to_string()),
            (RouteType::Net, "192.168.0.0/24".to_string(), "0.0.0.0".to_string()),
        ];
        let mut table = before.clone();
        run(&mut table, &plan.setup());
        assert!(table.contains(&(RouteType::Host, "203.0.113.5".to_string(), "192.168.0.1".to_string())));
        let gateway = if default { "10.10.10.1" } else { "192.168.0.1" };
        assert!(table.contains(&(RouteType::Net, "default".to_string(), gateway.to_string())));
        run(&mut table, &plan.teardown());
        assert_eq!(sorted(table), sorted(before));
    }
}

#[test]
fn routes_are_as_before_after_a_setup_that_stopped_half_way() {
    let plan = DefaultGateway::create("10.10.10.1", "203.0.113.5", true, "192.168.0.1");
    let before = vec![(RouteType::Net, "default".to_string(), "192.168.0.1".to_string())];
    for done in 0..=3 {
        let mut table = before.clone();
        run(&mut table, &plan.setup()[..done]);
        run(&mut table, &plan.rollback(done));
        assert_eq!(sorted(table), sorted(before.clone()), "after {} steps", done);
    }
}

#[test]
fn addresses_and_names() {
    assert_eq!(address(1), "10.10.10.1");
    assert_eq!(address(0), "10.10.10.0");
    assert_eq!(address(9), "10.10.10.9");
    assert_eq!(address(10), "10.10.10.10");
    assert_eq!(address(99), "10.10.10.99");
    assert_eq!(address(100), "10.10.10.100");
    assert_eq!(address(253), "10.10.10.253");
    assert_eq!(address(255), "10.10.10.255");
    assert_eq!(tun_name(0), "tun0");
    assert_eq!(tun_name(10), "tun10");
    assert_eq!(tun_name(254), "tun254");
    for n in 0..=255u8 {
        assert_eq!(address(n), format!("10.10.10.{}", n));
        assert_eq!(tun_name(n), format!("tun{}", n));
    }
}

#[test]
fn request_name_is_the_name_and_zeros() {
    assert_eq!(request_name(0), b"tun0\0\0\0\0\0\0\0\0\0\0\0\0".to_vec());
    assert_eq!(request_name(10), b"tun10\0\0\0\0\0\0\0\0\0\0\0".to_vec());
    assert_eq!(request_name(255), b"tun255\0\0\0\0\0\0\0\0\0\0".to_vec());
    for n in 0..=255u8 {
        let name = request_name(n);
        assert_eq!(name.len(), IFNAMSIZ);
        assert_eq!(interface_name(&name), Some(tun_name(n)));
    }
}

#[test]
fn interface_name_is_the_text_before_the_first_zero() {
    assert_eq!(interface_name(b"tun1\0"), Some("tun1".to_string()));
    assert_eq!(interface_name(b"utun3\0junk\0"), Some("utun3".to_string()));
    assert_eq!(interface_name(b"\0tun1"), Some(String::new()));
    assert_eq!(interface_name(b"tun1"), None);
    assert_eq!(interface_name(b""), None);
    assert_eq!(interface_name(&[b't', 0xff, 0]), None);
    assert_eq!(interface_name("tün\0".as_bytes()), Some("tün".to_string()));
}

#[test]
fn up_commands() {
    assert_eq!(
        up(Platform::Linux, "tun0", 1),
        vec![
            command("ifconfig", &["tun0", "10.10.10.1/24"]),
            command("ifconfig", &["tun0", "mtu", "1380", "up"]),
        ]
    );
    assert_eq!(
        up(Platform::Linux, "tun7", 253),
        vec![
            command("ifconfig", &["tun7", "10.10.10.253/24"]),
            command("ifconfig", &["tun7", "mtu", "1380", "up"]),
        ]
    );
    assert_eq!(
        up(Platform::MacOs, "utun3", 42),
        vec![
            command("ifconfig", &["utun3", "10.10.10.42", "10.10.10.1"]),
            command("ifconfig", &["utun3", "mtu", "1380", "up"]),
        ]
    );
}

#[test]
fn utun_header_goes_by_the_version_of_the_packet() {
    assert_eq!(utun_frame(&[0x45, 1, 2]), vec![0, 0, 0, 2, 0x45, 1, 2]);
    assert_eq!(utun_frame(&[0x60, 1, 2]), vec![0, 0, 0, 10, 0x60, 1, 2]);
    assert_eq!(utun_frame(&[0x6f]), vec![0, 0, 0, 10, 0x6f]);
    assert_eq!(utun_frame(&[0x46]), vec![0, 0, 0, 2, 0x46]);
    assert_eq!(utun_frame(&[0x06]), vec![0, 0, 0, 2, 0x06]);
    assert_eq!((UTUN_HEADER_LEN, UTUN_INET, UTUN_INET6), (4, 2, 10));
}

#[test]
fn utun_packet_is_what_follows_the_header() {
    assert_eq!(utun_packet(&[0, 0, 0, 2, 0x45, 1, 2]), Some(&[0x45u8, 1, 2][..]));
    assert_eq!(utun_packet(&[0, 0, 0, 2]), Some(&[][..]));
    assert_eq!(utun_packet(&[0, 0, 0]), None);
    assert_eq!(utun_packet(&[]), None);
    assert_eq!(utun_packet(&utun_frame(&[0x45, 9, 8, 7])), Some(&[0x45u8, 9, 8, 7][..]));
}

#[test]
fn utun_written_leaves_the_header_out() {
    assert_eq!(utun_written(0), 0);
    assert_eq!(utun_written(3), 0);
    assert_eq!(utun_written(4), 0);
    assert_eq!(utun_written(5), 1);
    assert_eq!(utun_written(1384), 1380);
    assert_eq!(utun_written(usize::MAX), usize::MAX - 4);
}

#[test]
fn tun_attempt_takes_the_first_unit_that_can_be_had() {
    let tried = Cell::new(0u32);
    let found = create_tun_attempt(|unit| {
        tried.set(tried.get() + 1);
        if unit >= 3 { Some(format!("tun{}", unit)) } else { None }
    });
    assert_eq!(found, Some((3, "tun3".to_string())));
    assert_eq!(tried.get(), 4);
    assert_eq!(create_tun_attempt(|unit| Some(unit)), Some((0, 0)));
    assert_eq!(create_tun_attempt(|unit| if unit == 254 { Some(()) } else { None }), Some((254, ())));
}

#[test]
fn tun_attempt_gives_up_at_the_limit() {
    let tried = Cell::new(Vec::new());
    let found: Option<(u8, ())> = create_tun_attempt(|unit| {
        let mut seen = tried.take();
        seen.push(unit);
        tried.set(seen);
        None
    });
    assert_eq!(found, None);
    assert_eq!(tried.take(), (0..255).collect::<Vec<u8>>());
    assert_eq!(UNIT_LIMIT, 255);
}

#[test]
fn client_args_from_the_command_line() {
    assert_eq!(
        client_args("vpn.example.org", "9527", "secret", false),
        Ok(Args::Client(Client {
            remote_addr: "vpn.example.org".to_string(),
            port: 9527,
            key: "secret".to_string(),
            default_route: true,
        }))
    );
    assert_eq!(
        client_args("10.0.0.1", "+80", "k", true),
        Ok(Args::Client(Client {
            remote_addr: "10.0.0.1".to_string(),
            port: 80,
            key: "k".to_string(),
            default_route: false,
        }))
    );
}

#[test]
fn server_args_from_the_command_line() {
    assert_eq!(
        server_args(DEFAULT_LISTEN, "9527", "secret", DEFAULT_DNS),
        Ok(Args::Server(Server {
            bind_addr: "0.0.0.0".to_string(),
            port: DEFAULT_PORT,
            key: "secret".to_string(),
            dns: "8.8.8.8".to_string(),
        }))
    );
    assert_eq!(DEFAULT_PORT, 9527);
}

#[test]
fn ports_are_decimal_numbers_of_16_bits() {
    let port = |text: &str| match client_args("h", text, "k", false) {
        Ok(Args::Client(client)) => Some(client.port),
        _ => None,
    };
    assert_eq!(port("0"), Some(0));
    assert_eq!(port("65535"), Some(65535));
    assert_eq!(port("0065535"), Some(65535));
    assert_eq!(port("+1"), Some(1));
    assert_eq!(port("65536"), None);
    assert_eq!(port("99999999999999999999"), None);
    assert_eq!(port(""), None);
    assert_eq!(port("+"), None);
    assert_eq!(port("-1"), None);
    assert_eq!(port("++1"), None);
    assert_eq!(port(" 1"), None);
    assert_eq!(port("1 "), None);
    assert_eq!(port("1_0"), None);
    assert_eq!(port("0x10"), None);
    assert_eq!(port("٣"), None);
    assert!(server_args("0.0.0.0", "port", "k", "8.8.8.8").is_err());
    assert_eq!(
        client_args("h", "", "k", false),
        Err("cannot parse integer from empty string".to_string())
    );
}

#[test]
fn enable_ipv4_forwarding_test() {
    let command = enable_ipv4_forwarding(Platform::Linux);
    assert_eq!(command.program, "sysctl");
    assert_eq!(command.args, vec!["-w", "net.ipv4.ip_forward=1"]);
}

#[test]
fn get_default_gateway_test() {
    // The gateway is the third word of what the listing of the route 0/0 prints.
    let listing = "default via 192.168.0.1 dev eth0 proto dhcp metric 100 \n";
    assert_eq!(
        get_default_gateway(Platform::Linux).args[1],
        format!("{} | awk '{{print $3}}'", get_route_gateway("0/0").args[1])
    );
    let a = printed_value(&format!("{}\n", listing.split_whitespace().nth(2).unwrap()));
    assert_eq!(a, "192.168.0.1");
    assert!(printed_value(listing).contains(&*a))
}

#[test]
fn route_test() {
    let gw = printed_value("192.168.0.1\n");
    let mut table = vec![(RouteType::Net, "default".to_string(), gw.clone())];
    run(&mut table, &[add_route(RouteType::Host, "1.1.1.1", &gw)]);
    assert!(table.contains(&(RouteType::Host, "1.1.1.1".to_string(), gw.clone())));
    run(&mut table, &[delete_route(RouteType::Host, "1.1.1.1")]);
    assert!(!table.contains(&(RouteType::Host, "1.1.1.1".to_string(), gw.clone())));
    assert_eq!(
        add_route(RouteType::Host, "1.1.1.1", &gw).command(Platform::Linux),
        command("route", &["-n", "add", "-host", "1.1.1.1", "gw", "192.168.0.1"])
    );
    assert_eq!(
        delete_route(RouteType::Host, "1.1.1.1").command(Platform::Linux),
        command("route", &["-n", "del", "-host", "1.1.1.1"])
    );
}

#[test]
fn set_dns_test() {
    let command = set_dns("8.8.8.8");
    assert_eq!(command.program, "bash");
    assert_eq!(command.args, vec!["-c", "echo nameserver 8.8.8.8 > /etc/resolv.conf"]);
}

#[test]
fn create_tun_test() {
    let request = request_name(10);
    let name = interface_name(&request).unwrap();
    assert_eq!(name, "tun10");
    assert_eq!(
        up(Platform::Linux, &name, 1),
        vec![
            command("ifconfig", &["tun10", "10.10.10.1/24"]),
            command("ifconfig", &["tun10", "mtu", "1380", "up"]),
        ]
    );
}
