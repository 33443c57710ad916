//! The commands that change the routes and the resolver of the host, and the
//! order in which a client issues and takes them back.
//!
//! Nothing here runs a command. The functions say which program is started
//! with which arguments; the program around the engine starts it.

use vstd::prelude::*;
use vstd::string::StringExecFns;

verus! {

/// The family of operating systems that the commands are for.
#[derive(Debug, Clone, Copy, PartialEq, Eq, Structural)]
pub enum Platform {
    Linux,
    MacOs,
}

/// Whether a route leads to a network or to a single host.
#[derive(Debug, Clone, Copy, PartialEq, Eq, Structural)]
pub enum RouteType {
    Net,
    Host,
}

/// A program and the arguments it is started with.
#[derive(Debug, Clone, PartialEq, Eq)]
pub struct Command {
    pub program: String,
    pub args: Vec<String>,
}

/// Mathematical value of a `Command`.
pub struct CommandView {
    pub program: Seq<char>,
    pub args: Seq<Seq<char>>,
}

impl View for Command {
    type V = CommandView;

    open spec fn view(&self) -> CommandView {
        CommandView { program: self.program@, args: self.args.deep_view() }
    }
}

/// A change to the routing table.
#[derive(Debug, Clone, PartialEq, Eq)]
pub enum RouteOp {
    /// Add a route to `route` through `gateway`.
    Add { route_type: RouteType, route: String, gateway: String },
    /// Delete the route to `route`.
    Delete { route_type: RouteType, route: String },
}

/// Mathematical value of a `RouteOp`.
pub enum RouteOpView {
    Add { route_type: RouteType, route: Seq<char>, gateway: Seq<char> },
    Delete { route_type: RouteType, route: Seq<char> },
}

impl View for RouteOp {
    type V = RouteOpView;

    open spec fn view(&self) -> RouteOpView {
        match self {
            RouteOp::Add { route_type, route, gateway } => RouteOpView::Add {
                route_type: *route_type,
                route: route@,
                gateway: gateway@,
            },
            RouteOp::Delete { route_type, route } => RouteOpView::Delete {
                route_type: *route_type,
                route: route@,
            },
        }
    }
}

/// The values of a run of changes.
pub open spec fn views(ops: Seq<RouteOp>) -> Seq<RouteOpView> {
    Seq::new(ops.len(), |i: int| ops[i]@)
}

/// The argument that tells `route` whether a route leads to a network or a host.
pub open spec fn spec_mode(route_type: RouteType) -> Seq<char> {
    match route_type {
        RouteType::Net => "-net"@,
        RouteType::Host => "-host"@,
    }
}

/// The command that carries out a change to the routing table.
pub open spec fn spec_route_command(platform: Platform, op: RouteOpView) -> CommandView {
    CommandView {
        program: "route"@,
        args: match (op, platform) {
            (RouteOpView::Add { route_type, route, gateway }, Platform::Linux) => seq![
                "-n"@,
                "add"@,
                spec_mode(route_type),
                route,
                "gw"@,
                gateway,
            ],
            (RouteOpView::Add { route_type, route, gateway }, Platform::MacOs) => seq![
                "-n"@,
                "add"@,
                spec_mode(route_type),
                route,
                gateway,
            ],
            (RouteOpView::Delete { route_type, route }, Platform::Linux) => seq![
                "-n"@,
                "del"@,
                spec_mode(route_type),
                route,
            ],
            (RouteOpView::Delete { route_type, route }, Platform::MacOs) => seq![
                "-n"@,
                "delete"@,
                spec_mode(route_type),
                route,
            ],
        },
    }
}

/// The change that adds a route.
pub fn add_route(route_type: RouteType, route: &str, gateway: &str) -> (op: RouteOp)
    ensures
        op@ == (RouteOpView::Add { route_type, route: route@, gateway: gateway@ }),
{
    RouteOp::Add { route_type, route: route.to_owned(), gateway: gateway.to_owned() }
}

/// The change that deletes a route.
pub fn delete_route(route_type: RouteType, route: &str) -> (op: RouteOp)
    ensures
        op@ == (RouteOpView::Delete { route_type, route: route@ }),
{
    RouteOp::Delete { route_type, route: route.to_owned() }
}

/// The change that makes `gateway` the default gateway.
pub fn set_default_gateway(gateway: &str) -> (op: RouteOp)
    ensures
        op@ == (RouteOpView::Add {
            route_type: RouteType::Net,
            route: "default"@,
            gateway: gateway@,
        }),
{
    add_route(RouteType::Net, "default", gateway)
}

/// The change that deletes the default route.
pub fn delete_default_gateway() -> (op: RouteOp)
    ensures
        op@ == (RouteOpView::Delete { route_type: RouteType::Net, route: "default"@ }),
{
    delete_route(RouteType::Net, "default")
}

/// The argument that tells `route` whether a route leads to a network or a host.
fn mode(route_type: RouteType) -> (arg: String)
    ensures
        arg@ == spec_mode(route_type),
{
    match route_type {
        RouteType::Net => String::from_str("-net"),
        RouteType::Host => String::from_str("-host"),
    }
}

impl RouteOp {
    /// The command that carries out the change on the given platform.
    pub fn command(&self, platform: Platform) -> (cmd: Command)
        ensures
            cmd@ == spec_route_command(platform, self@),
    {
        let mut args: Vec<String> = Vec::new();
        args.push(String::from_str("-n"));
        match self {
            RouteOp::Add { route_type, route, gateway } => {
                args.push(String::from_str("add"));
                args.push(mode(*route_type));
                args.push(route.clone());
                match platform {
                    Platform::Linux => {
                        args.push(String::from_str("gw"));
                    },
                    Platform::MacOs => {},
                }
                args.push(gateway.clone());
            },
            RouteOp::Delete { route_type, route } => {
                match platform {
                    Platform::Linux => {
                        args.push(String::from_str("del"));
                    },
                    Platform::MacOs => {
                        args.push(String::from_str("delete"));
                    },
                }
                args.push(mode(*route_type));
                args.push(route.clone());
            },
        }
        assert(args.deep_view() =~= spec_route_command(platform, self@).args);
        Command { program: String::from_str("route"), args }
    }
}

/// The command that lets the kernel forward IPv4 packets.
pub fn enable_ipv4_forwarding(platform: Platform) -> (cmd: Command)
    ensures
        cmd@.program == "sysctl"@,
        cmd@.args == seq![
            "-w"@,
            match platform {
                Platform::Linux => "net.ipv4.ip_forward=1"@,
                Platform::MacOs => "net.inet.ip.forwarding=1"@,
            },
        ],
{
    let mut args: Vec<String> = Vec::new();
    args.push(String::from_str("-w"));
    match platform {
        Platform::Linux => {
            args.push(String::from_str("net.ipv4.ip_forward=1"));
        },
        Platform::MacOs => {
            args.push(String::from_str("net.inet.ip.forwarding=1"));
        },
    }
    assert(args.deep_view() =~= seq![
        "-w"@,
        match platform {
            Platform::Linux => "net.ipv4.ip_forward=1"@,
            Platform::MacOs => "net.inet.ip.forwarding=1"@,
        },
    ]);
    Command { program: String::from_str("sysctl"), args }
}

/// A command that hands `script` to the shell.
fn shell(script: String) -> (cmd: Command)
    ensures
        cmd@.program == "bash"@,
        cmd@.args == seq!["-c"@, script@],
{
    let mut args: Vec<String> = Vec::new();
    args.push(String::from_str("-c"));
    args.push(script);
    assert(args.deep_view() =~= seq!["-c"@, script@]);
    Command { program: String::from_str("bash"), args }
}

/// The command that prints the default gateway of the host.
pub fn get_default_gateway(platform: Platform) -> (cmd: Command)
    ensures
        cmd@.program == "bash"@,
        cmd@.args == seq![
            "-c"@,
            match platform {
                Platform::Linux => "ip -4 route list 0/0 | awk '{print $3}'"@,
                Platform::MacOs => "route -n get default | grep gateway | awk '{print $2}'"@,
            },
        ],
{
    match platform {
        Platform::Linux => shell(String::from_str("ip -4 route list 0/0 | awk '{print $3}'")),
        Platform::MacOs => shell(
            String::from_str("route -n get default | grep gateway | awk '{print $2}'"),
        ),
    }
}

/// The command that prints the routes to `route`.
pub fn get_route_gateway(route: &str) -> (cmd: Command)
    ensures
        cmd@.program == "bash"@,
        cmd@.args == seq!["-c"@, "ip -4 route list "@ + route@],
{
    shell(String::from_str("ip -4 route list ").concat(route))
}

/// The command that prints the address under which the host is seen from
/// outside.
pub fn get_public_ip() -> (cmd: Command)
    ensures
        cmd@.program == "curl"@,
        cmd@.args == seq!["ipecho.net/plain"@],
{
    let mut args: Vec<String> = Vec::new();
    args.push(String::from_str("ipecho.net/plain"));
    assert(args.deep_view() =~= seq!["ipecho.net/plain"@]);
    Command { program: String::from_str("curl"), args }
}

/// The command that makes `dns` the only resolver of the host.
pub fn set_dns(dns: &str) -> (cmd: Command)
    ensures
        cmd@.program == "bash"@,
        cmd@.args == seq!["-c"@, "echo nameserver "@ + dns@ + " > /etc/resolv.conf"@],
{
    shell(String::from_str("echo nameserver ").concat(dns).concat(" > /etc/resolv.conf"))
}

/// Whether a character is white space, by the property `White_Space` of
/// Unicode.
pub open spec fn is_white_space(c: char) -> bool {
    let code = c as u32;
    ||| 0x09 <= code <= 0x0d
    ||| code == 0x20
    ||| code == 0x85
    ||| code == 0xa0
    ||| code == 0x1680
    ||| 0x2000 <= code <= 0x200a
    ||| code == 0x2028
    ||| code == 0x2029
    ||| code == 0x202f
    ||| code == 0x205f
    ||| code == 0x3000
}

/// A text without the white space at its end.
pub open spec fn spec_trim_end(text: Seq<char>) -> Seq<char>
    decreases text.len(),
{
    if text.len() > 0 && is_white_space(text.last()) {
        spec_trim_end(text.drop_last())
    } else {
        text
    }
}

/// `str::trim_end` of the standard library: the text without the white
/// space at its end.
#[verifier::external_body]
fn trim_end(text: &str) -> (trimmed: &str)
    ensures
        trimmed@ == spec_trim_end(text@),
{
    text.trim_end()
}

/// What a command that prints one value has printed: its output without
/// the white space at the end.
pub fn printed_value(output: &str) -> (value: String)
    ensures
        value@ == spec_trim_end(output@),
{
    trim_end(output).to_owned()
}

/// What a client changes in the routes of its host: the route to the server
/// is pinned to the gateway that was the default before, and the tunnel
/// becomes the default gateway where that is asked for.
#[derive(Debug, Clone, PartialEq, Eq)]
pub struct DefaultGateway {
    origin: String,
    remote: String,
    gateway: String,
    default: bool,
}

/// Mathematical value of a `DefaultGateway`.
pub struct GatewayView {
    /// The default gateway of the host before the tunnel.
    pub origin: Seq<char>,
    /// The address of the server.
    pub remote: Seq<char>,
    /// The gateway of the tunnel.
    pub gateway: Seq<char>,
    /// Whether the tunnel becomes the default gateway.
    pub default: bool,
}

impl View for DefaultGateway {
    type V = GatewayView;

    closed spec fn view(&self) -> GatewayView {
        GatewayView {
            origin: self.origin@,
            remote: self.remote@,
            gateway: self.gateway@,
            default: self.default,
        }
    }
}

/// The route that everything takes for which there is no other.
pub open spec fn default_route() -> (RouteType, Seq<char>) {
    (RouteType::Net, "default"@)
}

impl GatewayView {
    /// The changes that set the routes up, in the order in which they are
    /// made.
    pub open spec fn setup(self) -> Seq<RouteOpView> {
        let pin = RouteOpView::Add {
            route_type: RouteType::Host,
            route: self.remote,
            gateway: self.origin,
        };
        if self.default {
            seq![
                pin,
                RouteOpView::Delete { route_type: RouteType::Net, route: "default"@ },
                RouteOpView::Add {
                    route_type: RouteType::Net,
                    route: "default"@,
                    gateway: self.gateway,
                },
            ]
        } else {
            seq![pin]
        }
    }

    /// The change that takes back step `step` of the setup.
    pub open spec fn undo(self, step: int) -> RouteOpView {
        if step == 0 {
            RouteOpView::Delete { route_type: RouteType::Host, route: self.remote }
        } else if step == 1 {
            RouteOpView::Add {
                route_type: RouteType::Net,
                route: "default"@,
                gateway: self.origin,
            }
        } else {
            RouteOpView::Delete { route_type: RouteType::Net, route: "default"@ }
        }
    }

    /// The changes that take back the first `done` steps of the setup, the
    /// last step first.
    pub open spec fn rollback(self, done: nat) -> Seq<RouteOpView> {
        Seq::new(done, |i: int| self.undo(done - 1 - i))
    }
}

impl DefaultGateway {
    /// Plans the routes of a client whose server is at `remote`, on a host
    /// whose default gateway is `origin`: `gateway` becomes the default
    /// gateway if `default` is set.
    pub fn create(gateway: &str, remote: &str, default: bool, origin: &str) -> (plan:
        DefaultGateway)
        ensures
            plan@ == (GatewayView {
                origin: origin@,
                remote: remote@,
                gateway: gateway@,
                default,
            }),
    {
        DefaultGateway {
            origin: origin.to_owned(),
            remote: remote.to_owned(),
            gateway: gateway.to_owned(),
            default,
        }
    }

    /// The changes that set the routes up, in the order in which they are
    /// to be made.
    pub fn setup(&self) -> (ops: Vec<RouteOp>)
        ensures
            views(ops@) == self@.setup(),
            ops@.len() == self@.setup().len(),
    {
        let mut ops: Vec<RouteOp> = Vec::new();
        ops.push(add_route(RouteType::Host, self.remote.as_str(), self.origin.as_str()));
        if self.default {
            ops.push(delete_default_gateway());
            ops.push(set_default_gateway(self.gateway.as_str()));
        }
        assert(views(ops@) =~= self@.setup());
        ops
    }

    /// The changes that take back the first `done` steps of the setup, in
    /// the order in which they are to be made. All steps are taken back
    /// where `done` is not below their number.
    pub fn rollback(&self, done: usize) -> (ops: Vec<RouteOp>)
        ensures
            views(ops@) == self@.rollback(
                if done <= self@.setup().len() {
                    done as nat
                } else {
                    self@.setup().len()
                },
            ),
    {
        let steps: usize = if self.default {
            3
        } else {
            1
        };
        let done = if done <= steps {
            done
        } else {
            steps
        };
        let mut ops: Vec<RouteOp> = Vec::new();
        if done >= 3 {
            ops.push(delete_default_gateway());
        }
        if done >= 2 {
            ops.push(set_default_gateway(self.origin.as_str()));
        }
        if done >= 1 {
            ops.push(delete_route(RouteType::Host, self.remote.as_str()));
        }
        assert(views(ops@) =~= self@.rollback(done as nat));
        ops
    }

    /// The changes that take the whole setup back.
    pub fn teardown(&self) -> (ops: Vec<RouteOp>)
        ensures
            views(ops@) == self@.rollback(self@.setup().len()),
    {
        self.rollback(3)
    }
}

/// A routing table, as far as the changes of a client touch it: the gateway
/// of every route, by type and destination.
pub type RouteTable = Map<(RouteType, Seq<char>), Seq<char>>;

/// The routing table after a change.
pub open spec fn apply(table: RouteTable, op: RouteOpView) -> RouteTable {
    match op {
        RouteOpView::Add { route_type, route, gateway } => table.insert(
            (route_type, route),
            gateway,
        ),
        RouteOpView::Delete { route_type, route } => table.remove((route_type, route)),
    }
}

/// The routing table after a run of changes.
pub open spec fn apply_all(table: RouteTable, ops: Seq<RouteOpView>) -> RouteTable
    decreases ops.len(),
{
    if ops.len() == 0 {
        table
    } else {
        apply(apply_all(table, ops.drop_last()), ops.last())
    }
}

/// Setting the routes up as far as `done` steps and taking these steps back
/// leaves the routing table as it was, where `origin` was the default gateway
/// and no route to the server was there before.
pub proof fn lemma_rollback_restores(table: RouteTable, plan: GatewayView, done: nat)
    requires
        done <= plan.setup().len(),
        table.contains_key(default_route()),
        table[default_route()] == plan.origin,
        !table.contains_key((RouteType::Host, plan.remote)),
    ensures
        apply_all(apply_all(table, plan.setup().take(done as int)), plan.rollback(done))
            == table,
{
    let made = plan.setup().take(done as int);
    let back = plan.rollback(done);
    let host = (RouteType::Host, plan.remote);
    reveal_with_fuel(apply_all, 4);
    if done == 0 {
        assert(apply_all(apply_all(table, made), back) =~= table);
    } else if done == 1 {
        assert(made.drop_last() =~= Seq::empty());
        assert(back.drop_last() =~= Seq::empty());
        assert(apply_all(apply_all(table, made), back) =~= table);
    } else if done == 2 {
        assert(made.drop_last() =~= plan.setup().take(1));
        assert(made.drop_last().drop_last() =~= Seq::empty());
        assert(back.drop_last().drop_last() =~= Seq::empty());
        assert(apply_all(apply_all(table, made), back) =~= table);
    } else {
        assert(made.drop_last() =~= plan.setup().take(2));
        assert(made.drop_last().drop_last() =~= plan.setup().take(1));
        assert(made.drop_last().drop_last().drop_last() =~= Seq::empty());
        assert(back.drop_last().drop_last().drop_last() =~= Seq::empty());
        assert(apply_all(apply_all(table, made), back) =~= table);
    }
}

/// After the routes were set up and taken back, the default gateway of the
/// host is the one it had before.
pub proof fn lemma_default_gateway_restored(table: RouteTable, plan: GatewayView)
    requires
        table.contains_key(default_route()),
        table[default_route()] == plan.origin,
    ensures
        ({
            let after = apply_all(
                apply_all(table, plan.setup()),
                plan.rollback(plan.setup().len()),
            );
            after.contains_key(default_route()) && after[default_route()] == table[default_route()]
        }),
{
    let made = plan.setup();
    let back = plan.rollback(made.len());
    reveal_with_fuel(apply_all, 4);
    if plan.default {
        assert(made.drop_last().drop_last().drop_last() =~= Seq::empty());
        assert(back.drop_last().drop_last().drop_last() =~= Seq::empty());
    } else {
        assert(made.drop_last() =~= Seq::empty());
        assert(back.drop_last() =~= Seq::empty());
    }
}

} // verus!
