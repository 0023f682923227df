//! The host commands that configure a sandbox's network, as values.
//!
//! A command is described by what it does; [`HostCommand::argv`] gives the
//! exact argument vector to run. Nothing here runs a command.

use crate::models::optional_view;
use vstd::prelude::*;

verus! {

/// The texts of a list of arguments.
pub open spec fn texts(argv: Seq<String>) -> Seq<Seq<char>> {
    Seq::new(argv.len(), |i: int| argv[i]@)
}

/// Appends one argument.
pub fn push_arg(argv: &mut Vec<String>, arg: &str)
    ensures
        texts(final(argv)@) == texts(old(argv)@).push(arg@),
{
    argv.push(String::from_str(arg));
    assert(texts(argv@) =~= texts(old(argv)@).push(arg@));
}

/// A call of `ip`.
pub enum IpCommand {
    /// `ip link del <device>`
    DeleteDevice { device: String },
    /// `ip tuntap add dev <device> mode tap`
    CreateTapDevice { device: String },
    /// `ip addr add <cidr_block> dev <device>`
    AddAddress { cidr_block: String, device: String },
    /// `ip link set dev <device> up`
    Activate { device: String },
    /// `ip link add <vpeer> type veth peer name <veth>`
    CreateVethPair { veth: String, vpeer: String },
    /// `ip link set <device> netns <namespace>`
    MoveDeviceToNamespace { device: String, namespace: String },
    /// `ip route add default via <address>`
    AddDefaultRoute { address: String },
    /// `ip route add <to> via <via>`
    AddRoute { to: String, via: String },
}

/// `ip link del <device>`
pub open spec fn ip_delete_device(device: Seq<char>) -> Seq<Seq<char>> {
    seq!["link"@, "del"@, device]
}

/// `ip tuntap add dev <device> mode tap`
pub open spec fn ip_create_tap_device(device: Seq<char>) -> Seq<Seq<char>> {
    seq!["tuntap"@, "add"@, "dev"@, device, "mode"@, "tap"@]
}

/// `ip addr add <cidr_block> dev <device>`
pub open spec fn ip_add_address(cidr_block: Seq<char>, device: Seq<char>) -> Seq<Seq<char>> {
    seq!["addr"@, "add"@, cidr_block, "dev"@, device]
}

/// `ip link set dev <device> up`
pub open spec fn ip_activate(device: Seq<char>) -> Seq<Seq<char>> {
    seq!["link"@, "set"@, "dev"@, device, "up"@]
}

/// `ip link add <vpeer> type veth peer name <veth>`
pub open spec fn ip_create_veth_pair(veth: Seq<char>, vpeer: Seq<char>) -> Seq<Seq<char>> {
    seq!["link"@, "add"@, vpeer, "type"@, "veth"@, "peer"@, "name"@, veth]
}

/// `ip link set <device> netns <namespace>`
pub open spec fn ip_move_device_to_namespace(device: Seq<char>, namespace: Seq<char>) -> Seq<
    Seq<char>,
> {
    seq!["link"@, "set"@, device, "netns"@, namespace]
}

/// `ip route add default via <address>`
pub open spec fn ip_add_default_route(address: Seq<char>) -> Seq<Seq<char>> {
    seq!["route"@, "add"@, "default"@, "via"@, address]
}

/// `ip route add <to> via <via>`
pub open spec fn ip_add_route(to: Seq<char>, via: Seq<char>) -> Seq<Seq<char>> {
    seq!["route"@, "add"@, to, "via"@, via]
}

impl IpCommand {
    /// The arguments that follow `ip`.
    pub open spec fn spec_args(&self) -> Seq<Seq<char>> {
        match self {
            IpCommand::DeleteDevice { device } => ip_delete_device(device@),
            IpCommand::CreateTapDevice { device } => ip_create_tap_device(device@),
            IpCommand::AddAddress { cidr_block, device } => ip_add_address(cidr_block@, device@),
            IpCommand::Activate { device } => ip_activate(device@),
            IpCommand::CreateVethPair { veth, vpeer } => ip_create_veth_pair(veth@, vpeer@),
            IpCommand::MoveDeviceToNamespace { device, namespace } => ip_move_device_to_namespace(
                device@,
                namespace@,
            ),
            IpCommand::AddDefaultRoute { address } => ip_add_default_route(address@),
            IpCommand::AddRoute { to, via } => ip_add_route(to@, via@),
        }
    }

    /// The arguments that follow `ip`.
    pub fn args(&self) -> (argv: Vec<String>)
        ensures
            texts(argv@) == self.spec_args(),
    {
        let mut argv: Vec<String> = Vec::new();
        assert(texts(argv@) =~= Seq::<Seq<char>>::empty());
        match self {
            IpCommand::DeleteDevice { device } => {
                push_arg(&mut argv, "link");
                push_arg(&mut argv, "del");
                push_arg(&mut argv, device.as_str());
            },
            IpCommand::CreateTapDevice { device } => {
                push_arg(&mut argv, "tuntap");
                push_arg(&mut argv, "add");
                push_arg(&mut argv, "dev");
                push_arg(&mut argv, device.as_str());
                push_arg(&mut argv, "mode");
                push_arg(&mut argv, "tap");
            },
            IpCommand::AddAddress { cidr_block, device } => {
                push_arg(&mut argv, "addr");
                push_arg(&mut argv, "add");
                push_arg(&mut argv, cidr_block.as_str());
                push_arg(&mut argv, "dev");
                push_arg(&mut argv, device.as_str());
            },
            IpCommand::Activate { device } => {
                push_arg(&mut argv, "link");
                push_arg(&mut argv, "set");
                push_arg(&mut argv, "dev");
                push_arg(&mut argv, device.as_str());
                push_arg(&mut argv, "up");
            },
            IpCommand::CreateVethPair { veth, vpeer } => {
                push_arg(&mut argv, "link");
                push_arg(&mut argv, "add");
                push_arg(&mut argv, vpeer.as_str());
                push_arg(&mut argv, "type");
                push_arg(&mut argv, "veth");
                push_arg(&mut argv, "peer");
                push_arg(&mut argv, "name");
                push_arg(&mut argv, veth.as_str());
            },
            IpCommand::MoveDeviceToNamespace { device, namespace } => {
                push_arg(&mut argv, "link");
                push_arg(&mut argv, "set");
                push_arg(&mut argv, device.as_str());
                push_arg(&mut argv, "netns");
                push_arg(&mut argv, namespace.as_str());
            },
            IpCommand::AddDefaultRoute { address } => {
                push_arg(&mut argv, "route");
                push_arg(&mut argv, "add");
                push_arg(&mut argv, "default");
                push_arg(&mut argv, "via");
                push_arg(&mut argv, address.as_str());
            },
            IpCommand::AddRoute { to, via } => {
                push_arg(&mut argv, "route");
                push_arg(&mut argv, "add");
                push_arg(&mut argv, to.as_str());
                push_arg(&mut argv, "via");
                push_arg(&mut argv, via.as_str());
            },
        }
        assert(texts(argv@) =~= self.spec_args());
        argv
    }
}

/// A chain of the packet filter.
#[derive(Debug)]
pub enum Table {
    Forward,
}

impl Table {
    /// The chain's name as `iptables` takes it.
    pub open spec fn spec_name(&self) -> Seq<char> {
        match self {
            Table::Forward => "FORWARD"@,
        }
    }

    /// The chain's name as `iptables` takes it.
    pub fn as_ref(&self) -> (name: &'static str)
        ensures
            name@ == self.spec_name(),
    {
        match self {
            Table::Forward => "FORWARD",
        }
    }
}

/// What a rule does with a packet that matches.
#[derive(Debug)]
pub enum Target {
    Accept,
}

impl Target {
    /// The target's name as `iptables` takes it.
    pub open spec fn spec_name(&self) -> Seq<char> {
        match self {
            Target::Accept => "ACCEPT"@,
        }
    }

    /// The target's name as `iptables` takes it.
    pub fn as_ref(&self) -> (name: &'static str)
        ensures
            name@ == self.spec_name(),
    {
        match self {
            Target::Accept => "ACCEPT",
        }
    }
}

/// A call of `iptables`.
pub enum IpTablesCommand {
    /// `iptables -D <table> -i <input> -o <output> -j <target>`
    DeleteRule { table: Table, target: Target, input: String, output: String },
    /// `iptables -A <table> -i <input> -o <output> -j <target>`
    AddRule { table: Table, target: Target, input: String, output: String },
    /// `iptables -t nat -A POSTROUTING [-s <source_address>] -o <output> -j MASQUERADE`
    EnableMasquerade { source_address: Option<String>, output: String },
    /// `iptables -t nat -D POSTROUTING [-s <source_address>] -o <output> -j MASQUERADE`
    DisableMasquerade { source_address: Option<String>, output: String },
    /// `iptables -t nat -A POSTROUTING -o <output> -s <source> -j SNAT --to <to>`
    RewriteSource { output: String, source: String, to: String },
    /// `iptables -t nat -A PREROUTING -i <input> -d <destination> -j DNAT --to <to>`
    RewriteDestination { input: String, destination: String, to: String },
}

/// `iptables <flag> <table> -i <input> -o <output> -j <target>`, where
/// `flag` is `-A` to append the rule and `-D` to delete it.
pub open spec fn iptables_rule(
    flag: Seq<char>,
    table: Seq<char>,
    target: Seq<char>,
    input: Seq<char>,
    output: Seq<char>,
) -> Seq<Seq<char>> {
    seq![flag, table, "-i"@, input, "-o"@, output, "-j"@, target]
}

/// `iptables -t nat <flag> POSTROUTING [-s <source>] -o <output> -j MASQUERADE`,
/// where `flag` is `-A` to append the rule and `-D` to delete it.
pub open spec fn iptables_masquerade(
    flag: Seq<char>,
    source_address: Option<Seq<char>>,
    output: Seq<char>,
) -> Seq<Seq<char>> {
    let head = seq!["-t"@, "nat"@, flag, "POSTROUTING"@];
    let tail = seq!["-o"@, output, "-j"@, "MASQUERADE"@];
    match source_address {
        Some(source) => head + seq!["-s"@, source] + tail,
        None => head + tail,
    }
}

/// `iptables -t nat -A POSTROUTING -o <output> -s <source> -j SNAT --to <to>`
pub open spec fn iptables_rewrite_source(output: Seq<char>, source: Seq<char>, to: Seq<char>) -> Seq<
    Seq<char>,
> {
    seq![
        "-t"@,
        "nat"@,
        "-A"@,
        "POSTROUTING"@,
        "-o"@,
        output,
        "-s"@,
        source,
        "-j"@,
        "SNAT"@,
        "--to"@,
        to,
    ]
}

/// `iptables -t nat -A PREROUTING -i <input> -d <destination> -j DNAT --to <to>`
pub open spec fn iptables_rewrite_destination(
    input: Seq<char>,
    destination: Seq<char>,
    to: Seq<char>,
) -> Seq<Seq<char>> {
    seq![
        "-t"@,
        "nat"@,
        "-A"@,
        "PREROUTING"@,
        "-i"@,
        input,
        "-d"@,
        destination,
        "-j"@,
        "DNAT"@,
        "--to"@,
        to,
    ]
}

/// Appends the arguments of a masquerade rule.
fn push_masquerade(
    argv: &mut Vec<String>,
    flag: &str,
    source_address: &Option<String>,
    output: &str,
)
    ensures
        texts(final(argv)@) == texts(old(argv)@) + iptables_masquerade(
            flag@,
            optional_view(*source_address),
            output@,
        ),
{
    push_arg(argv, "-t");
    push_arg(argv, "nat");
    push_arg(argv, flag);
    push_arg(argv, "POSTROUTING");
    match source_address {
        Some(source) => {
            push_arg(argv, "-s");
            push_arg(argv, source.as_str());
        },
        None => {},
    }
    push_arg(argv, "-o");
    push_arg(argv, output);
    push_arg(argv, "-j");
    push_arg(argv, "MASQUERADE");
    assert(texts(argv@) =~= texts(old(argv)@) + iptables_masquerade(
        flag@,
        optional_view(*source_address),
        output@,
    ));
}

/// Appends the arguments of a filter rule.
fn push_rule(
    argv: &mut Vec<String>,
    flag: &str,
    table: &Table,
    target: &Target,
    input: &str,
    output: &str,
)
    ensures
        texts(final(argv)@) == texts(old(argv)@) + iptables_rule(
            flag@,
            table.spec_name(),
            target.spec_name(),
            input@,
            output@,
        ),
{
    push_arg(argv, flag);
    push_arg(argv, table.as_ref());
    push_arg(argv, "-i");
    push_arg(argv, input);
    push_arg(argv, "-o");
    push_arg(argv, output);
    push_arg(argv, "-j");
    push_arg(argv, target.as_ref());
    assert(texts(argv@) =~= texts(old(argv)@) + iptables_rule(
        flag@,
        table.spec_name(),
        target.spec_name(),
        input@,
        output@,
    ));
}

impl IpTablesCommand {
    /// The arguments that follow `iptables`.
    pub open spec fn spec_args(&self) -> Seq<Seq<char>> {
        match self {
            IpTablesCommand::DeleteRule { table, target, input, output } => iptables_rule(
                "-D"@,
                table.spec_name(),
                target.spec_name(),
                input@,
                output@,
            ),
            IpTablesCommand::AddRule { table, target, input, output } => iptables_rule(
                "-A"@,
                table.spec_name(),
                target.spec_name(),
                input@,
                output@,
            ),
            IpTablesCommand::EnableMasquerade { source_address, output } => iptables_masquerade(
                "-A"@,
                optional_view(*source_address),
                output@,
            ),
            IpTablesCommand::DisableMasquerade { source_address, output } => iptables_masquerade(
                "-D"@,
                optional_view(*source_address),
                output@,
            ),
            IpTablesCommand::RewriteSource { output, source, to } => iptables_rewrite_source(
                output@,
                source@,
                to@,
            ),
            IpTablesCommand::RewriteDestination {
                input,
                destination,
                to,
            } => iptables_rewrite_destination(input@, destination@, to@),
        }
    }

    /// The arguments that follow `iptables`.
    pub fn args(&self) -> (argv: Vec<String>)
        ensures
            texts(argv@) == self.spec_args(),
    {
        let mut argv: Vec<String> = Vec::new();
        assert(texts(argv@) =~= Seq::<Seq<char>>::empty());
        match self {
            IpTablesCommand::DeleteRule { table, target, input, output } => {
                push_rule(&mut argv, "-D", table, target, input.as_str(), output.as_str());
            },
            IpTablesCommand::AddRule { table, target, input, output } => {
                push_rule(&mut argv, "-A", table, target, input.as_str(), output.as_str());
            },
            IpTablesCommand::EnableMasquerade { source_address, output } => {
                push_masquerade(&mut argv, "-A", source_address, output.as_str());
            },
            IpTablesCommand::DisableMasquerade { source_address, output } => {
                push_masquerade(&mut argv, "-D", source_address, output.as_str());
            },
            IpTablesCommand::RewriteSource { output, source, to } => {
                push_arg(&mut argv, "-t");
                push_arg(&mut argv, "nat");
                push_arg(&mut argv, "-A");
                push_arg(&mut argv, "POSTROUTING");
                push_arg(&mut argv, "-o");
                push_arg(&mut argv, output.as_str());
                push_arg(&mut argv, "-s");
                push_arg(&mut argv, source.as_str());
                push_arg(&mut argv, "-j");
                push_arg(&mut argv, "SNAT");
                push_arg(&mut argv, "--to");
                push_arg(&mut argv, to.as_str());
            },
            IpTablesCommand::RewriteDestination { input, destination, to } => {
                push_arg(&mut argv, "-t");
                push_arg(&mut argv, "nat");
                push_arg(&mut argv, "-A");
                push_arg(&mut argv, "PREROUTING");
                push_arg(&mut argv, "-i");
                push_arg(&mut argv, input.as_str());
                push_arg(&mut argv, "-d");
                push_arg(&mut argv, destination.as_str());
                push_arg(&mut argv, "-j");
                push_arg(&mut argv, "DNAT");
                push_arg(&mut argv, "--to");
                push_arg(&mut argv, to.as_str());
            },
        }
        assert(texts(argv@) =~= self.spec_args());
        argv
    }
}

/// A command of either family.
pub enum HostCommand {
    Ip(IpCommand),
    IpTables(IpTablesCommand),
}

impl HostCommand {
    /// The program and its arguments.
    pub open spec fn spec_argv(&self) -> Seq<Seq<char>> {
        match self {
            HostCommand::Ip(command) => seq!["ip"@] + command.spec_args(),
            HostCommand::IpTables(command) => seq!["iptables"@] + command.spec_args(),
        }
    }

    /// The program to run.
    pub fn program(&self) -> (name: &'static str)
        ensures
            name@ == self.spec_argv()[0],
    {
        match self {
            HostCommand::Ip(_) => "ip",
            HostCommand::IpTables(_) => "iptables",
        }
    }

    /// The arguments to run the program with.
    pub fn args(&self) -> (argv: Vec<String>)
        ensures
            texts(argv@) == self.spec_argv().skip(1),
    {
        let argv = match self {
            HostCommand::Ip(command) => command.args(),
            HostCommand::IpTables(command) => command.args(),
        };
        assert(texts(argv@) =~= self.spec_argv().skip(1));
        argv
    }
}

} // verus!
