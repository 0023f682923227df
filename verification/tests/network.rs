use matchbox::commands::{HostCommand, IpCommand, IpTablesCommand, Table, Target};
use matchbox::id::VmIdentifier;
use matchbox::models::NetworkInterface;
use matchbox::network::{
    setup_tap_device, Network, NetworkStep, DEFAULT_CIDR_BLOCK, HOST_INTERFACE_NAME,
};

fn line(step: &NetworkStep) -> String {
    match step {
        NetworkStep::CreateNamespace { name } => format!("netns-create {name}"),
        NetworkStep::RemoveNamespace { name } => format!("netns-remove {name}"),
        NetworkStep::Host(command) => {
            format!("host: {} {}", command.program(), command.args().join(" "))
        }
        NetworkStep::InNamespace(command) => {
            format!("inside: {} {}", command.program(), command.args().join(" "))
        }
    }
}

fn lines(steps: &[NetworkStep]) -> Vec<String> {
    steps.iter().map(line).collect()
}

fn interface(host_dev_name: &str, iface_id: &str) -> NetworkInterface {
    NetworkInterface {
        host_dev_name: host_dev_name.to_string(),
        iface_id: iface_id.to_string(),
        guest_mac: None,
        rx_rate_limiter: None,
        tx_rate_limiter: None,
    }
}

#[test]
fn constants_are_as_documented() {
    assert_eq!(HOST_INTERFACE_NAME, "ens4");
    assert_eq!(DEFAULT_CIDR_BLOCK, "172.16.0.1/30");
}

#[test]
fn ip_commands_have_their_arguments() {
    let s = |t: &str| t.to_string();
    assert_eq!(IpCommand::DeleteDevice { device: s("d") }.args(), ["link", "del", "d"]);
    assert_eq!(
        IpCommand::CreateTapDevice { device: s("tap0") }.args(),
        ["tuntap", "add", "dev", "tap0", "mode", "tap"]
    );
    assert_eq!(
        IpCommand::AddAddress { cidr_block: s("10.0.0.1/29"), device: s("d") }.args(),
        ["addr", "add", "10.0.0.1/29", "dev", "d"]
    );
    assert_eq!(IpCommand::Activate { device: s("d") }.args(), ["link", "set", "dev", "d", "up"]);
    assert_eq!(
        IpCommand::CreateVethPair { veth: s("a-veth"), vpeer: s("a-vpeer") }.args(),
        ["link", "add", "a-vpeer", "type", "veth", "peer", "name", "a-veth"]
    );
    assert_eq!(
        IpCommand::MoveDeviceToNamespace { device: s("d"), namespace: s("ns") }.args(),
        ["link", "set", "d", "netns", "ns"]
    );
    assert_eq!(
        IpCommand::AddDefaultRoute { address: s("10.0.0.1") }.args(),
        ["route", "add", "default", "via", "10.0.0.1"]
    );
    assert_eq!(
        IpCommand::AddRoute { to: s("10.0.0.3"), via: s("10.0.0.2") }.args(),
        ["route", "add", "10.0.0.3", "via", "10.0.0.2"]
    );
}

#[test]
fn iptables_commands_have_their_arguments() {
    let s = |t: &str| t.to_string();
    assert_eq!(
        IpTablesCommand::AddRule {
            table: Table::Forward,
            target: Target::Accept,
            input: s("in"),
            output: s("out"),
        }
        .args(),
        ["-A", "FORWARD", "-i", "in", "-o", "out", "-j", "ACCEPT"]
    );
    assert_eq!(
        IpTablesCommand::DeleteRule {
            table: Table::Forward,
            target: Target::Accept,
            input: s("in"),
            output: s("out"),
        }
        .args(),
        ["-D", "FORWARD", "-i", "in", "-o", "out", "-j", "ACCEPT"]
    );
    assert_eq!(
        IpTablesCommand::EnableMasquerade { source_address: None, output: s("out") }.args(),
        ["-t", "nat", "-A", "POSTROUTING", "-o", "out", "-j", "MASQUERADE"]
    );
    assert_eq!(
        IpTablesCommand::EnableMasquerade { source_address: Some(s("10.0.0.2/29")), output: s("out") }
            .args(),
        ["-t", "nat", "-A", "POSTROUTING", "-s", "10.0.0.2/29", "-o", "out", "-j", "MASQUERADE"]
    );
    assert_eq!(
        IpTablesCommand::DisableMasquerade { source_address: Some(s("10.0.0.2/29")), output: s("out") }
            .args(),
        ["-t", "nat", "-D", "POSTROUTING", "-s", "10.0.0.2/29", "-o", "out", "-j", "MASQUERADE"]
    );
    assert_eq!(
        IpTablesCommand::DisableMasquerade { source_address: None, output: s("out") }.args(),
        ["-t", "nat", "-D", "POSTROUTING", "-o", "out", "-j", "MASQUERADE"]
    );
    assert_eq!(
        IpTablesCommand::RewriteSource { output: s("out"), source: s("src"), to: s("to") }.args(),
        ["-t", "nat", "-A", "POSTROUTING", "-o", "out", "-s", "src", "-j", "SNAT", "--to", "to"]
    );
    assert_eq!(
        IpTablesCommand::RewriteDestination { input: s("in"), destination: s("dst"), to: s("to") }
            .args(),
        ["-t", "nat", "-A", "PREROUTING", "-i", "in", "-d", "dst", "-j", "DNAT", "--to", "to"]
    );
}

#[test]
fn host_commands_name_their_program() {
    let ip = HostCommand::Ip(IpCommand::Activate { device: "lo".to_string() });
    assert_eq!(ip.program(), "ip");
    assert_eq!(ip.args(), ["link", "set", "dev", "lo", "up"]);
    let iptables = HostCommand::IpTables(IpTablesCommand::EnableMasquerade {
        source_address: None,
        output: "o".to_string(),
    });
    assert_eq!(iptables.program(), "iptables");
    assert_eq!(Table::Forward.as_ref(), "FORWARD");
    assert_eq!(Target::Accept.as_ref(), "ACCEPT");
}

#[test]
fn network_names_and_addresses() {
    let id = VmIdentifier::new("abc".to_string(), 0);
    let network = Network::new(&id);
    assert_eq!(network.namespace_name(), "abc");
    assert_eq!(network.veth(), ("abc-veth".to_string(), "10.200.0.1".to_string()));
    assert_eq!(network.vpeer(), ("abc-vpeer".to_string(), "10.200.0.2".to_string()));
    assert_eq!(network.microvm_ip(), "10.200.0.3");
}

#[test]
fn tap_device_steps() {
    let steps = setup_tap_device("tap0", "abc-vpeer".to_string());
    assert_eq!(
        lines(&steps),
        [
            "inside: ip tuntap add dev tap0 mode tap",
            "inside: ip addr add 172.16.0.1/30 dev tap0",
            "inside: ip link set dev tap0 up",
            "inside: iptables -A FORWARD -i tap0 -o abc-vpeer -j ACCEPT",
        ]
    );
}

#[test]
fn setup_runs_in_the_documented_order() {
    let id = VmIdentifier::new("abc".to_string(), 61);
    let network = Network::new(&id);
    let steps = network.setup(&vec![interface("tap0", "eth0")]);
    assert_eq!(
        lines(&steps),
        [
            "netns-create abc",
            "host: ip link add abc-vpeer type veth peer name abc-veth",
            "host: ip addr add 10.200.1.5/29 dev abc-veth",
            "host: ip link set dev abc-veth up",
            "host: ip link set abc-vpeer netns abc",
            "inside: ip addr add 10.200.1.6/29 dev abc-vpeer",
            "inside: ip link set dev abc-vpeer up",
            "inside: ip link set dev lo up",
            "inside: ip route add default via 10.200.1.5",
            "inside: iptables -t nat -A POSTROUTING -o abc-vpeer -j MASQUERADE",
            "inside: iptables -t nat -A POSTROUTING -o abc-vpeer -s 172.16.0.2 -j SNAT --to 10.200.1.7",
            "inside: iptables -t nat -A PREROUTING -i abc-vpeer -d 10.200.1.7 -j DNAT --to 172.16.0.2",
            "inside: ip tuntap add dev tap0 mode tap",
            "inside: ip addr add 172.16.0.1/30 dev tap0",
            "inside: ip link set dev tap0 up",
            "inside: iptables -A FORWARD -i tap0 -o abc-vpeer -j ACCEPT",
            "host: ip route add 10.200.1.7 via 10.200.1.6",
            "host: iptables -t nat -A POSTROUTING -s 10.200.1.6/29 -o ens4 -j MASQUERADE",
            "host: iptables -A FORWARD -i abc-veth -o ens4 -j ACCEPT",
            "host: iptables -A FORWARD -i ens4 -o abc-veth -j ACCEPT",
        ]
    );
}

#[test]
fn setup_handles_no_and_many_interfaces() {
    let id = VmIdentifier::new("n".to_string(), 0);
    let network = Network::new(&id);
    assert!(network.setup_interfaces(&vec![]).is_empty());
    assert_eq!(network.setup(&vec![]).len(), 16);
    let two = network.setup_interfaces(&vec![interface("tap0", "eth0"), interface("tap1", "eth1")]);
    assert_eq!(two.len(), 8);
    assert_eq!(line(&two[0]), "inside: ip tuntap add dev tap0 mode tap");
    assert_eq!(line(&two[4]), "inside: ip tuntap add dev tap1 mode tap");
    assert_eq!(line(&two[7]), "inside: iptables -A FORWARD -i tap1 -o n-vpeer -j ACCEPT");
}

#[test]
fn teardown_removes_what_setup_left_on_the_host() {
    let id = VmIdentifier::new("abc".to_string(), 61);
    let network = Network::new(&id);
    assert_eq!(
        lines(&network.teardown()),
        [
            "netns-remove abc",
            "host: ip link del abc-veth",
            "host: iptables -D FORWARD -i abc-veth -o ens4 -j ACCEPT",
            "host: iptables -D FORWARD -i ens4 -o abc-veth -j ACCEPT",
            "host: iptables -t nat -D POSTROUTING -s 10.200.1.6/29 -o ens4 -j MASQUERADE",
        ]
    );
}
