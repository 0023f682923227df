//! The host-side network of one sandbox: its names, its addresses, and the
//! commands that build it and take it down.
//!
//! Each sandbox gets a network namespace named after it, a veth pair whose
//! peer lives inside the namespace, one tap device per guest interface, and
//! the address translation that makes the guest reachable under the third
//! address of its block.

use crate::commands::{
    ip_activate, ip_add_address, ip_add_default_route, ip_add_route, ip_create_tap_device,
    ip_create_veth_pair, ip_delete_device, ip_move_device_to_namespace, iptables_masquerade,
    iptables_rewrite_destination, iptables_rewrite_source, iptables_rule, HostCommand, IpCommand,
    IpTablesCommand, Table, Target,
};
use crate::id::{AddressBlock, IpAddressType, VmIdentifier};
use crate::models::NetworkInterface;
use crate::text::concat2;
use vstd::prelude::*;

verus! {

/// The interface of the host that leads to the outside world.
pub const HOST_INTERFACE_NAME: &'static str = "ens4";

/// The address and prefix that every tap device gets inside its namespace.
pub const DEFAULT_CIDR_BLOCK: &'static str = "172.16.0.1/30";

/// The address every guest has inside its namespace.
pub const GUEST_ADDRESS: &'static str = "172.16.0.2";

/// One step of building or taking down a sandbox's network.
pub enum NetworkStep {
    /// Create the named network namespace.
    CreateNamespace { name: String },
    /// Remove the named network namespace, and with it all that lives inside.
    RemoveNamespace { name: String },
    /// Run the command in the host's own namespace.
    Host(HostCommand),
    /// Run the command inside the sandbox's namespace.
    InNamespace(HostCommand),
}

/// What a [`NetworkStep`] does, with each command as its argument vector.
pub enum NetworkStepView {
    CreateNamespace(Seq<char>),
    RemoveNamespace(Seq<char>),
    Host(Seq<Seq<char>>),
    InNamespace(Seq<Seq<char>>),
}

impl View for NetworkStep {
    type V = NetworkStepView;

    open spec fn view(&self) -> NetworkStepView {
        match self {
            NetworkStep::CreateNamespace { name } => NetworkStepView::CreateNamespace(name@),
            NetworkStep::RemoveNamespace { name } => NetworkStepView::RemoveNamespace(name@),
            NetworkStep::Host(command) => NetworkStepView::Host(command.spec_argv()),
            NetworkStep::InNamespace(command) => NetworkStepView::InNamespace(command.spec_argv()),
        }
    }
}

/// The views of a list of steps.
pub open spec fn step_views(steps: Seq<NetworkStep>) -> Seq<NetworkStepView> {
    Seq::new(steps.len(), |i: int| steps[i]@)
}

/// `ip` with the given arguments, in the host's namespace.
pub open spec fn host_ip(args: Seq<Seq<char>>) -> NetworkStepView {
    NetworkStepView::Host(seq!["ip"@] + args)
}

/// `iptables` with the given arguments, in the host's namespace.
pub open spec fn host_iptables(args: Seq<Seq<char>>) -> NetworkStepView {
    NetworkStepView::Host(seq!["iptables"@] + args)
}

/// `ip` with the given arguments, inside the sandbox's namespace.
pub open spec fn inside_ip(args: Seq<Seq<char>>) -> NetworkStepView {
    NetworkStepView::InNamespace(seq!["ip"@] + args)
}

/// `iptables` with the given arguments, inside the sandbox's namespace.
pub open spec fn inside_iptables(args: Seq<Seq<char>>) -> NetworkStepView {
    NetworkStepView::InNamespace(seq!["iptables"@] + args)
}

/// The name of the host end of the veth pair of namespace `ns`.
pub open spec fn spec_veth_name(ns: Seq<char>) -> Seq<char> {
    ns + "-veth"@
}

/// The name of the veth end that lives inside namespace `ns`.
pub open spec fn spec_vpeer_name(ns: Seq<char>) -> Seq<char> {
    ns + "-vpeer"@
}

/// The steps that give the guest interface backed by tap device `device`
/// its place inside the namespace: create the tap, address it, bring it up,
/// and let its traffic pass to the veth peer.
pub open spec fn spec_setup_tap_device(device: Seq<char>, veth_device: Seq<char>) -> Seq<
    NetworkStepView,
> {
    seq![
        inside_ip(ip_create_tap_device(device)),
        inside_ip(ip_add_address(DEFAULT_CIDR_BLOCK@, device)),
        inside_ip(ip_activate(device)),
        inside_iptables(iptables_rule("-A"@, "FORWARD"@, "ACCEPT"@, device, veth_device)),
    ]
}

/// The tap steps of each interface, in the order of the interfaces.
pub open spec fn spec_setup_interfaces(vpeer: Seq<char>, interfaces: Seq<NetworkInterface>) -> Seq<
    NetworkStepView,
>
    decreases interfaces.len(),
{
    if interfaces.len() == 0 {
        Seq::empty()
    } else {
        spec_setup_interfaces(vpeer, interfaces.drop_last()) + spec_setup_tap_device(
            interfaces.last().host_dev_name@,
            vpeer,
        )
    }
}

/// The steps that create the veth pair of namespace `ns`, address both
/// ends, move the peer into the namespace, and set up routing and address
/// translation inside it.
pub open spec fn spec_setup_veth_devices(ns: Seq<char>, block: AddressBlock) -> Seq<
    NetworkStepView,
> {
    let veth = spec_veth_name(ns);
    let vpeer = spec_vpeer_name(ns);
    let host_address = block.spec_ip(0);
    let peer_address = block.spec_ip(1);
    let guest_address = block.spec_ip(2);
    seq![
        host_ip(ip_create_veth_pair(veth, vpeer)),
        host_ip(ip_add_address(host_address + "/29"@, veth)),
        host_ip(ip_activate(veth)),
        host_ip(ip_move_device_to_namespace(vpeer, ns)),
        inside_ip(ip_add_address(peer_address + "/29"@, vpeer)),
        inside_ip(ip_activate(vpeer)),
        inside_ip(ip_activate("lo"@)),
        inside_ip(ip_add_default_route(host_address)),
        inside_iptables(iptables_masquerade("-A"@, None, vpeer)),
        inside_iptables(iptables_rewrite_source(vpeer, GUEST_ADDRESS@, guest_address)),
        inside_iptables(iptables_rewrite_destination(vpeer, guest_address, GUEST_ADDRESS@)),
    ]
}

/// The steps that make the host route to the guest and forward its traffic
/// to the outside.
pub open spec fn spec_setup_host_routing(ns: Seq<char>, block: AddressBlock) -> Seq<
    NetworkStepView,
> {
    let veth = spec_veth_name(ns);
    let peer_address = block.spec_ip(1);
    let guest_address = block.spec_ip(2);
    seq![
        host_ip(ip_add_route(guest_address, peer_address)),
        host_iptables(
            iptables_masquerade("-A"@, Some(peer_address + "/29"@), HOST_INTERFACE_NAME@),
        ),
        host_iptables(iptables_rule("-A"@, "FORWARD"@, "ACCEPT"@, veth, HOST_INTERFACE_NAME@)),
        host_iptables(iptables_rule("-A"@, "FORWARD"@, "ACCEPT"@, HOST_INTERFACE_NAME@, veth)),
    ]
}

/// Every step of building the network, in the order in which they must run.
pub open spec fn spec_setup(
    ns: Seq<char>,
    block: AddressBlock,
    interfaces: Seq<NetworkInterface>,
) -> Seq<NetworkStepView> {
    seq![NetworkStepView::CreateNamespace(ns)] + spec_setup_veth_devices(ns, block)
        + spec_setup_interfaces(spec_vpeer_name(ns), interfaces) + spec_setup_host_routing(
        ns,
        block,
    )
}

/// Every step of taking the network down. What lives inside the namespace
/// goes with it; the peer of the veth pair goes with its host end.
pub open spec fn spec_teardown(ns: Seq<char>, block: AddressBlock) -> Seq<NetworkStepView> {
    let veth = spec_veth_name(ns);
    let peer_address = block.spec_ip(1);
    seq![
        NetworkStepView::RemoveNamespace(ns),
        host_ip(ip_delete_device(veth)),
        host_iptables(iptables_rule("-D"@, "FORWARD"@, "ACCEPT"@, veth, HOST_INTERFACE_NAME@)),
        host_iptables(iptables_rule("-D"@, "FORWARD"@, "ACCEPT"@, HOST_INTERFACE_NAME@, veth)),
        host_iptables(
            iptables_masquerade("-D"@, Some(peer_address + "/29"@), HOST_INTERFACE_NAME@),
        ),
    ]
}

/// Sandboxes with different identifiers have different device names.
pub proof fn lemma_device_names_distinct(a: Seq<char>, b: Seq<char>)
    requires
        a != b,
    ensures
        spec_veth_name(a) != spec_veth_name(b),
        spec_vpeer_name(a) != spec_vpeer_name(b),
{
    lemma_same_suffix(a, b, "-veth"@);
    lemma_same_suffix(a, b, "-vpeer"@);
}

/// Two texts before the same suffix are equal only if they are the same
/// text.
proof fn lemma_same_suffix(a: Seq<char>, b: Seq<char>, suffix: Seq<char>)
    requires
        a != b,
    ensures
        a + suffix != b + suffix,
{
    if a + suffix == b + suffix {
        assert((a + suffix).len() == a.len() + suffix.len());
        assert((b + suffix).len() == b.len() + suffix.len());
        assert(a =~= b) by {
            assert forall|i: int| 0 <= i < a.len() implies a[i] == b[i] by {
                assert((a + suffix)[i] == a[i]);
                assert((b + suffix)[i] == b[i]);
            }
        }
    }
}

/// Every step that sets up an interface runs inside the namespace.
proof fn lemma_interfaces_inside(vpeer: Seq<char>, interfaces: Seq<NetworkInterface>, k: int)
    requires
        0 <= k < spec_setup_interfaces(vpeer, interfaces).len(),
    ensures
        spec_setup_interfaces(vpeer, interfaces)[k] is InNamespace,
    decreases interfaces.len(),
{
    let before = spec_setup_interfaces(vpeer, interfaces.drop_last());
    if k < before.len() {
        lemma_interfaces_inside(vpeer, interfaces.drop_last(), k);
    } else {
        let tap = spec_setup_tap_device(interfaces.last().host_dev_name@, vpeer);
        assert(tap[k - before.len()] is InNamespace);
    }
}

/// Taking the network down takes back everything that building it left in
/// the host's own namespace: the namespace that was created is removed, the
/// veth pair that was created is deleted, and every filter rule and every
/// masquerade rule that was appended there is deleted. What was set up
/// inside the namespace needs no step of its own.
pub proof fn lemma_teardown_undoes_setup(
    ns: Seq<char>,
    block: AddressBlock,
    interfaces: Seq<NetworkInterface>,
)
    ensures
        spec_setup(ns, block, interfaces).contains(NetworkStepView::CreateNamespace(ns)),
        spec_teardown(ns, block).contains(NetworkStepView::RemoveNamespace(ns)),
        spec_setup(ns, block, interfaces).contains(
            host_ip(ip_create_veth_pair(spec_veth_name(ns), spec_vpeer_name(ns))),
        ),
        spec_teardown(ns, block).contains(host_ip(ip_delete_device(spec_veth_name(ns)))),
        forall|table: Seq<char>, target: Seq<char>, input: Seq<char>, output: Seq<char>|
            #![trigger iptables_rule("-A"@, table, target, input, output)]
            spec_setup(ns, block, interfaces).contains(
                host_iptables(iptables_rule("-A"@, table, target, input, output)),
            ) ==> spec_teardown(ns, block).contains(
                host_iptables(iptables_rule("-D"@, table, target, input, output)),
            ),
        forall|source: Option<Seq<char>>, output: Seq<char>|
            #![trigger iptables_masquerade("-A"@, source, output)]
            spec_setup(ns, block, interfaces).contains(
                host_iptables(iptables_masquerade("-A"@, source, output)),
            ) ==> spec_teardown(ns, block).contains(
                host_iptables(iptables_masquerade("-D"@, source, output)),
            ),
{
    let setup = spec_setup(ns, block, interfaces);
    let teardown = spec_teardown(ns, block);
    let veth = spec_veth_name(ns);
    let vpeer = spec_vpeer_name(ns);
    let devices = spec_setup_veth_devices(ns, block);
    let taps = spec_setup_interfaces(vpeer, interfaces);
    let routing = spec_setup_host_routing(ns, block);
    let m = taps.len() as int;
    reveal_strlit("ip");
    reveal_strlit("iptables");
    assert("ip"@ != "iptables"@) by {
        assert("ip"@.len() == 2);
        assert("iptables"@.len() == 8);
    }
    assert(setup.len() == 16 + m);
    assert(setup[0] == NetworkStepView::CreateNamespace(ns));
    assert(setup[1] == devices[0]);
    assert(teardown[0] == NetworkStepView::RemoveNamespace(ns));
    assert(teardown[1] == host_ip(ip_delete_device(veth)));
    assert forall|k: int| 0 <= k < setup.len() implies k == 0 || (1 <= k < 12 && setup[k]
        == devices[k - 1]) || (12 <= k < 12 + m && setup[k] is InNamespace) || (12 + m <= k && setup[k]
        == routing[k - 12 - m]) by {
        if 12 <= k < 12 + m {
            lemma_interfaces_inside(vpeer, interfaces, k - 12);
            assert(setup[k] == taps[k - 12]);
        }
    }
    assert forall|table: Seq<char>, target: Seq<char>, input: Seq<char>, output: Seq<char>|
        #![trigger iptables_rule("-A"@, table, target, input, output)]
        setup.contains(
            host_iptables(iptables_rule("-A"@, table, target, input, output)),
        ) implies teardown.contains(
        host_iptables(iptables_rule("-D"@, table, target, input, output)),
    ) by {
        let wanted = host_iptables(iptables_rule("-A"@, table, target, input, output));
        let undone = host_iptables(iptables_rule("-D"@, table, target, input, output));
        let k = choose|k: int| 0 <= k < setup.len() && setup[k] == wanted;
        assert(wanted->Host_0.len() == 9);
        assert(wanted->Host_0[0] == "iptables"@);
        if 1 <= k < 12 {
            assert(setup[k] == devices[k - 1]);
            if k <= 4 {
                assert(devices[k - 1]->Host_0[0] == "ip"@);
            }
            assert(false);
        } else if k == 12 + m {
            assert(routing[0]->Host_0[0] == "ip"@);
            assert(false);
        } else if k == 13 + m {
            assert(routing[1]->Host_0.len() == 11);
            assert(false);
        } else if k == 14 + m {
            let found = routing[2]->Host_0;
            assert(found == wanted->Host_0);
            assert(found[2] == table && found[4] == input && found[6] == output && found[8]
                == target);
            assert(teardown[2] =~= undone);
        } else if k == 15 + m {
            let found = routing[3]->Host_0;
            assert(found == wanted->Host_0);
            assert(found[2] == table && found[4] == input && found[6] == output && found[8]
                == target);
            assert(teardown[3] =~= undone);
        } else {
            assert(false);
        }
    }
    assert forall|source: Option<Seq<char>>, output: Seq<char>|
        #![trigger iptables_masquerade("-A"@, source, output)]
        setup.contains(
            host_iptables(iptables_masquerade("-A"@, source, output)),
        ) implies teardown.contains(host_iptables(iptables_masquerade("-D"@, source, output))) by {
        let wanted = host_iptables(iptables_masquerade("-A"@, source, output));
        let undone = host_iptables(iptables_masquerade("-D"@, source, output));
        let k = choose|k: int| 0 <= k < setup.len() && setup[k] == wanted;
        assert(wanted->Host_0[0] == "iptables"@);
        if 1 <= k < 12 {
            assert(setup[k] == devices[k - 1]);
            if k <= 4 {
                assert(devices[k - 1]->Host_0[0] == "ip"@);
            }
            assert(false);
        } else if k == 12 + m {
            assert(routing[0]->Host_0[0] == "ip"@);
            assert(false);
        } else if k == 13 + m {
            let found = routing[1]->Host_0;
            assert(found == wanted->Host_0);
            assert(found.len() == 11);
            assert(source is Some);
            assert(found[6] == source->0 && found[8] == output);
            assert(teardown[4] =~= undone);
        } else if k == 14 + m || k == 15 + m {
            reveal_strlit("-t");
            reveal_strlit("-A");
            let found = routing[k - 12 - m]->Host_0;
            assert(found == wanted->Host_0);
            assert(found[1] == "-A"@);
            assert(wanted->Host_0[1] == "-t"@);
            assert("-A"@[1] == 'A');
            assert("-t"@[1] == 't');
            assert(false);
        } else {
            assert(false);
        }
    }
}

/// Appends one step.
fn push_step(steps: &mut Vec<NetworkStep>, step: NetworkStep)
    ensures
        step_views(final(steps)@) == step_views(old(steps)@).push(step@),
{
    steps.push(step);
    assert(step_views(steps@) =~= step_views(old(steps)@).push(step@));
}

/// Appends `ip` with the given meaning, in the host's namespace.
fn push_host_ip(steps: &mut Vec<NetworkStep>, command: IpCommand)
    ensures
        step_views(final(steps)@) == step_views(old(steps)@).push(host_ip(command.spec_args())),
{
    push_step(steps, NetworkStep::Host(HostCommand::Ip(command)));
}

/// Appends `iptables` with the given meaning, in the host's namespace.
fn push_host_iptables(steps: &mut Vec<NetworkStep>, command: IpTablesCommand)
    ensures
        step_views(final(steps)@) == step_views(old(steps)@).push(
            host_iptables(command.spec_args()),
        ),
{
    push_step(steps, NetworkStep::Host(HostCommand::IpTables(command)));
}

/// Appends `ip` with the given meaning, inside the sandbox's namespace.
fn push_inside_ip(steps: &mut Vec<NetworkStep>, command: IpCommand)
    ensures
        step_views(final(steps)@) == step_views(old(steps)@).push(inside_ip(command.spec_args())),
{
    push_step(steps, NetworkStep::InNamespace(HostCommand::Ip(command)));
}

/// Appends `iptables` with the given meaning, inside the sandbox's namespace.
fn push_inside_iptables(steps: &mut Vec<NetworkStep>, command: IpTablesCommand)
    ensures
        step_views(final(steps)@) == step_views(old(steps)@).push(
            inside_iptables(command.spec_args()),
        ),
{
    push_step(steps, NetworkStep::InNamespace(HostCommand::IpTables(command)));
}

/// Appends all of `more` to `steps`.
fn append_steps(steps: &mut Vec<NetworkStep>, more: Vec<NetworkStep>)
    ensures
        step_views(final(steps)@) == step_views(old(steps)@) + step_views(more@),
{
    let ghost added = more@;
    let mut more = more;
    steps.append(&mut more);
    assert(step_views(steps@) =~= step_views(old(steps)@) + step_views(added));
}

/// The steps that give the guest interface backed by tap device `device`
/// its place inside the namespace.
pub fn setup_tap_device(device: &str, veth_device: String) -> (steps: Vec<NetworkStep>)
    ensures
        step_views(steps@) == spec_setup_tap_device(device@, veth_device@),
{
    let mut steps: Vec<NetworkStep> = Vec::new();
    assert(step_views(steps@) =~= Seq::<NetworkStepView>::empty());
    push_inside_ip(&mut steps, IpCommand::CreateTapDevice { device: String::from_str(device) });
    push_inside_ip(
        &mut steps,
        IpCommand::AddAddress {
            cidr_block: String::from_str(DEFAULT_CIDR_BLOCK),
            device: String::from_str(device),
        },
    );
    push_inside_ip(&mut steps, IpCommand::Activate { device: String::from_str(device) });
    push_inside_iptables(
        &mut steps,
        IpTablesCommand::AddRule {
            table: Table::Forward,
            target: Target::Accept,
            input: String::from_str(device),
            output: veth_device,
        },
    );
    assert(step_views(steps@) =~= spec_setup_tap_device(device@, veth_device@));
    steps
}

/// The host-side network of one sandbox.
#[derive(Debug)]
pub struct Network {
    namespace_name: String,
    address_block: AddressBlock,
}

impl Network {
    /// The name of the sandbox's network namespace.
    pub closed spec fn spec_namespace_name(&self) -> Seq<char> {
        self.namespace_name@
    }

    /// The sandbox's address block.
    pub closed spec fn spec_address_block(&self) -> AddressBlock {
        self.address_block
    }

    /// The network of the sandbox with the given identifier: its namespace
    /// carries the identifier's text, its addresses are the identifier's
    /// block. Nothing is created on the host.
    pub fn new(id: &VmIdentifier) -> (network: Network)
        ensures
            network.spec_namespace_name() == id.spec_id(),
            network.spec_address_block() == id.spec_address_block(),
    {
        Network {
            namespace_name: String::from_str(id.id()),
            address_block: *id.address_block(),
        }
    }

    /// The name of the sandbox's network namespace.
    pub fn namespace_name(&self) -> (name: &str)
        ensures
            name@ == self.spec_namespace_name(),
    {
        self.namespace_name.as_str()
    }

    /// The name and the address of the host end of the veth pair.
    pub fn veth(&self) -> (pair: (String, String))
        ensures
            pair.0@ == spec_veth_name(self.spec_namespace_name()),
            pair.1@ == self.spec_address_block().spec_ip(0),
    {
        let veth_name = concat2(self.namespace_name.as_str(), "-veth");
        let veth_address = self.address_block.get_ip(IpAddressType::Veth.offset());
        (veth_name, veth_address)
    }

    /// The name and the address of the veth end inside the namespace.
    pub fn vpeer(&self) -> (pair: (String, String))
        ensures
            pair.0@ == spec_vpeer_name(self.spec_namespace_name()),
            pair.1@ == self.spec_address_block().spec_ip(1),
    {
        let vpeer_name = concat2(self.namespace_name.as_str(), "-vpeer");
        let vpeer_address = self.address_block.get_ip(IpAddressType::Vpeer.offset());
        (vpeer_name, vpeer_address)
    }

    /// The address under which the guest is reached from the host.
    pub fn microvm_ip(&self) -> (ip: String)
        ensures
            ip@ == self.spec_address_block().spec_ip(2),
    {
        self.address_block.get_ip(IpAddressType::Microvm.offset())
    }

    /// The tap steps of each interface, in the order of the interfaces.
    pub fn setup_interfaces(&self, interfaces: &Vec<NetworkInterface>) -> (steps: Vec<NetworkStep>)
        ensures
            step_views(steps@) == spec_setup_interfaces(
                spec_vpeer_name(self.spec_namespace_name()),
                interfaces@,
            ),
    {
        let (veth_device, _) = self.vpeer();
        let mut steps: Vec<NetworkStep> = Vec::new();
        assert(step_views(steps@) =~= Seq::<NetworkStepView>::empty());
        let mut i: usize = 0;
        assert(interfaces@.take(0) =~= Seq::<NetworkInterface>::empty());
        while i < interfaces.len()
            invariant
                i <= interfaces.len(),
                veth_device@ == spec_vpeer_name(self.spec_namespace_name()),
                step_views(steps@) == spec_setup_interfaces(veth_device@, interfaces@.take(i as int)),
            decreases interfaces.len() - i,
        {
            let tap = setup_tap_device(interfaces[i].host_dev_name.as_str(), veth_device.clone());
            append_steps(&mut steps, tap);
            proof {
                let next = interfaces@.take(i + 1);
                assert(next.drop_last() =~= interfaces@.take(i as int));
                assert(next.last() == interfaces@[i as int]);
            }
            i += 1;
        }
        assert(interfaces@.take(i as int) =~= interfaces@);
        steps
    }

    /// The steps that create the veth pair, address both ends, move the peer
    /// into the namespace, and set up routing and address translation
    /// inside it.
    pub fn setup_veth_devices(&self) -> (steps: Vec<NetworkStep>)
        ensures
            step_views(steps@) == spec_setup_veth_devices(
                self.spec_namespace_name(),
                self.spec_address_block(),
            ),
    {
        let (veth_device_name, host_address) = self.veth();
        let (vpeer_device_name, peer_address) = self.vpeer();
        let mut steps: Vec<NetworkStep> = Vec::new();
        assert(step_views(steps@) =~= Seq::<NetworkStepView>::empty());

        push_host_ip(
            &mut steps,
            IpCommand::CreateVethPair {
                veth: veth_device_name.clone(),
                vpeer: vpeer_device_name.clone(),
            },
        );
        push_host_ip(
            &mut steps,
            IpCommand::AddAddress {
                cidr_block: concat2(host_address.as_str(), "/29"),
                device: veth_device_name.clone(),
            },
        );
        push_host_ip(&mut steps, IpCommand::Activate { device: veth_device_name.clone() });
        push_host_ip(
            &mut steps,
            IpCommand::MoveDeviceToNamespace {
                device: vpeer_device_name.clone(),
                namespace: self.namespace_name.clone(),
            },
        );

        push_inside_ip(
            &mut steps,
            IpCommand::AddAddress {
                cidr_block: concat2(peer_address.as_str(), "/29"),
                device: vpeer_device_name.clone(),
            },
        );
        push_inside_ip(&mut steps, IpCommand::Activate { device: vpeer_device_name.clone() });
        push_inside_ip(&mut steps, IpCommand::Activate { device: String::from_str("lo") });
        push_inside_ip(&mut steps, IpCommand::AddDefaultRoute { address: host_address.clone() });
        push_inside_iptables(
            &mut steps,
            IpTablesCommand::EnableMasquerade {
                source_address: None,
                output: vpeer_device_name.clone(),
            },
        );
        push_inside_iptables(
            &mut steps,
            IpTablesCommand::RewriteSource {
                output: vpeer_device_name.clone(),
                source: String::from_str(GUEST_ADDRESS),
                to: self.microvm_ip(),
            },
        );
        push_inside_iptables(
            &mut steps,
            IpTablesCommand::RewriteDestination {
                input: vpeer_device_name.clone(),
                destination: self.microvm_ip(),
                to: String::from_str(GUEST_ADDRESS),
            },
        );
        assert(step_views(steps@) =~= spec_setup_veth_devices(
            self.spec_namespace_name(),
            self.spec_address_block(),
        ));
        steps
    }

    /// The steps that make the host route to the guest and forward its
    /// traffic to the outside.
    pub fn setup_host_routing(&self) -> (steps: Vec<NetworkStep>)
        ensures
            step_views(steps@) == spec_setup_host_routing(
                self.spec_namespace_name(),
                self.spec_address_block(),
            ),
    {
        let (veth_device_name, _) = self.veth();
        let (_, peer_address) = self.vpeer();
        let mut steps: Vec<NetworkStep> = Vec::new();
        assert(step_views(steps@) =~= Seq::<NetworkStepView>::empty());
        push_host_ip(
            &mut steps,
            IpCommand::AddRoute { to: self.microvm_ip(), via: peer_address.clone() },
        );
        push_host_iptables(
            &mut steps,
            IpTablesCommand::EnableMasquerade {
                source_address: Some(concat2(peer_address.as_str(), "/29")),
                output: String::from_str(HOST_INTERFACE_NAME),
            },
        );
        push_host_iptables(
            &mut steps,
            IpTablesCommand::AddRule {
                table: Table::Forward,
                target: Target::Accept,
                input: veth_device_name.clone(),
                output: String::from_str(HOST_INTERFACE_NAME),
            },
        );
        push_host_iptables(
            &mut steps,
            IpTablesCommand::AddRule {
                table: Table::Forward,
                target: Target::Accept,
                input: String::from_str(HOST_INTERFACE_NAME),
                output: veth_device_name.clone(),
            },
        );
        assert(step_views(steps@) =~= spec_setup_host_routing(
            self.spec_namespace_name(),
            self.spec_address_block(),
        ));
        steps
    }

    /// Every step of building the network, in the order in which they must
    /// run. The first step that fails ends the setup.
    pub fn setup(&self, interfaces: &Vec<NetworkInterface>) -> (steps: Vec<NetworkStep>)
        ensures
            step_views(steps@) == spec_setup(
                self.spec_namespace_name(),
                self.spec_address_block(),
                interfaces@,
            ),
    {
        let mut steps: Vec<NetworkStep> = Vec::new();
        assert(step_views(steps@) =~= Seq::<NetworkStepView>::empty());
        push_step(&mut steps, NetworkStep::CreateNamespace { name: self.namespace_name.clone() });
        assert(step_views(steps@) =~= seq![
            NetworkStepView::CreateNamespace(self.spec_namespace_name()),
        ]);
        append_steps(&mut steps, self.setup_veth_devices());
        append_steps(&mut steps, self.setup_interfaces(interfaces));
        append_steps(&mut steps, self.setup_host_routing());
        steps
    }

    /// Every step of taking the network down. Each is to be tried whether
    /// or not the ones before it succeeded.
    pub fn teardown(&self) -> (steps: Vec<NetworkStep>)
        ensures
            step_views(steps@) == spec_teardown(
                self.spec_namespace_name(),
                self.spec_address_block(),
            ),
    {
        let (veth_name, _) = self.veth();
        let (_, peer_address) = self.vpeer();
        let mut steps: Vec<NetworkStep> = Vec::new();
        assert(step_views(steps@) =~= Seq::<NetworkStepView>::empty());
        push_step(&mut steps, NetworkStep::RemoveNamespace { name: self.namespace_name.clone() });
        push_host_ip(&mut steps, IpCommand::DeleteDevice { device: veth_name.clone() });
        push_host_iptables(
            &mut steps,
            IpTablesCommand::DeleteRule {
                table: Table::Forward,
                target: Target::Accept,
                input: veth_name.clone(),
                output: String::from_str(HOST_INTERFACE_NAME),
            },
        );
        push_host_iptables(
            &mut steps,
            IpTablesCommand::DeleteRule {
                table: Table::Forward,
                target: Target::Accept,
                input: String::from_str(HOST_INTERFACE_NAME),
                output: veth_name.clone(),
            },
        );
        push_host_iptables(
            &mut steps,
            IpTablesCommand::DisableMasquerade {
                source_address: Some(concat2(peer_address.as_str(), "/29")),
                output: String::from_str(HOST_INTERFACE_NAME),
            },
        );
        assert(step_views(steps@) =~= spec_teardown(
            self.spec_namespace_name(),
            self.spec_address_block(),
        ));
        steps
    }
}

} // verus!
