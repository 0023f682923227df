//! A sandbox and the decisions of its life: what it is made of, what
//! boots it, and what removes it.

use crate::commands::{push_arg, texts};
use crate::error::Error;
use crate::id::VmIdentifier;
use crate::jailer::PathResolver;
use crate::models::{
    drive_views, BootSource, BootSourceView, Drive, DriveView, LogLevel, Logger,
    LoggerView, NetworkInterface, NetworkInterfaceView, VirtualMachine, VirtualMachineView,
};
use crate::network::{spec_teardown, Network, NetworkStep, NetworkStepView};
use vstd::prelude::*;
use vstd::string::StringExecFns;

verus! {

/// Where the guest's kernel lies inside the jail.
pub const KERNEL_IMAGE_PATH: &'static str = "/kernel.bin";

/// Where the hypervisor's log lies inside the jail.
pub const LOG_PATH: &'static str = "/log/firecracker.log";

/// Where the root file system lies inside the jail.
pub const ROOTFS_PATH: &'static str = "/drives/rootfs.ext4";

/// Where the code drive lies inside the jail.
pub const CODE_DRIVE_PATH: &'static str = "/drives/code-drive.ext4";

/// The identifier of the drive that holds the root file system.
pub const ROOTFS_DRIVE_ID: &'static str = "rootfs";

/// The identifier of the drive that holds the user's code.
pub const CODE_DRIVE_ID: &'static str = "vdb";

/// What the guest's kernel is started with.
pub const BOOT_ARGS: &'static str =
    "console=ttyS0 reboot=k panic=1 pci=off random.trust_cpu=on IP_ADDRESS::172.16.0.2 IFACE::eth0 GATEWAY::172.16.0.1";

/// The tap device behind the guest's interface.
pub const TAP_DEVICE_NAME: &'static str = "tap0";

/// The guest's interface.
pub const GUEST_INTERFACE_ID: &'static str = "eth0";

/// The hardware address of the guest's interface.
pub const GUEST_MAC: &'static str = "06:00:AC:10:00:02";

/// Whether a sandbox's guest runs.
#[derive(Clone, Copy, Debug, PartialEq, Eq, Structural)]
pub enum SandboxState {
    Stopped,
    Running,
    Paused,
}

/// Where a file is to be had.
#[derive(Debug)]
pub enum Location {
    /// A file of the host.
    Local { path: String },
    /// An object in cloud storage.
    CloudStorage { path: String },
}

/// What a [`Location`] holds.
pub enum LocationView {
    Local(Seq<char>),
    CloudStorage(Seq<char>),
}

impl View for Location {
    type V = LocationView;

    open spec fn view(&self) -> LocationView {
        match self {
            Location::Local { path } => LocationView::Local(path@),
            Location::CloudStorage { path } => LocationView::CloudStorage(path@),
        }
    }
}

/// The host path of the file at `location`, given whether a local file
/// exists: the path of a local file that exists; a file error for one that
/// does not; and for cloud storage, that it is not available yet.
pub open spec fn spec_to_local_path(location: LocationView, exists: bool) -> Result<
    Seq<char>,
    Error,
> {
    match location {
        LocationView::Local(path) => if exists {
            Ok(path)
        } else {
            Err(Error::Io)
        },
        LocationView::CloudStorage(_) => Err(Error::NotImplemented),
    }
}

/// The text of a path, or the error.
pub open spec fn path_view(r: Result<String, Error>) -> Result<Seq<char>, Error> {
    match r {
        Ok(path) => Ok(path@),
        Err(e) => Err(e),
    }
}

impl Location {
    /// The path whose existence decides whether a local file can be used.
    pub fn path(&self) -> (path: &str)
        ensures
            self@ == LocationView::Local(path@) || self@ == LocationView::CloudStorage(path@),
    {
        match self {
            Location::Local { path } => path.as_str(),
            Location::CloudStorage { path } => path.as_str(),
        }
    }

    /// The host path of the file, given whether a file exists at
    /// [`Location::path`].
    pub fn to_local_path(&self, exists: bool) -> (r: Result<String, Error>)
        ensures
            path_view(r) == spec_to_local_path(self@, exists),
    {
        match self {
            Location::Local { path } => {
                if !exists {
                    return Err(Error::Io);
                }
                Ok(path.clone())
            },
            Location::CloudStorage { path: _ } => Err(Error::NotImplemented),
        }
    }
}

/// What the caller asks of a new sandbox.
#[derive(Debug)]
pub struct ProvideSandboxOptions {
    pub code_drive_location: Option<Location>,
}

impl ProvideSandboxOptions {
    /// Options that ask for the code drive at `location`.
    pub fn with_code_drive_location(location: Location) -> (options: ProvideSandboxOptions)
        ensures
            options.code_drive_location == Some(location),
    {
        ProvideSandboxOptions { code_drive_location: Some(location) }
    }
}

impl Default for ProvideSandboxOptions {
    /// Options that ask for nothing: the sandbox gets the dummy code drive.
    fn default() -> (options: ProvideSandboxOptions)
        ensures
            options.code_drive_location is None,
    {
        ProvideSandboxOptions { code_drive_location: None }
    }
}

/// A file to copy on the host.
#[derive(Debug)]
pub struct FileCopy {
    pub from: String,
    pub to: String,
}

impl FileCopy {
    /// The arguments of `cp` that make the copy.
    pub fn args(&self) -> (argv: Vec<String>)
        ensures
            texts(argv@) == seq![self.from@, self.to@],
    {
        let mut argv: Vec<String> = Vec::new();
        assert(texts(argv@) =~= Seq::<Seq<char>>::empty());
        push_arg(&mut argv, self.from.as_str());
        push_arg(&mut argv, self.to.as_str());
        assert(texts(argv@) =~= seq![self.from@, self.to@]);
        argv
    }
}

/// The arguments of the terminal multiplexer that kill the session `name`.
pub fn kill_session_args(name: &str) -> (argv: Vec<String>)
    ensures
        texts(argv@) == seq!["kill-session"@, "-t"@, name@],
{
    let mut argv: Vec<String> = Vec::new();
    assert(texts(argv@) =~= Seq::<Seq<char>>::empty());
    push_arg(&mut argv, "kill-session");
    push_arg(&mut argv, "-t");
    push_arg(&mut argv, name);
    assert(texts(argv@) =~= seq!["kill-session"@, "-t"@, name@]);
    argv
}

/// The source and the target of a copy, or the error.
pub open spec fn copy_view(r: Result<FileCopy, Error>) -> Result<(Seq<char>, Seq<char>), Error> {
    match r {
        Ok(copy) => Ok((copy.from@, copy.to@)),
        Err(e) => Err(e),
    }
}

/// The copy that stages a code drive at `path`: from the file at the
/// location where one is given, else from the dummy drive.
pub open spec fn spec_copy_if_exists(
    file: Option<LocationView>,
    exists: bool,
    path: Seq<char>,
    dummy_path: Seq<char>,
) -> Result<(Seq<char>, Seq<char>), Error> {
    match file {
        Some(location) => match spec_to_local_path(location, exists) {
            Ok(from) => Ok((from, path)),
            Err(e) => Err(e),
        },
        None => Ok((dummy_path, path)),
    }
}

/// The view of an optional location.
pub open spec fn optional_location_view(file: Option<Location>) -> Option<LocationView> {
    match file {
        Some(location) => Some(location@),
        None => None,
    }
}

/// The copy that stages a code drive at `path`, given whether the file at
/// the location exists.
pub fn copy_if_exists(file: &Option<Location>, exists: bool, path: String, dummy_path: &str) -> (r:
    Result<FileCopy, Error>)
    ensures
        copy_view(r) == spec_copy_if_exists(
            optional_location_view(*file),
            exists,
            path@,
            dummy_path@,
        ),
{
    match file {
        Some(file) => match file.to_local_path(exists) {
            Ok(from) => Ok(FileCopy { from, to: path }),
            Err(e) => Err(e),
        },
        None => Ok(FileCopy { from: String::from_str(dummy_path), to: path }),
    }
}

/// The configuration every sandbox starts from: logging at level `Info`,
/// the kernel with its arguments, the root drive, and one interface.
pub open spec fn spec_default_config() -> VirtualMachineView {
    VirtualMachineView {
        logger: Some(
            LoggerView {
                level: LogLevel::Info,
                log_path: Some(LOG_PATH@),
                show_level: true,
                show_log_origin: true,
                module: None,
            },
        ),
        boot_source: BootSourceView {
            kernel_image_path: KERNEL_IMAGE_PATH@,
            boot_args: Some(BOOT_ARGS@),
            initrd_path: None,
        },
        drives: seq![Drive::spec_new(ROOTFS_DRIVE_ID@, ROOTFS_PATH@, true)],
        network_interfaces: seq![
            NetworkInterfaceView {
                host_dev_name: TAP_DEVICE_NAME@,
                iface_id: GUEST_INTERFACE_ID@,
                guest_mac: Some(GUEST_MAC@),
                rx_rate_limiter: None,
                tx_rate_limiter: None,
            },
        ],
    }
}

/// The drive that holds the user's code.
pub open spec fn spec_code_drive() -> DriveView {
    Drive::spec_new(CODE_DRIVE_ID@, CODE_DRIVE_PATH@, false)
}

/// The configuration every sandbox starts from.
pub fn default_config() -> (config: VirtualMachine)
    ensures
        config@ == spec_default_config(),
{
    let logger = Logger {
        level: LogLevel::Info,
        log_path: Some(String::from_str(LOG_PATH)),
        show_level: true,
        show_log_origin: true,
        module: None,
    };
    let boot_source = BootSource {
        kernel_image_path: String::from_str(KERNEL_IMAGE_PATH),
        boot_args: Some(String::from_str(BOOT_ARGS)),
        initrd_path: None,
    };
    let mut drives: Vec<Drive> = Vec::new();
    drives.push(Drive::new(ROOTFS_DRIVE_ID, ROOTFS_PATH, true));
    let mut network_interfaces: Vec<NetworkInterface> = Vec::new();
    network_interfaces.push(
        NetworkInterface {
            host_dev_name: String::from_str(TAP_DEVICE_NAME),
            iface_id: String::from_str(GUEST_INTERFACE_ID),
            guest_mac: Some(String::from_str(GUEST_MAC)),
            rx_rate_limiter: None,
            tx_rate_limiter: None,
        },
    );
    let config = VirtualMachine { logger: Some(logger), boot_source, drives, network_interfaces };
    assert(config@.drives =~= spec_default_config().drives);
    assert(config@.network_interfaces =~= spec_default_config().network_interfaces);
    config
}

/// One step of removing a sandbox from the host.
pub enum DestroyStep {
    /// Kill the terminal session that runs the jailer.
    KillSession { name: String },
    /// Remove the directory and all below it.
    RemoveDirectory { path: String },
    /// Take down a part of the network.
    Network(NetworkStep),
}

/// What a [`DestroyStep`] does.
pub enum DestroyStepView {
    KillSession(Seq<char>),
    RemoveDirectory(Seq<char>),
    Network(NetworkStepView),
}

impl View for DestroyStep {
    type V = DestroyStepView;

    open spec fn view(&self) -> DestroyStepView {
        match self {
            DestroyStep::KillSession { name } => DestroyStepView::KillSession(name@),
            DestroyStep::RemoveDirectory { path } => DestroyStepView::RemoveDirectory(path@),
            DestroyStep::Network(step) => DestroyStepView::Network(step@),
        }
    }
}

/// The views of a list of steps.
pub open spec fn destroy_views(steps: Seq<DestroyStep>) -> Seq<DestroyStepView> {
    Seq::new(steps.len(), |i: int| steps[i]@)
}

/// Every step of removing a sandbox, in the order in which they run: the
/// session goes first, so that the hypervisor lets go of its files; then
/// the VM's directory; then the network.
pub open spec fn spec_destroy(
    id: Seq<char>,
    vm_directory: Seq<char>,
    network: Seq<NetworkStepView>,
) -> Seq<DestroyStepView> {
    seq![DestroyStepView::KillSession(id), DestroyStepView::RemoveDirectory(vm_directory)]
        + Seq::new(network.len(), |i: int| DestroyStepView::Network(network[i]))
}

/// Removing a sandbox leaves none of its parts out: its session is killed,
/// its directory is removed, and every step that takes its network down is
/// among the steps.
pub proof fn lemma_destroy_is_complete(
    id: Seq<char>,
    vm_directory: Seq<char>,
    network: Seq<NetworkStepView>,
)
    ensures
        spec_destroy(id, vm_directory, network).contains(DestroyStepView::KillSession(id)),
        spec_destroy(id, vm_directory, network).contains(
            DestroyStepView::RemoveDirectory(vm_directory),
        ),
        forall|i: int|
            0 <= i < network.len() ==> spec_destroy(id, vm_directory, network).contains(
                DestroyStepView::Network(#[trigger] network[i]),
            ),
{
    let steps = spec_destroy(id, vm_directory, network);
    assert(steps[0] == DestroyStepView::KillSession(id));
    assert(steps[1] == DestroyStepView::RemoveDirectory(vm_directory));
    assert forall|i: int| 0 <= i < network.len() implies steps.contains(
        DestroyStepView::Network(#[trigger] network[i]),
    ) by {
        assert(steps[i + 2] == DestroyStepView::Network(network[i]));
    }
}

/// One micro-VM with its network and its place on the host's disk.
#[derive(Debug)]
pub struct Sandbox {
    id: VmIdentifier,
    state: SandboxState,
    network: Network,
    path_resolver: PathResolver,
    vm_directory: String,
    virtual_machine_config: VirtualMachine,
}

impl Sandbox {
    /// The sandbox's identifier.
    pub closed spec fn spec_identifier(&self) -> VmIdentifier {
        self.id
    }

    /// The text of the sandbox's identifier.
    pub open spec fn spec_id(&self) -> Seq<char> {
        self.spec_identifier().spec_id()
    }

    /// Whether the guest runs.
    pub closed spec fn spec_state(&self) -> SandboxState {
        self.state
    }

    /// The sandbox's network.
    pub closed spec fn spec_network(&self) -> Network {
        self.network
    }

    /// The mapping of the sandbox's jailed paths to host paths.
    pub closed spec fn spec_path_resolver(&self) -> PathResolver {
        self.path_resolver
    }

    /// The directory that holds everything of the sandbox.
    pub closed spec fn spec_vm_directory(&self) -> Seq<char> {
        self.vm_directory@
    }

    /// The configuration of the sandbox's VM.
    pub closed spec fn spec_config(&self) -> VirtualMachine {
        self.virtual_machine_config
    }

    /// The address under which the sandbox's guest is reached.
    pub open spec fn spec_ip(&self) -> Seq<char> {
        self.spec_network().spec_address_block().spec_ip(2)
    }

    /// A stopped sandbox with the starting configuration, whose network is
    /// named after the identifier and uses the identifier's addresses.
    pub fn new(id: VmIdentifier, path_resolver: PathResolver, vm_directory: String) -> (sandbox:
        Sandbox)
        ensures
            sandbox.spec_identifier() == id,
            sandbox.spec_state() == SandboxState::Stopped,
            sandbox.spec_network().spec_namespace_name() == id.spec_id(),
            sandbox.spec_network().spec_address_block() == id.spec_address_block(),
            sandbox.spec_path_resolver() == path_resolver,
            sandbox.spec_vm_directory() == vm_directory@,
            sandbox.spec_config()@ == spec_default_config(),
    {
        Self::with_config(id, path_resolver, vm_directory, default_config())
    }

    /// A stopped sandbox with the given configuration, whose network is
    /// named after the identifier and uses the identifier's addresses.
    pub fn with_config(
        id: VmIdentifier,
        path_resolver: PathResolver,
        vm_directory: String,
        virtual_machine_config: VirtualMachine,
    ) -> (sandbox: Sandbox)
        ensures
            sandbox.spec_identifier() == id,
            sandbox.spec_state() == SandboxState::Stopped,
            sandbox.spec_network().spec_namespace_name() == id.spec_id(),
            sandbox.spec_network().spec_address_block() == id.spec_address_block(),
            sandbox.spec_path_resolver() == path_resolver,
            sandbox.spec_vm_directory() == vm_directory@,
            sandbox.spec_config() == virtual_machine_config,
    {
        let network = Network::new(&id);
        Sandbox {
            id,
            state: SandboxState::Stopped,
            network,
            path_resolver,
            vm_directory,
            virtual_machine_config,
        }
    }

    /// The directory that holds everything of the sandbox.
    pub fn vm_directory(&self) -> (path: &str)
        ensures
            path@ == self.spec_vm_directory(),
    {
        self.vm_directory.as_str()
    }

    /// The text of the sandbox's identifier.
    pub fn id(&self) -> (id: &str)
        ensures
            id@ == self.spec_id(),
    {
        self.id.id()
    }

    /// Whether the guest runs.
    pub fn state(&self) -> (state: SandboxState)
        ensures
            state == self.spec_state(),
    {
        self.state
    }

    /// The sandbox's network.
    pub fn network(&self) -> (network: &Network)
        ensures
            *network == self.spec_network(),
    {
        &self.network
    }

    /// The mapping of the sandbox's jailed paths to host paths.
    pub fn path_resolver(&self) -> (resolver: &PathResolver)
        ensures
            *resolver == self.spec_path_resolver(),
    {
        &self.path_resolver
    }

    /// The configuration of the sandbox's VM.
    pub fn virtual_machine_config(&self) -> (config: &VirtualMachine)
        ensures
            *config == self.spec_config(),
    {
        &self.virtual_machine_config
    }

    /// Adds a drive to the configuration, behind the ones it has.
    pub fn add_drive(&mut self, drive: Drive)
        ensures
            final(self).spec_config()@.drives == old(self).spec_config()@.drives.push(drive@),
            final(self).spec_config()@.logger == old(self).spec_config()@.logger,
            final(self).spec_config()@.boot_source == old(self).spec_config()@.boot_source,
            final(self).spec_config()@.network_interfaces == old(
                self,
            ).spec_config()@.network_interfaces,
            final(self).spec_identifier() == old(self).spec_identifier(),
            final(self).spec_state() == old(self).spec_state(),
            final(self).spec_network() == old(self).spec_network(),
            final(self).spec_path_resolver() == old(self).spec_path_resolver(),
            final(self).spec_vm_directory() == old(self).spec_vm_directory(),
    {
        self.virtual_machine_config.drives.push(drive);
        assert(drive_views(self.virtual_machine_config.drives@) =~= drive_views(
            old(self).virtual_machine_config.drives@,
        ).push(drive@));
    }

    /// Records the hypervisor's answer to the request to start the guest:
    /// the sandbox runs if the request was accepted, and is as before if
    /// it was not.
    pub fn start(&mut self, accepted: bool) -> (r: Result<(), Error>)
        ensures
            accepted ==> r is Ok && final(self).spec_state() == SandboxState::Running,
            !accepted ==> r == Err::<(), Error>(Error::FirecrackerApi) && final(self).spec_state()
                == old(self).spec_state(),
            final(self).spec_identifier() == old(self).spec_identifier(),
            final(self).spec_network() == old(self).spec_network(),
            final(self).spec_path_resolver() == old(self).spec_path_resolver(),
            final(self).spec_vm_directory() == old(self).spec_vm_directory(),
            final(self).spec_config() == old(self).spec_config(),
    {
        if accepted {
            self.state = SandboxState::Running;
            Ok(())
        } else {
            Err(Error::FirecrackerApi)
        }
    }

    /// Every step of removing the sandbox from the host. Each is to be
    /// tried whether or not the ones before it succeeded.
    pub fn destroy(&self) -> (steps: Vec<DestroyStep>)
        ensures
            destroy_views(steps@) == spec_destroy(
                self.spec_id(),
                self.spec_vm_directory(),
                spec_teardown(
                    self.spec_network().spec_namespace_name(),
                    self.spec_network().spec_address_block(),
                ),
            ),
    {
        let mut steps: Vec<DestroyStep> = Vec::new();
        steps.push(DestroyStep::KillSession { name: String::from_str(self.id.id()) });
        steps.push(DestroyStep::RemoveDirectory { path: self.vm_directory.clone() });
        let mut network = self.network.teardown();
        let ghost teardown = network@;
        while network.len() > 0
            invariant
                network.len() <= teardown.len(),
                steps@.len() == 2 + (teardown.len() - network.len()),
                steps@[0]@ == DestroyStepView::KillSession(self.spec_id()),
                steps@[1]@ == DestroyStepView::RemoveDirectory(self.spec_vm_directory()),
                forall|i: int|
                    0 <= i < network.len() ==> network@[i]@ == teardown[teardown.len()
                        - network.len() + i]@,
                forall|i: int|
                    2 <= i < steps@.len() ==> steps@[i]@ == DestroyStepView::Network(
                        teardown[i - 2]@,
                    ),
            decreases network.len(),
        {
            let step = network.remove(0);
            steps.push(DestroyStep::Network(step));
        }
        assert(destroy_views(steps@) =~= spec_destroy(
            self.spec_id(),
            self.spec_vm_directory(),
            crate::network::step_views(teardown),
        ));
        steps
    }
}

/// Makes the sandbox values of new VMs.
#[derive(Debug)]
pub struct SandboxFactory {
    dummy_drive_path: String,
}

impl SandboxFactory {
    /// The host path of the drive that a sandbox gets when the caller
    /// names none.
    pub closed spec fn spec_dummy_drive_path(&self) -> Seq<char> {
        self.dummy_drive_path@
    }

    /// The factory whose sandboxes get the drive at `dummy_drive_path`
    /// when the caller names none.
    pub fn new(dummy_drive_path: &str) -> (factory: SandboxFactory)
        ensures
            factory.spec_dummy_drive_path() == dummy_drive_path@,
    {
        SandboxFactory { dummy_drive_path: String::from_str(dummy_drive_path) }
    }

    /// The stopped sandbox of a VM whose network and jail exist, and the
    /// copy that stages its code drive, given whether the file that the
    /// options name exists. Where the code drive cannot be had, the error
    /// comes with the sandbox as it stood, so that it can be removed.
    pub fn spawn_sandbox(
        &self,
        id: VmIdentifier,
        path_resolver: PathResolver,
        vm_directory: String,
        options: &ProvideSandboxOptions,
        code_drive_exists: bool,
    ) -> (r: (Sandbox, Result<FileCopy, Error>))
        ensures
            r.0.spec_identifier() == id,
            r.0.spec_state() == SandboxState::Stopped,
            r.0.spec_network().spec_namespace_name() == id.spec_id(),
            r.0.spec_network().spec_address_block() == id.spec_address_block(),
            r.0.spec_path_resolver() == path_resolver,
            r.0.spec_vm_directory() == vm_directory@,
            copy_view(r.1) == spec_copy_if_exists(
                optional_location_view(options.code_drive_location),
                code_drive_exists,
                path_resolver.spec_resolve(CODE_DRIVE_PATH@),
                self.spec_dummy_drive_path(),
            ),
            r.1 is Ok ==> r.0.spec_config()@ == (VirtualMachineView {
                drives: spec_default_config().drives.push(spec_code_drive()),
                ..spec_default_config()
            }),
            r.1 is Err ==> r.0.spec_config()@ == spec_default_config(),
    {
        let mut sandbox = Sandbox::new(id, path_resolver, vm_directory);
        proof {
            reveal_strlit("/drives/code-drive.ext4");
        }
        let target = sandbox.path_resolver().resolve(CODE_DRIVE_PATH);
        let copy = copy_if_exists(
            &options.code_drive_location,
            code_drive_exists,
            target,
            self.dummy_drive_path.as_str(),
        );
        if copy.is_ok() {
            sandbox.add_drive(Drive::new(CODE_DRIVE_ID, CODE_DRIVE_PATH, false));
        }
        (sandbox, copy)
    }
}

} // verus!
