//! Booting a sandbox: the steps that configure the hypervisor, start the
//! guest and mount its drives, and the decisions of the two health waits.

use crate::error::{Error, HealthTarget};
use crate::jailer::{parent, same_text, spec_parent, Action, PathResolver};
use crate::models::{
    drive_views, interface_views, BootSource, BootSourceView, Drive, DriveView, Logger, LoggerView,
    NetworkInterface, NetworkInterfaceView, VirtualMachineView,
};
use crate::sandbox::{Sandbox, ROOTFS_DRIVE_ID, ROOTFS_PATH};
use crate::text::concat2;
use vstd::prelude::*;
use vstd::string::StringExecFns;

verus! {

/// How long the hypervisor's API may take to answer, in milliseconds.
pub const FIRECRACKER_TIMEOUT_MS: u64 = 20000;

/// How long to sleep between two probes of the hypervisor's API.
pub const FIRECRACKER_POLL_MS: u64 = 1000;

/// How long the guest's agent may take to answer, in milliseconds.
pub const GUEST_TIMEOUT_MS: u64 = 10000;

/// How long to sleep between two probes of the guest's agent.
pub const GUEST_POLL_MS: u64 = 500;

/// What to do after one probe of a health wait.
#[derive(Clone, Copy, Debug, PartialEq, Eq, Structural)]
pub enum WaitDecision {
    /// The service answered: go on.
    Ready,
    /// Sleep this long, then probe again.
    Retry { sleep_ms: u64 },
    /// Give up with this error.
    Fail(Error),
}

/// The decision after a probe of the hypervisor's API: go on once it
/// answers with success; else give up once more than 20 seconds have
/// passed since the wait began; else probe again after a second.
pub open spec fn spec_wait_for_health_check(healthy: bool, elapsed_ms: u64) -> WaitDecision {
    if healthy {
        WaitDecision::Ready
    } else if elapsed_ms > FIRECRACKER_TIMEOUT_MS {
        WaitDecision::Fail(Error::HealthTimeout(HealthTarget::Firecracker))
    } else {
        WaitDecision::Retry { sleep_ms: FIRECRACKER_POLL_MS }
    }
}

/// The decision of the wait for the guest's agent, given the time that had
/// passed when the probe began: give up once 10 seconds have passed; else go
/// on if the agent answered; else probe again after half a second.
pub open spec fn spec_wait_for_spark_health_check(healthy: bool, elapsed_ms: u64) -> WaitDecision {
    if elapsed_ms >= GUEST_TIMEOUT_MS {
        WaitDecision::Fail(Error::HealthTimeout(HealthTarget::GuestAgent))
    } else if healthy {
        WaitDecision::Ready
    } else {
        WaitDecision::Retry { sleep_ms: GUEST_POLL_MS }
    }
}

/// The body of a request to the hypervisor.
#[derive(Debug)]
pub enum RequestBody {
    Logger(Logger),
    BootSource(BootSource),
    Drive(Drive),
    NetworkInterface(NetworkInterface),
}

/// What a [`RequestBody`] holds.
pub enum RequestBodyView {
    Logger(LoggerView),
    BootSource(BootSourceView),
    Drive(DriveView),
    NetworkInterface(NetworkInterfaceView),
}

impl View for RequestBody {
    type V = RequestBodyView;

    open spec fn view(&self) -> RequestBodyView {
        match self {
            RequestBody::Logger(logger) => RequestBodyView::Logger(logger@),
            RequestBody::BootSource(boot_source) => RequestBodyView::BootSource(boot_source@),
            RequestBody::Drive(drive) => RequestBodyView::Drive(drive@),
            RequestBody::NetworkInterface(interface) => RequestBodyView::NetworkInterface(
                interface@,
            ),
        }
    }
}

/// One step of booting a sandbox.
#[derive(Debug)]
pub enum InitStep {
    /// Probe `GET /version` until [`SandboxInitializer::wait_for_health_check`] says to stop.
    WaitForFirecracker,
    /// Create the file on the host, or empty it.
    TouchFile { path: String },
    /// Create the directory on the host, and those above it.
    CreateDirectory { path: String },
    /// Copy a file of the host.
    CopyFile { from: String, to: String },
    /// Send `PUT <path>` with the body to the hypervisor.
    Put { path: String, body: RequestBody },
    /// Send `PUT /actions` with the action, and record the answer with [`Sandbox::start`].
    Start(Action),
    /// Probe the guest's agent until [`SandboxInitializer::wait_for_spark_health_check`] says to stop.
    WaitForGuestAgent,
    /// Ask the guest's agent to mount the device at the path.
    Mount { device: String, path: String },
}

/// What an [`InitStep`] does.
pub enum InitStepView {
    WaitForFirecracker,
    TouchFile(Seq<char>),
    CreateDirectory(Seq<char>),
    CopyFile(Seq<char>, Seq<char>),
    Put(Seq<char>, RequestBodyView),
    Start(Action),
    WaitForGuestAgent,
    Mount(Seq<char>, Seq<char>),
}

impl View for InitStep {
    type V = InitStepView;

    open spec fn view(&self) -> InitStepView {
        match self {
            InitStep::WaitForFirecracker => InitStepView::WaitForFirecracker,
            InitStep::TouchFile { path } => InitStepView::TouchFile(path@),
            InitStep::CreateDirectory { path } => InitStepView::CreateDirectory(path@),
            InitStep::CopyFile { from, to } => InitStepView::CopyFile(from@, to@),
            InitStep::Put { path, body } => InitStepView::Put(path@, body@),
            InitStep::Start(action) => InitStepView::Start(*action),
            InitStep::WaitForGuestAgent => InitStepView::WaitForGuestAgent,
            InitStep::Mount { device, path } => InitStepView::Mount(device@, path@),
        }
    }
}

/// The views of a list of steps.
pub open spec fn init_views(steps: Seq<InitStep>) -> Seq<InitStepView> {
    Seq::new(steps.len(), |i: int| steps[i]@)
}

/// The views of a list of steps, or the error.
pub open spec fn plan_view(r: Result<Vec<InitStep>, Error>) -> Result<Seq<InitStepView>, Error> {
    match r {
        Ok(steps) => Ok(init_views(steps@)),
        Err(e) => Err(e),
    }
}

/// Whether `path` is absolute.
pub open spec fn is_absolute(path: Seq<char>) -> bool {
    path.len() > 0 && path[0] == '/'
}

/// The steps that set up logging: nothing without a logger; else the log
/// file is created or emptied where a path is given, and the logger is sent
/// to the hypervisor. A log path that is not absolute is an error.
pub open spec fn spec_setup_logging(resolver: PathResolver, logger: Option<LoggerView>) -> Result<
    Seq<InitStepView>,
    Error,
> {
    match logger {
        None => Ok(Seq::empty()),
        Some(logger) => {
            let put = InitStepView::Put("/logger"@, RequestBodyView::Logger(logger));
            match logger.log_path {
                None => Ok(seq![put]),
                Some(path) => if is_absolute(path) {
                    Ok(seq![InitStepView::TouchFile(resolver.spec_resolve(path)), put])
                } else {
                    Err(Error::ConfigInvalid)
                },
            }
        },
    }
}

/// The steps that set up the boot source: the directory of the kernel is
/// created inside the jail, the kernel is copied there, and the boot source
/// is sent to the hypervisor. A kernel path that is not absolute is an
/// error.
pub open spec fn spec_setup_bootsource(
    resolver: PathResolver,
    kernel_image: Seq<char>,
    boot_source: BootSourceView,
) -> Result<Seq<InitStepView>, Error> {
    if is_absolute(boot_source.kernel_image_path) {
        let host_path = resolver.spec_resolve(boot_source.kernel_image_path);
        Ok(
            seq![
                InitStepView::CreateDirectory(spec_parent(host_path)),
                InitStepView::CopyFile(kernel_image, host_path),
                InitStepView::Put("/boot-source"@, RequestBodyView::BootSource(boot_source)),
            ],
        )
    } else {
        Err(Error::ConfigInvalid)
    }
}

/// The requests that tell the hypervisor of each drive, in their order.
pub open spec fn spec_put_drives(drives: Seq<DriveView>) -> Seq<InitStepView> {
    Seq::new(
        drives.len(),
        |i: int| InitStepView::Put("/drives/"@ + drives[i].drive_id, RequestBodyView::Drive(drives[i])),
    )
}

/// The steps that set up the drives: the root file system is copied into
/// the jail, then the hypervisor is told of each drive.
pub open spec fn spec_setup_drives(resolver: PathResolver, rootfs: Seq<char>, drives: Seq<DriveView>)
    -> Seq<InitStepView> {
    seq![InitStepView::CopyFile(rootfs, resolver.spec_resolve(ROOTFS_PATH@))] + spec_put_drives(
        drives,
    )
}

/// The requests that tell the hypervisor of each interface, in their order.
pub open spec fn spec_setup_network_interfaces(interfaces: Seq<NetworkInterfaceView>) -> Seq<
    InitStepView,
> {
    Seq::new(
        interfaces.len(),
        |i: int|
            InitStepView::Put(
                "/network-interfaces/"@ + interfaces[i].iface_id,
                RequestBodyView::NetworkInterface(interfaces[i]),
            ),
    )
}

/// The mounts inside the guest: every drive but the root file system is
/// mounted from `/dev/<id>` at `/tmp/<id>`, in their order.
pub open spec fn spec_mount_drives_in_guest(drives: Seq<DriveView>) -> Seq<InitStepView>
    decreases drives.len(),
{
    if drives.len() == 0 {
        Seq::empty()
    } else {
        let before = spec_mount_drives_in_guest(drives.drop_last());
        let id = drives.last().drive_id;
        if id == ROOTFS_DRIVE_ID@ {
            before
        } else {
            before.push(InitStepView::Mount("/dev/"@ + id, "/tmp/"@ + id))
        }
    }
}

/// Every step of booting a sandbox, in the order in which they must run:
/// wait for the hypervisor; set up logging, the boot source, the drives and
/// the interfaces; start the guest; wait for its agent; mount its drives.
pub open spec fn spec_initialize(
    resolver: PathResolver,
    rootfs: Seq<char>,
    kernel_image: Seq<char>,
    config: VirtualMachineView,
) -> Result<Seq<InitStepView>, Error> {
    match spec_setup_logging(resolver, config.logger) {
        Err(e) => Err(e),
        Ok(logging) => match spec_setup_bootsource(resolver, kernel_image, config.boot_source) {
            Err(e) => Err(e),
            Ok(bootsource) => Ok(
                seq![InitStepView::WaitForFirecracker] + logging + bootsource + spec_setup_drives(
                    resolver,
                    rootfs,
                    config.drives,
                ) + spec_setup_network_interfaces(config.network_interfaces) + seq![
                    InitStepView::Start(Action::InstanceStart),
                    InitStepView::WaitForGuestAgent,
                ] + spec_mount_drives_in_guest(config.drives),
            ),
        },
    }
}

/// Appends one step.
fn push_init(steps: &mut Vec<InitStep>, step: InitStep)
    ensures
        init_views(final(steps)@) == init_views(old(steps)@).push(step@),
{
    steps.push(step);
    assert(init_views(steps@) =~= init_views(old(steps)@).push(step@));
}

/// Appends all of `more` to `steps`.
fn append_init(steps: &mut Vec<InitStep>, more: Vec<InitStep>)
    ensures
        init_views(final(steps)@) == init_views(old(steps)@) + init_views(more@),
{
    let ghost added = more@;
    let mut more = more;
    steps.append(&mut more);
    assert(init_views(steps@) =~= init_views(old(steps)@) + init_views(added));
}

/// Boots sandboxes from one root file system and one kernel.
#[derive(Debug)]
pub struct SandboxInitializer {
    rootfs: String,
    kernel_image: String,
}

impl Clone for SandboxInitializer {
    fn clone(&self) -> (r: SandboxInitializer)
        ensures
            r.spec_rootfs() == self.spec_rootfs(),
            r.spec_kernel_image() == self.spec_kernel_image(),
    {
        SandboxInitializer { rootfs: self.rootfs.clone(), kernel_image: self.kernel_image.clone() }
    }
}

impl SandboxInitializer {
    /// The host path of the root file system.
    pub closed spec fn spec_rootfs(&self) -> Seq<char> {
        self.rootfs@
    }

    /// The host path of the kernel.
    pub closed spec fn spec_kernel_image(&self) -> Seq<char> {
        self.kernel_image@
    }

    /// The initializer for the given root file system and kernel.
    pub fn new(rootfs: &str, kernel_image: &str) -> (initializer: SandboxInitializer)
        ensures
            initializer.spec_rootfs() == rootfs@,
            initializer.spec_kernel_image() == kernel_image@,
    {
        Self { rootfs: String::from_str(rootfs), kernel_image: String::from_str(kernel_image) }
    }

    /// The decision after a probe of the hypervisor's API that began
    /// `elapsed_ms` milliseconds into the wait.
    pub fn wait_for_health_check(&self, healthy: bool, elapsed_ms: u64) -> (decision: WaitDecision)
        ensures
            decision == spec_wait_for_health_check(healthy, elapsed_ms),
    {
        if healthy {
            WaitDecision::Ready
        } else if elapsed_ms > FIRECRACKER_TIMEOUT_MS {
            WaitDecision::Fail(Error::HealthTimeout(HealthTarget::Firecracker))
        } else {
            WaitDecision::Retry { sleep_ms: FIRECRACKER_POLL_MS }
        }
    }

    /// The decision after a probe of the guest's agent that began
    /// `elapsed_ms` milliseconds into the wait.
    pub fn wait_for_spark_health_check(&self, healthy: bool, elapsed_ms: u64) -> (decision:
        WaitDecision)
        ensures
            decision == spec_wait_for_spark_health_check(healthy, elapsed_ms),
    {
        if elapsed_ms >= GUEST_TIMEOUT_MS {
            WaitDecision::Fail(Error::HealthTimeout(HealthTarget::GuestAgent))
        } else if healthy {
            WaitDecision::Ready
        } else {
            WaitDecision::Retry { sleep_ms: GUEST_POLL_MS }
        }
    }

    /// The steps that set up logging.
    pub fn setup_logging(&self, sandbox: &Sandbox) -> (r: Result<Vec<InitStep>, Error>)
        ensures
            plan_view(r) == spec_setup_logging(
                sandbox.spec_path_resolver(),
                sandbox.spec_config()@.logger,
            ),
    {
        let mut steps: Vec<InitStep> = Vec::new();
        assert(init_views(steps@) =~= Seq::<InitStepView>::empty());
        let logger = match &sandbox.virtual_machine_config().logger {
            Some(config) => config.clone(),
            None => {
                return Ok(steps);
            },
        };
        match &logger.log_path {
            Some(path) => {
                match sandbox.path_resolver().try_resolve(path.as_str()) {
                    Some(log_file_path_on_host) => {
                        push_init(&mut steps, InitStep::TouchFile { path: log_file_path_on_host });
                    },
                    None => {
                        return Err(Error::ConfigInvalid);
                    },
                }
            },
            None => {},
        }
        push_init(
            &mut steps,
            InitStep::Put { path: String::from_str("/logger"), body: RequestBody::Logger(logger) },
        );
        assert(plan_view(Ok(steps)) =~= spec_setup_logging(
            sandbox.spec_path_resolver(),
            sandbox.spec_config()@.logger,
        )) by {
            let expected = spec_setup_logging(
                sandbox.spec_path_resolver(),
                sandbox.spec_config()@.logger,
            );
            assert(expected is Ok);
            assert(init_views(steps@) =~= expected->Ok_0);
        }
        Ok(steps)
    }

    /// The steps that set up the boot source.
    pub fn setup_bootsource(&self, sandbox: &Sandbox) -> (r: Result<Vec<InitStep>, Error>)
        ensures
            plan_view(r) == spec_setup_bootsource(
                sandbox.spec_path_resolver(),
                self.spec_kernel_image(),
                sandbox.spec_config()@.boot_source,
            ),
    {
        let bootsource = &sandbox.virtual_machine_config().boot_source;
        let kernel_image_path_on_host = match sandbox.path_resolver().try_resolve(
            bootsource.kernel_image_path.as_str(),
        ) {
            Some(path) => path,
            None => {
                return Err(Error::ConfigInvalid);
            },
        };
        let mut steps: Vec<InitStep> = Vec::new();
        assert(init_views(steps@) =~= Seq::<InitStepView>::empty());
        push_init(
            &mut steps,
            InitStep::CreateDirectory { path: parent(kernel_image_path_on_host.as_str()) },
        );
        push_init(
            &mut steps,
            InitStep::CopyFile { from: self.kernel_image.clone(), to: kernel_image_path_on_host },
        );
        push_init(
            &mut steps,
            InitStep::Put {
                path: String::from_str("/boot-source"),
                body: RequestBody::BootSource(bootsource.clone()),
            },
        );
        assert(init_views(steps@) =~= spec_setup_bootsource(
            sandbox.spec_path_resolver(),
            self.spec_kernel_image(),
            sandbox.spec_config()@.boot_source,
        )->Ok_0);
        Ok(steps)
    }

    /// The steps that set up the drives.
    pub fn setup_drives(&self, sandbox: &Sandbox) -> (steps: Vec<InitStep>)
        ensures
            init_views(steps@) == spec_setup_drives(
                sandbox.spec_path_resolver(),
                self.spec_rootfs(),
                sandbox.spec_config()@.drives,
            ),
    {
        proof {
            reveal_strlit("/drives/rootfs.ext4");
        }
        let rootfs_path = sandbox.path_resolver().resolve(ROOTFS_PATH);
        let mut steps: Vec<InitStep> = Vec::new();
        assert(init_views(steps@) =~= Seq::<InitStepView>::empty());
        push_init(&mut steps, InitStep::CopyFile { from: self.rootfs.clone(), to: rootfs_path });
        assert(init_views(steps@).len() == 1);
        assert(init_views(steps@)[0] == steps@[0]@);
        let drives = &sandbox.virtual_machine_config().drives;
        let ghost views = drive_views(drives@);
        let mut i: usize = 0;
        while i < drives.len()
            invariant
                i <= drives.len(),
                views == drive_views(drives@),
                steps@.len() == i + 1,
                steps@[0]@ == InitStepView::CopyFile(
                    self.spec_rootfs(),
                    sandbox.spec_path_resolver().spec_resolve(ROOTFS_PATH@),
                ),
                forall|j: int| 0 <= j < i ==> (#[trigger] steps@[j + 1])@ == spec_put_drives(views)[j],
            decreases drives.len() - i,
        {
            let drive = &drives[i];
            let path = concat2("/drives/", drive.drive_id.as_str());
            steps.push(InitStep::Put { path, body: RequestBody::Drive(drive.clone()) });
            i += 1;
        }
        assert(init_views(steps@) =~= spec_setup_drives(
            sandbox.spec_path_resolver(),
            self.spec_rootfs(),
            sandbox.spec_config()@.drives,
        )) by {
            let expected = spec_setup_drives(
                sandbox.spec_path_resolver(),
                self.spec_rootfs(),
                views,
            );
            assert forall|k: int| 0 <= k < steps@.len() implies init_views(steps@)[k]
                == expected[k] by {
                if k > 0 {
                    assert(steps@[(k - 1) + 1]@ == spec_put_drives(views)[k - 1]);
                }
            }
        }
        steps
    }

    /// The steps that set up the network interfaces.
    pub fn setup_network_interfaces(&self, sandbox: &Sandbox) -> (steps: Vec<InitStep>)
        ensures
            init_views(steps@) == spec_setup_network_interfaces(
                sandbox.spec_config()@.network_interfaces,
            ),
    {
        let mut steps: Vec<InitStep> = Vec::new();
        let interfaces = &sandbox.virtual_machine_config().network_interfaces;
        let ghost views = interface_views(interfaces@);
        let mut i: usize = 0;
        while i < interfaces.len()
            invariant
                i <= interfaces.len(),
                views == interface_views(interfaces@),
                steps@.len() == i,
                forall|j: int|
                    0 <= j < i ==> (#[trigger] steps@[j])@ == spec_setup_network_interfaces(
                        views,
                    )[j],
            decreases interfaces.len() - i,
        {
            let interface = &interfaces[i];
            let path = concat2("/network-interfaces/", interface.iface_id.as_str());
            steps.push(
                InitStep::Put { path, body: RequestBody::NetworkInterface(interface.clone()) },
            );
            i += 1;
        }
        assert(init_views(steps@) =~= spec_setup_network_interfaces(views));
        steps
    }

    /// The mounts inside the guest.
    pub fn mount_drives_in_guest(&self, sandbox: &Sandbox) -> (steps: Vec<InitStep>)
        ensures
            init_views(steps@) == spec_mount_drives_in_guest(sandbox.spec_config()@.drives),
    {
        let mut steps: Vec<InitStep> = Vec::new();
        assert(init_views(steps@) =~= Seq::<InitStepView>::empty());
        let drives = &sandbox.virtual_machine_config().drives;
        let ghost views = drive_views(drives@);
        let mut i: usize = 0;
        assert(views.take(0) =~= Seq::<DriveView>::empty());
        while i < drives.len()
            invariant
                i <= drives.len(),
                views == drive_views(drives@),
                init_views(steps@) == spec_mount_drives_in_guest(views.take(i as int)),
            decreases drives.len() - i,
        {
            let drive = &drives[i];
            proof {
                let next = views.take(i + 1);
                assert(next.drop_last() =~= views.take(i as int));
                assert(next.last() == drive@);
            }
            if !same_text(drive.drive_id.as_str(), ROOTFS_DRIVE_ID) {
                push_init(
                    &mut steps,
                    InitStep::Mount {
                        device: concat2("/dev/", drive.drive_id.as_str()),
                        path: concat2("/tmp/", drive.drive_id.as_str()),
                    },
                );
            }
            i += 1;
        }
        assert(views.take(i as int) =~= views);
        steps
    }

    /// Every step of booting the sandbox, in the order in which they must
    /// run. The first step that fails ends the boot.
    pub fn initialize(&self, sandbox: &Sandbox) -> (r: Result<Vec<InitStep>, Error>)
        ensures
            plan_view(r) == spec_initialize(
                sandbox.spec_path_resolver(),
                self.spec_rootfs(),
                self.spec_kernel_image(),
                sandbox.spec_config()@,
            ),
    {
        let logging = match self.setup_logging(sandbox) {
            Ok(steps) => steps,
            Err(e) => {
                return Err(e);
            },
        };
        let bootsource = match self.setup_bootsource(sandbox) {
            Ok(steps) => steps,
            Err(e) => {
                return Err(e);
            },
        };
        let mut steps: Vec<InitStep> = Vec::new();
        assert(init_views(steps@) =~= Seq::<InitStepView>::empty());
        push_init(&mut steps, InitStep::WaitForFirecracker);
        assert(init_views(steps@) =~= seq![InitStepView::WaitForFirecracker]);
        append_init(&mut steps, logging);
        append_init(&mut steps, bootsource);
        append_init(&mut steps, self.setup_drives(sandbox));
        append_init(&mut steps, self.setup_network_interfaces(sandbox));
        let ghost before = init_views(steps@);
        push_init(&mut steps, InitStep::Start(Action::InstanceStart));
        push_init(&mut steps, InitStep::WaitForGuestAgent);
        assert(init_views(steps@) =~= before + seq![
            InitStepView::Start(Action::InstanceStart),
            InitStepView::WaitForGuestAgent,
        ]);
        append_init(&mut steps, self.mount_drives_in_guest(sandbox));
        Ok(steps)
    }
}

} // verus!
