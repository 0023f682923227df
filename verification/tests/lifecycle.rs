use matchbox::error::{Error, HealthTarget};
use matchbox::id::VmIdentifier;
use matchbox::initializer::{InitStep, RequestBody, SandboxInitializer, WaitDecision};
use matchbox::jailer::{Action, PathResolver};
use matchbox::models::{
    BootSource, CacheType, Drive, IoEngine, LogLevel, Logger, VirtualMachine,
};
use matchbox::network::NetworkStep;
use matchbox::registry::{ApiError, Registry, SandboxResponse};
use matchbox::sandbox::{
    copy_if_exists, default_config, DestroyStep, Location, ProvideSandboxOptions, Sandbox,
    SandboxFactory, SandboxState,
};

fn resolver() -> PathResolver {
    PathResolver { root_directory: "/tmp/vms/firecracker/abc/root".to_string() }
}

fn sandbox(id: &str, block: u64) -> Sandbox {
    Sandbox::new(
        VmIdentifier::new(id.to_string(), block),
        PathResolver { root_directory: format!("/tmp/vms/firecracker/{id}/root") },
        format!("/tmp/vms/firecracker/{id}"),
    )
}

fn describe(step: &InitStep) -> String {
    match step {
        InitStep::WaitForFirecracker => "wait firecracker".to_string(),
        InitStep::TouchFile { path } => format!("touch {path}"),
        InitStep::CreateDirectory { path } => format!("mkdir {path}"),
        InitStep::CopyFile { from, to } => format!("cp {from} {to}"),
        InitStep::Put { path, body } => {
            let kind = match body {
                RequestBody::Logger(_) => "logger",
                RequestBody::BootSource(_) => "boot-source",
                RequestBody::Drive(_) => "drive",
                RequestBody::NetworkInterface(_) => "network-interface",
            };
            format!("put {path} {kind}")
        }
        InitStep::Start(Action::InstanceStart) => "start".to_string(),
        InitStep::WaitForGuestAgent => "wait guest".to_string(),
        InitStep::Mount { device, path } => format!("mount {device} {path}"),
    }
}

fn spawned(options: &ProvideSandboxOptions, exists: bool) -> (Sandbox, Result<(String, String), Error>) {
    let factory = SandboxFactory::new("/tmp/dummy.ext4");
    let (sandbox, copy) = factory.spawn_sandbox(
        VmIdentifier::new("abc".to_string(), 0),
        resolver(),
        "/tmp/vms/firecracker/abc".to_string(),
        options,
        exists,
    );
    (sandbox, copy.map(|c| (c.from, c.to)))
}

#[test]
fn default_config_is_as_documented() {
    let config = default_config();
    let logger = config.logger.unwrap();
    assert_eq!(logger.log_path.as_deref(), Some("/log/firecracker.log"));
    assert_eq!(logger.level, LogLevel::Info);
    assert!(logger.show_level);
    assert!(logger.show_log_origin);
    assert_eq!(logger.module, None);
    assert_eq!(config.boot_source.kernel_image_path, "/kernel.bin");
    assert_eq!(
        config.boot_source.boot_args.as_deref(),
        Some("console=ttyS0 reboot=k panic=1 pci=off random.trust_cpu=on IP_ADDRESS::172.16.0.2 IFACE::eth0 GATEWAY::172.16.0.1")
    );
    assert_eq!(config.boot_source.initrd_path, None);
    assert_eq!(config.drives.len(), 1);
    assert_eq!(config.drives[0].drive_id, "rootfs");
    assert_eq!(config.drives[0].path_on_host, "/drives/rootfs.ext4");
    assert!(config.drives[0].is_root_device);
    assert_eq!(config.drives[0].is_read_only, Some(false));
    assert_eq!(config.drives[0].cache_type, CacheType::Unsafe);
    assert_eq!(config.drives[0].io_engine, IoEngine::Sync);
    assert_eq!(config.network_interfaces.len(), 1);
    assert_eq!(config.network_interfaces[0].host_dev_name, "tap0");
    assert_eq!(config.network_interfaces[0].iface_id, "eth0");
    assert_eq!(config.network_interfaces[0].guest_mac.as_deref(), Some("06:00:AC:10:00:02"));
}

#[test]
fn spawned_sandbox_is_stopped_and_gets_the_dummy_drive() {
    let (sandbox, copy) = spawned(&ProvideSandboxOptions::default(), false);
    assert_eq!(sandbox.id(), "abc");
    assert_eq!(sandbox.state(), SandboxState::Stopped);
    assert_eq!(sandbox.network().microvm_ip(), "10.200.0.3");
    assert_eq!(sandbox.vm_directory(), "/tmp/vms/firecracker/abc");
    assert_eq!(sandbox.path_resolver().root_directory, "/tmp/vms/firecracker/abc/root");
    assert_eq!(
        copy,
        Ok((
            "/tmp/dummy.ext4".to_string(),
            "/tmp/vms/firecracker/abc/root/drives/code-drive.ext4".to_string()
        ))
    );
    let drives = &sandbox.virtual_machine_config().drives;
    assert_eq!(drives.len(), 2);
    assert_eq!(drives[1].drive_id, "vdb");
    assert_eq!(drives[1].path_on_host, "/drives/code-drive.ext4");
    assert!(!drives[1].is_root_device);
    assert_eq!(drives[1].is_read_only, Some(false));
}

#[test]
fn spawned_sandbox_takes_a_local_code_drive() {
    let options = ProvideSandboxOptions::with_code_drive_location(Location::Local {
        path: "/home/me/code.ext4".to_string(),
    });
    let (sandbox, copy) = spawned(&options, true);
    assert_eq!(
        copy,
        Ok((
            "/home/me/code.ext4".to_string(),
            "/tmp/vms/firecracker/abc/root/drives/code-drive.ext4".to_string()
        ))
    );
    assert_eq!(sandbox.virtual_machine_config().drives.len(), 2);
}

#[test]
fn missing_local_code_drive_is_a_file_error() {
    let options = ProvideSandboxOptions::with_code_drive_location(Location::Local {
        path: "/nowhere".to_string(),
    });
    let (sandbox, copy) = spawned(&options, false);
    assert_eq!(copy, Err(Error::Io));
    assert_eq!(sandbox.virtual_machine_config().drives.len(), 1);
    assert_eq!(sandbox.state(), SandboxState::Stopped);
}

#[test]
fn cloud_location_is_not_implemented() {
    let location = Location::CloudStorage { path: "gs://bucket/code.ext4".to_string() };
    assert_eq!(location.path(), "gs://bucket/code.ext4");
    assert_eq!(location.to_local_path(true), Err(Error::NotImplemented));
    assert_eq!(location.to_local_path(false), Err(Error::NotImplemented));
    let options = ProvideSandboxOptions::with_code_drive_location(location);
    let (_, copy) = spawned(&options, true);
    assert_eq!(copy, Err(Error::NotImplemented));
}

#[test]
fn local_location_resolves_to_its_path() {
    let location = Location::Local { path: "/a/b".to_string() };
    assert_eq!(location.path(), "/a/b");
    assert_eq!(location.to_local_path(true), Ok("/a/b".to_string()));
    assert_eq!(location.to_local_path(false), Err(Error::Io));
    let copy = copy_if_exists(&Some(location), true, "/to".to_string(), "/dummy").unwrap();
    assert_eq!((copy.from.as_str(), copy.to.as_str()), ("/a/b", "/to"));
    let copy = copy_if_exists(&None, false, "/to".to_string(), "/dummy").unwrap();
    assert_eq!((copy.from.as_str(), copy.to.as_str()), ("/dummy", "/to"));
}

#[test]
fn initialization_runs_in_the_documented_order() {
    let (sandbox, _) = spawned(&ProvideSandboxOptions::default(), false);
    let initializer = SandboxInitializer::new("/tmp/rootfs.ext4", "/tmp/kernel.bin");
    let steps = initializer.initialize(&sandbox).unwrap();
    let told: Vec<String> = steps.iter().map(describe).collect();
    assert_eq!(
        told,
        [
            "wait firecracker",
            "touch /tmp/vms/firecracker/abc/root/log/firecracker.log",
            "put /logger logger",
            "mkdir /tmp/vms/firecracker/abc/root",
            "cp /tmp/kernel.bin /tmp/vms/firecracker/abc/root/kernel.bin",
            "put /boot-source boot-source",
            "cp /tmp/rootfs.ext4 /tmp/vms/firecracker/abc/root/drives/rootfs.ext4",
            "put /drives/rootfs drive",
            "put /drives/vdb drive",
            "put /network-interfaces/eth0 network-interface",
            "start",
            "wait guest",
            "mount /dev/vdb /tmp/vdb",
        ]
    );
    match &steps[8] {
        InitStep::Put { body: RequestBody::Drive(drive), .. } => {
            assert_eq!(drive.drive_id, "vdb");
            assert_eq!(drive.path_on_host, "/drives/code-drive.ext4");
        }
        other => panic!("unexpected step {other:?}"),
    }
}

#[test]
fn the_root_drive_is_never_mounted() {
    let sandbox = sandbox("abc", 0);
    let initializer = SandboxInitializer::new("/r", "/k");
    assert!(initializer.mount_drives_in_guest(&sandbox).is_empty());
    assert_eq!(initializer.setup_drives(&sandbox).len(), 2);
    assert_eq!(initializer.setup_network_interfaces(&sandbox).len(), 1);
}

#[test]
fn a_relative_kernel_path_is_an_invalid_configuration() {
    let config = VirtualMachine {
        logger: None,
        boot_source: BootSource {
            kernel_image_path: "kernel.bin".to_string(),
            boot_args: None,
            initrd_path: None,
        },
        drives: vec![Drive::new("rootfs", "/drives/rootfs.ext4", true)],
        network_interfaces: vec![],
    };
    let sandbox = Sandbox::with_config(
        VmIdentifier::new("abc".to_string(), 0),
        resolver(),
        "/tmp/vms/firecracker/abc".to_string(),
        config,
    );
    let initializer = SandboxInitializer::new("/r", "/k");
    assert_eq!(initializer.setup_logging(&sandbox).unwrap().len(), 0);
    assert_eq!(initializer.setup_bootsource(&sandbox).err(), Some(Error::ConfigInvalid));
    assert_eq!(initializer.initialize(&sandbox).err(), Some(Error::ConfigInvalid));
}

#[test]
fn a_relative_log_path_is_an_invalid_configuration() {
    let mut config = default_config();
    config.logger = Some(Logger {
        level: LogLevel::Debug,
        log_path: Some("firecracker.log".to_string()),
        show_level: false,
        show_log_origin: false,
        module: None,
    });
    let sandbox = Sandbox::with_config(
        VmIdentifier::new("abc".to_string(), 0),
        resolver(),
        "/tmp/vms/firecracker/abc".to_string(),
        config,
    );
    let initializer = SandboxInitializer::new("/r", "/k");
    assert_eq!(initializer.setup_logging(&sandbox).err(), Some(Error::ConfigInvalid));
    assert_eq!(initializer.initialize(&sandbox).err(), Some(Error::ConfigInvalid));
}

#[test]
fn a_logger_without_a_path_is_only_sent() {
    let mut config = default_config();
    config.logger = Some(Logger {
        level: LogLevel::Warning,
        log_path: None,
        show_level: false,
        show_log_origin: false,
        module: None,
    });
    let sandbox = Sandbox::with_config(
        VmIdentifier::new("abc".to_string(), 0),
        resolver(),
        "/tmp/vms/firecracker/abc".to_string(),
        config,
    );
    let initializer = SandboxInitializer::new("/r", "/k");
    let steps = initializer.setup_logging(&sandbox).unwrap();
    assert_eq!(steps.iter().map(describe).collect::<Vec<_>>(), ["put /logger logger"]);
}

#[test]
fn firecracker_wait_decisions() {
    let initializer = SandboxInitializer::new("/r", "/k");
    assert_eq!(initializer.wait_for_health_check(true, 0), WaitDecision::Ready);
    assert_eq!(initializer.wait_for_health_check(true, 50_000), WaitDecision::Ready);
    assert_eq!(
        initializer.wait_for_health_check(false, 0),
        WaitDecision::Retry { sleep_ms: 1000 }
    );
    assert_eq!(
        initializer.wait_for_health_check(false, 20_000),
        WaitDecision::Retry { sleep_ms: 1000 }
    );
    assert_eq!(
        initializer.wait_for_health_check(false, 20_001),
        WaitDecision::Fail(Error::HealthTimeout(HealthTarget::Firecracker))
    );
}

#[test]
fn guest_wait_decisions() {
    let initializer = SandboxInitializer::new("/r", "/k");
    assert_eq!(initializer.wait_for_spark_health_check(true, 0), WaitDecision::Ready);
    assert_eq!(
        initializer.wait_for_spark_health_check(false, 9_999),
        WaitDecision::Retry { sleep_ms: 500 }
    );
    assert_eq!(
        initializer.wait_for_spark_health_check(false, 10_000),
        WaitDecision::Fail(Error::HealthTimeout(HealthTarget::GuestAgent))
    );
    assert_eq!(
        initializer.wait_for_spark_health_check(true, 10_000),
        WaitDecision::Fail(Error::HealthTimeout(HealthTarget::GuestAgent))
    );
}

#[test]
fn start_records_the_answer() {
    let mut sandbox = sandbox("abc", 0);
    assert_eq!(sandbox.start(false), Err(Error::FirecrackerApi));
    assert_eq!(sandbox.state(), SandboxState::Stopped);
    assert_eq!(sandbox.start(true), Ok(()));
    assert_eq!(sandbox.state(), SandboxState::Running);
}

#[test]
fn destruction_runs_in_the_documented_order() {
    let sandbox = sandbox("abc", 61);
    let steps = sandbox.destroy();
    assert_eq!(steps.len(), 7);
    match &steps[0] {
        DestroyStep::KillSession { name } => assert_eq!(name, "abc"),
        _ => panic!("the session is killed first"),
    }
    match &steps[1] {
        DestroyStep::RemoveDirectory { path } => assert_eq!(path, "/tmp/vms/firecracker/abc"),
        _ => panic!("the directory is removed second"),
    }
    match &steps[2] {
        DestroyStep::Network(NetworkStep::RemoveNamespace { name }) => assert_eq!(name, "abc"),
        _ => panic!("the namespace is removed third"),
    }
    match &steps[3] {
        DestroyStep::Network(NetworkStep::Host(command)) => {
            assert_eq!(command.program(), "ip");
            assert_eq!(command.args(), ["link", "del", "abc-veth"]);
        }
        _ => panic!("the veth device is deleted fourth"),
    }
    match &steps[6] {
        DestroyStep::Network(NetworkStep::Host(command)) => {
            assert_eq!(command.program(), "iptables");
            assert_eq!(
                command.args(),
                ["-t", "nat", "-D", "POSTROUTING", "-s", "10.200.1.6/29", "-o", "ens4", "-j", "MASQUERADE"]
            );
        }
        _ => panic!("the masquerade rule is deleted last"),
    }
}

#[test]
fn registry_lists_what_was_created() {
    let mut registry = Registry::new();
    assert!(registry.list().sandboxes.is_empty());
    let created = registry.create(sandbox("abc", 0));
    assert_eq!((created.id.as_str(), created.ip.as_str()), ("abc", "10.200.0.3"));
    let listing = registry.list().sandboxes;
    assert_eq!(listing.len(), 1);
    assert_eq!((listing[0].id.as_str(), listing[0].ip.as_str()), ("abc", "10.200.0.3"));
    registry.create(sandbox("def", 1));
    let mut ids: Vec<String> = registry.list().sandboxes.into_iter().map(|r| r.id).collect();
    ids.sort();
    assert_eq!(ids, ["abc", "def"]);
}

#[test]
fn registry_forgets_what_was_deleted() {
    let mut registry = Registry::new();
    let created = registry.create(sandbox("abc", 5));
    registry.create(sandbox("def", 6));
    let (deleted, removed) = registry.delete("abc").unwrap();
    assert_eq!(deleted.id, created.id);
    assert_eq!(deleted.ip, created.ip);
    assert_eq!(removed.id(), "abc");
    let listing = registry.list().sandboxes;
    assert_eq!(listing.len(), 1);
    assert_eq!(listing[0].id, "def");
    assert!(registry.get("abc").is_none());
    assert!(registry.get("def").is_some());
}

#[test]
fn deleting_an_unknown_sandbox_is_not_found() {
    let mut registry = Registry::new();
    registry.create(sandbox("abc", 0));
    assert_eq!(registry.delete("nope").err(), Some(Error::NotFound));
    assert_eq!(registry.list().sandboxes.len(), 1);
    assert_eq!(registry.execute("nope").err(), Some(Error::NotFound));
}

#[test]
fn inserting_twice_replaces() {
    let mut registry = Registry::new();
    assert!(registry.insert(sandbox("abc", 0)).is_none());
    let replaced = registry.insert(sandbox("abc", 9)).unwrap();
    assert_eq!(replaced.network().microvm_ip(), "10.200.0.3");
    let listing = registry.list().sandboxes;
    assert_eq!(listing.len(), 1);
    assert_eq!(listing[0].ip, "10.200.0.39");
    assert_eq!(registry.remove("abc").unwrap().id(), "abc");
    assert!(registry.remove("abc").is_none());
}

#[test]
fn execute_runs_the_entrypoint() {
    let mut registry = Registry::new();
    registry.create(sandbox("abc", 0));
    let command = registry.execute("abc").unwrap();
    assert_eq!(command.command, "python3");
    assert_eq!(command.arguments, ["/tmp/vdb/entrypoint.py"]);
}

#[test]
fn responses_and_errors() {
    let response = SandboxResponse::from(&sandbox("abc", 60));
    assert_eq!((response.id.as_str(), response.ip.as_str()), ("abc", "10.200.1.3"));
    let answer = ApiError::from(Error::NotImplemented);
    assert_eq!(answer.status(), 500);
    assert_eq!(answer.body(), "Something went wrong: not implemented");
    assert_eq!(Error::NotFound.describe(), "sandbox not found");
    assert_eq!(Error::ConfigInvalid.describe(), "invalid configuration");
    assert_eq!(Error::HostCommandFailed.describe(), "host command failed");
    assert_eq!(Error::FirecrackerApi.describe(), "firecracker API request failed");
    assert_eq!(Error::GuestRpc.describe(), "guest agent call failed");
    assert_eq!(Error::Io.describe(), "file operation failed");
    assert_eq!(
        Error::HealthTimeout(HealthTarget::Firecracker).describe(),
        "firecracker did not become healthy in 20 seconds"
    );
    assert_eq!(
        Error::HealthTimeout(HealthTarget::GuestAgent).describe(),
        "guest agent did not become healthy in 10 seconds"
    );
}
