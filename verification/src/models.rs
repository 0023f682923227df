//! The configuration of one micro-VM, as the hypervisor's API takes it.
//!
//! Paths in these values are paths as the jailed hypervisor sees them.

use vstd::prelude::*;

verus! {

/// The text of an optional string.
pub open spec fn optional_view(s: Option<String>) -> Option<Seq<char>> {
    match s {
        Some(s) => Some(s@),
        None => None,
    }
}

/// A copy of an optional string.
pub fn clone_optional(s: &Option<String>) -> (r: Option<String>)
    ensures
        optional_view(r) == optional_view(*s),
{
    match s {
        Some(s) => Some(s.clone()),
        None => None,
    }
}

/// How a block device caches writes.
#[derive(Clone, Copy, Debug, PartialEq, Eq, Structural, Default)]
pub enum CacheType {
    #[default]
    Unsafe,
    Writeback,
}

/// How a block device performs its I/O.
#[derive(Clone, Copy, Debug, PartialEq, Eq, Structural, Default)]
pub enum IoEngine {
    #[default]
    Sync,
    Async,
}

/// How much the hypervisor logs.
#[derive(Clone, Copy, Debug, PartialEq, Eq, Structural, Default)]
pub enum LogLevel {
    Off,
    Trace,
    Debug,
    #[default]
    Info,
    Warning,
    Error,
}

/// A bucket of tokens that refills at a constant rate.
#[derive(Clone, Copy, Debug, PartialEq, Eq, Default)]
pub struct TokenBucket {
    /// How many tokens the bucket holds.
    pub size: u64,
    /// How many milliseconds the bucket takes to refill.
    pub refill_time: u64,
    /// How many tokens may be spent once before the rate applies.
    pub one_time_burst: Option<u64>,
}

/// Limits on bytes per second and operations per second.
#[derive(Clone, Copy, Debug, PartialEq, Eq, Default)]
pub struct RateLimiter {
    /// The bucket whose tokens are bytes.
    pub bandwidth: Option<TokenBucket>,
    /// The bucket whose tokens are operations.
    pub ops: Option<TokenBucket>,
}

/// A block device of the guest.
#[derive(Debug)]
pub struct Drive {
    pub drive_id: String,
    pub is_root_device: bool,
    pub cache_type: CacheType,
    pub io_engine: IoEngine,
    pub partuuid: Option<String>,
    pub is_read_only: Option<bool>,
    pub path_on_host: String,
    pub rate_limiter: Option<RateLimiter>,
}

/// What a [`Drive`] holds.
pub struct DriveView {
    pub drive_id: Seq<char>,
    pub is_root_device: bool,
    pub cache_type: CacheType,
    pub io_engine: IoEngine,
    pub partuuid: Option<Seq<char>>,
    pub is_read_only: Option<bool>,
    pub path_on_host: Seq<char>,
    pub rate_limiter: Option<RateLimiter>,
}

impl View for Drive {
    type V = DriveView;

    open spec fn view(&self) -> DriveView {
        DriveView {
            drive_id: self.drive_id@,
            is_root_device: self.is_root_device,
            cache_type: self.cache_type,
            io_engine: self.io_engine,
            partuuid: optional_view(self.partuuid),
            is_read_only: self.is_read_only,
            path_on_host: self.path_on_host@,
            rate_limiter: self.rate_limiter,
        }
    }
}

impl Drive {
    /// A drive with the given identifier and image, writable, with the
    /// default cache type and I/O engine and no rate limit.
    pub open spec fn spec_new(drive_id: Seq<char>, path_on_host: Seq<char>, is_root_device: bool)
        -> DriveView {
        DriveView {
            drive_id,
            is_root_device,
            cache_type: CacheType::Unsafe,
            io_engine: IoEngine::Sync,
            partuuid: None,
            is_read_only: Some(false),
            path_on_host,
            rate_limiter: None,
        }
    }

    /// A drive with the given identifier and image, writable, with the
    /// default cache type and I/O engine and no rate limit.
    pub fn new(drive_id: &str, path_on_host: &str, is_root_device: bool) -> (drive: Drive)
        ensures
            drive@ == Self::spec_new(drive_id@, path_on_host@, is_root_device),
    {
        Drive {
            drive_id: String::from_str(drive_id),
            is_root_device,
            cache_type: CacheType::Unsafe,
            io_engine: IoEngine::Sync,
            partuuid: None,
            is_read_only: Some(false),
            path_on_host: String::from_str(path_on_host),
            rate_limiter: None,
        }
    }
}

impl Clone for Drive {
    fn clone(&self) -> (r: Drive)
        ensures
            r@ == self@,
    {
        Drive {
            drive_id: self.drive_id.clone(),
            is_root_device: self.is_root_device,
            cache_type: self.cache_type,
            io_engine: self.io_engine,
            partuuid: clone_optional(&self.partuuid),
            is_read_only: self.is_read_only,
            path_on_host: self.path_on_host.clone(),
            rate_limiter: self.rate_limiter,
        }
    }
}

/// What the guest boots from.
#[derive(Debug)]
pub struct BootSource {
    pub kernel_image_path: String,
    pub boot_args: Option<String>,
    pub initrd_path: Option<String>,
}

/// What a [`BootSource`] holds.
pub struct BootSourceView {
    pub kernel_image_path: Seq<char>,
    pub boot_args: Option<Seq<char>>,
    pub initrd_path: Option<Seq<char>>,
}

impl View for BootSource {
    type V = BootSourceView;

    open spec fn view(&self) -> BootSourceView {
        BootSourceView {
            kernel_image_path: self.kernel_image_path@,
            boot_args: optional_view(self.boot_args),
            initrd_path: optional_view(self.initrd_path),
        }
    }
}

impl Clone for BootSource {
    fn clone(&self) -> (r: BootSource)
        ensures
            r@ == self@,
    {
        BootSource {
            kernel_image_path: self.kernel_image_path.clone(),
            boot_args: clone_optional(&self.boot_args),
            initrd_path: clone_optional(&self.initrd_path),
        }
    }
}

/// Where and how the hypervisor logs.
#[derive(Debug)]
pub struct Logger {
    pub level: LogLevel,
    pub log_path: Option<String>,
    pub show_level: bool,
    pub show_log_origin: bool,
    pub module: Option<String>,
}

/// What a [`Logger`] holds.
pub struct LoggerView {
    pub level: LogLevel,
    pub log_path: Option<Seq<char>>,
    pub show_level: bool,
    pub show_log_origin: bool,
    pub module: Option<Seq<char>>,
}

impl View for Logger {
    type V = LoggerView;

    open spec fn view(&self) -> LoggerView {
        LoggerView {
            level: self.level,
            log_path: optional_view(self.log_path),
            show_level: self.show_level,
            show_log_origin: self.show_log_origin,
            module: optional_view(self.module),
        }
    }
}

impl Clone for Logger {
    fn clone(&self) -> (r: Logger)
        ensures
            r@ == self@,
    {
        Logger {
            level: self.level,
            log_path: clone_optional(&self.log_path),
            show_level: self.show_level,
            show_log_origin: self.show_log_origin,
            module: clone_optional(&self.module),
        }
    }
}

/// A network interface of the guest, backed by a tap device of the host.
#[derive(Debug)]
pub struct NetworkInterface {
    pub host_dev_name: String,
    pub iface_id: String,
    pub guest_mac: Option<String>,
    pub rx_rate_limiter: Option<RateLimiter>,
    pub tx_rate_limiter: Option<RateLimiter>,
}

/// What a [`NetworkInterface`] holds.
pub struct NetworkInterfaceView {
    pub host_dev_name: Seq<char>,
    pub iface_id: Seq<char>,
    pub guest_mac: Option<Seq<char>>,
    pub rx_rate_limiter: Option<RateLimiter>,
    pub tx_rate_limiter: Option<RateLimiter>,
}

impl View for NetworkInterface {
    type V = NetworkInterfaceView;

    open spec fn view(&self) -> NetworkInterfaceView {
        NetworkInterfaceView {
            host_dev_name: self.host_dev_name@,
            iface_id: self.iface_id@,
            guest_mac: optional_view(self.guest_mac),
            rx_rate_limiter: self.rx_rate_limiter,
            tx_rate_limiter: self.tx_rate_limiter,
        }
    }
}

impl Clone for NetworkInterface {
    fn clone(&self) -> (r: NetworkInterface)
        ensures
            r@ == self@,
    {
        NetworkInterface {
            host_dev_name: self.host_dev_name.clone(),
            iface_id: self.iface_id.clone(),
            guest_mac: clone_optional(&self.guest_mac),
            rx_rate_limiter: self.rx_rate_limiter,
            tx_rate_limiter: self.tx_rate_limiter,
        }
    }
}

/// The views of a list of drives.
pub open spec fn drive_views(drives: Seq<Drive>) -> Seq<DriveView> {
    Seq::new(drives.len(), |i: int| drives[i]@)
}

/// The views of a list of network interfaces.
pub open spec fn interface_views(interfaces: Seq<NetworkInterface>) -> Seq<NetworkInterfaceView> {
    Seq::new(interfaces.len(), |i: int| interfaces[i]@)
}

/// Everything the hypervisor is told before the guest starts.
#[derive(Debug)]
pub struct VirtualMachine {
    pub logger: Option<Logger>,
    pub boot_source: BootSource,
    pub drives: Vec<Drive>,
    pub network_interfaces: Vec<NetworkInterface>,
}

/// What a [`VirtualMachine`] holds.
pub struct VirtualMachineView {
    pub logger: Option<LoggerView>,
    pub boot_source: BootSourceView,
    pub drives: Seq<DriveView>,
    pub network_interfaces: Seq<NetworkInterfaceView>,
}

impl View for VirtualMachine {
    type V = VirtualMachineView;

    open spec fn view(&self) -> VirtualMachineView {
        VirtualMachineView {
            logger: match self.logger {
                Some(logger) => Some(logger@),
                None => None,
            },
            boot_source: self.boot_source@,
            drives: drive_views(self.drives@),
            network_interfaces: interface_views(self.network_interfaces@),
        }
    }
}

} // verus!
