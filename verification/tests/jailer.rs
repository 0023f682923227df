use matchbox::jailer::{
    file_stem, find_last, join, parent, same_text, Action, JailedFirecrackerFactory, JailerConfig,
    JailerGid, JailerUid, PathResolver, SOCKET_PATH,
};

fn config(uid: u32, gid: u32) -> JailerConfig {
    JailerConfig {
        jailer_path: "/j".to_string(),
        id: "abc".to_string(),
        exec_file: "/fc".to_string(),
        chroot_base_dir: "/c".to_string(),
        netns: "/n".to_string(),
        gid: JailerGid(gid),
        uid: JailerUid(uid),
    }
}

#[test]
fn jailer_argv() {
    assert_eq!(
        config(1000, 1000).argv(),
        [
            "/j", "--id", "abc", "--exec-file", "/fc", "--gid", "1000", "--uid", "1000",
            "--chroot-base-dir", "/c", "--netns", "/n",
        ]
    );
}

#[test]
fn jailer_argv_keeps_gid_before_uid() {
    let argv = config(7, 42).argv();
    assert_eq!(argv[5], "--gid");
    assert_eq!(argv[6], "42");
    assert_eq!(argv[7], "--uid");
    assert_eq!(argv[8], "7");
}

#[test]
fn jailer_runs_in_a_detached_session() {
    assert_eq!(
        config(0, 0).session_args(),
        [
            "new-session", "-d", "-s", "abc", "/j", "--id", "abc", "--exec-file", "/fc", "--gid",
            "0", "--uid", "0", "--chroot-base-dir", "/c", "--netns", "/n",
        ]
    );
}

#[test]
fn new_config_takes_the_effective_ids() {
    let config = JailerConfig::new("/j", "/fc", "/c", "abc", "/n");
    assert_eq!(config.jailer_path, "/j");
    assert_eq!(config.exec_file, "/fc");
    assert_eq!(config.chroot_base_dir, "/c");
    assert_eq!(config.id, "abc");
    assert_eq!(config.netns, "/n");
    assert_eq!(config.uid.0, JailerUid::default().0);
    assert_eq!(config.gid.0, JailerGid::default().0);
}

#[test]
fn root_directory() {
    let factory = JailedFirecrackerFactory::new(
        "/usr/local/bin/jailer",
        "/usr/local/bin/firecracker",
        "/tmp/vms",
    );
    assert!(factory.can_spawn());
    let launch = factory.spawn_jailed_firecracker("xyz", "/var/run/netns/xyz");
    assert_eq!(launch.path_resolver.root_directory, "/tmp/vms/firecracker/xyz/root");
    assert_eq!(launch.vm_directory, "/tmp/vms/firecracker/xyz");
    assert_eq!(launch.socket_path, "/tmp/vms/firecracker/xyz/root/run/firecracker.socket");
    assert_eq!(launch.config.netns, "/var/run/netns/xyz");
    assert_eq!(launch.session_args[..4], ["new-session", "-d", "-s", "xyz"]);
    assert_eq!(launch.session_args[4], "/usr/local/bin/jailer");
    assert_eq!(launch.session_args, launch.config.session_args());
    assert_eq!(SOCKET_PATH, "/run/firecracker.socket");
}

#[test]
fn factory_without_a_file_name_cannot_spawn() {
    assert!(!JailedFirecrackerFactory::new("/j", "/usr/bin/", "/c").can_spawn());
    assert!(!JailedFirecrackerFactory::new("/j", "..", "/c").can_spawn());
    assert!(!JailedFirecrackerFactory::new("/j", "", "/c").can_spawn());
}

#[test]
fn resolve_joins_onto_the_root() {
    let resolver = PathResolver { root_directory: "/R".to_string() };
    assert_eq!(resolver.resolve("/a/b"), "/R/a/b");
    assert_eq!(resolver.resolve("/"), "/R/");
    assert_eq!(resolver.try_resolve("/kernel.bin"), Some("/R/kernel.bin".to_string()));
    assert_eq!(resolver.try_resolve("kernel.bin"), None);
    assert_eq!(resolver.try_resolve(""), None);
    let slash = PathResolver { root_directory: "/R/".to_string() };
    assert_eq!(slash.resolve("/a/b"), "/R/a/b");
    let empty = PathResolver { root_directory: String::new() };
    assert_eq!(empty.resolve("/a/b"), "a/b");
}

#[test]
fn joining_paths() {
    assert_eq!(join("/tmp/vms", "firecracker"), "/tmp/vms/firecracker");
    assert_eq!(join("/tmp/vms/", "firecracker"), "/tmp/vms/firecracker");
    assert_eq!(join("", "firecracker"), "firecracker");
    assert_eq!(join("/", "a"), "/a");
}

#[test]
fn file_stems() {
    assert_eq!(file_stem("/usr/local/bin/firecracker"), Some("firecracker".to_string()));
    assert_eq!(file_stem("firecracker-v1.4.bin"), Some("firecracker-v1.4".to_string()));
    assert_eq!(file_stem("/opt/fc.tar.gz"), Some("fc.tar".to_string()));
    assert_eq!(file_stem("/home/me/.profile"), Some(".profile".to_string()));
    assert_eq!(file_stem("/a/b/"), None);
    assert_eq!(file_stem("/a/.."), None);
    assert_eq!(file_stem("/a/."), None);
    assert_eq!(file_stem(""), None);
}

#[test]
fn parents_and_searches() {
    assert_eq!(parent("/R/kernel.bin"), "/R");
    assert_eq!(parent("/kernel.bin"), "/");
    assert_eq!(parent("kernel.bin"), "");
    assert_eq!(parent("/R/root/"), "/R/root");
    assert_eq!(find_last("a/b/c", '/'), Some(3));
    assert_eq!(find_last("abc", '/'), None);
    assert_eq!(find_last("", '/'), None);
    assert!(same_text("rootfs", "rootfs"));
    assert!(!same_text("rootfs", "vdb"));
}

#[test]
fn action_names() {
    assert_eq!(Action::InstanceStart.name(), "InstanceStart");
}
