//! Launching the jailed hypervisor: its command line, the directory it is
//! confined to, and the mapping from paths inside the jail to paths on the
//! host.
//!
//! Paths are texts with `/` between their components.

use crate::commands::{push_arg, texts};
use crate::error::Error;
use crate::text::{concat2, concat3, decimal, decimal_string};
use vstd::prelude::*;
use vstd::string::StringExecFns;

verus! {

/// Where the hypervisor's API socket lies inside the jail.
pub const SOCKET_PATH: &'static str = "/run/firecracker.socket";

/// The position of the last `c` in `s`, or -1 where there is none.
pub open spec fn last_index_of(s: Seq<char>, c: char) -> int
    decreases s.len(),
{
    if s.len() == 0 {
        -1
    } else if s.last() == c {
        s.len() - 1
    } else {
        last_index_of(s.drop_last(), c)
    }
}

/// What the position of the last `c` says: it lies inside `s` where `c`
/// stands, no `c` follows it, and it is -1 exactly where `s` holds no `c`.
pub proof fn lemma_last_index_of(s: Seq<char>, c: char)
    ensures
        -1 <= last_index_of(s, c) < s.len(),
        last_index_of(s, c) >= 0 ==> s[last_index_of(s, c)] == c,
        forall|i: int| last_index_of(s, c) < i < s.len() ==> s[i] != c,
    decreases s.len(),
{
    if s.len() > 0 && s.last() != c {
        lemma_last_index_of(s.drop_last(), c);
        assert forall|i: int| last_index_of(s, c) < i < s.len() implies s[i] != c by {
            if i < s.len() - 1 {
                assert(s.drop_last()[i] == s[i]);
            }
        }
    }
}

/// The position of the last `c` in `s`.
pub fn find_last(s: &str, c: char) -> (found: Option<usize>)
    ensures
        match found {
            Some(i) => i as int == last_index_of(s@, c) && i < s@.len(),
            None => last_index_of(s@, c) == -1,
        },
{
    let mut i: usize = s.unicode_len();
    assert(s@.take(i as int) =~= s@);
    while i > 0
        invariant
            i <= s@.len(),
            last_index_of(s@, c) == last_index_of(s@.take(i as int), c),
        decreases i,
    {
        if s.get_char(i - 1) == c {
            return Some(i - 1);
        }
        assert(s@.take(i as int).drop_last() =~= s@.take(i as int - 1));
        i -= 1;
    }
    None
}

/// `base` followed by `relative`, with one `/` between them unless `base`
/// is empty or already ends in one.
pub open spec fn spec_join(base: Seq<char>, relative: Seq<char>) -> Seq<char> {
    if base.len() == 0 || base.last() == '/' {
        base + relative
    } else {
        base + seq!['/'] + relative
    }
}

/// `base` followed by `relative`, with one `/` between them unless `base`
/// is empty or already ends in one.
pub fn join(base: &str, relative: &str) -> (path: String)
    ensures
        path@ == spec_join(base@, relative@),
{
    let n = base.unicode_len();
    if n == 0 || base.get_char(n - 1) == '/' {
        concat2(base, relative)
    } else {
        proof {
            reveal_strlit("/");
            assert("/"@ =~= seq!['/']);
        }
        concat3(base, "/", relative)
    }
}

/// The last component of `path`: what follows its last `/`.
pub open spec fn spec_file_name(path: Seq<char>) -> Seq<char> {
    path.skip(last_index_of(path, '/') + 1)
}

/// The last component of `path` without its extension: what stands before
/// its last `.`, unless the component begins with that dot. There is none
/// where the path ends in `/`, `.` or `..`.
pub open spec fn spec_file_stem(path: Seq<char>) -> Option<Seq<char>> {
    let name = spec_file_name(path);
    let dot = last_index_of(name, '.');
    if name.len() == 0 || name == seq!['.'] || name == seq!['.', '.'] {
        None
    } else if dot <= 0 {
        Some(name)
    } else {
        Some(name.take(dot))
    }
}

/// The last component of `path` without its extension.
pub fn file_stem(path: &str) -> (stem: Option<String>)
    ensures
        match stem {
            Some(stem) => spec_file_stem(path@) == Some(stem@),
            None => spec_file_stem(path@) is None,
        },
{
    let len = path.unicode_len();
    let start: usize = match find_last(path, '/') {
        Some(i) => i + 1,
        None => 0,
    };
    let name = path.substring_char(start, len);
    assert(name@ =~= spec_file_name(path@));
    let n = name.unicode_len();
    if n == 0 {
        return None;
    }
    if n == 1 && name.get_char(0) == '.' {
        assert(name@ =~= seq!['.']);
        return None;
    }
    if n == 2 && name.get_char(0) == '.' && name.get_char(1) == '.' {
        assert(name@ =~= seq!['.', '.']);
        return None;
    }
    assert(name@ != seq!['.']) by {
        if name@ == seq!['.'] {
            assert(name@.len() == 1 && name@[0] == '.');
        }
    }
    assert(name@ != seq!['.', '.']) by {
        if name@ == seq!['.', '.'] {
            assert(name@.len() == 2 && name@[0] == '.' && name@[1] == '.');
        }
    }
    match find_last(name, '.') {
        Some(dot) => {
            if dot == 0 {
                Some(String::from_str(name))
            } else {
                let stem = name.substring_char(0, dot);
                assert(stem@ =~= name@.take(dot as int));
                Some(String::from_str(stem))
            }
        },
        None => Some(String::from_str(name)),
    }
}

/// The directory that holds `path`: what stands before its last `/`; `/`
/// itself where that is the path's first character; nothing where the path
/// has no `/`.
pub open spec fn spec_parent(path: Seq<char>) -> Seq<char> {
    let slash = last_index_of(path, '/');
    if slash < 0 {
        Seq::empty()
    } else if slash == 0 {
        seq!['/']
    } else {
        path.take(slash)
    }
}

/// The directory that holds `path`.
pub fn parent(path: &str) -> (directory: String)
    ensures
        directory@ == spec_parent(path@),
{
    match find_last(path, '/') {
        None => String::new(),
        Some(slash) => {
            if slash == 0 {
                proof {
                    reveal_strlit("/");
                    assert("/"@ =~= seq!['/']);
                }
                String::from_str("/")
            } else {
                let directory = path.substring_char(0, slash);
                assert(directory@ =~= path@.take(slash as int));
                String::from_str(directory)
            }
        },
    }
}

/// Whether two texts are the same.
pub fn same_text(a: &str, b: &str) -> (same: bool)
    ensures
        same == (a@ == b@),
{
    let a = String::from_str(a);
    let b = String::from_str(b);
    a == b
}

/// Maps paths inside a jail to paths on the host.
#[derive(Debug)]
pub struct PathResolver {
    pub root_directory: String,
}

impl PathResolver {
    /// Where on the host the absolute jailed path `jailed_path` lies: the
    /// root directory followed by the path without its leading `/`.
    pub open spec fn spec_resolve(&self, jailed_path: Seq<char>) -> Seq<char> {
        spec_join(self.root_directory@, jailed_path.skip(1))
    }

    /// Where on the host the absolute jailed path `jailed_path` lies.
    pub fn resolve(&self, jailed_path: &str) -> (host_path: String)
        requires
            jailed_path@.len() > 0,
            jailed_path@[0] == '/',
        ensures
            host_path@ == self.spec_resolve(jailed_path@),
    {
        let len = jailed_path.unicode_len();
        let relative = jailed_path.substring_char(1, len);
        assert(relative@ =~= jailed_path@.skip(1));
        join(self.root_directory.as_str(), relative)
    }

    /// Where on the host the jailed path lies, or nothing where the path
    /// is not absolute.
    pub fn try_resolve(&self, jailed_path: &str) -> (host_path: Option<String>)
        ensures
            match host_path {
                Some(path) => jailed_path@.len() > 0 && jailed_path@[0] == '/' && path@
                    == self.spec_resolve(jailed_path@),
                None => jailed_path@.len() == 0 || jailed_path@[0] != '/',
            },
    {
        if jailed_path.unicode_len() > 0 && jailed_path.get_char(0) == '/' {
            Some(self.resolve(jailed_path))
        } else {
            None
        }
    }
}

/// An absolute jailed path lies on the host where the root directory is
/// followed by that path: `/a/b` under the root `R` is `R/a/b`. A root that
/// ends in `/` is followed by the path without its own leading `/`.
pub proof fn lemma_resolve_appends(resolver: PathResolver, jailed_path: Seq<char>)
    requires
        jailed_path.len() > 0,
        jailed_path[0] == '/',
    ensures
        resolver.root_directory@.len() > 0 && resolver.root_directory@.last() != '/'
            ==> resolver.spec_resolve(jailed_path) == resolver.root_directory@ + jailed_path,
        resolver.root_directory@.len() == 0 || resolver.root_directory@.last() == '/'
            ==> resolver.spec_resolve(jailed_path) == resolver.root_directory@ + jailed_path.skip(
            1,
        ),
{
    let root = resolver.root_directory@;
    assert(seq!['/'] + jailed_path.skip(1) =~= jailed_path);
    assert(root + seq!['/'] + jailed_path.skip(1) =~= root + (seq!['/'] + jailed_path.skip(1)));
}

/// The group the jailer switches to before it runs the hypervisor.
#[derive(Clone, Copy, Debug)]
pub struct JailerGid(pub u32);

/// The user the jailer switches to before it runs the hypervisor.
#[derive(Clone, Copy, Debug)]
pub struct JailerUid(pub u32);

/// `users::get_effective_gid`: the effective group of this process, which
/// is whatever the operating system says.
#[verifier::external_body]
fn effective_gid() -> (gid: u32) {
    users::get_effective_gid()
}

/// `users::get_effective_uid`: the effective user of this process, which is
/// whatever the operating system says.
#[verifier::external_body]
fn effective_uid() -> (uid: u32) {
    users::get_effective_uid()
}

impl Default for JailerGid {
    /// The effective group of this process.
    fn default() -> (gid: JailerGid) {
        JailerGid(effective_gid())
    }
}

impl Default for JailerUid {
    /// The effective user of this process.
    fn default() -> (uid: JailerUid) {
        JailerUid(effective_uid())
    }
}

/// Everything the jailer is told on its command line.
#[derive(Debug)]
pub struct JailerConfig {
    /// Path to the jailer binary.
    pub jailer_path: String,
    /// The identifier of the VM, which also names its directory.
    pub id: String,
    /// Path to the binary that the jailer runs, the hypervisor.
    pub exec_file: String,
    /// The directory under which each VM gets its jail.
    pub chroot_base_dir: String,
    /// Path of the network namespace that the hypervisor joins.
    pub netns: String,
    /// The group the hypervisor runs as.
    pub gid: JailerGid,
    /// The user the hypervisor runs as.
    pub uid: JailerUid,
}

/// The jailer's command line: the binary, then the identifier, the
/// hypervisor, group and user, the base directory and the namespace, in the
/// order the jailer expects.
pub open spec fn spec_jailer_argv(
    jailer_path: Seq<char>,
    id: Seq<char>,
    exec_file: Seq<char>,
    gid: u32,
    uid: u32,
    chroot_base_dir: Seq<char>,
    netns: Seq<char>,
) -> Seq<Seq<char>> {
    seq![
        jailer_path,
        "--id"@,
        id,
        "--exec-file"@,
        exec_file,
        "--gid"@,
        decimal(gid as nat),
        "--uid"@,
        decimal(uid as nat),
        "--chroot-base-dir"@,
        chroot_base_dir,
        "--netns"@,
        netns,
    ]
}

/// The arguments of the terminal multiplexer that start a detached session
/// named `id`; the command to run in it follows them.
pub open spec fn spec_session_prefix(id: Seq<char>) -> Seq<Seq<char>> {
    seq!["new-session"@, "-d"@, "-s"@, id]
}

impl JailerConfig {
    /// The configuration with the given fields and the effective user and
    /// group of this process.
    pub fn new(
        jailer_path: &str,
        exec_file: &str,
        chroot_base_dir: &str,
        id: &str,
        netns: &str,
    ) -> (config: JailerConfig)
        ensures
            config.jailer_path@ == jailer_path@,
            config.exec_file@ == exec_file@,
            config.chroot_base_dir@ == chroot_base_dir@,
            config.id@ == id@,
            config.netns@ == netns@,
    {
        JailerConfig {
            jailer_path: String::from_str(jailer_path),
            id: String::from_str(id),
            exec_file: String::from_str(exec_file),
            chroot_base_dir: String::from_str(chroot_base_dir),
            netns: String::from_str(netns),
            gid: JailerGid::default(),
            uid: JailerUid::default(),
        }
    }

    /// The jailer's command line for this configuration.
    pub open spec fn spec_argv(&self) -> Seq<Seq<char>> {
        spec_jailer_argv(
            self.jailer_path@,
            self.id@,
            self.exec_file@,
            self.gid.0,
            self.uid.0,
            self.chroot_base_dir@,
            self.netns@,
        )
    }

    /// The jailer's command line for this configuration.
    pub fn argv(&self) -> (argv: Vec<String>)
        ensures
            texts(argv@) == self.spec_argv(),
    {
        let mut argv: Vec<String> = Vec::new();
        assert(texts(argv@) =~= Seq::<Seq<char>>::empty());
        let gid = decimal_string(self.gid.0 as u64);
        let uid = decimal_string(self.uid.0 as u64);
        push_arg(&mut argv, self.jailer_path.as_str());
        push_arg(&mut argv, "--id");
        push_arg(&mut argv, self.id.as_str());
        push_arg(&mut argv, "--exec-file");
        push_arg(&mut argv, self.exec_file.as_str());
        push_arg(&mut argv, "--gid");
        push_arg(&mut argv, gid.as_str());
        push_arg(&mut argv, "--uid");
        push_arg(&mut argv, uid.as_str());
        push_arg(&mut argv, "--chroot-base-dir");
        push_arg(&mut argv, self.chroot_base_dir.as_str());
        push_arg(&mut argv, "--netns");
        push_arg(&mut argv, self.netns.as_str());
        assert(texts(argv@) =~= self.spec_argv());
        argv
    }

    /// The arguments of the terminal multiplexer that run the jailer in a
    /// detached session named after the VM, so that the session can later
    /// be killed by name.
    pub fn session_args(&self) -> (argv: Vec<String>)
        ensures
            texts(argv@) == spec_session_prefix(self.id@) + self.spec_argv(),
    {
        let mut argv: Vec<String> = Vec::new();
        assert(texts(argv@) =~= Seq::<Seq<char>>::empty());
        push_arg(&mut argv, "new-session");
        push_arg(&mut argv, "-d");
        push_arg(&mut argv, "-s");
        push_arg(&mut argv, self.id.as_str());
        let ghost head = argv@;
        let mut rest = self.argv();
        let ghost tail = rest@;
        argv.append(&mut rest);
        assert(texts(argv@) =~= texts(head) + texts(tail));
        assert(texts(head) =~= spec_session_prefix(self.id@));
        argv
    }
}

/// An action that the hypervisor performs on request.
#[derive(Clone, Copy, Debug)]
pub enum Action {
    InstanceStart,
}

impl Action {
    /// The action's name as the hypervisor's API spells it.
    pub open spec fn spec_name(&self) -> Seq<char> {
        match self {
            Action::InstanceStart => "InstanceStart"@,
        }
    }

    /// The action's name as the hypervisor's API spells it.
    pub fn name(&self) -> (name: &'static str)
        ensures
            name@ == self.spec_name(),
    {
        match self {
            Action::InstanceStart => "InstanceStart",
        }
    }
}

/// The path of the request for an action.
pub const ACTIONS_PATH: &'static str = "/actions";

/// The path of the request that probes the hypervisor's health.
pub const VERSION_PATH: &'static str = "/version";

/// The media type of every request and answer.
pub const JSON_MEDIA_TYPE: &'static str = "application/json";

/// The names of the two headers that every request carries with the value
/// [`JSON_MEDIA_TYPE`].
pub fn request_header_names() -> (names: Vec<String>)
    ensures
        texts(names@) == seq!["Content-Type"@, "Accept"@],
{
    let mut names: Vec<String> = Vec::new();
    assert(texts(names@) =~= Seq::<Seq<char>>::empty());
    push_arg(&mut names, "Content-Type");
    push_arg(&mut names, "Accept");
    assert(texts(names@) =~= seq!["Content-Type"@, "Accept"@]);
    names
}

/// Whether the hypervisor's answer tells of success: a status from 200 to
/// 299. Any other is an error of the hypervisor's API.
pub fn check_status(status: u16) -> (r: Result<(), Error>)
    ensures
        200 <= status <= 299 ==> r is Ok,
        !(200 <= status <= 299) ==> r == Err::<(), Error>(Error::FirecrackerApi),
{
    if 200 <= status && status <= 299 {
        Ok(())
    } else {
        Err(Error::FirecrackerApi)
    }
}

/// What it takes to start one jailed hypervisor, and where it will live.
#[derive(Debug)]
pub struct JailerLaunch {
    /// What the jailer is told.
    pub config: JailerConfig,
    /// The arguments to run the terminal multiplexer with.
    pub session_args: Vec<String>,
    /// The directory that holds everything of this VM.
    pub vm_directory: String,
    /// Maps the VM's jailed paths to host paths.
    pub path_resolver: PathResolver,
    /// The host path of the hypervisor's API socket.
    pub socket_path: String,
}

/// Starts jailed hypervisors from one jailer binary, one hypervisor binary
/// and one base directory.
#[derive(Debug)]
pub struct JailedFirecrackerFactory {
    jailer_path: String,
    firecracker_path: String,
    chroot_base_dir: String,
}

/// The directory that holds everything of the VM `vm_id`: the base
/// directory, then the hypervisor's name, then the VM's identifier.
pub open spec fn spec_vm_directory(
    chroot_base_dir: Seq<char>,
    exec_stem: Seq<char>,
    vm_id: Seq<char>,
) -> Seq<char> {
    spec_join(spec_join(chroot_base_dir, exec_stem), vm_id)
}

/// The directory that the hypervisor of VM `vm_id` sees as `/`.
pub open spec fn spec_root_directory(
    chroot_base_dir: Seq<char>,
    exec_stem: Seq<char>,
    vm_id: Seq<char>,
) -> Seq<char> {
    spec_join(spec_vm_directory(chroot_base_dir, exec_stem, vm_id), "root"@)
}

impl JailedFirecrackerFactory {
    /// Path to the jailer binary.
    pub closed spec fn spec_jailer_path(&self) -> Seq<char> {
        self.jailer_path@
    }

    /// Path to the hypervisor binary.
    pub closed spec fn spec_firecracker_path(&self) -> Seq<char> {
        self.firecracker_path@
    }

    /// The directory under which each VM gets its jail.
    pub closed spec fn spec_chroot_base_dir(&self) -> Seq<char> {
        self.chroot_base_dir@
    }

    /// The factory for the given binaries and base directory.
    pub fn new(jailer_path: &str, firecracker_path: &str, chroot_base_dir: &str) -> (factory:
        JailedFirecrackerFactory)
        ensures
            factory.spec_jailer_path() == jailer_path@,
            factory.spec_firecracker_path() == firecracker_path@,
            factory.spec_chroot_base_dir() == chroot_base_dir@,
    {
        JailedFirecrackerFactory {
            jailer_path: String::from_str(jailer_path),
            firecracker_path: String::from_str(firecracker_path),
            chroot_base_dir: String::from_str(chroot_base_dir),
        }
    }

    /// Whether the hypervisor's path names a file, so that VMs can be
    /// given a directory named after it.
    pub fn can_spawn(&self) -> (ok: bool)
        ensures
            ok == (spec_file_stem(self.spec_firecracker_path()) is Some),
    {
        file_stem(self.firecracker_path.as_str()).is_some()
    }

    /// What it takes to start the jailed hypervisor of VM `vm_id` inside
    /// the network namespace at `netns`: the command to run, with the
    /// effective user and group of this process, and the VM's directories.
    pub fn spawn_jailed_firecracker(&self, vm_id: &str, netns: &str) -> (launch: JailerLaunch)
        requires
            spec_file_stem(self.spec_firecracker_path()) is Some,
        ensures
            launch.config.jailer_path@ == self.spec_jailer_path(),
            launch.config.exec_file@ == self.spec_firecracker_path(),
            launch.config.chroot_base_dir@ == self.spec_chroot_base_dir(),
            launch.config.id@ == vm_id@,
            launch.config.netns@ == netns@,
            texts(launch.session_args@) == spec_session_prefix(vm_id@)
                + launch.config.spec_argv(),
            launch.vm_directory@ == spec_vm_directory(
                self.spec_chroot_base_dir(),
                spec_file_stem(self.spec_firecracker_path())->0,
                vm_id@,
            ),
            launch.path_resolver.root_directory@ == spec_root_directory(
                self.spec_chroot_base_dir(),
                spec_file_stem(self.spec_firecracker_path())->0,
                vm_id@,
            ),
            launch.socket_path@ == launch.path_resolver.spec_resolve(SOCKET_PATH@),
    {
        let config = JailerConfig::new(
            self.jailer_path.as_str(),
            self.firecracker_path.as_str(),
            self.chroot_base_dir.as_str(),
            vm_id,
            netns,
        );
        let session_args = config.session_args();
        let stem = file_stem(self.firecracker_path.as_str()).unwrap();
        let exec_directory = join(self.chroot_base_dir.as_str(), stem.as_str());
        let vm_directory = join(exec_directory.as_str(), vm_id);
        let root_directory = join(vm_directory.as_str(), "root");
        let path_resolver = PathResolver { root_directory };
        proof {
            reveal_strlit("/run/firecracker.socket");
        }
        let socket_path = path_resolver.resolve(SOCKET_PATH);
        JailerLaunch { config, session_args, vm_directory, path_resolver, socket_path }
    }
}

} // verus!
