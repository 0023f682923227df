use matchbox::error::Error;
use matchbox::guest::{SparkClientFactory, SparkServer, EXECUTE_DIRECTORY};
use matchbox::jailer::{
    check_status, request_header_names, Action, ACTIONS_PATH, JSON_MEDIA_TYPE, VERSION_PATH,
};
use matchbox::sandbox::{kill_session_args, FileCopy};

#[test]
fn agent_address_has_scheme_and_port() {
    assert_eq!(SparkClientFactory.address("10.200.0.3"), "http://10.200.0.3:5001");
}

#[test]
fn agent_mounts_and_runs_in_the_code_drive() {
    let server = SparkServer::default();
    assert_eq!(server.mount_args("/dev/vdb", "/tmp/vdb"), ["/dev/vdb", "/tmp/vdb"]);
    assert_eq!(server.execute_directory(), "/tmp/vdb");
    assert_eq!(EXECUTE_DIRECTORY, "/tmp/vdb");
}

#[test]
fn only_statuses_from_200_to_299_are_success() {
    assert_eq!(check_status(200), Ok(()));
    assert_eq!(check_status(204), Ok(()));
    assert_eq!(check_status(299), Ok(()));
    assert_eq!(check_status(199), Err(Error::FirecrackerApi));
    assert_eq!(check_status(300), Err(Error::FirecrackerApi));
    assert_eq!(check_status(400), Err(Error::FirecrackerApi));
    assert_eq!(check_status(0), Err(Error::FirecrackerApi));
}

#[test]
fn requests_speak_json() {
    assert_eq!(request_header_names(), ["Content-Type", "Accept"]);
    assert_eq!(JSON_MEDIA_TYPE, "application/json");
    assert_eq!(ACTIONS_PATH, "/actions");
    assert_eq!(VERSION_PATH, "/version");
    assert_eq!(Action::InstanceStart.name(), "InstanceStart");
}

#[test]
fn copies_and_session_kills_have_their_arguments() {
    let copy = FileCopy { from: "/a".to_string(), to: "/b".to_string() };
    assert_eq!(copy.args(), ["/a", "/b"]);
    assert_eq!(kill_session_args("abc"), ["kill-session", "-t", "abc"]);
}
