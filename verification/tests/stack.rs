use mintctl::compose::{
    cli_link, compose_version_args, detect_public_ip, detect_public_ipv6, discovery_dir,
    docker_info_args, docker_version_args, download_args, ensure_docker, health_url,
    help_names_wait, image_inspect_args, install_project_name, is_root, probe_healthz,
    project_name, project_with_suffix, quiet_failure, reported_version, sanitize, supports_wait,
    uid_is_root, up_help_args, user_id_args, wait_healthy,
    wait_http_ok, DockerCheck, DockerFailure, DockerStep, Poll, Stack,
};
use mintctl::envfile::{entry_line, terminate, EnvFile};
use mintctl::paths::{absolutize, file_name, is_absolute, join, same};
use mintctl::storage::{lock_path, lock_refused, not_replaced, LOCK_HELD, LOCK_MODE};
use sha2::{Digest, Sha256};
use std::path::Path;

fn strings(list: &[&str]) -> Vec<String> {
    list.iter().map(|s| s.to_string()).collect()
}

#[test]
fn project_name_sanitizes_like_bash() {
    assert_eq!(project_name("/opt/pecan"), "pecan");
    assert_eq!(project_name("/srv/My Mint!"), "my-mint-");
    assert_eq!(project_name("/x/under_score.dot"), "under_score-dot");
}

#[test]
fn installs_with_the_same_basename_do_not_share_volumes() {
    assert_ne!(
        install_project_name("/home/alice/pecan"),
        install_project_name("/home/bob/pecan")
    );
}

#[test]
fn paths_are_compared_by_component() {
    assert!(same("/usr/local/bin", "/usr/local/bin/"));
    assert!(same("/a/./b//c/", "/a/b/c"));
    assert!(!same("./a", "a"));
    assert!(!same("/a", "a"));
    assert!(!same("/a/b/..", "/a"));
    let all = [
        "", "/", "//", ".", "./", "/.", "a", "a/", "./a", "././a", "a/.", "a/./b", "a//b", "a/b/",
        "/a", "//a", "/a/.", "/./a", "..", "../a", "a/..", "/a/b/../c", ".a", "a.", "é/b", "/é//b/",
    ];
    for a in all {
        for b in all {
            assert_eq!(same(a, b), Path::new(a) == Path::new(b), "{:?} {:?}", a, b);
        }
    }
}

#[test]
fn docker_is_asked_in_its_words() {
    assert_eq!(image_inspect_args("a:1"), strings(&["image", "inspect", "a:1"]));
    assert_eq!(docker_version_args(), strings(&["--version"]));
    assert_eq!(docker_info_args(), strings(&["info"]));
    assert_eq!(compose_version_args(), strings(&["compose", "version"]));
    assert_eq!(up_help_args(), strings(&["compose", "up", "--help"]));
    assert_eq!(user_id_args(), strings(&["-u"]));
    assert_eq!(
        mintctl::preflight::security_options_args(),
        strings(&["info", "--format", "{{json .SecurityOptions}}"])
    );
}

#[test]
fn project_names_have_their_edges() {
    assert_eq!(project_name("/"), "pecan");
    assert_eq!(project_name("/srv/--_x"), "x");
    assert_eq!(project_name("/srv/___"), "pecan");
    assert_eq!(project_name("/x/ÄB"), "b");
    assert_eq!(sanitize("a.b c"), "a-b-c");
    assert_eq!(project_with_suffix("pecan", &vec![0xde, 0xad, 0xbe, 0xef, 0x01]), "pecan-deadbeef");
}

#[test]
fn install_project_name_is_suffixed_by_the_path_digest() {
    // The first four bytes of the SHA-256 of the path.
    let digest = Sha256::digest("/opt/pecan".as_bytes());
    let expected = format!(
        "pecan-{:02x}{:02x}{:02x}{:02x}",
        digest[0], digest[1], digest[2], digest[3]
    );
    assert_eq!(install_project_name("/opt/pecan"), expected);
}

#[test]
fn get_returns_last_occurrence_and_raw_value() {
    let env = EnvFile::load("/x/.env", "# comment\nKEY=first\nOTHER=x\nKEY=second=with=equals\n");
    assert_eq!(env.get("KEY").as_deref(), Some("second=with=equals"));
    assert_eq!(env.get("OTHER").as_deref(), Some("x"));
    assert_eq!(env.get("MISSING"), None);
    assert_eq!(env.path(), "/x/.env");
}

#[test]
fn set_dedupes_appends_and_preserves_comments() {
    let mut env = EnvFile::load("/x/.env", "# header\nKEY=old\nOTHER=x\nKEY=older\n");
    env.set("KEY", "new");
    let (raw, _) = env.save(Some(0o644));
    assert_eq!(raw, "# header\nOTHER=x\nKEY=new\n");
}

#[test]
fn save_preserves_restrictive_mode() {
    let mut env = EnvFile::load("/x/.env", "KEY=v\n");
    env.set("KEY", "w");
    let (_, mode) = env.save(Some(0o100600));
    assert_eq!(mode & 0o777, 0o600);
    assert_eq!(mode, 0o600);
    assert_eq!(env.save(None).1, 0o600);
    assert_eq!(env.save(Some(0o640)).1, 0o640);
}

#[test]
fn env_keys_leave_comments_out() {
    let env = EnvFile::load("/x/.env", "# a=b\nKEY=1\nnothing\nOTHER=2=3\n=odd\r\n");
    assert_eq!(env.keys(), strings(&["KEY", "OTHER", ""]));
}

#[test]
fn saved_files_read_back() {
    let mut env = EnvFile::load("/x/.env", "A=1\n# note\nB=2");
    env.set("A", "3");
    let (raw, _) = env.save(None);
    assert_eq!(raw, "# note\nB=2\nA=3\n");
    let again = EnvFile::load("/x/.env", &raw);
    assert_eq!(again.get("A").as_deref(), Some("3"));
    assert_eq!(again.get("B").as_deref(), Some("2"));
    assert_eq!(entry_line("K", "v=w"), "K=v=w");
    assert_eq!(terminate(&strings(&["a", "b"])), "a\nb\n");
    assert_eq!(terminate(&Vec::new()), "");
}

#[test]
fn discovery_prefers_the_variable() {
    assert_eq!(discovery_dir(Some("/a"), Some("/b")), "/a");
    assert_eq!(discovery_dir(None, Some("/b")), "/b");
    assert_eq!(discovery_dir(None, None), ".");
    let stack = Stack::discover("/a", true, Some("/real/a")).ok().expect("there");
    assert_eq!(stack.install_dir, "/real/a");
    assert_eq!(stack.env_path(), "/real/a/.env");
    let missing = Stack::discover("/a", false, None).err().expect("not there");
    assert_eq!(
        missing,
        "no installation found next to this binary (/a). Set MINTCTL_DIR=/path/to/install or run the installer first."
    );
    assert_eq!(
        Stack::discover("/a", true, None).err().expect("unresolved"),
        "resolve install directory"
    );
}

#[test]
fn compose_commands_are_pinned_to_the_installation() {
    let stack = Stack { install_dir: "/srv/p".to_string() };
    let env = EnvFile::load("/srv/p/.env", "VERSION=v1\nCOMPOSE_PROJECT_NAME=original-project\n");
    let command = stack.compose_command(&env, &strings(&["up", "-d"]));
    assert_eq!(command.program, "docker");
    assert_eq!(
        command.args,
        strings(&[
            "compose",
            "-f",
            "/srv/p/docker-compose.yml",
            "--env-file",
            "/srv/p/.env",
            "--project-directory",
            "/srv/p",
            "--project-name",
            "original-project",
            "up",
            "-d",
        ])
    );
    assert_eq!(command.current_dir, "/srv/p");
    assert_eq!(
        command.env_remove,
        strings(&["COMPOSE_PROFILES", "COMPOSE_FILE", "VERSION", "COMPOSE_PROJECT_NAME"])
    );
    let staged = stack.command_with_files("/tmp/s", &env, &strings(&["config"]));
    assert_eq!(staged.args[2], "/tmp/s/docker-compose.yml");
    assert_eq!(staged.args[4], "/tmp/s/.env");
    assert_eq!(staged.args[6], "/srv/p");
    let bare = EnvFile::load("/srv/p/.env", "COMPOSE_PROJECT_NAME=\n");
    assert_eq!(stack.project(&bare), "p");
}

#[test]
fn failed_compose_commands_say_which() {
    let stack = Stack { install_dir: "/srv/p".to_string() };
    let args = strings(&["up", "-d"]);
    assert_eq!(stack.compose(&args, true), Ok(()));
    assert_eq!(stack.compose(&args, false), Err("docker compose up -d failed".to_string()));
    assert_eq!(
        quiet_failure(&args, "one\n\n  \ntwo\n3\n4\n5\n6\n7\n8\n9\n"),
        "docker compose up -d failed:\ntwo\n3\n4\n5\n6\n7\n8\n9"
    );
    assert!(stack.compose_quiet(&args, true, b"out", b"err").is_ok());
    let message = stack.compose_quiet(&args, false, b"out\n", b"err\n").unwrap_err();
    assert!(message.starts_with("docker compose up -d failed:\n"));
    assert!(message.contains("err"));
}

#[test]
fn the_management_command_has_its_place() {
    assert_eq!(cli_link(true, None), Ok("/usr/local/bin/mintctl".to_string()));
    assert_eq!(cli_link(false, Some("/home/a")), Ok("/home/a/.local/bin/mintctl".to_string()));
    assert_eq!(cli_link(false, None), Err("HOME is not set".to_string()));
    assert!(is_root(b"0\n"));
    assert!(!is_root(b"1000\n"));
    assert!(!is_root(b"\xff"));
    assert!(uid_is_root(" 0 "));
}

#[test]
fn health_is_read_from_json() {
    assert_eq!(probe_healthz(br#"{"version":"v1.2.3","ok":true}"#).as_deref(), Some("v1.2.3"));
    assert_eq!(probe_healthz(br#"{"ok":true}"#).as_deref(), Some(""));
    assert_eq!(probe_healthz(br#"{"version":7}"#).as_deref(), Some(""));
    assert_eq!(probe_healthz(b"not json"), None);
    assert_eq!(reported_version(None), None);
    assert_eq!(reported_version(Some(None)).as_deref(), Some(""));
    assert_eq!(reported_version(Some(Some("v2".to_string()))).as_deref(), Some("v2"));
}

#[test]
fn polls_end_with_their_budget() {
    let poll: Poll = wait_healthy(9090, 120);
    assert_eq!(poll.url, "http://127.0.0.1:9090/healthz");
    assert_eq!(health_url(9090), poll.url);
    assert_eq!((poll.timeout_secs, poll.pause_secs), (3, 2));
    assert!(poll.again(119_999));
    assert!(!poll.again(120_000));
    assert!(!wait_http_ok("http://x", 0).again(0));
}

#[test]
fn wait_timeout_is_found_in_the_help() {
    assert!(supports_wait(true, b"--wait --wait-timeout --pull"));
    assert!(!supports_wait(false, b"--wait-timeout"));
    assert!(!supports_wait(true, b"--wait"));
    assert!(help_names_wait("x --wait-timeout"));
}

fn docker(macos: bool, allow_install: bool, answers: &[bool]) -> DockerCheck {
    let mut check = ensure_docker(macos, allow_install);
    for yes in answers {
        check = check.next(*yes);
    }
    check
}

#[test]
fn docker_is_checked_in_order() {
    assert_eq!(docker(false, false, &[true, true, true, true]).step, DockerStep::Ready);
    assert_eq!(docker(false, true, &[false, true]).step, DockerStep::DownloadInstaller);
    assert_eq!(docker(false, true, &[false, true, true, true]).step, DockerStep::FindDaemon);
    let failures = [
        (docker(true, true, &[false]), DockerFailure::MissingOnMac),
        (docker(false, false, &[false]), DockerFailure::Missing),
        (docker(false, true, &[false, false]), DockerFailure::InstallNeedsRoot),
        (docker(false, true, &[false, true, false]), DockerFailure::DownloadFailed),
        (docker(false, true, &[false, true, true, false]), DockerFailure::InstallerFailed),
        (docker(false, false, &[true, false, false]), DockerFailure::NoAccess),
        (docker(false, false, &[true, false, true]), DockerFailure::NotResponding),
        (docker(true, false, &[true, false]), DockerFailure::NotResponding),
        (docker(false, false, &[true, true, false]), DockerFailure::NoComposeV2),
        (docker(false, false, &[true, true, true, false]), DockerFailure::ComposeTooOld),
    ];
    for (check, failure) in failures {
        assert_eq!(check.step, DockerStep::Failed(failure));
        assert_eq!(check.next(true).step, DockerStep::Failed(failure));
        assert!(!failure.message().is_empty());
    }
    assert_eq!(
        DockerFailure::NotResponding.message(),
        "the Docker daemon is not responding. Is it running?"
    );
}

#[test]
fn paths_follow_unix_rules() {
    assert_eq!(join("/a", "b"), "/a/b");
    assert_eq!(join("/a/", "b"), "/a/b");
    assert_eq!(join("/a", "/b"), "/b");
    assert_eq!(join("", "b"), "b");
    assert_eq!(file_name("/srv/My Mint!").as_deref(), Some("My Mint!"));
    assert_eq!(file_name("/srv/x/").as_deref(), Some("x"));
    assert_eq!(file_name("/srv/x/."), Some("x".to_string()));
    assert_eq!(file_name("/.."), None);
    assert_eq!(file_name("/"), None);
    assert!(is_absolute("/x"));
    assert!(!is_absolute("x"));
    assert_eq!(absolutize("x", "/cur"), "/cur/x");
    assert_eq!(absolutize("/x", "/cur"), "/x");
}

#[test]
fn locks_and_writes_say_what_failed() {
    assert_eq!(lock_path("/srv/p"), "/srv/p/.mintctl.lock");
    assert_eq!(lock_refused("/srv/p"), "cannot manage /srv/p as this user");
    assert_eq!(not_replaced("/srv/p/.env"), "replace /srv/p/.env");
    assert!(LOCK_HELD.contains("another mintctl operation"));
    assert_eq!(LOCK_MODE, 0o600);
}

#[test]
fn addresses_are_asked_for_over_ipv4_first() {
    let services = detect_public_ip();
    assert_eq!(services.urls.len(), 4);
    assert_eq!(services.urls[0], "https://ipv4.icanhazip.com");
    assert_eq!(services.urls[3], "https://icanhazip.com");
    assert_eq!(services.timeout_secs, 5);
    let services = detect_public_ipv6();
    assert_eq!(
        services.urls,
        strings(&["https://ipv6.icanhazip.com", "https://api6.ipify.org"])
    );
    assert_eq!(services.timeout_secs, 3);
}

#[test]
fn docker_installer_is_downloaded_to_a_file() {
    assert_eq!(
        download_args("/tmp/get docker").join(" "),
        "-fsSL --retry 3 --connect-timeout 15 --max-time 120 https://get.docker.com -o /tmp/get docker"
    );
}
