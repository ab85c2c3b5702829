use mintctl::args::InstallArgs;
use mintctl::compose::Stack;
use mintctl::envfile::EnvFile;
use mintctl::execution::{closing, execute, opening, pending_hint, Execution, Remains, Step};
use mintctl::install::{
    any_line_begins, artifact_source, check_host_ports, check_mint_tag, check_staged, cli_linked,
    cli_link_failed, cli_not_linked, cli_target, committed_files, default_install_dir,
    dir_not_created, dir_not_writable, domains_to_check, ensure_local_image,
    fetch_deploy_artifacts, guard_fresh_dir, host_ports, install_binary, install_cli_symlink,
    local_image, on_path, plan_from_flags, preflight_platform, prepare_install, pull_args,
    pull_image, resolve_install_dir, run, up_args, validate_mint_config, wait_for_mint_tls, wait_for_tls,
    wait_for_tls_url, warn_on_unconfirmed_dns, write_config, AccessMode, AttachPlan, BinarySource,
    FrontEnd, HostFacts, InstallPlan, MintPlan,
};
use mintctl::preflight::{
    check_rootless_ports, port_status, ports_80_443_busy, rootless_ports_advice, BindOutcome,
    PortStatus,
};
use mintctl::release::ArtifactSource;
use mintctl::settings::{env_body, name_project, write_env};
use mintctl::summary::{
    finish, finish_title, installing, next_steps, print_summary, pulling, ready_to_install,
};

fn list(words: &[&str]) -> Vec<String> {
    words.iter().map(|s| s.to_string()).collect()
}

fn no_flags() -> InstallArgs {
    InstallArgs {
        yes: true,
        console_domain: None,
        email: None,
        dir: None,
        version: None,
        ui_port: 9090,
        bind: None,
        plain_http: false,
        behind_proxy: false,
        grpc_bind: None,
        grpc_port: 50051,
        with_mint: false,
        unit: None,
        mint_domain: None,
        mint_url: None,
        advertised_grpc: None,
        mint_port: None,
        mint_version: None,
        install_docker: false,
        artifact_ref: None,
        artifacts_dir: None,
        no_pull: false,
    }
}

fn host() -> HostFacts {
    HostFacts {
        console_domain_ok: true,
        mint_domain_ok: true,
        public_ip: Some("1.2.3.4".to_string()),
        ui_port: PortStatus::Free,
        grpc_port: PortStatus::Free,
        mint_port: PortStatus::Free,
        web_ports_busy: false,
        admin_password: "pass word".to_string(),
    }
}

fn plan(args: &InstallArgs, facts: &HostFacts) -> Result<InstallPlan, String> {
    plan_from_flags(args, "/opt/pecan".to_string(), "v1".to_string(), facts)
}

fn refusal(args: &InstallArgs, facts: &HostFacts) -> String {
    plan(args, facts).err().expect("refused")
}

fn bundled() -> InstallPlan {
    let mut args = no_flags();
    args.console_domain = Some("console.example.org".to_string());
    args.with_mint = true;
    args.unit = Some("ORA".to_string());
    args.mint_domain = Some("mint.example.org".to_string());
    args.email = Some("me@example.org".to_string());
    plan(&args, &host()).ok().expect("planned")
}

#[test]
fn the_wizard_needs_a_terminal_and_no_yes() {
    let mut args = no_flags();
    assert_eq!(run(&args, true), FrontEnd::Flags);
    args.yes = false;
    assert_eq!(run(&args, true), FrontEnd::Wizard);
    assert_eq!(run(&args, false), FrontEnd::Flags);
}

#[test]
fn plain_plans_are_bound_to_all_interfaces() {
    let p = plan(&no_flags(), &host()).ok().expect("planned");
    assert_eq!(p.access, AccessMode::PlainHttp);
    assert_eq!(p.bind_addr, "0.0.0.0");
    assert_eq!(p.grpc_bind_addr, "127.0.0.1");
    assert_eq!(p.console_url(), "http://1.2.3.4:9090");
    assert_eq!(p.grpc_endpoint(), "127.0.0.1:50051");
    assert_eq!(p.compose_profiles(), "");
    assert!(!p.mint_site_enabled());
    assert!(p.attach.is_none() && p.mint.is_none());
    let mut facts = host();
    facts.public_ip = None;
    let p = plan(&no_flags(), &facts).ok().expect("planned");
    assert_eq!(p.console_url(), "http://<server>:9090");
}

#[test]
fn bundled_plans_are_connected() {
    let p = bundled();
    assert_eq!(p.access, AccessMode::DomainTls);
    assert_eq!(p.bind_addr, "127.0.0.1");
    assert_eq!(p.compose_profiles(), "tls,mint");
    assert!(p.mint_site_enabled());
    assert_eq!(p.console_url(), "https://console.example.org");
    assert_eq!(p.attached_unit(), "ora");
    let attach = p.attach.as_ref().expect("attached");
    assert_eq!(attach.mint_url, "https://mint.example.org");
    assert_eq!(attach.advertised_grpc, "processor:50051");
    let m = p.mint.as_ref().expect("bundled");
    assert_eq!(m.mint_url, attach.mint_url);
    assert_eq!(m.mint_port, 3338);
    assert_eq!(m.mint_bind_addr, "127.0.0.1");
    assert_eq!(m.mintd_version, "0.18.0-rc.0");
    assert_eq!(m.mnemonic.split(' ').count(), 12);
    assert_eq!(domains_to_check(&p), list(&["console.example.org", "mint.example.org"]));
}

#[test]
fn plain_bundled_plans_take_the_public_address() {
    let mut args = no_flags();
    args.with_mint = true;
    args.unit = Some("ora".to_string());
    args.mint_port = Some(4444);
    let p = plan(&args, &host()).ok().expect("planned");
    let m = p.mint.as_ref().expect("bundled");
    assert_eq!(m.mint_url, "http://1.2.3.4:4444");
    assert_eq!(m.mint_domain, "");
    assert_eq!(m.mint_bind_addr, "0.0.0.0");
    assert_eq!(p.compose_profiles(), "mint");
    let mut facts = host();
    facts.public_ip = None;
    assert_eq!(
        refusal(&args, &facts),
        "could not detect this server's public IP for the mint URL — pass --mint-url http://<address>:4444"
    );
    args.mint_url = Some("http://10.0.0.1:1//".to_string());
    let p = plan(&args, &facts).ok().expect("planned");
    assert_eq!(p.mint.expect("bundled").mint_url, "http://10.0.0.1:1");
}

#[test]
fn existing_mints_are_attached_headlessly() {
    let mut args = no_flags();
    args.unit = Some("ora".to_string());
    assert_eq!(
        refusal(&args, &host()),
        "--unit without --with-mint needs --mint-url: the existing mint's public URL"
    );
    args.mint_url = Some("https://mint.example.org/".to_string());
    let p = plan(&args, &host()).ok().expect("planned");
    let attach = p.attach.expect("attached");
    assert_eq!(attach.mint_url, "https://mint.example.org");
    assert_eq!(attach.advertised_grpc, "127.0.0.1:50051");
    args.grpc_bind = Some("0.0.0.0".to_string());
    let p = plan(&args, &host()).ok().expect("planned");
    assert_eq!(p.attach.expect("attached").advertised_grpc, "1.2.3.4:50051");
    assert_eq!(p.grpc_bind_addr, "0.0.0.0");
    let mut facts = host();
    facts.public_ip = None;
    assert_eq!(
        refusal(&args, &facts),
        "could not detect this server's public IP for the advertised gRPC endpoint — pass --advertised-grpc <host:port>"
    );
    args.advertised_grpc = Some("pecan:1".to_string());
    let p = plan(&args, &facts).ok().expect("planned");
    assert_eq!(p.attach.expect("attached").advertised_grpc, "pecan:1");
    args.unit = None;
    assert_eq!(
        refusal(&args, &host()),
        "--mint-url needs --unit: attaching a mint requires both"
    );
}

#[test]
fn flags_are_refused_in_their_order() {
    let mut args = no_flags();
    args.behind_proxy = true;
    assert_eq!(
        refusal(&args, &host()),
        "--behind-proxy needs --console-domain: your proxy's public hostname for the console"
    );
    args.console_domain = Some("BAD".to_string());
    let mut facts = host();
    facts.console_domain_ok = false;
    assert_eq!(
        refusal(&args, &facts),
        "--console-domain BAD is not a valid hostname (lowercase labels, dots, no scheme)"
    );
    args.with_mint = true;
    assert_eq!(
        refusal(&args, &host()),
        "--with-mint needs --unit: the currency unit this install serves"
    );
    args.unit = Some("no spaces".to_string());
    assert!(refusal(&args, &host()).starts_with("the unit may only contain"));
    args.unit = Some("ora".to_string());
    assert_eq!(
        refusal(&args, &host()),
        "--with-mint needs --mint-domain: the mint's public hostname wallets connect to"
    );
    args.mint_domain = Some("BAD".to_string());
    facts = host();
    facts.mint_domain_ok = false;
    assert_eq!(refusal(&args, &facts), "--mint-domain BAD is not a valid hostname");
    assert_eq!(
        refusal(&args, &host()),
        "--mint-domain must differ from --console-domain — they are two sites"
    );
    args.mint_domain = Some("mint.example.org".to_string());
    facts = host();
    facts.ui_port = PortStatus::Busy;
    facts.grpc_port = PortStatus::Busy;
    facts.mint_port = PortStatus::Busy;
    assert_eq!(
        refusal(&args, &facts),
        "port 9090 (for the console) is already in use — pass --ui-port <port>"
    );
    facts.ui_port = PortStatus::Unknown;
    assert_eq!(
        refusal(&args, &facts),
        "port 50051 (for the payment gRPC) is already in use — pass --grpc-port <port>"
    );
    facts.grpc_port = PortStatus::Free;
    assert_eq!(
        refusal(&args, &facts),
        "port 3338 (for the mint) is already in use — pass --mint-port <port>"
    );
    facts.mint_port = PortStatus::Free;
    facts.web_ports_busy = true;
    assert!(plan(&args, &facts).is_ok());
    args.behind_proxy = false;
    assert!(refusal(&args, &facts).starts_with("ports 80/443 are already in use"));
}

#[test]
fn default_paths_support_root_and_unprivileged_users() {
    assert_eq!(default_install_dir(true, None).unwrap(), "/opt/pecan");
    assert_eq!(
        default_install_dir(false, Some("/home/operator")).unwrap(),
        "/home/operator/pecan"
    );
    assert!(default_install_dir(false, None).is_err());
    assert!(default_install_dir(false, Some("relative")).is_err());
}

#[test]
fn install_directories_are_absolute() {
    assert_eq!(
        resolve_install_dir(Some("x"), true, None, "/cur").as_deref(),
        Ok("/cur/x")
    );
    assert_eq!(
        resolve_install_dir(Some("/x"), true, None, "/cur").as_deref(),
        Ok("/x")
    );
    assert_eq!(
        resolve_install_dir(Some(""), true, None, "/cur"),
        Err("--dir cannot be empty".to_string())
    );
    assert_eq!(
        resolve_install_dir(None, false, None, "/cur"),
        Err("HOME is not set; pass --dir".to_string())
    );
    assert_eq!(
        resolve_install_dir(None, false, Some("x"), "/cur"),
        Err("HOME must be an absolute path; pass --dir".to_string())
    );
    assert_eq!(
        resolve_install_dir(None, true, None, "/cur").as_deref(),
        Ok("/opt/pecan")
    );
}

#[test]
fn fresh_install_refuses_existing_credentials_or_mint_material() {
    assert!(guard_fresh_dir("/x", false, true).is_err());
    let error = guard_fresh_dir("/x", true, false).unwrap_err().to_string();
    assert!(error.contains("start"));
    assert_eq!(
        guard_fresh_dir("/x", false, true).unwrap_err(),
        "/x contains mint data from an earlier install; recover it before reinstalling"
    );
    assert_eq!(
        guard_fresh_dir("/x", true, true).unwrap_err(),
        "an installation already exists in /x — use '/x/mintctl start' to resume a failed install, or '/x/mintctl update' to update. Credentials are in .env; a bundled mint's seed is in mint/mnemonic. For a second instance, pass --dir and different ports."
    );
    assert_eq!(guard_fresh_dir("/x", false, false), Ok(()));
    assert_eq!(
        dir_not_created("/x"),
        "cannot create /x — pass --dir somewhere writable by this user"
    );
    assert_eq!(dir_not_writable("/x"), "/x is not writable by this user");
}

#[test]
fn platforms_are_supported_or_not() {
    assert_eq!(preflight_platform("x86_64", "linux"), Ok(None));
    assert!(preflight_platform("aarch64", "macos").unwrap().is_some());
    assert_eq!(
        preflight_platform("arm", "linux"),
        Err("unsupported architecture arm; images are published for amd64 and arm64".to_string())
    );
    assert_eq!(
        preflight_platform("x86_64", "windows"),
        Err("unsupported platform: windows".to_string())
    );
}

#[test]
fn host_ports_are_distinct_and_not_zero() {
    let p = bundled();
    assert_eq!(host_ports(&p), vec![9090, 50051, 3338, 80, 443]);
    assert_eq!(prepare_install(&p).unwrap(), vec![9090, 50051, 3338, 80, 443]);
    assert_eq!(
        check_host_ports(&vec![1, 0, 1]),
        Err("host ports must be between 1 and 65535".to_string())
    );
    assert_eq!(
        check_host_ports(&vec![1, 2, 1]),
        Err("each service needs a distinct host port".to_string())
    );
    assert_eq!(check_host_ports(&vec![1, 2, 3]), Ok(()));
    let mut p = bundled();
    p.ui_port = 443;
    assert_eq!(prepare_install(&p).unwrap_err(), "each service needs a distinct host port");
    p.version = "a b".to_string();
    assert!(prepare_install(&p).unwrap_err().starts_with("invalid image/release tag"));
    assert_eq!(check_mint_tag(&p), Ok(()));
    p.mint.as_mut().expect("bundled").mintd_version = "".to_string();
    assert!(check_mint_tag(&p).is_err());
}

#[test]
fn port_probes_are_judged() {
    assert_eq!(port_status(true, BindOutcome::Refused), PortStatus::Busy);
    assert_eq!(port_status(false, BindOutcome::Bound), PortStatus::Free);
    assert_eq!(port_status(false, BindOutcome::InUse), PortStatus::Busy);
    assert_eq!(port_status(false, BindOutcome::Refused), PortStatus::Unknown);
    assert!(ports_80_443_busy(PortStatus::Unknown, PortStatus::Busy));
    assert!(!ports_80_443_busy(PortStatus::Unknown, PortStatus::Free));
}

#[test]
fn rootless_docker_is_warned_of_privileged_ports() {
    let ports = vec![9090, 443, 80];
    let options: &[u8] = b"[\"name=rootless\"]";
    let warning = check_rootless_ports(&ports, true, Some(options), None).expect("warned");
    assert!(warning.contains("publish port 443."));
    assert!(warning.contains("ports >= 1024,"));
    assert_eq!(check_rootless_ports(&ports, true, Some(options), Some("80\n")), None);
    assert_eq!(check_rootless_ports(&ports, false, Some(options), None), None);
    assert_eq!(check_rootless_ports(&ports, true, None, None), None);
    assert_eq!(check_rootless_ports(&ports, true, Some(b"[]"), None), None);
    assert!(rootless_ports_advice(&vec![80], "rootless", Some("x")).is_some());
}

#[test]
fn artifacts_are_chosen_and_checked() {
    let dir = Some("/src".to_string());
    let git_ref = Some("main".to_string());
    assert!(matches!(artifact_source(&dir, &git_ref, "v1"), ArtifactSource::Dir(d) if d == "/src"));
    assert!(matches!(artifact_source(&None, &git_ref, "v1"), ArtifactSource::Ref(r) if r == "main"));
    assert!(matches!(artifact_source(&None, &None, "v1"), ArtifactSource::Ref(r) if r == "v1"));
    assert_eq!(fetch_deploy_artifacts("name: x\nservices:\n  a:\n"), Ok(()));
    assert_eq!(
        fetch_deploy_artifacts("<html>\n services:\n"),
        Err("downloaded docker-compose.yml looks wrong; aborting".to_string())
    );
    assert!(!any_line_begins("", "x"));
    let remote = ArtifactSource::Ref("v1".to_string());
    assert_eq!(install_binary(&remote, "v1", "v1"), BinarySource::SelfCopy);
    assert_eq!(install_binary(&remote, "v1", "dev"), BinarySource::Download);
    let local = ArtifactSource::Dir("/src".to_string());
    assert_eq!(install_binary(&local, "v1", "dev"), BinarySource::SelfCopy);
    assert_eq!(
        committed_files(),
        list(&[
            "docker-compose.yml",
            "Caddyfile",
            ".env.example",
            "mintctl",
            "mint",
            "proxy-snippets",
            ".env",
        ])
    );
}

#[test]
fn the_written_env_is_the_plan() {
    let p = bundled();
    let body = env_body(&p, "2026-01-02T03:04:05Z", "pecan-00000000");
    assert_eq!(
        body,
        "# Generated by the Pecan installer 2026-01-02T03:04:05Z.\n\
         # Every key is documented in .env.example.\n\
         VERSION=v1\n\
         COMPOSE_PROJECT_NAME=pecan-00000000\n\
         UI_PORT=9090\n\
         BIND_ADDR=127.0.0.1\n\
         COMPOSE_PROFILES=tls,mint\n\
         CONSOLE_DOMAIN=console.example.org\n\
         GRPC_BIND_ADDR=127.0.0.1\n\
         GRPC_PORT=50051\n\
         # First boot only; inert once users.json exists. Kept as a recovery path in\n\
         # case the printed password is lost before the operator changes it.\n\
         INITIAL_ADMIN_PASSWORD=pass word\n\
         ACME_EMAIL=me@example.org\n\
         # First boot only; inert once setup.json exists. Later changes happen in\n\
         # the console's Mint tab.\n\
         INITIAL_UNIT=ora\n\
         INITIAL_MINT_URL=https://mint.example.org\n\
         INITIAL_ADVERTISED_GRPC=processor:50051\n\
         # The bundled mint. MINT_VERSION moves independently of VERSION:\n\
         # 'mintctl update' never touches it (the mint holds money);\n\
         # upgrade deliberately with 'mintctl update --mint-version <tag>'.\n\
         MINT_VERSION=0.18.0-rc.0\n\
         MINT_PORT=3338\n\
         MINT_BIND_ADDR=127.0.0.1\n\
         MINT_DOMAIN=mint.example.org\n"
    );
    let env = EnvFile::load("/x/.env", &body);
    assert_eq!(env.get("VERSION").as_deref(), Some("v1"));
    assert_eq!(env.get("MINT_VERSION").as_deref(), Some("0.18.0-rc.0"));
    assert_eq!(env.get("PORT"), None);
}

#[test]
fn the_env_is_stamped_and_renamed_to_its_directory() {
    let p = bundled();
    let file = write_env(&p, "/opt/pecan/.tmpabc", 1_767_323_045);
    assert_eq!(file.path, "/opt/pecan/.tmpabc/.env");
    assert_eq!(file.mode, 0o600);
    assert!(file
        .contents
        .starts_with("# Generated by the Pecan installer 2026-01-02T03:04:05Z.\n"));
    let staged = EnvFile::load(&file.path, &file.contents);
    let before = staged.get("COMPOSE_PROJECT_NAME").expect("named");
    let (body, mode) = name_project(staged, "/opt/pecan", Some(0o100600));
    assert_eq!(mode, 0o600);
    let env = EnvFile::load(&file.path, &body);
    let after = env.get("COMPOSE_PROJECT_NAME").expect("named");
    assert_ne!(before, after);
    assert_eq!(after, mintctl::compose::install_project_name("/opt/pecan"));
    assert_eq!(env.get("INITIAL_ADMIN_PASSWORD").as_deref(), Some("pass word"));
}

#[test]
fn an_unwritable_time_leaves_the_stamp_empty() {
    let file = write_env(&bundled(), "/x", i64::MAX);
    assert!(file.contents.starts_with("# Generated by the Pecan installer .\n"));
}

#[test]
fn configuration_is_written_once() {
    let p = bundled();
    let writes = write_config(&p, "/s", 0, false).ok().expect("written");
    assert_eq!(writes.env.path, "/s/.env");
    assert_eq!(writes.mint.expect("mint").seed.path, "/s/mint/mnemonic");
    assert_eq!(writes.acme_email, "me@example.org");
    assert!(writes.mint_site);
    assert!(!writes.proxy_snippets);
    assert!(write_config(&p, "/s", 0, true).is_err());
    let mut p = bundled();
    p.mint = None;
    p.access = AccessMode::BehindProxy;
    let writes = write_config(&p, "/s", 0, true).ok().expect("written");
    assert!(writes.mint.is_none() && writes.proxy_snippets && !writes.mint_site);
}

#[test]
fn images_and_services_have_their_commands() {
    assert_eq!(local_image("v1"), "ghcr.io/zeugmaster/pecan:v1");
    assert_eq!(ensure_local_image("v1", true), Ok(()));
    assert_eq!(
        ensure_local_image("v1", false).unwrap_err(),
        "--no-pull was given, but ghcr.io/zeugmaster/pecan:v1 is not in the local docker daemon. Build and tag it first:\n  docker compose build processor\n  docker tag pecan:dev ghcr.io/zeugmaster/pecan:v1\n(or drop --no-pull to pull a published tag)"
    );
    assert_eq!(pull_args(), list(&["pull", "--quiet"]));
    assert_eq!(pull_image(true), Ok(()));
    assert_eq!(
        pull_image(false).unwrap_err(),
        "image pull failed. If this is a brand-new setup, check that the GHCR package ghcr.io/zeugmaster/pecan exists and is public."
    );
    assert_eq!(validate_mint_config().join(" "), "run --rm --no-deps mintd cdk-mintd --work-dir /data config validate --file /config/mint.toml");
    assert_eq!(up_args().join(" "), "up -d --pull never --wait --wait-timeout 120");
    let stack = Stack { install_dir: "/opt/pecan".to_string() };
    let env = EnvFile::load("/s/.env", "COMPOSE_PROJECT_NAME=p\n");
    let command = check_staged(&stack, "/s", &env);
    assert_eq!(command.args.last().map(|s| s.as_str()), Some("--quiet"));
    assert_eq!(command.args[2], "/s/docker-compose.yml");
}

#[test]
fn the_management_command_is_linked_without_replacing() {
    assert!(install_cli_symlink("/opt/pecan/mintctl", None));
    assert!(!install_cli_symlink("/opt/pecan/mintctl", Some("/opt/pecan/mintctl")));
    assert!(install_cli_symlink("/opt/pecan/mintctl", Some("/other/mintctl")));
    assert_eq!(cli_target("/opt/pecan"), "/opt/pecan/mintctl");
    assert_eq!(cli_link_failed("/l"), "cannot create /l (an existing command is kept)");
    assert_eq!(cli_linked("/l", true), list(&["installed the management CLI as /l"]));
    assert_eq!(cli_linked("/l", false).len(), 2);
    assert_eq!(cli_not_linked("e", "/opt/pecan"), "e; use /opt/pecan/mintctl directly");
    assert!(on_path(&list(&["/a", "/b"]), "/b"));
    assert!(!on_path(&list(&["/a", "/b"]), "/c"));
    assert!(!install_cli_symlink("/opt/pecan/mintctl", Some("/opt//pecan/./mintctl")));
    assert!(on_path(&list(&["/usr/bin", "/usr/local/bin/"]), "/usr/local/bin"));
}

#[test]
fn certificates_are_waited_for() {
    let poll = wait_for_tls("console.example.org", 180);
    assert_eq!(poll.url, "https://console.example.org/healthz");
    assert_eq!((poll.timeout_secs, poll.pause_secs, poll.budget_secs), (5, 3, 180));
    assert_eq!(wait_for_tls_url("https://x/v1/info", 1).url, "https://x/v1/info");
    assert_eq!(warn_on_unconfirmed_dns("x", Some(true), None), Vec::<String>::new());
    assert_eq!(
        warn_on_unconfirmed_dns("x", None, Some("aaaa".to_string())),
        list(&[
            "DNS for x does not resolve to this server yet — certificates will be retried in the background once the record is right",
            "aaaa",
        ])
    );
    assert_eq!(warn_on_unconfirmed_dns("x", Some(false), None).len(), 1);
    assert_eq!(domains_to_check(&plan(&no_flags(), &host()).ok().expect("planned")), Vec::<String>::new());
}

#[test]
fn next_steps_depend_on_the_shape() {
    let steps = next_steps(&bundled());
    assert_eq!(steps.len(), 4);
    assert_eq!(steps[3], "4. Wallets connect to https://mint.example.org.");
    let p = plan(&no_flags(), &host()).ok().expect("planned");
    assert!(next_steps(&p)[1].ends_with("its gRPC target is 127.0.0.1:50051.)"));
    let mut args = no_flags();
    args.unit = Some("ora".to_string());
    args.mint_url = Some("https://m".to_string());
    args.advertised_grpc = Some("far:1".to_string());
    let p = plan(&args, &host()).ok().expect("planned");
    assert!(next_steps(&p)[0].contains("already set"));
    assert!(next_steps(&p)[1].ends_with("its gRPC target is far:1.)"));
}

#[test]
fn the_summary_shows_seed_and_password() {
    let p = bundled();
    let seed = p.mint.as_ref().expect("bundled").mnemonic.clone();
    let lines = print_summary(&p);
    assert_eq!(lines[2], " Pecan branch processor v1 + mint is running");
    assert_eq!(lines[5], "  Operator console:  https://console.example.org");
    assert!(lines.contains(&format!("      {}", seed)));
    assert!(lines.contains(&"  Sign in:           admin / pass word".to_string()));
    assert!(lines.contains(&"  (also stored in /opt/pecan/mint/mnemonic; included in mintctl backup)".to_string()));
    assert_eq!(lines.last().map(|s| s.as_str()), Some("============================================================"));
    let mut args = no_flags();
    args.grpc_bind = Some("0.0.0.0".to_string());
    let lines = print_summary(&plan(&args, &host()).ok().expect("planned"));
    assert!(lines.contains(&"  internet. Firewall: allow 9090.".to_string()));
    assert!(lines.contains(&"  The payment gRPC (0.0.0.0:50051) is published on all interfaces and".to_string()));
    args.behind_proxy = true;
    args.console_domain = Some("c.example.org".to_string());
    let lines = print_summary(&plan(&args, &host()).ok().expect("planned"));
    assert!(lines.contains(&"  Proxy c.example.org to 127.0.0.1:9090.".to_string()));
}

#[test]
fn the_notes_of_the_wizard_are_whole() {
    let mut p = bundled();
    p.mint.as_mut().expect("bundled").mnemonic = "a b c".to_string();
    assert_eq!(
        ready_to_install(&p),
        "Console        https://console.example.org — automatic HTTPS\nMint           https://mint.example.org — unit \"ora\" (wallets connect here)\nMint image     cashubtc/mintd:0.18.0-rc.0\nPayment link   internal (processor:50051 on the compose network)\nDirectory      /opt/pecan\nVersion        v1\n\nA new mint seed (12 words) will be generated and shown once."
    );
    assert!(finish(&p).contains("mint cannot be recovered.\n\n    a b c\n\n(also stored in /opt/pecan/mint/mnemonic"));
    assert!(finish(&p).ends_with("\n  4. Wallets connect to https://mint.example.org."));
    assert_eq!(finish_title(&p), "Branch processor v1 + mint is running");
    p.access = AccessMode::BehindProxy;
    assert!(finish(&p).ends_with("(console and mint):\n  /opt/pecan/proxy-snippets/  (Caddy and nginx)"));
    let q = plan(&no_flags(), &host()).ok().expect("planned");
    assert!(ready_to_install(&q).starts_with("Console        http://1.2.3.4:9090 — plain HTTP (LAN/testing)\nPayment gRPC   127.0.0.1:50051"));
    assert_eq!(installing(&p), "Installing the branch processor v1 + mint into /opt/pecan");
    assert_eq!(pulling(&q), "Pulling the images (v1) ...");
}

fn go(plan: &InstallPlan, guided: bool, answers: &[bool]) -> Execution {
    let mut e = execute(plan, guided);
    for yes in answers {
        e = e.next(*yes);
    }
    e
}

fn walk(plan: &InstallPlan, guided: bool) -> Vec<Step> {
    let mut e = execute(plan, guided);
    let mut steps = vec![e.step];
    while e.step != Step::Done {
        e = e.next(true);
        steps.push(e.step);
    }
    steps
}

#[test]
fn an_installation_goes_through_its_steps() {
    let steps = walk(&bundled(), true);
    let place = |step: Step| steps.iter().position(|s| *s == step).expect("passed");
    assert!(place(Step::TakeLock) < place(Step::NoEnv { under_lock: true }));
    assert!(place(Step::CheckMintTag) < place(Step::MakeStaging));
    assert!(place(Step::CheckConfig) < place(Step::MoveFile { place: 0 }));
    assert!(place(Step::MoveFile { place: 5 }) < place(Step::MoveFile { place: 6 }));
    assert!(place(Step::ValidateMint) < place(Step::StartStack));
    assert!(place(Step::AwaitConsole) < place(Step::AwaitMint));
    assert!(!steps.contains(&Step::WarnDns));
    let headless = walk(&plan(&no_flags(), &host()).ok().expect("planned"), false);
    assert!(headless.contains(&Step::WarnDns));
    assert!(!headless.contains(&Step::CheckMintTag) && !headless.contains(&Step::AwaitConsole));
}

#[test]
fn failures_tell_what_remains() {
    let mut p = bundled();
    p.no_pull = true;
    assert_eq!(go(&p, false, &[false]).step, Step::Failed(Remains::Nothing));
    p.no_pull = false;
    assert_eq!(go(&p, false, &[false]).step, Step::Failed(Remains::Nothing));
    let steps = walk(&p, false);
    for (i, step) in steps.iter().enumerate() {
        let mut answers = vec![true; i];
        answers.push(false);
        let end = go(&p, false, &answers).step;
        match step {
            Step::MoveFile { .. } => assert_eq!(end, Step::Failed(Remains::Files)),
            Step::PullImages | Step::ValidateMint | Step::StartStack => {
                assert_eq!(end, Step::Failed(Remains::Configuration))
            }
            Step::WarnDns | Step::LinkCli => assert_eq!(end, steps[i + 1]),
            Step::Done => assert_eq!(end, Step::Done),
            _ => assert_eq!(end, Step::Failed(Remains::Nothing)),
        }
    }
}

#[test]
fn progress_is_told() {
    let p = bundled();
    assert_eq!(
        opening(&p, Step::NoEnv { under_lock: true }).as_deref(),
        Some("Fetching the v1 deployment artifacts ...")
    );
    assert_eq!(opening(&p, Step::PullImages).as_deref(), Some("Pulling the container images (v1) ..."));
    assert_eq!(opening(&p, Step::NoEnv { under_lock: false }), None);
    assert_eq!(closing(&p, Step::PullImages, true).as_deref(), Some("Images pulled."));
    assert_eq!(closing(&p, Step::StartStack, false).as_deref(), Some("The stack did not start"));
    assert_eq!(
        closing(&p, Step::AwaitMint, true).as_deref(),
        Some("HTTPS is live at https://mint.example.org")
    );
    assert!(pending_hint(&p).ends_with("/opt/pecan/mintctl logs caddy"));
}

#[test]
fn plans_can_be_written_by_hand() {
    let p = InstallPlan {
        install_dir: "/d".to_string(),
        version: "v".to_string(),
        no_pull: false,
        access: AccessMode::PlainHttp,
        console_domain: String::new(),
        acme_email: String::new(),
        ui_port: 1,
        bind_addr: String::new(),
        grpc_bind_addr: "127.0.0.1".to_string(),
        grpc_port: 2,
        public_ip: None,
        admin_password: String::new(),
        attach: Some(AttachPlan {
            unit: "u".to_string(),
            mint_url: "m".to_string(),
            advertised_grpc: "g".to_string(),
        }),
        mint: Some(MintPlan {
            mint_domain: String::new(),
            mint_url: "m".to_string(),
            mint_port: 3,
            mint_bind_addr: String::new(),
            mintd_version: "t".to_string(),
            mnemonic: "s".to_string(),
        }),
    };
    assert!(!p.mint_site_enabled());
    assert_eq!(host_ports(&p), vec![1, 2, 3]);
}

#[test]
fn mint_certificates_are_awaited_at_its_own_address() {
    let poll = wait_for_mint_tls("mint.example.org", 180);
    assert_eq!(poll.url, "https://mint.example.org/v1/info");
    assert_eq!((poll.timeout_secs, poll.pause_secs, poll.budget_secs), (5, 3, 180));
}
