use mintctl::activation::{run, UpdateEnd, UpdateRun, UpdateStep};
use mintctl::args::UpdateArgs;
use mintctl::backup::{
    backup, backup_args, backup_not_saved, backup_path, backup_to, backup_unlocked,
    check_backup_target,
    listed_services, ps_args, running_services, service_args, snapshot_error, stamped_backup,
    Backup, BackupEnd, BackupStep,
};
use mintctl::envfile::EnvFile;
use mintctl::ops::{
    bin_links, get_port, has_profile, logs, purge_prompt, purge_warning, remove_bin_link, start,
    status, status_health_url, status_mint_poll, stop, take_down_args, uninstall, uninstalled,
    version, Uninstall, UninstallStep,
};
use mintctl::restore::{
    archive_has_mint, check_archive, check_shape, create_volume_args, down_args, extract_args,
    listing_args, members_have_mint, mint_file_missing, mint_files, notice, restore, restore_args,
    restored_mint_dir, restored_mint_file,
    unreadable, volume_not_created, volumes, Restore, RestoreEnd, RestoreStep,
};
use mintctl::storage::{held, HeldStep};
use mintctl::update::{
    caddy_settings, config_args, files, image_unavailable, images_args, installed_release, kept_in,
    named_images, needs_latest, not_healthy, plan_update, preview, pull_args,
    recovery_file, select_target, services, set_pins, stage_action, staged_compose,
    tested_mint_tag, up_args, StageAction, UpdatePlan, MANAGED_MINT, NO_MINT_PIN, NO_TESTED_MINT,
};

fn list(words: &[&str]) -> Vec<String> {
    words.iter().map(|s| s.to_string()).collect()
}

fn installed(bundled: bool) -> EnvFile {
    let raw = format!(
        "VERSION=v1\nCOMPOSE_PROJECT_NAME=original-project\n# keep operator settings\nCUSTOM=value\nCOMPOSE_PROFILES={}\n{}",
        if bundled { "mint" } else { "" },
        if bundled { "MINT_VERSION=mint-old\n" } else { "" }
    );
    EnvFile::load("/srv/pecan/.env", &raw)
}

fn flags(version: Option<&str>, mint_version: Option<&str>, with_mint: bool) -> UpdateArgs {
    UpdateArgs {
        version: version.map(|v| v.to_string()),
        mint_version: mint_version.map(|v| v.to_string()),
        with_mint,
        check: false,
        yes: true,
        artifact_ref: None,
        artifacts_dir: None,
        no_pull: false,
    }
}

const EXAMPLE: &str = "#MINT_VERSION=mint-tested\n";

fn planned(args: &UpdateArgs, env: &EnvFile) -> Result<UpdatePlan, String> {
    let current = installed_release(args, env)?;
    let target = select_target(args, &current, None)?;
    plan_update(args, env, &current, &target, EXAMPLE)
}

fn updated(plan: &UpdatePlan, bundled: bool) -> String {
    let mut env = installed(bundled);
    set_pins(&mut env, plan);
    env.save(Some(0o600)).0
}

fn take(check: bool, no_pull: bool, with_mint: bool, answers: &[bool]) -> UpdateRun {
    let mut r = run(check, no_pull, with_mint);
    for yes in answers {
        r = r.next(*yes);
    }
    r
}

/// Every step with this answer to it, and yes to the others.
fn steps(check: bool, no_pull: bool, with_mint: bool, no_at: Option<UpdateStep>) -> Vec<UpdateStep> {
    let mut r = run(check, no_pull, with_mint);
    let mut seen = vec![r.step];
    while !matches!(r.step, UpdateStep::End(_)) {
        r = r.next(Some(r.step) != no_at);
        seen.push(r.step);
    }
    seen
}

#[test]
fn preview_shows_the_tested_mint_and_takes_no_lock() {
    let plan = planned(&flags(Some("v2"), None, true), &installed(true)).ok().expect("planned");
    assert_eq!(
        preview(&plan),
        list(&["Console: v1 → v2", "Mint:    mint-old → mint-tested"])
    );
    let seen = steps(true, false, true, None);
    assert_eq!(seen.last(), Some(&UpdateStep::End(UpdateEnd::Previewed)));
    assert!(!seen.contains(&UpdateStep::TakeLock) && !seen.contains(&UpdateStep::Confirm));
}

#[test]
fn failed_pull_never_reaches_the_backup() {
    let seen = steps(false, false, false, Some(UpdateStep::PullImages));
    assert_eq!(seen.last(), Some(&UpdateStep::End(UpdateEnd::Failed)));
    assert!(!seen.contains(&UpdateStep::MakeRecovery));
    assert!(!seen.contains(&UpdateStep::TakeBackup) && !seen.contains(&UpdateStep::Activate));
}

#[test]
fn missing_artifact_ends_the_update() {
    let seen = steps(false, false, false, Some(UpdateStep::FetchCaddyfile));
    assert_eq!(seen.last(), Some(&UpdateStep::End(UpdateEnd::Failed)));
    assert!(!seen.contains(&UpdateStep::Confirm));
}

#[test]
fn mint_only_update_keeps_the_console_release() {
    let args = flags(None, Some("mint-new"), false);
    assert!(!needs_latest(&args));
    let plan = planned(&args, &installed(true)).ok().expect("planned");
    assert!(!plan.console_changed && plan.mint_changed);
    let raw = updated(&plan, true);
    assert!(raw.contains("VERSION=v1\n"));
    assert!(raw.contains("MINT_VERSION=mint-new\n"));
    let next = EnvFile::load("/s/.env", &raw);
    let names = services(&plan, &next);
    assert_eq!(names, list(&["mintd"]));
    assert_eq!(up_args(&names).last().map(|s| s.as_str()), Some("mintd"));
    assert_eq!(preview(&plan)[0], "Console: v1 → v1 (unchanged)");
}

#[test]
fn console_update_keeps_the_mint_pin_and_other_lines() {
    let plan = planned(&flags(Some("v2"), None, false), &installed(true)).ok().expect("planned");
    let raw = updated(&plan, true);
    assert!(raw.contains("VERSION=v2\n"));
    assert!(raw.contains("MINT_VERSION=mint-old\n"));
    assert!(raw.contains("# keep operator settings\nCUSTOM=value\n"));
    let names = services(&plan, &EnvFile::load("/s/.env", &raw));
    assert_eq!(names, list(&["processor"]));
    let up = up_args(&names);
    assert!(up.contains(&"--force-recreate".to_string()) && up.contains(&"--wait".to_string()));
    assert!(!up.contains(&"--remove-orphans".to_string()));
}

#[test]
fn backup_failure_does_not_switch_versions() {
    let seen = steps(false, false, false, Some(UpdateStep::TakeBackup));
    assert_eq!(seen.last(), Some(&UpdateStep::End(UpdateEnd::Failed)));
    assert!(!seen.contains(&UpdateStep::CommitFile { place: 0 }));
}

#[test]
fn startup_failure_keeps_target_pins() {
    let seen = steps(false, false, true, Some(UpdateStep::Activate));
    assert_eq!(seen.last(), Some(&UpdateStep::End(UpdateEnd::NotHealthy)));
    assert!(seen.contains(&UpdateStep::CommitFile { place: 4 }));
    assert!(!seen.contains(&UpdateStep::RollBackFile { place: 0 }));
    let plan = planned(&flags(Some("v2"), None, true), &installed(true)).ok().expect("planned");
    let raw = updated(&plan, true);
    assert!(raw.contains("VERSION=v2\n") && raw.contains("MINT_VERSION=mint-tested\n"));
    assert!(not_healthy("/r").contains("recovery instructions: /r. No database downgrade was attempted"));
}

#[test]
fn failed_commit_is_rolled_back() {
    let seen = steps(false, false, false, Some(UpdateStep::CommitFile { place: 3 }));
    assert_eq!(seen.last(), Some(&UpdateStep::End(UpdateEnd::RolledBack)));
    assert!(seen.contains(&UpdateStep::RollBackFile { place: 4 }));
    assert!(!seen.contains(&UpdateStep::Activate));
    let mut r = run(false, false, false);
    while r.step != (UpdateStep::CommitFile { place: 0 }) {
        r = r.next(true);
    }
    assert_eq!(r.next(false).next(false).step, UpdateStep::End(UpdateEnd::NotRolledBack));
}

#[test]
fn refuses_legacy_managed_mints_and_external_mint_updates() {
    let args = flags(None, Some("mint-new"), false);
    assert!(installed_release(&args, &installed(false)).is_err());
    let legacy = EnvFile::load("/x/.env", "VERSION=v1\nMINT_MODE=managed\n");
    let args = flags(Some("v2"), None, false);
    assert_eq!(installed_release(&args, &legacy), Err(MANAGED_MINT.to_string()));
    let unpinned = EnvFile::load("/x/.env", "VERSION=\n");
    assert_eq!(
        installed_release(&args, &unpinned),
        Err("installation has no VERSION pin".to_string())
    );
}

#[test]
fn invalid_tags_cannot_inject_compose_configuration() {
    let args = flags(None, Some("tag\nVERSION=unexpected"), false);
    assert!(planned(&args, &installed(true)).is_err());
    let args = flags(Some("v2 x"), None, false);
    assert!(planned(&args, &installed(true)).is_err());
}

#[test]
fn no_pull_checks_local_images() {
    let seen = steps(false, true, false, None);
    assert!(!seen.contains(&UpdateStep::PullImages));
    assert!(seen.contains(&UpdateStep::FindImages));
    assert_eq!(seen.last(), Some(&UpdateStep::End(UpdateEnd::Updated)));
    assert_eq!(images_args(&list(&["processor"])).join(" "), "config --images processor");
    assert_eq!(named_images(b"a:1\nb:2\n"), Some(list(&["a:1", "b:2"])));
    assert_eq!(named_images(b"\xff"), None);
    assert_eq!(image_unavailable("a:1"), "--no-pull: target image a:1 is not available locally");
    assert_eq!(pull_args(&list(&["processor", "mintd"])).join(" "), "pull --quiet processor mintd");
}

#[test]
fn invalid_configuration_never_reaches_backup_or_activation() {
    let seen = steps(false, false, false, Some(UpdateStep::CheckConfig));
    assert_eq!(seen.last(), Some(&UpdateStep::End(UpdateEnd::Failed)));
    assert!(!seen.contains(&UpdateStep::MakeRecovery));
    let args = list(&["config", "--quiet"]);
    assert_eq!(staged_compose(&args, true), Ok(()));
    assert_eq!(
        staged_compose(&args, false),
        Err("docker compose config --quiet failed; live deployment is unchanged".to_string())
    );
}

#[test]
fn with_mint_recreates_the_mint_even_when_its_pin_is_unchanged() {
    let env = EnvFile::load(
        "/x/.env",
        "VERSION=v1\nCOMPOSE_PROFILES=tls, mint\nMINT_VERSION=mint-tested\nMINT_DOMAIN=m.example.org\nACME_EMAIL=a@b\n",
    );
    let plan = planned(&flags(Some("v2"), None, true), &env).ok().expect("planned");
    assert!(!plan.mint_changed);
    assert_eq!(services(&plan, &env), list(&["processor", "mintd", "caddy"]));
    assert_eq!(caddy_settings(&env, true), ("a@b".to_string(), true));
    assert_eq!(caddy_settings(&env, false).1, false);
}

#[test]
fn nothing_changes_without_a_change() {
    let plan = planned(&flags(Some("v1"), None, false), &installed(true)).ok().expect("planned");
    assert!(!plan.console_changed && !plan.mint_changed);
    // lock, installation, target, console changes: no, staging, mint, mint changes: no, preview
    let r = take(false, false, false, &[true, true, true, false, true, true, false, true]);
    assert_eq!(r.step, UpdateStep::End(UpdateEnd::Previewed));
    let r = take(false, false, false, &[true, true, true, true, true, true, true, true, true, true, false, true, false]);
    assert_eq!(r.step, UpdateStep::End(UpdateEnd::Cancelled));
}

#[test]
fn the_tested_mint_is_the_first_one_named() {
    assert_eq!(tested_mint_tag("A=1\n##MINT_VERSION=t1\nMINT_VERSION=t2\n").as_deref(), Ok("t1"));
    assert_eq!(tested_mint_tag("#MINT_VERSION=\nMINT_VERSION=t2\n"), Err(NO_TESTED_MINT.to_string()));
    assert_eq!(tested_mint_tag(" MINT_VERSION=t2\n"), Err(NO_TESTED_MINT.to_string()));
    assert!(tested_mint_tag("MINT_VERSION=a b\n").unwrap_err().contains("\"a b\""));
    let unpinned = EnvFile::load("/x/.env", "VERSION=v1\nCOMPOSE_PROFILES=mint\n");
    assert_eq!(
        planned(&flags(Some("v2"), None, false), &unpinned).err().expect("refused"),
        NO_MINT_PIN
    );
    assert_eq!(
        select_target(&flags(None, None, false), "v1", Some("v9")).as_deref(),
        Ok("v9")
    );
    assert_eq!(
        select_target(&flags(None, None, false), "v1", None),
        Err("pass --version vX.Y.Z to select a release explicitly".to_string())
    );
}

#[test]
fn files_are_staged_by_what_changes() {
    assert_eq!(files(), list(&["docker-compose.yml", "Caddyfile", ".env.example", "mintctl", ".env"]));
    assert_eq!(stage_action("mintctl", true, true), StageAction::PlaceBinary);
    assert_eq!(stage_action("mintctl", false, true), StageAction::CopyLive);
    assert_eq!(stage_action(".env", true, true), StageAction::CopyLive);
    assert_eq!(stage_action("Caddyfile", true, true), StageAction::Leave);
    assert_eq!(stage_action("Caddyfile", false, false), StageAction::Leave);
}

#[test]
fn recovery_is_explained() {
    let plan = planned(&flags(Some("v2"), None, false), &installed(false)).ok().expect("planned");
    let file = recovery_file(&plan, "/r");
    assert_eq!(file.path, "/r/RECOVERY.txt");
    assert_eq!(file.mode, 0o600);
    assert!(file.contents.starts_with(
        "Before update: console v1, mint external.\nTarget: console v2, mint external.\n\nIf startup fails"
    ));
    assert!(file.contents.ends_with("4. Run mintctl status and verify the console's Mint tab.\n"));
    assert_eq!(kept_in("/r"), "Backup and previous deployment: /r");
}

#[test]
fn profiles_are_split_and_trimmed() {
    let env = EnvFile::load("/x/.env", "COMPOSE_PROFILES= tls ,mint\n");
    assert!(has_profile(&env, "tls") && has_profile(&env, "mint"));
    assert!(!has_profile(&env, "min"));
    assert!(!has_profile(&EnvFile::load("/x/.env", ""), "mint"));
    assert!(has_profile(&EnvFile::load("/x/.env", ""), ""));
    let env = EnvFile::load("/x/.env", "UI_PORT=80\nMINT_PORT=x\n");
    assert_eq!(get_port(&env, "UI_PORT", 9090), 80);
    assert_eq!(get_port(&env, "MINT_PORT", 3338), 3338);
    assert_eq!(get_port(&env, "GRPC_PORT", 1), 1);
}

#[test]
fn status_tells_what_runs() {
    let env = installed(true);
    assert_eq!(status_health_url(&env), "http://127.0.0.1:9090/healthz");
    let poll = status_mint_poll(&env).expect("bundled");
    assert_eq!(poll.url, "http://127.0.0.1:3338/v1/info");
    assert_eq!(poll.budget_secs, 3);
    assert!(status_mint_poll(&installed(false)).is_none());
    assert_eq!(
        status(&env, Some("v1"), true, Some("v2")),
        list(&[
            "",
            "console: ok (version v1)",
            "mint:    ok (cashubtc/mintd:mint-old)",
            "installed version: v1",
            "latest release:    v2  → run 'mintctl update'",
        ])
    );
    assert_eq!(
        status(&env, None, false, Some("v1")),
        list(&[
            "",
            "console: not responding on 127.0.0.1:9090",
            "mint:    not responding on 127.0.0.1:3338 (cashubtc/mintd:mint-old)",
            "installed version: v1",
            "latest release:    v1 (up to date)",
        ])
    );
    let bare = EnvFile::load("/x/.env", "");
    assert_eq!(status(&bare, None, false, None).last().map(|s| s.as_str()), Some("installed version: unknown"));
    assert_eq!(version(&bare, None), ("installed: unknown".to_string(), None));
    assert_eq!(
        version(&env, Some("v3")),
        ("installed: v1".to_string(), Some("latest release: v3".to_string()))
    );
}

#[test]
fn simple_commands_have_their_arguments() {
    assert_eq!(logs(&list(&["caddy"])).join(" "), "logs -f --tail=200 caddy");
    assert_eq!(start().join(" "), "up -d --wait --wait-timeout 120");
    assert_eq!(stop(), list(&["stop"]));
    assert_eq!(down_args().join(" "), "down --remove-orphans");
    assert_eq!(mintctl::restore::up_args().join(" "), "up -d --remove-orphans");
    assert_eq!(mintctl::domain::up_args().join(" "), "up -d --remove-orphans");
    assert_eq!(mintctl::ops::ps_args(), list(&["ps"]));
    assert_eq!(mintctl::ops::images_args(), list(&["images"]));
    assert_eq!(config_args().join(" "), "config --quiet");
    assert_eq!(mintctl::backup::pull_helper_args().join(" "), "pull debian:bookworm-slim");
}

#[test]
fn backups_have_a_place() {
    assert_eq!(backup_path(Some("b.tar.gz"), 0, "/cur").as_deref(), Some("/cur/b.tar.gz"));
    assert_eq!(
        backup_path(None, 1_767_323_045, "/cur").as_deref(),
        Some("/cur/pecan-backup-20260102-030405.tar.gz")
    );
    assert_eq!(backup_path(None, i64::MAX, "/cur"), None);
    assert_eq!(stamped_backup("x", "/cur"), "/cur/pecan-backup-x.tar.gz");
    assert_eq!(check_backup_target("/b", false), Ok(()));
    assert_eq!(
        check_backup_target("/b", true),
        Err("backup already exists: /b; choose another filename".to_string())
    );
    assert!(backup("/b", true)[3].contains("SEED"));
    assert!(backup("/b", false)[4].contains("NOT included"));
    assert_eq!(backup("/b", false)[1], "Backup written to /b");
    assert_eq!(backup_not_saved("/b"), "save backup /b (existing archives are never replaced)");
}

#[test]
fn backups_restart_what_was_running() {
    assert_eq!(running_services(b"processor\nmintd\n\n"), Some(list(&["processor", "mintd"])));
    assert_eq!(running_services(b"\xff"), None);
    let running = listed_services("processor\n\nmintd");
    assert_eq!(service_args("stop", &running).join(" "), "stop processor mintd");
    assert_eq!(service_args("start", &running).join(" "), "start processor mintd");
    assert_eq!(ps_args().join(" "), "ps --services --filter status=running");
    assert_eq!(snapshot_error("a", None), "a");
    assert_eq!(
        snapshot_error("a", Some("b")),
        "services also failed to restart: b; run mintctl start: a"
    );
}

#[test]
fn backup_containers_mount_read_only() {
    assert_eq!(
        backup_args("p", "/d", false).join(" "),
        "run --rm --network none -v p_config-data:/backup/config:ro -v p_processor-data:/backup/processor:ro -v /d:/backup/install:ro debian:bookworm-slim tar czf - -C /backup config processor install/.env"
    );
    assert_eq!(
        backup_args("p", "/d", true).join(" "),
        "run --rm --network none -v p_config-data:/backup/config:ro -v p_processor-data:/backup/processor:ro -v /d:/backup/install:ro -v p_mintd-data:/backup/mint-data:ro debian:bookworm-slim tar czf - -C /backup config processor install/.env mint-data install/mint"
    );
}

fn back(answers: &[bool]) -> Backup {
    let mut b = backup_to();
    for yes in answers {
        b = b.next(*yes);
    }
    b
}

#[test]
fn backups_go_through_their_steps() {
    assert_eq!(back(&[false]).step, BackupStep::End(BackupEnd::Refused));
    assert_eq!(back(&[true, true, false, false]).step, BackupStep::End(BackupEnd::Refused));
    assert_eq!(back(&[true, true, true, false]).step, BackupStep::End(BackupEnd::Refused));
    // running, stopped, taken, flushed, restarted, saved
    assert_eq!(
        back(&[true, true, true, true, true, true, true, true, true, true]).step,
        BackupStep::End(BackupEnd::Saved)
    );
    // nothing was running
    assert_eq!(
        back(&[true, true, true, true, false, true, true, true]).step,
        BackupStep::End(BackupEnd::Saved)
    );
    // the container fails: services restart, nothing is saved
    assert_eq!(
        back(&[true, true, true, true, true, true, false]).step,
        BackupStep::Restart { taken: false }
    );
    assert_eq!(
        back(&[true, true, true, true, true, true, false, false]).step,
        BackupStep::End(BackupEnd::SnapshotFailed { restarted: false })
    );
    // the stop fails: services are started all the same
    assert_eq!(back(&[true, true, true, true, true, false]).step, BackupStep::Restart { taken: false });
    // the restart fails: the snapshot is kept
    assert_eq!(
        back(&[true, true, true, true, true, true, true, true, false, true]).step,
        BackupStep::End(BackupEnd::SavedNotRestarted)
    );
    assert_eq!(
        back(&[true, true, true, true, false, true, true, false]).step,
        BackupStep::End(BackupEnd::NotSaved)
    );
}

#[test]
fn archives_are_restored_into_their_shape() {
    assert!(archive_has_mint(b"config/\nmint-data/db\n"));
    assert!(!archive_has_mint(b"config/\ninstall/mint-data/\n"));
    assert!(members_have_mint("mint-data/\n"));
    assert_eq!(check_shape(true, true), Ok(()));
    assert_eq!(check_shape(false, false), Ok(()));
    assert!(check_shape(true, false).unwrap_err().contains("Re-install with --with-mint first"));
    assert!(check_shape(false, true).unwrap_err().contains("the archive has no mint data"));
    assert_eq!(check_archive("/a", true), Ok(()));
    assert_eq!(check_archive("/a", false), Err("no such file: /a".to_string()));
    assert_eq!(unreadable("/a"), "could not read /a (tar tzf failed)");
    assert_eq!(listing_args("/a"), list(&["tzf", "/a"]));
    assert_eq!(extract_args("/a", "mnemonic"), list(&["xOzf", "/a", "install/mint/mnemonic"]));
    assert_eq!(mint_files(), list(&["config.toml", "mnemonic"]));
    assert_eq!(mint_file_missing("mnemonic"), "archive is missing mint/mnemonic");
    assert_eq!(volumes("p", true), list(&["p_config-data", "p_processor-data", "p_mintd-data"]));
    assert_eq!(create_volume_args("p_x").join(" "), "volume create p_x");
    assert_eq!(volume_not_created("p_x"), "could not create volume p_x");
    assert_eq!(
        notice("p", false)[1],
        "operator accounts, ticket ledger) of project 'p' with the archive"
    );
    assert!(notice("p", true)[2].contains("seed"));
}

#[test]
fn restore_containers_take_the_name_as_an_argument() {
    let args = restore_args("p", "/in dir", "a;b.tar.gz", true);
    assert_eq!(args.last().map(|s| s.as_str()), Some("/in/a;b.tar.gz"));
    assert_eq!(args[args.len() - 2], "restore");
    assert!(args[args.len() - 3].contains("tar xzf \"$1\" -C /restore config processor mint-data"));
    assert!(args.contains(&"/in dir:/in:ro".to_string()));
    assert!(!restore_args("p", "/d", "a", false).contains(&"p_mintd-data:/restore/mint-data".to_string()));
}

/// Behind the lock and the `.env`.
fn restored(answers: &[bool]) -> Restore {
    let mut r = restore().next(true).next(true);
    for yes in answers {
        r = r.next(*yes);
    }
    r
}

#[test]
fn restores_go_through_their_steps() {
    assert_eq!(restored(&[false]).step, RestoreStep::End(RestoreEnd::Refused));
    assert_eq!(restored(&[true, true, false, false]).step, RestoreStep::End(RestoreEnd::Refused));
    assert_eq!(restored(&[true, true, false, true]).step, RestoreStep::Confirm);
    assert_eq!(restored(&[true, true, true, true]).step, RestoreStep::ReadMintFile { place: 0 });
    assert_eq!(restored(&[true, true, false, true, false]).step, RestoreStep::End(RestoreEnd::Cancelled));
    assert_eq!(restored(&[true, true, false, true, true, false]).step, RestoreStep::End(RestoreEnd::Interrupted));
    assert_eq!(restored(&[true, true, false, true, true, true, true, true, true, true]).step, RestoreStep::End(RestoreEnd::Restored));
    let mut r = restore();
    let mut seen = Vec::new();
    while !matches!(r.step, RestoreStep::End(_)) {
        seen.push(r.step);
        r = r.next(true);
    }
    assert_eq!(r.step, RestoreStep::End(RestoreEnd::Restored));
    assert!(seen.contains(&RestoreStep::MakeVolume { place: 2 }));
    assert!(seen.contains(&RestoreStep::WriteMintFile { place: 1 }));
}

#[test]
fn restored_mint_files_are_private() {
    assert_eq!(restored_mint_dir("/opt/pecan"), ("/opt/pecan/mint".to_string(), 0o700));
    let members = vec![b"[info]\n".to_vec(), b"a b \xff".to_vec()];
    let config = restored_mint_file("/opt/pecan", &members, 0);
    assert_eq!(config.path, "/opt/pecan/mint/config.toml");
    assert_eq!((config.contents, config.mode), (b"[info]\n".to_vec(), 0o600));
    let seed = restored_mint_file("/opt/pecan/", &members, 1);
    assert_eq!(seed.path, "/opt/pecan/mint/mnemonic");
    assert_eq!((seed.contents, seed.mode), (b"a b \xff".to_vec(), 0o600));
}

#[test]
fn restores_write_the_mint_only_where_there_is_one() {
    for with_mint in [false, true] {
        let mut r = restore();
        let mut written = 0;
        while !matches!(r.step, RestoreStep::End(_)) {
            if matches!(r.step, RestoreStep::MakeMintDir | RestoreStep::WriteMintFile { .. }) {
                written += 1;
            }
            r = r.next(r.step != RestoreStep::HasMint || with_mint);
        }
        assert_eq!(r.step, RestoreStep::End(RestoreEnd::Restored));
        assert_eq!(written, if with_mint { 3 } else { 0 });
    }
    // A file of the mint is missing from the archive, before anything is stopped.
    let missing = restored(&[true, true, true, true, true, false]);
    assert_eq!(missing.step, RestoreStep::End(RestoreEnd::Refused));
}

/// Behind the lock and the `.env`.
fn removed(purge: bool, answers: &[bool]) -> Uninstall {
    let mut u = uninstall(purge).next(true).next(true);
    for yes in answers {
        u = u.next(*yes);
    }
    u
}

#[test]
fn operations_take_the_lock_first() {
    // start and stop
    assert_eq!(held(), HeldStep::TakeLock);
    assert_eq!(held().next(false), HeldStep::Refused);
    assert_eq!(held().next(false).next(true), HeldStep::Refused);
    assert_eq!(held().next(true), HeldStep::Work);
    assert_eq!(held().next(true).next(true), HeldStep::Done);
    assert_eq!(held().next(true).next(false), HeldStep::Failed);
    assert_eq!(held().next(true).next(false).next(true), HeldStep::Failed);
    assert_eq!(held().next(true).next(true).next(false), HeldStep::Done);
    // backup
    assert_eq!(backup_unlocked().step, BackupStep::TakeLock);
    assert_eq!(backup_unlocked().next(true), backup_to());
    assert_eq!(backup_unlocked().next(false).step, BackupStep::End(BackupEnd::Refused));
    // restore
    assert_eq!(restore().step, RestoreStep::TakeLock);
    assert_eq!(restore().next(false).step, RestoreStep::End(RestoreEnd::Refused));
    assert_eq!(restore().next(true).step, RestoreStep::ReadEnv);
    assert_eq!(restore().next(true).next(false).step, RestoreStep::End(RestoreEnd::Refused));
    assert_eq!(restored(&[]).step, RestoreStep::FindArchive);
    // uninstall
    for purge in [false, true] {
        assert_eq!(uninstall(purge).step, UninstallStep::TakeLock);
        assert_eq!(uninstall(purge).next(false).next(true).step, UninstallStep::Refused);
        assert_eq!(uninstall(purge).next(true).step, UninstallStep::ReadEnv);
        assert_eq!(uninstall(purge).next(true).next(false).step, UninstallStep::Refused);
    }
    assert_eq!(removed(true, &[]).step, UninstallStep::ConfirmTyped);
}

#[test]
fn only_a_confirmed_purge_deletes() {
    assert_eq!(removed(true, &[false, true, true]).step, UninstallStep::NotConfirmed);
    assert_eq!(removed(true, &[true]).step, UninstallStep::TakeDown { volumes: true });
    assert_eq!(removed(true, &[true, true, false]).step, UninstallStep::RemoveDir);
    assert_eq!(removed(true, &[true, true, true, true]).step, UninstallStep::Done);
    assert_eq!(removed(false, &[]).step, UninstallStep::TakeDown { volumes: false });
    assert_eq!(removed(false, &[true, true]).step, UninstallStep::Done);
    assert_eq!(removed(false, &[false]).step, UninstallStep::Failed);
    assert_eq!(take_down_args(true).join(" "), "down -v --remove-orphans");
    assert_eq!(take_down_args(false).join(" "), "down --remove-orphans");
    assert_eq!(purge_prompt("p"), "Type the project name (p) to confirm");
    assert!(purge_warning("/d", true)[2].contains("SEED in /d/mint)"));
    assert_eq!(purge_warning("/d", false).len(), 2);
    assert_eq!(uninstalled(true, "p", "/d"), list(&["purged project p and /d"]));
    assert_eq!(uninstalled(false, "p", "/d").len(), 3);
}

#[test]
fn only_own_links_are_removed() {
    assert!(remove_bin_link("/opt/pecan", Some("/opt/pecan/mintctl")));
    assert!(!remove_bin_link("/opt/pecan", Some("/other/mintctl")));
    assert!(!remove_bin_link("/opt/pecan", None));
    assert!(remove_bin_link("/opt/pecan/", Some("/opt//pecan/mintctl")));
    assert_eq!(
        bin_links(Some("/home/a/.local/bin/mintctl".to_string())),
        list(&["/usr/local/bin/mintctl", "/home/a/.local/bin/mintctl"])
    );
    assert_eq!(bin_links(None), list(&["/usr/local/bin/mintctl"]));
}

#[test]
fn restores_put_back_what_backups_saved() {
    let saved = backup_args("p", "/d", true);
    let put_back = restore_args("p", "/in", "a.tar.gz", true);
    let places = ["config", "processor", "mint-data"];
    for (volume, place) in volumes("p", true).iter().zip(places) {
        assert!(saved.contains(&format!("{volume}:/backup/{place}:ro")));
        assert!(saved.contains(&place.to_string()));
        assert!(put_back.contains(&format!("{volume}:/restore/{place}")));
    }
    assert!(put_back[13].ends_with(" -C /restore config processor mint-data"));
}
