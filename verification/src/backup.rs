//! Backups: a consistent snapshot of the volumes and of the `.env`.
//!
//! The archive is streamed to a private file of the user's, so that Docker never
//! creates root-owned files in the user's directory. An existing archive is
//! kept.

use crate::outside;
use crate::paths;
use crate::text;
use vstd::prelude::*;

verus! {

pub const HELPER_IMAGE: &'static str = "debian:bookworm-slim";

pub const STAMP_FORMAT: &'static str = "[year][month][day]-[hour][minute][second]";

/// Where a backup goes: the path that was asked for, and otherwise a name with
/// the time in it, in the current directory. `None` where the time has no name.
pub open spec fn backup_target(
    output: Option<Seq<char>>,
    unix_seconds: i64,
    current: Seq<char>,
) -> Option<Seq<char>> {
    match output {
        Some(path) => Some(paths::against(path, current)),
        None => match outside::formatted_time(unix_seconds, STAMP_FORMAT@) {
            Some(stamp) => Some(
                paths::against("pecan-backup-"@ + stamp + ".tar.gz"@, current),
            ),
            None => None,
        },
    }
}

pub fn backup_path(output: Option<&str>, unix_seconds: i64, current: &str) -> (r: Option<String>)
    ensures
        text::opt(r) == backup_target(text::opt_str(output), unix_seconds, current@),
{
    match output {
        Some(path) => Some(paths::absolutize(path, current)),
        None => match outside::format_time(unix_seconds, STAMP_FORMAT) {
            Some(stamp) => Some(stamped_backup(stamp.as_str(), current)),
            None => None,
        },
    }
}

/// The default backup for a time that is written this way.
pub fn stamped_backup(stamp: &str, current: &str) -> (r: String)
    ensures
        r@ == paths::against("pecan-backup-"@ + stamp@ + ".tar.gz"@, current@),
{
    let name = "pecan-backup-".to_owned().concat(stamp).concat(".tar.gz");
    paths::absolutize(name.as_str(), current)
}

pub open spec fn backup_exists(out: Seq<char>) -> Seq<char> {
    "backup already exists: "@ + out + "; choose another filename"@
}

/// An archive is never written over another.
pub fn check_backup_target(out: &str, exists: bool) -> (r: Result<(), String>)
    ensures
        match r {
            Ok(_) => !exists,
            Err(message) => exists && message@ == backup_exists(out@),
        },
{
    if exists {
        Err("backup already exists: ".to_owned().concat(out).concat("; choose another filename"))
    } else {
        Ok(())
    }
}

/// The lines that are not empty.
pub open spec fn nonempty_lines(lines: Seq<Seq<char>>) -> Seq<Seq<char>> {
    lines.filter(|line: Seq<char>| line.len() > 0)
}

/// The services that are running, from what compose printed; `None` where that
/// is no text.
pub fn running_services(stdout: &[u8]) -> (r: Option<Vec<String>>)
    ensures
        match r {
            Some(services) => vstd::utf8::valid_utf8(stdout@) && text::texts(services@)
                == nonempty_lines(text::lines_of(vstd::utf8::decode_utf8(stdout@))),
            None => !vstd::utf8::valid_utf8(stdout@),
        },
{
    match outside::decode(stdout) {
        Some(output) => Some(listed_services(output.as_str())),
        None => None,
    }
}

pub fn listed_services(output: &str) -> (r: Vec<String>)
    ensures
        text::texts(r@) == nonempty_lines(text::lines_of(output@)),
{
    broadcast use text::lemma_texts_push;

    let lines = text::lines(output);
    let ghost all = text::lines_of(output@);
    let ghost p = |line: Seq<char>| line.len() > 0;
    let mut kept: Vec<String> = Vec::new();
    let mut i: usize = 0;
    proof {
        reveal(Seq::filter);
        assert(all.take(0) =~= Seq::<Seq<char>>::empty());
        assert(text::texts(kept@) =~= Seq::<Seq<char>>::empty());
    }
    while i < lines.len()
        invariant
            i <= lines@.len(),
            all == text::texts(lines@),
            p == (|line: Seq<char>| line.len() > 0),
            text::texts(kept@) == all.take(i as int).filter(p),
        decreases lines@.len() - i,
    {
        proof {
            reveal(Seq::filter);
            assert(all.take(i + 1).drop_last() =~= all.take(i as int));
            assert(all.take(i + 1).last() == lines@[i as int]@);
        }
        if !lines[i].as_str().is_empty() {
            kept.push(lines[i].clone());
        }
        i += 1;
    }
    assert(all.take(i as int) =~= all);
    kept
}

/// Pulls the helper image.
pub fn pull_helper_args() -> (r: Vec<String>)
    ensures
        text::texts(r@) == seq!["pull"@, HELPER_IMAGE@],
{
    let args = text::words(&["pull", HELPER_IMAGE]);
    assert(text::texts(args@) =~= seq!["pull"@, HELPER_IMAGE@]);
    args
}

/// What compose is asked to learn which services are running.
pub fn ps_args() -> (r: Vec<String>)
    ensures
        text::texts(r@) == seq!["ps"@, "--services"@, "--filter"@, "status=running"@],
{
    let args = text::words(&["ps", "--services", "--filter", "status=running"]);
    assert(text::texts(args@) =~= seq!["ps"@, "--services"@, "--filter"@, "status=running"@]);
    args
}

/// A compose command for exactly these services.
pub fn service_args(verb: &str, services: &Vec<String>) -> (r: Vec<String>)
    ensures
        text::texts(r@) == seq![verb@] + text::texts(services@),
{
    let mut args = text::words(&[verb]);
    assert(text::texts(args@) =~= seq![verb@]);
    text::extend(&mut args, services);
    args
}

/// What the archive holds, below the directory that it is made in.
pub open spec fn archive_members(has_mint: bool) -> Seq<Seq<char>> {
    seq!["config"@, "processor"@, "install/.env"@] + (if has_mint {
        seq!["mint-data"@, "install/mint"@]
    } else {
        Seq::empty()
    })
}

/// The container that writes the archive to its standard output, with the
/// volumes mounted so that it cannot change them.
pub open spec fn backup_command(
    project: Seq<char>,
    install_dir: Seq<char>,
    has_mint: bool,
) -> Seq<Seq<char>> {
    seq![
        "run"@,
        "--rm"@,
        "--network"@,
        "none"@,
        "-v"@,
        project + "_config-data:/backup/config:ro"@,
        "-v"@,
        project + "_processor-data:/backup/processor:ro"@,
        "-v"@,
        install_dir + ":/backup/install:ro"@,
    ] + (if has_mint {
        seq!["-v"@, project + "_mintd-data:/backup/mint-data:ro"@]
    } else {
        Seq::empty()
    }) + seq![HELPER_IMAGE@, "tar"@, "czf"@, "-"@, "-C"@, "/backup"@] + archive_members(has_mint)
}

pub fn backup_args(project: &str, install_dir: &str, has_mint: bool) -> (r: Vec<String>)
    ensures
        text::texts(r@) == backup_command(project@, install_dir@, has_mint),
{
    broadcast use text::lemma_texts_push;

    let mut args = text::words(&["run", "--rm", "--network", "none", "-v"]);
    args.push(project.to_owned().concat("_config-data:/backup/config:ro"));
    args.push("-v".to_owned());
    args.push(project.to_owned().concat("_processor-data:/backup/processor:ro"));
    args.push("-v".to_owned());
    args.push(install_dir.to_owned().concat(":/backup/install:ro"));
    if has_mint {
        args.push("-v".to_owned());
        args.push(project.to_owned().concat("_mintd-data:/backup/mint-data:ro"));
    }
    let tar = text::words(
        &[
            HELPER_IMAGE,
            "tar",
            "czf",
            "-",
            "-C",
            "/backup",
            "config",
            "processor",
            "install/.env",
        ],
    );
    text::extend(&mut args, &tar);
    if has_mint {
        args.push("mint-data".to_owned());
        args.push("install/mint".to_owned());
    }
    assert(text::texts(args@) =~= backup_command(project@, install_dir@, has_mint));
    args
}

pub const BACKUP_HELPER_MISSING: &'static str = "could not pull the backup helper image";

pub const BACKUP_SERVICES_UNKNOWN: &'static str = "cannot determine running services before backup";

pub const BACKUP_STOPPING: &'static str = "Stopping services for a consistent snapshot ...";

pub const BACKUP_CONTAINER_FAILED: &'static str = "the backup container failed";

pub const BACKUP_NOT_RESTARTED: &'static str = "backup saved, but services could not restart; run mintctl start";

/// What to say when the snapshot failed: its error, below that of the restart
/// where the services did not come back either.
pub fn snapshot_error(error: &str, restart_error: Option<&str>) -> (r: String)
    ensures
        r@ == (match restart_error {
            Some(restart) => "services also failed to restart: "@
                + restart@
                + "; run mintctl start: "@
                + error@,
            None => error@,
        }),
{
    match restart_error {
        Some(restart) => "services also failed to restart: ".to_owned()
            .concat(restart)
            .concat("; run mintctl start: ")
            .concat(error),
        None => error.to_owned(),
    }
}

/// What to say when the archive could not be put in its place.
pub fn backup_not_saved(out: &str) -> (r: String)
    ensures
        r@ == "save backup "@ + out@ + " (existing archives are never replaced)"@,
{
    "save backup ".to_owned().concat(out).concat(" (existing archives are never replaced)")
}

/// What `mintctl backup` says when it is done.
pub open spec fn backup_lines(out: Seq<char>, has_mint: bool) -> Seq<Seq<char>> {
    seq![""@, "Backup written to "@ + out] + (if has_mint {
        seq![
            "It contains the operator accounts (password hashes), the attachment"@,
            "configuration, the ticket ledger, AND the mint's database and SEED —"@,
            "this archive can issue your ecash. Encrypt it and store it off this"@,
            "server."@,
        ]
    } else {
        seq![
            "It contains the operator accounts (password hashes), the attachment"@,
            "configuration, and the ticket ledger — store it encrypted, off this"@,
            "server. The mint's own data is NOT included; the mint is backed up"@,
            "by whoever operates it."@,
        ]
    })
}

pub fn backup(out: &str, has_mint: bool) -> (r: Vec<String>)
    ensures
        text::texts(r@) == backup_lines(out@, has_mint),
{
    let written = "Backup written to ".to_owned().concat(out);
    let lines = if has_mint {
        text::words(
            &[
                "",
                written.as_str(),
                "It contains the operator accounts (password hashes), the attachment",
                "configuration, the ticket ledger, AND the mint's database and SEED —",
                "this archive can issue your ecash. Encrypt it and store it off this",
                "server.",
            ],
        )
    } else {
        text::words(
            &[
                "",
                written.as_str(),
                "It contains the operator accounts (password hashes), the attachment",
                "configuration, and the ticket ledger — store it encrypted, off this",
                "server. The mint's own data is NOT included; the mint is backed up",
                "by whoever operates it.",
            ],
        )
    };
    assert(text::texts(lines@) =~= backup_lines(out@, has_mint));
    lines
}

// ---------------------------------------------------------------------------
// taking the snapshot
// ---------------------------------------------------------------------------
/// What is asked or done next. Each step is answered with yes or no: whether
/// it is so, or whether it worked.
#[derive(Debug, Clone, Copy, PartialEq, Eq, Structural)]
pub enum BackupStep {
    /// Take the installation's operation lock, where it is not held yet.
    TakeLock,
    /// Is there no file where the archive goes?
    ArchiveFree,
    /// Make a private file beside it.
    MakeTemp,
    /// Is the helper image there? It is pulled before downtime, and only if it
    /// is absent.
    FindHelper,
    PullHelper,
    ListServices,
    /// Is any service running?
    AnyRunning,
    StopServices,
    RunContainer,
    /// Flush the archive to the disk.
    SyncArchive,
    /// Start exactly the services that were running, whether the snapshot was
    /// `taken` or not.
    Restart { taken: bool },
    /// Put the archive in its place, unless something is there.
    SaveArchive { restarted: bool },
    End(BackupEnd),
}

#[derive(Debug, Clone, Copy, PartialEq, Eq, Structural)]
pub enum BackupEnd {
    Saved,
    /// The snapshot is kept even if restarting failed; it is the recovery path.
    SavedNotRestarted,
    /// Nothing was stopped.
    Refused,
    SnapshotFailed { restarted: bool },
    NotSaved,
}

#[derive(Debug, Clone, Copy, PartialEq, Eq, Structural)]
pub struct Backup {
    pub step: BackupStep,
    /// Whether services were running.
    pub running: bool,
}

pub open spec fn backup_start() -> Backup {
    Backup { step: BackupStep::ArchiveFree, running: false }
}

/// The step after the snapshot was taken or failed.
pub open spec fn after_snapshot(running: bool, taken: bool) -> BackupStep {
    if running {
        BackupStep::Restart { taken }
    } else if taken {
        BackupStep::SaveArchive { restarted: true }
    } else {
        BackupStep::End(BackupEnd::SnapshotFailed { restarted: true })
    }
}

pub open spec fn backup_next(b: Backup, yes: bool) -> Backup {
    let running = if b.step is AnyRunning {
        yes
    } else {
        b.running
    };
    let step = match b.step {
        BackupStep::TakeLock => if yes {
            BackupStep::ArchiveFree
        } else {
            BackupStep::End(BackupEnd::Refused)
        },
        BackupStep::ArchiveFree => if yes {
            BackupStep::MakeTemp
        } else {
            BackupStep::End(BackupEnd::Refused)
        },
        BackupStep::MakeTemp => if yes {
            BackupStep::FindHelper
        } else {
            BackupStep::End(BackupEnd::Refused)
        },
        BackupStep::FindHelper => if yes {
            BackupStep::ListServices
        } else {
            BackupStep::PullHelper
        },
        BackupStep::PullHelper => if yes {
            BackupStep::ListServices
        } else {
            BackupStep::End(BackupEnd::Refused)
        },
        BackupStep::ListServices => if yes {
            BackupStep::AnyRunning
        } else {
            BackupStep::End(BackupEnd::Refused)
        },
        BackupStep::AnyRunning => if yes {
            BackupStep::StopServices
        } else {
            BackupStep::RunContainer
        },
        BackupStep::StopServices => if yes {
            BackupStep::RunContainer
        } else {
            BackupStep::Restart { taken: false }
        },
        BackupStep::RunContainer => if yes {
            BackupStep::SyncArchive
        } else {
            after_snapshot(b.running, false)
        },
        BackupStep::SyncArchive => after_snapshot(b.running, yes),
        BackupStep::Restart { taken } => if taken {
            BackupStep::SaveArchive { restarted: yes }
        } else {
            BackupStep::End(BackupEnd::SnapshotFailed { restarted: yes })
        },
        BackupStep::SaveArchive { restarted } => if !yes {
            BackupStep::End(BackupEnd::NotSaved)
        } else if restarted {
            BackupStep::End(BackupEnd::Saved)
        } else {
            BackupStep::End(BackupEnd::SavedNotRestarted)
        },
        BackupStep::End(end) => BackupStep::End(end),
    };
    Backup { step, running }
}

/// Starts a backup of an installation that is locked; `next` takes it through
/// its steps. The services are always told to start again after they were
/// stopped, including when the container could not be run.
pub fn backup_to() -> (r: Backup)
    ensures
        r == backup_start(),
{
    Backup { step: BackupStep::ArchiveFree, running: false }
}

pub open spec fn unlocked_start() -> Backup {
    Backup { step: BackupStep::TakeLock, running: false }
}

/// Starts a backup of an installation that is not locked yet.
pub fn backup_unlocked() -> (r: Backup)
    ensures
        r == unlocked_start(),
{
    Backup { step: BackupStep::TakeLock, running: false }
}

fn step_after_snapshot(running: bool, taken: bool) -> (r: BackupStep)
    ensures
        r == after_snapshot(running, taken),
{
    if running {
        BackupStep::Restart { taken }
    } else if taken {
        BackupStep::SaveArchive { restarted: true }
    } else {
        BackupStep::End(BackupEnd::SnapshotFailed { restarted: true })
    }
}

impl Backup {
    pub fn next(self, yes: bool) -> (r: Self)
        ensures
            r == backup_next(self, yes),
    {
        let b = self;
        let running = match b.step {
            BackupStep::AnyRunning => yes,
            _ => b.running,
        };
        let step = match b.step {
            BackupStep::TakeLock => if yes {
                BackupStep::ArchiveFree
            } else {
                BackupStep::End(BackupEnd::Refused)
            },
            BackupStep::ArchiveFree => if yes {
                BackupStep::MakeTemp
            } else {
                BackupStep::End(BackupEnd::Refused)
            },
            BackupStep::MakeTemp => if yes {
                BackupStep::FindHelper
            } else {
                BackupStep::End(BackupEnd::Refused)
            },
            BackupStep::FindHelper => if yes {
                BackupStep::ListServices
            } else {
                BackupStep::PullHelper
            },
            BackupStep::PullHelper => if yes {
                BackupStep::ListServices
            } else {
                BackupStep::End(BackupEnd::Refused)
            },
            BackupStep::ListServices => if yes {
                BackupStep::AnyRunning
            } else {
                BackupStep::End(BackupEnd::Refused)
            },
            BackupStep::AnyRunning => if yes {
                BackupStep::StopServices
            } else {
                BackupStep::RunContainer
            },
            BackupStep::StopServices => if yes {
                BackupStep::RunContainer
            } else {
                BackupStep::Restart { taken: false }
            },
            BackupStep::RunContainer => if yes {
                BackupStep::SyncArchive
            } else {
                step_after_snapshot(b.running, false)
            },
            BackupStep::SyncArchive => step_after_snapshot(b.running, yes),
            BackupStep::Restart { taken } => if taken {
                BackupStep::SaveArchive { restarted: yes }
            } else {
                BackupStep::End(BackupEnd::SnapshotFailed { restarted: yes })
            },
            BackupStep::SaveArchive { restarted } => if !yes {
                BackupStep::End(BackupEnd::NotSaved)
            } else if restarted {
                BackupStep::End(BackupEnd::Saved)
            } else {
                BackupStep::End(BackupEnd::SavedNotRestarted)
            },
            BackupStep::End(end) => BackupStep::End(end),
        };
        Backup { step, running }
    }
}

/// Where a backup stands after these answers.
pub open spec fn backup_after(answers: Seq<bool>) -> Backup
    decreases answers.len(),
{
    if answers.len() == 0 {
        backup_start()
    } else {
        backup_next(backup_after(answers.drop_last()), answers.last())
    }
}

/// That the backup came by this step, and what the answer was.
pub open spec fn answered(answers: Seq<bool>, step: BackupStep, yes: bool) -> bool {
    exists|i: int|
        0 <= i < answers.len() && #[trigger] backup_after(answers.take(i)).step == step
            && answers[i] == yes
}

#[verifier::spinoff_prover]
proof fn lemma_answered(answers: Seq<bool>, step: BackupStep, yes: bool)
    requires
        answers.len() > 0,
    ensures
        answered(answers, step, yes) <==> answered(answers.drop_last(), step, yes) || (backup_after(
            answers.drop_last(),
        ).step == step && answers.last() == yes),
{
    let before = answers.drop_last();
    assert(answers.take(before.len() as int) =~= before);
    assert(answered(before, step, yes) ==> answered(answers, step, yes)) by {
        if answered(before, step, yes) {
            let i = choose|i: int|
                0 <= i < before.len() && #[trigger] backup_after(before.take(i)).step == step
                    && before[i] == yes;
            assert(answers.take(i) =~= before.take(i));
        }
    }
    assert(backup_after(before).step == step && answers.last() == yes ==> answered(
        answers,
        step,
        yes,
    ));
    if answered(answers, step, yes) {
        let i = choose|i: int|
            0 <= i < answers.len() && #[trigger] backup_after(answers.take(i)).step == step
                && answers[i] == yes;
        if i < before.len() {
            assert(before.take(i) =~= answers.take(i));
        }
    }
}

/// Steps at which services may have been stopped.
pub open spec fn stopping(step: BackupStep) -> bool {
    match step {
        BackupStep::TakeLock | BackupStep::ArchiveFree | BackupStep::MakeTemp
        | BackupStep::FindHelper | BackupStep::PullHelper | BackupStep::ListServices | BackupStep::AnyRunning => false,
        BackupStep::End(end) => end != BackupEnd::Refused,
        _ => true,
    }
}

/// Steps after the restart.
pub open spec fn restarted(step: BackupStep) -> bool {
    match step {
        BackupStep::SaveArchive { .. } => true,
        BackupStep::End(end) => end != BackupEnd::Refused,
        _ => false,
    }
}

/// Where a backup that takes the lock itself stands after these answers.
pub open spec fn unlocked_after(answers: Seq<bool>) -> Backup
    decreases answers.len(),
{
    if answers.len() == 0 {
        unlocked_start()
    } else {
        backup_next(unlocked_after(answers.drop_last()), answers.last())
    }
}

/// A backup takes the lock before anything else: where it is not had, the backup
/// is refused, and behind it all goes as in an installation that is locked.
pub proof fn law_backup_takes_the_lock_first(answers: Seq<bool>)
    requires
        answers.len() > 0,
    ensures
        unlocked_after(answers) == (if answers[0] {
            backup_after(answers.skip(1))
        } else {
            Backup { step: BackupStep::End(BackupEnd::Refused), running: false }
        }),
    decreases answers.len(),
{
    let before = answers.drop_last();
    if answers.len() == 1 {
        assert(unlocked_after(before) == unlocked_start());
        assert(answers.skip(1) =~= Seq::empty());
    } else {
        law_backup_takes_the_lock_first(before);
        assert(answers.skip(1).drop_last() =~= before.skip(1));
    }
}

/// Nothing is stopped before the archive's place was found free, a file was
/// made for it, the helper image was there and the running services were known.
pub proof fn law_nothing_stops_unprepared(answers: Seq<bool>)
    requires
        stopping(backup_after(answers).step),
    ensures
        answered(answers, BackupStep::ArchiveFree, true),
        answered(answers, BackupStep::MakeTemp, true),
        answered(answers, BackupStep::FindHelper, true) || answered(
            answers,
            BackupStep::PullHelper,
            true,
        ),
        answered(answers, BackupStep::ListServices, true),
{
    lemma_prepared(answers);
}

proof fn lemma_prepared(answers: Seq<bool>)
    ensures
        ({
            let step = backup_after(answers).step;
            let refused = step == BackupStep::End(BackupEnd::Refused);
            &&& !(step is TakeLock)
            &&& !refused && !(step is ArchiveFree) ==> answered(
                answers,
                BackupStep::ArchiveFree,
                true,
            )
            &&& !refused && !(step is ArchiveFree) && !(step is MakeTemp) ==> answered(
                answers,
                BackupStep::MakeTemp,
                true,
            )
            &&& stopping(step) || step is ListServices || step is AnyRunning ==> answered(
                answers,
                BackupStep::FindHelper,
                true,
            ) || answered(answers, BackupStep::PullHelper, true)
            &&& stopping(step) || step is AnyRunning ==> answered(
                answers,
                BackupStep::ListServices,
                true,
            )
        }),
    decreases answers.len(),
{
    if answers.len() > 0 {
        lemma_prepared(answers.drop_last());
        lemma_answered(answers, BackupStep::ArchiveFree, true);
        lemma_answered(answers, BackupStep::MakeTemp, true);
        lemma_answered(answers, BackupStep::FindHelper, true);
        lemma_answered(answers, BackupStep::PullHelper, true);
        lemma_answered(answers, BackupStep::ListServices, true);
    }
}

/// Services that were running are always told to start again: no backup ends
/// after a stop without the restart having been tried, however the snapshot
/// went.
pub proof fn law_stopped_services_are_restarted(answers: Seq<bool>)
    requires
        backup_after(answers).running,
        restarted(backup_after(answers).step),
    ensures
        exists|taken: bool, yes: bool|
            #[trigger] answered(answers, BackupStep::Restart { taken }, yes),
    decreases answers.len(),
{
    let before = answers.drop_last();
    let b = backup_after(before);
    if restarted(b.step) {
        law_stopped_services_are_restarted(before);
        let (taken, yes) = choose|taken: bool, yes: bool|
            #[trigger] answered(before, BackupStep::Restart { taken }, yes);
        lemma_answered(answers, BackupStep::Restart { taken }, yes);
    } else {
        assert(b.step is Restart);
        let taken = b.step->taken;
        let yes = answers.last();
        lemma_answered(answers, BackupStep::Restart { taken }, yes);
        assert(answered(answers, BackupStep::Restart { taken }, yes));
    }
}

/// What is saved is a whole snapshot: the container succeeded and the archive
/// was flushed.
pub proof fn law_saved_is_whole(answers: Seq<bool>)
    requires
        backup_after(answers).step == BackupStep::End(BackupEnd::Saved) || backup_after(
            answers,
        ).step == BackupStep::End(BackupEnd::SavedNotRestarted),
    ensures
        answered(answers, BackupStep::RunContainer, true),
        answered(answers, BackupStep::SyncArchive, true),
{
    lemma_whole(answers);
}

/// Steps behind a snapshot that was taken.
spec fn taken_by(step: BackupStep) -> bool {
    match step {
        BackupStep::Restart { taken } => taken,
        BackupStep::SaveArchive { .. } => true,
        BackupStep::End(BackupEnd::Saved) | BackupStep::End(BackupEnd::SavedNotRestarted) => true,
        _ => false,
    }
}

proof fn lemma_whole(answers: Seq<bool>)
    ensures
        backup_after(answers).step is SyncArchive || taken_by(backup_after(answers).step)
            ==> answered(answers, BackupStep::RunContainer, true),
        taken_by(backup_after(answers).step) ==> answered(answers, BackupStep::SyncArchive, true),
    decreases answers.len(),
{
    if answers.len() > 0 {
        lemma_whole(answers.drop_last());
        lemma_answered(answers, BackupStep::RunContainer, true);
        lemma_answered(answers, BackupStep::SyncArchive, true);
    }
}

/// A bundled mint's database and seed are in the archive, and so are the
/// settings of every installation.
pub proof fn law_backup_covers_the_mint(has_mint: bool)
    ensures
        archive_members(has_mint).contains("install/.env"@),
        has_mint ==> archive_members(has_mint).contains("mint-data"@) && archive_members(
            has_mint,
        ).contains("install/mint"@),
{
    assert(archive_members(has_mint)[2] == "install/.env"@);
    if has_mint {
        assert(archive_members(has_mint)[3] == "mint-data"@);
        assert(archive_members(has_mint)[4] == "install/mint"@);
    }
}

// ---------------------------------------------------------------------------
// laws of the commands
// ---------------------------------------------------------------------------
/// That a `docker run` command mounts this, before it names the image.
pub open spec fn mounts(command: Seq<Seq<char>>, image: int, mount: Seq<char>) -> bool {
    exists|k: int|
        0 <= k && k + 1 < image && #[trigger] command[k] == "-v"@ && command[k + 1] == mount
}

/// The snapshot reads the volumes and the installation, and can change neither:
/// each is mounted read-only, a bundled mint's exactly where there is one, and
/// there is no network. The archive goes to the standard output and holds the
/// volumes and the settings, and with a bundled mint its database and files.
pub proof fn law_snapshot_reads_everything(
    project: &str,
    install_dir: &str,
    has_mint: bool,
    r: Vec<String>,
)
    requires
        call_ensures(backup_args, (project, install_dir, has_mint), r),
    ensures
        ({
            let s = text::texts(r@);
            let image = if has_mint {
                12int
            } else {
                10
            };
            let members = s.skip(image + 6);
            &&& s[0] == "run"@ && s[1] == "--rm"@ && s[2] == "--network"@ && s[3] == "none"@
            &&& s[image] == "debian:bookworm-slim"@
            &&& mounts(s, image, project@ + "_config-data:/backup/config:ro"@)
            &&& mounts(s, image, project@ + "_processor-data:/backup/processor:ro"@)
            &&& mounts(s, image, install_dir@ + ":/backup/install:ro"@)
            &&& has_mint ==> mounts(s, image, project@ + "_mintd-data:/backup/mint-data:ro"@)
            &&& s.subrange(image + 1, image + 6) == seq!["tar"@, "czf"@, "-"@, "-C"@, "/backup"@]
            &&& members.contains("config"@)
            &&& members.contains("processor"@)
            &&& members.contains("install/.env"@)
            &&& has_mint ==> members.contains("mint-data"@) && members.contains("install/mint"@)
            &&& members.len() == (if has_mint {
                5int
            } else {
                3
            })
        }),
{
    let s = text::texts(r@);
    let image = if has_mint {
        12int
    } else {
        10
    };
    let members = s.skip(image + 6);
    assert(s[4] == "-v"@ && s[6] == "-v"@ && s[8] == "-v"@);
    if has_mint {
        assert(s[10] == "-v"@);
        assert(s[11] == project@ + "_mintd-data:/backup/mint-data:ro"@);
    }
    assert(s.subrange(image + 1, image + 6) =~= seq!["tar"@, "czf"@, "-"@, "-C"@, "/backup"@]);
    assert(members[0] == "config"@ && members[1] == "processor"@ && members[2] == "install/.env"@);
    if has_mint {
        assert(members[3] == "mint-data"@ && members[4] == "install/mint"@);
    }
}

/// The services that are stopped for a snapshot are the ones that are started
/// again: those that compose lists as running, and no empty name among them.
pub proof fn law_running_services_come_back(
    stdout: &[u8],
    listed: Option<Vec<String>>,
    services: Vec<String>,
    stop: Vec<String>,
    start: Vec<String>,
    asked: Vec<String>,
)
    requires
        call_ensures(ps_args, (), asked),
        call_ensures(running_services, (stdout,), listed),
        listed == Some(services),
        call_ensures(service_args, ("stop", &services), stop),
        call_ensures(service_args, ("start", &services), start),
    ensures
        text::texts(asked@)[0] == "ps"@,
        text::texts(asked@).last() == "status=running"@,
        text::texts(stop@)[0] == "stop"@,
        text::texts(start@)[0] == "start"@,
        text::texts(stop@).skip(1) == text::texts(services@),
        text::texts(start@).skip(1) == text::texts(services@),
{
    assert(text::texts(stop@).skip(1) =~= text::texts(services@));
    assert(text::texts(start@).skip(1) =~= text::texts(services@));
}

/// The path that was asked for is where a backup goes, made absolute; otherwise
/// it is a name with the time in it, in the current directory.
pub proof fn law_where_a_backup_goes(
    path: &str,
    unix_seconds: i64,
    current: &str,
    asked: Option<String>,
    unasked: Option<String>,
)
    requires
        call_ensures(backup_path, (Some(path), unix_seconds, current), asked),
        call_ensures(backup_path, (None, unix_seconds, current), unasked),
    ensures
        asked is Some,
        path@.len() > 0 && path@[0] == '/' ==> asked->0@ == path@,
        !(path@.len() > 0 && path@[0] == '/') ==> asked->0@ == paths::below(current@, path@),
        unasked is Some <==> outside::formatted_time(
            unix_seconds,
            "[year][month][day]-[hour][minute][second]"@,
        ) is Some,
        unasked matches Some(out) ==> out@ == paths::below(
            current@,
            "pecan-backup-"@ + outside::formatted_time(
                unix_seconds,
                "[year][month][day]-[hour][minute][second]"@,
            )->0 + ".tar.gz"@,
        ),
{
    reveal_strlit("pecan-backup-");
    if let Some(out) = unasked {
        let stamp = outside::formatted_time(
            unix_seconds,
            "[year][month][day]-[hour][minute][second]"@,
        )->0;
        let name = "pecan-backup-"@ + stamp + ".tar.gz"@;
        assert(name[0] == 'p');
    }
}

/// An archive is never written over another.
pub proof fn law_archives_are_kept(out: &str, exists_already: bool, r: Result<(), String>)
    requires
        call_ensures(check_backup_target, (out, exists_already), r),
    ensures
        r is Ok <==> !exists_already,
{
}

/// How a backup goes on, and how it ends. A yes leads on; without the helper
/// image it is pulled; without running services none is stopped, and none
/// started. From the first stop on, a failure leads to the restart, and what was
/// taken is saved whether the services came back or not.
pub proof fn law_backup_goes_step_by_step(b: Backup, yes: bool)
    ensures
        ({
            let next = backup_next(b, yes);
            let refused = BackupStep::End(BackupEnd::Refused);
            &&& b.step is TakeLock ==> next.step == (if yes {
                BackupStep::ArchiveFree
            } else {
                refused
            })
            &&& b.step is ArchiveFree ==> next.step == (if yes {
                BackupStep::MakeTemp
            } else {
                refused
            })
            &&& b.step is MakeTemp ==> (next.step is FindHelper <==> yes) && (!yes ==> next.step
                == refused)
            &&& b.step is FindHelper ==> (next.step is PullHelper <==> !yes)
            &&& (b.step is FindHelper || b.step is PullHelper) && yes ==> next.step is ListServices
            &&& (b.step is PullHelper || b.step is ListServices) && !yes ==> next.step == refused
            &&& b.step is ListServices && yes ==> next.step is AnyRunning
            &&& b.step is AnyRunning ==> next.running == yes && (next.step is StopServices <==> yes)
            &&& b.step is AnyRunning && !yes ==> next.step is RunContainer
            &&& b.step is StopServices && yes ==> next.step is RunContainer
            &&& b.step is StopServices && !yes ==> next.step == (BackupStep::Restart {
                taken: false,
            })
            &&& b.step is RunContainer && yes ==> next.step is SyncArchive
            &&& (b.step is RunContainer && !yes || b.step is SyncArchive) && b.running ==> next.step
                == (BackupStep::Restart { taken: b.step is SyncArchive && yes })
            &&& b.step is SyncArchive && yes && !b.running ==> next.step is SaveArchive
            &&& (b.step is RunContainer || b.step is SyncArchive) && !yes && !b.running
                ==> next.step is End && next.step != refused && next.step != BackupStep::End(
                BackupEnd::Saved,
            )
            &&& b.step == (BackupStep::Restart { taken: true }) ==> next.step == (
            BackupStep::SaveArchive { restarted: yes })
            &&& b.step == (BackupStep::Restart { taken: false }) ==> next.step == BackupStep::End(
                BackupEnd::SnapshotFailed { restarted: yes },
            )
            &&& b.step == (BackupStep::SaveArchive { restarted: true }) && yes ==> next.step
                == BackupStep::End(BackupEnd::Saved)
            &&& b.step == (BackupStep::SaveArchive { restarted: false }) && yes ==> next.step
                == BackupStep::End(BackupEnd::SavedNotRestarted)
            &&& b.step is SaveArchive && !yes ==> next.step == BackupStep::End(BackupEnd::NotSaved)
            &&& b.step is End ==> next == b
            &&& !(b.step is AnyRunning) ==> next.running == b.running
        }),
{
}

/// The services are the lines that compose prints, in their order, and an empty
/// line is none.
pub proof fn law_services_are_listed(output: &str, r: Vec<String>, line: Seq<char>)
    requires
        call_ensures(listed_services, (output,), r),
    ensures
        output@.len() == 0 ==> r@.len() == 0,
        line.len() > 0 && !line.contains('\n') && output@ == line ==> text::texts(r@) == seq![line],
        line.len() > 0 ==> (text::texts(r@).contains(line) <==> text::lines_of(output@).contains(
            line,
        )),
        !text::texts(r@).contains(Seq::<char>::empty()),
{
    let lines = text::lines_of(output@);
    let p = |line: Seq<char>| line.len() > 0;
    let kept = lines.filter(p);
    reveal(Seq::filter);
    assert(text::texts(r@).len() == r@.len());
    if kept.contains(line) {
        lines.lemma_filter_contains_rev(p, line);
    }
    if line.len() > 0 && lines.contains(line) {
        let k = choose|k: int| 0 <= k < lines.len() && lines[k] == line;
        lines.lemma_filter_contains(p, k);
    }
    if kept.contains(Seq::<char>::empty()) {
        let k = choose|k: int| 0 <= k < kept.len() && kept[k] == Seq::<char>::empty();
        lines.lemma_filter_pred(p, k);
    }
    if line.len() > 0 && !line.contains('\n') && output@ == line {
        text::law_lines_are_ended(line, Seq::empty());
        assert(lines.drop_last() =~= Seq::empty());
        assert(lines.drop_last().filter(p) =~= Seq::empty());
        assert(kept =~= seq![line]);
    }
}

/// A backup takes the lock, except where its caller holds it already.
pub proof fn law_where_a_backup_begins(own: Backup, held: Backup)
    requires
        call_ensures(backup_unlocked, (), own),
        call_ensures(backup_to, (), held),
    ensures
        own.step is TakeLock,
        held.step is ArchiveFree,
{
}

/// What is said names the archive, warns of the seed in it exactly with a
/// bundled mint, and keeps both errors where the services did not come back.
pub proof fn law_backup_tells(
    out: &str,
    has_mint: bool,
    r: Vec<String>,
    refused: Result<(), String>,
    error: &str,
    restart: &str,
    one: String,
    both: String,
)
    requires
        call_ensures(backup, (out, has_mint), r),
        call_ensures(check_backup_target, (out, true), refused),
        call_ensures(snapshot_error, (error, None), one),
        call_ensures(snapshot_error, (error, Some(restart)), both),
    ensures
        text::texts(r@)[1] == "Backup written to "@ + out@,
        text::texts(r@).len() == 6,
        has_mint ==> text::texts(r@)[3]
            == "configuration, the ticket ledger, AND the mint's database and SEED —"@,
        !has_mint ==> text::texts(r@)[4]
            == "server. The mint's own data is NOT included; the mint is backed up"@,
        refused is Err && text::found(refused->Err_0@, out@) is Some,
        one@ == error@,
        text::found(both@, error@) is Some,
        text::found(both@, restart@) is Some,
{
    text::lemma_found_between("backup already exists: "@, out@, "; choose another filename"@);
    let head = "services also failed to restart: "@;
    let mid = "; run mintctl start: "@;
    assert(both@ =~= head + restart@ + (mid + error@));
    text::lemma_found_between(head, restart@, mid + error@);
    assert(both@ =~= (head + restart@ + mid) + error@ + Seq::<char>::empty());
    text::lemma_found_between(head + restart@ + mid, error@, Seq::empty());
}

/// The default archive is named after the time, in the current directory; an
/// archive that could not be saved is named; the helper image is a Debian.
pub proof fn law_default_archive(
    stamp: &str,
    current: &str,
    r: String,
    out: &str,
    failed: String,
    pull: Vec<String>,
)
    requires
        current@.len() > 0,
        current@.last() != '/',
        call_ensures(stamped_backup, (stamp, current), r),
        call_ensures(backup_not_saved, (out,), failed),
        call_ensures(pull_helper_args, (), pull),
    ensures
        r@ == current@ + "/pecan-backup-"@ + stamp@ + ".tar.gz"@,
        text::found(failed@, out@) is Some,
        text::texts(pull@) == seq!["pull"@, "debian:bookworm-slim"@],
{
    reveal_strlit("pecan-backup-");
    reveal_strlit("/pecan-backup-");
    let name = "pecan-backup-"@ + stamp@ + ".tar.gz"@;
    assert(name[0] == 'p');
    assert(r@ =~= current@ + "/pecan-backup-"@ + stamp@ + ".tar.gz"@);
    text::lemma_found_between(
        "save backup "@,
        out@,
        " (existing archives are never replaced)"@,
    );
}

} // verus!
