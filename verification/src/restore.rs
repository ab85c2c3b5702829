//! Replacing the processor's state from a backup archive.

use crate::backup;
use crate::install;
use crate::mint;
use crate::outside;
use crate::paths;
use crate::text;
use vstd::prelude::*;

verus! {

// ---------------------------------------------------------------------------
// the archive
// ---------------------------------------------------------------------------
pub open spec fn no_such_archive(archive: Seq<char>) -> Seq<char> {
    "no such file: "@ + archive
}

pub fn check_archive(archive: &str, is_file: bool) -> (r: Result<(), String>)
    ensures
        match r {
            Ok(_) => is_file,
            Err(message) => !is_file && message@ == no_such_archive(archive@),
        },
{
    if is_file {
        Ok(())
    } else {
        Err("no such file: ".to_owned().concat(archive))
    }
}

pub fn listing_args(archive: &str) -> (r: Vec<String>)
    ensures
        text::texts(r@) == seq!["tzf"@, archive@],
{
    let args = text::words(&["tzf", archive]);
    assert(text::texts(args@) =~= seq!["tzf"@, archive@]);
    args
}

/// What to say when the archive could not be listed.
pub fn unreadable(archive: &str) -> (r: String)
    ensures
        r@ == "could not read "@ + archive@ + " (tar tzf failed)"@,
{
    "could not read ".to_owned().concat(archive).concat(" (tar tzf failed)")
}

/// Whether an archive holds a bundled mint, from the list of its members.
pub fn archive_has_mint(listing: &[u8]) -> (r: bool)
    ensures
        r == install::some_line_begins(
            text::lines_of(outside::text_of(listing@)),
            "mint-data/"@,
        ),
{
    members_have_mint(outside::decode_lossy(listing).as_str())
}

pub fn members_have_mint(members: &str) -> (r: bool)
    ensures
        r == install::some_line_begins(text::lines_of(members@), "mint-data/"@),
{
    install::any_line_begins(members, "mint-data/")
}

pub const ARCHIVE_HAS_MINT: &'static str = "this archive contains a bundled mint (database + seed), but this install is processor-only. Re-install with --with-mint first, then restore.";

pub const ARCHIVE_LACKS_MINT: &'static str = "this install bundles a mint, but the archive has no mint data — restoring would leave the processor's ledger out of step with the running mint. Restore it into a processor-only install, or use a bundled-mint backup.";

/// An archive is restored only into an installation of the same shape.
pub fn check_shape(archive_has_mint: bool, install_has_mint: bool) -> (r: Result<(), String>)
    ensures
        match r {
            Ok(_) => archive_has_mint == install_has_mint,
            Err(message) => archive_has_mint != install_has_mint && message@ == (
            if archive_has_mint {
                ARCHIVE_HAS_MINT@
            } else {
                ARCHIVE_LACKS_MINT@
            }),
        },
{
    if archive_has_mint && !install_has_mint {
        Err(ARCHIVE_HAS_MINT.to_owned())
    } else if !archive_has_mint && install_has_mint {
        Err(ARCHIVE_LACKS_MINT.to_owned())
    } else {
        Ok(())
    }
}

/// The mint's files that are written on the host, so that a non-root operator
/// retains ownership even with a rootful daemon.
pub open spec fn mint_file_names() -> Seq<Seq<char>> {
    seq!["config.toml"@, "mnemonic"@]
}

pub fn mint_files() -> (r: Vec<String>)
    ensures
        text::texts(r@) == mint_file_names(),
{
    let names = text::words(&["config.toml", "mnemonic"]);
    assert(text::texts(names@) =~= mint_file_names());
    names
}

/// Reads one of the mint's files out of the archive.
pub fn extract_args(archive: &str, name: &str) -> (r: Vec<String>)
    ensures
        text::texts(r@) == seq!["xOzf"@, archive@, "install/mint/"@ + name@],
{
    let member = "install/mint/".to_owned().concat(name);
    let args = text::words(&["xOzf", archive, member.as_str()]);
    assert(text::texts(args@) =~= seq!["xOzf"@, archive@, "install/mint/"@ + name@]);
    args
}

pub fn mint_file_missing(name: &str) -> (r: String)
    ensures
        r@ == "archive is missing mint/"@ + name@,
{
    "archive is missing mint/".to_owned().concat(name)
}

/// Only the operator may enter the mint's directory.
pub const MINT_DIR_MODE: u32 = 0o700;

/// Only the operator may read the mint's files.
pub const MINT_FILE_MODE: u32 = 0o600;

/// The mint's directory on the host, and its mode.
pub fn restored_mint_dir(install_dir: &str) -> (r: (String, u32))
    ensures
        r.0@ == mint::mint_dir(install_dir@),
        r.1 == 0o700,
{
    (paths::join(install_dir, "mint"), MINT_DIR_MODE)
}

/// A file that is put back on the host.
pub struct RestoredFile {
    pub path: String,
    pub contents: Vec<u8>,
    pub mode: u32,
}

/// Where the mint's file with this place is written.
pub open spec fn mint_file_path(install_dir: Seq<char>, place: int) -> Seq<char> {
    paths::below(mint::mint_dir(install_dir), mint_file_names()[place])
}

/// The mint's file with this place, from the members that were read out of the
/// archive: each is written as it was read.
pub fn restored_mint_file(install_dir: &str, members: &Vec<Vec<u8>>, place: u8) -> (r:
    RestoredFile)
    requires
        place < mint_file_names().len(),
        place < members@.len(),
    ensures
        r.path@ == mint_file_path(install_dir@, place as int),
        r.contents@ == members@[place as int]@,
        r.mode == 0o600,
{
    let names = mint_files();
    let dir = restored_mint_dir(install_dir).0;
    assert(text::texts(names@)[place as int] == names@[place as int]@);
    RestoredFile {
        path: paths::join(dir.as_str(), names[place as usize].as_str()),
        contents: members[place as usize].clone(),
        mode: MINT_FILE_MODE,
    }
}

/// What is said before the confirmation is asked for.
pub open spec fn restore_notice(project: Seq<char>, with_mint: bool) -> Seq<Seq<char>> {
    seq![
        "Restoring replaces the processor's current state (attachment config,"@,
        "operator accounts, ticket ledger) of project '"@ + project + "' with the archive"@,
        if with_mint {
            "contents, INCLUDING the mint's database and seed. (.env is not touched.)"@
        } else {
            "contents. (.env is not touched; the mint is unaffected.)"@
        },
    ]
}

pub fn notice(project: &str, with_mint: bool) -> (r: Vec<String>)
    ensures
        text::texts(r@) == restore_notice(project@, with_mint),
{
    let accounts = "operator accounts, ticket ledger) of project '".to_owned()
        .concat(project)
        .concat("' with the archive");
    let contents = if with_mint {
        "contents, INCLUDING the mint's database and seed. (.env is not touched.)"
    } else {
        "contents. (.env is not touched; the mint is unaffected.)"
    };
    let lines = text::words(
        &[
            "Restoring replaces the processor's current state (attachment config,",
            accounts.as_str(),
            contents,
        ],
    );
    assert(text::texts(lines@) =~= restore_notice(project@, with_mint));
    lines
}

// ---------------------------------------------------------------------------
// the commands
// ---------------------------------------------------------------------------
pub fn down_args() -> (r: Vec<String>)
    ensures
        text::texts(r@) == seq!["down"@, "--remove-orphans"@],
{
    let args = text::words(&["down", "--remove-orphans"]);
    assert(text::texts(args@) =~= seq!["down"@, "--remove-orphans"@]);
    args
}

pub fn up_args() -> (r: Vec<String>)
    ensures
        text::texts(r@) == seq!["up"@, "-d"@, "--remove-orphans"@],
{
    let args = text::words(&["up", "-d", "--remove-orphans"]);
    assert(text::texts(args@) =~= seq!["up"@, "-d"@, "--remove-orphans"@]);
    args
}

/// The volumes that are filled from the archive.
pub open spec fn volume_names(project: Seq<char>, with_mint: bool) -> Seq<Seq<char>> {
    seq![project + "_config-data"@, project + "_processor-data"@] + (if with_mint {
        seq![project + "_mintd-data"@]
    } else {
        Seq::empty()
    })
}

pub fn volumes(project: &str, with_mint: bool) -> (r: Vec<String>)
    ensures
        text::texts(r@) == volume_names(project@, with_mint),
{
    broadcast use text::lemma_texts_push;

    let mut names: Vec<String> = Vec::new();
    names.push(project.to_owned().concat("_config-data"));
    names.push(project.to_owned().concat("_processor-data"));
    if with_mint {
        names.push(project.to_owned().concat("_mintd-data"));
    }
    assert(text::texts(names@) =~= volume_names(project@, with_mint));
    names
}

pub fn create_volume_args(volume: &str) -> (r: Vec<String>)
    ensures
        text::texts(r@) == seq!["volume"@, "create"@, volume@],
{
    let args = text::words(&["volume", "create", volume]);
    assert(text::texts(args@) =~= seq!["volume"@, "create"@, volume@]);
    args
}

pub fn volume_not_created(volume: &str) -> (r: String)
    ensures
        r@ == "could not create volume "@ + volume@,
{
    "could not create volume ".to_owned().concat(volume)
}

pub const RESTORE_SCRIPT: &'static str = "find /restore/config /restore/processor -mindepth 1 -delete && tar xzf \"$1\" -C /restore config processor";

pub const RESTORE_SCRIPT_WITH_MINT: &'static str = "find /restore/config /restore/processor /restore/mint-data -mindepth 1 -delete && tar xzf \"$1\" -C /restore config processor mint-data";

pub open spec fn script_for(with_mint: bool) -> Seq<char> {
    if with_mint {
        RESTORE_SCRIPT_WITH_MINT@
    } else {
        RESTORE_SCRIPT@
    }
}

/// The container that empties the volumes and fills them from the archive. The
/// archive's name is a positional argument of the shell, never shell source.
pub open spec fn restore_command(
    project: Seq<char>,
    archive_dir: Seq<char>,
    archive_name: Seq<char>,
    with_mint: bool,
) -> Seq<Seq<char>> {
    seq![
        "run"@,
        "--rm"@,
        "-v"@,
        project + "_config-data:/restore/config"@,
        "-v"@,
        project + "_processor-data:/restore/processor"@,
        "-v"@,
        archive_dir + ":/in:ro"@,
    ] + (if with_mint {
        seq!["-v"@, project + "_mintd-data:/restore/mint-data"@]
    } else {
        Seq::empty()
    }) + seq![
        backup::HELPER_IMAGE@,
        "sh"@,
        "-c"@,
        script_for(with_mint),
        "restore"@,
        "/in/"@ + archive_name,
    ]
}

pub fn restore_args(project: &str, archive_dir: &str, archive_name: &str, with_mint: bool) -> (r: Vec<
    String,
>)
    ensures
        text::texts(r@) == restore_command(project@, archive_dir@, archive_name@, with_mint),
{
    broadcast use text::lemma_texts_push;

    let mut args = text::words(&["run", "--rm", "-v"]);
    args.push(project.to_owned().concat("_config-data:/restore/config"));
    args.push("-v".to_owned());
    args.push(project.to_owned().concat("_processor-data:/restore/processor"));
    args.push("-v".to_owned());
    args.push(archive_dir.to_owned().concat(":/in:ro"));
    if with_mint {
        args.push("-v".to_owned());
        args.push(project.to_owned().concat("_mintd-data:/restore/mint-data"));
    }
    let script = if with_mint {
        RESTORE_SCRIPT_WITH_MINT
    } else {
        RESTORE_SCRIPT
    };
    args.push(backup::HELPER_IMAGE.to_owned());
    args.push("sh".to_owned());
    args.push("-c".to_owned());
    args.push(script.to_owned());
    args.push("restore".to_owned());
    args.push("/in/".to_owned().concat(archive_name));
    assert(text::texts(args@) =~= restore_command(
        project@,
        archive_dir@,
        archive_name@,
        with_mint,
    ));
    args
}

pub const RESTORE_CANCELLED: &'static str = "restore cancelled";

pub const RESTORE_CONTAINER_FAILED: &'static str = "the restore container failed";

pub const RESTORE_COMPLETE: &'static str = "restore complete — check 'mintctl status'";

// ---------------------------------------------------------------------------
// the steps
// ---------------------------------------------------------------------------
/// What is asked or done next. Each step is answered with yes or no: whether
/// it is so, or whether it worked.
#[derive(Debug, Clone, Copy, PartialEq, Eq, Structural)]
pub enum RestoreStep {
    /// Take the installation's operation lock.
    TakeLock,
    /// Read the `.env`.
    ReadEnv,
    /// Is the archive a file?
    FindArchive,
    ListMembers,
    /// Does it hold a bundled mint?
    HasMint,
    /// Has the installation the same shape?
    ShapeFits,
    /// Read the mint's file with this place. They are read before anything is
    /// stopped or replaced.
    ReadMintFile { place: u8 },
    /// Does the operator want it?
    Confirm,
    TakeDown,
    /// Make the volume with this place, where it is not there.
    MakeVolume { place: u8 },
    FillVolumes,
    /// Make the mint's directory on the host.
    MakeMintDir,
    /// Write the mint's file with this place.
    WriteMintFile { place: u8 },
    BringUp,
    End(RestoreEnd),
}

#[derive(Debug, Clone, Copy, PartialEq, Eq, Structural)]
pub enum RestoreEnd {
    Restored,
    /// Nothing was touched.
    Refused,
    /// The operator said no; nothing was touched.
    Cancelled,
    /// The stack was taken down, and is not up again.
    Interrupted,
}

#[derive(Debug, Clone, Copy, PartialEq, Eq, Structural)]
pub struct Restore {
    pub step: RestoreStep,
    pub with_mint: bool,
}

pub open spec fn restore_start() -> Restore {
    Restore { step: RestoreStep::TakeLock, with_mint: false }
}

pub open spec fn restore_next(s: Restore, yes: bool) -> Restore {
    let with_mint = if s.step is HasMint {
        yes
    } else {
        s.with_mint
    };
    let step = match s.step {
        RestoreStep::TakeLock => if yes {
            RestoreStep::ReadEnv
        } else {
            RestoreStep::End(RestoreEnd::Refused)
        },
        RestoreStep::ReadEnv => if yes {
            RestoreStep::FindArchive
        } else {
            RestoreStep::End(RestoreEnd::Refused)
        },
        RestoreStep::FindArchive => if yes {
            RestoreStep::ListMembers
        } else {
            RestoreStep::End(RestoreEnd::Refused)
        },
        RestoreStep::ListMembers => if yes {
            RestoreStep::HasMint
        } else {
            RestoreStep::End(RestoreEnd::Refused)
        },
        RestoreStep::HasMint => RestoreStep::ShapeFits,
        RestoreStep::ShapeFits => if !yes {
            RestoreStep::End(RestoreEnd::Refused)
        } else if s.with_mint {
            RestoreStep::ReadMintFile { place: 0 }
        } else {
            RestoreStep::Confirm
        },
        RestoreStep::ReadMintFile { place } => if !yes {
            RestoreStep::End(RestoreEnd::Refused)
        } else if place == 0 {
            RestoreStep::ReadMintFile { place: 1 }
        } else {
            RestoreStep::Confirm
        },
        RestoreStep::Confirm => if yes {
            RestoreStep::TakeDown
        } else {
            RestoreStep::End(RestoreEnd::Cancelled)
        },
        RestoreStep::TakeDown => if yes {
            RestoreStep::MakeVolume { place: 0 }
        } else {
            RestoreStep::End(RestoreEnd::Interrupted)
        },
        RestoreStep::MakeVolume { place } => if !yes {
            RestoreStep::End(RestoreEnd::Interrupted)
        } else if place == 0 {
            RestoreStep::MakeVolume { place: 1 }
        } else if place == 1 && s.with_mint {
            RestoreStep::MakeVolume { place: 2 }
        } else {
            RestoreStep::FillVolumes
        },
        RestoreStep::FillVolumes => if !yes {
            RestoreStep::End(RestoreEnd::Interrupted)
        } else if s.with_mint {
            RestoreStep::MakeMintDir
        } else {
            RestoreStep::BringUp
        },
        RestoreStep::MakeMintDir => if yes {
            RestoreStep::WriteMintFile { place: 0 }
        } else {
            RestoreStep::End(RestoreEnd::Interrupted)
        },
        RestoreStep::WriteMintFile { place } => if !yes {
            RestoreStep::End(RestoreEnd::Interrupted)
        } else if place == 0 {
            RestoreStep::WriteMintFile { place: 1 }
        } else {
            RestoreStep::BringUp
        },
        RestoreStep::BringUp => if yes {
            RestoreStep::End(RestoreEnd::Restored)
        } else {
            RestoreStep::End(RestoreEnd::Interrupted)
        },
        RestoreStep::End(end) => RestoreStep::End(end),
    };
    Restore { step, with_mint }
}

/// Starts a restore; `next` takes it through its steps.
pub fn restore() -> (r: Restore)
    ensures
        r == restore_start(),
{
    Restore { step: RestoreStep::TakeLock, with_mint: false }
}

impl Restore {
    pub fn next(self, yes: bool) -> (r: Self)
        ensures
            r == restore_next(self, yes),
    {
        let s = self;
        let with_mint = match s.step {
            RestoreStep::HasMint => yes,
            _ => s.with_mint,
        };
        let step = match s.step {
            RestoreStep::TakeLock => if yes {
                RestoreStep::ReadEnv
            } else {
                RestoreStep::End(RestoreEnd::Refused)
            },
            RestoreStep::ReadEnv => if yes {
                RestoreStep::FindArchive
            } else {
                RestoreStep::End(RestoreEnd::Refused)
            },
            RestoreStep::FindArchive => if yes {
                RestoreStep::ListMembers
            } else {
                RestoreStep::End(RestoreEnd::Refused)
            },
            RestoreStep::ListMembers => if yes {
                RestoreStep::HasMint
            } else {
                RestoreStep::End(RestoreEnd::Refused)
            },
            RestoreStep::HasMint => RestoreStep::ShapeFits,
            RestoreStep::ShapeFits => if !yes {
                RestoreStep::End(RestoreEnd::Refused)
            } else if s.with_mint {
                RestoreStep::ReadMintFile { place: 0 }
            } else {
                RestoreStep::Confirm
            },
            RestoreStep::ReadMintFile { place } => if !yes {
                RestoreStep::End(RestoreEnd::Refused)
            } else if place == 0 {
                RestoreStep::ReadMintFile { place: 1 }
            } else {
                RestoreStep::Confirm
            },
            RestoreStep::Confirm => if yes {
                RestoreStep::TakeDown
            } else {
                RestoreStep::End(RestoreEnd::Cancelled)
            },
            RestoreStep::TakeDown => if yes {
                RestoreStep::MakeVolume { place: 0 }
            } else {
                RestoreStep::End(RestoreEnd::Interrupted)
            },
            RestoreStep::MakeVolume { place } => if !yes {
                RestoreStep::End(RestoreEnd::Interrupted)
            } else if place == 0 {
                RestoreStep::MakeVolume { place: 1 }
            } else if place == 1 && s.with_mint {
                RestoreStep::MakeVolume { place: 2 }
            } else {
                RestoreStep::FillVolumes
            },
            RestoreStep::FillVolumes => if !yes {
                RestoreStep::End(RestoreEnd::Interrupted)
            } else if s.with_mint {
                RestoreStep::MakeMintDir
            } else {
                RestoreStep::BringUp
            },
            RestoreStep::MakeMintDir => if yes {
                RestoreStep::WriteMintFile { place: 0 }
            } else {
                RestoreStep::End(RestoreEnd::Interrupted)
            },
            RestoreStep::WriteMintFile { place } => if !yes {
                RestoreStep::End(RestoreEnd::Interrupted)
            } else if place == 0 {
                RestoreStep::WriteMintFile { place: 1 }
            } else {
                RestoreStep::BringUp
            },
            RestoreStep::BringUp => if yes {
                RestoreStep::End(RestoreEnd::Restored)
            } else {
                RestoreStep::End(RestoreEnd::Interrupted)
            },
            RestoreStep::End(end) => RestoreStep::End(end),
        };
        Restore { step, with_mint }
    }
}

/// Where a restore stands after these answers.
pub open spec fn restore_after(answers: Seq<bool>) -> Restore
    decreases answers.len(),
{
    if answers.len() == 0 {
        restore_start()
    } else {
        restore_next(restore_after(answers.drop_last()), answers.last())
    }
}

/// That the restore came by this step, and the answer was yes.
pub open spec fn agreed(answers: Seq<bool>, step: RestoreStep) -> bool {
    exists|i: int|
        0 <= i < answers.len() && #[trigger] restore_after(answers.take(i)).step == step
            && answers[i]
}

proof fn lemma_agreed(answers: Seq<bool>, step: RestoreStep)
    requires
        answers.len() > 0,
    ensures
        agreed(answers, step) <==> agreed(answers.drop_last(), step) || (restore_after(
            answers.drop_last(),
        ).step == step && answers.last()),
{
    let before = answers.drop_last();
    assert(answers.take(before.len() as int) =~= before);
    if agreed(before, step) {
        let i = choose|i: int|
            0 <= i < before.len() && #[trigger] restore_after(before.take(i)).step == step
                && before[i];
        assert(answers.take(i) =~= before.take(i));
    }
    if agreed(answers, step) {
        let i = choose|i: int|
            0 <= i < answers.len() && #[trigger] restore_after(answers.take(i)).step == step
                && answers[i];
        if i < before.len() {
            assert(before.take(i) =~= answers.take(i));
        }
    }
}

/// Steps at which something is, or may have been, stopped or replaced.
pub open spec fn touching(step: RestoreStep) -> bool {
    match step {
        RestoreStep::TakeDown | RestoreStep::MakeVolume { .. } | RestoreStep::FillVolumes
        | RestoreStep::MakeMintDir | RestoreStep::WriteMintFile { .. } | RestoreStep::BringUp => true,
        RestoreStep::End(end) => end == RestoreEnd::Restored || end == RestoreEnd::Interrupted,
        _ => false,
    }
}

/// The lock is the first question: where it is not had, the restore is refused.
pub proof fn law_restore_takes_the_lock_first(answers: Seq<bool>)
    requires
        answers.len() > 0,
    ensures
        restore_start().step is TakeLock,
        !answers[0] ==> restore_after(answers).step == RestoreStep::End(RestoreEnd::Refused),
        answers[0] ==> !(restore_after(answers).step is TakeLock),
    decreases answers.len(),
{
    if answers.len() > 1 {
        law_restore_takes_the_lock_first(answers.drop_last());
    } else {
        assert(restore_after(answers.drop_last()) == restore_start());
    }
}

/// Nothing is stopped or replaced before the lock was taken, the archive was
/// found to fit the installation, the mint's files were read, where there are
/// any, and the operator agreed.
pub proof fn law_nothing_is_touched_unasked(answers: Seq<bool>)
    requires
        touching(restore_after(answers).step),
    ensures
        agreed(answers, RestoreStep::TakeLock),
        agreed(answers, RestoreStep::ShapeFits),
        agreed(answers, RestoreStep::Confirm),
        restore_after(answers).with_mint ==> agreed(answers, RestoreStep::ReadMintFile { place: 0 })
            && agreed(answers, RestoreStep::ReadMintFile { place: 1 }),
{
    lemma_touching(answers);
}

proof fn lemma_touching(answers: Seq<bool>)
    ensures
        ({
            let s = restore_after(answers);
            let asked = s.step is Confirm || touching(s.step);
            let refused = s.step == RestoreStep::End(RestoreEnd::Refused);
            &&& !(s.step is TakeLock) && !refused ==> agreed(answers, RestoreStep::TakeLock)
            &&& asked || s.step is ReadMintFile ==> agreed(answers, RestoreStep::ShapeFits)
            &&& touching(s.step) ==> agreed(answers, RestoreStep::Confirm)
            &&& (asked && s.with_mint) || s.step == (RestoreStep::ReadMintFile { place: 1 })
                ==> agreed(answers, RestoreStep::ReadMintFile { place: 0 })
            &&& asked && s.with_mint ==> agreed(answers, RestoreStep::ReadMintFile { place: 1 })
            &&& s.step matches RestoreStep::ReadMintFile { place } ==> place <= 1
        }),
    decreases answers.len(),
{
    if answers.len() > 0 {
        lemma_touching(answers.drop_last());
        lemma_agreed(answers, RestoreStep::TakeLock);
        lemma_agreed(answers, RestoreStep::ShapeFits);
        lemma_agreed(answers, RestoreStep::Confirm);
        lemma_agreed(answers, RestoreStep::ReadMintFile { place: 0 });
        lemma_agreed(answers, RestoreStep::ReadMintFile { place: 1 });
    }
}

/// A restore that was refused or cancelled took nothing down.
pub proof fn law_refused_restore_touches_nothing(answers: Seq<bool>, i: int)
    requires
        0 <= i <= answers.len(),
        restore_after(answers).step == RestoreStep::End(RestoreEnd::Refused) || restore_after(
            answers,
        ).step == RestoreStep::End(RestoreEnd::Cancelled),
    ensures
        !touching(restore_after(answers.take(i)).step),
{
    if i == answers.len() {
        assert(answers.take(i) =~= answers);
    } else {
        lemma_touched_stays(answers, i);
    }
}

/// Once something was touched, no later step says otherwise.
proof fn lemma_touched_stays(answers: Seq<bool>, i: int)
    requires
        0 <= i <= answers.len(),
    ensures
        touching(restore_after(answers.take(i)).step) ==> touching(restore_after(answers).step),
    decreases answers.len(),
{
    if i < answers.len() {
        let before = answers.drop_last();
        lemma_touched_stays(before, i);
        assert(before.take(i) =~= answers.take(i));
    } else {
        assert(answers.take(i) =~= answers);
    }
}

/// A lock that is not had, an archive that cannot be read or does not fit the
/// installation, a file of the mint that the archive lacks, and an operator who
/// declines: each ends the restore with nothing stopped or replaced.
pub proof fn law_a_refusal_comes_first(answers: Seq<bool>, i: int)
    requires
        0 <= i <= answers.len(),
        answers.len() > 0,
        !answers.last(),
        ({
            let step = restore_after(answers.drop_last()).step;
            step is TakeLock || step is ReadEnv || step is FindArchive || step is ListMembers
                || step is ShapeFits || step is ReadMintFile || step is Confirm
        }),
    ensures
        restore_after(answers).step == RestoreStep::End(RestoreEnd::Refused) || restore_after(
            answers,
        ).step == RestoreStep::End(RestoreEnd::Cancelled),
        !touching(restore_after(answers.take(i)).step),
{
    law_refused_restore_touches_nothing(answers, i);
}

/// What is written on the host: directories with their modes, and files with
/// their contents and modes.
pub struct HostWrites {
    pub dirs: Map<Seq<char>, u32>,
    pub files: Map<Seq<char>, (Seq<u8>, u32)>,
}

pub open spec fn no_writes() -> HostWrites {
    HostWrites { dirs: Map::empty(), files: Map::empty() }
}

/// The mint's directory and its first `count` files, from the archive's
/// members.
pub open spec fn mint_writes(
    install_dir: Seq<char>,
    members: Seq<Seq<u8>>,
    count: int,
) -> HostWrites {
    let config = Map::empty().insert(
        mint_file_path(install_dir, 0),
        (members[0], MINT_FILE_MODE),
    );
    HostWrites {
        dirs: Map::empty().insert(mint::mint_dir(install_dir), MINT_DIR_MODE),
        files: if count == 0 {
            Map::empty()
        } else if count == 1 {
            config
        } else {
            config.insert(mint_file_path(install_dir, 1), (members[1], MINT_FILE_MODE))
        },
    }
}

/// What the steps that worked have written on the host after these answers.
/// `members` are the mint's files as the archive holds them.
pub open spec fn writes_after(
    install_dir: Seq<char>,
    members: Seq<Seq<u8>>,
    answers: Seq<bool>,
) -> HostWrites
    decreases answers.len(),
{
    if answers.len() == 0 {
        no_writes()
    } else {
        let before = writes_after(install_dir, members, answers.drop_last());
        match restore_after(answers.drop_last()).step {
            RestoreStep::MakeMintDir if answers.last() => HostWrites {
                dirs: before.dirs.insert(mint::mint_dir(install_dir), MINT_DIR_MODE),
                files: before.files,
            },
            RestoreStep::WriteMintFile { place } if answers.last() => HostWrites {
                dirs: before.dirs,
                files: before.files.insert(
                    mint_file_path(install_dir, place as int),
                    (members[place as int], MINT_FILE_MODE),
                ),
            },
            _ => before,
        }
    }
}

/// A finished restore has filled the volumes. With a bundled mint it has
/// written the mint's directory and its two files, with the archive's contents,
/// for the operator alone; without one it has written nothing on the host.
pub proof fn law_what_a_restore_writes(
    install_dir: Seq<char>,
    members: Seq<Seq<u8>>,
    answers: Seq<bool>,
)
    requires
        restore_after(answers).step == RestoreStep::End(RestoreEnd::Restored),
    ensures
        agreed(answers, RestoreStep::FillVolumes),
        writes_after(install_dir, members, answers) == (if restore_after(answers).with_mint {
            mint_writes(install_dir, members, 2)
        } else {
            no_writes()
        }),
{
    lemma_writes(install_dir, members, answers);
    lemma_filled(answers);
}

/// However far a restore comes, `.env` is not written. No other file is either
/// but the mint's own two, and those only with a bundled mint.
pub proof fn law_env_is_not_touched(
    install_dir: Seq<char>,
    members: Seq<Seq<u8>>,
    answers: Seq<bool>,
)
    ensures
        ({
            let writes = writes_after(install_dir, members, answers);
            &&& !writes.files.contains_key(paths::below(install_dir, install::ENV_FILE@))
            &&& forall|path: Seq<char>| #[trigger]
                writes.files.contains_key(path) ==> path == mint_file_path(install_dir, 0) || path
                    == mint_file_path(install_dir, 1)
            &&& !restore_after(answers).with_mint || !touching(restore_after(answers).step)
                ==> writes == no_writes()
        }),
{
    lemma_writes(install_dir, members, answers);
    lemma_not_env(install_dir);
}

proof fn lemma_writes(install_dir: Seq<char>, members: Seq<Seq<u8>>, answers: Seq<bool>)
    ensures
        ({
            let s = restore_after(answers);
            let writes = writes_after(install_dir, members, answers);
            &&& s.step is MakeMintDir || s.step is WriteMintFile ==> s.with_mint
            &&& match s.step {
                RestoreStep::WriteMintFile { place } => place <= 1 && writes == mint_writes(
                    install_dir,
                    members,
                    place as int,
                ),
                RestoreStep::BringUp | RestoreStep::End(RestoreEnd::Restored) => writes == (
                if s.with_mint {
                    mint_writes(install_dir, members, 2)
                } else {
                    no_writes()
                }),
                RestoreStep::End(RestoreEnd::Interrupted) => writes == no_writes() || (s.with_mint
                    && exists|count: int|
                    0 <= count <= 2 && writes == #[trigger] mint_writes(
                        install_dir,
                        members,
                        count,
                    )),
                _ => writes == no_writes(),
            }
        }),
    decreases answers.len(),
{
    if answers.len() > 0 {
        lemma_writes(install_dir, members, answers.drop_last());
        assert(mint_writes(install_dir, members, 0).files =~= Map::empty());
    }
}

proof fn lemma_filled(answers: Seq<bool>)
    ensures
        ({
            let step = restore_after(answers).step;
            step is MakeMintDir || step is WriteMintFile || step is BringUp || step
                == RestoreStep::End(RestoreEnd::Restored)
        }) ==> agreed(answers, RestoreStep::FillVolumes),
    decreases answers.len(),
{
    if answers.len() > 0 {
        lemma_filled(answers.drop_last());
        lemma_agreed(answers, RestoreStep::FillVolumes);
    }
}

/// The mint's files are not `.env`: the names end in different letters.
proof fn lemma_not_env(install_dir: Seq<char>)
    ensures
        paths::below(install_dir, install::ENV_FILE@) != mint_file_path(install_dir, 0),
        paths::below(install_dir, install::ENV_FILE@) != mint_file_path(install_dir, 1),
{
    reveal_strlit(".env");
    reveal_strlit("config.toml");
    reveal_strlit("mnemonic");
    assert(paths::below(install_dir, install::ENV_FILE@).last() == 'v');
    assert(mint_file_path(install_dir, 0).last() == 'l');
    assert(mint_file_path(install_dir, 1).last() == 'c');
}

/// Where the archive holds the contents of each volume.
pub open spec fn places(with_mint: bool) -> Seq<Seq<char>> {
    seq!["config"@, "processor"@] + (if with_mint {
        seq!["mint-data"@]
    } else {
        Seq::empty()
    })
}

/// What a backup saves is what a restore puts back: each volume is archived
/// under the name that it is restored from, and the mint's files are read where
/// the backup has put them.
pub proof fn law_restore_puts_back_what_backup_saved(
    project: Seq<char>,
    install_dir: Seq<char>,
    archive_dir: Seq<char>,
    archive_name: Seq<char>,
    with_mint: bool,
    i: int,
)
    requires
        0 <= i < volume_names(project, with_mint).len(),
    ensures
        places(with_mint).len() == volume_names(project, with_mint).len(),
        backup::archive_members(with_mint).contains(places(with_mint)[i]),
        backup::backup_command(project, install_dir, with_mint).contains(
            volume_names(project, with_mint)[i] + ":/backup/"@ + places(with_mint)[i] + ":ro"@,
        ),
        restore_command(project, archive_dir, archive_name, with_mint).contains(
            volume_names(project, with_mint)[i] + ":/restore/"@ + places(with_mint)[i],
        ),
        text::found(
            script_for(with_mint),
            " -C /restore "@ + text::joined(places(with_mint), " "@),
        ) is Some,
        with_mint ==> backup::archive_members(with_mint).contains("install/mint"@),
{
    let members = backup::archive_members(with_mint);
    let saved = backup::backup_command(project, install_dir, with_mint);
    let put_back = restore_command(project, archive_dir, archive_name, with_mint);
    lemma_mounts(project);
    assert(members[i] == places(with_mint)[i] || members[3] == places(with_mint)[i]);
    if i == 0 {
        assert(saved[5] == project + "_config-data:/backup/config:ro"@);
        assert(put_back[3] == project + "_config-data:/restore/config"@);
    } else if i == 1 {
        assert(saved[7] == project + "_processor-data:/backup/processor:ro"@);
        assert(put_back[5] == project + "_processor-data:/restore/processor"@);
    } else {
        assert(saved[11] == project + "_mintd-data:/backup/mint-data:ro"@);
        assert(put_back[9] == project + "_mintd-data:/restore/mint-data"@);
    }
    if with_mint {
        assert(members[4] == "install/mint"@);
    }
    lemma_scripts(with_mint);
}

proof fn lemma_mounts(project: Seq<char>)
    ensures
        project + "_config-data:/backup/config:ro"@ == project + "_config-data"@ + ":/backup/"@
            + "config"@ + ":ro"@,
        project + "_config-data:/restore/config"@ == project + "_config-data"@ + ":/restore/"@
            + "config"@,
        project + "_processor-data:/backup/processor:ro"@ == project + "_processor-data"@
            + ":/backup/"@ + "processor"@ + ":ro"@,
        project + "_processor-data:/restore/processor"@ == project + "_processor-data"@
            + ":/restore/"@ + "processor"@,
        project + "_mintd-data:/backup/mint-data:ro"@ == project + "_mintd-data"@ + ":/backup/"@
            + "mint-data"@ + ":ro"@,
        project + "_mintd-data:/restore/mint-data"@ == project + "_mintd-data"@ + ":/restore/"@
            + "mint-data"@,
{
    reveal_strlit(":/backup/");
    reveal_strlit(":/restore/");
    reveal_strlit(":ro");
    reveal_strlit("config");
    reveal_strlit("processor");
    reveal_strlit("mint-data");
    reveal_strlit("_config-data");
    reveal_strlit("_processor-data");
    reveal_strlit("_mintd-data");
    reveal_strlit("_config-data:/backup/config:ro");
    reveal_strlit("_config-data:/restore/config");
    reveal_strlit("_processor-data:/backup/processor:ro");
    reveal_strlit("_processor-data:/restore/processor");
    reveal_strlit("_mintd-data:/backup/mint-data:ro");
    reveal_strlit("_mintd-data:/restore/mint-data");
    assert(project + "_config-data:/backup/config:ro"@ =~= project + "_config-data"@
        + ":/backup/"@ + "config"@ + ":ro"@);
    assert(project + "_config-data:/restore/config"@ =~= project + "_config-data"@
        + ":/restore/"@ + "config"@);
    assert(project + "_processor-data:/backup/processor:ro"@ =~= project + "_processor-data"@
        + ":/backup/"@ + "processor"@ + ":ro"@);
    assert(project + "_processor-data:/restore/processor"@ =~= project + "_processor-data"@
        + ":/restore/"@ + "processor"@);
    assert(project + "_mintd-data:/backup/mint-data:ro"@ =~= project + "_mintd-data"@
        + ":/backup/"@ + "mint-data"@ + ":ro"@);
    assert(project + "_mintd-data:/restore/mint-data"@ =~= project + "_mintd-data"@
        + ":/restore/"@ + "mint-data"@);
}

/// The script unpacks exactly the volumes' places.
proof fn lemma_scripts(with_mint: bool)
    ensures
        text::found(
            script_for(with_mint),
            " -C /restore "@ + text::joined(places(with_mint), " "@),
        ) is Some,
{
    let tail = " -C /restore "@ + text::joined(places(with_mint), " "@);
    reveal_strlit(" -C /restore ");
    reveal_strlit(" ");
    reveal_strlit("config");
    reveal_strlit("processor");
    reveal_strlit("mint-data");
    reveal_with_fuel(text::joined, 4);
    if with_mint {
        reveal_strlit(
            "find /restore/config /restore/processor /restore/mint-data -mindepth 1 -delete && tar xzf \"$1\" -C /restore config processor mint-data",
        );
    } else {
        reveal_strlit(
            "find /restore/config /restore/processor -mindepth 1 -delete && tar xzf \"$1\" -C /restore config processor",
        );
    }
    let script = script_for(with_mint);
    let head = script.take(script.len() - tail.len());
    assert(script =~= head + tail + Seq::<char>::empty());
    text::lemma_found_between(head, tail, Seq::empty());
}

// ---------------------------------------------------------------------------
// laws of the commands
// ---------------------------------------------------------------------------
/// Whatever the shape, the restore container has the archive's directory, where
/// it cannot change it, and the volumes that it fills, the mint's exactly with a
/// bundled one; and the archive's name is its last argument, below that
/// directory.
pub proof fn law_restore_container_has_the_archive(
    project: &str,
    archive_dir: &str,
    archive_name: &str,
    with_mint: bool,
    r: Vec<String>,
)
    requires
        call_ensures(restore_args, (project, archive_dir, archive_name, with_mint), r),
    ensures
        ({
            let s = text::texts(r@);
            let image = s.len() - 6;
            &&& s[0] == "run"@ && s[1] == "--rm"@
            &&& s.len() == (if with_mint {
                16int
            } else {
                14
            })
            &&& s[image] == "debian:bookworm-slim"@
            &&& backup::mounts(s, image, archive_dir@ + ":/in:ro"@)
            &&& backup::mounts(s, image, project@ + "_config-data:/restore/config"@)
            &&& backup::mounts(s, image, project@ + "_processor-data:/restore/processor"@)
            &&& with_mint ==> backup::mounts(
                s,
                image,
                project@ + "_mintd-data:/restore/mint-data"@,
            )
            &&& s[image + 1] == "sh"@ && s[image + 2] == "-c"@
            &&& s.last() == "/in/"@ + archive_name@
        }),
{
    let s = text::texts(r@);
    let image = s.len() - 6;
    assert(s[2] == "-v"@ && s[4] == "-v"@ && s[6] == "-v"@);
    assert(s[3] == project@ + "_config-data:/restore/config"@);
    assert(s[5] == project@ + "_processor-data:/restore/processor"@);
    assert(s[7] == archive_dir@ + ":/in:ro"@);
    if with_mint {
        assert(s[8] == "-v"@);
        assert(s[9] == project@ + "_mintd-data:/restore/mint-data"@);
    }
}

/// The script empties each volume that it fills, and fills each that it empties,
/// out of its first argument; without a bundled mint that is not the mint's.
pub proof fn law_restore_script(
    project: &str,
    archive_dir: &str,
    archive_name: &str,
    with_mint: bool,
    r: Vec<String>,
)
    requires
        call_ensures(restore_args, (project, archive_dir, archive_name, with_mint), r),
    ensures
        ({
            let s = text::texts(r@);
            let script = s[s.len() - 3];
            let places = if with_mint {
                "config processor mint-data"@
            } else {
                "config processor"@
            };
            let emptied = if with_mint {
                "/restore/config /restore/processor /restore/mint-data"@
            } else {
                "/restore/config /restore/processor"@
            };
            script == "find "@ + emptied + " -mindepth 1 -delete && tar xzf \"$1\" -C /restore "@
                + places
        }),
{
    let s = text::texts(r@);
    let script = s[s.len() - 3];
    reveal_strlit("config processor mint-data");
    reveal_strlit("config processor");
    reveal_strlit("/restore/config /restore/processor /restore/mint-data");
    reveal_strlit("/restore/config /restore/processor");
    reveal_strlit("find ");
    reveal_strlit(" -mindepth 1 -delete && tar xzf \"$1\" -C /restore ");
    if with_mint {
        reveal_strlit(
            "find /restore/config /restore/processor /restore/mint-data -mindepth 1 -delete && tar xzf \"$1\" -C /restore config processor mint-data",
        );
        assert(script =~= "find "@ + "/restore/config /restore/processor /restore/mint-data"@
            + " -mindepth 1 -delete && tar xzf \"$1\" -C /restore "@
            + "config processor mint-data"@);
    } else {
        reveal_strlit(
            "find /restore/config /restore/processor -mindepth 1 -delete && tar xzf \"$1\" -C /restore config processor",
        );
        assert(script =~= "find "@ + "/restore/config /restore/processor"@
            + " -mindepth 1 -delete && tar xzf \"$1\" -C /restore "@ + "config processor"@);
    }
}

/// Each volume that is mounted is one that is made where it is missing: the
/// mint's exactly with a bundled one.
pub proof fn law_restored_volumes(project: &str, with_mint: bool, r: Vec<String>)
    requires
        call_ensures(volumes, (project, with_mint), r),
    ensures
        text::texts(r@).contains(project@ + "_config-data"@),
        text::texts(r@).contains(project@ + "_processor-data"@),
        with_mint ==> text::texts(r@).contains(project@ + "_mintd-data"@),
        r@.len() == (if with_mint {
            3int
        } else {
            2
        }),
{
    let s = text::texts(r@);
    assert(s.len() == r@.len());
    assert(s[0] == project@ + "_config-data"@ && s[1] == project@ + "_processor-data"@);
    if with_mint {
        assert(s[2] == project@ + "_mintd-data"@);
    }
}

/// An archive is restored exactly into an installation of its own shape.
pub proof fn law_shapes_must_fit(archive_has_mint: bool, install_has_mint: bool, r: Result<(), String>)
    requires
        call_ensures(check_shape, (archive_has_mint, install_has_mint), r),
    ensures
        r is Ok <==> (archive_has_mint <==> install_has_mint),
{
}

/// An archive holds a mint exactly where a member is listed below `mint-data/`.
pub proof fn law_archive_with_a_mint(members: &str, r: bool)
    requires
        call_ensures(members_have_mint, (members,), r),
    ensures
        forall|i: int, rest: Seq<char>|
            0 <= i < text::lines_of(members@).len() && #[trigger] text::lines_of(members@)[i]
                == #[trigger] ("mint-data/"@ + rest) ==> r,
        r ==> exists|i: int, rest: Seq<char>|
            0 <= i < text::lines_of(members@).len() && #[trigger] text::lines_of(members@)[i]
                == #[trigger] ("mint-data/"@ + rest),
{
    let lines = text::lines_of(members@);
    let p = "mint-data/"@;
    assert forall|i: int, rest: Seq<char>|
        0 <= i < lines.len() && #[trigger] lines[i] == #[trigger] (p + rest) implies r by {
        assert(lines[i].take(p.len() as int) =~= p);
        assert(text::begins(lines[i], p));
    }
    if r {
        let i = choose|i: int| 0 <= i < lines.len() && text::begins(#[trigger] lines[i], p);
        let rest = lines[i].skip(p.len() as int);
        assert(lines[i] =~= p + rest);
    }
}

/// The mint's files are read out of the archive where the backup has put them.
pub proof fn law_mint_files_are_read_back(archive: &str, name: &str, r: Vec<String>)
    requires
        call_ensures(extract_args, (archive, name), r),
    ensures
        text::texts(r@) == seq!["xOzf"@, archive@, "install/mint"@ + "/"@ + name@],
        backup::archive_members(true).contains("install/mint"@),
{
    reveal_strlit("install/mint/");
    reveal_strlit("install/mint");
    reveal_strlit("/");
    assert("install/mint/"@ + name@ =~= "install/mint"@ + "/"@ + name@);
    assert(backup::archive_members(true)[4] == "install/mint"@);
}

/// The place of a step in the order of steps.
pub open spec fn restore_rank(step: RestoreStep) -> int {
    match step {
        RestoreStep::TakeLock => 0,
        RestoreStep::ReadEnv => 1,
        RestoreStep::FindArchive => 2,
        RestoreStep::ListMembers => 3,
        RestoreStep::HasMint => 4,
        RestoreStep::ShapeFits => 5,
        RestoreStep::ReadMintFile { place } => 6 + place,
        RestoreStep::Confirm => 8,
        RestoreStep::TakeDown => 9,
        RestoreStep::MakeVolume { place } => 10 + place,
        RestoreStep::FillVolumes => 13,
        RestoreStep::MakeMintDir => 14,
        RestoreStep::WriteMintFile { place } => 15 + place,
        RestoreStep::BringUp => 17,
        RestoreStep::End(RestoreEnd::Restored) => 18,
        RestoreStep::End(_) => -1,
    }
}

/// A step that belongs to a bundled mint alone.
pub open spec fn mint_step(k: int) -> bool {
    k == 6 || k == 7 || k == 12 || k == 14 || k == 15 || k == 16
}

/// A yes leads to the very next step, over those of the mint where there is
/// none. A no ends the restore: refused before the operator was asked, cancelled
/// there, interrupted behind it. Whether the archive holds a mint is no such
/// question.
pub proof fn law_restore_goes_step_by_step(s: Restore, yes: bool)
    requires
        s.step matches RestoreStep::ReadMintFile { place } ==> place <= 1,
        s.step matches RestoreStep::MakeVolume { place } ==> place <= 2,
        s.step matches RestoreStep::WriteMintFile { place } ==> place <= 1,
        mint_step(restore_rank(s.step)) ==> s.with_mint,
    ensures
        ({
            let next = restore_next(s, yes);
            let (k, n) = (restore_rank(s.step), restore_rank(next.step));
            &&& k == 4 ==> next.with_mint == yes && n == 5
            &&& k != 4 ==> next.with_mint == s.with_mint
            &&& 0 <= k < 18 && yes ==> k < n <= 18
            &&& 0 <= k < 18 && yes ==> forall|j: int| k < j < n ==> mint_step(j) && !s.with_mint
            &&& 0 <= k < 18 && yes && mint_step(n) ==> s.with_mint
            &&& k == 18 || k == -1 ==> next.step == s.step
            &&& !yes && (0 <= k < 8 && k != 4) ==> next.step == RestoreStep::End(
                RestoreEnd::Refused,
            )
            &&& !yes && k == 8 ==> next.step == RestoreStep::End(RestoreEnd::Cancelled)
            &&& !yes && 8 < k < 18 ==> next.step == RestoreStep::End(RestoreEnd::Interrupted)
        }),
{
}

/// The stack is taken down with its volumes kept, and brought up in the
/// background; a volume is made under its name; the archive's list is read from
/// the archive.
pub proof fn law_restore_commands(
    volume: &str,
    archive: &str,
    down: Vec<String>,
    up: Vec<String>,
    make: Vec<String>,
    list: Vec<String>,
)
    requires
        call_ensures(down_args, (), down),
        call_ensures(up_args, (), up),
        call_ensures(create_volume_args, (volume,), make),
        call_ensures(listing_args, (archive,), list),
    ensures
        text::texts(down@)[0] == "down"@,
        !text::texts(down@).contains("-v"@),
        text::texts(up@).take(2) == seq!["up"@, "-d"@],
        text::texts(make@) == seq!["volume"@, "create"@, volume@],
        text::texts(list@) == seq!["tzf"@, archive@],
{
    let s = text::texts(down@);
    reveal_strlit("-v");
    reveal_strlit("down");
    reveal_strlit("--remove-orphans");
    assert forall|i: int| 0 <= i < s.len() implies s[i] != "-v"@ by {
        assert(s[i].len() != 2);
    }
    assert(text::texts(up@).take(2) =~= seq!["up"@, "-d"@]);
}

/// The mint's files come back where an installation has them, as they were read,
/// and only the operator can read them or enter their directory.
pub proof fn law_mint_files_come_back(
    install_dir: &str,
    members: Vec<Vec<u8>>,
    dir: (String, u32),
    config: RestoredFile,
    seed: RestoredFile,
)
    requires
        members@.len() == 2,
        install_dir@.len() > 0,
        install_dir@.last() != '/',
        call_ensures(restored_mint_dir, (install_dir,), dir),
        call_ensures(restored_mint_file, (install_dir, &members, 0), config),
        call_ensures(restored_mint_file, (install_dir, &members, 1), seed),
    ensures
        dir.0@ == install_dir@ + "/mint"@,
        config.path@ == install_dir@ + "/mint/config.toml"@,
        seed.path@ == install_dir@ + "/mint/mnemonic"@,
        config.contents@ == members@[0]@,
        seed.contents@ == members@[1]@,
        dir.1 == 448,
        config.mode == 384 && seed.mode == 384,
{
    reveal_strlit("mint");
    reveal_strlit("/mint");
    reveal_strlit("mnemonic");
    reveal_strlit("/mint/mnemonic");
    reveal_strlit("config.toml");
    reveal_strlit("/mint/config.toml");
    assert(dir.0@ =~= install_dir@ + "/mint"@);
    assert(dir.0@.last() == 't');
    assert(seed.path@ =~= install_dir@ + "/mint/mnemonic"@);
    assert(config.path@ =~= install_dir@ + "/mint/config.toml"@);
}

/// Before anything is replaced the operator is told of the project, and of the
/// mint's seed exactly with a bundled one; a missing archive is refused by name.
pub proof fn law_restore_tells(
    project: &str,
    with_mint: bool,
    archive: &str,
    r: Vec<String>,
    there: Result<(), String>,
    missing: Result<(), String>,
    begun: Restore,
)
    requires
        call_ensures(notice, (project, with_mint), r),
        call_ensures(check_archive, (archive, true), there),
        call_ensures(check_archive, (archive, false), missing),
        call_ensures(restore, (), begun),
    ensures
        text::texts(r@).len() == 3,
        text::texts(r@)[1] == "operator accounts, ticket ledger) of project '"@ + project@
            + "' with the archive"@,
        with_mint ==> text::texts(r@)[2]
            == "contents, INCLUDING the mint's database and seed. (.env is not touched.)"@,
        !with_mint ==> text::texts(r@)[2]
            == "contents. (.env is not touched; the mint is unaffected.)"@,
        there is Ok,
        missing is Err && missing->Err_0@ == "no such file: "@ + archive@,
        begun.step is TakeLock,
{
}

/// An archive of the other shape is refused with what to do: install a mint
/// first, or restore it where there is none. What is missing or fails is named.
pub proof fn law_why_a_restore_is_refused(
    with: Result<(), String>,
    without: Result<(), String>,
    archive: &str,
    bad: String,
    name: &str,
    missing: String,
    volume: &str,
    failed: String,
    names: Vec<String>,
)
    requires
        call_ensures(check_shape, (true, false), with),
        call_ensures(check_shape, (false, true), without),
        call_ensures(unreadable, (archive,), bad),
        call_ensures(mint_file_missing, (name,), missing),
        call_ensures(volume_not_created, (volume,), failed),
        call_ensures(mint_files, (), names),
    ensures
        with is Err && with->Err_0@
            == "this archive contains a bundled mint (database + seed), but this install is processor-only. Re-install with --with-mint first, then restore."@,
        without is Err && without->Err_0@
            == "this install bundles a mint, but the archive has no mint data — restoring would leave the processor's ledger out of step with the running mint. Restore it into a processor-only install, or use a bundled-mint backup."@,
        bad@ == "could not read "@ + archive@ + " (tar tzf failed)"@,
        missing@ == "archive is missing mint/"@ + name@,
        failed@ == "could not create volume "@ + volume@,
        text::texts(names@) == seq!["config.toml"@, "mnemonic"@],
{
}

} // verus!
