//! The operations subcommands: everything except install and update.

use crate::compose;
use crate::compose::{Poll, BIN_LINK};
use crate::envfile;
use crate::envfile::EnvFile;
use crate::install;
use crate::paths;
use crate::release;
use crate::storage;
use crate::text;
use vstd::prelude::*;

verus! {

// ---------------------------------------------------------------------------
// what the .env file says
// ---------------------------------------------------------------------------
/// The value of a key, or a default where the key has no line.
pub open spec fn value_or(env: Seq<Seq<char>>, key: Seq<char>, default: Seq<char>) -> Seq<char> {
    match envfile::last_value(env, key) {
        Some(value) => value,
        None => default,
    }
}

pub fn get_or(env: &EnvFile, key: &str, default: &str) -> (r: String)
    ensures
        r@ == value_or(env@, key@, default@),
{
    match env.get(key) {
        Some(value) => value,
        None => default.to_owned(),
    }
}

/// A port that a key holds, or a default where it holds none.
pub open spec fn port_or(env: Seq<Seq<char>>, key: Seq<char>, default: u16) -> u16 {
    match envfile::last_value(env, key) {
        Some(value) => match text::parsed_u16(value) {
            Some(port) => port,
            None => default,
        },
        None => default,
    }
}

pub fn get_port(env: &EnvFile, key: &str, default: u16) -> (r: u16)
    ensures
        r == port_or(env@, key@, default),
{
    match env.get(key) {
        Some(value) => match text::parse_u16(value.as_str()) {
            Some(port) => port,
            None => default,
        },
        None => default,
    }
}

/// Whether an installation runs with a compose profile.
pub open spec fn profile_on(env: Seq<Seq<char>>, profile: Seq<char>) -> bool {
    install::names_profile(value_or(env, "COMPOSE_PROFILES"@, ""@), profile)
}

pub fn has_profile(env: &EnvFile, profile: &str) -> (r: bool)
    ensures
        r == profile_on(env@, profile@),
{
    let profiles = get_or(env, "COMPOSE_PROFILES", "");
    let pieces = text::pieces(profiles.as_str(), ',');
    let ghost all = text::pieces_of(profiles@, ',');
    let mut i: usize = 0;
    while i < pieces.len()
        invariant
            i <= pieces@.len(),
            all == text::texts(pieces@),
            all == text::pieces_of(profiles@, ','),
            profiles@ == value_or(env@, "COMPOSE_PROFILES"@, ""@),
            forall|k: int| 0 <= k < i ==> text::trimmed(#[trigger] all[k]) != profile@,
        decreases pieces@.len() - i,
    {
        assert(all[i as int] == pieces@[i as int]@);
        let piece = text::trim(pieces[i].as_str());
        if text::same(piece.as_str(), profile) {
            return true;
        }
        i += 1;
    }
    assert(all.len() == pieces@.len());
    false
}

/// The release that an installation is pinned to, in words.
pub open spec fn shown_version(env: Seq<Seq<char>>) -> Seq<char> {
    let version = value_or(env, "VERSION"@, ""@);
    if version.len() == 0 {
        "unknown"@
    } else {
        version
    }
}

fn show_version(env: &EnvFile) -> (r: String)
    ensures
        r@ == shown_version(env@),
{
    proof {
        reveal_strlit("");
    }
    let version = get_or(env, "VERSION", "");
    if version.as_str().is_empty() {
        "unknown".to_owned()
    } else {
        version
    }
}

// ---------------------------------------------------------------------------
// status
// ---------------------------------------------------------------------------
/// The bundled mint's image tag, where one is pinned.
pub open spec fn pinned_mint(env: Seq<Seq<char>>) -> Option<Seq<char>> {
    release::nonempty(envfile::last_value(env, "MINT_VERSION"@))
}

pub fn get_pinned_mint(env: &EnvFile) -> (r: Option<String>)
    ensures
        text::opt(r) == pinned_mint(env@),
{
    match env.get("MINT_VERSION") {
        Some(tag) => if tag.as_str().is_empty() {
            None
        } else {
            Some(tag)
        },
        None => None,
    }
}

/// Where the console's health is asked for.
pub fn status_health_url(env: &EnvFile) -> (r: String)
    ensures
        r@ == "http://127.0.0.1:"@ + value_or(env@, "UI_PORT"@, "9090"@) + "/healthz"@,
{
    let port = get_or(env, "UI_PORT", "9090");
    "http://127.0.0.1:".to_owned().concat(port.as_str()).concat("/healthz")
}

/// How a bundled mint is asked whether it answers.
pub fn status_mint_poll(env: &EnvFile) -> (r: Option<Poll>)
    ensures
        match r {
            Some(poll) => {
                &&& pinned_mint(env@) is Some
                &&& poll.url@ == "http://127.0.0.1:"@
                    + value_or(env@, "MINT_PORT"@, "3338"@)
                    + "/v1/info"@
                &&& poll.timeout_secs == 3
                &&& poll.pause_secs == 2
                &&& poll.budget_secs == 3
            },
            None => pinned_mint(env@) is None,
        },
{
    match get_pinned_mint(env) {
        Some(_) => {
            let port = get_or(env, "MINT_PORT", "3338");
            let url = "http://127.0.0.1:".to_owned().concat(port.as_str()).concat("/v1/info");
            Some(compose::wait_http_ok(url.as_str(), 3))
        },
        None => None,
    }
}

pub open spec fn console_status(env: Seq<Seq<char>>, running: Option<Seq<char>>) -> Seq<char> {
    match running {
        Some(version) => "console: ok (version "@ + version + ")"@,
        None => "console: not responding on 127.0.0.1:"@ + value_or(env, "UI_PORT"@, "9090"@),
    }
}

pub open spec fn mint_status(env: Seq<Seq<char>>, answers: bool) -> Seq<Seq<char>> {
    match pinned_mint(env) {
        Some(tag) => seq![
            if answers {
                "mint:    ok (cashubtc/mintd:"@ + tag + ")"@
            } else {
                "mint:    not responding on 127.0.0.1:"@
                    + value_or(env, "MINT_PORT"@, "3338"@)
                    + " (cashubtc/mintd:"@
                    + tag
                    + ")"@
            },
        ],
        None => Seq::empty(),
    }
}

pub open spec fn release_status(env: Seq<Seq<char>>, latest: Option<Seq<char>>) -> Seq<Seq<char>> {
    match latest {
        Some(tag) => seq![
            if tag != value_or(env, "VERSION"@, ""@) {
                "latest release:    "@ + tag + "  → run 'mintctl update'"@
            } else {
                "latest release:    "@ + tag + " (up to date)"@
            },
        ],
        None => Seq::empty(),
    }
}

/// What `mintctl status` says below the list of containers.
pub open spec fn status_lines(
    env: Seq<Seq<char>>,
    running: Option<Seq<char>>,
    mint_answers: bool,
    latest: Option<Seq<char>>,
) -> Seq<Seq<char>> {
    seq![""@, console_status(env, running)] + mint_status(env, mint_answers) + seq![
        "installed version: "@ + shown_version(env),
    ] + release_status(env, latest)
}

/// `running` is the version that the console reports, where it answers, and
/// `latest` the latest release, where it could be resolved.
pub fn status(env: &EnvFile, running: Option<&str>, mint_answers: bool, latest: Option<&str>) -> (r:
    Vec<String>)
    ensures
        text::texts(r@) == status_lines(
            env@,
            text::opt_str(running),
            mint_answers,
            text::opt_str(latest),
        ),
{
    broadcast use text::lemma_texts_push;

    let mut lines: Vec<String> = Vec::new();
    lines.push("".to_owned());
    match running {
        Some(version) => lines.push("console: ok (version ".to_owned()
            .concat(version)
            .concat(")")),
        None => {
            let port = get_or(env, "UI_PORT", "9090");
            lines.push("console: not responding on 127.0.0.1:".to_owned().concat(port.as_str()));
        },
    }
    match get_pinned_mint(env) {
        Some(tag) => if mint_answers {
            lines.push("mint:    ok (cashubtc/mintd:".to_owned().concat(tag.as_str()).concat(")"));
        } else {
            let port = get_or(env, "MINT_PORT", "3338");
            lines.push("mint:    not responding on 127.0.0.1:".to_owned()
                .concat(port.as_str())
                .concat(" (cashubtc/mintd:")
                .concat(tag.as_str())
                .concat(")"));
        },
        None => {},
    }
    lines.push("installed version: ".to_owned().concat(show_version(env).as_str()));
    match latest {
        Some(tag) => {
            let version = get_or(env, "VERSION", "");
            if text::same(tag, version.as_str()) {
                lines.push("latest release:    ".to_owned().concat(tag).concat(" (up to date)"));
            } else {
                lines.push("latest release:    ".to_owned()
                    .concat(tag)
                    .concat("  → run 'mintctl update'"));
            }
        },
        None => {},
    }
    assert(text::texts(lines@) =~= status_lines(
        env@,
        text::opt_str(running),
        mint_answers,
        text::opt_str(latest),
    ));
    lines
}

/// What `mintctl version` says: the pinned release, and the latest one after
/// the list of images.
pub fn version(env: &EnvFile, latest: Option<&str>) -> (r: (String, Option<String>))
    ensures
        r.0@ == "installed: "@ + shown_version(env@),
        text::opt(r.1) == (match latest {
            Some(tag) => Some("latest release: "@ + tag@),
            None => None,
        }),
{
    let installed = "installed: ".to_owned().concat(show_version(env).as_str());
    match latest {
        Some(tag) => (installed, Some("latest release: ".to_owned().concat(tag))),
        None => (installed, None),
    }
}

/// What compose is asked for a status.
pub fn ps_args() -> (r: Vec<String>)
    ensures
        text::texts(r@) == seq!["ps"@],
{
    let args = text::words(&["ps"]);
    assert(text::texts(args@) =~= seq!["ps"@]);
    args
}

/// What compose is asked for the images in use.
pub fn images_args() -> (r: Vec<String>)
    ensures
        text::texts(r@) == seq!["images"@],
{
    let args = text::words(&["images"]);
    assert(text::texts(args@) =~= seq!["images"@]);
    args
}

/// Follows service logs.
pub fn logs(services: &Vec<String>) -> (r: Vec<String>)
    ensures
        text::texts(r@) == seq!["logs"@, "-f"@, "--tail=200"@] + text::texts(services@),
{
    let mut args = text::words(&["logs", "-f", "--tail=200"]);
    assert(text::texts(args@) =~= seq!["logs"@, "-f"@, "--tail=200"@]);
    text::extend(&mut args, services);
    args
}

pub open spec fn start_command() -> Seq<Seq<char>> {
    seq!["up"@, "-d"@, "--wait"@, "--wait-timeout"@, "120"@]
}

pub open spec fn stop_command() -> Seq<Seq<char>> {
    seq!["stop"@]
}

/// Starts the services and waits for them. The command is run under the
/// operation lock, as `storage::HeldStep` has it.
pub fn start() -> (r: Vec<String>)
    ensures
        text::texts(r@) == start_command(),
{
    let args = text::words(&["up", "-d", "--wait", "--wait-timeout", "120"]);
    assert(text::texts(args@) =~= seq!["up"@, "-d"@, "--wait"@, "--wait-timeout"@, "120"@]);
    args
}

/// Stops the services, under the lock too.
pub fn stop() -> (r: Vec<String>)
    ensures
        text::texts(r@) == stop_command(),
{
    let args = text::words(&["stop"]);
    assert(text::texts(args@) =~= seq!["stop"@]);
    args
}

// ---------------------------------------------------------------------------
// uninstall
// ---------------------------------------------------------------------------
/// What is said before a purge is confirmed.
pub open spec fn purge_notice(install_dir: Seq<char>, has_mint: bool) -> Seq<Seq<char>> {
    seq!["PURGE deletes the containers, ALL VOLUMES (operator accounts,"@] + (if has_mint {
        seq![
            "attachment config, the ticket ledger, the mint's database and its"@,
            "SEED in "@ + install_dir + "/mint), and the directory itself. This cannot"@,
            "be undone — without a backup, the mint's issued ecash dies with it."@,
        ]
    } else {
        seq![
            "attachment config, the ticket ledger), and "@
                + install_dir
                + ". This cannot be undone."@,
        ]
    })
}

pub fn purge_warning(install_dir: &str, has_mint: bool) -> (r: Vec<String>)
    ensures
        text::texts(r@) == purge_notice(install_dir@, has_mint),
{
    broadcast use text::lemma_texts_push;

    let mut lines: Vec<String> = Vec::new();
    lines.push("PURGE deletes the containers, ALL VOLUMES (operator accounts,".to_owned());
    if has_mint {
        lines.push("attachment config, the ticket ledger, the mint's database and its".to_owned());
        lines.push("SEED in ".to_owned()
            .concat(install_dir)
            .concat("/mint), and the directory itself. This cannot"));
        lines.push(
            "be undone — without a backup, the mint's issued ecash dies with it.".to_owned(),
        );
    } else {
        lines.push(
            "attachment config, the ticket ledger), and ".to_owned()
                .concat(install_dir)
                .concat(". This cannot be undone."),
        );
    }
    assert(text::texts(lines@) =~= purge_notice(install_dir@, has_mint));
    lines
}

/// What the operator is asked to type before a purge.
pub fn purge_prompt(project: &str) -> (r: String)
    ensures
        r@ == "Type the project name ("@ + project@ + ") to confirm"@,
{
    "Type the project name (".to_owned().concat(project).concat(") to confirm")
}

pub const PURGE_NOT_CONFIRMED: &'static str = "confirmation did not match; nothing was deleted";

/// What is said when it is done.
pub open spec fn uninstall_lines(
    purge: bool,
    project: Seq<char>,
    install_dir: Seq<char>,
) -> Seq<Seq<char>> {
    if purge {
        seq!["purged project "@ + project + " and "@ + install_dir]
    } else {
        seq![
            "containers removed; volumes and "@ + install_dir + " kept."@,
            "Re-run '"@ + install_dir + "/mintctl start' to bring it back, or"@,
            "'mintctl uninstall --purge' to delete everything."@,
        ]
    }
}

pub fn uninstalled(purge: bool, project: &str, install_dir: &str) -> (r: Vec<String>)
    ensures
        text::texts(r@) == uninstall_lines(purge, project@, install_dir@),
{
    broadcast use text::lemma_texts_push;

    let mut lines: Vec<String> = Vec::new();
    if purge {
        lines.push("purged project ".to_owned()
            .concat(project)
            .concat(" and ")
            .concat(install_dir));
    } else {
        lines.push("containers removed; volumes and ".to_owned()
            .concat(install_dir)
            .concat(" kept."));
        lines.push("Re-run '".to_owned()
            .concat(install_dir)
            .concat("/mintctl start' to bring it back, or"));
        lines.push("'mintctl uninstall --purge' to delete everything.".to_owned());
    }
    assert(text::texts(lines@) =~= uninstall_lines(purge, project@, install_dir@));
    lines
}

/// What to say when the directory could not be removed.
pub fn dir_not_removed(install_dir: &str) -> (r: String)
    ensures
        r@ == "remove "@ + install_dir@,
{
    "remove ".to_owned().concat(install_dir)
}

/// What is asked or done next. Each step is answered with yes or no: whether
/// it is so, or whether it worked.
#[derive(Debug, Clone, Copy, PartialEq, Eq, Structural)]
pub enum UninstallStep {
    /// Take the installation's operation lock.
    TakeLock,
    /// Read the `.env`.
    ReadEnv,
    /// Was the project name typed?
    ConfirmTyped,
    /// Remove the containers, and with `volumes` everything that they kept.
    TakeDown { volumes: bool },
    /// Remove the links to the management command, as far as they are this
    /// installation's, whether that works or not.
    RemoveLinks,
    RemoveDir,
    Done,
    NotConfirmed,
    /// The lock was not had, or there is no `.env` to read: nothing was done.
    Refused,
    Failed,
}

#[derive(Debug, Clone, Copy, PartialEq, Eq, Structural)]
pub struct Uninstall {
    pub step: UninstallStep,
    pub purge: bool,
}

pub open spec fn uninstall_start(purge: bool) -> Uninstall {
    Uninstall { step: UninstallStep::TakeLock, purge }
}

pub open spec fn uninstall_next(u: Uninstall, yes: bool) -> Uninstall {
    let step = match u.step {
        UninstallStep::TakeLock => if yes {
            UninstallStep::ReadEnv
        } else {
            UninstallStep::Refused
        },
        UninstallStep::ReadEnv => if !yes {
            UninstallStep::Refused
        } else if u.purge {
            UninstallStep::ConfirmTyped
        } else {
            UninstallStep::TakeDown { volumes: false }
        },
        UninstallStep::ConfirmTyped => if yes {
            UninstallStep::TakeDown { volumes: true }
        } else {
            UninstallStep::NotConfirmed
        },
        UninstallStep::TakeDown { .. } => if yes {
            UninstallStep::RemoveLinks
        } else {
            UninstallStep::Failed
        },
        UninstallStep::RemoveLinks => if u.purge {
            UninstallStep::RemoveDir
        } else {
            UninstallStep::Done
        },
        UninstallStep::RemoveDir => if yes {
            UninstallStep::Done
        } else {
            UninstallStep::Failed
        },
        UninstallStep::Done => UninstallStep::Done,
        UninstallStep::NotConfirmed => UninstallStep::NotConfirmed,
        UninstallStep::Refused => UninstallStep::Refused,
        UninstallStep::Failed => UninstallStep::Failed,
    };
    Uninstall { step, ..u }
}

/// Starts an uninstall; `next` takes it through its steps.
pub fn uninstall(purge: bool) -> (r: Uninstall)
    ensures
        r == uninstall_start(purge),
{
    Uninstall { step: UninstallStep::TakeLock, purge }
}

impl Uninstall {
    pub fn next(self, yes: bool) -> (r: Self)
        ensures
            r == uninstall_next(self, yes),
    {
        let step = match self.step {
            UninstallStep::TakeLock => if yes {
                UninstallStep::ReadEnv
            } else {
                UninstallStep::Refused
            },
            UninstallStep::ReadEnv => if !yes {
                UninstallStep::Refused
            } else if self.purge {
                UninstallStep::ConfirmTyped
            } else {
                UninstallStep::TakeDown { volumes: false }
            },
            UninstallStep::ConfirmTyped => if yes {
                UninstallStep::TakeDown { volumes: true }
            } else {
                UninstallStep::NotConfirmed
            },
            UninstallStep::TakeDown { .. } => if yes {
                UninstallStep::RemoveLinks
            } else {
                UninstallStep::Failed
            },
            UninstallStep::RemoveLinks => if self.purge {
                UninstallStep::RemoveDir
            } else {
                UninstallStep::Done
            },
            UninstallStep::RemoveDir => if yes {
                UninstallStep::Done
            } else {
                UninstallStep::Failed
            },
            UninstallStep::Done => UninstallStep::Done,
            UninstallStep::NotConfirmed => UninstallStep::NotConfirmed,
            UninstallStep::Refused => UninstallStep::Refused,
            UninstallStep::Failed => UninstallStep::Failed,
        };
        Uninstall { step, ..self }
    }
}

/// The compose command that removes the containers.
pub fn take_down_args(volumes: bool) -> (r: Vec<String>)
    ensures
        text::texts(r@) == (if volumes {
            seq!["down"@, "-v"@, "--remove-orphans"@]
        } else {
            seq!["down"@, "--remove-orphans"@]
        }),
{
    if volumes {
        let args = text::words(&["down", "-v", "--remove-orphans"]);
        assert(text::texts(args@) =~= seq!["down"@, "-v"@, "--remove-orphans"@]);
        args
    } else {
        let args = text::words(&["down", "--remove-orphans"]);
        assert(text::texts(args@) =~= seq!["down"@, "--remove-orphans"@]);
        args
    }
}

/// Where links to the management command may be.
pub fn bin_links(cli_link: Option<String>) -> (r: Vec<String>)
    ensures
        text::texts(r@) == seq![BIN_LINK@] + (match cli_link {
            Some(link) => seq![link@],
            None => Seq::empty(),
        }),
{
    broadcast use text::lemma_texts_push;

    let ghost asked = cli_link;
    let mut links: Vec<String> = Vec::new();
    links.push(BIN_LINK.to_owned());
    match cli_link {
        Some(link) => links.push(link),
        None => {},
    }
    assert(text::texts(links@) =~= seq![BIN_LINK@] + (match asked {
        Some(link) => seq![link@],
        None => Seq::empty(),
    }));
    links
}

/// Whether a link is removed: only when it points into this installation.
pub fn remove_bin_link(install_dir: &str, target: Option<&str>) -> (r: bool)
    ensures
        r == (target matches Some(path) && paths::same_path(
            path@,
            paths::below(install_dir@, install::BINARY_FILE@),
        )),
{
    match target {
        Some(path) => {
            let own = paths::join(install_dir, install::BINARY_FILE);
            paths::same(path, own.as_str())
        },
        None => false,
    }
}

/// Where an uninstall stands after these answers.
pub open spec fn uninstall_after(purge: bool, answers: Seq<bool>) -> Uninstall
    decreases answers.len(),
{
    if answers.len() == 0 {
        uninstall_start(purge)
    } else {
        uninstall_next(uninstall_after(purge, answers.drop_last()), answers.last())
    }
}

/// Starting and stopping take the lock first. Where another operation holds it,
/// they are refused and compose is not called; otherwise it is called once, with
/// the one command, and they succeed exactly where that call does.
pub proof fn law_start_and_stop_are_held(answers: Seq<bool>)
    requires
        answers.len() >= 2,
    ensures
        storage::held_after(answers) == (if !answers[0] {
            storage::HeldStep::Refused
        } else if answers[1] {
            storage::HeldStep::Done
        } else {
            storage::HeldStep::Failed
        }),
        storage::commands_run(start_command(), answers) == (if answers[0] {
            seq![start_command()]
        } else {
            Seq::empty()
        }),
        storage::commands_run(stop_command(), answers) == (if answers[0] {
            seq![stop_command()]
        } else {
            Seq::empty()
        }),
{
    storage::law_the_lock_comes_first(start_command(), answers);
    storage::law_the_lock_comes_first(stop_command(), answers);
}

/// Nothing is taken down or deleted unless the lock was taken: that is the first
/// question, and where its answer is no, the uninstall is refused.
pub proof fn law_uninstall_takes_the_lock_first(purge: bool, answers: Seq<bool>)
    requires
        answers.len() > 0,
    ensures
        uninstall_start(purge).step is TakeLock,
        !answers[0] ==> uninstall_after(purge, answers).step == UninstallStep::Refused,
        answers[0] ==> !(uninstall_after(purge, answers).step is TakeLock),
{
    lemma_uninstall(purge, answers);
}

/// Volumes and the directory are deleted only by a purge that was confirmed:
/// behind the lock and the `.env`, the answer to the typed confirmation was yes.
pub proof fn law_only_a_confirmed_purge_deletes(purge: bool, answers: Seq<bool>)
    requires
        uninstall_after(purge, answers).step == (UninstallStep::TakeDown { volumes: true })
            || uninstall_after(purge, answers).step == UninstallStep::RemoveDir,
    ensures
        purge,
        answers.len() > 2,
        answers[0] && answers[1] && answers[2],
{
    lemma_uninstall(purge, answers);
}

proof fn lemma_uninstall(purge: bool, answers: Seq<bool>)
    ensures
        ({
            let u = uninstall_after(purge, answers);
            &&& u.purge == purge
            &&& u.step is TakeLock <==> answers.len() == 0
            &&& u.step is ReadEnv <==> answers.len() == 1 && answers[0]
            &&& u.step is ConfirmTyped ==> purge && answers.len() == 2
            &&& u.step == (UninstallStep::TakeDown { volumes: true }) ==> purge
            &&& u.step is RemoveDir ==> purge
            &&& answers.len() > 0 && !answers[0] ==> u.step is Refused
            &&& answers.len() > 1 && !answers[1] ==> u.step is Refused
            &&& answers.len() >= 2 && answers[0] && answers[1] ==> !(u.step is Refused)
            &&& purge && answers.len() > 2 && answers[0] && answers[1] && !answers[2]
                ==> u.step is NotConfirmed
            &&& purge && answers.len() >= 2 && answers[0] && answers[1] && !(u.step
                is ConfirmTyped) ==> answers.len() > 2
        }),
    decreases answers.len(),
{
    if answers.len() > 0 {
        lemma_uninstall(purge, answers.drop_last());
    }
}

/// A purge that was not confirmed does nothing at all.
pub proof fn law_unconfirmed_purge_does_nothing(answers: Seq<bool>)
    requires
        answers.len() > 2,
        answers[0],
        answers[1],
        !answers[2],
    ensures
        uninstall_after(true, answers).step == UninstallStep::NotConfirmed,
{
    lemma_uninstall(true, answers);
}

// ---------------------------------------------------------------------------
// laws of what is read and said
// ---------------------------------------------------------------------------
/// A key that has a value gives it; a key that has none gives the default. A
/// port that was written is read, and what is no port counts as none.
pub proof fn law_values_and_defaults(
    env: EnvFile,
    key: &str,
    default: &str,
    value: String,
    port: u16,
    written: u16,
    number: u16,
)
    requires
        call_ensures(get_or, (&env, key, default), value),
        call_ensures(get_port, (&env, key, port), number),
    ensures
        envfile::last_value(env@, key@) is None ==> value@ == default@ && number == port,
        envfile::last_value(env@, key@) matches Some(v) ==> value@ == v,
        envfile::last_value(env@, key@) == Some(text::decimal(written as nat)) ==> number
            == written,
        envfile::last_value(env@, key@) == Some(Seq::<char>::empty()) ==> number == port,
{
    text::law_port_reads_back(written);
}

/// The profiles are a list with commas: one that is on in either part of it is
/// on, and none else.
pub proof fn law_profiles_are_a_list(
    env: EnvFile,
    first: EnvFile,
    second: EnvFile,
    profile: &str,
    all: bool,
    one: bool,
    other: bool,
)
    requires
        call_ensures(has_profile, (&env, profile), all),
        call_ensures(has_profile, (&first, profile), one),
        call_ensures(has_profile, (&second, profile), other),
        envfile::last_value(first@, "COMPOSE_PROFILES"@) is Some,
        envfile::last_value(second@, "COMPOSE_PROFILES"@) is Some,
        envfile::last_value(env@, "COMPOSE_PROFILES"@) == Some(
            envfile::last_value(first@, "COMPOSE_PROFILES"@)->0 + seq![',']
                + envfile::last_value(second@, "COMPOSE_PROFILES"@)->0,
        ),
    ensures
        all <==> one || other,
{
    let a = envfile::last_value(first@, "COMPOSE_PROFILES"@)->0;
    let b = envfile::last_value(second@, "COMPOSE_PROFILES"@)->0;
    let whole = a + seq![','] + b;
    text::lemma_pieces_concat(a, ',', b);
    let (x, y) = (text::pieces_of(a, ','), text::pieces_of(b, ','));
    let z = text::pieces_of(whole, ',');
    if one {
        let i = choose|i: int| 0 <= i < x.len() && text::trimmed(#[trigger] x[i]) == profile@;
        assert(z[i] == x[i]);
    }
    if other {
        let i = choose|i: int| 0 <= i < y.len() && text::trimmed(#[trigger] y[i]) == profile@;
        assert(z[x.len() + i] == y[i]);
    }
    if all {
        let i = choose|i: int| 0 <= i < z.len() && text::trimmed(#[trigger] z[i]) == profile@;
        if i < x.len() {
            assert(x[i] == z[i]);
        } else {
            assert(y[i - x.len()] == z[i]);
        }
    }
}

/// A list of one is on for that one, white space around it aside. Without the
/// key no profile is on.
pub proof fn law_single_profile(env: EnvFile, profile: &str, on: bool)
    requires
        call_ensures(has_profile, (&env, profile), on),
        profile@.len() > 0,
    ensures
        envfile::last_value(env@, "COMPOSE_PROFILES"@) is None ==> !on,
        envfile::last_value(env@, "COMPOSE_PROFILES"@) matches Some(v) ==> (!v.contains(',') ==> (on
            <==> text::trimmed(v) == profile@)),
{
    reveal_strlit("");
    let v = value_or(env@, "COMPOSE_PROFILES"@, ""@);
    if !v.contains(',') {
        text::lemma_position_is(v, ',', v.len() as int);
        assert(text::pieces_of(v, ',') =~= seq![v]);
        assert(text::pieces_of(v, ',')[0] == v);
        if v.len() == 0 {
            text::lemma_left_trimmed_suffix(v, |c: char| text::white(c));
            text::lemma_right_trimmed_prefix(
                text::left_trimmed(v, |c: char| text::white(c)),
                |c: char| text::white(c),
            );
        }
    }
}

/// A status tells of the console, of a bundled mint exactly where one is pinned,
/// of the installed release, and of the latest one where it is known: that an
/// update is due exactly where it is another.
pub proof fn law_status_tells(
    env: EnvFile,
    running: Option<&str>,
    answers: bool,
    latest: Option<&str>,
    r: Vec<String>,
)
    requires
        call_ensures(status, (&env, running, answers, latest), r),
    ensures
        ({
            let s = text::texts(r@);
            let tag = envfile::last_value(env@, "MINT_VERSION"@);
            let pinned = tag is Some && tag->0.len() > 0;
            let version = envfile::last_value(env@, "VERSION"@);
            let port = match envfile::last_value(env@, "UI_PORT"@) {
                Some(port) => port,
                None => "9090"@,
            };
            let mint_port = match envfile::last_value(env@, "MINT_PORT"@) {
                Some(port) => port,
                None => "3338"@,
            };
            let m = if pinned {
                1int
            } else {
                0
            };
            &&& s.len() == 3 + m + (if latest is Some {
                1int
            } else {
                0
            })
            &&& running matches Some(v) ==> s[1] == "console: ok (version "@ + v@ + ")"@
            &&& running is None ==> s[1] == "console: not responding on 127.0.0.1:"@ + port
            &&& pinned && answers ==> s[2] == "mint:    ok (cashubtc/mintd:"@ + tag->0 + ")"@
            &&& pinned && !answers ==> s[2] == "mint:    not responding on 127.0.0.1:"@ + mint_port
                + " (cashubtc/mintd:"@ + tag->0 + ")"@
            &&& version is Some && version->0.len() > 0 ==> s[2 + m] == "installed version: "@
                + version->0
            &&& version is None || version->0.len() == 0 ==> s[2 + m]
                == "installed version: "@ + "unknown"@
            &&& latest matches Some(v) ==> (version == Some(v@) ==> s[3 + m]
                == "latest release:    "@ + v@ + " (up to date)"@)
            &&& latest matches Some(v) ==> (version is Some && version->0 != v@ ==> s[3 + m]
                == "latest release:    "@ + v@ + "  → run 'mintctl update'"@)
        }),
{
    reveal_strlit("");
}

/// The bundled mint is asked exactly where one is pinned, and both it and the
/// console are asked on this host, at the ports that the file names.
pub proof fn law_status_asks_here(env: EnvFile, url: String, poll: Option<Poll>)
    requires
        call_ensures(status_health_url, (&env,), url),
        call_ensures(status_mint_poll, (&env,), poll),
    ensures
        envfile::last_value(env@, "UI_PORT"@) matches Some(port) ==> url@ == "http://127.0.0.1:"@
            + port + "/healthz"@,
        envfile::last_value(env@, "UI_PORT"@) is None ==> url@ == "http://127.0.0.1:"@ + "9090"@
            + "/healthz"@,
        poll is Some <==> envfile::last_value(env@, "MINT_VERSION"@) is Some
            && envfile::last_value(env@, "MINT_VERSION"@)->0.len() > 0,
        poll matches Some(p) ==> (envfile::last_value(env@, "MINT_PORT"@) matches Some(port)
            ==> p.url@ == "http://127.0.0.1:"@ + port + "/v1/info"@),
        poll matches Some(p) ==> (envfile::last_value(env@, "MINT_PORT"@) is None ==> p.url@
            == "http://127.0.0.1:"@ + "3338"@ + "/v1/info"@),
{
}

/// The installed release is what the file pins, and the latest is told where it
/// is known.
pub proof fn law_version_tells(env: EnvFile, latest: Option<&str>, r: (String, Option<String>))
    requires
        call_ensures(version, (&env, latest), r),
    ensures
        envfile::last_value(env@, "VERSION"@) matches Some(v) ==> (v.len() > 0 ==> r.0@
            == "installed: "@ + v),
        envfile::last_value(env@, "VERSION"@) is None ==> r.0@ == "installed: "@ + "unknown"@,
        r.1 is Some <==> latest is Some,
        latest matches Some(v) ==> r.1->0@ == "latest release: "@ + v@,
{
    reveal_strlit("");
}

/// Only with its volumes asked for does taking the containers down delete any,
/// and either way what is left of services that are no longer there goes too.
pub proof fn law_taking_down(volumes: bool, r: Vec<String>)
    requires
        call_ensures(take_down_args, (volumes,), r),
    ensures
        text::texts(r@)[0] == "down"@,
        text::texts(r@).contains("-v"@) <==> volumes,
        text::texts(r@).contains("--remove-orphans"@),
{
    let s = text::texts(r@);
    assert(s.last() == "--remove-orphans"@ && s[0] == "down"@);
    assert(s[s.len() - 1] == "--remove-orphans"@);
    reveal_strlit("-v");
    reveal_strlit("down");
    reveal_strlit("--remove-orphans");
    if volumes {
        assert(s[1] == "-v"@);
    } else {
        assert forall|i: int| 0 <= i < s.len() implies s[i] != "-v"@ by {
            assert(s[i].len() != 2);
        }
    }
}

/// Before a purge the operator is told of the directory, and with a bundled mint
/// of its seed in it; after it, that both project and directory are gone. What is
/// kept without one is told too.
pub proof fn law_uninstall_tells(
    install_dir: &str,
    has_mint: bool,
    project: &str,
    warning: Vec<String>,
    purged: Vec<String>,
    kept: Vec<String>,
    prompt: String,
)
    requires
        call_ensures(purge_warning, (install_dir, has_mint), warning),
        call_ensures(uninstalled, (true, project, install_dir), purged),
        call_ensures(uninstalled, (false, project, install_dir), kept),
        call_ensures(purge_prompt, (project,), prompt),
    ensures
        has_mint ==> text::texts(warning@).contains(
            "SEED in "@ + install_dir@ + "/mint), and the directory itself. This cannot"@,
        ),
        !has_mint ==> text::texts(warning@).contains(
            "attachment config, the ticket ledger), and "@ + install_dir@
                + ". This cannot be undone."@,
        ),
        text::texts(warning@)[0]
            == "PURGE deletes the containers, ALL VOLUMES (operator accounts,"@,
        text::texts(purged@) == seq!["purged project "@ + project@ + " and "@ + install_dir@],
        text::texts(kept@)[0] == "containers removed; volumes and "@ + install_dir@ + " kept."@,
        prompt@ == "Type the project name ("@ + project@ + ") to confirm"@,
{
    let s = text::texts(warning@);
    if has_mint {
        assert(s[2] == "SEED in "@ + install_dir@
            + "/mint), and the directory itself. This cannot"@);
    } else {
        assert(s[1] == "attachment config, the ticket ledger), and "@ + install_dir@
            + ". This cannot be undone."@);
    }
}

/// The links that are looked at are the system's and the user's. One is removed
/// exactly where it leads to this installation's command: not where it leads to
/// another file there, and not where there is none.
pub proof fn law_own_links_are_removed(
    install_dir: &str,
    target: &str,
    name: Seq<char>,
    own: bool,
    missing: bool,
    link: Option<String>,
    links: Vec<String>,
)
    requires
        install_dir@.len() > 0,
        paths::plain_name(name),
        target@ == paths::below(install_dir@, name),
        call_ensures(remove_bin_link, (install_dir, Some(target)), own),
        call_ensures(remove_bin_link, (install_dir, None), missing),
        call_ensures(bin_links, (link,), links),
    ensures
        own <==> name == "mintctl"@,
        !missing,
        text::texts(links@)[0] == "/usr/local/bin/mintctl"@,
        link matches Some(path) ==> links@.len() == 2 && links@[1]@ == path@,
        link is None ==> links@.len() == 1,
{
    reveal_strlit("mintctl");
    let mine = "mintctl"@;
    assert(mine[0] == 'm');
    paths::lemma_pieces_below(install_dir@, name);
    paths::lemma_pieces_below(install_dir@, mine);
    let names = paths::named(text::pieces_of(install_dir@, '/'));
    assert(names.push(name).last() == name);
    assert(names.push(mine).last() == mine);
    assert(text::texts(links@).len() == links@.len());
    if link is Some {
        assert(text::texts(links@)[1] == links@[1]@);
    }
}

/// The place of a step in the order of steps.
pub open spec fn uninstall_rank(step: UninstallStep) -> int {
    match step {
        UninstallStep::TakeLock => 0,
        UninstallStep::ReadEnv => 1,
        UninstallStep::ConfirmTyped => 2,
        UninstallStep::TakeDown { .. } => 3,
        UninstallStep::RemoveLinks => 4,
        UninstallStep::RemoveDir => 5,
        UninstallStep::Done => 6,
        UninstallStep::NotConfirmed | UninstallStep::Refused | UninstallStep::Failed => -1,
    }
}

/// A yes leads to the next step, without a purge over the confirmation and the
/// directory, and the volumes go exactly in a purge. A no ends it: refused before
/// the operator was asked, not confirmed there, failed behind it. Only a link
/// need not be removed.
pub proof fn law_uninstall_goes_step_by_step(u: Uninstall, yes: bool, next: Uninstall)
    requires
        call_ensures(Uninstall::next, (u, yes), next),
    ensures
        ({
            let (k, n) = (uninstall_rank(u.step), uninstall_rank(next.step));
            &&& next.purge == u.purge
            &&& k == 0 || k == 1 ==> (yes <==> next.step != UninstallStep::Refused)
            &&& k == 2 && !yes ==> next.step == UninstallStep::NotConfirmed
            &&& (k == 3 || k == 5) && !yes ==> next.step == UninstallStep::Failed
            &&& k == 0 && yes ==> n == 1
            &&& k == 1 && yes ==> n == (if u.purge {
                2int
            } else {
                3
            })
            &&& (k == 1 && !u.purge && yes) ==> next.step == (UninstallStep::TakeDown {
                volumes: false,
            })
            &&& k == 2 && yes ==> next.step == (UninstallStep::TakeDown { volumes: true })
            &&& k == 3 && yes ==> n == 4
            &&& k == 4 ==> n == (if u.purge {
                5int
            } else {
                6
            })
            &&& k == 5 && yes ==> n == 6
            &&& k == 6 || k == -1 ==> next.step == u.step
        }),
{
}

/// Services are started in the background and waited for, with a limit of two
/// minutes; stopping only stops; logs are followed for the services that were
/// asked for.
pub proof fn law_service_commands(
    begin: Vec<String>,
    halt: Vec<String>,
    services: Vec<String>,
    follow: Vec<String>,
)
    requires
        call_ensures(start, (), begin),
        call_ensures(stop, (), halt),
        call_ensures(logs, (&services,), follow),
    ensures
        text::texts(begin@) == seq!["up"@, "-d"@, "--wait"@, "--wait-timeout"@, "120"@],
        text::texts(halt@) == seq!["stop"@],
        text::texts(follow@).take(2) == seq!["logs"@, "-f"@],
        text::texts(follow@).skip(3) == text::texts(services@),
{
    assert(text::texts(follow@).take(2) =~= seq!["logs"@, "-f"@]);
    assert(text::texts(follow@).skip(3) =~= text::texts(services@));
}

/// An uninstall begins with the lock, purge or not.
pub proof fn law_where_an_uninstall_begins(purge: bool, r: Uninstall, env: EnvFile, tag: Option<String>)
    requires
        call_ensures(uninstall, (purge,), r),
        call_ensures(get_pinned_mint, (&env,), tag),
    ensures
        r.step is TakeLock && r.purge == purge,
        tag is Some <==> envfile::last_value(env@, "MINT_VERSION"@) is Some && envfile::last_value(
            env@,
            "MINT_VERSION"@,
        )->0.len() > 0,
        tag matches Some(t) ==> Some(t@) == envfile::last_value(env@, "MINT_VERSION"@),
{
}

} // verus!
