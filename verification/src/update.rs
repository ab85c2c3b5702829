//! Updates: stage and verify before touching the live deployment. A consistent
//! data backup and the previous deployment files survive any activation
//! failure.

use crate::args::UpdateArgs;
use crate::compose;
use crate::envfile;
use crate::envfile::EnvFile;
use crate::install;
use crate::install::{BINARY_FILE, CADDY_FILE, COMPOSE_FILE, ENV_FILE, EXAMPLE_FILE};
use crate::mint::FileWrite;
use crate::ops;
use crate::outside;
use crate::paths;
use crate::release;
use crate::text;
use vstd::prelude::*;

verus! {

/// The files of a deployment, in the order in which they are committed.
pub open spec fn deployment_files() -> Seq<Seq<char>> {
    seq![COMPOSE_FILE@, CADDY_FILE@, EXAMPLE_FILE@, BINARY_FILE@, ENV_FILE@]
}

pub fn files() -> (r: Vec<String>)
    ensures
        text::texts(r@) == deployment_files(),
{
    let names = text::words(&[COMPOSE_FILE, CADDY_FILE, EXAMPLE_FILE, BINARY_FILE, ENV_FILE]);
    assert(text::texts(names@) =~= deployment_files());
    names
}

// ---------------------------------------------------------------------------
// what is updated, and to what
// ---------------------------------------------------------------------------
pub const MANAGED_MINT: &'static str = "this pre-0.2 installation contains a managed mint. Follow 'Migrating from the bundled mint' in docs/operations.md before updating; its container and data have been left in place";

pub const EXTERNAL_MINT: &'static str = "mint updates require an installation with a bundled mint; update an external mint with its own tooling";

pub const NO_VERSION_PIN: &'static str = "installation has no VERSION pin";

pub const NO_MINT_PIN: &'static str = "bundled installation has no MINT_VERSION pin; set its currently running image tag in .env before updating";

pub const NO_TESTED_MINT: &'static str = "target release does not declare a tested MINT_VERSION; use --mint-version <tag> explicitly";

pub const PASS_A_VERSION: &'static str = "pass --version vX.Y.Z to select a release explicitly";

/// The release that an installation is pinned to.
pub open spec fn pinned_version(env: Seq<Seq<char>>) -> Option<Seq<char>> {
    release::nonempty(envfile::last_value(env, "VERSION"@))
}

/// Why an installation is not updated at all.
pub open spec fn admission_refusal(args: UpdateArgs, env: Seq<Seq<char>>) -> Option<Seq<char>> {
    if envfile::last_value(env, "MINT_MODE"@) is Some {
        Some(MANAGED_MINT@)
    } else if (args.with_mint || args.mint_version is Some) && !ops::profile_on(env, "mint"@) {
        Some(EXTERNAL_MINT@)
    } else if pinned_version(env) is None {
        Some(NO_VERSION_PIN@)
    } else {
        None
    }
}

/// The release that is installed now, unless the installation is not updated.
pub fn installed_release(args: &UpdateArgs, env: &EnvFile) -> (r: Result<String, String>)
    ensures
        match r {
            Ok(current) => admission_refusal(*args, env@) is None && pinned_version(env@) == Some(
                current@,
            ),
            Err(message) => admission_refusal(*args, env@) == Some(message@),
        },
{
    if env.get("MINT_MODE").is_some() {
        return Err(MANAGED_MINT.to_owned());
    }
    let bundled = ops::has_profile(env, "mint");
    if (args.with_mint || args.mint_version.is_some()) && !bundled {
        return Err(EXTERNAL_MINT.to_owned());
    }
    match env.get("VERSION") {
        Some(version) => if version.as_str().is_empty() {
            Err(NO_VERSION_PIN.to_owned())
        } else {
            Ok(version)
        },
        None => Err(NO_VERSION_PIN.to_owned()),
    }
}

/// The release to update to: the one that was asked for, the current one where
/// only a mint tag was, and otherwise the latest. An explicit mint tag on its
/// own is a mint-only update, also offline.
pub open spec fn target_of(args: UpdateArgs, current: Seq<char>, latest: Option<Seq<char>>) -> Option<
    Seq<char>,
> {
    match args.version {
        Some(version) => Some(version@),
        None => if args.mint_version is Some {
            Some(current)
        } else {
            latest
        },
    }
}

/// Whether the latest release has to be looked up.
pub fn needs_latest(args: &UpdateArgs) -> (r: bool)
    ensures
        r == (args.version is None && args.mint_version is None),
{
    args.version.is_none() && args.mint_version.is_none()
}

/// The release to update to, where it is a valid tag. `latest` is the latest
/// release, where it was looked up and found.
pub fn select_target(args: &UpdateArgs, current: &str, latest: Option<&str>) -> (r: Result<
    String,
    String,
>)
    ensures
        match (target_of(*args, current@, text::opt_str(latest)), r) {
            (Some(target), Ok(tag)) => tag@ == target && release::valid_tag(target),
            (Some(target), Err(message)) => !release::valid_tag(target) && message@
                == release::tag_refusal(target),
            (None, Err(message)) => message@ == PASS_A_VERSION@,
            (None, Ok(_)) => false,
        },
{
    let target = match &args.version {
        Some(version) => version.clone(),
        None => if args.mint_version.is_some() {
            current.to_owned()
        } else {
            match latest {
                Some(tag) => tag.to_owned(),
                None => {
                    return Err(PASS_A_VERSION.to_owned());
                },
            }
        },
    };
    match release::validate_tag(target.as_str()) {
        Ok(_) => Ok(target),
        Err(message) => Err(message),
    }
}

/// What a line of the example file pins the mint to, commented out or not.
pub open spec fn pinned_on(line: Seq<char>) -> Option<Seq<char>> {
    text::strip(text::left_trimmed(line, |c: char| c == '#'), "MINT_VERSION="@)
}

/// The first pin among the lines.
pub open spec fn first_pin(lines: Seq<Seq<char>>) -> Option<Seq<char>>
    decreases lines.len(),
{
    if lines.len() == 0 {
        None
    } else if pinned_on(lines[0]) is Some {
        pinned_on(lines[0])
    } else {
        first_pin(lines.drop_first())
    }
}

/// The mint tag that a release was tested with, from its example file, or why
/// there is none.
pub open spec fn tested_tag(example: Seq<char>) -> Result<Seq<char>, Seq<char>> {
    match release::nonempty(first_pin(text::lines_of(example))) {
        Some(tag) => if release::valid_tag(tag) {
            Ok(tag)
        } else {
            Err(release::tag_refusal(tag))
        },
        None => Err(NO_TESTED_MINT@),
    }
}

pub fn tested_mint_tag(example: &str) -> (r: Result<String, String>)
    ensures
        match r {
            Ok(tag) => tested_tag(example@) == Ok::<Seq<char>, Seq<char>>(tag@),
            Err(message) => tested_tag(example@) == Err::<Seq<char>, Seq<char>>(message@),
        },
{
    let lines = text::lines(example);
    let ghost all = text::lines_of(example@);
    let mut i: usize = 0;
    assert(all.skip(0) =~= all);
    while i < lines.len()
        invariant
            i <= lines@.len(),
            all == text::texts(lines@),
            all == text::lines_of(example@),
            first_pin(all) == first_pin(all.skip(i as int)),
        decreases lines@.len() - i,
    {
        assert(all.skip(i as int)[0] == lines@[i as int]@);
        assert(all.skip(i as int).drop_first() =~= all.skip(i + 1));
        let bare = text::trim_start_char(lines[i].as_str(), '#');
        match text::strip_prefix(bare.as_str(), "MINT_VERSION=") {
            Some(tag) => {
                if tag.as_str().is_empty() {
                    return Err(NO_TESTED_MINT.to_owned());
                }
                return match release::validate_tag(tag.as_str()) {
                    Ok(_) => Ok(tag),
                    Err(message) => Err(message),
                };
            },
            None => {},
        }
        i += 1;
    }
    Err(NO_TESTED_MINT.to_owned())
}

/// What an update changes.
pub struct UpdatePlan {
    pub current: String,
    pub target: String,
    pub current_mint: Option<String>,
    pub target_mint: Option<String>,
    pub console_changed: bool,
    pub mint_changed: bool,
    pub with_mint: bool,
}

/// The mint tag to update to, where there is one, or why the update is refused.
/// `example` is the target release's example file, which is asked only with
/// `--with-mint`.
pub open spec fn mint_target(args: UpdateArgs, env: Seq<Seq<char>>, example: Seq<char>) -> Result<
    Option<Seq<char>>,
    Seq<char>,
> {
    let asked = match args.mint_version {
        Some(tag) => Some(tag@),
        None => ops::pinned_mint(env),
    };
    if ops::profile_on(env, "mint"@) && ops::pinned_mint(env) is None {
        Err(NO_MINT_PIN@)
    } else if args.with_mint {
        match tested_tag(example) {
            Ok(tag) => Ok(Some(tag)),
            Err(message) => Err(message),
        }
    } else {
        match asked {
            Some(tag) => if release::valid_tag(tag) {
                Ok(Some(tag))
            } else {
                Err(release::tag_refusal(tag))
            },
            None => Ok(None),
        }
    }
}

/// That a plan is the one for this update.
pub open spec fn update_meets(
    args: UpdateArgs,
    env: Seq<Seq<char>>,
    current: Seq<char>,
    target: Seq<char>,
    example: Seq<char>,
    plan: UpdatePlan,
) -> bool {
    &&& plan.current@ == current
    &&& plan.target@ == target
    &&& text::opt(plan.current_mint) == ops::pinned_mint(env)
    &&& mint_target(args, env, example) == Ok::<Option<Seq<char>>, Seq<char>>(
        text::opt(plan.target_mint),
    )
    &&& plan.console_changed == (target != current)
    &&& plan.mint_changed == (text::opt(plan.target_mint) != ops::pinned_mint(env))
    &&& plan.with_mint == args.with_mint
}

fn select_mint(args: &UpdateArgs, env: &EnvFile, example: &str) -> (r: Result<
    Option<String>,
    String,
>)
    ensures
        match r {
            Ok(tag) => mint_target(*args, env@, example@) == Ok::<Option<Seq<char>>, Seq<char>>(
                text::opt(tag),
            ),
            Err(message) => mint_target(*args, env@, example@) == Err::<
                Option<Seq<char>>,
                Seq<char>,
            >(message@),
        },
{
    let pinned = ops::get_pinned_mint(env);
    if ops::has_profile(env, "mint") && pinned.is_none() {
        return Err(NO_MINT_PIN.to_owned());
    }
    if args.with_mint {
        return match tested_mint_tag(example) {
            Ok(tag) => Ok(Some(tag)),
            Err(message) => Err(message),
        };
    }
    let asked = match &args.mint_version {
        Some(tag) => Some(tag.clone()),
        None => pinned,
    };
    match asked {
        Some(tag) => match release::validate_tag(tag.as_str()) {
            Ok(_) => Ok(Some(tag)),
            Err(message) => Err(message),
        },
        None => Ok(None),
    }
}

fn same_tag(a: &Option<String>, b: &Option<String>) -> (r: bool)
    ensures
        r == (text::opt(*a) == text::opt(*b)),
{
    match (a, b) {
        (Some(x), Some(y)) => text::same(x.as_str(), y.as_str()),
        (None, None) => true,
        _ => false,
    }
}

/// The plan of an update from `current` to `target`.
pub fn plan_update(args: &UpdateArgs, env: &EnvFile, current: &str, target: &str, example: &str) -> (r:
    Result<UpdatePlan, String>)
    ensures
        match r {
            Ok(plan) => update_meets(*args, env@, current@, target@, example@, plan),
            Err(message) => mint_target(*args, env@, example@) == Err::<
                Option<Seq<char>>,
                Seq<char>,
            >(message@),
        },
{
    let target_mint = match select_mint(args, env, example) {
        Ok(tag) => tag,
        Err(message) => {
            return Err(message);
        },
    };
    let current_mint = ops::get_pinned_mint(env);
    let mint_changed = !same_tag(&target_mint, &current_mint);
    Ok(
        UpdatePlan {
            current: current.to_owned(),
            target: target.to_owned(),
            current_mint,
            target_mint,
            console_changed: !text::same(target, current),
            mint_changed,
            with_mint: args.with_mint,
        },
    )
}

pub open spec fn unchanged_mark(changed: bool) -> Seq<char> {
    if changed {
        ""@
    } else {
        " (unchanged)"@
    }
}

fn mark(changed: bool) -> (r: &'static str)
    ensures
        r@ == unchanged_mark(changed),
{
    if changed {
        ""
    } else {
        " (unchanged)"
    }
}

/// What is said of an update before it is asked for.
pub open spec fn preview_lines(plan: UpdatePlan) -> Seq<Seq<char>> {
    seq![
        "Console: "@
            + plan.current@
            + " → "@
            + plan.target@
            + unchanged_mark(plan.console_changed),
    ] + (match plan.target_mint {
        Some(tag) => seq![
            "Mint:    "@
                + text::or_text(plan.current_mint, "unknown"@)
                + " → "@
                + tag@
                + unchanged_mark(plan.mint_changed),
        ],
        None => Seq::empty(),
    })
}

pub fn preview(plan: &UpdatePlan) -> (r: Vec<String>)
    ensures
        text::texts(r@) == preview_lines(*plan),
{
    broadcast use text::lemma_texts_push;

    let mut lines: Vec<String> = Vec::new();
    lines.push(
        "Console: ".to_owned()
            .concat(plan.current.as_str())
            .concat(" → ")
            .concat(plan.target.as_str())
            .concat(mark(plan.console_changed)),
    );
    match &plan.target_mint {
        Some(tag) => {
            let from = text::text_or(&plan.current_mint, "unknown");
            lines.push("Mint:    ".to_owned()
                .concat(from.as_str())
                .concat(" → ")
                .concat(tag.as_str())
                .concat(mark(plan.mint_changed)));
        },
        None => {},
    }
    assert(text::texts(lines@) =~= preview_lines(*plan));
    lines
}

pub const UPDATE_NOTICE: &'static str = "A backup will be saved before updating. Services pause briefly for the snapshot.";

pub const UPDATE_PROMPT: &'static str = "Apply this update?";

pub const UPDATE_CANCELLED: &'static str = "update cancelled; for unattended updates pass --yes";

// ---------------------------------------------------------------------------
// staging
// ---------------------------------------------------------------------------
/// How a file of the deployment comes into the staging directory.
#[derive(Debug, Clone, Copy, PartialEq, Eq, Structural)]
pub enum StageAction {
    /// The target release's binary is placed there.
    PlaceBinary,
    /// The live file is copied.
    CopyLive,
    /// It is there already, or nowhere.
    Leave,
}

/// `live` says whether the installation has the file.
pub fn stage_action(name: &str, console_changed: bool, live: bool) -> (r: StageAction)
    ensures
        r == (if name@ == BINARY_FILE@ && console_changed {
            StageAction::PlaceBinary
        } else if (name@ == ENV_FILE@ || !console_changed) && live {
            StageAction::CopyLive
        } else {
            StageAction::Leave
        }),
{
    if text::same(name, BINARY_FILE) && console_changed {
        StageAction::PlaceBinary
    } else if (text::same(name, ENV_FILE) || !console_changed) && live {
        StageAction::CopyLive
    } else {
        StageAction::Leave
    }
}

/// The `.env` with the target pins.
pub open spec fn updated(env: Seq<Seq<char>>, target: Seq<char>, target_mint: Option<Seq<char>>) -> Seq<
    Seq<char>,
> {
    let pinned = envfile::with_entry(env, "VERSION"@, target);
    match target_mint {
        Some(tag) => envfile::with_entry(pinned, "MINT_VERSION"@, tag),
        None => pinned,
    }
}

/// Puts the target pins into the staged `.env`.
pub fn set_pins(staged: &mut EnvFile, plan: &UpdatePlan)
    ensures
        final(staged)@ == updated(old(staged)@, plan.target@, text::opt(plan.target_mint)),
        final(staged).location() == old(staged).location(),
{
    staged.set("VERSION", plan.target.as_str());
    match &plan.target_mint {
        Some(tag) => staged.set("MINT_VERSION", tag.as_str()),
        None => {},
    }
}

/// How the new Caddyfile is finished: the certificate account, and whether it
/// has the mint's site.
pub fn caddy_settings(next: &EnvFile, bundled: bool) -> (r: (String, bool))
    ensures
        r.0@ == ops::value_or(next@, "ACME_EMAIL"@, ""@),
        r.1 == (bundled && ops::profile_on(next@, "tls"@) && release::nonempty(
            envfile::last_value(next@, "MINT_DOMAIN"@),
        ) is Some),
{
    let has_domain: bool = match next.get("MINT_DOMAIN") {
        Some(domain) => !domain.as_str().is_empty(),
        None => false,
    };
    let site: bool = bundled && ops::has_profile(next, "tls") && has_domain;
    (ops::get_or(next, "ACME_EMAIL", ""), site)
}

/// The services that are recreated: only the selected ones.
pub open spec fn services_of(plan: UpdatePlan, tls: bool) -> Seq<Seq<char>> {
    (if plan.console_changed {
        seq!["processor"@]
    } else {
        Seq::empty()
    }) + (if plan.mint_changed || (plan.with_mint && plan.console_changed) {
        seq!["mintd"@]
    } else {
        Seq::empty()
    }) + (if plan.console_changed && tls {
        seq!["caddy"@]
    } else {
        Seq::empty()
    })
}

/// `next` is the staged `.env`.
pub fn services(plan: &UpdatePlan, next: &EnvFile) -> (r: Vec<String>)
    ensures
        text::texts(r@) == services_of(*plan, ops::profile_on(next@, "tls"@)),
{
    broadcast use text::lemma_texts_push;

    let tls = ops::has_profile(next, "tls");
    let mut names: Vec<String> = Vec::new();
    if plan.console_changed {
        names.push("processor".to_owned());
    }
    if plan.mint_changed || (plan.with_mint && plan.console_changed) {
        names.push("mintd".to_owned());
    }
    if plan.console_changed && tls {
        names.push("caddy".to_owned());
    }
    assert(text::texts(names@) =~= services_of(*plan, tls));
    names
}

fn with_services(words: Vec<String>, services: &Vec<String>) -> (r: Vec<String>)
    ensures
        text::texts(r@) == text::texts(words@) + text::texts(services@),
{
    let mut args = words;
    text::extend(&mut args, services);
    args
}

/// Has compose check the staged configuration.
pub fn config_args() -> (r: Vec<String>)
    ensures
        text::texts(r@) == seq!["config"@, "--quiet"@],
{
    let args = text::words(&["config", "--quiet"]);
    assert(text::texts(args@) =~= seq!["config"@, "--quiet"@]);
    args
}

/// Pulls the images of these services.
pub fn pull_args(services: &Vec<String>) -> (r: Vec<String>)
    ensures
        text::texts(r@) == seq!["pull"@, "--quiet"@] + text::texts(services@),
{
    let words = text::words(&["pull", "--quiet"]);
    assert(text::texts(words@) =~= seq!["pull"@, "--quiet"@]);
    with_services(words, services)
}

/// Names the images of these services.
pub fn images_args(services: &Vec<String>) -> (r: Vec<String>)
    ensures
        text::texts(r@) == seq!["config"@, "--images"@] + text::texts(services@),
{
    let words = text::words(&["config", "--images"]);
    assert(text::texts(words@) =~= seq!["config"@, "--images"@]);
    with_services(words, services)
}

/// Recreates exactly these services, with the images as they are, and waits for
/// them. Orphans are never removed, nor old images pruned: another installation
/// or the recovery may need them.
pub open spec fn up_command(services: Seq<Seq<char>>) -> Seq<Seq<char>> {
    seq![
        "up"@,
        "-d"@,
        "--no-deps"@,
        "--pull"@,
        "never"@,
        "--force-recreate"@,
        "--wait"@,
        "--wait-timeout"@,
        "120"@,
    ] + services
}

pub fn up_args(services: &Vec<String>) -> (r: Vec<String>)
    ensures
        text::texts(r@) == up_command(text::texts(services@)),
{
    let words = text::words(
        &[
            "up",
            "-d",
            "--no-deps",
            "--pull",
            "never",
            "--force-recreate",
            "--wait",
            "--wait-timeout",
            "120",
        ],
    );
    let args = with_services(words, services);
    assert(text::texts(args@) =~= up_command(text::texts(services@)));
    args
}

/// The images that compose named, one on each line; `None` where that is no
/// text.
pub fn named_images(stdout: &[u8]) -> (r: Option<Vec<String>>)
    ensures
        match r {
            Some(images) => vstd::utf8::valid_utf8(stdout@) && text::texts(images@)
                == text::lines_of(vstd::utf8::decode_utf8(stdout@)),
            None => !vstd::utf8::valid_utf8(stdout@),
        },
{
    match outside::decode(stdout) {
        Some(output) => Some(text::lines(output.as_str())),
        None => None,
    }
}

pub const IMAGES_UNRESOLVED: &'static str = "cannot resolve target images";

pub fn image_unavailable(image: &str) -> (r: String)
    ensures
        r@ == "--no-pull: target image "@ + image@ + " is not available locally"@,
{
    "--no-pull: target image ".to_owned().concat(image).concat(" is not available locally")
}

pub open spec fn staged_failed(args: Seq<Seq<char>>) -> Seq<char> {
    "docker compose "@ + text::joined(args, " "@) + " failed; live deployment is unchanged"@
}

/// What a compose command on the staged files leads to.
pub fn staged_compose(args: &Vec<String>, success: bool) -> (r: Result<(), String>)
    ensures
        match r {
            Ok(_) => success,
            Err(message) => !success && message@ == staged_failed(text::texts(args@)),
        },
{
    if success {
        Ok(())
    } else {
        let words = text::join(args, " ");
        Err("docker compose ".to_owned()
            .concat(words.as_str())
            .concat(" failed; live deployment is unchanged"))
    }
}

// ---------------------------------------------------------------------------
// recovery
// ---------------------------------------------------------------------------
pub const HISTORY_DIR: &'static str = "updates";

pub const RECOVERY_PREFIX: &'static str = "before-";

pub const RECOVERY_MODE: u32 = 0o700;

pub const RECOVERY_ARCHIVE: &'static str = "backup.tar.gz";

/// What the recovery directory's instructions say.
pub open spec fn recovery_text(plan: UpdatePlan) -> Seq<char> {
    "Before update: console "@
        + plan.current@
        + ", mint "@
        + text::or_text(plan.current_mint, "external"@)
        + ".\nTarget: console "@
        + plan.target@
        + ", mint "@
        + text::or_text(plan.target_mint, "external"@)
        + ".\n\nIf startup fails, inspect mintctl logs and retry mintctl start.\nDo not downgrade a mint against a database that a newer version may have migrated.\nTo restore the snapshot deliberately (discards all activity since the backup):\n1. Run mintctl stop.\n2. Copy docker-compose.yml, Caddyfile, .env.example, .env and mintctl from this directory into the installation (preserve permissions).\n3. Run the restored mintctl restore with this directory's backup.tar.gz.\n4. Run mintctl status and verify the console's Mint tab.\n"@
}

/// The instructions, private, in the recovery directory.
pub fn recovery_file(plan: &UpdatePlan, recovery: &str) -> (r: FileWrite)
    ensures
        r.path@ == paths::below(recovery@, "RECOVERY.txt"@),
        r.contents@ == recovery_text(*plan),
        r.mode == 0o600,
        !r.exclusive,
{
    let from = text::text_or(&plan.current_mint, "external");
    let to = text::text_or(&plan.target_mint, "external");
    let contents = "Before update: console ".to_owned()
        .concat(plan.current.as_str())
        .concat(", mint ")
        .concat(from.as_str())
        .concat(".\nTarget: console ")
        .concat(plan.target.as_str())
        .concat(", mint ")
        .concat(to.as_str())
        .concat(".\n\nIf startup fails, inspect mintctl logs and retry mintctl start.\nDo not downgrade a mint against a database that a newer version may have migrated.\nTo restore the snapshot deliberately (discards all activity since the backup):\n1. Run mintctl stop.\n2. Copy docker-compose.yml, Caddyfile, .env.example, .env and mintctl from this directory into the installation (preserve permissions).\n3. Run the restored mintctl restore with this directory's backup.tar.gz.\n4. Run mintctl status and verify the console's Mint tab.\n");
    FileWrite { path: paths::join(recovery, "RECOVERY.txt"), contents, mode: 0o600, exclusive: false }
}

pub fn kept_in(recovery: &str) -> (r: String)
    ensures
        r@ == "Backup and previous deployment: "@ + recovery@,
{
    "Backup and previous deployment: ".to_owned().concat(recovery)
}

pub const ROLLED_BACK: &'static str = "could not commit update; previous deployment files restored";

/// What to say when the new services did not come up: the pins stay.
pub fn not_healthy(recovery: &str) -> (r: String)
    ensures
        r@ == "update did not become healthy. Target pins are retained so you can retry 'mintctl start'. Check 'mintctl logs'; backup and recovery instructions: "@
            + recovery@
            + ". No database downgrade was attempted"@,
{
    "update did not become healthy. Target pins are retained so you can retry 'mintctl start'. Check 'mintctl logs'; backup and recovery instructions: ".to_owned()
        .concat(recovery)
        .concat(". No database downgrade was attempted")
}

pub const UPDATE_COMPLETE: &'static str = "Update complete; selected services are healthy.";

// ---------------------------------------------------------------------------
// laws of the pins
// ---------------------------------------------------------------------------
/// Updates never touch the mint implicitly: unless the flags ask for it, the
/// mint's tag is the one that is pinned, nothing of it changes in the `.env`,
/// and the mint is not recreated.
pub proof fn law_mint_moves_only_when_asked(
    args: UpdateArgs,
    env: Seq<Seq<char>>,
    current: Seq<char>,
    target: Seq<char>,
    example: Seq<char>,
    plan: UpdatePlan,
    tls: bool,
)
    requires
        update_meets(args, env, current, target, example, plan),
        !args.with_mint,
        args.mint_version is None,
    ensures
        text::opt(plan.target_mint) == ops::pinned_mint(env),
        !plan.mint_changed,
        ops::pinned_mint(updated(env, target, text::opt(plan.target_mint))) == ops::pinned_mint(
            env,
        ),
        !services_of(plan, tls).contains("mintd"@),
{
    lemma_pin_keys();
    lemma_service_names();
    envfile::law_set_keeps_other_keys(env, "VERSION"@, target, "MINT_VERSION"@);
    if plan.target_mint is Some {
        let pinned = envfile::with_entry(env, "VERSION"@, target);
        envfile::law_get_after_set(pinned, "MINT_VERSION"@, plan.target_mint->0@);
    }
    let names = services_of(plan, tls);
    if names.contains("mintd"@) {
        let i = choose|i: int| 0 <= i < names.len() && names[i] == "mintd"@;
        assert(names[i] == "processor"@ || names[i] == "caddy"@);
    }
}

/// An explicit mint tag on its own is a mint-only update: the console keeps its
/// release, nothing is looked up or fetched, and only the mint is recreated.
pub proof fn law_mint_only_update_keeps_the_console(
    args: UpdateArgs,
    env: Seq<Seq<char>>,
    current: Seq<char>,
    latest: Option<Seq<char>>,
    example: Seq<char>,
    plan: UpdatePlan,
    tls: bool,
)
    requires
        args.version is None,
        args.mint_version is Some,
        !args.with_mint,
        target_of(args, current, latest) is Some,
        update_meets(args, env, current, target_of(args, current, latest)->0, example, plan),
    ensures
        target_of(args, current, latest) == Some(current),
        !plan.console_changed,
        text::opt(plan.target_mint) == text::opt(args.mint_version),
        plan.mint_changed ==> services_of(plan, tls) == seq!["mintd"@],
        !plan.mint_changed ==> services_of(plan, tls).len() == 0,
        pinned_version(updated(env, current, text::opt(plan.target_mint))) == release::nonempty(
            Some(current),
        ),
{
    lemma_pin_keys();
    if plan.mint_changed {
        assert(services_of(plan, tls) =~= seq!["mintd"@]);
    }
    let pinned = envfile::with_entry(env, "VERSION"@, current);
    envfile::law_get_after_set(env, "VERSION"@, current);
    envfile::law_set_keeps_other_keys(
        pinned,
        "MINT_VERSION"@,
        plan.target_mint->0@,
        "VERSION"@,
    );
}

/// With `--with-mint` a new console release recreates the mint too, even where
/// its image pin is unchanged, so that the release's configuration applies.
pub proof fn law_with_mint_recreates_the_mint(plan: UpdatePlan, tls: bool)
    requires
        plan.with_mint,
        plan.console_changed,
    ensures
        services_of(plan, tls).contains("processor"@),
        services_of(plan, tls).contains("mintd"@),
{
    assert(services_of(plan, tls)[0] == "processor"@);
    assert(services_of(plan, tls)[1] == "mintd"@);
}

/// An update changes the two pins and keeps every other setting.
pub proof fn law_update_keeps_other_settings(
    env: Seq<Seq<char>>,
    target: Seq<char>,
    target_mint: Option<Seq<char>>,
    key: Seq<char>,
)
    requires
        envfile::apart("VERSION"@, key),
        envfile::apart("MINT_VERSION"@, key),
    ensures
        envfile::last_value(updated(env, target, target_mint), key) == envfile::last_value(
            env,
            key,
        ),
{
    envfile::law_set_keeps_other_keys(env, "VERSION"@, target, key);
    if target_mint is Some {
        let pinned = envfile::with_entry(env, "VERSION"@, target);
        envfile::law_set_keeps_other_keys(pinned, "MINT_VERSION"@, target_mint->0, key);
    }
}

/// Comments and the lines for other keys are kept as they are, in their order.
pub proof fn law_update_keeps_other_lines(
    env: Seq<Seq<char>>,
    target: Seq<char>,
    target_mint: Option<Seq<char>>,
)
    ensures
        envfile::without(
            envfile::without(updated(env, target, target_mint), "VERSION"@),
            "MINT_VERSION"@,
        ) == envfile::without(envfile::without(env, "VERSION"@), "MINT_VERSION"@),
{
    let (v, m) = ("VERSION"@, "MINT_VERSION"@);
    let pinned = envfile::with_entry(env, v, target);
    envfile::law_set_keeps_other_lines(env, v, target);
    if target_mint is Some {
        let tag = target_mint->0;
        let next = envfile::with_entry(pinned, m, tag);
        envfile::law_set_keeps_other_lines(pinned, m, tag);
        envfile::lemma_without_commutes(next, v, m);
        envfile::lemma_without_commutes(pinned, v, m);
    }
}

/// The pins that an update writes are read back from the saved file: valid tags
/// cannot inject anything into it.
pub proof fn law_pins_read_back(
    env: Seq<Seq<char>>,
    target: Seq<char>,
    target_mint: Option<Seq<char>>,
)
    requires
        forall|i: int| 0 <= i < env.len() ==> envfile::plain_line(#[trigger] env[i]),
        release::valid_tag(target),
        target_mint matches Some(tag) ==> release::valid_tag(tag),
    ensures
        ({
            let saved = text::lines_of(envfile::body_of(updated(env, target, target_mint)));
            &&& saved == updated(env, target, target_mint)
            &&& envfile::last_value(saved, "VERSION"@) == Some(target)
            &&& target_mint matches Some(tag) ==> envfile::last_value(saved, "MINT_VERSION"@)
                == Some(tag)
        }),
{
    lemma_pin_keys();
    let pinned = envfile::with_entry(env, "VERSION"@, target);
    release::law_tag_stays_on_its_line("VERSION"@, target);
    envfile::lemma_plain_with_entry(env, "VERSION"@, target);
    envfile::law_get_after_set(env, "VERSION"@, target);
    match target_mint {
        Some(tag) => {
            release::law_tag_stays_on_its_line("MINT_VERSION"@, tag);
            envfile::lemma_plain_with_entry(pinned, "MINT_VERSION"@, tag);
            envfile::law_get_after_set(pinned, "MINT_VERSION"@, tag);
            envfile::law_set_keeps_other_keys(pinned, "MINT_VERSION"@, tag, "VERSION"@);
        },
        None => {},
    }
    envfile::law_saved_reads_back(updated(env, target, target_mint));
}

proof fn lemma_pin_keys()
    ensures
        envfile::apart("VERSION"@, "MINT_VERSION"@),
        envfile::apart("MINT_VERSION"@, "VERSION"@),
        !"VERSION"@.contains('\n'),
        !"MINT_VERSION"@.contains('\n'),
{
    reveal_strlit("VERSION");
    reveal_strlit("MINT_VERSION");
    assert("VERSION"@.len() != "MINT_VERSION"@.len());
    envfile::lemma_plain_keys_apart("VERSION"@, "MINT_VERSION"@);
}

proof fn lemma_service_names()
    ensures
        "mintd"@ != "processor"@,
        "mintd"@ != "caddy"@,
        "processor"@ != "caddy"@,
{
    reveal_strlit("mintd");
    reveal_strlit("processor");
    reveal_strlit("caddy");
    assert("mintd"@.len() != "processor"@.len());
    assert("mintd"@[0] != "caddy"@[0]);
    assert("processor"@.len() != "caddy"@.len());
}

// ---------------------------------------------------------------------------
// laws of the selection
// ---------------------------------------------------------------------------
/// What a release brings is what is recreated: the processor exactly where the
/// console's release changes, the bundled Caddy, whose file the release replaces,
/// exactly where that happens in an installation with TLS, and the mint exactly
/// where its tag changes or a new release was to include it. No other service is
/// named, and none twice.
pub proof fn law_services_are_those_affected(plan: UpdatePlan, next: EnvFile, names: Vec<String>)
    requires
        call_ensures(services, (&plan, &next), names),
    ensures
        ({
            let s = text::texts(names@);
            &&& s.contains("processor"@) <==> plan.console_changed
            &&& s.contains("caddy"@) <==> plan.console_changed && ops::profile_on(next@, "tls"@)
            &&& s.contains("mintd"@) <==> plan.mint_changed || (plan.with_mint
                && plan.console_changed)
            &&& forall|i: int|
                0 <= i < s.len() ==> #[trigger] s[i] == "processor"@ || s[i] == "caddy"@ || s[i]
                    == "mintd"@
            &&& s.no_duplicates()
        }),
{
    lemma_service_names();
    let s = text::texts(names@);
    if plan.console_changed {
        assert(s[0] == "processor"@);
        if ops::profile_on(next@, "tls"@) {
            assert(s[s.len() - 1] == "caddy"@);
        }
    }
    if plan.mint_changed || (plan.with_mint && plan.console_changed) {
        if plan.console_changed {
            assert(s[1] == "mintd"@);
        } else {
            assert(s[0] == "mintd"@);
        }
    }
}

/// The services that are pulled, those whose images are looked for, and those
/// that are recreated are the same; recreating goes without their dependencies,
/// never pulls, and removes no orphans.
pub proof fn law_selected_services_are_recreated(
    services: Vec<String>,
    pull: Vec<String>,
    images: Vec<String>,
    up: Vec<String>,
)
    requires
        call_ensures(pull_args, (&services,), pull),
        call_ensures(images_args, (&services,), images),
        call_ensures(up_args, (&services,), up),
    ensures
        ({
            let s = text::texts(services@);
            let (p, i, u) = (text::texts(pull@), text::texts(images@), text::texts(up@));
            let options = u.take(u.len() - s.len());
            &&& p[0] == "pull"@ && p.skip(p.len() - s.len()) == s && p.len() == s.len() + 2
            &&& i[0] == "config"@ && i[1] == "--images"@ && i.skip(2) == s
            &&& u[0] == "up"@ && u.skip(u.len() - s.len()) == s
            &&& options.contains("--no-deps"@)
            &&& options.contains("--force-recreate"@)
            &&& options.contains("--wait"@)
            &&& !options.contains("--remove-orphans"@)
            &&& exists|k: int|
                0 <= k < options.len() - 1 && #[trigger] options[k] == "--pull"@ && options[k + 1]
                    == "never"@
        }),
{
    let s = text::texts(services@);
    let (p, i, u) = (text::texts(pull@), text::texts(images@), text::texts(up@));
    let options = u.take(u.len() - s.len());
    assert(p.skip(p.len() - s.len()) =~= s);
    assert(i.skip(2) =~= s);
    assert(u.skip(u.len() - s.len()) =~= s);
    assert(options =~= seq![
        "up"@,
        "-d"@,
        "--no-deps"@,
        "--pull"@,
        "never"@,
        "--force-recreate"@,
        "--wait"@,
        "--wait-timeout"@,
        "120"@,
    ]);
    assert(options[2] == "--no-deps"@);
    assert(options[5] == "--force-recreate"@);
    assert(options[6] == "--wait"@);
    assert(options[3] == "--pull"@);
    reveal_strlit("--remove-orphans");
    reveal_strlit("up");
    reveal_strlit("-d");
    reveal_strlit("--no-deps");
    reveal_strlit("--pull");
    reveal_strlit("never");
    reveal_strlit("--force-recreate");
    reveal_strlit("--wait");
    reveal_strlit("--wait-timeout");
    reveal_strlit("120");
    assert("--remove-orphans"@[2] == 'r' && "--force-recreate"@[2] == 'f');
    assert forall|k: int| 0 <= k < options.len() implies #[trigger] options[k]
        != "--remove-orphans"@ by {
        if k == 5 {
            assert(options[k][2] == 'f');
        } else {
            assert(options[k].len() < 16);
        }
    }
}

/// The live `.env` is always carried over. Everything else comes from the
/// release where the console changes, the binary by being placed, and is carried
/// over as it is where it does not.
pub proof fn law_staging_keeps_the_env(name: &str, console_changed: bool, live: bool, r: StageAction)
    requires
        call_ensures(stage_action, (name, console_changed, live), r),
    ensures
        r == StageAction::PlaceBinary <==> console_changed && name@ == "mintctl"@,
        name@ == ".env"@ && live ==> r == StageAction::CopyLive,
        !console_changed && live ==> r == StageAction::CopyLive,
        console_changed && name@ != ".env"@ ==> r != StageAction::CopyLive,
        !live ==> r != StageAction::CopyLive,
{
    reveal_strlit("mintctl");
    reveal_strlit(".env");
    assert("mintctl"@.len() != ".env"@.len());
}

/// A deployment is these five files, each once, and its settings are committed
/// last.
pub proof fn law_deployment_is_five_files(names: Vec<String>)
    requires
        call_ensures(files, (), names),
    ensures
        ({
            let s = text::texts(names@);
            &&& s.len() == 5
            &&& s.contains("docker-compose.yml"@)
            &&& s.contains("Caddyfile"@)
            &&& s.contains(".env.example"@)
            &&& s.contains("mintctl"@)
            &&& s.last() == ".env"@
            &&& s.no_duplicates()
        }),
{
    let s = text::texts(names@);
    assert(s[0] == "docker-compose.yml"@);
    assert(s[1] == "Caddyfile"@);
    assert(s[2] == ".env.example"@);
    assert(s[3] == "mintctl"@);
    reveal_strlit("docker-compose.yml");
    reveal_strlit("Caddyfile");
    reveal_strlit(".env.example");
    reveal_strlit("mintctl");
    reveal_strlit(".env");
    assert(s[0].len() == 18 && s[1].len() == 9 && s[2].len() == 12 && s[3].len() == 7 && s[4].len()
        == 4);
}

/// An installation is updated exactly where it is no managed mint of old, has a
/// bundled mint if one is to be updated, and has a release pinned: that one.
pub proof fn law_what_is_updated(args: UpdateArgs, env: EnvFile, r: Result<String, String>)
    requires
        call_ensures(installed_release, (&args, &env), r),
    ensures
        r is Ok <==> {
            &&& envfile::last_value(env@, "MINT_MODE"@) is None
            &&& args.with_mint || args.mint_version is Some ==> ops::profile_on(env@, "mint"@)
            &&& envfile::last_value(env@, "VERSION"@) matches Some(v) && v.len() > 0
        },
        r matches Ok(current) ==> envfile::last_value(env@, "VERSION"@) == Some(current@),
{
}

/// The release that was asked for is the target, the current one where only a
/// mint tag was, and the latest where neither was: that alone is looked up. A
/// target that is no valid tag is refused.
pub proof fn law_what_the_target_is(
    args: UpdateArgs,
    current: &str,
    latest: Option<&str>,
    looked_up: bool,
    r: Result<String, String>,
)
    requires
        call_ensures(needs_latest, (&args,), looked_up),
        call_ensures(select_target, (&args, current, latest), r),
    ensures
        looked_up <==> args.version is None && args.mint_version is None,
        args.version matches Some(v) ==> (r is Ok <==> release::valid_tag(v@)),
        args.version matches Some(v) ==> (r matches Ok(tag) ==> tag@ == v@),
        args.version is None && !looked_up ==> (r is Ok <==> release::valid_tag(current@)),
        args.version is None && !looked_up ==> (r matches Ok(tag) ==> tag@ == current@),
        looked_up && latest is None ==> r is Err,
        looked_up && latest is Some ==> (r is Ok <==> release::valid_tag(latest->0@)),
        looked_up && latest is Some ==> (r matches Ok(tag) ==> tag@ == latest->0@),
{
}

/// A plan says what changes: the console where its release does, and the mint
/// where its tag does. The tag is the one that was asked for, the release's
/// tested one with `--with-mint`, and otherwise the pinned one; it is a valid
/// tag, and a bundled mint without a pin is not updated.
pub proof fn law_what_a_plan_changes(
    args: UpdateArgs,
    env: EnvFile,
    current: &str,
    target: &str,
    example: &str,
    r: Result<UpdatePlan, String>,
)
    requires
        call_ensures(plan_update, (&args, &env, current, target, example), r),
    ensures
        ({
            let pinned = envfile::last_value(env@, "MINT_VERSION"@);
            let unpinned = !(pinned matches Some(tag) && tag.len() > 0);
            &&& ops::profile_on(env@, "mint"@) && unpinned ==> r is Err
            &&& r matches Ok(plan) ==> {
                &&& plan.current@ == current@ && plan.target@ == target@
                &&& plan.console_changed <==> target@ != current@
                &&& plan.with_mint == args.with_mint
                &&& unpinned ==> plan.current_mint is None
                &&& !unpinned ==> text::opt(plan.current_mint) == pinned
                &&& plan.mint_changed <==> text::opt(plan.target_mint) != text::opt(
                    plan.current_mint,
                )
                &&& plan.target_mint matches Some(tag) ==> release::valid_tag(tag@)
                &&& !args.with_mint && args.mint_version is Some ==> text::opt(plan.target_mint)
                    == Some(args.mint_version->0@)
                &&& !args.with_mint && args.mint_version is None ==> text::opt(plan.target_mint)
                    == text::opt(plan.current_mint)
                &&& args.with_mint ==> plan.target_mint is Some && tested_tag(example@) == Ok::<
                    Seq<char>,
                    Seq<char>,
                >(plan.target_mint->0@)
            }
        }),
{
}

/// The tag that a release was tested with is what its example file's first line
/// for `MINT_VERSION` says, commented out or not.
pub proof fn law_tested_tag_is_the_first_pin(
    example: &str,
    i: int,
    marks: Seq<char>,
    tag: Seq<char>,
    r: Result<String, String>,
)
    requires
        call_ensures(tested_mint_tag, (example,), r),
        0 <= i < text::lines_of(example@).len(),
        forall|k: int| 0 <= k < marks.len() ==> marks[k] == '#',
        text::lines_of(example@)[i] == marks + "MINT_VERSION="@ + tag,
        forall|j: int|
            0 <= j < i ==> text::found(#[trigger] text::lines_of(example@)[j], "MINT_VERSION="@)
                is None,
    ensures
        r is Ok <==> release::valid_tag(tag),
        r matches Ok(tested) ==> tested@ == tag,
{
    let lines = text::lines_of(example@);
    let line = lines[i];
    let p = |c: char| c == '#';
    reveal_strlit("MINT_VERSION=");
    assert(line[marks.len() as int] == 'M');
    assert forall|k: int| 0 <= k < marks.len() implies p(line[k]) by {
        assert(line[k] == marks[k]);
    }
    text::lemma_left_trimmed(line, p, marks.len() as int);
    let bare = line.skip(marks.len() as int);
    assert(bare =~= "MINT_VERSION="@ + tag);
    assert(bare.take("MINT_VERSION="@.len() as int) =~= "MINT_VERSION="@);
    assert(bare.skip("MINT_VERSION="@.len() as int) =~= tag);
    assert(pinned_on(line) == Some(tag));
    assert forall|j: int| 0 <= j < i implies pinned_on(#[trigger] lines[j]) is None by {
        lemma_unpinned(lines[j]);
    }
    lemma_first_pin(lines, i);
}

/// A line without the key pins nothing.
proof fn lemma_unpinned(line: Seq<char>)
    requires
        text::found(line, "MINT_VERSION="@) is None,
    ensures
        pinned_on(line) is None,
{
    let p = |c: char| c == '#';
    text::lemma_left_trimmed_suffix(line, p);
    let bare = text::left_trimmed(line, p);
    if text::begins(bare, "MINT_VERSION="@) {
        text::lemma_found_at(line, "MINT_VERSION="@, line.len() - bare.len());
    }
}

proof fn lemma_first_pin(lines: Seq<Seq<char>>, i: int)
    requires
        0 <= i < lines.len(),
        pinned_on(lines[i]) is Some,
        forall|j: int| 0 <= j < i ==> pinned_on(#[trigger] lines[j]) is None,
    ensures
        first_pin(lines) == pinned_on(lines[i]),
    decreases i,
{
    if i > 0 {
        assert(pinned_on(lines[0]) is None);
        assert forall|j: int| 0 <= j < i - 1 implies pinned_on(
            #[trigger] lines.drop_first()[j],
        ) is None by {
            assert(pinned_on(lines[j + 1]) is None);
        }
        lemma_first_pin(lines.drop_first(), i - 1);
    }
}

/// The staged `.env` is pinned to the target, and to the mint's tag where there
/// is one; without one the mint's pin stays as it is.
pub proof fn law_target_is_pinned(
    env: Seq<Seq<char>>,
    target: Seq<char>,
    target_mint: Option<Seq<char>>,
)
    ensures
        ({
            let next = updated(env, target, target_mint);
            &&& envfile::last_value(next, "VERSION"@) == Some(target)
            &&& target_mint matches Some(tag) ==> envfile::last_value(next, "MINT_VERSION"@)
                == Some(tag)
            &&& target_mint is None ==> envfile::last_value(next, "MINT_VERSION"@)
                == envfile::last_value(env, "MINT_VERSION"@)
        }),
{
    lemma_pin_keys();
    let pinned = envfile::with_entry(env, "VERSION"@, target);
    envfile::law_get_after_set(env, "VERSION"@, target);
    envfile::law_set_keeps_other_keys(env, "VERSION"@, target, "MINT_VERSION"@);
    if let Some(tag) = target_mint {
        envfile::law_get_after_set(pinned, "MINT_VERSION"@, tag);
        envfile::law_set_keeps_other_keys(pinned, "MINT_VERSION"@, tag, "VERSION"@);
    }
}

/// The new Caddyfile has the mint's site only for a bundled mint with a hostname
/// and TLS, then always; and it keeps the certificate account.
pub proof fn law_caddyfile_is_finished(next: EnvFile, bundled: bool, r: (String, bool))
    requires
        call_ensures(caddy_settings, (&next, bundled), r),
    ensures
        r.1 <==> {
            &&& bundled
            &&& ops::profile_on(next@, "tls"@)
            &&& envfile::last_value(next@, "MINT_DOMAIN"@) matches Some(domain) && domain.len() > 0
        },
        envfile::last_value(next@, "ACME_EMAIL"@) matches Some(email) ==> r.0@ == email,
        envfile::last_value(next@, "ACME_EMAIL"@) is None ==> r.0@.len() == 0,
{
    reveal_strlit("");
}

/// The instructions that are kept for a recovery are private, name the releases
/// before and after, and stand in the recovery directory.
pub proof fn law_recovery_names_both_releases(plan: UpdatePlan, recovery: &str, r: FileWrite)
    requires
        call_ensures(recovery_file, (&plan, recovery), r),
    ensures
        r.mode == 0o600,
        r.path@ == paths::below(recovery@, "RECOVERY.txt"@),
        text::begins(r.contents@, "Before update: console "@ + plan.current@ + ", mint "@),
        text::found(r.contents@, ".\nTarget: console "@ + plan.target@ + ", mint "@) is Some,
        plan.current_mint matches Some(tag) ==> text::begins(
            r.contents@,
            "Before update: console "@ + plan.current@ + ", mint "@ + tag@ + "."@,
        ),
{
    let from = text::or_text(plan.current_mint, "external"@);
    let to = text::or_text(plan.target_mint, "external"@);
    let first = "Before update: console "@ + plan.current@ + ", mint "@;
    let second = ".\nTarget: console "@ + plan.target@ + ", mint "@;
    let n = first.len() as int;
    let a = first + from;
    let rest = r.contents@.skip((a.len() + second.len()) as int);
    reveal_strlit(".\nTarget: console ");
    reveal_strlit(".");
    assert(r.contents@.take(n) =~= first);
    assert(r.contents@ =~= a + second + rest);
    text::lemma_found_between(a, second, rest);
    if plan.current_mint is Some {
        assert(r.contents@.take(n + from.len() + 1) =~= first + from + "."@);
    }
}

/// The preview says a part is unchanged exactly where it is, and speaks of the
/// mint exactly where there is a tag for one.
pub proof fn law_preview_tells_what_changes(plan: UpdatePlan, r: Vec<String>)
    requires
        call_ensures(preview, (&plan,), r),
    ensures
        ({
            let s = text::texts(r@);
            let console = "Console: "@ + plan.current@ + " → "@ + plan.target@;
            &&& plan.console_changed ==> s[0] == console
            &&& !plan.console_changed ==> s[0] == console + " (unchanged)"@
            &&& plan.target_mint is None ==> s.len() == 1
            &&& plan.target_mint is Some ==> s.len() == 2
            &&& plan.target_mint is Some && plan.current_mint is Some && plan.mint_changed ==> s[1]
                == "Mint:    "@ + plan.current_mint->0@ + " → "@ + plan.target_mint->0@
            &&& plan.target_mint is Some && plan.current_mint is Some && !plan.mint_changed
                ==> s[1] == "Mint:    "@ + plan.current_mint->0@ + " → "@ + plan.target_mint->0@
                + " (unchanged)"@
        }),
{
    reveal_strlit("");
    let s = text::texts(r@);
    let console = "Console: "@ + plan.current@ + " → "@ + plan.target@;
    assert(console + ""@ =~= console);
    if plan.target_mint is Some && plan.current_mint is Some {
        let mint = "Mint:    "@ + plan.current_mint->0@ + " → "@ + plan.target_mint->0@;
        assert(mint + ""@ =~= mint);
    }
}

/// The target images are the lines that compose prints, each of them; what is no
/// text names none.
pub proof fn law_target_images_are_listed(stdout: &[u8], r: Option<Vec<String>>)
    requires
        call_ensures(named_images, (stdout,), r),
    ensures
        r is Some <==> vstd::utf8::valid_utf8(stdout@),
        r matches Some(images) ==> images@.len() == text::lines_of(
            vstd::utf8::decode_utf8(stdout@),
        ).len() && forall|i: int|
            0 <= i < images@.len() ==> #[trigger] images@[i]@ == text::lines_of(
                vstd::utf8::decode_utf8(stdout@),
            )[i],
{
    if let Some(images) = r {
        assert(text::texts(images@).len() == images@.len());
        assert forall|i: int| 0 <= i < images@.len() implies #[trigger] images@[i]@
            == text::lines_of(vstd::utf8::decode_utf8(stdout@))[i] by {
            assert(text::texts(images@)[i] == images@[i]@);
        }
    }
}

/// A failure on the staged files says that nothing live has changed, one of the
/// services that the pins are kept, and both name where they failed.
pub proof fn law_update_tells(
    args: Vec<String>,
    success: bool,
    staged: Result<(), String>,
    config: Vec<String>,
    image: &str,
    unavailable: String,
    recovery: &str,
    kept: String,
    unhealthy: String,
)
    requires
        call_ensures(staged_compose, (&args, success), staged),
        call_ensures(config_args, (), config),
        call_ensures(image_unavailable, (image,), unavailable),
        call_ensures(kept_in, (recovery,), kept),
        call_ensures(not_healthy, (recovery,), unhealthy),
    ensures
        staged is Ok <==> success,
        staged matches Err(message) ==> message@ == "docker compose "@ + text::joined(
            text::texts(args@),
            " "@,
        ) + " failed; live deployment is unchanged"@,
        text::texts(config@) == seq!["config"@, "--quiet"@],
        text::found(unavailable@, image@) is Some,
        kept@ == "Backup and previous deployment: "@ + recovery@,
        text::found(unhealthy@, recovery@) is Some,
{
    text::lemma_found_between(
        "--no-pull: target image "@,
        image@,
        " is not available locally"@,
    );
    text::lemma_found_between(
        "update did not become healthy. Target pins are retained so you can retry 'mintctl start'. Check 'mintctl logs'; backup and recovery instructions: "@,
        recovery@,
        ". No database downgrade was attempted"@,
    );
}

/// An update is planned exactly where a bundled mint has a tag pinned and the
/// tag that it comes to is a valid one: the tested one, where the mint is to
/// follow the release, and else the one that was asked for or is pinned. No tag
/// at all is in order without a bundled mint.
pub proof fn law_when_an_update_is_planned(
    args: UpdateArgs,
    env: EnvFile,
    current: &str,
    target: &str,
    example: &str,
    tested: Result<String, String>,
    r: Result<UpdatePlan, String>,
)
    requires
        call_ensures(tested_mint_tag, (example,), tested),
        call_ensures(plan_update, (&args, &env, current, target, example), r),
    ensures
        ({
            let pin = envfile::last_value(env@, "MINT_VERSION"@);
            let pinned = pin is Some && pin->0.len() > 0;
            let bundled = ops::profile_on(env@, "mint"@);
            &&& bundled && !pinned ==> r is Err && r->Err_0@
                == "bundled installation has no MINT_VERSION pin; set its currently running image tag in .env before updating"@
            &&& (bundled ==> pinned) && args.with_mint ==> (r is Ok <==> tested is Ok)
            &&& (bundled ==> pinned) && args.with_mint ==> (r matches Ok(plan) ==> text::opt(
                plan.target_mint,
            ) == Some(tested->Ok_0@))
            &&& (bundled ==> pinned) && !args.with_mint ==> (args.mint_version matches Some(tag)
                ==> (r is Ok <==> release::valid_tag(tag@)))
            &&& (bundled ==> pinned) && !args.with_mint && args.mint_version is None && pinned ==> (r
                is Ok <==> release::valid_tag(pin->0))
            &&& !bundled && !args.with_mint && args.mint_version is None && !pinned ==> r is Ok
                && r->Ok_0.target_mint is None
        }),
{
}

/// An installation that is not updated is told why: an old managed mint, no
/// bundled mint to update, or no release that it is pinned to.
pub proof fn law_why_nothing_is_updated(args: UpdateArgs, env: EnvFile, message: String)
    requires
        call_ensures(installed_release, (&args, &env), Err::<String, String>(message)),
    ensures
        ({
            let old = envfile::last_value(env@, "MINT_MODE"@) is Some;
            let asked = args.with_mint || args.mint_version is Some;
            &&& old ==> message@
                == "this pre-0.2 installation contains a managed mint. Follow 'Migrating from the bundled mint' in docs/operations.md before updating; its container and data have been left in place"@
            &&& !old && asked && !ops::profile_on(env@, "mint"@) ==> message@
                == "mint updates require an installation with a bundled mint; update an external mint with its own tooling"@
            &&& !old && !asked ==> message@ == "installation has no VERSION pin"@
        }),
{
}

} // verus!
