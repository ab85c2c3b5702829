//! Carrying a plan out, step by step.
//!
//! Both front ends go through the same steps. Downloads finish before
//! credentials are committed. After the configuration is written, failures can
//! be resumed with `mintctl start` without changing seeds.

use crate::install;
use crate::install::{AccessMode, InstallPlan};
use crate::text;
use vstd::prelude::*;

verus! {

/// What is asked or done next. Each step is answered with yes or no: whether
/// it is so, or whether it worked.
#[derive(Debug, Clone, Copy, PartialEq, Eq, Structural)]
pub enum Step {
    /// Is the image that `--no-pull` promises in the local daemon?
    FindImage,
    /// Is there no `.env` in the directory? Asked again `under_lock`, after any
    /// concurrent installer has ended.
    NoEnv { under_lock: bool },
    /// Is there no mint material in the directory?
    NoMint { under_lock: bool },
    MakeDir { under_lock: bool },
    /// Can a file be made in the directory?
    ProbeDir { under_lock: bool },
    /// Take the installation's operation lock.
    TakeLock,
    /// Look at the DNS records and warn, whatever they are.
    WarnDns,
    /// Is the release tag valid, and has every service a port of its own?
    CheckPlan,
    /// Look at the ports that rootless Docker would publish.
    CheckRootless,
    /// Is the bundled mint's image tag valid?
    CheckMintTag,
    /// Make a staging directory.
    MakeStaging,
    FetchCompose,
    /// Does it look like a compose file?
    CheckCompose,
    FetchCaddyfile,
    FetchExample,
    PlaceBinary,
    /// Write the configuration into the staging directory.
    WriteConfig,
    /// Put the final directory's project name into the staged `.env`.
    NameProject,
    /// Does compose accept the staged configuration?
    CheckConfig,
    /// Move the staged file with this place in the commit order, where it is
    /// there, into the installation.
    MoveFile { place: u8 },
    /// Link the management command, whether that works or not.
    LinkCli,
    PullImages,
    /// Does the mint accept its configuration?
    ValidateMint,
    StartStack,
    /// Wait for the console's certificate, whether it comes in time or not.
    AwaitConsole,
    /// Wait for the mint's certificate.
    AwaitMint,
    Done,
    Failed(Remains),
}

/// What a failed installation leaves behind.
#[derive(Debug, Clone, Copy, PartialEq, Eq, Structural)]
pub enum Remains {
    /// Nothing but the directory and its lock.
    Nothing,
    /// Some deployment files, and no credentials.
    Files,
    /// The whole configuration: `mintctl start` resumes.
    Configuration,
}

#[derive(Debug, Clone, Copy, PartialEq, Eq, Structural)]
pub struct Execution {
    pub step: Step,
    pub no_pull: bool,
    pub with_mint: bool,
    /// Whether the bundled Caddy obtains certificates.
    pub tls: bool,
    /// Whether the wizard runs it.
    pub guided: bool,
}

pub open spec fn execution_start(plan: InstallPlan, guided: bool) -> Execution {
    Execution {
        step: if plan.no_pull {
            Step::FindImage
        } else {
            Step::NoEnv { under_lock: false }
        },
        no_pull: plan.no_pull,
        with_mint: plan.mint is Some,
        tls: plan.access == AccessMode::DomainTls,
        guided,
    }
}

pub fn execute(plan: &InstallPlan, guided: bool) -> (r: Execution)
    ensures
        r == execution_start(*plan, guided),
{
    Execution {
        step: if plan.no_pull {
            Step::FindImage
        } else {
            Step::NoEnv { under_lock: false }
        },
        no_pull: plan.no_pull,
        with_mint: plan.mint.is_some(),
        tls: plan.access == AccessMode::DomainTls,
        guided,
    }
}

/// How many files are moved.
pub const MOVED_FILES: u8 = 7;

/// The step after one that went well.
pub open spec fn following(e: Execution) -> Step {
    match e.step {
        Step::FindImage => Step::NoEnv { under_lock: false },
        Step::NoEnv { under_lock } => Step::NoMint { under_lock },
        Step::NoMint { under_lock } => Step::MakeDir { under_lock },
        Step::MakeDir { under_lock } => Step::ProbeDir { under_lock },
        Step::ProbeDir { under_lock } => if under_lock {
            Step::CheckPlan
        } else {
            Step::TakeLock
        },
        Step::TakeLock => if e.guided {
            Step::NoEnv { under_lock: true }
        } else {
            Step::WarnDns
        },
        Step::WarnDns => Step::NoEnv { under_lock: true },
        Step::CheckPlan => Step::CheckRootless,
        Step::CheckRootless => if e.with_mint {
            Step::CheckMintTag
        } else {
            Step::MakeStaging
        },
        Step::CheckMintTag => Step::MakeStaging,
        Step::MakeStaging => Step::FetchCompose,
        Step::FetchCompose => Step::CheckCompose,
        Step::CheckCompose => Step::FetchCaddyfile,
        Step::FetchCaddyfile => Step::FetchExample,
        Step::FetchExample => Step::PlaceBinary,
        Step::PlaceBinary => Step::WriteConfig,
        Step::WriteConfig => Step::NameProject,
        Step::NameProject => Step::CheckConfig,
        Step::CheckConfig => Step::MoveFile { place: 0 },
        Step::MoveFile { place } => if place < MOVED_FILES - 1 {
            Step::MoveFile { place: (place + 1) as u8 }
        } else {
            Step::LinkCli
        },
        Step::LinkCli => if !e.no_pull {
            Step::PullImages
        } else if e.with_mint {
            Step::ValidateMint
        } else {
            Step::StartStack
        },
        Step::PullImages => if e.with_mint {
            Step::ValidateMint
        } else {
            Step::StartStack
        },
        Step::ValidateMint => Step::StartStack,
        Step::StartStack => if e.guided && e.tls {
            Step::AwaitConsole
        } else {
            Step::Done
        },
        Step::AwaitConsole => if e.with_mint {
            Step::AwaitMint
        } else {
            Step::Done
        },
        Step::AwaitMint => Step::Done,
        Step::Done => Step::Done,
        Step::Failed(remains) => Step::Failed(remains),
    }
}

/// Whether the execution goes on even where the step did not work.
pub open spec fn tolerant(step: Step) -> bool {
    step is WarnDns || step is LinkCli || step is AwaitConsole || step is AwaitMint
}

/// What is left behind where a step fails.
pub open spec fn remains(step: Step) -> Remains {
    match step {
        Step::MoveFile { .. } => Remains::Files,
        Step::PullImages | Step::ValidateMint | Step::StartStack => Remains::Configuration,
        Step::Failed(remains) => remains,
        _ => Remains::Nothing,
    }
}

pub open spec fn execution_next(e: Execution, yes: bool) -> Execution {
    Execution {
        step: if yes || tolerant(e.step) || e.step is Done {
            following(e)
        } else {
            Step::Failed(remains(e.step))
        },
        ..e
    }
}

impl Execution {
    fn following(self) -> (r: Step)
        ensures
            r == following(self),
    {
        match self.step {
            Step::FindImage => Step::NoEnv { under_lock: false },
            Step::NoEnv { under_lock } => Step::NoMint { under_lock },
            Step::NoMint { under_lock } => Step::MakeDir { under_lock },
            Step::MakeDir { under_lock } => Step::ProbeDir { under_lock },
            Step::ProbeDir { under_lock } => if under_lock {
                Step::CheckPlan
            } else {
                Step::TakeLock
            },
            Step::TakeLock => if self.guided {
                Step::NoEnv { under_lock: true }
            } else {
                Step::WarnDns
            },
            Step::WarnDns => Step::NoEnv { under_lock: true },
            Step::CheckPlan => Step::CheckRootless,
            Step::CheckRootless => if self.with_mint {
                Step::CheckMintTag
            } else {
                Step::MakeStaging
            },
            Step::CheckMintTag => Step::MakeStaging,
            Step::MakeStaging => Step::FetchCompose,
            Step::FetchCompose => Step::CheckCompose,
            Step::CheckCompose => Step::FetchCaddyfile,
            Step::FetchCaddyfile => Step::FetchExample,
            Step::FetchExample => Step::PlaceBinary,
            Step::PlaceBinary => Step::WriteConfig,
            Step::WriteConfig => Step::NameProject,
            Step::NameProject => Step::CheckConfig,
            Step::CheckConfig => Step::MoveFile { place: 0 },
            Step::MoveFile { place } => if place < MOVED_FILES - 1 {
                Step::MoveFile { place: place + 1 }
            } else {
                Step::LinkCli
            },
            Step::LinkCli => if !self.no_pull {
                Step::PullImages
            } else if self.with_mint {
                Step::ValidateMint
            } else {
                Step::StartStack
            },
            Step::PullImages => if self.with_mint {
                Step::ValidateMint
            } else {
                Step::StartStack
            },
            Step::ValidateMint => Step::StartStack,
            Step::StartStack => if self.guided && self.tls {
                Step::AwaitConsole
            } else {
                Step::Done
            },
            Step::AwaitConsole => if self.with_mint {
                Step::AwaitMint
            } else {
                Step::Done
            },
            Step::AwaitMint => Step::Done,
            Step::Done => Step::Done,
            Step::Failed(remains) => Step::Failed(remains),
        }
    }

    /// The step that the answer leads to.
    pub fn next(self, yes: bool) -> (r: Self)
        ensures
            r == execution_next(self, yes),
    {
        let goes_on: bool = match self.step {
            Step::WarnDns | Step::LinkCli | Step::AwaitConsole | Step::AwaitMint | Step::Done => true,
            _ => yes,
        };
        let step = if goes_on {
            self.following()
        } else {
            match self.step {
                Step::MoveFile { .. } => Step::Failed(Remains::Files),
                Step::PullImages | Step::ValidateMint | Step::StartStack => Step::Failed(
                    Remains::Configuration,
                ),
                Step::Failed(remains) => Step::Failed(remains),
                _ => Step::Failed(Remains::Nothing),
            }
        };
        Execution { step, ..self }
    }
}

// ---------------------------------------------------------------------------
// what the wizard says meanwhile
// ---------------------------------------------------------------------------
/// What is said when a step begins.
pub open spec fn opening_of(plan: InstallPlan, step: Step) -> Option<Seq<char>> {
    match step {
        Step::NoEnv { under_lock: true } => Some(
            "Fetching the "@ + plan.version@ + " deployment artifacts ..."@,
        ),
        Step::PullImages => Some(
            "Pulling the container "@
                + if plan.mint is Some { "images"@ } else { "image"@ }
                + " ("@
                + plan.version@
                + ") ..."@,
        ),
        Step::ValidateMint => Some("Validating the mint configuration ..."@),
        Step::StartStack => Some("Starting the stack ..."@),
        Step::AwaitConsole => Some(
            "Waiting for Let's Encrypt certificates for "@
                + plan.console_domain@
                + " (up to 3 minutes) ..."@,
        ),
        Step::AwaitMint => match plan.mint {
            Some(m) => Some("Waiting for certificates for "@ + m.mint_domain@ + " ..."@),
            None => None,
        },
        _ => None,
    }
}

pub fn opening(plan: &InstallPlan, step: Step) -> (r: Option<String>)
    ensures
        text::opt(r) == opening_of(*plan, step),
{
    match step {
        Step::NoEnv { under_lock: true } => Some(
            "Fetching the ".to_owned()
                .concat(plan.version.as_str())
                .concat(" deployment artifacts ..."),
        ),
        Step::PullImages => {
            let images = if plan.mint.is_some() {
                "images"
            } else {
                "image"
            };
            Some("Pulling the container ".to_owned()
                .concat(images)
                .concat(" (")
                .concat(plan.version.as_str())
                .concat(") ..."))
        },
        Step::ValidateMint => Some("Validating the mint configuration ...".to_owned()),
        Step::StartStack => Some("Starting the stack ...".to_owned()),
        Step::AwaitConsole => Some(
            "Waiting for Let's Encrypt certificates for ".to_owned()
                .concat(plan.console_domain.as_str())
                .concat(" (up to 3 minutes) ..."),
        ),
        Step::AwaitMint => match &plan.mint {
            Some(m) => Some("Waiting for certificates for ".to_owned()
                .concat(m.mint_domain.as_str())
                .concat(" ...")),
            None => None,
        },
        _ => None,
    }
}

/// What is said when a step has ended.
pub open spec fn closing_of(plan: InstallPlan, step: Step, yes: bool) -> Option<Seq<char>> {
    match (step, yes) {
        (Step::LinkCli, _) => Some("Deployment artifacts in "@ + plan.install_dir@),
        (Step::PullImages, true) => Some(
            if plan.mint is Some {
                "Images pulled."@
            } else {
                "Image pulled."@
            },
        ),
        (Step::PullImages, false) => Some("Image pull failed"@),
        (Step::ValidateMint, true) => Some("Mint configuration is valid."@),
        (Step::ValidateMint, false) => Some("The mint configuration did not validate"@),
        (Step::StartStack, true) => Some("Stack started."@),
        (Step::StartStack, false) => Some("The stack did not start"@),
        (Step::AwaitConsole, true) => Some("HTTPS is live at "@ + plan.url()),
        (Step::AwaitConsole, false) => Some(CERTIFICATES_PENDING@),
        (Step::AwaitMint, true) => match plan.mint {
            Some(m) => Some("HTTPS is live at "@ + m.mint_url@),
            None => None,
        },
        (Step::AwaitMint, false) => Some(
            "Mint certificates are still pending — Caddy keeps retrying."@,
        ),
        _ => None,
    }
}

pub const CERTIFICATES_PENDING: &'static str = "Certificates are still pending — Caddy keeps retrying in the background.";

pub fn closing(plan: &InstallPlan, step: Step, yes: bool) -> (r: Option<String>)
    ensures
        text::opt(r) == closing_of(*plan, step, yes),
{
    match (step, yes) {
        (Step::LinkCli, _) => Some(
            "Deployment artifacts in ".to_owned().concat(plan.install_dir.as_str()),
        ),
        (Step::PullImages, true) => if plan.mint.is_some() {
            Some("Images pulled.".to_owned())
        } else {
            Some("Image pulled.".to_owned())
        },
        (Step::PullImages, false) => Some("Image pull failed".to_owned()),
        (Step::ValidateMint, true) => Some("Mint configuration is valid.".to_owned()),
        (Step::ValidateMint, false) => Some("The mint configuration did not validate".to_owned()),
        (Step::StartStack, true) => Some("Stack started.".to_owned()),
        (Step::StartStack, false) => Some("The stack did not start".to_owned()),
        (Step::AwaitConsole, true) => Some(
            "HTTPS is live at ".to_owned().concat(plan.console_url().as_str()),
        ),
        (Step::AwaitConsole, false) => Some(CERTIFICATES_PENDING.to_owned()),
        (Step::AwaitMint, true) => match &plan.mint {
            Some(m) => Some("HTTPS is live at ".to_owned().concat(m.mint_url.as_str())),
            None => None,
        },
        (Step::AwaitMint, false) => Some(
            "Mint certificates are still pending — Caddy keeps retrying.".to_owned(),
        ),
        _ => None,
    }
}

/// The hint that comes with a console certificate that is still pending.
pub fn pending_hint(plan: &InstallPlan) -> (r: String)
    ensures
        r@ == "Once DNS is right, https://"@
            + plan.console_domain@
            + " will come up by itself.\nWatch progress with: "@
            + plan.install_dir@
            + "/mintctl logs caddy"@,
{
    "Once DNS is right, https://".to_owned()
        .concat(plan.console_domain.as_str())
        .concat(" will come up by itself.\nWatch progress with: ")
        .concat(plan.install_dir.as_str())
        .concat("/mintctl logs caddy")
}

/// How long a certificate is waited for.
pub const CERTIFICATE_BUDGET_SECS: u64 = 180;

// ---------------------------------------------------------------------------
// laws
// ---------------------------------------------------------------------------
/// Where the execution stands after these answers.
pub open spec fn execution_after(plan: InstallPlan, guided: bool, answers: Seq<bool>) -> Execution
    decreases answers.len(),
{
    if answers.len() == 0 {
        execution_start(plan, guided)
    } else {
        execution_next(execution_after(plan, guided, answers.drop_last()), answers.last())
    }
}

/// That the execution came by this step, and the answer was yes.
pub open spec fn passed(plan: InstallPlan, guided: bool, answers: Seq<bool>, step: Step) -> bool {
    exists|i: int|
        0 <= i < answers.len() && #[trigger] execution_after(plan, guided, answers.take(i)).step
            == step && answers[i]
}

/// The place of a step in the order of steps.
pub open spec fn rank(step: Step) -> int {
    match step {
        Step::FindImage => 0,
        Step::NoEnv { under_lock: false } => 1,
        Step::NoMint { under_lock: false } => 2,
        Step::MakeDir { under_lock: false } => 3,
        Step::ProbeDir { under_lock: false } => 4,
        Step::TakeLock => 5,
        Step::WarnDns => 6,
        Step::NoEnv { under_lock: true } => 7,
        Step::NoMint { under_lock: true } => 8,
        Step::MakeDir { under_lock: true } => 9,
        Step::ProbeDir { under_lock: true } => 10,
        Step::CheckPlan => 11,
        Step::CheckRootless => 12,
        Step::CheckMintTag => 13,
        Step::MakeStaging => 14,
        Step::FetchCompose => 15,
        Step::CheckCompose => 16,
        Step::FetchCaddyfile => 17,
        Step::FetchExample => 18,
        Step::PlaceBinary => 19,
        Step::WriteConfig => 20,
        Step::NameProject => 21,
        Step::CheckConfig => 22,
        Step::MoveFile { place } => 23 + place,
        Step::LinkCli => 30,
        Step::PullImages => 31,
        Step::ValidateMint => 32,
        Step::StartStack => 33,
        Step::AwaitConsole => 34,
        Step::AwaitMint => 35,
        Step::Done => 36,
        Step::Failed(_) => 37,
    }
}

/// A step that no plan leaves out and no failure skips.
pub open spec fn mandatory(step: Step) -> bool {
    match step {
        Step::FindImage | Step::WarnDns | Step::CheckMintTag | Step::LinkCli | Step::PullImages
        | Step::ValidateMint | Step::AwaitConsole | Step::AwaitMint | Step::Done
        | Step::Failed(_) => false,
        Step::MoveFile { place } => place < MOVED_FILES,
        _ => true,
    }
}

proof fn lemma_passed_before(plan: InstallPlan, guided: bool, answers: Seq<bool>, step: Step)
    requires
        answers.len() > 0,
        passed(plan, guided, answers.drop_last(), step),
    ensures
        passed(plan, guided, answers, step),
{
    let before = answers.drop_last();
    let i = choose|i: int|
        0 <= i < before.len() && #[trigger] execution_after(plan, guided, before.take(i)).step
            == step && before[i];
    assert(answers.take(i) =~= before.take(i));
}

proof fn lemma_facts_stay(plan: InstallPlan, guided: bool, answers: Seq<bool>)
    ensures
        execution_after(plan, guided, answers) == (Execution {
            step: execution_after(plan, guided, answers).step,
            ..execution_start(plan, guided)
        }),
        execution_after(plan, guided, answers).step matches Step::MoveFile { place } ==> place
            < MOVED_FILES,
    decreases answers.len(),
{
    if answers.len() > 0 {
        lemma_facts_stay(plan, guided, answers.drop_last());
    }
}

/// No mandatory step is jumped over: whatever comes later was reached through
/// it, with yes.
pub proof fn law_no_step_is_skipped(
    plan: InstallPlan,
    guided: bool,
    answers: Seq<bool>,
    step: Step,
)
    requires
        mandatory(step),
        !(execution_after(plan, guided, answers).step is Failed),
        rank(execution_after(plan, guided, answers).step) > rank(step),
    ensures
        passed(plan, guided, answers, step),
    decreases answers.len(),
{
    lemma_facts_stay(plan, guided, answers);
    if answers.len() > 0 {
        let before = answers.drop_last();
        lemma_facts_stay(plan, guided, before);
        let e = execution_after(plan, guided, before);
        if rank(e.step) > rank(step) {
            law_no_step_is_skipped(plan, guided, before, step);
            lemma_passed_before(plan, guided, answers, step);
        } else {
            assert(e.step == step);
            assert(answers.take(before.len() as int) =~= before);
        }
    }
}

/// Nothing is fetched, staged or written before the directory was found free
/// of credentials and of mint material, twice, the second time under the lock,
/// and before the tag and the ports were accepted.
pub proof fn law_checks_come_first(plan: InstallPlan, guided: bool, answers: Seq<bool>)
    requires
        !(execution_after(plan, guided, answers).step is Failed),
        rank(execution_after(plan, guided, answers).step) >= rank(Step::MakeStaging),
    ensures
        passed(plan, guided, answers, Step::NoEnv { under_lock: false }),
        passed(plan, guided, answers, Step::NoMint { under_lock: false }),
        passed(plan, guided, answers, Step::TakeLock),
        passed(plan, guided, answers, Step::NoEnv { under_lock: true }),
        passed(plan, guided, answers, Step::NoMint { under_lock: true }),
        passed(plan, guided, answers, Step::CheckPlan),
{
    law_no_step_is_skipped(plan, guided, answers, Step::NoEnv { under_lock: false });
    law_no_step_is_skipped(plan, guided, answers, Step::NoMint { under_lock: false });
    law_no_step_is_skipped(plan, guided, answers, Step::TakeLock);
    law_no_step_is_skipped(plan, guided, answers, Step::NoEnv { under_lock: true });
    law_no_step_is_skipped(plan, guided, answers, Step::NoMint { under_lock: true });
    law_no_step_is_skipped(plan, guided, answers, Step::CheckPlan);
}

/// The credentials are committed last: when the `.env` is moved, everything was
/// fetched, the configuration was accepted, and every other file is in place.
pub proof fn law_credentials_are_committed_last(
    plan: InstallPlan,
    guided: bool,
    answers: Seq<bool>,
    place: u8,
)
    requires
        execution_after(plan, guided, answers).step == (Step::MoveFile {
            place: (MOVED_FILES - 1) as u8,
        }),
        place < MOVED_FILES - 1,
    ensures
        install::commit_order()[MOVED_FILES - 1] == install::ENV_FILE@,
        passed(plan, guided, answers, Step::CheckCompose),
        passed(plan, guided, answers, Step::PlaceBinary),
        passed(plan, guided, answers, Step::WriteConfig),
        passed(plan, guided, answers, Step::CheckConfig),
        passed(plan, guided, answers, Step::MoveFile { place }),
{
    law_no_step_is_skipped(plan, guided, answers, Step::CheckCompose);
    law_no_step_is_skipped(plan, guided, answers, Step::PlaceBinary);
    law_no_step_is_skipped(plan, guided, answers, Step::WriteConfig);
    law_no_step_is_skipped(plan, guided, answers, Step::CheckConfig);
    law_no_step_is_skipped(plan, guided, answers, Step::MoveFile { place });
}

/// A failure tells the truth of what it leaves: the credentials are in place
/// exactly where it says that the configuration is, and files were moved only
/// where it says so.
pub proof fn law_failure_tells_what_remains(plan: InstallPlan, guided: bool, answers: Seq<bool>)
    requires
        execution_after(plan, guided, answers).step is Failed,
    ensures
        execution_after(plan, guided, answers).step == Step::Failed(Remains::Configuration)
            <==> passed(plan, guided, answers, Step::MoveFile { place: (MOVED_FILES - 1) as u8 }),
        execution_after(plan, guided, answers).step == Step::Failed(Remains::Nothing) ==> !passed(
            plan,
            guided,
            answers,
            Step::MoveFile { place: 0 },
        ),
    decreases answers.len(),
{
    let last = Step::MoveFile { place: (MOVED_FILES - 1) as u8 };
    let first = Step::MoveFile { place: 0 };
    let before = answers.drop_last();
    let e = execution_after(plan, guided, before);
    lemma_facts_stay(plan, guided, before);
    if e.step is Failed {
        law_failure_tells_what_remains(plan, guided, before);
        lemma_passed_still(plan, guided, answers, last);
        lemma_passed_still(plan, guided, answers, first);
    } else {
        lemma_passed_still(plan, guided, answers, last);
        lemma_passed_still(plan, guided, answers, first);
        if rank(e.step) > rank(last) {
            law_no_step_is_skipped(plan, guided, before, last);
        } else {
            lemma_not_passed_yet(plan, guided, before, last);
        }
        if rank(e.step) > rank(first) {
            law_no_step_is_skipped(plan, guided, before, first);
        } else {
            lemma_not_passed_yet(plan, guided, before, first);
        }
    }
}

/// A step that the execution has not gone beyond was not passed.
proof fn lemma_not_passed_yet(plan: InstallPlan, guided: bool, answers: Seq<bool>, step: Step)
    requires
        !(execution_after(plan, guided, answers).step is Failed),
        mandatory(step),
        rank(execution_after(plan, guided, answers).step) <= rank(step),
    ensures
        !passed(plan, guided, answers, step),
    decreases answers.len(),
{
    if answers.len() > 0 {
        let before = answers.drop_last();
        lemma_facts_stay(plan, guided, before);
        let e = execution_after(plan, guided, before);
        assert(rank(e.step) < rank(execution_after(plan, guided, answers).step));
        lemma_not_passed_yet(plan, guided, before, step);
        lemma_passed_still(plan, guided, answers, step);
    }
}

/// What one more answer adds to what was passed.
proof fn lemma_passed_still(plan: InstallPlan, guided: bool, answers: Seq<bool>, step: Step)
    requires
        answers.len() > 0,
    ensures
        passed(plan, guided, answers, step) <==> passed(plan, guided, answers.drop_last(), step) || (
        execution_after(plan, guided, answers.drop_last()).step == step && answers.last()),
{
    let before = answers.drop_last();
    assert(answers.take(before.len() as int) =~= before);
    if passed(plan, guided, before, step) {
        lemma_passed_before(plan, guided, answers, step);
    }
    if passed(plan, guided, answers, step) {
        let i = choose|i: int|
            0 <= i < answers.len() && #[trigger] execution_after(
                plan,
                guided,
                answers.take(i),
            ).step == step && answers[i];
        if i < before.len() {
            assert(before.take(i) =~= answers.take(i));
        }
    }
}

/// A bundled mint is started only after it accepted its configuration, and
/// images are pulled first unless the flags say otherwise.
pub proof fn law_mint_is_validated_before_it_starts(
    plan: InstallPlan,
    guided: bool,
    answers: Seq<bool>,
)
    requires
        execution_after(plan, guided, answers).step == Step::StartStack,
    ensures
        plan.mint is Some ==> passed(plan, guided, answers, Step::ValidateMint),
        plan.mint is None && !plan.no_pull ==> passed(plan, guided, answers, Step::PullImages),
{
    let before = answers.drop_last();
    lemma_facts_stay(plan, guided, before);
    lemma_passed_still(plan, guided, answers, Step::ValidateMint);
    lemma_passed_still(plan, guided, answers, Step::PullImages);
}

/// With `--no-pull` the local image was found before anything else, so that a
/// missing one does not leave a half-finished install behind.
pub proof fn law_local_image_is_found_first(plan: InstallPlan, guided: bool, answers: Seq<bool>)
    requires
        plan.no_pull,
        answers.len() > 0,
    ensures
        answers[0] || execution_after(plan, guided, answers).step == Step::Failed(Remains::Nothing),
    decreases answers.len(),
{
    if answers.len() > 1 {
        law_local_image_is_found_first(plan, guided, answers.drop_last());
    } else {
        reveal_with_fuel(execution_after, 2);
    }
}

/// Whether an execution leaves the step with this place in the order out: the
/// look at DNS where the wizard has taken it, what is for a bundled mint alone
/// where there is none, the pull where the flags say so, and the certificates
/// where nobody waits for any.
pub open spec fn left_out(e: Execution, place: int) -> bool {
    ||| place == 6 && e.guided
    ||| (place == 13 || place == 32) && !e.with_mint
    ||| place == 31 && e.no_pull
    ||| place == 34 && !(e.guided && e.tls)
    ||| place == 35 && !(e.guided && e.tls && e.with_mint)
}

/// An installation begins with the local image where nothing is pulled, and with
/// the directory otherwise, and goes by the plan.
pub proof fn law_where_an_execution_begins(plan: InstallPlan, guided: bool, e: Execution)
    requires
        call_ensures(execute, (&plan, guided), e),
    ensures
        plan.no_pull ==> e.step == Step::FindImage,
        !plan.no_pull ==> e.step == (Step::NoEnv { under_lock: false }),
        e.no_pull == plan.no_pull,
        e.guided == guided,
        e.with_mint <==> plan.mint is Some,
        e.tls <==> plan.access == AccessMode::DomainTls,
{
}

/// Each step leads to the very next one that is not left out, until the
/// installation is done. A step that fails ends it, with nothing left behind
/// before the files are moved, with files while they are, and with the whole
/// configuration behind that. Neither the DNS records, nor the link, nor a
/// certificate that does not come stops it.
pub proof fn law_execution_goes_step_by_step(e: Execution, yes: bool, next: Execution)
    requires
        call_ensures(Execution::next, (e, yes), next),
        e.step matches Step::MoveFile { place } ==> place < 7,
        !left_out(e, rank(e.step)),
    ensures
        next == (Execution { step: next.step, ..e }),
        ({
            let (k, n) = (rank(e.step), rank(next.step));
            let goes_on = yes || k == 6 || k == 30 || k == 34 || k == 35;
            &&& k < 36 && goes_on ==> k < n <= 36 && !left_out(e, n) && forall|j: int|
                k < j < n ==> left_out(e, j)
            &&& k < 23 && !goes_on ==> next.step == Step::Failed(Remains::Nothing)
            &&& 23 <= k < 30 && !goes_on ==> next.step == Step::Failed(Remains::Files)
            &&& 30 < k < 36 && !goes_on ==> next.step == Step::Failed(Remains::Configuration)
            &&& k >= 36 ==> next.step == e.step
        }),
{
}

/// What is said when a step begins and ends names what it is about: the release,
/// the hostname that is waited for, and the address that is live.
pub proof fn law_progress_is_told(
    plan: InstallPlan,
    url: String,
    fetching: Option<String>,
    pulling: Option<String>,
    waiting: Option<String>,
    placed: Option<String>,
    live: Option<String>,
    pulled: Option<String>,
    failed: Option<String>,
    hint: String,
    yes: bool,
)
    requires
        call_ensures(InstallPlan::console_url, (&plan,), url),
        call_ensures(opening, (&plan, Step::NoEnv { under_lock: true }), fetching),
        call_ensures(opening, (&plan, Step::PullImages), pulling),
        call_ensures(opening, (&plan, Step::AwaitConsole), waiting),
        call_ensures(closing, (&plan, Step::LinkCli, yes), placed),
        call_ensures(closing, (&plan, Step::AwaitConsole, true), live),
        call_ensures(closing, (&plan, Step::PullImages, true), pulled),
        call_ensures(closing, (&plan, Step::PullImages, false), failed),
        call_ensures(pending_hint, (&plan,), hint),
    ensures
        fetching is Some && fetching->0@ == "Fetching the "@ + plan.version@
            + " deployment artifacts ..."@,
        pulling is Some && text::found(pulling->0@, plan.version@) is Some,
        waiting is Some && waiting->0@ == "Waiting for Let's Encrypt certificates for "@
            + plan.console_domain@ + " (up to 3 minutes) ..."@,
        CERTIFICATE_BUDGET_SECS == 3 * 60,
        placed is Some && placed->0@ == "Deployment artifacts in "@ + plan.install_dir@,
        live is Some && live->0@ == "HTTPS is live at "@ + url@,
        plan.mint is Some ==> pulled is Some && pulled->0@ == "Images pulled."@,
        plan.mint is None ==> pulled is Some && pulled->0@ == "Image pulled."@,
        failed is Some && failed->0@ == "Image pull failed"@,
        text::found(hint@, plan.install_dir@ + "/mintctl logs caddy"@) is Some,
{
    let images = if plan.mint is Some {
        "images"@
    } else {
        "image"@
    };
    let head = "Pulling the container "@ + images + " ("@;
    assert(pulling->0@ =~= head + plan.version@ + ") ..."@);
    text::lemma_found_between(head, plan.version@, ") ..."@);
    let before = "Once DNS is right, https://"@ + plan.console_domain@
        + " will come up by itself.\nWatch progress with: "@;
    let t = plan.install_dir@ + "/mintctl logs caddy"@;
    assert(hint@ =~= before + t + Seq::<char>::empty());
    text::lemma_found_between(before, t, Seq::empty());
}

} // verus!
