//! Carrying an update out, step by step.
//!
//! No live file or container changes before the update is recoverable: the
//! target is fetched, checked and pulled first, and a backup is saved with the
//! previous deployment files. Only then are files replaced and services
//! recreated.

use crate::install;
use crate::update;
use vstd::prelude::*;

verus! {

/// What is asked or done next. Each step is answered with yes or no: whether
/// it is so, or whether it worked.
#[derive(Debug, Clone, Copy, PartialEq, Eq, Structural)]
pub enum UpdateStep {
    /// Take the installation's operation lock.
    TakeLock,
    /// Is it an installation that can be updated this way?
    CheckInstallation,
    /// Is there a target release, and is its tag valid?
    SelectTarget,
    /// Is it another release than the current one?
    ConsoleChanges,
    /// Make a staging directory.
    MakeStaging,
    FetchCompose,
    /// Does it look like a compose file?
    CheckCompose,
    FetchCaddyfile,
    FetchExample,
    /// Is there a valid tag for the mint, as far as it has one?
    SelectMint,
    /// Is it another tag than the current one?
    MintChanges,
    /// Show what would change.
    Preview,
    /// Does the operator want it?
    Confirm,
    EnsureDocker,
    /// Stage the deployment file with this place.
    StageFile { place: u8 },
    /// Put the target pins into the staged `.env`.
    WritePins,
    /// Finish the staged Caddyfile.
    FinishCaddyfile,
    /// Does compose accept the staged configuration?
    CheckConfig,
    PullImages,
    /// Learn the target images' names.
    NameImages,
    /// Are they all in the local daemon?
    FindImages,
    /// Make the recovery directory.
    MakeRecovery,
    /// Copy the live deployment file with this place into it.
    KeepFile { place: u8 },
    /// Take a backup into it, with everything that belongs to one.
    TakeBackup,
    /// Write the recovery instructions.
    WriteRecovery,
    /// Move the staged deployment file with this place into the installation.
    CommitFile { place: u8 },
    /// Write the kept deployment file with this place back.
    RollBackFile { place: u8 },
    /// Recreate the selected services and wait for them.
    Activate,
    End(UpdateEnd),
}

#[derive(Debug, Clone, Copy, PartialEq, Eq, Structural)]
pub enum UpdateEnd {
    Updated,
    /// The preview was all, or nothing changes.
    Previewed,
    /// The operator said no.
    Cancelled,
    /// No live file has changed.
    Failed,
    /// The previous deployment files are back, before any new service ran.
    RolledBack,
    /// A file could not be written back.
    NotRolledBack,
    /// The pins are kept, so that `mintctl start` can be retried, and so is the
    /// snapshot. Nothing is downgraded.
    NotHealthy,
}

#[derive(Debug, Clone, Copy, PartialEq, Eq, Structural)]
pub struct UpdateRun {
    pub step: UpdateStep,
    pub check: bool,
    pub no_pull: bool,
    pub with_mint: bool,
    pub console_changed: bool,
    pub mint_changed: bool,
}

/// The last place among the deployment files: that of the `.env`.
pub const LAST_FILE: u8 = 4;

pub open spec fn update_start(check: bool, no_pull: bool, with_mint: bool) -> UpdateRun {
    UpdateRun {
        step: if check {
            UpdateStep::CheckInstallation
        } else {
            UpdateStep::TakeLock
        },
        check,
        no_pull,
        with_mint,
        console_changed: false,
        mint_changed: false,
    }
}

/// The step after one that was answered with yes, and after a question of what
/// changes in any case.
pub open spec fn going_on(run: UpdateRun) -> UpdateStep {
    match run.step {
        UpdateStep::TakeLock => UpdateStep::CheckInstallation,
        UpdateStep::CheckInstallation => UpdateStep::SelectTarget,
        UpdateStep::SelectTarget => UpdateStep::ConsoleChanges,
        UpdateStep::ConsoleChanges => UpdateStep::MakeStaging,
        UpdateStep::MakeStaging => if run.console_changed || run.with_mint {
            UpdateStep::FetchCompose
        } else {
            UpdateStep::SelectMint
        },
        UpdateStep::FetchCompose => UpdateStep::CheckCompose,
        UpdateStep::CheckCompose => UpdateStep::FetchCaddyfile,
        UpdateStep::FetchCaddyfile => UpdateStep::FetchExample,
        UpdateStep::FetchExample => UpdateStep::SelectMint,
        UpdateStep::SelectMint => UpdateStep::MintChanges,
        UpdateStep::MintChanges => UpdateStep::Preview,
        UpdateStep::Preview => if run.check || (!run.console_changed && !run.mint_changed) {
            UpdateStep::End(UpdateEnd::Previewed)
        } else {
            UpdateStep::Confirm
        },
        UpdateStep::Confirm => UpdateStep::EnsureDocker,
        UpdateStep::EnsureDocker => UpdateStep::StageFile { place: 0 },
        UpdateStep::StageFile { place } => if place < LAST_FILE {
            UpdateStep::StageFile { place: (place + 1) as u8 }
        } else {
            UpdateStep::WritePins
        },
        UpdateStep::WritePins => if run.console_changed {
            UpdateStep::FinishCaddyfile
        } else {
            UpdateStep::CheckConfig
        },
        UpdateStep::FinishCaddyfile => UpdateStep::CheckConfig,
        UpdateStep::CheckConfig => if run.no_pull {
            UpdateStep::NameImages
        } else {
            UpdateStep::PullImages
        },
        UpdateStep::PullImages => UpdateStep::MakeRecovery,
        UpdateStep::NameImages => UpdateStep::FindImages,
        UpdateStep::FindImages => UpdateStep::MakeRecovery,
        UpdateStep::MakeRecovery => UpdateStep::KeepFile { place: 0 },
        UpdateStep::KeepFile { place } => if place < LAST_FILE {
            UpdateStep::KeepFile { place: (place + 1) as u8 }
        } else {
            UpdateStep::TakeBackup
        },
        UpdateStep::TakeBackup => UpdateStep::WriteRecovery,
        UpdateStep::WriteRecovery => UpdateStep::CommitFile { place: 0 },
        UpdateStep::CommitFile { place } => if place < LAST_FILE {
            UpdateStep::CommitFile { place: (place + 1) as u8 }
        } else {
            UpdateStep::Activate
        },
        UpdateStep::RollBackFile { place } => if place < LAST_FILE {
            UpdateStep::RollBackFile { place: (place + 1) as u8 }
        } else {
            UpdateStep::End(UpdateEnd::RolledBack)
        },
        UpdateStep::Activate => UpdateStep::End(UpdateEnd::Updated),
        UpdateStep::End(end) => UpdateStep::End(end),
    }
}

/// The step after one that was answered with no.
pub open spec fn giving_up(step: UpdateStep) -> UpdateStep {
    match step {
        UpdateStep::Confirm => UpdateStep::End(UpdateEnd::Cancelled),
        UpdateStep::CommitFile { .. } => UpdateStep::RollBackFile { place: 0 },
        UpdateStep::RollBackFile { .. } => UpdateStep::End(UpdateEnd::NotRolledBack),
        UpdateStep::Activate => UpdateStep::End(UpdateEnd::NotHealthy),
        UpdateStep::End(end) => UpdateStep::End(end),
        _ => UpdateStep::End(UpdateEnd::Failed),
    }
}

pub open spec fn update_next(run: UpdateRun, yes: bool) -> UpdateRun {
    let console_changed = if run.step is ConsoleChanges {
        yes
    } else {
        run.console_changed
    };
    let mint_changed = if run.step is MintChanges {
        yes
    } else {
        run.mint_changed
    };
    let known = UpdateRun { console_changed, mint_changed, ..run };
    UpdateRun {
        step: if yes || run.step is ConsoleChanges || run.step is MintChanges || run.step
            is Preview {
            going_on(known)
        } else {
            giving_up(run.step)
        },
        ..known
    }
}

/// Starts an update; `next` takes it through its steps.
pub fn run(check: bool, no_pull: bool, with_mint: bool) -> (r: UpdateRun)
    ensures
        r == update_start(check, no_pull, with_mint),
{
    UpdateRun {
        step: if check {
            UpdateStep::CheckInstallation
        } else {
            UpdateStep::TakeLock
        },
        check,
        no_pull,
        with_mint,
        console_changed: false,
        mint_changed: false,
    }
}

impl UpdateRun {
    fn going_on(self) -> (r: UpdateStep)
        ensures
            r == going_on(self),
    {
        match self.step {
            UpdateStep::TakeLock => UpdateStep::CheckInstallation,
            UpdateStep::CheckInstallation => UpdateStep::SelectTarget,
            UpdateStep::SelectTarget => UpdateStep::ConsoleChanges,
            UpdateStep::ConsoleChanges => UpdateStep::MakeStaging,
            UpdateStep::MakeStaging => if self.console_changed || self.with_mint {
                UpdateStep::FetchCompose
            } else {
                UpdateStep::SelectMint
            },
            UpdateStep::FetchCompose => UpdateStep::CheckCompose,
            UpdateStep::CheckCompose => UpdateStep::FetchCaddyfile,
            UpdateStep::FetchCaddyfile => UpdateStep::FetchExample,
            UpdateStep::FetchExample => UpdateStep::SelectMint,
            UpdateStep::SelectMint => UpdateStep::MintChanges,
            UpdateStep::MintChanges => UpdateStep::Preview,
            UpdateStep::Preview => if self.check || (!self.console_changed && !self.mint_changed) {
                UpdateStep::End(UpdateEnd::Previewed)
            } else {
                UpdateStep::Confirm
            },
            UpdateStep::Confirm => UpdateStep::EnsureDocker,
            UpdateStep::EnsureDocker => UpdateStep::StageFile { place: 0 },
            UpdateStep::StageFile { place } => if place < LAST_FILE {
                UpdateStep::StageFile { place: place + 1 }
            } else {
                UpdateStep::WritePins
            },
            UpdateStep::WritePins => if self.console_changed {
                UpdateStep::FinishCaddyfile
            } else {
                UpdateStep::CheckConfig
            },
            UpdateStep::FinishCaddyfile => UpdateStep::CheckConfig,
            UpdateStep::CheckConfig => if self.no_pull {
                UpdateStep::NameImages
            } else {
                UpdateStep::PullImages
            },
            UpdateStep::PullImages => UpdateStep::MakeRecovery,
            UpdateStep::NameImages => UpdateStep::FindImages,
            UpdateStep::FindImages => UpdateStep::MakeRecovery,
            UpdateStep::MakeRecovery => UpdateStep::KeepFile { place: 0 },
            UpdateStep::KeepFile { place } => if place < LAST_FILE {
                UpdateStep::KeepFile { place: place + 1 }
            } else {
                UpdateStep::TakeBackup
            },
            UpdateStep::TakeBackup => UpdateStep::WriteRecovery,
            UpdateStep::WriteRecovery => UpdateStep::CommitFile { place: 0 },
            UpdateStep::CommitFile { place } => if place < LAST_FILE {
                UpdateStep::CommitFile { place: place + 1 }
            } else {
                UpdateStep::Activate
            },
            UpdateStep::RollBackFile { place } => if place < LAST_FILE {
                UpdateStep::RollBackFile { place: place + 1 }
            } else {
                UpdateStep::End(UpdateEnd::RolledBack)
            },
            UpdateStep::Activate => UpdateStep::End(UpdateEnd::Updated),
            UpdateStep::End(end) => UpdateStep::End(end),
        }
    }

    pub fn next(self, yes: bool) -> (r: Self)
        ensures
            r == update_next(self, yes),
    {
        let mut known = self;
        let mut goes_on: bool = yes;
        match self.step {
            UpdateStep::ConsoleChanges => {
                known.console_changed = yes;
                goes_on = true;
            },
            UpdateStep::MintChanges => {
                known.mint_changed = yes;
                goes_on = true;
            },
            UpdateStep::Preview => {
                goes_on = true;
            },
            _ => {},
        }
        let step = if goes_on {
            known.going_on()
        } else {
            match self.step {
                UpdateStep::Confirm => UpdateStep::End(UpdateEnd::Cancelled),
                UpdateStep::CommitFile { .. } => UpdateStep::RollBackFile { place: 0 },
                UpdateStep::RollBackFile { .. } => UpdateStep::End(UpdateEnd::NotRolledBack),
                UpdateStep::Activate => UpdateStep::End(UpdateEnd::NotHealthy),
                UpdateStep::End(end) => UpdateStep::End(end),
                _ => UpdateStep::End(UpdateEnd::Failed),
            }
        };
        UpdateRun { step, ..known }
    }
}

// ---------------------------------------------------------------------------
// laws
// ---------------------------------------------------------------------------
/// Where an update with these flags stands after these answers.
pub open spec fn update_after(
    check: bool,
    no_pull: bool,
    with_mint: bool,
    answers: Seq<bool>,
) -> UpdateRun
    decreases answers.len(),
{
    if answers.len() == 0 {
        update_start(check, no_pull, with_mint)
    } else {
        update_next(update_after(check, no_pull, with_mint, answers.drop_last()), answers.last())
    }
}

/// That the update came by this step, and what the answer was.
pub open spec fn came_by(
    check: bool,
    no_pull: bool,
    with_mint: bool,
    answers: Seq<bool>,
    step: UpdateStep,
    yes: bool,
) -> bool {
    exists|i: int|
        0 <= i < answers.len() && #[trigger] update_after(
            check,
            no_pull,
            with_mint,
            answers.take(i),
        ).step == step && answers[i] == yes
}

/// The place of a step in the order of steps. Rolling back undoes the commit.
pub open spec fn rank(step: UpdateStep) -> int {
    match step {
        UpdateStep::TakeLock => 0,
        UpdateStep::CheckInstallation => 1,
        UpdateStep::SelectTarget => 2,
        UpdateStep::ConsoleChanges => 3,
        UpdateStep::MakeStaging => 4,
        UpdateStep::FetchCompose => 5,
        UpdateStep::CheckCompose => 6,
        UpdateStep::FetchCaddyfile => 7,
        UpdateStep::FetchExample => 8,
        UpdateStep::SelectMint => 9,
        UpdateStep::MintChanges => 10,
        UpdateStep::Preview => 11,
        UpdateStep::Confirm => 12,
        UpdateStep::EnsureDocker => 13,
        UpdateStep::StageFile { place } => 14 + place,
        UpdateStep::WritePins => 19,
        UpdateStep::FinishCaddyfile => 20,
        UpdateStep::CheckConfig => 21,
        UpdateStep::PullImages => 22,
        UpdateStep::NameImages => 23,
        UpdateStep::FindImages => 24,
        UpdateStep::MakeRecovery => 25,
        UpdateStep::KeepFile { place } => 26 + place,
        UpdateStep::TakeBackup => 31,
        UpdateStep::WriteRecovery => 32,
        UpdateStep::CommitFile { place } => 33 + place,
        UpdateStep::RollBackFile { .. } => 33,
        UpdateStep::Activate => 38,
        UpdateStep::End(UpdateEnd::RolledBack) | UpdateStep::End(UpdateEnd::NotRolledBack) => 33,
        UpdateStep::End(_) => 39,
    }
}

/// Ends that leave everything as it was.
pub open spec fn ended_early(step: UpdateStep) -> bool {
    step == UpdateStep::End(UpdateEnd::Failed) || step == UpdateStep::End(UpdateEnd::Previewed)
        || step == UpdateStep::End(UpdateEnd::Cancelled)
}

/// A step that every update goes through, with yes, before it gets further.
pub open spec fn mandatory(step: UpdateStep, no_pull: bool) -> bool {
    match step {
        UpdateStep::CheckInstallation | UpdateStep::SelectTarget | UpdateStep::MakeStaging
        | UpdateStep::SelectMint | UpdateStep::Confirm | UpdateStep::EnsureDocker
        | UpdateStep::WritePins | UpdateStep::CheckConfig | UpdateStep::MakeRecovery
        | UpdateStep::TakeBackup | UpdateStep::WriteRecovery => true,
        UpdateStep::StageFile { place } | UpdateStep::KeepFile { place }
        | UpdateStep::CommitFile { place } => place <= LAST_FILE,
        UpdateStep::PullImages => !no_pull,
        UpdateStep::NameImages | UpdateStep::FindImages => no_pull,
        _ => false,
    }
}

proof fn lemma_came_by(
    check: bool,
    no_pull: bool,
    with_mint: bool,
    answers: Seq<bool>,
    step: UpdateStep,
    yes: bool,
)
    requires
        answers.len() > 0,
    ensures
        came_by(check, no_pull, with_mint, answers, step, yes) <==> came_by(
            check,
            no_pull,
            with_mint,
            answers.drop_last(),
            step,
            yes,
        ) || (update_after(check, no_pull, with_mint, answers.drop_last()).step == step
            && answers.last() == yes),
{
    let before = answers.drop_last();
    assert(answers.take(before.len() as int) =~= before);
    if came_by(check, no_pull, with_mint, before, step, yes) {
        let i = choose|i: int|
            0 <= i < before.len() && #[trigger] update_after(
                check,
                no_pull,
                with_mint,
                before.take(i),
            ).step == step && before[i] == yes;
        assert(answers.take(i) =~= before.take(i));
    }
    if came_by(check, no_pull, with_mint, answers, step, yes) {
        let i = choose|i: int|
            0 <= i < answers.len() && #[trigger] update_after(
                check,
                no_pull,
                with_mint,
                answers.take(i),
            ).step == step && answers[i] == yes;
        if i < before.len() {
            assert(before.take(i) =~= answers.take(i));
        }
    }
}

/// Steps that take the files one by one keep to the files there are, and the
/// images are either pulled or found.
pub open spec fn well_placed(run: UpdateRun) -> bool {
    &&& run.step matches UpdateStep::StageFile { place } ==> place <= LAST_FILE
    &&& run.step matches UpdateStep::KeepFile { place } ==> place <= LAST_FILE
    &&& run.step matches UpdateStep::CommitFile { place } ==> place <= LAST_FILE
    &&& run.step matches UpdateStep::RollBackFile { place } ==> place <= LAST_FILE
    &&& run.step is PullImages ==> !run.no_pull
    &&& run.step is NameImages || run.step is FindImages ==> run.no_pull
}

/// A step keeps the flags, and keeps to the files.
#[verifier::spinoff_prover]
proof fn lemma_flags_step(run: UpdateRun, yes: bool)
    requires
        well_placed(run),
    ensures
        ({
            let next = update_next(run, yes);
            &&& next.check == run.check
            &&& next.no_pull == run.no_pull
            &&& next.with_mint == run.with_mint
            &&& well_placed(next)
        }),
{
}

#[verifier::spinoff_prover]
proof fn lemma_flags_stay(check: bool, no_pull: bool, with_mint: bool, answers: Seq<bool>)
    ensures
        ({
            let run = update_after(check, no_pull, with_mint, answers);
            &&& run.check == check
            &&& run.no_pull == no_pull
            &&& run.with_mint == with_mint
            &&& well_placed(run)
        }),
    decreases answers.len(),
{
    if answers.len() > 0 {
        let before = answers.drop_last();
        lemma_flags_stay(check, no_pull, with_mint, before);
        lemma_flags_step(update_after(check, no_pull, with_mint, before), answers.last());
    }
}

/// A step leads past a mandatory one only from that one, with yes, or from
/// behind it.
#[verifier::spinoff_prover]
proof fn lemma_one_step(run: UpdateRun, yes: bool, step: UpdateStep)
    requires
        well_placed(run),
        mandatory(step, run.no_pull),
        !ended_early(update_next(run, yes).step),
        rank(update_next(run, yes).step) > rank(step),
    ensures
        !ended_early(run.step),
        rank(run.step) > rank(step) || (run.step == step && yes),
{
    assert(rank(step) <= 37);
    if rank(run.step) <= rank(step) {
        assert(rank(update_next(run, yes).step) > rank(run.step));
        lemma_rank(run.step, step, run.no_pull);
    }
}

/// Steps with the same place in the order are the same, as far as an update
/// with these flags comes by them.
#[verifier::spinoff_prover]
proof fn lemma_rank(a: UpdateStep, b: UpdateStep, no_pull: bool)
    requires
        mandatory(b, no_pull),
        rank(a) == rank(b),
        !(a is RollBackFile),
        !(a is End),
        a matches UpdateStep::StageFile { place } ==> place <= LAST_FILE,
        a matches UpdateStep::KeepFile { place } ==> place <= LAST_FILE,
        a matches UpdateStep::CommitFile { place } ==> place <= LAST_FILE,
    ensures
        a == b,
{
}

/// No mandatory step is jumped over: whatever comes later was reached through
/// it, with yes.
#[verifier::spinoff_prover]
pub proof fn law_no_step_is_skipped(
    check: bool,
    no_pull: bool,
    with_mint: bool,
    answers: Seq<bool>,
    step: UpdateStep,
)
    requires
        mandatory(step, no_pull),
        !ended_early(update_after(check, no_pull, with_mint, answers).step),
        rank(update_after(check, no_pull, with_mint, answers).step) > rank(step),
    ensures
        came_by(check, no_pull, with_mint, answers, step, true),
    decreases answers.len(),
{
    if answers.len() > 0 {
        let before = answers.drop_last();
        let run = update_after(check, no_pull, with_mint, before);
        lemma_flags_stay(check, no_pull, with_mint, before);
        lemma_one_step(run, answers.last(), step);
        lemma_came_by(check, no_pull, with_mint, answers, step, true);
        if rank(run.step) > rank(step) {
            law_no_step_is_skipped(check, no_pull, with_mint, before, step);
        }
    }
}

/// Nothing of the installation is replaced or recreated before the operator
/// agreed, the staged configuration was accepted, the images were there, the
/// previous files were kept and the backup was saved.
pub proof fn law_commit_is_recoverable(
    check: bool,
    no_pull: bool,
    with_mint: bool,
    answers: Seq<bool>,
    place: u8,
)
    requires
        !ended_early(update_after(check, no_pull, with_mint, answers).step),
        rank(update_after(check, no_pull, with_mint, answers).step) >= rank(
            UpdateStep::CommitFile { place: 0 },
        ),
        place <= LAST_FILE,
    ensures
        came_by(check, no_pull, with_mint, answers, UpdateStep::Confirm, true),
        came_by(check, no_pull, with_mint, answers, UpdateStep::CheckConfig, true),
        !no_pull ==> came_by(check, no_pull, with_mint, answers, UpdateStep::PullImages, true),
        no_pull ==> came_by(check, no_pull, with_mint, answers, UpdateStep::FindImages, true),
        came_by(check, no_pull, with_mint, answers, UpdateStep::KeepFile { place }, true),
        came_by(check, no_pull, with_mint, answers, UpdateStep::TakeBackup, true),
        came_by(check, no_pull, with_mint, answers, UpdateStep::WriteRecovery, true),
{
    law_no_step_is_skipped(check, no_pull, with_mint, answers, UpdateStep::Confirm);
    law_no_step_is_skipped(check, no_pull, with_mint, answers, UpdateStep::CheckConfig);
    if no_pull {
        law_no_step_is_skipped(check, no_pull, with_mint, answers, UpdateStep::FindImages);
    } else {
        law_no_step_is_skipped(check, no_pull, with_mint, answers, UpdateStep::PullImages);
    }
    law_no_step_is_skipped(check, no_pull, with_mint, answers, UpdateStep::KeepFile { place });
    law_no_step_is_skipped(check, no_pull, with_mint, answers, UpdateStep::TakeBackup);
    law_no_step_is_skipped(check, no_pull, with_mint, answers, UpdateStep::WriteRecovery);
}

/// Steps from the first live file that is replaced on.
pub open spec fn live(step: UpdateStep) -> bool {
    match step {
        UpdateStep::CommitFile { .. } | UpdateStep::RollBackFile { .. } | UpdateStep::Activate => true,
        UpdateStep::End(end) => !ended_early(step),
        _ => false,
    }
}

/// Failed downloads, an invalid configuration and a failed backup leave the
/// installation as it is, and so do a preview and an operator who says no: such
/// an update never came to replacing a file or recreating a service.
pub proof fn law_failed_update_changes_nothing(
    check: bool,
    no_pull: bool,
    with_mint: bool,
    answers: Seq<bool>,
    i: int,
)
    requires
        0 <= i <= answers.len(),
        ended_early(update_after(check, no_pull, with_mint, answers).step),
    ensures
        !live(update_after(check, no_pull, with_mint, answers.take(i)).step),
{
    lemma_live_stays(check, no_pull, with_mint, answers, i);
}

/// Once live files may have been replaced, no later step says otherwise.
proof fn lemma_live_stays(
    check: bool,
    no_pull: bool,
    with_mint: bool,
    answers: Seq<bool>,
    i: int,
)
    requires
        0 <= i <= answers.len(),
    ensures
        live(update_after(check, no_pull, with_mint, answers.take(i)).step) ==> live(
            update_after(check, no_pull, with_mint, answers).step,
        ),
    decreases answers.len(),
{
    if i < answers.len() {
        let before = answers.drop_last();
        lemma_live_stays(check, no_pull, with_mint, before, i);
        assert(before.take(i) =~= answers.take(i));
    } else {
        assert(answers.take(i) =~= answers);
    }
}

/// Services are not stopped for the backup before the staged configuration was
/// accepted and the images were there: a failed check or pull leaves the
/// services alone and makes no recovery directory.
pub proof fn law_backup_comes_after_the_checks(
    check: bool,
    no_pull: bool,
    with_mint: bool,
    answers: Seq<bool>,
)
    requires
        !ended_early(update_after(check, no_pull, with_mint, answers).step),
        rank(update_after(check, no_pull, with_mint, answers).step) >= rank(
            UpdateStep::MakeRecovery,
        ),
    ensures
        came_by(check, no_pull, with_mint, answers, UpdateStep::CheckConfig, true),
        !no_pull ==> came_by(check, no_pull, with_mint, answers, UpdateStep::PullImages, true),
        no_pull ==> came_by(check, no_pull, with_mint, answers, UpdateStep::FindImages, true),
{
    law_no_step_is_skipped(check, no_pull, with_mint, answers, UpdateStep::CheckConfig);
    if no_pull {
        law_no_step_is_skipped(check, no_pull, with_mint, answers, UpdateStep::FindImages);
    } else {
        law_no_step_is_skipped(check, no_pull, with_mint, answers, UpdateStep::PullImages);
    }
}

/// A preview is read-only: it takes no lock, asks for nothing and gets no
/// further than showing what would change.
pub proof fn law_preview_is_read_only(no_pull: bool, with_mint: bool, answers: Seq<bool>)
    ensures
        ({
            let step = update_after(true, no_pull, with_mint, answers).step;
            &&& step != UpdateStep::TakeLock
            &&& rank(step) <= rank(UpdateStep::Preview) || step == UpdateStep::End(
                UpdateEnd::Previewed,
            ) || step == UpdateStep::End(UpdateEnd::Failed)
        }),
    decreases answers.len(),
{
    lemma_flags_stay(true, no_pull, with_mint, answers);
    if answers.len() > 0 {
        lemma_flags_stay(true, no_pull, with_mint, answers.drop_last());
        law_preview_is_read_only(no_pull, with_mint, answers.drop_last());
    }
}

/// Where neither the console nor the mint changes, nothing is done.
pub proof fn law_nothing_to_do_does_nothing(
    check: bool,
    no_pull: bool,
    with_mint: bool,
    answers: Seq<bool>,
)
    requires
        update_after(check, no_pull, with_mint, answers).step is Confirm,
    ensures
        update_after(check, no_pull, with_mint, answers).console_changed || update_after(
            check,
            no_pull,
            with_mint,
            answers,
        ).mint_changed,
        !check,
{
    lemma_flags_stay(check, no_pull, with_mint, answers.drop_last());
}

/// Rolling back begins at a file that could not be committed.
#[verifier::spinoff_prover]
proof fn lemma_rollback_step(run: UpdateRun, yes: bool)
    requires
        rolling_back(update_next(run, yes).step),
    ensures
        rolling_back(run.step) || (run.step is CommitFile && !yes),
{
}

/// Files are written back exactly after a file could not be committed, and
/// never after services were recreated.
#[verifier::spinoff_prover]
pub proof fn law_rollback_undoes_a_failed_commit(
    check: bool,
    no_pull: bool,
    with_mint: bool,
    answers: Seq<bool>,
)
    requires
        rolling_back(update_after(check, no_pull, with_mint, answers).step),
    ensures
        exists|place: u8|
            #[trigger] came_by(
                check,
                no_pull,
                with_mint,
                answers,
                UpdateStep::CommitFile { place },
                false,
            ),
        !came_by(check, no_pull, with_mint, answers, UpdateStep::Activate, true),
        !came_by(check, no_pull, with_mint, answers, UpdateStep::Activate, false),
    decreases answers.len(),
{
    let before = answers.drop_last();
    let run = update_after(check, no_pull, with_mint, before);
    lemma_not_activated(check, no_pull, with_mint, answers);
    lemma_rollback_step(run, answers.last());
    let place = if rolling_back(run.step) {
        law_rollback_undoes_a_failed_commit(check, no_pull, with_mint, before);
        choose|place: u8|
            #[trigger] came_by(
                check,
                no_pull,
                with_mint,
                before,
                UpdateStep::CommitFile { place },
                false,
            )
    } else {
        run.step->CommitFile_place
    };
    lemma_came_by(check, no_pull, with_mint, answers, UpdateStep::CommitFile { place }, false);
    assert(came_by(
        check,
        no_pull,
        with_mint,
        answers,
        UpdateStep::CommitFile { place },
        false,
    ));
}

pub open spec fn rolling_back(step: UpdateStep) -> bool {
    step is RollBackFile || step == UpdateStep::End(UpdateEnd::RolledBack) || step
        == UpdateStep::End(UpdateEnd::NotRolledBack)
}

/// Behind the activation is its end.
pub open spec fn activated(step: UpdateStep) -> bool {
    step == UpdateStep::End(UpdateEnd::Updated) || step == UpdateStep::End(UpdateEnd::NotHealthy)
}

#[verifier::spinoff_prover]
proof fn lemma_activation_step(run: UpdateRun, yes: bool)
    requires
        activated(run.step) || run.step is Activate,
    ensures
        activated(update_next(run, yes).step),
{
}

/// Until the ends that follow it, nothing was activated.
#[verifier::spinoff_prover]
proof fn lemma_not_activated(check: bool, no_pull: bool, with_mint: bool, answers: Seq<bool>)
    ensures
        ({
            let step = update_after(check, no_pull, with_mint, answers).step;
            came_by(check, no_pull, with_mint, answers, UpdateStep::Activate, true) || came_by(
                check,
                no_pull,
                with_mint,
                answers,
                UpdateStep::Activate,
                false,
            ) ==> activated(step)
        }),
    decreases answers.len(),
{
    if answers.len() > 0 {
        let before = answers.drop_last();
        let run = update_after(check, no_pull, with_mint, before);
        lemma_not_activated(check, no_pull, with_mint, before);
        lemma_came_by(check, no_pull, with_mint, answers, UpdateStep::Activate, true);
        lemma_came_by(check, no_pull, with_mint, answers, UpdateStep::Activate, false);
        if activated(run.step) || run.step is Activate {
            lemma_activation_step(run, answers.last());
        }
    }
}

/// An update that did not become healthy keeps the target pins: every file, the
/// `.env` with the pins last, was committed, and none was written back.
pub proof fn law_unhealthy_update_keeps_its_pins(
    check: bool,
    no_pull: bool,
    with_mint: bool,
    answers: Seq<bool>,
    place: u8,
    kept: u8,
)
    requires
        update_after(check, no_pull, with_mint, answers).step == UpdateStep::End(
            UpdateEnd::NotHealthy,
        ),
        place <= LAST_FILE,
    ensures
        update::deployment_files()[LAST_FILE as int] == install::ENV_FILE@,
        came_by(check, no_pull, with_mint, answers, UpdateStep::CommitFile { place }, true),
        !came_by(check, no_pull, with_mint, answers, UpdateStep::RollBackFile { place: kept }, true),
        !came_by(
            check,
            no_pull,
            with_mint,
            answers,
            UpdateStep::RollBackFile { place: kept },
            false,
        ),
{
    law_no_step_is_skipped(check, no_pull, with_mint, answers, UpdateStep::CommitFile { place });
    lemma_not_rolled_back(check, no_pull, with_mint, answers, kept);
}

proof fn lemma_not_rolled_back(
    check: bool,
    no_pull: bool,
    with_mint: bool,
    answers: Seq<bool>,
    place: u8,
)
    ensures
        ({
            let step = UpdateStep::RollBackFile { place };
            came_by(check, no_pull, with_mint, answers, step, true) || came_by(
                check,
                no_pull,
                with_mint,
                answers,
                step,
                false,
            ) ==> rolling_back(update_after(check, no_pull, with_mint, answers).step)
        }),
    decreases answers.len(),
{
    let step = UpdateStep::RollBackFile { place };
    if answers.len() > 0 {
        lemma_not_rolled_back(check, no_pull, with_mint, answers.drop_last(), place);
        lemma_came_by(check, no_pull, with_mint, answers, step, true);
        lemma_came_by(check, no_pull, with_mint, answers, step, false);
    }
}

/// Whether an update leaves the step with this place in the order out: the
/// release's files where neither the console nor the mint needs them, the
/// Caddyfile where the console stays, and either the pull or the search for the
/// images.
pub open spec fn left_out(run: UpdateRun, place: int) -> bool {
    ||| 5 <= place <= 8 && !(run.console_changed || run.with_mint)
    ||| place == 20 && !run.console_changed
    ||| place == 22 && run.no_pull
    ||| (place == 23 || place == 24) && !run.no_pull
}

/// A preview takes no lock, and everything else begins with it.
pub proof fn law_where_an_update_begins(check: bool, no_pull: bool, with_mint: bool, r: UpdateRun)
    requires
        call_ensures(run, (check, no_pull, with_mint), r),
    ensures
        !check ==> r.step is TakeLock,
        check ==> r.step is CheckInstallation,
        r.check == check && r.no_pull == no_pull && r.with_mint == with_mint,
        !r.console_changed && !r.mint_changed,
{
}

/// Each step leads to the very next one that is not left out, until the services
/// are recreated. What changes is what was answered, and a preview, or an update
/// that changes nothing, ends once it was shown.
#[verifier::spinoff_prover]
pub proof fn law_update_goes_step_by_step(r: UpdateRun, yes: bool, next: UpdateRun)
    requires
        call_ensures(UpdateRun::next, (r, yes), next),
        r.step matches UpdateStep::StageFile { place } ==> place <= 4,
        r.step matches UpdateStep::KeepFile { place } ==> place <= 4,
        r.step matches UpdateStep::CommitFile { place } ==> place <= 4,
        !(r.step is RollBackFile) && !(r.step is End),
        !left_out(r, rank(r.step)),
    ensures
        next.check == r.check && next.no_pull == r.no_pull && next.with_mint == r.with_mint,
        r.step is ConsoleChanges ==> next.console_changed == yes,
        !(r.step is ConsoleChanges) ==> next.console_changed == r.console_changed,
        r.step is MintChanges ==> next.mint_changed == yes,
        !(r.step is MintChanges) ==> next.mint_changed == r.mint_changed,
        ({
            let (k, n) = (rank(r.step), rank(next.step));
            let question = k == 3 || k == 10 || k == 11;
            let ends = k == 11 && (r.check || (!r.console_changed && !r.mint_changed));
            &&& ends ==> next.step == UpdateStep::End(UpdateEnd::Previewed)
            &&& k == 38 && yes ==> next.step == UpdateStep::End(UpdateEnd::Updated)
            &&& k < 38 && (yes || question) && !ends ==> {
                &&& !(next.step is RollBackFile) && !(next.step is End)
                &&& k < n <= 38 && !left_out(next, n)
                &&& forall|j: int| k < j < n ==> left_out(next, j)
            }
        }),
{
}

/// A no ends an update: cancelled where the operator was asked, failed with no
/// live file changed before the first is replaced, and not healthy where the
/// services did not come up. A file that cannot be replaced has the kept ones
/// written back, all of them, in their order.
#[verifier::spinoff_prover]
pub proof fn law_how_an_update_ends(r: UpdateRun, yes: bool, next: UpdateRun)
    requires
        call_ensures(UpdateRun::next, (r, yes), next),
        r.step matches UpdateStep::RollBackFile { place } ==> place <= 4,
        r.step matches UpdateStep::StageFile { place } ==> place <= 4,
        r.step matches UpdateStep::KeepFile { place } ==> place <= 4,
        r.step matches UpdateStep::CommitFile { place } ==> place <= 4,
    ensures
        ({
            let k = rank(r.step);
            let question = k == 3 || k == 10 || k == 11;
            &&& r.step is Confirm && !yes ==> next.step == UpdateStep::End(UpdateEnd::Cancelled)
            &&& r.step is Activate && !yes ==> next.step == UpdateStep::End(UpdateEnd::NotHealthy)
            &&& r.step is CommitFile && !yes ==> next.step == (UpdateStep::RollBackFile {
                place: 0,
            })
            &&& k < 33 && !yes && !question && !(r.step is Confirm) ==> next.step
                == UpdateStep::End(UpdateEnd::Failed)
            &&& r.step matches UpdateStep::RollBackFile { place } ==> {
                &&& !yes ==> next.step == UpdateStep::End(UpdateEnd::NotRolledBack)
                &&& yes && place < 4 ==> next.step is RollBackFile
                    && next.step->RollBackFile_place == place + 1
                &&& yes && place == 4 ==> next.step == UpdateStep::End(UpdateEnd::RolledBack)
            }
            &&& r.step is End ==> next.step == r.step
        }),
{
}

} // verus!
