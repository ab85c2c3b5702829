//! The per-install operation lock, the commands that run under it, and what
//! failures of private, atomic writes say.

use crate::paths;
use vstd::prelude::*;

verus! {

pub const LOCK_FILE: &'static str = ".mintctl.lock";

/// The mode of the lock file. It is kept in place: deleting it would allow two
/// locks.
pub const LOCK_MODE: u32 = 0o600;

pub const LOCK_HELD: &'static str = "another mintctl operation is running for this installation; retry when it finishes";

pub fn lock_path(dir: &str) -> (r: String)
    ensures
        r@ == paths::below(dir@, LOCK_FILE@),
{
    paths::join(dir, LOCK_FILE)
}

/// What to say when the lock file could not be opened.
pub fn lock_refused(dir: &str) -> (r: String)
    ensures
        r@ == "cannot manage "@ + dir@ + " as this user"@,
{
    "cannot manage ".to_owned().concat(dir).concat(" as this user")
}

/// What to say when a file could not be put in its place.
pub fn not_replaced(path: &str) -> (r: String)
    ensures
        r@ == "replace "@ + path@,
{
    "replace ".to_owned().concat(path)
}

// ---------------------------------------------------------------------------
// one command under the lock
// ---------------------------------------------------------------------------
/// What is done next by an operation that is one compose command. Each step is
/// answered with yes or no: whether it worked.
#[derive(Debug, Clone, Copy, PartialEq, Eq, Structural)]
pub enum HeldStep {
    /// Take the installation's operation lock.
    TakeLock,
    /// Run the command.
    Work,
    Done,
    /// The lock is held by another operation, or cannot be had: nothing was run.
    Refused,
    /// The command did not succeed.
    Failed,
}

pub open spec fn held_next(step: HeldStep, yes: bool) -> HeldStep {
    match step {
        HeldStep::TakeLock => if yes {
            HeldStep::Work
        } else {
            HeldStep::Refused
        },
        HeldStep::Work => if yes {
            HeldStep::Done
        } else {
            HeldStep::Failed
        },
        HeldStep::Done => HeldStep::Done,
        HeldStep::Refused => HeldStep::Refused,
        HeldStep::Failed => HeldStep::Failed,
    }
}

/// Starts with the lock; `next` takes the operation through its steps.
pub fn held() -> (r: HeldStep)
    ensures
        r == HeldStep::TakeLock,
{
    HeldStep::TakeLock
}

impl HeldStep {
    pub fn next(self, yes: bool) -> (r: Self)
        ensures
            r == held_next(self, yes),
    {
        match self {
            HeldStep::TakeLock => if yes {
                HeldStep::Work
            } else {
                HeldStep::Refused
            },
            HeldStep::Work => if yes {
                HeldStep::Done
            } else {
                HeldStep::Failed
            },
            HeldStep::Done => HeldStep::Done,
            HeldStep::Refused => HeldStep::Refused,
            HeldStep::Failed => HeldStep::Failed,
        }
    }
}

/// Where the operation stands after these answers.
pub open spec fn held_after(answers: Seq<bool>) -> HeldStep
    decreases answers.len(),
{
    if answers.len() == 0 {
        HeldStep::TakeLock
    } else {
        held_next(held_after(answers.drop_last()), answers.last())
    }
}

/// The compose commands that the operation has run after these answers, where
/// it is this one.
pub open spec fn commands_run(command: Seq<Seq<char>>, answers: Seq<bool>) -> Seq<Seq<Seq<char>>>
    decreases answers.len(),
{
    if answers.len() == 0 {
        Seq::empty()
    } else {
        let before = commands_run(command, answers.drop_last());
        if held_after(answers.drop_last()) is Work {
            before.push(command)
        } else {
            before
        }
    }
}

/// The lock comes first. Where it is not had, nothing is run; where it is, the
/// command is run once, and the operation succeeds exactly where that does.
pub proof fn law_the_lock_comes_first(command: Seq<Seq<char>>, answers: Seq<bool>)
    ensures
        held_after(answers) == (if answers.len() == 0 {
            HeldStep::TakeLock
        } else if !answers[0] {
            HeldStep::Refused
        } else if answers.len() == 1 {
            HeldStep::Work
        } else if answers[1] {
            HeldStep::Done
        } else {
            HeldStep::Failed
        }),
        commands_run(command, answers) == (if answers.len() >= 2 && answers[0] {
            seq![command]
        } else {
            Seq::empty()
        }),
    decreases answers.len(),
{
    if answers.len() > 0 {
        law_the_lock_comes_first(command, answers.drop_last());
        assert(Seq::empty().push(command) =~= seq![command]);
    }
}

/// The lock is a file of the installation, and an operation under it begins with
/// it, goes on only with it, and ends as its command does.
pub proof fn law_one_lock_for_each_installation(
    dir: &str,
    path: String,
    begin: HeldStep,
    step: HeldStep,
    yes: bool,
    next: HeldStep,
)
    requires
        dir@.len() > 0,
        dir@.last() != '/',
        call_ensures(lock_path, (dir,), path),
        call_ensures(held, (), begin),
        call_ensures(HeldStep::next, (step, yes), next),
    ensures
        path@ == dir@ + "/.mintctl.lock"@,
        LOCK_MODE == 384,
        begin is TakeLock,
        step is TakeLock && yes ==> next is Work,
        step is TakeLock && !yes ==> next is Refused,
        step is Work && yes ==> next is Done,
        step is Work && !yes ==> next is Failed,
        !(step is TakeLock) && !(step is Work) ==> next == step,
{
    reveal_strlit(".mintctl.lock");
    reveal_strlit("/.mintctl.lock");
    assert(path@ =~= dir@ + "/.mintctl.lock"@);
}

} // verus!
