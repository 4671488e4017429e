//! The runtime has one owner at a time.
//!
//! A process is followed through any sequence of start-up and shutdown steps
//! on one flag. Each step is taken as the contract of its function states it,
//! and nothing else is assumed of it. Whatever the sequence and whatever the
//! runtime replies, no two `Context`s are live at once, and no start-up is
//! granted while one is.

use vstd::prelude::*;
use crate::error::InitError;
use crate::lifecycle::{
    claimed,
    init_returned,
    shut_down,
    version_check_done,
    ApplicationType,
    Claim,
    Context,
    InitFlag,
    InitOutcome,
    PendingInit,
    VersionCheck,
};

verus! {

/// What has become of one start-up.
pub enum Token {
    /// It holds the claim and awaits the native init call.
    Pending(PendingInit),
    /// It awaits the version check.
    Checking(VersionCheck),
    /// It yielded a `Context`, live or shut down by now.
    Entry(Context),
    /// It failed.
    Failed,
}

/// The flag of a process and every start-up that was ever granted in it.
pub struct Process {
    pub flag: InitFlag,
    pub tokens: Seq<Token>,
}

/// One call of a function of the lifecycle, with what it was given and what
/// it gave back.
pub enum Step {
    /// `init`
    Init { ty: ApplicationType, claim: Claim },
    /// `native_init_returned` on the start-up at `token`
    InitReturned { token: int, code: u32, r: Result<VersionCheck, InitError> },
    /// `version_checked` on the start-up at `token`
    VersionChecked { token: int, valid: bool, outcome: InitOutcome },
    /// `shutdown` on the `Context` at `token`
    Shutdown { token: int, after: Context, native_shutdown: bool },
}

/// Whether the start-up at `i` holds the runtime: it is under way, or its
/// `Context` is live.
pub open spec fn holds(p: Process, i: int) -> bool {
    &&& 0 <= i < p.tokens.len()
    &&& match p.tokens[i] {
        Token::Pending(_) => true,
        Token::Checking(_) => true,
        Token::Entry(context) => context.is_live(),
        Token::Failed => false,
    }
}

/// Whether the `Context` at `i` is live.
pub open spec fn live(p: Process, i: int) -> bool {
    &&& 0 <= i < p.tokens.len()
    &&& p.tokens[i] matches Token::Entry(context)
    &&& context.is_live()
}

/// The flag is set exactly while some start-up holds the runtime, and no two
/// do.
pub open spec fn single_owner(p: Process) -> bool {
    &&& p.flag.is_set() <==> exists|i: int| holds(p, i)
    &&& forall|i: int, j: int| holds(p, i) && holds(p, j) ==> i == j
}

/// Whether `step` leads from `before` to `after`, by the contract of the
/// function that it calls.
pub open spec fn leads(before: Process, step: Step, after: Process) -> bool {
    match step {
        Step::Init { ty, claim } => {
            &&& claimed(before.flag, ty, after.flag, claim)
            &&& after.tokens == match claim {
                Claim::Granted(pending) => before.tokens.push(Token::Pending(pending)),
                Claim::AlreadyInitialized => before.tokens,
            }
        },
        Step::InitReturned { token, code, r } => {
            &&& 0 <= token < before.tokens.len()
            &&& before.tokens[token] matches Token::Pending(pending)
            &&& init_returned(pending, before.flag, code, after.flag, r)
            &&& after.tokens == before.tokens.update(
                token,
                match r {
                    Ok(check) => Token::Checking(check),
                    Err(_) => Token::Failed,
                },
            )
        },
        Step::VersionChecked { token, valid, outcome } => {
            &&& 0 <= token < before.tokens.len()
            &&& before.tokens[token] is Checking
            &&& version_check_done(before.flag, valid, after.flag, outcome)
            &&& after.tokens == before.tokens.update(
                token,
                match outcome {
                    InitOutcome::Ready(context) => Token::Entry(context),
                    InitOutcome::ShutDown(_) => Token::Failed,
                },
            )
        },
        Step::Shutdown { token, after: context, native_shutdown } => {
            &&& 0 <= token < before.tokens.len()
            &&& before.tokens[token] matches Token::Entry(was)
            &&& shut_down(was, before.flag, context, after.flag, native_shutdown)
            &&& after.tokens == before.tokens.update(token, Token::Entry(context))
        },
    }
}

/// Whether `states` is a run of a process: it starts with a clear flag and no
/// start-up, and each state follows from the one before by `steps`.
pub open spec fn run(states: Seq<Process>, steps: Seq<Step>) -> bool {
    &&& states.len() == steps.len() + 1
    &&& !states[0].flag.is_set()
    &&& states[0].tokens.len() == 0
    &&& forall|k: int| 0 <= k < steps.len() ==> leads(states[k], #[trigger] steps[k], states[k + 1])
}

/// No step breaks single ownership.
pub proof fn lemma_step_keeps_single_owner(before: Process, step: Step, after: Process)
    requires
        single_owner(before),
        leads(before, step, after),
    ensures
        single_owner(after),
{
    match step {
        Step::Init { ty, claim } => {
            if before.flag.is_set() {
                let i = choose|i: int| holds(before, i);
                assert(holds(after, i));
                assert forall|i: int, j: int| holds(after, i) && holds(after, j) implies i
                    == j by {
                    assert(holds(before, i) && holds(before, j));
                }
            } else {
                let n = before.tokens.len() as int;
                assert(holds(after, n));
                assert forall|i: int, j: int| holds(after, i) && holds(after, j) implies i
                    == j by {
                    if i != n {
                        assert(holds(before, i));
                    }
                    if j != n {
                        assert(holds(before, j));
                    }
                }
            }
        },
        Step::InitReturned { token, code, r } => {
            assert(holds(before, token));
            lemma_owner_moves(before, token, after);
        },
        Step::VersionChecked { token, valid, outcome } => {
            assert(holds(before, token));
            lemma_owner_moves(before, token, after);
        },
        Step::Shutdown { token, after: context, native_shutdown } => {
            if holds(before, token) {
                lemma_owner_moves(before, token, after);
            } else {
                assert forall|i: int| holds(after, i) == holds(before, i) by {}
                if before.flag.is_set() {
                    let i = choose|i: int| holds(before, i);
                    assert(holds(after, i));
                }
                if after.flag.is_set() {
                    let i = choose|i: int| holds(after, i);
                    assert(holds(before, i));
                }
                assert forall|i: int, j: int| holds(after, i) && holds(after, j) implies i
                    == j by {
                    assert(holds(before, i) && holds(before, j));
                }
            }
        },
    }
}

/// Where the one owner takes a step that touches no other start-up, and the
/// flag afterwards says whether it still holds the runtime, single ownership
/// stays.
proof fn lemma_owner_moves(before: Process, token: int, after: Process)
    requires
        single_owner(before),
        holds(before, token),
        after.tokens.len() == before.tokens.len(),
        forall|i: int| 0 <= i < before.tokens.len() && i != token ==> after.tokens[i]
            == before.tokens[i],
        after.flag.is_set() == holds(after, token),
    ensures
        single_owner(after),
{
    assert forall|i: int| i != token implies !holds(after, i) by {
        if holds(after, i) {
            assert(holds(before, i));
        }
    }
    if after.flag.is_set() {
        assert(holds(after, token));
    }
    if exists|i: int| holds(after, i) {
        let i = choose|i: int| holds(after, i);
        assert(i == token);
    }
}

/// Every state of a run has a single owner.
pub proof fn lemma_run_keeps_single_owner(states: Seq<Process>, steps: Seq<Step>, k: int)
    requires
        run(states, steps),
        0 <= k < states.len(),
    ensures
        single_owner(states[k]),
    decreases k,
{
    if k == 0 {
        assert(forall|i: int| !holds(states[0], i));
    } else {
        lemma_run_keeps_single_owner(states, steps, k - 1);
        assert(leads(states[k - 1], steps[k - 1], states[k]));
        lemma_step_keeps_single_owner(states[k - 1], steps[k - 1], states[k]);
    }
}

/// At no point of a run are two `Context`s live.
pub proof fn lemma_at_most_one_live(states: Seq<Process>, steps: Seq<Step>)
    requires
        run(states, steps),
    ensures
        forall|k: int, i: int, j: int|
            0 <= k < states.len() && live(states[k], i) && live(states[k], j) ==> i == j,
{
    assert forall|k: int, i: int, j: int|
        0 <= k < states.len() && live(states[k], i) && live(states[k], j) implies i == j by {
        lemma_run_keeps_single_owner(states, steps, k);
        assert(holds(states[k], i) && holds(states[k], j));
    }
}

/// At a point of a run where a `Context` is live, or a start-up is under
/// way, `init` grants nothing: it reports that the runtime is initialized
/// already.
pub proof fn lemma_second_init_is_refused(
    states: Seq<Process>,
    steps: Seq<Step>,
    k: int,
    owner: int,
    ty: ApplicationType,
    after: InitFlag,
    claim: Claim,
)
    requires
        run(states, steps),
        0 <= k < states.len(),
        holds(states[k], owner),
        claimed(states[k].flag, ty, after, claim),
    ensures
        claim is AlreadyInitialized,
{
    lemma_run_keeps_single_owner(states, steps, k);
}

/// Calling `shutdown` again changes nothing: of any number of calls in a row
/// on one `Context`, only the first can ask for the native shutdown, and each
/// later one leaves the `Context` shut down and the flag as the first left it.
pub proof fn lemma_shutdown_is_idempotent(
    contexts: Seq<Context>,
    flags: Seq<InitFlag>,
    native_shutdowns: Seq<bool>,
)
    requires
        contexts.len() == native_shutdowns.len() + 1,
        flags.len() == native_shutdowns.len() + 1,
        forall|k: int|
            0 <= k < native_shutdowns.len() ==> shut_down(
                contexts[k],
                flags[k],
                contexts[k + 1],
                flags[k + 1],
                #[trigger] native_shutdowns[k],
            ),
    ensures
        forall|k: int|
            0 <= k < native_shutdowns.len() ==> #[trigger] native_shutdowns[k] == (k == 0
                && contexts[0].is_live()),
        forall|k: int| 1 <= k < contexts.len() ==> !(#[trigger] contexts[k]).is_live(),
        forall|k: int|
            1 <= k < flags.len() ==> (#[trigger] flags[k]).is_set() == flags[1].is_set(),
{
    assert forall|k: int| 1 <= k < contexts.len() implies !(#[trigger] contexts[k]).is_live() by {
        assert(shut_down(
            contexts[k - 1],
            flags[k - 1],
            contexts[k],
            flags[k],
            native_shutdowns[k - 1],
        ));
    }
    assert forall|k: int| 0 <= k < native_shutdowns.len() implies #[trigger] native_shutdowns[k]
        == (k == 0 && contexts[0].is_live()) by {
        assert(shut_down(
            contexts[k],
            flags[k],
            contexts[k + 1],
            flags[k + 1],
            native_shutdowns[k],
        ));
    }
    assert forall|k: int| 1 <= k < flags.len() implies (#[trigger] flags[k]).is_set()
        == flags[1].is_set() by {
        lemma_flag_rests(contexts, flags, native_shutdowns, k);
    }
}

proof fn lemma_flag_rests(
    contexts: Seq<Context>,
    flags: Seq<InitFlag>,
    native_shutdowns: Seq<bool>,
    k: int,
)
    requires
        contexts.len() == native_shutdowns.len() + 1,
        flags.len() == native_shutdowns.len() + 1,
        forall|k: int|
            0 <= k < native_shutdowns.len() ==> shut_down(
                contexts[k],
                flags[k],
                contexts[k + 1],
                flags[k + 1],
                #[trigger] native_shutdowns[k],
            ),
        1 <= k < flags.len(),
    ensures
        flags[k].is_set() == flags[1].is_set(),
    decreases k,
{
    if k > 1 {
        lemma_flag_rests(contexts, flags, native_shutdowns, k - 1);
        assert(shut_down(
            contexts[k - 2],
            flags[k - 2],
            contexts[k - 1],
            flags[k - 1],
            native_shutdowns[k - 2],
        ));
        assert(shut_down(
            contexts[k - 1],
            flags[k - 1],
            contexts[k],
            flags[k],
            native_shutdowns[k - 1],
        ));
    }
}

} // verus!
