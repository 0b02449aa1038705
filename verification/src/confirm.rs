//! The bounded confirmation wait: after a submission, the chain is polled
//! for a receipt a fixed number of times; the receipt's status flag is the
//! sole authority on the outcome, and a never-mined transaction surfaces a
//! timeout instead of looping forever.

use vstd::prelude::*;

use crate::errors::WalletError;

verus! {

/// What one receipt poll came back with: nothing yet, a mined receipt with
/// its status flag, or a transport failure.
#[derive(Clone, Copy, PartialEq, Eq, Structural, Debug)]
pub enum PollResponse {
    Pending,
    Mined { success: bool },
    TransportError,
}

/// The confirmation wait between polls: how many polls are still allowed.
#[derive(Clone, Copy, PartialEq, Eq, Structural, Debug)]
pub struct ConfirmState {
    pub remaining: u64,
}

/// What one step of the wait decides: keep polling, or stop with an
/// outcome.
#[derive(Clone, Copy, Debug)]
pub enum ConfirmStep {
    Continue(ConfirmState),
    Done(Result<(), WalletError>),
}

/// The outcome of a confirmation wait over a sequence of poll responses,
/// at most `bound` of which are looked at; polls past the end of the
/// sequence count as still pending.
pub open spec fn confirm_outcome(polls: Seq<PollResponse>, bound: nat) -> Result<(), WalletError>
    decreases bound,
{
    if bound == 0 {
        Err(WalletError::ConfirmationTimeout)
    } else {
        let head = if polls.len() > 0 {
            polls[0]
        } else {
            PollResponse::Pending
        };
        match head {
            PollResponse::Mined { success } => if success {
                Ok(())
            } else {
                Err(WalletError::ExecutionReverted)
            },
            PollResponse::TransportError => Err(WalletError::TransportFailure),
            PollResponse::Pending => {
                let rest = if polls.len() > 0 {
                    polls.drop_first()
                } else {
                    polls
                };
                confirm_outcome(rest, (bound - 1) as nat)
            },
        }
    }
}

/// One step of the wait, fed the response of the poll it just made: a
/// successful receipt confirms, a failed one is `ExecutionReverted`, a
/// transport failure surfaces as such, and with no poll left a pending
/// answer is `ConfirmationTimeout`.
pub fn confirm_step(state: ConfirmState, response: PollResponse) -> (r: ConfirmStep)
    ensures
        state.remaining == 0 ==> r == ConfirmStep::Done(
            Err::<(), WalletError>(WalletError::ConfirmationTimeout),
        ),
        state.remaining > 0 ==> match response {
            PollResponse::Mined { success } => if success {
                r == ConfirmStep::Done(Ok::<(), WalletError>(()))
            } else {
                r == ConfirmStep::Done(Err::<(), WalletError>(WalletError::ExecutionReverted))
            },
            PollResponse::TransportError => r == ConfirmStep::Done(
                Err::<(), WalletError>(WalletError::TransportFailure),
            ),
            PollResponse::Pending => r == ConfirmStep::Continue(
                ConfirmState { remaining: (state.remaining - 1) as u64 },
            ),
        },
{
    if state.remaining == 0 {
        return ConfirmStep::Done(Err(WalletError::ConfirmationTimeout));
    }
    match response {
        PollResponse::Mined { success } => if success {
            ConfirmStep::Done(Ok(()))
        } else {
            ConfirmStep::Done(Err(WalletError::ExecutionReverted))
        },
        PollResponse::TransportError => ConfirmStep::Done(Err(WalletError::TransportFailure)),
        PollResponse::Pending => ConfirmStep::Continue(
            ConfirmState { remaining: state.remaining - 1 },
        ),
    }
}

/// Run the whole wait against a recorded sequence of poll responses, as a
/// test harness or a replay does; responses past the end of the sequence
/// count as still pending.
pub fn run_confirmation(polls: &Vec<PollResponse>, max_polls: u64) -> (r: Result<(), WalletError>)
    ensures
        r == confirm_outcome(polls@, max_polls as nat),
{
    let mut st = ConfirmState { remaining: max_polls };
    let mut i: usize = 0;
    proof {
        assert(polls@.skip(0) =~= polls@);
    }
    loop
        invariant
            i <= polls@.len(),
            confirm_outcome(polls@, max_polls as nat) == confirm_outcome(
                polls@.skip(i as int),
                st.remaining as nat,
            ),
        decreases st.remaining,
    {
        let response = if i < polls.len() {
            polls[i]
        } else {
            PollResponse::Pending
        };
        proof {
            if polls@.skip(i as int).len() > 0 {
                assert(polls@.skip(i as int)[0] == polls@[i as int]);
                assert(polls@.skip(i as int).drop_first() =~= polls@.skip(i + 1));
            }
        }
        match confirm_step(st, response) {
            ConfirmStep::Done(r) => {
                return r;
            },
            ConfirmStep::Continue(next) => {
                st = next;
                if i < polls.len() {
                    i = i + 1;
                }
            },
        }
    }
}

/// A receipt that reports failure status yields `ExecutionReverted`, never
/// a successful outcome: if the first response that is not still pending is
/// a failed receipt, and it arrives within the bound, the wait ends there.
pub proof fn lemma_failed_receipt_reverts(polls: Seq<PollResponse>, bound: nat, k: int)
    requires
        0 <= k < polls.len(),
        k < bound,
        polls[k] == (PollResponse::Mined { success: false }),
        forall|j: int| 0 <= j < k ==> polls[j] == PollResponse::Pending,
    ensures
        confirm_outcome(polls, bound) == Err::<(), WalletError>(WalletError::ExecutionReverted),
    decreases k,
{
    if k > 0 {
        lemma_failed_receipt_reverts(polls.drop_first(), (bound - 1) as nat, k - 1);
    }
}

/// A chain that never hands back a receipt ends the wait in
/// `ConfirmationTimeout` after exactly the configured number of polls,
/// rather than looping forever.
pub proof fn lemma_no_receipt_times_out(polls: Seq<PollResponse>, bound: nat)
    requires
        forall|j: int| 0 <= j < polls.len() ==> polls[j] == PollResponse::Pending,
    ensures
        confirm_outcome(polls, bound) == Err::<(), WalletError>(WalletError::ConfirmationTimeout),
    decreases bound,
{
    if bound > 0 {
        if polls.len() > 0 {
            lemma_no_receipt_times_out(polls.drop_first(), (bound - 1) as nat);
        } else {
            lemma_no_receipt_times_out(polls, (bound - 1) as nat);
        }
    }
}

} // verus!
