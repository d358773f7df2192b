use crate::error::PrereqError;
use vstd::prelude::*;

verus! {

/// Where a submission stands.
#[derive(Clone, Copy, Debug, PartialEq, Eq, Structural)]
pub enum Stage {
    /// Enrollment only: waiting to learn whether the derived account has data.
    CheckingAccount,
    /// Enrollment only: the account is absent, the instruction is being built.
    Building,
    /// The instruction set is final; a recent state token is wanted.
    Built,
    StateFetched,
    Signed,
    Submitted,
    Confirmed,
    Unconfirmed,
    Rejected,
    /// Enrollment only: the derived account already has data; nothing is sent.
    AlreadyComplete,
    Failed,
}

/// What the caller reports after performing the last action.
#[derive(Clone, Copy, Debug, PartialEq, Eq, Structural)]
pub enum Event {
    AccountChecked { exists: bool },
    InstructionBuilt,
    StateReceived,
    SignatureMade,
    SubmitAccepted,
    SubmitFailed { rejected: bool },
    Confirmation { confirmed: bool },
    /// A ledger call failed outright.
    CallFailed,
}

/// What the caller is asked to do next.
#[derive(Clone, Copy, Debug, PartialEq, Eq, Structural)]
pub enum Action {
    CheckAccount,
    BuildInstruction,
    FetchState,
    Sign,
    Submit,
    Confirm,
    Finish,
    Abort(PrereqError),
    /// The event does not apply to the current stage; nothing to do.
    Idle,
}

/// A submission in progress, and whether it waits for confirmation.
#[derive(Clone, Copy, Debug, PartialEq, Eq, Structural)]
pub struct Submission {
    pub stage: Stage,
    pub confirm: bool,
}

/// Whether no event moves the submission any further.
pub open spec fn is_terminal(s: Submission) -> bool {
    match s.stage {
        Stage::Confirmed | Stage::Unconfirmed | Stage::Rejected | Stage::AlreadyComplete | Stage::Failed => true,
        Stage::Submitted => !s.confirm,
        _ => false,
    }
}

/// The first stage and action: enrollment looks for the derived account first,
/// a transfer goes straight to fetching a state token.
pub open spec fn start_spec(enrollment: bool, confirm: bool) -> (Submission, Action) {
    if enrollment {
        (Submission { stage: Stage::CheckingAccount, confirm }, Action::CheckAccount)
    } else {
        (Submission { stage: Stage::Built, confirm }, Action::FetchState)
    }
}

/// One transition: the next submission and the action it asks for.
pub open spec fn step_spec(s: Submission, e: Event) -> (Submission, Action) {
    let to = |stage: Stage| Submission { stage, confirm: s.confirm };
    if is_terminal(s) {
        (s, Action::Idle)
    } else {
        match e {
            Event::CallFailed => if s.stage == Stage::Submitted {
                (to(Stage::Unconfirmed), Action::Abort(PrereqError::Unconfirmed))
            } else {
                (to(Stage::Failed), Action::Abort(PrereqError::Network))
            },
            Event::AccountChecked { exists } => if s.stage == Stage::CheckingAccount {
                if exists {
                    (to(Stage::AlreadyComplete), Action::Finish)
                } else {
                    (to(Stage::Building), Action::BuildInstruction)
                }
            } else {
                (s, Action::Idle)
            },
            Event::InstructionBuilt => if s.stage == Stage::Building {
                (to(Stage::Built), Action::FetchState)
            } else {
                (s, Action::Idle)
            },
            Event::StateReceived => if s.stage == Stage::Built {
                (to(Stage::StateFetched), Action::Sign)
            } else {
                (s, Action::Idle)
            },
            Event::SignatureMade => if s.stage == Stage::StateFetched {
                (to(Stage::Signed), Action::Submit)
            } else {
                (s, Action::Idle)
            },
            Event::SubmitAccepted => if s.stage == Stage::Signed {
                if s.confirm {
                    (to(Stage::Submitted), Action::Confirm)
                } else {
                    (to(Stage::Submitted), Action::Finish)
                }
            } else {
                (s, Action::Idle)
            },
            Event::SubmitFailed { rejected } => if s.stage == Stage::Signed {
                if rejected {
                    (to(Stage::Rejected), Action::Abort(PrereqError::RemoteRejection))
                } else {
                    (to(Stage::Failed), Action::Abort(PrereqError::Network))
                }
            } else {
                (s, Action::Idle)
            },
            Event::Confirmation { confirmed } => if s.stage == Stage::Submitted {
                if confirmed {
                    (to(Stage::Confirmed), Action::Finish)
                } else {
                    (to(Stage::Unconfirmed), Action::Abort(PrereqError::Unconfirmed))
                }
            } else {
                (s, Action::Idle)
            },
        }
    }
}

/// The actions that a run of events asks for, from `s` on.
pub open spec fn run(s: Submission, events: Seq<Event>) -> Seq<Action>
    decreases events.len(),
{
    if events.len() == 0 {
        Seq::empty()
    } else {
        seq![step_spec(s, events[0]).1] + run(step_spec(s, events[0]).0, events.drop_first())
    }
}

/// Every action asked for, the first one included.
pub open spec fn trace(enrollment: bool, confirm: bool, events: Seq<Event>) -> Seq<Action> {
    seq![start_spec(enrollment, confirm).1] + run(start_spec(enrollment, confirm).0, events)
}

/// Begins a submission.
pub fn start(enrollment: bool, confirm: bool) -> (r: (Submission, Action))
    ensures
        r == start_spec(enrollment, confirm),
{
    if enrollment {
        (Submission { stage: Stage::CheckingAccount, confirm }, Action::CheckAccount)
    } else {
        (Submission { stage: Stage::Built, confirm }, Action::FetchState)
    }
}

fn terminal(s: &Submission) -> (r: bool)
    ensures
        r == is_terminal(*s),
{
    match s.stage {
        Stage::Confirmed | Stage::Unconfirmed | Stage::Rejected | Stage::AlreadyComplete | Stage::Failed => true,
        Stage::Submitted => !s.confirm,
        _ => false,
    }
}

/// Advances a submission by the caller's report of what happened.
pub fn step(s: Submission, e: Event) -> (r: (Submission, Action))
    ensures
        r == step_spec(s, e),
{
    if terminal(&s) {
        return (s, Action::Idle);
    }
    let confirm = s.confirm;
    match e {
        Event::CallFailed => if s.stage == Stage::Submitted {
            (Submission { stage: Stage::Unconfirmed, confirm }, Action::Abort(PrereqError::Unconfirmed))
        } else {
            (Submission { stage: Stage::Failed, confirm }, Action::Abort(PrereqError::Network))
        },
        Event::AccountChecked { exists } => if s.stage == Stage::CheckingAccount {
            if exists {
                (Submission { stage: Stage::AlreadyComplete, confirm }, Action::Finish)
            } else {
                (Submission { stage: Stage::Building, confirm }, Action::BuildInstruction)
            }
        } else {
            (s, Action::Idle)
        },
        Event::InstructionBuilt => if s.stage == Stage::Building {
            (Submission { stage: Stage::Built, confirm }, Action::FetchState)
        } else {
            (s, Action::Idle)
        },
        Event::StateReceived => if s.stage == Stage::Built {
            (Submission { stage: Stage::StateFetched, confirm }, Action::Sign)
        } else {
            (s, Action::Idle)
        },
        Event::SignatureMade => if s.stage == Stage::StateFetched {
            (Submission { stage: Stage::Signed, confirm }, Action::Submit)
        } else {
            (s, Action::Idle)
        },
        Event::SubmitAccepted => if s.stage == Stage::Signed {
            if confirm {
                (Submission { stage: Stage::Submitted, confirm }, Action::Confirm)
            } else {
                (Submission { stage: Stage::Submitted, confirm }, Action::Finish)
            }
        } else {
            (s, Action::Idle)
        },
        Event::SubmitFailed { rejected } => if s.stage == Stage::Signed {
            if rejected {
                (Submission { stage: Stage::Rejected, confirm }, Action::Abort(PrereqError::RemoteRejection))
            } else {
                (Submission { stage: Stage::Failed, confirm }, Action::Abort(PrereqError::Network))
            }
        } else {
            (s, Action::Idle)
        },
        Event::Confirmation { confirmed } => if s.stage == Stage::Submitted {
            if confirmed {
                (Submission { stage: Stage::Confirmed, confirm }, Action::Finish)
            } else {
                (Submission { stage: Stage::Unconfirmed, confirm }, Action::Abort(PrereqError::Unconfirmed))
            }
        } else {
            (s, Action::Idle)
        },
    }
}

/// From a terminal submission every event is ignored.
proof fn lemma_terminal_idle(s: Submission, events: Seq<Event>)
    requires
        is_terminal(s),
    ensures
        forall|i: int| 0 <= i < run(s, events).len() ==> run(s, events)[i] == Action::Idle,
        run(s, events).len() == events.len(),
    decreases events.len(),
{
    if events.len() > 0 {
        lemma_terminal_idle(s, events.drop_first());
    }
}

/// Enrollment is idempotent: once the derived account is found to hold data,
/// no event whatever leads to a submission.
pub proof fn lemma_enrolled_never_submits(confirm: bool, events: Seq<Event>)
    requires
        events.len() > 0,
        events[0] == (Event::AccountChecked { exists: true }),
    ensures
        forall|i: int| 0 <= i < trace(true, confirm, events).len() ==> trace(true, confirm, events)[i] != Action::Submit,
{
    let s0 = start_spec(true, confirm).0;
    let s1 = step_spec(s0, events[0]).0;
    assert(s1.stage == Stage::AlreadyComplete);
    lemma_terminal_idle(s1, events.drop_first());
    let t = trace(true, confirm, events);
    assert(t =~= seq![Action::CheckAccount, Action::Finish] + run(s1, events.drop_first()));
    assert forall|i: int| 0 <= i < t.len() implies t[i] != Action::Submit by {
        if i >= 2 {
            assert(t[i] == run(s1, events.drop_first())[i - 2]);
        }
    }
}

pub open spec fn has_fetch_before(t: Seq<Action>, i: int) -> bool {
    exists|j: int| 0 <= j < i && t[j] == Action::FetchState
}

/// Every `Sign` in `t` comes after some `FetchState`.
pub open spec fn signs_after_fetch(t: Seq<Action>) -> bool {
    forall|i: int| 0 <= i < t.len() && t[i] == Action::Sign ==> #[trigger] has_fetch_before(t, i)
}

proof fn lemma_fetch_before_extend(t: Seq<Action>, a: Action, i: int)
    requires
        has_fetch_before(t, i),
        i <= t.len(),
    ensures
        has_fetch_before(t.push(a), i),
{
    let j = choose|j: int| 0 <= j < i && t[j] == Action::FetchState;
    assert(t.push(a)[j] == Action::FetchState);
}

proof fn lemma_signs_after_fetch_run(s: Submission, events: Seq<Event>, prefix: Seq<Action>)
    requires
        signs_after_fetch(prefix),
        s.stage == Stage::Built ==> has_fetch_before(prefix, prefix.len() as int),
    ensures
        signs_after_fetch(prefix + run(s, events)),
    decreases events.len(),
{
    if events.len() == 0 {
        assert(prefix + run(s, events) =~= prefix);
    } else {
        let (n, a) = step_spec(s, events[0]);
        let extended = prefix.push(a);
        assert forall|i: int| 0 <= i < extended.len() && extended[i] == Action::Sign implies #[trigger] has_fetch_before(extended, i) by {
            if i < prefix.len() {
                assert(prefix[i] == Action::Sign);
                assert(has_fetch_before(prefix, i));
                lemma_fetch_before_extend(prefix, a, i);
            } else {
                assert(s.stage == Stage::Built);
                lemma_fetch_before_extend(prefix, a, prefix.len() as int);
            }
        }
        if n.stage == Stage::Built {
            if s.stage == Stage::Built {
                lemma_fetch_before_extend(prefix, a, prefix.len() as int);
                let j = choose|j: int| 0 <= j < prefix.len() && extended[j] == Action::FetchState;
                assert(0 <= j < extended.len() && extended[j] == Action::FetchState);
            } else {
                assert(extended[prefix.len() as int] == Action::FetchState);
            }
        }
        lemma_signs_after_fetch_run(n, events.drop_first(), extended);
        assert(prefix + run(s, events) =~= extended + run(n, events.drop_first()));
    }
}

/// Ordering: the state token is always asked for before a signature, whatever
/// the events reported.
pub proof fn lemma_fetch_before_sign(enrollment: bool, confirm: bool, events: Seq<Event>)
    ensures
        signs_after_fetch(trace(enrollment, confirm, events)),
{
    let (s, a) = start_spec(enrollment, confirm);
    let p = seq![a];
    if s.stage == Stage::Built {
        assert(p[0] == Action::FetchState);
        assert(has_fetch_before(p, 1));
    }
    lemma_signs_after_fetch_run(s, events, p);
}

} // verus!
