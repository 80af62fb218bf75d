use vstd::prelude::*;

verus! {

/// What a caller asks of a lazily initialized state machine.
#[derive(Clone, Copy, Debug, PartialEq, Eq, Structural)]
pub enum Request {
    /// Run the entry actions into the initial state, unless that already happened.
    Init,
    /// Handle an event (a step is the handling of the unit event).
    Handle,
}

/// A piece of asynchronous work that the caller performs on the machine's
/// storage and state on the machine's behalf.
#[derive(Clone, Copy, Debug, PartialEq, Eq, Structural)]
pub enum Work {
    /// Execute the entry actions into the initial state.
    Init,
    /// Dispatch the event to the current state.
    Handle,
}

/// The first piece of work a request needs, given whether the machine is initialized.
pub open spec fn first_work(initialized: bool, request: Request) -> Option<Work> {
    if !initialized {
        Some(Work::Init)
    } else {
        match request {
            Request::Init => None,
            Request::Handle => Some(Work::Handle),
        }
    }
}

/// The work that follows once `done` has completed for `request`.
pub open spec fn work_after(request: Request, done: Work) -> Option<Work> {
    match (done, request) {
        (Work::Init, Request::Handle) => Some(Work::Handle),
        _ => None,
    }
}

/// Whether the machine is initialized once `done` has completed.
pub open spec fn flag_after(initialized: bool, done: Work) -> bool {
    initialized || done is Init
}

/// All the work a request performs, in order.
pub open spec fn plan(initialized: bool, request: Request) -> Seq<Work> {
    let entry: Seq<Work> = if initialized { seq![] } else { seq![Work::Init] };
    let dispatch: Seq<Work> = match request {
        Request::Init => seq![],
        Request::Handle => seq![Work::Handle],
    };
    entry + dispatch
}

/// The work performed, and the final flag, when a caller starts from `next`
/// and, after each piece of work, asks for the following one, for at most
/// `rounds` pieces.
pub open spec fn run(initialized: bool, request: Request, next: Option<Work>, rounds: nat) -> (
    Seq<Work>,
    bool,
)
    decreases rounds,
{
    if rounds == 0 {
        (seq![], initialized)
    } else {
        match next {
            None => (seq![], initialized),
            Some(w) => {
                let (rest, flag) = run(
                    flag_after(initialized, w),
                    request,
                    work_after(request, w),
                    (rounds - 1) as nat,
                );
                (seq![w] + rest, flag)
            },
        }
    }
}

/// The work that a series of requests performs, one after the other, on a
/// machine that starts with the given flag; each request runs until no work
/// follows.
pub open spec fn history(initialized: bool, requests: Seq<Request>) -> Seq<Work>
    decreases requests.len(),
{
    if requests.len() == 0 {
        seq![]
    } else {
        let (work, flag) = run(initialized, requests[0], first_work(initialized, requests[0]), 2);
        work + history(flag, requests.drop_first())
    }
}

/// One event dispatch for each request that handles an event, in order.
pub open spec fn dispatches(requests: Seq<Request>) -> Seq<Work>
    decreases requests.len(),
{
    if requests.len() == 0 {
        seq![]
    } else {
        let own: Seq<Work> = match requests[0] {
            Request::Init => seq![],
            Request::Handle => seq![Work::Handle],
        };
        own + dispatches(requests.drop_first())
    }
}

/// A request performs exactly its plan: the entry actions first if the
/// machine was not initialized, then the event dispatch if it handles an
/// event. It needs at most two pieces of work, whatever number of rounds a
/// caller allows beyond that, and it always leaves the machine initialized.
pub proof fn lemma_request_follows_plan(initialized: bool, request: Request, rounds: nat)
    requires
        rounds >= 2,
    ensures
        run(initialized, request, first_work(initialized, request), rounds) == (
            plan(initialized, request),
            true,
        ),
{
    reveal_with_fuel(run, 3);
    let r1 = (rounds - 1) as nat;
    let r2 = (rounds - 2) as nat;
    if !initialized {
        match request {
            Request::Init => {
                assert(run(true, request, None, r1) == (Seq::<Work>::empty(), true));
                assert(seq![Work::Init] + Seq::<Work>::empty() =~= plan(initialized, request));
            },
            Request::Handle => {
                assert(run(true, request, None, r2) == (Seq::<Work>::empty(), true));
                assert(run(true, request, Some(Work::Handle), r1) == (
                    seq![Work::Handle] + Seq::<Work>::empty(),
                    true,
                ));
                assert(seq![Work::Init] + (seq![Work::Handle] + Seq::<Work>::empty()) =~= plan(
                    initialized,
                    request,
                ));
            },
        }
    } else {
        match request {
            Request::Init => {
                assert(Seq::<Work>::empty() =~= plan(initialized, request));
            },
            Request::Handle => {
                assert(run(true, request, None, r1) == (Seq::<Work>::empty(), true));
                assert(seq![Work::Handle] + Seq::<Work>::empty() =~= plan(initialized, request));
            },
        }
    }
}

/// Explicit initialization of a machine that is already initialized is a
/// no-op: it performs no work and the machine stays initialized.
pub proof fn lemma_init_when_initialized_is_noop(rounds: nat)
    ensures
        run(true, Request::Init, first_work(true, Request::Init), rounds) == (
            Seq::<Work>::empty(),
            true,
        ),
{
    reveal_with_fuel(run, 2);
}

/// Once initialized, a machine stays initialized whatever work completes.
pub proof fn lemma_initialized_stays(done: Work)
    ensures
        flag_after(true, done),
{
}

/// Over any series of requests, the entry actions run exactly once, before
/// anything else, on a machine that starts uninitialized (and never on one
/// that starts initialized), and every request that handles an event
/// dispatches it exactly once, in order.
pub proof fn lemma_history(initialized: bool, requests: Seq<Request>)
    ensures
        history(initialized, requests) == if initialized || requests.len() == 0 {
            dispatches(requests)
        } else {
            seq![Work::Init] + dispatches(requests)
        },
    decreases requests.len(),
{
    if requests.len() > 0 {
        let r = requests[0];
        let rest = requests.drop_first();
        lemma_request_follows_plan(initialized, r, 2);
        lemma_history(true, rest);
        let own: Seq<Work> = match r {
            Request::Init => seq![],
            Request::Handle => seq![Work::Handle],
        };
        assert(dispatches(requests) == own + dispatches(rest));
        if initialized {
            assert(plan(initialized, r) =~= own);
        } else {
            assert(plan(initialized, r) =~= seq![Work::Init] + own);
            assert((seq![Work::Init] + own) + dispatches(rest) =~= seq![Work::Init] + (own
                + dispatches(rest)));
        }
    }
}

} // verus!
