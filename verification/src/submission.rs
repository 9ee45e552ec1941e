//! The node submission pipeline, as a state machine: the caller sends the
//! bytes and hands back what the node answered; the machine classifies the
//! answer and decides whether, where and after what delay to try again.

use vstd::prelude::*;

verus! {

/// The precheck code with which a node accepts a transaction.
pub const STATUS_OK: i32 = 0;

/// The precheck code of a node that is too busy to take the transaction.
pub const STATUS_BUSY: i32 = 12;

/// The precheck code of a node whose platform is not active.
pub const STATUS_PLATFORM_NOT_ACTIVE: i32 = 67;

/// The precheck code of a node whose platform could not create the transaction.
pub const STATUS_PLATFORM_TRANSACTION_NOT_CREATED: i32 = 69;

/// What came back from one attempt to submit.
#[derive(Clone, Copy, Debug, PartialEq, Eq)]
pub enum NodeResponse {
    /// The node answered with this precheck code.
    Precheck { status: i32 },
    /// The call did not reach the node, or its answer did not arrive.
    TransportFailure,
}

/// The four classes of answers.
#[derive(Clone, Copy, Debug, PartialEq, Eq)]
pub enum Classification {
    /// The node took the transaction.
    Accepted,
    /// The node is busy or unavailable: another attempt may succeed.
    Busy,
    /// The network refuses the transaction: no attempt with the same
    /// identifier can succeed.
    Rejected,
    /// The transport failed: another node may be reachable.
    TransportFailure,
}

/// The class of an answer.
pub open spec fn spec_classify(response: NodeResponse) -> Classification {
    match response {
        NodeResponse::TransportFailure => Classification::TransportFailure,
        NodeResponse::Precheck { status } => if status == STATUS_OK {
            Classification::Accepted
        } else if status == STATUS_BUSY || status == STATUS_PLATFORM_NOT_ACTIVE || status
            == STATUS_PLATFORM_TRANSACTION_NOT_CREATED {
            Classification::Busy
        } else {
            Classification::Rejected
        },
    }
}

/// Whether another attempt may follow an answer.
pub open spec fn is_retryable(response: NodeResponse) -> bool {
    spec_classify(response) == Classification::Busy || spec_classify(response)
        == Classification::TransportFailure
}

/// Classifies an answer.
pub fn classify(response: NodeResponse) -> (c: Classification)
    ensures
        c == spec_classify(response),
{
    match response {
        NodeResponse::TransportFailure => Classification::TransportFailure,
        NodeResponse::Precheck { status } => {
            if status == STATUS_OK {
                Classification::Accepted
            } else if status == STATUS_BUSY || status == STATUS_PLATFORM_NOT_ACTIVE || status
                == STATUS_PLATFORM_TRANSACTION_NOT_CREATED {
                Classification::Busy
            } else {
                Classification::Rejected
            }
        },
    }
}

/// One failed attempt.
#[derive(Clone, Copy, Debug, PartialEq, Eq)]
pub struct NodeFailure {
    /// The position of the node in the candidate list.
    pub node_index: usize,
    /// The number of the attempt, from 0.
    pub attempt: usize,
    /// What the attempt gave.
    pub response: NodeResponse,
}

/// A submission that is about to make its next attempt.
#[derive(Debug)]
pub struct Submission {
    /// The number of candidate nodes.
    pub node_count: usize,
    /// The number of attempts after which the submission gives up.
    pub max_attempts: usize,
    /// The delays, in milliseconds, before the second, third, ... attempt; the
    /// last entry serves every later attempt.
    pub backoff: Vec<u64>,
    /// The attempts that failed so far, in the order in which they were made.
    pub failures: Vec<NodeFailure>,
}

/// The state of a submission, as plain values.
pub struct SubmissionView {
    pub node_count: int,
    pub max_attempts: int,
    pub backoff: Seq<u64>,
    pub failures: Seq<NodeFailure>,
}

/// What the machine decides after an answer.
#[derive(Debug)]
pub enum Step {
    /// Wait `delay_ms` milliseconds, then make the next attempt of `submission`.
    Retry { submission: Submission, delay_ms: u64 },
    /// The node at `node_index` took the transaction at attempt `attempt`.
    Accepted { node_index: usize, attempt: usize },
    /// The network refused the transaction with `status`.
    Rejected { status: i32, node_index: usize, attempt: usize },
    /// Every attempt failed; `failures` holds them all, in attempt order.
    Exhausted { failures: Vec<NodeFailure> },
}

/// A step, as plain values.
pub enum StepView {
    Retry { submission: SubmissionView, delay_ms: u64 },
    Accepted { node_index: usize, attempt: usize },
    Rejected { status: i32, node_index: usize, attempt: usize },
    Exhausted { failures: Seq<NodeFailure> },
}

impl Step {
    pub open spec fn view(&self) -> StepView {
        match *self {
            Step::Retry { submission, delay_ms } => StepView::Retry {
                submission: submission@,
                delay_ms,
            },
            Step::Accepted { node_index, attempt } => StepView::Accepted { node_index, attempt },
            Step::Rejected { status, node_index, attempt } => StepView::Rejected {
                status,
                node_index,
                attempt,
            },
            Step::Exhausted { failures } => StepView::Exhausted { failures: failures@ },
        }
    }
}

impl SubmissionView {
    /// The number of the attempt that comes next, from 0.
    pub open spec fn attempt(&self) -> int {
        self.failures.len() as int
    }

    /// The node that the next attempt goes to: the candidates are taken in
    /// turn, and after the last comes the first again.
    pub open spec fn node_index(&self) -> int {
        self.attempt() % self.node_count
    }

    /// A submission has a node to go to, an attempt left, and one failure on
    /// record for each attempt made, each with its number and its node.
    pub open spec fn wf(&self) -> bool {
        &&& 0 < self.node_count <= usize::MAX
        &&& self.attempt() < self.max_attempts <= usize::MAX
        &&& forall|i: int|
            0 <= i < self.failures.len() ==> {
                &&& (#[trigger] self.failures[i]).attempt == i
                &&& self.failures[i].node_index == i % self.node_count
                &&& is_retryable(self.failures[i].response)
            }
    }

    /// The delay before attempt number `attempt` (which is at least 1).
    pub open spec fn delay_before(&self, attempt: int) -> u64 {
        if self.backoff.len() == 0 {
            0
        } else if attempt - 1 < self.backoff.len() {
            self.backoff[attempt - 1]
        } else {
            self.backoff.last()
        }
    }

    /// The failure that is put on record when the next attempt gives `response`.
    pub open spec fn failure(&self, response: NodeResponse) -> NodeFailure {
        NodeFailure {
            node_index: self.node_index() as usize,
            attempt: self.attempt() as usize,
            response,
        }
    }

    /// What the machine decides when the next attempt gives `response`.
    pub open spec fn step(&self, response: NodeResponse) -> StepView {
        match spec_classify(response) {
            Classification::Accepted => StepView::Accepted {
                node_index: self.node_index() as usize,
                attempt: self.attempt() as usize,
            },
            Classification::Rejected => StepView::Rejected {
                status: response->status,
                node_index: self.node_index() as usize,
                attempt: self.attempt() as usize,
            },
            _ => {
                let failures = self.failures.push(self.failure(response));
                if self.attempt() + 1 == self.max_attempts {
                    StepView::Exhausted { failures }
                } else {
                    StepView::Retry {
                        submission: SubmissionView { failures, ..*self },
                        delay_ms: self.delay_before(self.attempt() + 1),
                    }
                }
            },
        }
    }

    /// What the machine decides after the answers `responses`, given one after
    /// the other for as long as it retries; `None` while it still waits for
    /// another answer.
    pub open spec fn run(&self, responses: Seq<NodeResponse>) -> Option<StepView>
        decreases responses.len(),
    {
        if responses.len() == 0 {
            None
        } else {
            match self.step(responses[0]) {
                StepView::Retry { submission, delay_ms } => submission.run(responses.skip(1)),
                done => Some(done),
            }
        }
    }
}

/// The failures that a fresh submission over `node_count` nodes records for
/// `responses`: one for each answer, with the number of its attempt and the
/// node that the attempt went to.
pub open spec fn failures_of(responses: Seq<NodeResponse>, node_count: int) -> Seq<NodeFailure> {
    Seq::new(
        responses.len(),
        |i: int|
            NodeFailure {
                node_index: (i % node_count) as usize,
                attempt: i as usize,
                response: responses[i],
            },
    )
}

/// A submission whose every attempt fails in a way that allows another gives
/// up exactly at the attempt that `max_attempts` names, not before, and then
/// reports the failure of every attempt, in the order of the attempts.
pub proof fn lemma_exhausts_at_max_attempts(s: SubmissionView, responses: Seq<NodeResponse>)
    requires
        s.wf(),
        s.failures.len() == 0,
        responses.len() <= s.max_attempts,
        forall|i: int| 0 <= i < responses.len() ==> is_retryable(#[trigger] responses[i]),
    ensures
        responses.len() < s.max_attempts ==> s.run(responses) is None,
        responses.len() == s.max_attempts ==> s.run(responses) == Some(
            StepView::Exhausted { failures: failures_of(responses, s.node_count) },
        ),
{
    assert(responses.subrange(0, responses.len() as int) =~= responses);
    assert(s.failures =~= failures_of(responses.subrange(0, 0), s.node_count));
    lemma_run_appends(s, responses, responses);
}

/// The inductive form of [`lemma_exhausts_at_max_attempts`]: `s` has already
/// recorded the first answers of `all`, and `rest` holds those still to come.
proof fn lemma_run_appends(s: SubmissionView, all: Seq<NodeResponse>, rest: Seq<NodeResponse>)
    requires
        s.wf(),
        all.len() <= s.max_attempts,
        s.failures.len() + rest.len() == all.len(),
        rest == all.subrange(s.failures.len() as int, all.len() as int),
        s.failures == failures_of(all.subrange(0, s.failures.len() as int), s.node_count),
        forall|i: int| 0 <= i < all.len() ==> is_retryable(#[trigger] all[i]),
    ensures
        all.len() < s.max_attempts ==> s.run(rest) is None,
        all.len() == s.max_attempts ==> rest.len() > 0 && s.run(rest) == Some(
            StepView::Exhausted { failures: failures_of(all, s.node_count) },
        ),
    decreases rest.len(),
{
    if rest.len() > 0 {
        let n = s.failures.len() as int;
        assert(rest[0] == all[n]);
        assert(is_retryable(all[n]));
        let failures = s.failures.push(s.failure(rest[0]));
        assert(failures =~= failures_of(all.subrange(0, n + 1), s.node_count));
        if n + 1 == s.max_attempts {
            assert(all.subrange(0, n + 1) =~= all);
        } else {
            let next = SubmissionView { failures, ..s };
            assert(rest.skip(1) =~= all.subrange(n + 1, all.len() as int));
            lemma_run_appends(next, all, rest.skip(1));
        }
    }
}

/// The step that ends a submission when attempt number `attempt`, made at
/// the node at `node_index`, is answered with `response`, an answer that
/// allows no further attempt: acceptance, or rejection with the node's code.
pub open spec fn final_step(response: NodeResponse, node_index: int, attempt: int) -> StepView {
    match spec_classify(response) {
        Classification::Accepted => StepView::Accepted {
            node_index: node_index as usize,
            attempt: attempt as usize,
        },
        _ => StepView::Rejected {
            status: response->status,
            node_index: node_index as usize,
            attempt: attempt as usize,
        },
    }
}

/// A submission whose attempts fail in a way that allows another until one
/// is accepted or rejected ends with that answer, at the attempt that got
/// it and at the node that the attempt went to; the failures before it are
/// not reported.
pub proof fn lemma_ends_at_first_final_answer(s: SubmissionView, responses: Seq<NodeResponse>)
    requires
        s.wf(),
        s.failures.len() == 0,
        0 < responses.len() <= s.max_attempts,
        forall|i: int| 0 <= i < responses.len() - 1 ==> is_retryable(#[trigger] responses[i]),
        !is_retryable(responses.last()),
    ensures
        s.run(responses) == Some(
            final_step(
                responses.last(),
                (responses.len() - 1) % s.node_count,
                responses.len() - 1,
            ),
        ),
{
    assert(responses.subrange(0, responses.len() as int) =~= responses);
    lemma_run_reaches_final_answer(s, responses, responses);
}

/// The inductive form of [`lemma_ends_at_first_final_answer`]: `s` has
/// already recorded the first answers of `all`, and `rest` holds those still
/// to come.
proof fn lemma_run_reaches_final_answer(
    s: SubmissionView,
    all: Seq<NodeResponse>,
    rest: Seq<NodeResponse>,
)
    requires
        s.wf(),
        s.failures.len() < all.len() <= s.max_attempts,
        rest == all.subrange(s.failures.len() as int, all.len() as int),
        forall|i: int| 0 <= i < all.len() - 1 ==> is_retryable(#[trigger] all[i]),
        !is_retryable(all.last()),
    ensures
        s.run(rest) == Some(
            final_step(all.last(), (all.len() - 1) % s.node_count, all.len() - 1),
        ),
    decreases rest.len(),
{
    let n = s.failures.len() as int;
    assert(rest[0] == all[n]);
    if n == all.len() - 1 {
        assert(all.last() == all[n]);
    } else {
        assert(is_retryable(all[n]));
        let failures = s.failures.push(s.failure(rest[0]));
        let next = SubmissionView { failures, ..s };
        assert(rest.skip(1) =~= all.subrange(n + 1, all.len() as int));
        lemma_run_reaches_final_answer(next, all, rest.skip(1));
    }
}

impl Submission {
    pub open spec fn view(&self) -> SubmissionView {
        SubmissionView {
            node_count: self.node_count as int,
            max_attempts: self.max_attempts as int,
            backoff: self.backoff@,
            failures: self.failures@,
        }
    }

    /// See [`SubmissionView::wf`].
    pub open spec fn wf(&self) -> bool {
        self@.wf()
    }

    /// A submission over `node_count` candidate nodes that gives up after
    /// `max_attempts` attempts; `None` where there is no node or no attempt.
    pub fn new(node_count: usize, max_attempts: usize, backoff: Vec<u64>) -> (r: Option<
        Submission,
    >)
        ensures
            r is Some <==> node_count > 0 && max_attempts > 0,
            r matches Some(s) ==> s.wf() && s@ == (SubmissionView {
                node_count: node_count as int,
                max_attempts: max_attempts as int,
                backoff: backoff@,
                failures: Seq::empty(),
            }),
    {
        if node_count == 0 || max_attempts == 0 {
            None
        } else {
            Some(Submission { node_count, max_attempts, backoff, failures: Vec::new() })
        }
    }

    /// The number of the attempt that comes next, from 0.
    pub fn attempt(&self) -> (a: usize)
        ensures
            a == self@.attempt(),
    {
        self.failures.len()
    }

    /// The position, in the candidate list, of the node that the next attempt
    /// goes to.
    pub fn node_index(&self) -> (i: usize)
        requires
            self.wf(),
        ensures
            i == self@.node_index(),
            i < self.node_count,
    {
        self.failures.len() % self.node_count
    }

    /// The delay, in milliseconds, before attempt number `attempt`.
    fn delay_before(&self, attempt: usize) -> (d: u64)
        requires
            attempt >= 1,
        ensures
            d == self@.delay_before(attempt as int),
    {
        let n = self.backoff.len();
        if n == 0 {
            0
        } else if attempt - 1 < n {
            self.backoff[attempt - 1]
        } else {
            self.backoff[n - 1]
        }
    }

    /// Takes the answer to the attempt that was due and decides what follows.
    /// An accepted or refused transaction ends the submission at once. Any
    /// other answer is put on record; then the submission either goes on to
    /// the next node, or ends because that was the last attempt.
    pub fn on_response(self, response: NodeResponse) -> (step: Step)
        requires
            self.wf(),
        ensures
            step@ == self@.step(response),
            step matches Step::Retry { submission, .. } ==> submission.wf(),
    {
        let attempt = self.failures.len();
        let node_index = self.node_index();
        match (classify(response), response) {
            (Classification::Accepted, _) => Step::Accepted { node_index, attempt },
            (Classification::Rejected, NodeResponse::Precheck { status }) => Step::Rejected {
                status,
                node_index,
                attempt,
            },
            _ => {
                let delay_ms = self.delay_before(attempt + 1);
                let mut next = self;
                next.failures.push(NodeFailure { node_index, attempt, response });
                if attempt + 1 == next.max_attempts {
                    Step::Exhausted { failures: next.failures }
                } else {
                    Step::Retry { submission: next, delay_ms }
                }
            },
        }
    }
}

} // verus!
