//! Running staged plan items through a transport and keeping item-level results.
use vstd::prelude::*;

use crate::domain::{TransferDirection, TransferPlanItem, TransferState};
use crate::text;
use crate::text::str_equal;
use crate::transport::{TransportFailureKind, TransportOutcome, TransportRequest, TransportResult, TransportSkipReason};

verus! {

/// Counts of terminal results produced by one execution.
#[derive(Clone, Copy, Debug, PartialEq, Eq, Structural)]
pub struct ExecutionSummary {
    pub succeeded: usize,
    pub failed: usize,
    pub skipped: usize,
    pub cancelled: usize,
}

impl Default for ExecutionSummary {
    fn default() -> (r: Self)
        ensures
            r == ExecutionSummary::empty(),
    {
        ExecutionSummary { succeeded: 0, failed: 0, skipped: 0, cancelled: 0 }
    }
}

/// The terminal state that an outcome moves a running item to.
pub open spec fn terminal_state_of(outcome: TransportOutcome) -> TransferState {
    match outcome {
        TransportOutcome::Succeeded { .. } => TransferState::Succeeded,
        TransportOutcome::Skipped { .. } => TransferState::Skipped,
        TransportOutcome::Failed { .. } => TransferState::Failed,
        TransportOutcome::Cancelled => TransferState::Cancelled,
    }
}

/// The failure reported for an item that cannot become a transport request.
pub open spec fn unsupported_failure() -> TransportOutcome {
    TransportOutcome::Failed { kind: TransportFailureKind::Unsupported, retryable: false }
}

/// The representative outcome for the `index`-th executed item: success, connection loss,
/// already-current skip and cancellation, in turn.
pub open spec fn spec_representative_outcome(index: nat, expected_size: Option<u64>) -> TransportOutcome {
    if index % 4 == 0 {
        TransportOutcome::Succeeded {
            bytes_transferred: match expected_size {
                Some(size) => size,
                None => 0,
            },
        }
    } else if index % 4 == 1 {
        TransportOutcome::Failed { kind: TransportFailureKind::ConnectionLost, retryable: true }
    } else if index % 4 == 2 {
        TransportOutcome::Skipped { reason: TransportSkipReason::DestinationAlreadyCurrent }
    } else {
        TransportOutcome::Cancelled
    }
}

/// The number of staged items in `s`.
pub open spec fn count_staged(s: Seq<TransferPlanItem>) -> nat
    decreases s.len(),
{
    if s.len() == 0 {
        0
    } else {
        count_staged(s.drop_last()) + if s.last().state == TransferState::Staged {
            1nat
        } else {
            0nat
        }
    }
}

/// The outcome the representative executor gives a staged item executed as the `index`-th.
pub open spec fn representative_item_outcome(item: TransferPlanItem, index: nat) -> TransportOutcome {
    match TransportRequest::spec_from_item(item) {
        Ok(request) => spec_representative_outcome(index, request.expected_size),
        Err(_) => unsupported_failure(),
    }
}

/// The item at position `i` of `s` after representative execution.
pub open spec fn executed_item(s: Seq<TransferPlanItem>, i: int) -> TransferPlanItem {
    let item = s[i];
    if item.state == TransferState::Staged {
        TransferPlanItem {
            state: terminal_state_of(representative_item_outcome(item, count_staged(s.take(i)))),
            ..item
        }
    } else {
        item
    }
}

/// The plan after representative execution: every staged item reaches the terminal state of
/// its outcome, every other item is left as it was.
pub open spec fn executed_plan(s: Seq<TransferPlanItem>) -> Seq<TransferPlanItem> {
    Seq::new(s.len(), |i: int| executed_item(s, i))
}

impl ExecutionSummary {
    pub open spec fn empty() -> ExecutionSummary {
        ExecutionSummary { succeeded: 0, failed: 0, skipped: 0, cancelled: 0 }
    }

    pub open spec fn spec_total(self) -> int {
        self.succeeded + self.failed + self.skipped + self.cancelled
    }

    /// The summary after one more outcome.
    pub open spec fn spec_record(self, outcome: TransportOutcome) -> ExecutionSummary {
        match outcome {
            TransportOutcome::Succeeded { .. } => ExecutionSummary {
                succeeded: (self.succeeded + 1) as usize,
                ..self
            },
            TransportOutcome::Skipped { .. } => ExecutionSummary {
                skipped: (self.skipped + 1) as usize,
                ..self
            },
            TransportOutcome::Failed { .. } => ExecutionSummary {
                failed: (self.failed + 1) as usize,
                ..self
            },
            TransportOutcome::Cancelled => ExecutionSummary {
                cancelled: (self.cancelled + 1) as usize,
                ..self
            },
        }
    }

    /// The number of items that reached a terminal state.
    pub fn total(self) -> (r: usize)
        requires
            self.spec_total() <= usize::MAX,
        ensures
            r == self.spec_total(),
    {
        self.succeeded + self.failed + self.skipped + self.cancelled
    }

    /// Counts one more outcome.
    pub fn record(&mut self, outcome: TransportOutcome)
        requires
            old(self).spec_total() < usize::MAX,
        ensures
            *final(self) == old(self).spec_record(outcome),
            final(self).spec_total() == old(self).spec_total() + 1,
    {
        match outcome {
            TransportOutcome::Succeeded { .. } => self.succeeded = self.succeeded + 1,
            TransportOutcome::Skipped { .. } => self.skipped = self.skipped + 1,
            TransportOutcome::Failed { .. } => self.failed = self.failed + 1,
            TransportOutcome::Cancelled => self.cancelled = self.cancelled + 1,
        }
    }
}

/// The summary of representative execution over `s`.
pub open spec fn representative_summary(s: Seq<TransferPlanItem>) -> ExecutionSummary
    decreases s.len(),
{
    if s.len() == 0 {
        ExecutionSummary::empty()
    } else {
        let before = representative_summary(s.drop_last());
        if s.last().state == TransferState::Staged {
            before.spec_record(
                representative_item_outcome(s.last(), count_staged(s.drop_last())),
            )
        } else {
            before
        }
    }
}

pub proof fn lemma_summary_total(s: Seq<TransferPlanItem>)
    requires
        s.len() <= usize::MAX,
    ensures
        representative_summary(s).spec_total() == count_staged(s),
        count_staged(s) <= s.len(),
    decreases s.len(),
{
    if s.len() > 0 {
        lemma_summary_total(s.drop_last());
        let before = representative_summary(s.drop_last());
        assert(before.spec_total() < usize::MAX);
    }
}

/// The representative outcome for the `index`-th executed item.
pub fn representative_outcome(index: usize, expected_size: Option<u64>) -> (r: TransportOutcome)
    ensures
        r == spec_representative_outcome(index as nat, expected_size),
{
    if index % 4 == 0 {
        TransportOutcome::Succeeded {
            bytes_transferred: match expected_size {
                Some(size) => size,
                None => 0,
            },
        }
    } else if index % 4 == 1 {
        TransportOutcome::Failed { kind: TransportFailureKind::ConnectionLost, retryable: true }
    } else if index % 4 == 2 {
        TransportOutcome::Skipped { reason: TransportSkipReason::DestinationAlreadyCurrent }
    } else {
        TransportOutcome::Cancelled
    }
}

/// Starts a staged item: it becomes running, and either its frozen request or the failure
/// that ends it is returned.
pub fn start_item(item: &mut TransferPlanItem) -> (r: Result<TransportRequest, TransportOutcome>)
    requires
        old(item).state == TransferState::Staged,
    ensures
        *final(item) == (TransferPlanItem { state: TransferState::Running, ..*old(item) }),
        r == (match TransportRequest::spec_from_item(*old(item)) {
            Ok(request) => Ok(request),
            Err(_) => Err(unsupported_failure()),
        }),
{
    let _ = item.transition_to(TransferState::Running);
    match TransportRequest::from_item(item) {
        Ok(request) => Ok(request),
        Err(_) => Err(TransportOutcome::Failed { kind: TransportFailureKind::Unsupported, retryable: false }),
    }
}

/// Applies a result to the running item it targets.
pub fn apply_result(item: &mut TransferPlanItem, result: &TransportResult)
    requires
        old(item).state == TransferState::Running,
        old(item).id == result.item_id,
    ensures
        *final(item) == (TransferPlanItem { state: terminal_state_of(result.outcome), ..*old(item) }),
{
    let terminal_state = match result.outcome {
        TransportOutcome::Succeeded { .. } => TransferState::Succeeded,
        TransportOutcome::Skipped { .. } => TransferState::Skipped,
        TransportOutcome::Failed { .. } => TransferState::Failed,
        TransportOutcome::Cancelled => TransferState::Cancelled,
    };
    let _ = item.transition_to(terminal_state);
}

/// The profile whose session serves the remote end of `request`.
pub open spec fn remote_profile(request: TransportRequest) -> Option<Seq<char>> {
    match request.direction {
        TransferDirection::Upload => text::opt_view(request.destination.profile_id),
        TransferDirection::Download => text::opt_view(request.source.profile_id),
    }
}

/// What starting a staged item for a live session of `profile_id` yields: its request
/// when its remote end belongs to that profile, the unsupported failure otherwise.
pub open spec fn live_start(item: TransferPlanItem, profile_id: Seq<char>) -> Result<TransportRequest, TransportOutcome> {
    match TransportRequest::spec_from_item(item) {
        Ok(request) => if remote_profile(request) == Some(profile_id) {
            Ok(request)
        } else {
            Err(unsupported_failure())
        },
        Err(_) => Err(unsupported_failure()),
    }
}

/// Starts a staged item on the live session of `profile_id`: it becomes running, and
/// either the request to transfer or the failure that ends it is returned.
pub fn begin_live_item(item: &mut TransferPlanItem, profile_id: &str) -> (r: Result<TransportRequest, TransportOutcome>)
    requires
        old(item).state == TransferState::Staged,
    ensures
        *final(item) == (TransferPlanItem { state: TransferState::Running, ..*old(item) }),
        r == live_start(*old(item), profile_id@),
{
    match start_item(item) {
        Ok(request) => {
            let remote = match request.direction {
                TransferDirection::Upload => &request.destination.profile_id,
                TransferDirection::Download => &request.source.profile_id,
            };
            let belongs = match remote {
                Some(id) => str_equal(id.as_str(), profile_id),
                None => false,
            };
            if belongs {
                Ok(request)
            } else {
                Err(TransportOutcome::Failed { kind: TransportFailureKind::Unsupported, retryable: false })
            }
        },
        Err(failure) => Err(failure),
    }
}

/// Ends a running item with `outcome` and counts it.
pub fn finish_live_item(item: &mut TransferPlanItem, outcome: TransportOutcome, summary: &mut ExecutionSummary)
    requires
        old(item).state == TransferState::Running,
        old(summary).spec_total() < usize::MAX,
    ensures
        *final(item) == (TransferPlanItem { state: terminal_state_of(outcome), ..*old(item) }),
        *final(summary) == old(summary).spec_record(outcome),
{
    let result = TransportResult { item_id: item.id, outcome };
    apply_result(item, &result);
    summary.record(outcome);
}

/// The first staged item at or after `from`.
pub fn next_staged(plan: &[TransferPlanItem], from: usize) -> (r: Option<usize>)
    ensures
        match r {
            Some(i) => from <= i < plan@.len() && plan@[i as int].state == TransferState::Staged
                && forall|j: int| from <= j < i ==> (#[trigger] plan@[j]).state != TransferState::Staged,
            None => forall|j: int| from <= j < plan@.len() ==> (#[trigger] plan@[j]).state != TransferState::Staged,
        },
{
    let mut i = from;
    while i < plan.len()
        invariant
            from <= i,
            forall|j: int| from <= j < i && j < plan@.len() ==> (#[trigger] plan@[j]).state != TransferState::Staged,
        decreases plan.len() - i,
    {
        if plan[i].state == TransferState::Staged {
            return Some(i);
        }
        i = i + 1;
    }
    None
}

/// Runs every staged item through the representative transport, in plan order, and
/// leaves every other item as it was.
pub fn execute_representative(plan: &mut Vec<TransferPlanItem>) -> (summary: ExecutionSummary)
    ensures
        final(plan)@ == executed_plan(old(plan)@),
        summary == representative_summary(old(plan)@),
        summary.spec_total() == count_staged(old(plan)@),
{
    let ghost before = plan@;
    let mut summary = ExecutionSummary { succeeded: 0, failed: 0, skipped: 0, cancelled: 0 };
    let mut execution_index: usize = 0;
    let mut i: usize = 0;
    let n = plan.len();
    while i < n
        invariant
            n == plan.len(),
            n == before.len(),
            i <= n,
            execution_index == count_staged(before.take(i as int)),
            summary == representative_summary(before.take(i as int)),
            forall|j: int| 0 <= j < i ==> plan@[j] == executed_item(before, j),
            forall|j: int| i <= j < n ==> plan@[j] == before[j],
        decreases n - i,
    {
        proof {
            lemma_summary_total(before.take(i as int));
            assert(before.take(i + 1).drop_last() =~= before.take(i as int));
            assert(before.take(i + 1).last() == before[i as int]);
        }
        if plan[i].state == TransferState::Staged {
            let mut item = plan[i].clone();
            let outcome = match start_item(&mut item) {
                Ok(request) => representative_outcome(execution_index, request.expected_size),
                Err(failure) => failure,
            };
            let result = TransportResult { item_id: item.id, outcome };
            apply_result(&mut item, &result);
            summary.record(result.outcome);
            plan.set(i, item);
            execution_index = execution_index + 1;
        }
        i = i + 1;
    }
    proof {
        assert(before.take(n as int) =~= before);
        lemma_summary_total(before);
        assert(plan@ =~= executed_plan(before));
    }
    summary
}

/// A plan with no staged item is left unchanged by execution, and the execution reports
/// no result: terminal items are never run again.
pub proof fn law_execution_does_not_rerun_terminal_items(s: Seq<TransferPlanItem>)
    requires
        forall|i: int| 0 <= i < s.len() ==> #[trigger] s[i].state != TransferState::Staged,
    ensures
        executed_plan(s) == s,
        representative_summary(s) == ExecutionSummary::empty(),
    decreases s.len(),
{
    assert(executed_plan(s) =~= s);
    if s.len() > 0 {
        assert forall|i: int| 0 <= i < s.drop_last().len() implies #[trigger] s.drop_last()[i].state
            != TransferState::Staged by {
            assert(s.drop_last()[i] == s[i]);
        }
        law_execution_does_not_rerun_terminal_items(s.drop_last());
    }
}

/// After one execution no item is staged, so a second execution changes nothing and
/// reports nothing.
pub proof fn law_second_execution_is_a_no_op(s: Seq<TransferPlanItem>)
    ensures
        forall|i: int| 0 <= i < s.len() ==> #[trigger] executed_plan(s)[i].state
            != TransferState::Staged,
        executed_plan(executed_plan(s)) == executed_plan(s),
        representative_summary(executed_plan(s)) == ExecutionSummary::empty(),
{
    let e = executed_plan(s);
    assert forall|i: int| 0 <= i < e.len() implies #[trigger] e[i].state != TransferState::Staged by {
        assert(e[i] == executed_item(s, i));
    }
    law_execution_does_not_rerun_terminal_items(e);
}

/// Execution preserves every item's identity, endpoints, kind, size, expectation and policy,
/// and changes the state of staged items only.
pub proof fn law_execution_changes_only_staged_states(s: Seq<TransferPlanItem>, i: int)
    requires
        0 <= i < s.len(),
    ensures
        executed_plan(s).len() == s.len(),
        executed_plan(s)[i] == (TransferPlanItem { state: executed_plan(s)[i].state, ..s[i] }),
        s[i].state != TransferState::Staged ==> executed_plan(s)[i] == s[i],
        s[i].state == TransferState::Staged ==> executed_plan(s)[i].state.is_terminal(),
{
}

} // verus!

verus! {

/// Among the first `n` items of `s`, those that were staged and that execution leaves in
/// `state`.
pub open spec fn count_became(s: Seq<TransferPlanItem>, n: int, state: TransferState) -> nat
    decreases n,
{
    if n <= 0 {
        0
    } else {
        count_became(s, n - 1, state) + if s[n - 1].state == TransferState::Staged && executed_item(s, n - 1).state
            == state {
            1nat
        } else {
            0nat
        }
    }
}

proof fn lemma_counters_prefix(s: Seq<TransferPlanItem>, n: int)
    requires
        0 <= n <= s.len(),
        s.len() <= usize::MAX,
    ensures
        representative_summary(s.take(n)).succeeded == count_became(s, n, TransferState::Succeeded),
        representative_summary(s.take(n)).failed == count_became(s, n, TransferState::Failed),
        representative_summary(s.take(n)).skipped == count_became(s, n, TransferState::Skipped),
        representative_summary(s.take(n)).cancelled == count_became(s, n, TransferState::Cancelled),
    decreases n,
{
    if n > 0 {
        lemma_counters_prefix(s, n - 1);
        let t = s.take(n);
        assert(t.drop_last() =~= s.take(n - 1));
        assert(t.last() == s[n - 1]);
        assert(s.take(n - 1).take(n - 1) =~= s.take(n - 1));
        lemma_summary_total(s.take(n - 1));
    } else {
        assert(s.take(n).len() == 0);
    }
}

/// Each counter of the execution summary is the number of staged items that execution left
/// in that counter's state.
pub proof fn law_counters_count_their_states(s: Seq<TransferPlanItem>)
    requires
        s.len() <= usize::MAX,
    ensures
        representative_summary(s).succeeded == count_became(s, s.len() as int, TransferState::Succeeded),
        representative_summary(s).failed == count_became(s, s.len() as int, TransferState::Failed),
        representative_summary(s).skipped == count_became(s, s.len() as int, TransferState::Skipped),
        representative_summary(s).cancelled == count_became(s, s.len() as int, TransferState::Cancelled),
{
    lemma_counters_prefix(s, s.len() as int);
    assert(s.take(s.len() as int) =~= s);
}

} // verus!
