//! Batches: many comparisons answered in the order in which they were
//! asked, a failed one by a placeholder.

use crate::models::{
    placeholder_view, BatchComparisonResponse, BatchXmlComparisonRequest, ComparisonView,
    XmlComparisonRequest, XmlComparisonResponse,
};
use crate::service::{compare_request_spec, XmlComparisonService};
use vstd::prelude::*;

verus! {

/// The mathematical content of a [`BatchComparisonResponse`].
pub struct BatchView {
    pub results: Seq<ComparisonView>,
    pub total_comparisons: int,
    pub successful_comparisons: int,
    pub failed_comparisons: int,
}

impl View for BatchComparisonResponse {
    type V = BatchView;

    open spec fn view(&self) -> BatchView {
        BatchView {
            results: self.results.deep_view(),
            total_comparisons: self.total_comparisons as int,
            successful_comparisons: self.successful_comparisons as int,
            failed_comparisons: self.failed_comparisons as int,
        }
    }
}

/// What stands in the results for one outcome: the result itself, or the
/// placeholder for a failure.
pub open spec fn settled(outcome: Option<ComparisonView>) -> ComparisonView {
    match outcome {
        Some(result) => result,
        None => placeholder_view(),
    }
}

/// How many of the outcomes are results.
pub open spec fn successes(outcomes: Seq<Option<ComparisonView>>) -> int
    decreases outcomes.len(),
{
    if outcomes.len() == 0 {
        0
    } else {
        successes(outcomes.drop_last()) + if outcomes.last() is Some {
            1int
        } else {
            0int
        }
    }
}

/// The batch result of a sequence of outcomes: one result per outcome, in
/// the same order, with the counts of all, of results and of failures.
pub open spec fn batch_of(outcomes: Seq<Option<ComparisonView>>) -> BatchView {
    BatchView {
        results: outcomes.map_values(|o: Option<ComparisonView>| settled(o)),
        total_comparisons: outcomes.len() as int,
        successful_comparisons: successes(outcomes),
        failed_comparisons: outcomes.len() - successes(outcomes),
    }
}

/// The outcome of one inline request within a batch: a failure of any kind
/// leaves no result.
pub open spec fn inline_outcome(request: XmlComparisonRequest) -> Option<ComparisonView> {
    match compare_request_spec(request) {
        Ok(result) => Some(result),
        Err(_) => None,
    }
}

/// The outcomes of the requests of an inline batch, in their order.
pub open spec fn inline_outcomes(requests: Seq<XmlComparisonRequest>) -> Seq<
    Option<ComparisonView>,
> {
    requests.map_values(|r: XmlComparisonRequest| inline_outcome(r))
}

/// Between zero and all of the outcomes are results.
pub proof fn lemma_successes_bound(outcomes: Seq<Option<ComparisonView>>)
    ensures
        0 <= successes(outcomes) <= outcomes.len(),
    decreases outcomes.len(),
{
    if outcomes.len() > 0 {
        lemma_successes_bound(outcomes.drop_last());
    }
}

/// A batch keeps its cardinality and its order: it holds as many results
/// as there were outcomes, the result at each place is that of the outcome
/// at that place, and every outcome counts either as a success or as a
/// failure.
pub proof fn law_batch_keeps_cardinality_and_order(outcomes: Seq<Option<ComparisonView>>)
    ensures
        batch_of(outcomes).results.len() == outcomes.len(),
        forall|i: int|
            0 <= i < outcomes.len() ==> #[trigger] batch_of(outcomes).results[i] == settled(
                outcomes[i],
            ),
        batch_of(outcomes).total_comparisons == outcomes.len(),
        batch_of(outcomes).successful_comparisons + batch_of(outcomes).failed_comparisons
            == outcomes.len(),
        0 <= batch_of(outcomes).successful_comparisons <= outcomes.len(),
{
    lemma_successes_bound(outcomes);
}

impl BatchComparisonResponse {
    /// The counts agree with the results held.
    pub open spec fn wf(&self) -> bool {
        &&& self.total_comparisons == self.results@.len()
        &&& self.successful_comparisons + self.failed_comparisons == self.total_comparisons
    }

    /// The result of a batch without requests.
    pub fn empty() -> (batch: BatchComparisonResponse)
        ensures
            batch.wf(),
            batch@ == batch_of(Seq::empty()),
    {
        let batch = BatchComparisonResponse {
            results: Vec::new(),
            total_comparisons: 0,
            successful_comparisons: 0,
            failed_comparisons: 0,
        };
        proof {
            assert(batch@.results =~= batch_of(Seq::empty()).results);
        }
        batch
    }

    /// Takes in the outcome of the next request: its result, or `None`
    /// where it failed, for which the placeholder is held.
    pub fn record(&mut self, outcome: Option<XmlComparisonResponse>)
        requires
            old(self).wf(),
        ensures
            final(self).wf(),
            forall|outcomes: Seq<Option<ComparisonView>>|
                old(self)@ == batch_of(outcomes) ==> final(self)@ == #[trigger] batch_of(
                    outcomes.push(outcome.deep_view()),
                ),
            final(self)@.results == old(self)@.results.push(settled(outcome.deep_view())),
    {
        let ghost taken = outcome.deep_view();
        match outcome {
            Some(result) => {
                self.results.push(result);
                let held: usize = self.results.len();
                self.successful_comparisons = self.successful_comparisons + 1;
                self.total_comparisons = held;
            },
            None => {
                self.results.push(XmlComparisonResponse::placeholder());
                let held: usize = self.results.len();
                self.failed_comparisons = self.failed_comparisons + 1;
                self.total_comparisons = held;
            },
        }
        proof {
            assert(final(self)@.results =~= old(self)@.results.push(settled(taken)));
            assert forall|outcomes: Seq<Option<ComparisonView>>|
                old(self)@ == batch_of(outcomes) implies final(self)@ == #[trigger] batch_of(
                outcomes.push(taken),
            ) by {
                let longer = outcomes.push(taken);
                assert(longer.drop_last() =~= outcomes);
                assert(batch_of(longer).results =~= batch_of(outcomes).results.push(
                    settled(taken),
                ));
            }
        }
    }
}

/// Runs the comparisons of an inline batch in their order. A request that
/// fails is answered by the placeholder and counted as failed; it never
/// fails the batch.
pub fn compare_xmls_batch(
    service: &XmlComparisonService,
    request: &BatchXmlComparisonRequest,
) -> (batch: BatchComparisonResponse)
    ensures
        batch.wf(),
        batch@ == batch_of(inline_outcomes(request.comparisons@)),
        batch@.results.len() == request.comparisons@.len(),
        batch@.total_comparisons == request.comparisons@.len(),
        batch@.successful_comparisons + batch@.failed_comparisons == request.comparisons@.len(),
{
    let ghost all = inline_outcomes(request.comparisons@);
    let mut batch = BatchComparisonResponse::empty();
    let mut i: usize = 0;
    proof {
        assert(all.take(0) =~= Seq::empty());
    }
    while i < request.comparisons.len()
        invariant
            i <= request.comparisons@.len(),
            all == inline_outcomes(request.comparisons@),
            batch.wf(),
            batch@ == batch_of(all.take(i as int)),
        decreases request.comparisons@.len() - i,
    {
        let outcome = match service.compare_xmls(&request.comparisons[i]) {
            Ok(result) => Some(result),
            Err(_) => None,
        };
        proof {
            assert(all.take(i + 1) =~= all.take(i as int).push(outcome.deep_view()));
        }
        batch.record(outcome);
        i = i + 1;
    }
    proof {
        assert(all.take(all.len() as int) =~= all);
        law_batch_keeps_cardinality_and_order(all);
    }
    batch
}

} // verus!
