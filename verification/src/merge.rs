//! Merging the outcomes of the providers' tasks, in their order of arrival.

use std::collections::HashMap;
use vstd::prelude::*;

use crate::provider::ProviderId;
use crate::response::{CompletionDetails, ProviderOutcome, ProviderResult, RawItem};

verus! {

/// What the providers of one request answered, taken together.
pub struct MergedResult {
    /// The items of every answer, answer after answer as they arrived.
    pub items: Vec<RawItem>,
    /// What each provider that answered said of its answer.
    pub details: HashMap<ProviderId, CompletionDetails>,
}

/// The items that an outcome contributes: those of its result, if it has one.
pub open spec fn contributed(outcome: ProviderOutcome) -> Seq<RawItem> {
    match outcome {
        Ok(Some(result)) => result.items@,
        _ => Seq::empty(),
    }
}

/// The items of all outcomes, outcome after outcome in their order of arrival.
pub open spec fn merged_items(outcomes: Seq<ProviderOutcome>) -> Seq<RawItem>
    decreases outcomes.len(),
{
    if outcomes.len() == 0 {
        Seq::empty()
    } else {
        merged_items(outcomes.drop_last()) + contributed(outcomes.last())
    }
}

/// What the providers said of their answers. Of a provider that answered more
/// than once, the word of its latest answer stands.
pub open spec fn merged_details(outcomes: Seq<ProviderOutcome>) -> Map<
    ProviderId,
    CompletionDetails,
>
    decreases outcomes.len(),
{
    if outcomes.len() == 0 {
        Map::empty()
    } else {
        let before = merged_details(outcomes.drop_last());
        match outcomes.last() {
            Ok(Some(result)) => before.insert(result.provider, result.details),
            _ => before,
        }
    }
}

/// The items among `items` that came from `provider`, in their order.
pub open spec fn items_of(items: Seq<RawItem>, provider: ProviderId) -> Seq<RawItem> {
    items.filter(|item: RawItem| item.provider == provider)
}

/// Every result among the outcomes holds only items of its own provider.
pub open spec fn all_tagged(outcomes: Seq<ProviderOutcome>) -> bool {
    forall|k: int|
        0 <= k < outcomes.len() ==> ((#[trigger] outcomes[k]) matches Ok(Some(result))
            ==> result.wf())
}

impl MergedResult {
    /// A result to which nothing has been merged yet.
    pub fn new() -> (merged: MergedResult)
        ensures
            merged.items@ == Seq::<RawItem>::empty(),
            merged.details@ == Map::<ProviderId, CompletionDetails>::empty(),
    {
        MergedResult { items: Vec::new(), details: HashMap::new() }
    }

    /// Merges the outcome of one provider's task.
    ///
    /// The items of an answer are appended in the provider's order and its
    /// word on completeness is recorded under its identity. A task that
    /// failed or had no answer changes nothing.
    pub fn absorb(&mut self, outcome: ProviderOutcome)
        ensures
            final(self).items@ == old(self).items@ + contributed(outcome),
            final(self).details@ == match outcome {
                Ok(Some(result)) => old(self).details@.insert(result.provider, result.details),
                _ => old(self).details@,
            },
    {
        broadcast use vstd::std_specs::hash::group_hash_axioms;

        match outcome {
            Ok(Some(result)) => {
                let ProviderResult { items, provider, details } = result;
                let mut items = items;
                self.items.append(&mut items);
                self.details.insert(provider, details);
            },
            Ok(None) => {},
            Err(_) => {},
        }
    }
}

impl Default for MergedResult {
    fn default() -> (merged: MergedResult)
        ensures
            merged.items@ == Seq::<RawItem>::empty(),
            merged.details@ == Map::<ProviderId, CompletionDetails>::empty(),
    {
        MergedResult::new()
    }
}

/// Merges the outcomes of all tasks of a request, given in the order in which
/// the tasks settled.
pub fn merge(outcomes: Vec<ProviderOutcome>) -> (merged: MergedResult)
    ensures
        merged.items@ == merged_items(outcomes@),
        merged.details@ == merged_details(outcomes@),
{
    let mut merged = MergedResult::new();
    let ghost all = outcomes@;
    for outcome in it: outcomes
        invariant
            it.seq() == all,
            merged.items@ == merged_items(all.take(it.index() as int)),
            merged.details@ == merged_details(all.take(it.index() as int)),
    {
        assert(all.take(it.index() + 1).drop_last() == all.take(it.index() as int));
        merged.absorb(outcome);
    }
    assert(all.take(all.len() as int) == all);
    merged
}

/// Decides what a request that has come to its end delivers.
///
/// `raced` is what the race between the merge and the cancellation signal
/// left: `None` where the token was closed first. A cancelled request
/// delivers nothing, whatever had been merged by then, and neither does a
/// request without items.
pub fn settle(raced: Option<MergedResult>) -> (ready: Option<MergedResult>)
    ensures
        raced is None ==> ready is None,
        raced matches Some(merged) ==> if merged.items@.len() == 0 {
            ready is None
        } else {
            ready == Some(merged)
        },
{
    let merged = raced.unwrap_or_default();
    if merged.items.is_empty() {
        None
    } else {
        Some(merged)
    }
}

/// The items that an outcome contributes for `provider`: those of its
/// result, if it has one and the result is that provider's.
pub open spec fn contributed_by(outcome: ProviderOutcome, provider: ProviderId) -> Seq<RawItem> {
    match outcome {
        Ok(Some(result)) => if result.provider == provider {
            result.items@
        } else {
            Seq::empty()
        },
        _ => Seq::empty(),
    }
}

/// The items of the answers of one provider, answer after answer in their
/// order of arrival.
pub open spec fn merged_items_by(outcomes: Seq<ProviderOutcome>, provider: ProviderId) -> Seq<
    RawItem,
>
    decreases outcomes.len(),
{
    if outcomes.len() == 0 {
        Seq::empty()
    } else {
        merged_items_by(outcomes.drop_last(), provider) + contributed_by(outcomes.last(), provider)
    }
}

/// What has been merged after the first `k` arrivals stays in front, as it
/// is, whatever arrives later: the merge only appends.
pub proof fn lemma_merge_appends(outcomes: Seq<ProviderOutcome>, k: int)
    requires
        0 <= k <= outcomes.len(),
    ensures
        merged_items(outcomes.take(k)).is_prefix_of(merged_items(outcomes)),
    decreases outcomes.len(),
{
    if k == outcomes.len() {
        assert(outcomes.take(k) == outcomes);
    } else {
        lemma_merge_appends(outcomes.drop_last(), k);
        assert(outcomes.drop_last().take(k) == outcomes.take(k));
    }
}

/// The items of the `k`-th arrival stand together in the merged list, in the
/// order in which their provider listed them, right behind everything that
/// arrived before and in front of everything that arrived after.
pub proof fn lemma_merge_keeps_arrival_order(outcomes: Seq<ProviderOutcome>, k: int)
    requires
        0 <= k < outcomes.len(),
    ensures
        merged_items(outcomes.take(k + 1)) == merged_items(outcomes.take(k)) + contributed(
            outcomes[k],
        ),
        merged_items(outcomes.take(k + 1)).is_prefix_of(merged_items(outcomes)),
        merged_items(outcomes).subrange(
            merged_items(outcomes.take(k)).len() as int,
            merged_items(outcomes.take(k + 1)).len() as int,
        ) == contributed(outcomes[k]),
{
    let upto = outcomes.take(k + 1);
    assert(upto.drop_last() == outcomes.take(k));
    assert(upto.last() == outcomes[k]);
    lemma_merge_appends(outcomes, k + 1);
    let before = merged_items(outcomes.take(k));
    let all = merged_items(outcomes);
    assert(all.subrange(before.len() as int, merged_items(upto).len() as int) =~= contributed(
        outcomes[k],
    )) by {
        assert forall|i: int| 0 <= i < contributed(outcomes[k]).len() implies all[before.len() + i]
            == contributed(outcomes[k])[i] by {
            assert(all[before.len() + i] == merged_items(upto)[before.len() + i]);
        }
    }
}

/// Keeping the items of one provider keeps all of a list that holds only
/// items of that provider, and nothing of a list that holds none.
proof fn lemma_items_of_uniform(items: Seq<RawItem>, provider: ProviderId)
    ensures
        (forall|i: int| 0 <= i < items.len() ==> (#[trigger] items[i]).provider == provider)
            ==> items_of(items, provider) == items,
        (forall|i: int| 0 <= i < items.len() ==> (#[trigger] items[i]).provider != provider)
            ==> items_of(items, provider) == Seq::<RawItem>::empty(),
    decreases items.len(),
{
    reveal(Seq::filter);
    if items.len() > 0 {
        lemma_items_of_uniform(items.drop_last(), provider);
        if forall|i: int| 0 <= i < items.len() ==> (#[trigger] items[i]).provider == provider {
            assert forall|i: int| 0 <= i < items.drop_last().len() implies (
            #[trigger] items.drop_last()[i]).provider == provider by {
                assert(items.drop_last()[i] == items[i]);
            }
            assert(items.last() == items[items.len() - 1]);
            assert(items.drop_last().push(items.last()) == items);
        }
        if forall|i: int| 0 <= i < items.len() ==> (#[trigger] items[i]).provider != provider {
            assert forall|i: int| 0 <= i < items.drop_last().len() implies (
            #[trigger] items.drop_last()[i]).provider != provider by {
                assert(items.drop_last()[i] == items[i]);
            }
            assert(items.last() == items[items.len() - 1]);
        }
    }
}

/// Within one provider the merged list keeps the provider's own order: the
/// merged items that came from a provider are the items of that provider's
/// answers, answer after answer, each in the order of its response.
pub proof fn lemma_merge_keeps_provider_order(
    outcomes: Seq<ProviderOutcome>,
    provider: ProviderId,
)
    requires
        all_tagged(outcomes),
    ensures
        items_of(merged_items(outcomes), provider) == merged_items_by(outcomes, provider),
    decreases outcomes.len(),
{
    reveal(Seq::filter);
    if outcomes.len() > 0 {
        let init = outcomes.drop_last();
        let last = outcomes.last();
        assert forall|k: int| 0 <= k < init.len() implies ((#[trigger] init[k]) matches Ok(
            Some(result),
        ) ==> result.wf()) by {
            assert(init[k] == outcomes[k]);
        }
        lemma_merge_keeps_provider_order(init, provider);
        Seq::filter_distributes_over_add(
            merged_items(init),
            contributed(last),
            |item: RawItem| item.provider == provider,
        );
        assert(last == outcomes[outcomes.len() - 1]);
        lemma_items_of_uniform(contributed(last), provider);
        assert(items_of(contributed(last), provider) == contributed_by(last, provider));
    }
}

/// Where a provider answered once, the merged items that came from it are
/// exactly the items of that answer, in the order of the response.
pub proof fn lemma_single_answer_kept(outcomes: Seq<ProviderOutcome>, k: int)
    requires
        all_tagged(outcomes),
        0 <= k < outcomes.len(),
        outcomes[k] matches Ok(Some(_)),
        forall|j: int|
            0 <= j < outcomes.len() && j != k ==> contributed_by(
                #[trigger] outcomes[j],
                outcomes[k]->Ok_0->0.provider,
            ) == Seq::<RawItem>::empty(),
    ensures
        items_of(merged_items(outcomes), outcomes[k]->Ok_0->0.provider)
            == outcomes[k]->Ok_0->0.items@,
{
    let provider = outcomes[k]->Ok_0->0.provider;
    lemma_merge_keeps_provider_order(outcomes, provider);
    lemma_single_contribution(outcomes, provider, k);
}

/// Where all outcomes but the `k`-th contribute nothing for a provider, the
/// items merged for it are what the `k`-th contributes.
proof fn lemma_single_contribution(outcomes: Seq<ProviderOutcome>, provider: ProviderId, k: int)
    requires
        0 <= k,
        forall|j: int|
            0 <= j < outcomes.len() && j != k ==> contributed_by(#[trigger] outcomes[j], provider)
                == Seq::<RawItem>::empty(),
    ensures
        merged_items_by(outcomes, provider) == if k < outcomes.len() {
            contributed_by(outcomes[k], provider)
        } else {
            Seq::empty()
        },
    decreases outcomes.len(),
{
    if outcomes.len() > 0 {
        let init = outcomes.drop_last();
        assert forall|j: int| 0 <= j < init.len() && j != k implies contributed_by(
            #[trigger] init[j],
            provider,
        ) == Seq::<RawItem>::empty() by {
            assert(init[j] == outcomes[j]);
        }
        lemma_single_contribution(init, provider, k);
        assert(outcomes.last() == outcomes[outcomes.len() - 1]);
        if k < init.len() {
            assert(init[k] == outcomes[k]);
        }
    }
}

} // verus!
