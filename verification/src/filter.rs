//! Validation of a filter: its block range resolved against the chain, its
//! topics counted and put into their slots.

use vstd::prelude::*;
use crate::block::{
    parsed_hash, parsed_tag, BlockQuery, BlockResolver, BlockTag, Lookup, LookupView, QueryView,
};
use crate::error::{ErrorView, GetLogsError};
use crate::resolve::{plan_of, PlanView, RangePlan, Step, StepView};
use crate::wire::{FilterView, GetLogsParameters};

verus! {

/// A filter that passed validation: a concrete block range, both ends
/// included, the addresses as the client wrote them, and one slot for each of
/// the four topic positions.
#[derive(Debug, Clone, PartialEq, Eq)]
pub struct ValidatedQueryParams {
    /// First block of the range.
    pub from_block: u64,
    /// Last block of the range.
    pub to_block: u64,
    /// Addresses from which logs may originate; none means any.
    pub addresses: Vec<String>,
    /// The topic wanted at each position; `None` means any.
    pub topics: [Option<String>; 4],
}

/// The mathematical content of a [`ValidatedQueryParams`].
pub struct ValidatedView {
    pub from_block: u64,
    pub to_block: u64,
    pub addresses: Seq<Seq<char>>,
    pub topics: Seq<Option<Seq<char>>>,
}

impl View for ValidatedQueryParams {
    type V = ValidatedView;

    open spec fn view(&self) -> ValidatedView {
        ValidatedView {
            from_block: self.from_block,
            to_block: self.to_block,
            addresses: self.addresses.deep_view(),
            topics: self.topics.deep_view(),
        }
    }
}

impl DeepView for ValidatedQueryParams {
    type V = ValidatedView;

    open spec fn deep_view(&self) -> ValidatedView {
        self@
    }
}

/// The content of what a validation returned.
pub open spec fn validation_view(r: Result<ValidatedQueryParams, GetLogsError>) -> Result<
    ValidatedView,
    ErrorView,
> {
    match r {
        Ok(validated) => Ok(validated@),
        Err(error) => Err(error@),
    }
}

/// Four slots: the topic given at each position, `None` behind the last one.
pub open spec fn topic_slots(topics: Seq<Seq<char>>) -> Seq<Option<Seq<char>>> {
    Seq::new(
        4,
        |i: int|
            if i < topics.len() {
                Some(topics[i])
            } else {
                None
            },
    )
}

/// What validation makes of a filter whose block range has been resolved to
/// `from_block` and `to_block`: refused for more than four topics, else the
/// range as it was resolved, the addresses unchanged and the topics in their
/// slots.
pub open spec fn validated(filter: FilterView, from_block: u64, to_block: u64) -> Result<
    ValidatedView,
    ErrorView,
> {
    if filter.topics.len() > 4 {
        Err(ErrorView::TooManyTopics)
    } else {
        Ok(
            ValidatedView {
                from_block,
                to_block,
                addresses: filter.address,
                topics: topic_slots(filter.topics),
            },
        )
    }
}

/// The chain was asked as long as `plan` asked, and no longer: `answers`
/// holds what it said, in order.
pub open spec fn is_run(plan: PlanView, answers: Seq<LookupView>) -> bool {
    &&& !(plan.step(answers) is Ask)
    &&& forall|k: int| 0 <= k < answers.len() ==> #[trigger] plan.step(answers.take(k)) is Ask
}

/// What validation returns for `filter` once the chain has given `answers`:
/// nothing yet while the plan still asks, else the validated filter or the
/// error.
pub open spec fn outcome(filter: FilterView, answers: Seq<LookupView>) -> Option<
    Result<ValidatedView, ErrorView>,
> {
    match plan_of(filter).step(answers) {
        StepView::Ask(_) => None,
        StepView::Done(from_block, to_block) => Some(validated(filter, from_block, to_block)),
        StepView::Fail(error) => Some(Err(error)),
    }
}

/// Some run of lookups against the chain leads validation of `filter` to
/// `result`.
pub open spec fn may_yield(filter: FilterView, result: Result<ValidatedView, ErrorView>) -> bool {
    exists|answers: Seq<LookupView>|
        #![trigger outcome(filter, answers)]
        is_run(plan_of(filter), answers) && outcome(filter, answers) == Some(result)
}

/// Hands `query` to the method of the chain that takes it; returns its answer.
fn ask<R: BlockResolver>(provider: &R, query: &BlockQuery) -> (answer: Lookup)
    ensures
        answered(provider, *query, answer),
{
    match query {
        BlockQuery::Tag(tag) => provider.resolve_by_tag(*tag),
        BlockQuery::Hash(hash) => provider.resolve_by_hash(hash),
    }
}

/// `answer` is what the chain may return for `query`: an outcome of its
/// `resolve_by_tag` on the tag or number, or of its `resolve_by_hash` on the
/// hash. The chain decides which; of the answer itself nothing more is known.
pub open spec fn answered<R: BlockResolver>(provider: &R, query: BlockQuery, answer: Lookup) -> bool {
    match query {
        BlockQuery::Tag(tag) => call_ensures(R::resolve_by_tag, (provider, tag), answer),
        BlockQuery::Hash(hash) => call_ensures(R::resolve_by_hash, (provider, &hash), answer),
    }
}

impl ValidatedQueryParams {
    /// Finishes validation of a filter whose block range has been resolved.
    pub fn with_range(from_block: u64, to_block: u64, params: GetLogsParameters) -> (r: Result<
        ValidatedQueryParams,
        GetLogsError,
    >)
        ensures
            validation_view(r) == validated(params@, from_block, to_block),
    {
        let GetLogsParameters { address, block_hash: _, from_block: _, to_block: _, topics } =
            params;
        let mut topics = topics;
        if topics.len() > 4 {
            return Err(GetLogsError::TooManyTopics);
        }
        let ghost given = topics.deep_view();
        let fourth = if topics.len() == 4 {
            topics.pop()
        } else {
            None
        };
        let third = if topics.len() == 3 {
            topics.pop()
        } else {
            None
        };
        let second = if topics.len() == 2 {
            topics.pop()
        } else {
            None
        };
        let first = if topics.len() == 1 {
            topics.pop()
        } else {
            None
        };
        let validated = ValidatedQueryParams {
            from_block,
            to_block,
            addresses: address,
            topics: [first, second, third, fourth],
        };
        assert(validated@.topics =~= topic_slots(given));
        Ok(validated)
    }

    /// Validates one filter against the chain: resolves its block range by
    /// the lookups that its plan asks for, then counts and places its topics.
    pub fn new<R: BlockResolver>(provider: &R, params: GetLogsParameters) -> (r: Result<
        ValidatedQueryParams,
        GetLogsError,
    >)
        ensures
            may_yield(params@, validation_view(r)),
            plan_of(params@) is Ambiguous <==> validation_view(r) == Err::<
                ValidatedView,
                ErrorView,
            >(ErrorView::AmbiguousRange),
            plan_of(params@).step(seq![]) matches StepView::Fail(error) ==> validation_view(r)
                == Err::<ValidatedView, ErrorView>(error),
            r matches Ok(validated) ==> params@.topics.len() <= 4 && validated@.addresses
                == params@.address && validated@.topics == topic_slots(params@.topics),
    {
        let plan = RangePlan::of(&params);
        let mut answers: Vec<Lookup> = Vec::new();
        loop
            invariant
                plan@ == plan_of(params@),
                answers.len() <= 2,
                forall|k: int|
                    0 <= k < answers.len() ==> #[trigger] plan@.step(
                        answers.deep_view().take(k),
                    ) is Ask,
            decreases 2 - answers.len(),
        {
            match plan.step(&answers) {
                Step::Ask(query) => {
                    let ghost before = answers.deep_view();
                    let answer = ask(provider, &query);
                    answers.push(answer);
                    proof {
                        let after = answers.deep_view();
                        assert(after.take(before.len() as int) =~= before);
                        assert forall|k: int| 0 <= k < after.len() implies #[trigger] plan@.step(
                            after.take(k),
                        ) is Ask by {
                            if k < before.len() {
                                assert(after.take(k) =~= before.take(k));
                            }
                        }
                    }
                },
                Step::Done(from_block, to_block) => {
                    let r = ValidatedQueryParams::with_range(from_block, to_block, params);
                    assert(outcome(params@, answers.deep_view()) == Some(validation_view(r)));
                    return r;
                },
                Step::Fail(error) => {
                    let r = Err(error);
                    assert(outcome(params@, answers.deep_view()) == Some(validation_view(r)));
                    return r;
                },
            }
        }
    }
}

/// Each of `filters` may validate to the one of `validated` in its place.
pub open spec fn all_may_yield(filters: Seq<FilterView>, validated: Seq<ValidatedView>) -> bool {
    &&& validated.len() == filters.len()
    &&& forall|i: int|
        0 <= i < filters.len() ==> may_yield(
            #[trigger] filters[i],
            Ok::<ValidatedView, ErrorView>(validated[i]),
        )
}

/// One of `filters` may be refused with `error` after every filter before it
/// passed validation.
pub open spec fn first_refusal(filters: Seq<FilterView>, error: ErrorView) -> bool {
    exists|i: int, passed: Seq<ValidatedView>|
        #![trigger all_may_yield(filters.take(i), passed)]
        0 <= i < filters.len() && all_may_yield(filters.take(i), passed) && may_yield(
            filters[i],
            Err::<ValidatedView, ErrorView>(error),
        )
}

/// Validates every filter against the chain, in order, and stops at the
/// first that is refused: no filter behind it is looked at.
pub fn validate_all<R: BlockResolver>(provider: &R, filters: Vec<GetLogsParameters>) -> (r: Result<
    Vec<ValidatedQueryParams>,
    GetLogsError,
>)
    ensures
        match r {
            Ok(validated) => all_may_yield(filters.deep_view(), validated.deep_view()),
            Err(error) => first_refusal(filters.deep_view(), error@),
        },
{
    let ghost given = filters.deep_view();
    let mut validated: Vec<ValidatedQueryParams> = Vec::new();
    assert(given.take(0) =~= Seq::empty());
    for params in iter: filters.into_iter()
        invariant
            given == filters.deep_view(),
            iter.seq() == filters@,
            all_may_yield(given.take(iter.index() as int), validated.deep_view()),
    {
        let ghost i = iter.index() as int;
        let ghost passed = validated.deep_view();
        assert(params@ == given[i]);
        match ValidatedQueryParams::new(provider, params) {
            Ok(one) => {
                validated.push(one);
                proof {
                    let now = validated.deep_view();
                    assert(now.len() == i + 1);
                    assert forall|k: int| 0 <= k < i + 1 implies may_yield(
                        #[trigger] given.take(i + 1)[k],
                        Ok::<ValidatedView, ErrorView>(now[k]),
                    ) by {
                        if k < i {
                            assert(given.take(i)[k] == given[k]);
                            assert(now[k] == passed[k]);
                        }
                    }
                }
            },
            Err(error) => {
                assert(all_may_yield(given.take(i), passed));
                return Err(error);
            },
        }
    }
    assert(given.take(given.len() as int) =~= given);
    Ok(validated)
}

/// A filter that sets no block field is resolved by one lookup of the latest
/// block, whose number is both ends of the range: whatever the chain answers,
/// a range that comes of it begins and ends at one block.
pub proof fn lemma_no_block_field_means_latest(filter: FilterView, latest: u64)
    requires
        filter.block_hash is None,
        filter.from_block is None,
        filter.to_block is None,
    ensures
        plan_of(filter).step(seq![]) == StepView::Ask(QueryView::Tag(BlockTag::Latest)),
        plan_of(filter).step(seq![LookupView::Found(latest)]) == StepView::Done(latest, latest),
        is_run(plan_of(filter), seq![LookupView::Found(latest)]),
        outcome(filter, seq![LookupView::Found(latest)]) == Some(
            validated(filter, latest, latest),
        ),
        forall|result: Result<ValidatedView, ErrorView>|
            may_yield(filter, result) ==> (result matches Ok(range) ==> range.from_block
                == range.to_block),
{
    let answers = seq![LookupView::Found(latest)];
    assert(answers.take(0) =~= seq![]);
}

/// A filter that sets only the end of its range starts at the latest block,
/// looked up first, and ends at the block that its end names, looked up
/// second. An end that cannot be parsed fails the filter once the latest
/// block has been found.
pub proof fn lemma_only_to_block(filter: FilterView, latest: u64, last: u64)
    requires
        filter.block_hash is None,
        filter.from_block is None,
        filter.to_block is Some,
    ensures
        plan_of(filter).step(seq![]) == StepView::Ask(QueryView::Tag(BlockTag::Latest)),
        match parsed_tag(filter.to_block.unwrap()) {
            Ok(end) => {
                &&& plan_of(filter).step(seq![LookupView::Found(latest)]) == StepView::Ask(
                    QueryView::Tag(end),
                )
                &&& plan_of(filter).step(
                    seq![LookupView::Found(latest), LookupView::Found(last)],
                ) == StepView::Done(latest, last)
                &&& is_run(
                    plan_of(filter),
                    seq![LookupView::Found(latest), LookupView::Found(last)],
                )
                &&& outcome(filter, seq![LookupView::Found(latest), LookupView::Found(last)])
                    == Some(validated(filter, latest, last))
            },
            Err(detail) => plan_of(filter).step(seq![LookupView::Found(latest)])
                == StepView::Fail(ErrorView::MalformedIdentifier(detail)),
        },
{
    let answers = seq![LookupView::Found(latest), LookupView::Found(last)];
    assert(answers.take(0) =~= seq![]);
    assert(answers.take(1) =~= seq![LookupView::Found(latest)]);
}

/// A filter that sets only the start of its range starts at the block that
/// its start names, looked up first, and ends at the latest block, looked up
/// second. A start that cannot be parsed fails the filter before the chain is
/// asked anything.
pub proof fn lemma_only_from_block(filter: FilterView, first: u64, latest: u64)
    requires
        filter.block_hash is None,
        filter.to_block is None,
        filter.from_block is Some,
    ensures
        match parsed_tag(filter.from_block.unwrap()) {
            Ok(start) => {
                &&& plan_of(filter).step(seq![]) == StepView::Ask(QueryView::Tag(start))
                &&& plan_of(filter).step(seq![LookupView::Found(first)]) == StepView::Ask(
                    QueryView::Tag(BlockTag::Latest),
                )
                &&& plan_of(filter).step(
                    seq![LookupView::Found(first), LookupView::Found(latest)],
                ) == StepView::Done(first, latest)
                &&& is_run(
                    plan_of(filter),
                    seq![LookupView::Found(first), LookupView::Found(latest)],
                )
                &&& outcome(filter, seq![LookupView::Found(first), LookupView::Found(latest)])
                    == Some(validated(filter, first, latest))
            },
            Err(detail) => plan_of(filter).step(seq![]) == StepView::Fail(
                ErrorView::MalformedIdentifier(detail),
            ),
        },
{
    let answers = seq![LookupView::Found(first), LookupView::Found(latest)];
    assert(answers.take(0) =~= seq![]);
    assert(answers.take(1) =~= seq![LookupView::Found(first)]);
}

/// A filter that sets both ends of its range has each looked up on its own,
/// the start first, and the two numbers are the range as they came: nothing
/// asks that the first be the smaller.
pub proof fn lemma_both_ends(filter: FilterView, first: u64, last: u64)
    requires
        filter.block_hash is None,
        filter.from_block is Some,
        filter.to_block is Some,
    ensures
        match (parsed_tag(filter.from_block.unwrap()), parsed_tag(filter.to_block.unwrap())) {
            (Ok(start), Ok(end)) => {
                &&& plan_of(filter).step(seq![]) == StepView::Ask(QueryView::Tag(start))
                &&& plan_of(filter).step(seq![LookupView::Found(first)]) == StepView::Ask(
                    QueryView::Tag(end),
                )
                &&& plan_of(filter).step(seq![LookupView::Found(first), LookupView::Found(last)])
                    == StepView::Done(first, last)
                &&& is_run(
                    plan_of(filter),
                    seq![LookupView::Found(first), LookupView::Found(last)],
                )
                &&& outcome(filter, seq![LookupView::Found(first), LookupView::Found(last)])
                    == Some(validated(filter, first, last))
            },
            (Ok(start), Err(detail)) => {
                &&& plan_of(filter).step(seq![]) == StepView::Ask(QueryView::Tag(start))
                &&& plan_of(filter).step(seq![LookupView::Found(first)]) == StepView::Fail(
                    ErrorView::MalformedIdentifier(detail),
                )
            },
            (Err(detail), _) => plan_of(filter).step(seq![]) == StepView::Fail(
                ErrorView::MalformedIdentifier(detail),
            ),
        },
{
    let answers = seq![LookupView::Found(first), LookupView::Found(last)];
    assert(answers.take(0) =~= seq![]);
    assert(answers.take(1) =~= seq![LookupView::Found(first)]);
}

/// A filter that sets a block hash and no range is resolved by one lookup of
/// that hash, and the block's number is both ends of the range: whatever the
/// chain answers, a range that comes of it begins and ends at one block. A
/// hash that cannot be parsed fails the filter before the chain is asked
/// anything.
pub proof fn lemma_block_hash_alone(filter: FilterView, number: u64)
    requires
        filter.from_block is None,
        filter.to_block is None,
        filter.block_hash is Some,
    ensures
        match parsed_hash(filter.block_hash.unwrap()) {
            Ok(hash) => {
                &&& plan_of(filter).step(seq![]) == StepView::Ask(QueryView::Hash(hash))
                &&& plan_of(filter).step(seq![LookupView::Found(number)]) == StepView::Done(
                    number,
                    number,
                )
                &&& is_run(plan_of(filter), seq![LookupView::Found(number)])
                &&& outcome(filter, seq![LookupView::Found(number)]) == Some(
                    validated(filter, number, number),
                )
            },
            Err(detail) => plan_of(filter).step(seq![]) == StepView::Fail(
                ErrorView::MalformedIdentifier(detail),
            ),
        },
        forall|result: Result<ValidatedView, ErrorView>|
            may_yield(filter, result) ==> (result matches Ok(range) ==> range.from_block
                == range.to_block),
{
    let answers = seq![LookupView::Found(number)];
    assert(answers.take(0) =~= seq![]);
}

/// A filter that sets a block hash beside a start or an end of a range is
/// refused as ambiguous before the chain is asked anything, whatever else it
/// holds.
pub proof fn lemma_hash_beside_range_is_ambiguous(filter: FilterView, answers: Seq<LookupView>)
    requires
        filter.block_hash is Some,
        filter.from_block is Some || filter.to_block is Some,
    ensures
        plan_of(filter) == PlanView::Ambiguous,
        is_run(plan_of(filter), seq![]),
        outcome(filter, answers) == Some(
            Err::<ValidatedView, ErrorView>(ErrorView::AmbiguousRange),
        ),
        forall|result: Result<ValidatedView, ErrorView>|
            may_yield(filter, result) ==> result == Err::<ValidatedView, ErrorView>(
                ErrorView::AmbiguousRange,
            ),
{
}

/// A filter with more than four topics whose block range resolves is refused
/// for its topics, whatever its other fields hold. (The range is resolved
/// first: where that fails, its error is the one returned.)
pub proof fn lemma_more_than_four_topics(filter: FilterView, answers: Seq<LookupView>)
    requires
        filter.topics.len() > 4,
        plan_of(filter).step(answers) is Done,
    ensures
        outcome(filter, answers) == Some(
            Err::<ValidatedView, ErrorView>(ErrorView::TooManyTopics),
        ),
        forall|result: Result<ValidatedView, ErrorView>|
            may_yield(filter, result) ==> result is Err,
{
}

} // verus!
