//! From the block fields of a filter to a concrete block range: which lookups
//! the chain is asked for, in which order, and what each answer leads to.

use vstd::prelude::*;
use crate::block::{
    parse_hash, parse_tag, parsed_hash, parsed_tag, BlockHash, BlockQuery, BlockTag, Lookup,
    LookupView, QueryView,
};
use crate::error::{BlockIdentifier, ErrorView, GetLogsError, IdentifierView};
use crate::wire::{FilterView, GetLogsParameters};

verus! {

/// How a filter locates its blocks, with every identifier already parsed.
#[derive(Debug, PartialEq, Eq)]
pub enum RangePlan {
    /// A block hash stands beside a start or an end of a range.
    Ambiguous,
    /// The one block with this hash. `text` is the hash as the client wrote
    /// it, `hash` what parsing made of it.
    AtHash { text: String, hash: Result<BlockHash, String> },
    /// No block field is set: the latest block, looked up once.
    Head,
    /// From one block to another, each looked up on its own. An end that the
    /// filter leaves out is the latest block.
    Span { from: Result<BlockTag, String>, to: Result<BlockTag, String> },
}

/// The mathematical content of a [`RangePlan`].
pub enum PlanView {
    Ambiguous,
    AtHash { text: Seq<char>, hash: Result<Seq<u8>, Seq<char>> },
    Head,
    Span { from: Result<BlockTag, Seq<char>>, to: Result<BlockTag, Seq<char>> },
}

/// The content of a parsed tag or of the parser's message.
pub open spec fn tag_result_view(r: Result<BlockTag, String>) -> Result<BlockTag, Seq<char>> {
    match r {
        Ok(tag) => Ok(tag),
        Err(detail) => Err(detail@),
    }
}

/// The content of a parsed hash or of the parser's message.
pub open spec fn hash_result_view(r: Result<BlockHash, String>) -> Result<Seq<u8>, Seq<char>> {
    match r {
        Ok(hash) => Ok(hash@),
        Err(detail) => Err(detail@),
    }
}

impl View for RangePlan {
    type V = PlanView;

    open spec fn view(&self) -> PlanView {
        match self {
            RangePlan::Ambiguous => PlanView::Ambiguous,
            RangePlan::AtHash { text, hash } => PlanView::AtHash {
                text: text@,
                hash: hash_result_view(*hash),
            },
            RangePlan::Head => PlanView::Head,
            RangePlan::Span { from, to } => PlanView::Span {
                from: tag_result_view(*from),
                to: tag_result_view(*to),
            },
        }
    }
}

/// What comes next in resolving a block range.
#[derive(Debug, Clone, PartialEq, Eq)]
pub enum Step {
    /// The chain is to be asked this, and its answer added to the answers.
    Ask(BlockQuery),
    /// The range is resolved: its first and its last block, both included.
    Done(u64, u64),
    /// The filter is refused.
    Fail(GetLogsError),
}

/// The mathematical content of a [`Step`].
pub enum StepView {
    Ask(QueryView),
    Done(u64, u64),
    Fail(ErrorView),
}

impl View for Step {
    type V = StepView;

    open spec fn view(&self) -> StepView {
        match self {
            Step::Ask(query) => StepView::Ask(query@),
            Step::Done(from, to) => StepView::Done(*from, *to),
            Step::Fail(error) => StepView::Fail(error@),
        }
    }
}

/// One end of a block range: the parsed text where the filter gives one, the
/// latest block where it gives none.
pub open spec fn range_end(text: Option<Seq<char>>) -> Result<BlockTag, Seq<char>> {
    match text {
        Some(text) => parsed_tag(text),
        None => Ok(BlockTag::Latest),
    }
}

/// The plan that the block fields of a filter call for.
pub open spec fn plan_of(filter: FilterView) -> PlanView {
    match (filter.block_hash, filter.from_block, filter.to_block) {
        (Some(text), None, None) => PlanView::AtHash { text, hash: parsed_hash(text) },
        (Some(_), _, _) => PlanView::Ambiguous,
        (None, None, None) => PlanView::Head,
        (None, from, to) => PlanView::Span { from: range_end(from), to: range_end(to) },
    }
}

/// What the chain's answer to a lookup of `identifier` leads to: the block's
/// number, or the error that names the identifier or repeats the chain's
/// message.
pub open spec fn settled(identifier: IdentifierView, answer: LookupView) -> Result<
    u64,
    ErrorView,
> {
    match answer {
        LookupView::Found(number) => Ok(number),
        LookupView::NotFound => Err(ErrorView::BlockNotFound(identifier)),
        LookupView::Failed(detail) => Err(ErrorView::ResolverUnavailable(detail)),
    }
}

impl PlanView {
    /// The next step of this plan once the chain has given `answers`, in the
    /// order in which it was asked. A hash or an end of a span that could not
    /// be parsed fails the plan when its turn comes: the first end before the
    /// first lookup, the second end after the first answer. Answers beyond
    /// those that the plan asked for are not looked at.
    pub open spec fn step(self, answers: Seq<LookupView>) -> StepView {
        match self {
            PlanView::Ambiguous => StepView::Fail(ErrorView::AmbiguousRange),
            PlanView::AtHash { text, hash } => match hash {
                Err(detail) => StepView::Fail(ErrorView::MalformedIdentifier(detail)),
                Ok(bytes) => if answers.len() == 0 {
                    StepView::Ask(QueryView::Hash(bytes))
                } else {
                    match settled(IdentifierView::Hash(text), answers[0]) {
                        Ok(number) => StepView::Done(number, number),
                        Err(error) => StepView::Fail(error),
                    }
                },
            },
            PlanView::Head => if answers.len() == 0 {
                StepView::Ask(QueryView::Tag(BlockTag::Latest))
            } else {
                match settled(IdentifierView::Tag(BlockTag::Latest), answers[0]) {
                    Ok(number) => StepView::Done(number, number),
                    Err(error) => StepView::Fail(error),
                }
            },
            PlanView::Span { from, to } => match from {
                Err(detail) => StepView::Fail(ErrorView::MalformedIdentifier(detail)),
                Ok(first) => if answers.len() == 0 {
                    StepView::Ask(QueryView::Tag(first))
                } else {
                    match settled(IdentifierView::Tag(first), answers[0]) {
                        Err(error) => StepView::Fail(error),
                        Ok(start) => match to {
                            Err(detail) => StepView::Fail(ErrorView::MalformedIdentifier(detail)),
                            Ok(second) => if answers.len() == 1 {
                                StepView::Ask(QueryView::Tag(second))
                            } else {
                                match settled(IdentifierView::Tag(second), answers[1]) {
                                    Err(error) => StepView::Fail(error),
                                    Ok(end) => StepView::Done(start, end),
                                }
                            },
                        },
                    }
                },
            },
        }
    }
}

/// What the chain's answer to a lookup of `identifier` leads to.
pub fn settle(identifier: BlockIdentifier, answer: &Lookup) -> (r: Result<u64, GetLogsError>)
    ensures
        match r {
            Ok(number) => settled(identifier@, answer@) == Ok::<u64, ErrorView>(number),
            Err(error) => settled(identifier@, answer@) == Err::<u64, ErrorView>(error@),
        },
{
    match answer {
        Lookup::Found(number) => Ok(*number),
        Lookup::NotFound => Err(GetLogsError::BlockNotFound(identifier)),
        Lookup::Failed(detail) => Err(GetLogsError::ResolverUnavailable(detail.clone())),
    }
}

/// One end of a block range, parsed.
fn parse_range_end(text: &Option<String>) -> (r: Result<BlockTag, String>)
    ensures
        tag_result_view(r) == range_end(text.deep_view()),
{
    match text {
        Some(text) => parse_tag(text.as_str()),
        None => Ok(BlockTag::Latest),
    }
}

impl RangePlan {
    /// The plan that the block fields of `params` call for.
    pub fn of(params: &GetLogsParameters) -> (plan: RangePlan)
        ensures
            plan@ == plan_of(params@),
    {
        match &params.block_hash {
            Some(text) => {
                if params.from_block.is_none() && params.to_block.is_none() {
                    RangePlan::AtHash { text: text.clone(), hash: parse_hash(text.as_str()) }
                } else {
                    RangePlan::Ambiguous
                }
            },
            None => {
                if params.from_block.is_none() && params.to_block.is_none() {
                    RangePlan::Head
                } else {
                    RangePlan::Span {
                        from: parse_range_end(&params.from_block),
                        to: parse_range_end(&params.to_block),
                    }
                }
            },
        }
    }

    /// The next step of this plan once the chain has given `answers`, in the
    /// order in which it was asked.
    pub fn step(&self, answers: &Vec<Lookup>) -> (step: Step)
        ensures
            step@ == self@.step(answers.deep_view()),
    {
        match self {
            RangePlan::Ambiguous => Step::Fail(GetLogsError::AmbiguousRange),
            RangePlan::AtHash { text, hash } => match hash {
                Err(detail) => Step::Fail(GetLogsError::MalformedIdentifier(detail.clone())),
                Ok(hash) => if answers.len() == 0 {
                    Step::Ask(BlockQuery::Hash(*hash))
                } else {
                    match settle(BlockIdentifier::Hash(text.clone()), &answers[0]) {
                        Ok(number) => Step::Done(number, number),
                        Err(error) => Step::Fail(error),
                    }
                },
            },
            RangePlan::Head => if answers.len() == 0 {
                Step::Ask(BlockQuery::Tag(BlockTag::Latest))
            } else {
                match settle(BlockIdentifier::Tag(BlockTag::Latest), &answers[0]) {
                    Ok(number) => Step::Done(number, number),
                    Err(error) => Step::Fail(error),
                }
            },
            RangePlan::Span { from, to } => match from {
                Err(detail) => Step::Fail(GetLogsError::MalformedIdentifier(detail.clone())),
                Ok(first) => if answers.len() == 0 {
                    Step::Ask(BlockQuery::Tag(*first))
                } else {
                    match settle(BlockIdentifier::Tag(*first), &answers[0]) {
                        Err(error) => Step::Fail(error),
                        Ok(start) => match to {
                            Err(detail) => Step::Fail(
                                GetLogsError::MalformedIdentifier(detail.clone()),
                            ),
                            Ok(second) => if answers.len() == 1 {
                                Step::Ask(BlockQuery::Tag(*second))
                            } else {
                                match settle(BlockIdentifier::Tag(*second), &answers[1]) {
                                    Err(error) => Step::Fail(error),
                                    Ok(end) => Step::Done(start, end),
                                }
                            },
                        },
                    }
                },
            },
        }
    }
}

} // verus!
