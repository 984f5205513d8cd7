//! Block identifiers: the forms in which a filter names a block, how their
//! text is parsed, and the interface to the chain that resolves them.

use vstd::prelude::*;
use crate::text::hex_digits;

verus! {

/// A block named by its number or by a symbolic tag.
#[derive(Debug, Clone, Copy, PartialEq, Eq, Structural)]
pub enum BlockTag {
    /// The latest block.
    Latest,
    /// The finalized block accepted as canonical.
    Finalized,
    /// The safe head block.
    Safe,
    /// The earliest block.
    Earliest,
    /// The pending block.
    Pending,
    /// The block of this number on the canonical chain.
    Number(u64),
}

/// The hash of a block.
#[derive(Debug, Clone, Copy, PartialEq, Eq)]
pub struct BlockHash {
    pub bytes: [u8; 32],
}

impl View for BlockHash {
    type V = Seq<u8>;

    open spec fn view(&self) -> Seq<u8> {
        self.bytes@
    }
}

/// What is asked of the chain: the number of the block that a tag or a hash
/// names.
#[derive(Debug, Clone, Copy, PartialEq, Eq)]
pub enum BlockQuery {
    Tag(BlockTag),
    Hash(BlockHash),
}

/// The mathematical content of a [`BlockQuery`].
pub enum QueryView {
    Tag(BlockTag),
    Hash(Seq<u8>),
}

impl View for BlockQuery {
    type V = QueryView;

    open spec fn view(&self) -> QueryView {
        match self {
            BlockQuery::Tag(tag) => QueryView::Tag(*tag),
            BlockQuery::Hash(hash) => QueryView::Hash(hash@),
        }
    }
}

/// What the chain answered to one [`BlockQuery`].
#[derive(Debug, Clone, PartialEq, Eq)]
pub enum Lookup {
    /// The block exists and has this number.
    Found(u64),
    /// The chain holds no such block.
    NotFound,
    /// The chain could not be read; the text says why.
    Failed(String),
}

/// The mathematical content of a [`Lookup`].
pub enum LookupView {
    Found(u64),
    NotFound,
    Failed(Seq<char>),
}

impl View for Lookup {
    type V = LookupView;

    open spec fn view(&self) -> LookupView {
        match self {
            Lookup::Found(number) => LookupView::Found(*number),
            Lookup::NotFound => LookupView::NotFound,
            Lookup::Failed(detail) => LookupView::Failed(detail@),
        }
    }
}

impl DeepView for Lookup {
    type V = LookupView;

    open spec fn deep_view(&self) -> LookupView {
        self@
    }
}

/// The canonical chain, as far as the log search needs it. Each call reads
/// the chain as it is at that moment: two calls with one argument may differ.
pub trait BlockResolver {
    /// The number of the block that `tag` names now.
    fn resolve_by_tag(&self, tag: BlockTag) -> Lookup;

    /// The number of the block with this hash.
    fn resolve_by_hash(&self, hash: &BlockHash) -> Lookup;
}

/// What `alloy_eips::BlockNumberOrTag::from_str` makes of a text: the tag or
/// number, or the message of its error.
pub uninterp spec fn parsed_tag(text: Seq<char>) -> Result<BlockTag, Seq<char>>;

/// What `alloy_primitives::B256::from_str` makes of a text: the 32 bytes, or
/// the message of its error.
pub uninterp spec fn parsed_hash(text: Seq<char>) -> Result<Seq<u8>, Seq<char>>;

/// `BlockNumberOrTag::from_str` of alloy-eips. The contract names the outcome
/// after the text alone: the variant that came back, or the error's own
/// message.
#[verifier::external_body]
pub(crate) fn parse_tag(text: &str) -> (r: Result<BlockTag, String>)
    ensures
        match r {
            Ok(tag) => parsed_tag(text@) == Ok::<BlockTag, Seq<char>>(tag),
            Err(detail) => parsed_tag(text@) == Err::<BlockTag, Seq<char>>(detail@),
        },
{
    match text.parse::<alloy_eips::BlockNumberOrTag>() {
        Ok(alloy_eips::BlockNumberOrTag::Latest) => Ok(BlockTag::Latest),
        Ok(alloy_eips::BlockNumberOrTag::Finalized) => Ok(BlockTag::Finalized),
        Ok(alloy_eips::BlockNumberOrTag::Safe) => Ok(BlockTag::Safe),
        Ok(alloy_eips::BlockNumberOrTag::Earliest) => Ok(BlockTag::Earliest),
        Ok(alloy_eips::BlockNumberOrTag::Pending) => Ok(BlockTag::Pending),
        Ok(alloy_eips::BlockNumberOrTag::Number(number)) => Ok(BlockTag::Number(number)),
        Err(error) => Err(error.to_string()),
    }
}

/// `B256::from_str` of alloy-primitives. The contract names the outcome after
/// the text alone: the bytes that came back, or the error's own message.
#[verifier::external_body]
pub(crate) fn parse_hash(text: &str) -> (r: Result<BlockHash, String>)
    ensures
        match r {
            Ok(hash) => parsed_hash(text@) == Ok::<Seq<u8>, Seq<char>>(hash@),
            Err(detail) => parsed_hash(text@) == Err::<Seq<u8>, Seq<char>>(detail@),
        },
{
    match text.parse::<alloy_primitives::B256>() {
        Ok(hash) => Ok(BlockHash { bytes: hash.0 }),
        Err(error) => Err(error.to_string()),
    }
}

/// How a tag or number is written: the tag's lowercase name, or `0x` and the
/// number in lowercase hexadecimal without leading zeros.
pub open spec fn tag_text(tag: BlockTag) -> Seq<char> {
    match tag {
        BlockTag::Latest => "latest"@,
        BlockTag::Finalized => "finalized"@,
        BlockTag::Safe => "safe"@,
        BlockTag::Earliest => "earliest"@,
        BlockTag::Pending => "pending"@,
        BlockTag::Number(number) => "0x"@ + hex_digits(number as nat),
    }
}

/// The `Display` form of alloy-eips' `BlockNumberOrTag`: a tag is written as
/// its lowercase name, a number as `0x` and its lowercase hexadecimal digits.
#[verifier::external_body]
pub(crate) fn tag_to_string(tag: BlockTag) -> (s: String)
    ensures
        s@ == tag_text(tag),
{
    let outside = match tag {
        BlockTag::Latest => alloy_eips::BlockNumberOrTag::Latest,
        BlockTag::Finalized => alloy_eips::BlockNumberOrTag::Finalized,
        BlockTag::Safe => alloy_eips::BlockNumberOrTag::Safe,
        BlockTag::Earliest => alloy_eips::BlockNumberOrTag::Earliest,
        BlockTag::Pending => alloy_eips::BlockNumberOrTag::Pending,
        BlockTag::Number(number) => alloy_eips::BlockNumberOrTag::Number(number),
    };
    outside.to_string()
}

} // verus!
