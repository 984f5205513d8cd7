//! The request and response shapes of the log search, the stored row, and the
//! encoding of a stored row into its wire form.

use vstd::prelude::*;
use crate::text::{be_bytes, be_hex, decimal, hex_lower, i64_to_decimal, prefixed_hex};

verus! {

/// One filter object as the client sent it: nothing in it has been checked.
#[derive(Debug, Clone, PartialEq, Eq)]
pub struct GetLogsParameters {
    /// Contract addresses from which logs should originate.
    pub address: Vec<String>,
    /// Hash of the one block from which logs should originate.
    pub block_hash: Option<String>,
    /// Start of the block range from which logs should originate.
    pub from_block: Option<String>,
    /// End of the block range from which logs should originate.
    pub to_block: Option<String>,
    /// Topics, by position.
    pub topics: Vec<String>,
}

/// The mathematical content of a filter object.
pub struct FilterView {
    pub address: Seq<Seq<char>>,
    pub block_hash: Option<Seq<char>>,
    pub from_block: Option<Seq<char>>,
    pub to_block: Option<Seq<char>>,
    pub topics: Seq<Seq<char>>,
}

impl View for GetLogsParameters {
    type V = FilterView;

    open spec fn view(&self) -> FilterView {
        FilterView {
            address: self.address.deep_view(),
            block_hash: self.block_hash.deep_view(),
            from_block: self.from_block.deep_view(),
            to_block: self.to_block.deep_view(),
            topics: self.topics.deep_view(),
        }
    }
}

impl DeepView for GetLogsParameters {
    type V = FilterView;

    open spec fn deep_view(&self) -> FilterView {
        self@
    }
}

/// A log search request.
#[derive(Debug, Clone)]
pub struct GetLogsRpcRequest {
    /// Request identifier established by the client.
    pub id: String,
    /// Version of the JSON-RPC protocol.
    pub json_rpc: String,
    /// The method to be invoked.
    pub method: String,
    /// The filter objects, each searched on its own.
    pub params: Vec<GetLogsParameters>,
}

/// The mathematical content of a request.
pub struct RequestView {
    pub id: Seq<char>,
    pub json_rpc: Seq<char>,
    pub method: Seq<char>,
    pub params: Seq<FilterView>,
}

impl View for GetLogsRpcRequest {
    type V = RequestView;

    open spec fn view(&self) -> RequestView {
        RequestView {
            id: self.id@,
            json_rpc: self.json_rpc@,
            method: self.method@,
            params: self.params.deep_view(),
        }
    }
}

/// One log in its wire form.
#[derive(Debug, Clone, PartialEq, Eq)]
pub struct GetLogsResult {
    /// Contract address from which the log originated.
    pub address: String,
    /// Hash of the block from which the log originated.
    pub block_hash: String,
    /// Number of the block from which the log originated.
    pub block_number: String,
    /// The non-indexed arguments of the log.
    pub data: String,
    /// Index of the log in its block.
    pub log_index: String,
    /// Whether the log has been removed from the canonical chain.
    pub removed: bool,
    /// Topics, by position.
    pub topics: [Option<String>; 4],
    /// Hash of the transaction from which the log originated.
    pub transaction_hash: String,
    /// Index of that transaction in its block.
    pub transaction_index: String,
}

/// The mathematical content of a log in its wire form.
pub struct EntryView {
    pub address: Seq<char>,
    pub block_hash: Seq<char>,
    pub block_number: Seq<char>,
    pub data: Seq<char>,
    pub log_index: Seq<char>,
    pub removed: bool,
    pub topics: Seq<Option<Seq<char>>>,
    pub transaction_hash: Seq<char>,
    pub transaction_index: Seq<char>,
}

impl View for GetLogsResult {
    type V = EntryView;

    open spec fn view(&self) -> EntryView {
        EntryView {
            address: self.address@,
            block_hash: self.block_hash@,
            block_number: self.block_number@,
            data: self.data@,
            log_index: self.log_index@,
            removed: self.removed,
            topics: self.topics.deep_view(),
            transaction_hash: self.transaction_hash@,
            transaction_index: self.transaction_index@,
        }
    }
}

impl DeepView for GetLogsResult {
    type V = EntryView;

    open spec fn deep_view(&self) -> EntryView {
        self@
    }
}

/// A log search response.
#[derive(Debug, Clone, PartialEq, Eq)]
pub struct GetLogsResponse {
    /// Identifier of the request that this answers.
    pub id: String,
    /// Version of the JSON-RPC protocol.
    pub json_rpc: String,
    /// The logs found, filter object by filter object.
    pub result: Vec<GetLogsResult>,
}

/// The mathematical content of a response.
pub struct ResponseView {
    pub id: Seq<char>,
    pub json_rpc: Seq<char>,
    pub result: Seq<EntryView>,
}

impl View for GetLogsResponse {
    type V = ResponseView;

    open spec fn view(&self) -> ResponseView {
        ResponseView { id: self.id@, json_rpc: self.json_rpc@, result: self.result.deep_view() }
    }
}

/// One row of the log store.
#[derive(Debug, Clone, PartialEq, Eq)]
pub struct RawGetLogsRow {
    /// Address from which the log originated.
    pub address: Vec<u8>,
    /// Hash of the block from which the log originated.
    pub block_hash: Vec<u8>,
    /// Index of the log in its block.
    pub block_log_index: i64,
    /// Number of the block from which the log originated.
    pub block_number: i64,
    /// The non-indexed arguments of the log.
    pub data: Vec<u8>,
    /// Whether the log was removed from the canonical chain.
    pub removed: bool,
    /// Hash of the event signature.
    pub topic_0: Option<Vec<u8>>,
    /// Additional topic #1.
    pub topic_1: Option<Vec<u8>>,
    /// Additional topic #2.
    pub topic_2: Option<Vec<u8>>,
    /// Additional topic #3.
    pub topic_3: Option<Vec<u8>>,
    /// Hash of the transaction from which the log originated.
    pub transaction_hash: Vec<u8>,
    /// Index of that transaction in its block.
    pub transaction_index: i64,
    /// Index of the log within its transaction.
    pub transaction_log_index: i64,
}

/// The mathematical content of a stored row.
pub struct RowView {
    pub address: Seq<u8>,
    pub block_hash: Seq<u8>,
    pub block_log_index: int,
    pub block_number: i64,
    pub data: Seq<u8>,
    pub removed: bool,
    pub topics: Seq<Option<Seq<u8>>>,
    pub transaction_hash: Seq<u8>,
    pub transaction_index: int,
    pub transaction_log_index: int,
}

impl View for RawGetLogsRow {
    type V = RowView;

    open spec fn view(&self) -> RowView {
        RowView {
            address: self.address@,
            block_hash: self.block_hash@,
            block_log_index: self.block_log_index as int,
            block_number: self.block_number,
            data: self.data@,
            removed: self.removed,
            topics: seq![
                self.topic_0.deep_view(),
                self.topic_1.deep_view(),
                self.topic_2.deep_view(),
                self.topic_3.deep_view(),
            ],
            transaction_hash: self.transaction_hash@,
            transaction_index: self.transaction_index as int,
            transaction_log_index: self.transaction_log_index as int,
        }
    }
}

impl DeepView for RawGetLogsRow {
    type V = RowView;

    open spec fn deep_view(&self) -> RowView {
        self@
    }
}

/// The wire form of binary data: `0x` and two lowercase hexadecimal
/// characters per byte.
pub open spec fn wire_bytes(bytes: Seq<u8>) -> Seq<char> {
    seq!['0', 'x'] + hex_lower(bytes)
}

/// The wire form of a topic that may be absent.
pub open spec fn wire_topic(topic: Option<Seq<u8>>) -> Option<Seq<char>> {
    match topic {
        Some(bytes) => Some(wire_bytes(bytes)),
        None => None,
    }
}

/// The wire form of a stored row: binary columns as prefixed lowercase
/// hexadecimal, the block number as the sixteen hexadecimal characters of its
/// big-endian bytes without a prefix, the two indices in decimal, the removed
/// flag as it is, and one slot for each of the four topics.
pub open spec fn wire_entry(row: RowView) -> EntryView {
    EntryView {
        address: wire_bytes(row.address),
        block_hash: wire_bytes(row.block_hash),
        block_number: hex_lower(be_bytes(row.block_number)),
        data: wire_bytes(row.data),
        log_index: decimal(row.block_log_index),
        removed: row.removed,
        topics: Seq::new(4, |i: int| wire_topic(row.topics[i])),
        transaction_hash: wire_bytes(row.transaction_hash),
        transaction_index: decimal(row.transaction_index),
    }
}

/// Encodes a topic that may be absent.
fn encode_topic(topic: Option<Vec<u8>>) -> (t: Option<String>)
    ensures
        t.deep_view() == wire_topic(topic.deep_view()),
{
    match topic {
        Some(bytes) => {
            let t = Some(prefixed_hex(bytes.as_slice()));
            assert(bytes.deep_view() =~= bytes@);
            t
        },
        None => None,
    }
}

impl vstd::std_specs::convert::FromSpecImpl<RawGetLogsRow> for GetLogsResult {
    open spec fn obeys_from_spec() -> bool {
        false
    }

    open spec fn from_spec(value: RawGetLogsRow) -> GetLogsResult {
        arbitrary()
    }
}

impl From<RawGetLogsRow> for GetLogsResult {
    /// Encodes a stored row into its wire form.
    fn from(value: RawGetLogsRow) -> (entry: GetLogsResult)
        ensures
            entry@ == wire_entry(value@),
    {
        let entry = GetLogsResult {
            address: prefixed_hex(value.address.as_slice()),
            block_hash: prefixed_hex(value.block_hash.as_slice()),
            block_number: be_hex(value.block_number),
            data: prefixed_hex(value.data.as_slice()),
            log_index: i64_to_decimal(value.block_log_index),
            removed: value.removed,
            topics: [
                encode_topic(value.topic_0),
                encode_topic(value.topic_1),
                encode_topic(value.topic_2),
                encode_topic(value.topic_3),
            ],
            transaction_hash: prefixed_hex(value.transaction_hash.as_slice()),
            transaction_index: i64_to_decimal(value.transaction_index),
        };
        assert(entry@.topics =~= wire_entry(value@).topics);
        entry
    }
}

} // verus!
