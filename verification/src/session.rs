//! One log search from request to response: the filters are validated, then
//! searched one after another in the store, and the rows that come back are
//! encoded and gathered in that order.

use vstd::prelude::*;
use crate::block::BlockResolver;
use crate::error::{ErrorView, GetLogsError};
use crate::filter::{
    all_may_yield, first_refusal, validate_all, ValidatedQueryParams, ValidatedView,
};
use crate::predicate::{text_view, where_text};
use crate::wire::{
    wire_entry, EntryView, GetLogsResponse, GetLogsResult, GetLogsRpcRequest, RawGetLogsRow,
    RequestView, ResponseView, RowView,
};

verus! {

/// The columns that a search reads and the table that holds them.
pub open spec fn select_text() -> Seq<char> {
    "SELECT address, block_hash, block_log_index, block_number, data, removed, topic_0, topic_1, topic_2, topic_3, transaction_hash, transaction_index, transaction_log_index FROM shadow_logs"@
}

/// The statement that searches the store for one validated filter: the
/// selection, a space and the filter's predicate.
pub open spec fn statement_text(filter: ValidatedView) -> Result<Seq<char>, ErrorView> {
    match where_text(filter) {
        Ok(predicate) => Ok(select_text() + " "@ + predicate),
        Err(error) => Err(error),
    }
}

/// The statement that searches the store for `filter`.
pub fn select_statement(filter: &ValidatedQueryParams) -> (r: Result<String, GetLogsError>)
    ensures
        text_view(r) == statement_text(filter@),
{
    match filter.where_clause() {
        Ok(predicate) => {
            let mut statement = String::from_str(
                "SELECT address, block_hash, block_log_index, block_number, data, removed, topic_0, topic_1, topic_2, topic_3, transaction_hash, transaction_index, transaction_log_index FROM shadow_logs",
            );
            statement.append(" ");
            statement.append(predicate.as_str());
            Ok(statement)
        },
        Err(error) => Err(error),
    }
}

/// The wire forms of `rows`, in the order of the rows.
pub open spec fn wire_entries(rows: Seq<RowView>) -> Seq<EntryView> {
    Seq::new(rows.len(), |i: int| wire_entry(rows[i]))
}

/// Encodes every row into its wire form, keeping the order.
pub fn encode_rows(rows: Vec<RawGetLogsRow>) -> (entries: Vec<GetLogsResult>)
    ensures
        entries.len() == rows.len(),
        entries.deep_view() == wire_entries(rows.deep_view()),
{
    let mut entries: Vec<GetLogsResult> = Vec::new();
    for row in iter: rows.into_iter()
        invariant
            iter.seq() == rows@,
            entries.len() == iter.index(),
            forall|k: int| 0 <= k < entries.len() ==> entries[k]@ == wire_entry(rows[k]@),
    {
        entries.push(GetLogsResult::from(row));
    }
    assert(entries.deep_view() =~= wire_entries(rows.deep_view()));
    entries
}

/// A log search under way: the validated filters, how many of them have been
/// searched, and the logs found so far.
#[derive(Debug)]
pub struct GetLogsSession {
    id: String,
    json_rpc: String,
    filters: Vec<ValidatedQueryParams>,
    position: usize,
    results: Vec<GetLogsResult>,
}

/// The mathematical content of a [`GetLogsSession`].
pub struct SessionView {
    pub id: Seq<char>,
    pub json_rpc: Seq<char>,
    pub filters: Seq<ValidatedView>,
    pub position: nat,
    pub results: Seq<EntryView>,
}

/// Where a log search stands.
#[derive(Debug)]
pub enum Progress {
    /// The store is to run `statement`; what it returns goes to `session`.
    Query { session: GetLogsSession, statement: String },
    /// Every filter has been searched: the response.
    Done(GetLogsResponse),
    /// The search failed, and nothing is returned of what was found.
    Failed(GetLogsError),
}

/// The mathematical content of a [`Progress`].
pub enum ProgressView {
    Query { session: SessionView, statement: Seq<char> },
    Done(ResponseView),
    Failed(ErrorView),
}

impl View for Progress {
    type V = ProgressView;

    open spec fn view(&self) -> ProgressView {
        match self {
            Progress::Query { session, statement } => ProgressView::Query {
                session: session@,
                statement: statement@,
            },
            Progress::Done(response) => ProgressView::Done(response@),
            Progress::Failed(error) => ProgressView::Failed(error@),
        }
    }
}

impl SessionView {
    /// What comes next: the response once every filter has been searched,
    /// else the statement for the next filter, or the failure where that
    /// filter's predicate cannot be written.
    pub open spec fn next(self) -> ProgressView {
        if self.position >= self.filters.len() {
            ProgressView::Done(
                ResponseView { id: self.id, json_rpc: self.json_rpc, result: self.results },
            )
        } else {
            match statement_text(self.filters[self.position as int]) {
                Ok(statement) => ProgressView::Query { session: self, statement },
                Err(error) => ProgressView::Failed(error),
            }
        }
    }

    /// The session after the store returned `rows` for the filter in turn:
    /// their wire forms follow the logs found so far, and the next filter is
    /// in turn.
    pub open spec fn with_rows(self, rows: Seq<RowView>) -> SessionView {
        SessionView {
            position: self.position + 1,
            results: self.results + wire_entries(rows),
            ..self
        }
    }
}

/// The search for `request` as it begins once its filters have validated to
/// `filters`: nothing searched, nothing found.
pub open spec fn begun(request: RequestView, filters: Seq<ValidatedView>) -> SessionView {
    SessionView {
        id: request.id,
        json_rpc: request.json_rpc,
        filters,
        position: 0,
        results: Seq::empty(),
    }
}

/// The wire forms of all rows of `batches`, batch after batch.
pub open spec fn gathered(batches: Seq<Seq<RowView>>) -> Seq<EntryView>
    decreases batches.len(),
{
    if batches.len() == 0 {
        Seq::empty()
    } else {
        gathered(batches.drop_last()) + wire_entries(batches.last())
    }
}

impl SessionView {
    /// The session after the store answered one statement after another
    /// with the rows of `batches`.
    pub open spec fn with_batches(self, batches: Seq<Seq<RowView>>) -> SessionView
        decreases batches.len(),
    {
        if batches.len() == 0 {
            self
        } else {
            self.with_batches(batches.drop_last()).with_rows(batches.last())
        }
    }
}

/// Whatever the store returns, a search keeps the logs it has found and puts
/// the new ones behind them, filter after filter and row after row; its
/// filters and the request's identification stay as they are.
pub proof fn lemma_logs_are_gathered_in_order(session: SessionView, batches: Seq<Seq<RowView>>)
    ensures
        session.with_batches(batches).results == session.results + gathered(batches),
        session.with_batches(batches).position == session.position + batches.len(),
        session.with_batches(batches).filters == session.filters,
        session.with_batches(batches).id == session.id,
        session.with_batches(batches).json_rpc == session.json_rpc,
    decreases batches.len(),
{
    if batches.len() == 0 {
        assert(session.results + gathered(batches) =~= session.results);
    } else {
        lemma_logs_are_gathered_in_order(session, batches.drop_last());
        assert(session.with_batches(batches).results =~= session.results + gathered(batches));
    }
}

/// Once the store has answered for every filter, the search is done, and its
/// response holds the logs of all filters in the order of the filters, under
/// the identification of the request.
pub proof fn lemma_search_ends_with_all_logs(
    request: RequestView,
    filters: Seq<ValidatedView>,
    batches: Seq<Seq<RowView>>,
)
    requires
        batches.len() == filters.len(),
    ensures
        begun(request, filters).with_batches(batches).next() == ProgressView::Done(
            ResponseView { id: request.id, json_rpc: request.json_rpc, result: gathered(batches) },
        ),
{
    lemma_logs_are_gathered_in_order(begun(request, filters), batches);
    assert(begun(request, filters).results + gathered(batches) =~= gathered(batches));
}

impl View for GetLogsSession {
    type V = SessionView;

    closed spec fn view(&self) -> SessionView {
        SessionView {
            id: self.id@,
            json_rpc: self.json_rpc@,
            filters: self.filters.deep_view(),
            position: self.position as nat,
            results: self.results.deep_view(),
        }
    }
}

impl GetLogsSession {
    /// A session waits for the rows of one of its filters.
    #[verifier::type_invariant]
    spec fn well_formed(self) -> bool {
        self.position < self.filters.len()
    }

    /// What comes next for a search in this state.
    fn proceed(
        id: String,
        json_rpc: String,
        filters: Vec<ValidatedQueryParams>,
        position: usize,
        results: Vec<GetLogsResult>,
    ) -> (progress: Progress)
        requires
            position <= filters.len(),
        ensures
            progress@ == (SessionView {
                id: id@,
                json_rpc: json_rpc@,
                filters: filters.deep_view(),
                position: position as nat,
                results: results.deep_view(),
            }).next(),
    {
        if position >= filters.len() {
            Progress::Done(GetLogsResponse { id, json_rpc, result: results })
        } else {
            match select_statement(&filters[position]) {
                Ok(statement) => Progress::Query {
                    session: GetLogsSession { id, json_rpc, filters, position, results },
                    statement,
                },
                Err(error) => Progress::Failed(error),
            }
        }
    }

    /// Begins the search for filters that passed validation.
    pub fn start(id: String, json_rpc: String, filters: Vec<ValidatedQueryParams>) -> (progress:
        Progress)
        ensures
            progress@ == (SessionView {
                id: id@,
                json_rpc: json_rpc@,
                filters: filters.deep_view(),
                position: 0,
                results: Seq::empty(),
            }).next(),
    {
        let results: Vec<GetLogsResult> = Vec::new();
        assert(results.deep_view() =~= Seq::empty());
        GetLogsSession::proceed(id, json_rpc, filters, 0, results)
    }

    /// Validates every filter of `request` against the chain, in order, and
    /// begins the search. The first filter that is refused fails the request
    /// before the store is asked anything.
    pub fn open<R: BlockResolver>(provider: &R, request: GetLogsRpcRequest) -> (progress: Progress)
        ensures
            (progress@ matches ProgressView::Failed(error) && first_refusal(
                request@.params,
                error,
            )) || (exists|filters: Seq<ValidatedView>|
                #![trigger all_may_yield(request@.params, filters)]
                all_may_yield(request@.params, filters) && progress@ == begun(
                    request@,
                    filters,
                ).next()),
    {
        let GetLogsRpcRequest { id, json_rpc, method: _, params } = request;
        match validate_all(provider, params) {
            Ok(filters) => {
                let ghost validated = filters.deep_view();
                let progress = GetLogsSession::start(id, json_rpc, filters);
                assert(all_may_yield(request@.params, validated));
                progress
            },
            Err(error) => Progress::Failed(error),
        }
    }

    /// Takes the rows that the store returned for the statement last handed
    /// out: encodes them behind the logs found so far and moves on to the
    /// next filter.
    pub fn rows_returned(self, rows: Vec<RawGetLogsRow>) -> (progress: Progress)
        ensures
            progress@ == self@.with_rows(rows.deep_view()).next(),
    {
        proof {
            use_type_invariant(&self);
        }
        let GetLogsSession { id, json_rpc, filters, position, results } = self;
        let mut results = results;
        let ghost found = results.deep_view();
        let mut entries = encode_rows(rows);
        results.append(&mut entries);
        assert(results.deep_view() =~= found + wire_entries(rows.deep_view()));
        GetLogsSession::proceed(id, json_rpc, filters, position + 1, results)
    }

    /// Gives up the search because the store failed on the statement last
    /// handed out. `detail` is the store's message.
    pub fn query_failed(self, detail: String) -> (error: GetLogsError)
        ensures
            error@ == ErrorView::QueryExecutionFailure(detail@),
    {
        GetLogsError::QueryExecutionFailure(detail)
    }
}

} // verus!
