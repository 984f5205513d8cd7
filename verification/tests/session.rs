use shadow_reth_rpc::{
    BlockHash, BlockResolver, BlockTag, GetLogsError, GetLogsParameters, GetLogsResponse,
    GetLogsResult, GetLogsRpcRequest, GetLogsSession, Lookup, Progress, RawGetLogsRow,
    ValidatedQueryParams,
};

struct Head(u64);

impl BlockResolver for Head {
    fn resolve_by_tag(&self, tag: BlockTag) -> Lookup {
        match tag {
            BlockTag::Latest => Lookup::Found(self.0),
            BlockTag::Number(n) if n <= self.0 => Lookup::Found(n),
            _ => Lookup::NotFound,
        }
    }

    fn resolve_by_hash(&self, _hash: &BlockHash) -> Lookup {
        Lookup::NotFound
    }
}

fn log(block_number: i64, index: i64) -> RawGetLogsRow {
    RawGetLogsRow {
        address: vec![0xaa],
        block_hash: vec![0xbb],
        block_log_index: index,
        block_number,
        data: vec![0x01, 0x02],
        removed: false,
        topic_0: Some(vec![0x0c]),
        topic_1: None,
        topic_2: None,
        topic_3: None,
        transaction_hash: vec![0xdd],
        transaction_index: 0,
        transaction_log_index: index,
    }
}

fn filter(address: &str, from: Option<&str>, to: Option<&str>) -> GetLogsParameters {
    GetLogsParameters {
        address: vec![address.to_string()],
        block_hash: None,
        from_block: from.map(|s| s.to_string()),
        to_block: to.map(|s| s.to_string()),
        topics: vec![],
    }
}

fn request(params: Vec<GetLogsParameters>) -> GetLogsRpcRequest {
    GetLogsRpcRequest {
        id: "7".to_string(),
        json_rpc: "2.0".to_string(),
        method: "shadow_getLogs".to_string(),
        params,
    }
}

fn statement_of(progress: &Progress) -> String {
    match progress {
        Progress::Query { statement, .. } => statement.clone(),
        other => panic!("no query: {other:?}"),
    }
}

fn rows_to(progress: Progress, rows: Vec<RawGetLogsRow>) -> Progress {
    match progress {
        Progress::Query { session, .. } => session.rows_returned(rows),
        other => panic!("no query: {other:?}"),
    }
}

#[test]
fn a_request_without_filters_answers_at_once() {
    match GetLogsSession::open(&Head(10), request(vec![])) {
        Progress::Done(response) => assert_eq!(
            response,
            GetLogsResponse { id: "7".to_string(), json_rpc: "2.0".to_string(), result: vec![] }
        ),
        other => panic!("unexpected: {other:?}"),
    }
}

#[test]
fn filters_are_searched_in_order_and_their_logs_gathered() {
    let filters = vec![filter("0x01", None, None), filter("0x02", Some("0x2"), Some("0x5"))];
    let first = GetLogsSession::open(&Head(10), request(filters));
    assert!(statement_of(&first)
        .ends_with("FROM shadow_logs WHERE address IN (X'01') AND block_number BETWEEN 10 AND 10"));
    let second = rows_to(first, vec![log(10, 0), log(10, 1)]);
    assert!(statement_of(&second)
        .ends_with("FROM shadow_logs WHERE address IN (X'02') AND block_number BETWEEN 2 AND 5"));
    let done = rows_to(second, vec![log(3, 4), log(2, 0), log(5, 1)]);
    match done {
        Progress::Done(response) => {
            assert_eq!(response.id, "7");
            assert_eq!(response.json_rpc, "2.0");
            let expected: Vec<GetLogsResult> =
                vec![log(10, 0), log(10, 1), log(3, 4), log(2, 0), log(5, 1)]
                    .into_iter()
                    .map(GetLogsResult::from)
                    .collect();
            assert_eq!(response.result, expected);
        }
        other => panic!("unexpected: {other:?}"),
    }
}

#[test]
fn a_filter_without_logs_adds_nothing() {
    let filters = vec![filter("0x01", None, None), filter("0x02", None, None)];
    let first = GetLogsSession::open(&Head(3), request(filters));
    let second = rows_to(first, vec![]);
    let done = rows_to(second, vec![log(3, 0)]);
    match done {
        Progress::Done(response) => {
            assert_eq!(response.result, vec![GetLogsResult::from(log(3, 0))])
        }
        other => panic!("unexpected: {other:?}"),
    }
}

#[test]
fn a_refused_filter_fails_the_request_before_any_query() {
    let filters = vec![filter("0x01", None, None), filter("0x02", Some("0x63"), None)];
    match GetLogsSession::open(&Head(10), request(filters)) {
        Progress::Failed(error) => {
            assert_eq!(error.message(), "No block found for block number or tag: 0x63")
        }
        other => panic!("unexpected: {other:?}"),
    }
}

#[test]
fn a_failed_query_fails_the_request() {
    let filters = vec![filter("0x01", None, None), filter("0x02", None, None)];
    let first = GetLogsSession::open(&Head(10), request(filters));
    let second = rows_to(first, vec![log(10, 0)]);
    match second {
        Progress::Query { session, .. } => {
            let error = session.query_failed("no such table: shadow_logs".to_string());
            assert_eq!(
                error,
                GetLogsError::QueryExecutionFailure("no such table: shadow_logs".to_string())
            );
            assert_eq!(error.code(), -32603);
            assert_eq!(error.message(), "no such table: shadow_logs");
        }
        other => panic!("unexpected: {other:?}"),
    }
}

#[test]
fn a_predicate_that_cannot_be_written_fails_when_its_turn_comes() {
    let filters = vec![filter("0x01", None, None), filter("nonsense", None, None)];
    let first = GetLogsSession::open(&Head(10), request(filters));
    assert!(statement_of(&first).contains("X'01'"));
    match rows_to(first, vec![log(10, 0)]) {
        Progress::Failed(error) => assert_eq!(
            error,
            GetLogsError::QueryExecutionFailure(
                "Malformed hexadecimal literal in predicate: nonsense".to_string()
            )
        ),
        other => panic!("unexpected: {other:?}"),
    }
}

#[test]
fn a_search_can_start_from_validated_filters() {
    let filters = vec![ValidatedQueryParams {
        from_block: 1,
        to_block: 2,
        addresses: vec![],
        topics: [None, None, None, None],
    }];
    let first = GetLogsSession::start("a".to_string(), "2.0".to_string(), filters);
    assert!(statement_of(&first).ends_with("WHERE block_number BETWEEN 1 AND 2"));
    match rows_to(first, vec![log(1, 0)]) {
        Progress::Done(response) => assert_eq!(response.result.len(), 1),
        other => panic!("unexpected: {other:?}"),
    }
}
