use shadow_reth_rpc::predicate::render_conjunction;
use shadow_reth_rpc::session::select_statement;
use shadow_reth_rpc::{Clause, GetLogsError, ValidatedQueryParams};

fn validated(addresses: Vec<&str>, topics: [Option<&str>; 4]) -> ValidatedQueryParams {
    ValidatedQueryParams {
        from_block: 5,
        to_block: 120,
        addresses: addresses.into_iter().map(|s| s.to_string()).collect(),
        topics: topics.map(|t| t.map(|s| s.to_string())),
    }
}

fn malformed(value: &str) -> GetLogsError {
    GetLogsError::QueryExecutionFailure(format!(
        "Malformed hexadecimal literal in predicate: {value}"
    ))
}

#[test]
fn the_block_range_stands_alone_without_addresses_and_topics() {
    let filter = validated(vec![], [None, None, None, None]);
    assert_eq!(filter.clauses(), vec![Clause::BlockRange { from_block: 5, to_block: 120 }]);
    assert_eq!(filter.where_clause(), Ok("WHERE block_number BETWEEN 5 AND 120".to_string()));
}

#[test]
fn clauses_come_in_their_fixed_order() {
    let filter = validated(vec!["0x12", "0xAB"], [Some("0x01"), None, Some("0x03"), Some("0x04")]);
    assert_eq!(
        filter.clauses(),
        vec![
            Clause::AddressIn(vec!["0x12".to_string(), "0xAB".to_string()]),
            Clause::BlockRange { from_block: 5, to_block: 120 },
            Clause::TopicEq { position: 0, value: "0x01".to_string() },
            Clause::TopicEq { position: 2, value: "0x03".to_string() },
            Clause::TopicEq { position: 3, value: "0x04".to_string() },
        ]
    );
    assert_eq!(
        filter.where_clause(),
        Ok("WHERE address IN (X'12', X'AB') AND block_number BETWEEN 5 AND 120 AND topic_0 = X'01' \
            AND topic_2 = X'03' AND topic_3 = X'04'"
            .to_string())
    );
}

#[test]
fn unset_fields_have_no_clause() {
    let only_address = validated(vec!["0x123"], [None, None, None, None]);
    assert_eq!(
        only_address.where_clause(),
        Ok("WHERE address IN (X'123') AND block_number BETWEEN 5 AND 120".to_string())
    );
    let only_second_topic = validated(vec![], [None, Some("0xbeef"), None, None]);
    assert_eq!(
        only_second_topic.clauses(),
        vec![
            Clause::BlockRange { from_block: 5, to_block: 120 },
            Clause::TopicEq { position: 1, value: "0xbeef".to_string() },
        ]
    );
    assert_eq!(
        only_second_topic.where_clause(),
        Ok("WHERE block_number BETWEEN 5 AND 120 AND topic_1 = X'beef'".to_string())
    );
    let all = validated(vec!["0x01"], [Some("0x0a"), Some("0x0b"), Some("0x0c"), Some("0x0d")]);
    assert_eq!(all.clauses().len(), 6);
}

#[test]
fn each_clause_has_its_text() {
    assert_eq!(
        Clause::BlockRange { from_block: 0, to_block: u64::MAX }.render(),
        Ok("block_number BETWEEN 0 AND 18446744073709551615".to_string())
    );
    assert_eq!(
        Clause::AddressIn(vec!["0x0a".to_string()]).render(),
        Ok("address IN (X'0a')".to_string())
    );
    assert_eq!(
        Clause::AddressIn(vec!["0x0a".to_string(), "0x0b".to_string(), "0x0c".to_string()])
            .render(),
        Ok("address IN (X'0a', X'0b', X'0c')".to_string())
    );
    assert_eq!(
        Clause::TopicEq { position: 3, value: "0xff".to_string() }.render(),
        Ok("topic_3 = X'ff'".to_string())
    );
    assert_eq!(render_conjunction(&vec![]), Ok(String::new()));
}

#[test]
fn a_value_that_is_no_hexadecimal_text_fails_the_predicate() {
    let quote = validated(vec!["0x12", "0x12') OR 1=1 --"], [None, None, None, None]);
    assert_eq!(quote.where_clause(), Err(malformed("0x12') OR 1=1 --")));
    let topic = validated(vec!["0x12"], [Some("0x01"), Some("topic"), Some("also"), None]);
    assert_eq!(topic.where_clause(), Err(malformed("topic")));
    let both = validated(vec!["zz"], [Some("yy"), None, None, None]);
    assert_eq!(both.where_clause(), Err(malformed("zz")));
    let short = validated(vec![""], [None, None, None, None]);
    assert_eq!(short.where_clause(), Err(malformed("")));
    let error = malformed("zz");
    assert_eq!(error.code(), -32603);
    assert_eq!(error.message(), "Malformed hexadecimal literal in predicate: zz");
}

#[test]
fn the_statement_selects_the_columns_of_a_row() {
    let filter = validated(vec!["0x12"], [None, None, None, None]);
    assert_eq!(
        select_statement(&filter),
        Ok("SELECT address, block_hash, block_log_index, block_number, data, removed, topic_0, \
            topic_1, topic_2, topic_3, transaction_hash, transaction_index, \
            transaction_log_index FROM shadow_logs WHERE address IN (X'12') AND block_number \
            BETWEEN 5 AND 120"
            .to_string())
    );
    let bad = validated(vec!["12"], [None, None, None, None]);
    assert_eq!(select_statement(&bad), Err(malformed("12")));
}
