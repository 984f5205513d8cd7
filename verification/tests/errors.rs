use shadow_reth_rpc::{BlockIdentifier, BlockTag, GetLogsError};

#[test]
fn each_error_has_its_code() {
    let tag = BlockIdentifier::Tag(BlockTag::Latest);
    assert_eq!(GetLogsError::BlockNotFound(tag).code(), -1);
    assert_eq!(GetLogsError::AmbiguousRange.code(), -32001);
    assert_eq!(GetLogsError::TooManyTopics.code(), 32002);
    assert_eq!(GetLogsError::MalformedIdentifier("m".to_string()).code(), -1);
    assert_eq!(GetLogsError::ResolverUnavailable("r".to_string()).code(), -1);
    assert_eq!(GetLogsError::QueryExecutionFailure("q".to_string()).code(), -32603);
}

#[test]
fn each_error_has_its_message() {
    assert_eq!(
        GetLogsError::AmbiguousRange.message(),
        "Parameters fromBlock and toBlock cannot be used if blockHash parameter is present"
    );
    assert_eq!(GetLogsError::TooManyTopics.message(), "Only up to four topics are allowed");
    assert_eq!(GetLogsError::MalformedIdentifier("odd".to_string()).message(), "odd");
    assert_eq!(GetLogsError::ResolverUnavailable("down".to_string()).message(), "down");
    assert_eq!(GetLogsError::QueryExecutionFailure("locked".to_string()).message(), "locked");
    assert_eq!(
        GetLogsError::BlockNotFound(BlockIdentifier::Hash("0xabc".to_string())).message(),
        "No block found for block hash: 0xabc"
    );
}

#[test]
fn a_missing_tag_or_number_is_written_as_the_chain_writes_it() {
    let message = |tag: BlockTag| GetLogsError::BlockNotFound(BlockIdentifier::Tag(tag)).message();
    assert_eq!(message(BlockTag::Latest), "No block found for block number or tag: latest");
    assert_eq!(message(BlockTag::Finalized), "No block found for block number or tag: finalized");
    assert_eq!(message(BlockTag::Safe), "No block found for block number or tag: safe");
    assert_eq!(message(BlockTag::Earliest), "No block found for block number or tag: earliest");
    assert_eq!(message(BlockTag::Pending), "No block found for block number or tag: pending");
    assert_eq!(message(BlockTag::Number(0)), "No block found for block number or tag: 0x0");
    assert_eq!(message(BlockTag::Number(255)), "No block found for block number or tag: 0xff");
    assert_eq!(
        message(BlockTag::Number(u64::MAX)),
        "No block found for block number or tag: 0xffffffffffffffff"
    );
}

#[test]
fn numbers_are_written_in_minimal_lowercase_hex() {
    let mut n: u64 = 1;
    loop {
        for m in [n - 1, n, n.saturating_add(1)] {
            let error = GetLogsError::BlockNotFound(BlockIdentifier::Tag(BlockTag::Number(m)));
            assert_eq!(
                error.message(),
                format!("No block found for block number or tag: 0x{m:x}")
            );
        }
        match n.checked_mul(16) {
            Some(next) => n = next,
            None => break,
        }
    }
}
