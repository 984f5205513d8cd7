//! From a validated filter to the predicate that the log store evaluates: an
//! ordered list of clauses, all of which a log must meet, and its text.

use vstd::prelude::*;
use crate::error::{ErrorView, GetLogsError};
use crate::filter::{ValidatedQueryParams, ValidatedView};
use crate::text::{
    blob_literal, blob_literal_text, decimal_digits, is_hex_text, push_decimal,
};

verus! {

/// One condition on a stored log.
#[derive(Debug, Clone, PartialEq, Eq)]
pub enum Clause {
    /// The log's address is one of these.
    AddressIn(Vec<String>),
    /// The log's block number lies in this range, both ends included.
    BlockRange { from_block: u64, to_block: u64 },
    /// The log's topic at `position` is exactly `value`.
    TopicEq { position: usize, value: String },
}

/// The mathematical content of a [`Clause`].
pub enum ClauseView {
    AddressIn(Seq<Seq<char>>),
    BlockRange { from_block: u64, to_block: u64 },
    TopicEq { position: usize, value: Seq<char> },
}

impl View for Clause {
    type V = ClauseView;

    open spec fn view(&self) -> ClauseView {
        match self {
            Clause::AddressIn(addresses) => ClauseView::AddressIn(addresses.deep_view()),
            Clause::BlockRange { from_block, to_block } => ClauseView::BlockRange {
                from_block: *from_block,
                to_block: *to_block,
            },
            Clause::TopicEq { position, value } => ClauseView::TopicEq {
                position: *position,
                value: value@,
            },
        }
    }
}

impl DeepView for Clause {
    type V = ClauseView;

    open spec fn deep_view(&self) -> ClauseView {
        self@
    }
}

/// The address clause: present where at least one address is given.
pub open spec fn address_clauses(addresses: Seq<Seq<char>>) -> Seq<ClauseView> {
    if addresses.len() > 0 {
        seq![ClauseView::AddressIn(addresses)]
    } else {
        seq![]
    }
}

/// The clause of one topic position: present where the slot is set.
pub open spec fn topic_clauses(topics: Seq<Option<Seq<char>>>, position: usize) -> Seq<
    ClauseView,
> {
    match topics[position as int] {
        Some(value) => seq![ClauseView::TopicEq { position, value }],
        None => seq![],
    }
}

/// The clauses of a validated filter, in their fixed order: the addresses,
/// the block range, then the topics by position. The block range is always
/// there; each of the others only where the filter sets it.
pub open spec fn clauses_of(filter: ValidatedView) -> Seq<ClauseView> {
    address_clauses(filter.addresses) + seq![
        ClauseView::BlockRange { from_block: filter.from_block, to_block: filter.to_block },
    ] + topic_clauses(filter.topics, 0) + topic_clauses(filter.topics, 1) + topic_clauses(
        filter.topics,
        2,
    ) + topic_clauses(filter.topics, 3)
}

/// The error for a value that cannot be written as a binary literal.
pub open spec fn malformed_literal(value: Seq<char>) -> ErrorView {
    ErrorView::QueryExecutionFailure("Malformed hexadecimal literal in predicate: "@ + value)
}

/// The binary literal for `value`: its hexadecimal digits between `X'` and
/// `'`. A value that is not `0x` and hexadecimal digits has none.
pub open spec fn literal(value: Seq<char>) -> Result<Seq<char>, ErrorView> {
    if is_hex_text(value) {
        Ok(blob_literal_text(value))
    } else {
        Err(malformed_literal(value))
    }
}

/// The literals of `values`, separated by a comma and a space. The first
/// value without a literal decides the error.
pub open spec fn literal_list(values: Seq<Seq<char>>) -> Result<Seq<char>, ErrorView>
    decreases values.len(),
{
    if values.len() == 0 {
        Ok(Seq::empty())
    } else {
        match literal_list(values.drop_last()) {
            Err(error) => Err(error),
            Ok(list) => match literal(values.last()) {
                Err(error) => Err(error),
                Ok(text) => Ok(
                    if values.len() == 1 {
                        text
                    } else {
                        list + ", "@ + text
                    },
                ),
            },
        }
    }
}

impl ClauseView {
    /// The place of the clause in the fixed order.
    pub open spec fn rank(self) -> int {
        match self {
            ClauseView::AddressIn(_) => 0,
            ClauseView::BlockRange { .. } => 1,
            ClauseView::TopicEq { position, .. } => 2 + position,
        }
    }

    /// The text of the clause.
    pub open spec fn text(self) -> Result<Seq<char>, ErrorView> {
        match self {
            ClauseView::AddressIn(addresses) => match literal_list(addresses) {
                Ok(list) => Ok("address IN ("@ + list + ")"@),
                Err(error) => Err(error),
            },
            ClauseView::BlockRange { from_block, to_block } => Ok(
                "block_number BETWEEN "@ + decimal_digits(from_block as nat) + " AND "@
                    + decimal_digits(to_block as nat),
            ),
            ClauseView::TopicEq { position, value } => match literal(value) {
                Ok(text) => Ok("topic_"@ + decimal_digits(position as nat) + " = "@ + text),
                Err(error) => Err(error),
            },
        }
    }
}

/// The texts of `clauses`, joined by ` AND `. The first clause without a text
/// decides the error.
pub open spec fn conjunction(clauses: Seq<ClauseView>) -> Result<Seq<char>, ErrorView>
    decreases clauses.len(),
{
    if clauses.len() == 0 {
        Ok(Seq::empty())
    } else {
        match conjunction(clauses.drop_last()) {
            Err(error) => Err(error),
            Ok(joined) => match clauses.last().text() {
                Err(error) => Err(error),
                Ok(text) => Ok(
                    if clauses.len() == 1 {
                        text
                    } else {
                        joined + " AND "@ + text
                    },
                ),
            },
        }
    }
}

/// The predicate of a validated filter as text: `WHERE` and its clauses.
pub open spec fn where_text(filter: ValidatedView) -> Result<Seq<char>, ErrorView> {
    match conjunction(clauses_of(filter)) {
        Ok(joined) => Ok("WHERE "@ + joined),
        Err(error) => Err(error),
    }
}

/// The content of a text or of the error in its place.
pub open spec fn text_view(r: Result<String, GetLogsError>) -> Result<Seq<char>, ErrorView> {
    match r {
        Ok(text) => Ok(text@),
        Err(error) => Err(error@),
    }
}

/// The binary literal for `value`.
fn render_literal(value: &str) -> (r: Result<String, GetLogsError>)
    ensures
        text_view(r) == literal(value@),
{
    match blob_literal(value) {
        Some(text) => Ok(text),
        None => {
            let message = String::from_str("Malformed hexadecimal literal in predicate: ").concat(
                value,
            );
            Err(GetLogsError::QueryExecutionFailure(message))
        },
    }
}

/// The literals of `values`, separated by a comma and a space.
fn render_literal_list(values: &Vec<String>) -> (r: Result<String, GetLogsError>)
    ensures
        text_view(r) == literal_list(values.deep_view()),
{
    let mut list = String::new();
    let mut i: usize = 0;
    assert(values.deep_view().take(0) =~= Seq::empty());
    while i < values.len()
        invariant
            i <= values.len(),
            literal_list(values.deep_view().take(i as int)) == Ok::<Seq<char>, ErrorView>(list@),
        decreases values.len() - i,
    {
        let ghost done = values.deep_view().take(i as int);
        let ghost next = values.deep_view().take(i + 1);
        assert(next.drop_last() =~= done);
        assert(next.last() == values[i as int]@);
        match render_literal(values[i].as_str()) {
            Err(error) => {
                proof {
                    lemma_literal_list_error_stays(values.deep_view(), i + 1);
                }
                return Err(error);
            },
            Ok(text) => {
                if i > 0 {
                    list.append(", ");
                }
                list.append(text.as_str());
                assert(literal_list(next) == Ok::<Seq<char>, ErrorView>(list@)) by {
                    assert(literal_list(next) matches Ok(t) && t =~= list@);
                }
            },
        }
        i += 1;
    }
    assert(values.deep_view().take(i as int) =~= values.deep_view());
    Ok(list)
}

/// Once a prefix of `values` has no list of literals, no longer prefix has
/// one, and the error stays the same.
proof fn lemma_literal_list_error_stays(values: Seq<Seq<char>>, k: int)
    requires
        0 <= k <= values.len(),
        literal_list(values.take(k)) is Err,
    ensures
        literal_list(values) == literal_list(values.take(k)),
    decreases values.len() - k,
{
    if k < values.len() {
        let next = values.take(k + 1);
        assert(next.drop_last() =~= values.take(k));
        lemma_literal_list_error_stays(values, k + 1);
    } else {
        assert(values.take(k) =~= values);
    }
}

/// Once a prefix of `clauses` has no text, no longer prefix has one, and the
/// error stays the same.
proof fn lemma_conjunction_error_stays(clauses: Seq<ClauseView>, k: int)
    requires
        0 <= k <= clauses.len(),
        conjunction(clauses.take(k)) is Err,
    ensures
        conjunction(clauses) == conjunction(clauses.take(k)),
    decreases clauses.len() - k,
{
    if k < clauses.len() {
        let next = clauses.take(k + 1);
        assert(next.drop_last() =~= clauses.take(k));
        lemma_conjunction_error_stays(clauses, k + 1);
    } else {
        assert(clauses.take(k) =~= clauses);
    }
}

impl Clause {
    /// The text of the clause, or the error for the first of its values that
    /// cannot be written as a binary literal.
    pub fn render(&self) -> (r: Result<String, GetLogsError>)
        ensures
            text_view(r) == self@.text(),
    {
        match self {
            Clause::AddressIn(addresses) => {
                match render_literal_list(addresses) {
                    Ok(list) => {
                        let mut text = String::from_str("address IN (");
                        text.append(list.as_str());
                        text.append(")");
                        Ok(text)
                    },
                    Err(error) => Err(error),
                }
            },
            Clause::BlockRange { from_block, to_block } => {
                let mut text = String::from_str("block_number BETWEEN ");
                push_decimal(&mut text, *from_block);
                text.append(" AND ");
                push_decimal(&mut text, *to_block);
                Ok(text)
            },
            Clause::TopicEq { position, value } => {
                match render_literal(value.as_str()) {
                    Ok(literal) => {
                        let mut text = String::from_str("topic_");
                        push_decimal(&mut text, *position as u64);
                        text.append(" = ");
                        text.append(literal.as_str());
                        Ok(text)
                    },
                    Err(error) => Err(error),
                }
            },
        }
    }
}

/// The texts of `clauses`, joined by ` AND `.
pub fn render_conjunction(clauses: &Vec<Clause>) -> (r: Result<String, GetLogsError>)
    ensures
        text_view(r) == conjunction(clauses.deep_view()),
{
    let mut joined = String::new();
    let mut i: usize = 0;
    assert(clauses.deep_view().take(0) =~= Seq::empty());
    while i < clauses.len()
        invariant
            i <= clauses.len(),
            conjunction(clauses.deep_view().take(i as int)) == Ok::<Seq<char>, ErrorView>(
                joined@,
            ),
        decreases clauses.len() - i,
    {
        let ghost done = clauses.deep_view().take(i as int);
        let ghost next = clauses.deep_view().take(i + 1);
        assert(next.drop_last() =~= done);
        assert(next.last() == clauses[i as int]@);
        match clauses[i].render() {
            Err(error) => {
                proof {
                    lemma_conjunction_error_stays(clauses.deep_view(), i + 1);
                }
                return Err(error);
            },
            Ok(text) => {
                if i > 0 {
                    joined.append(" AND ");
                }
                joined.append(text.as_str());
                assert(conjunction(next) == Ok::<Seq<char>, ErrorView>(joined@)) by {
                    assert(conjunction(next) matches Ok(t) && t =~= joined@);
                }
            },
        }
        i += 1;
    }
    assert(clauses.deep_view().take(i as int) =~= clauses.deep_view());
    Ok(joined)
}

/// A copy of `values`.
fn copy_texts(values: &Vec<String>) -> (copy: Vec<String>)
    ensures
        copy.deep_view() == values.deep_view(),
{
    let mut copy: Vec<String> = Vec::new();
    let mut i: usize = 0;
    while i < values.len()
        invariant
            i <= values.len(),
            copy.len() == i,
            forall|k: int| 0 <= k < i ==> copy[k]@ == values[k]@,
        decreases values.len() - i,
    {
        copy.push(values[i].clone());
        i += 1;
    }
    assert(copy.deep_view() =~= values.deep_view());
    copy
}

impl ValidatedQueryParams {
    /// The clauses of the filter, in their fixed order.
    pub fn clauses(&self) -> (clauses: Vec<Clause>)
        ensures
            clauses.deep_view() == clauses_of(self@),
    {
        let mut clauses: Vec<Clause> = Vec::new();
        if self.addresses.len() > 0 {
            clauses.push(Clause::AddressIn(copy_texts(&self.addresses)));
        }
        clauses.push(Clause::BlockRange { from_block: self.from_block, to_block: self.to_block });
        let ghost fixed = address_clauses(self@.addresses) + seq![
            ClauseView::BlockRange { from_block: self.from_block, to_block: self.to_block },
        ];
        assert(clauses.deep_view() =~= fixed);
        let mut position: usize = 0;
        while position < 4
            invariant
                position <= 4,
                clauses.deep_view() =~= fixed + (if position > 0 {
                    topic_clauses(self@.topics, 0)
                } else {
                    seq![]
                }) + (if position > 1 {
                    topic_clauses(self@.topics, 1)
                } else {
                    seq![]
                }) + (if position > 2 {
                    topic_clauses(self@.topics, 2)
                } else {
                    seq![]
                }) + (if position > 3 {
                    topic_clauses(self@.topics, 3)
                } else {
                    seq![]
                }),
            decreases 4 - position,
        {
            let ghost before = clauses.deep_view();
            match &self.topics[position] {
                Some(value) => {
                    clauses.push(Clause::TopicEq { position, value: value.clone() });
                    assert(clauses.deep_view() =~= before + topic_clauses(self@.topics, position));
                },
                None => {
                    assert(before =~= before + topic_clauses(self@.topics, position));
                },
            }
            position += 1;
        }
        assert(clauses.deep_view() =~= clauses_of(self@));
        clauses
    }

    /// The predicate of the filter as text: `WHERE` and its clauses joined by
    /// ` AND `. Each address and topic is written as a binary literal; the
    /// first that cannot be, in the order of the clauses, is reported as a
    /// query failure.
    pub fn where_clause(&self) -> (r: Result<String, GetLogsError>)
        ensures
            text_view(r) == where_text(self@),
    {
        let clauses = self.clauses();
        match render_conjunction(&clauses) {
            Ok(joined) => {
                let mut text = String::from_str("WHERE ");
                text.append(joined.as_str());
                Ok(text)
            },
            Err(error) => Err(error),
        }
    }
}

/// The clauses of a validated filter stand in one fixed order: addresses,
/// block range, topics by position. The block range is always among them, the
/// address clause exactly where an address is given, and the clause of a
/// topic position exactly where that slot is set; it holds the slot's value.
pub proof fn lemma_clauses_in_fixed_order(filter: ValidatedView)
    requires
        filter.topics.len() == 4,
    ensures
        forall|i: int, j: int|
            0 <= i < j < clauses_of(filter).len() ==> clauses_of(filter)[i].rank() < clauses_of(
                filter,
            )[j].rank(),
        clauses_of(filter).contains(
            ClauseView::BlockRange { from_block: filter.from_block, to_block: filter.to_block },
        ),
        forall|i: int|
            0 <= i < clauses_of(filter).len() ==> match #[trigger] clauses_of(filter)[i] {
                ClauseView::AddressIn(addresses) => addresses == filter.addresses
                    && addresses.len() > 0,
                ClauseView::BlockRange { from_block, to_block } => from_block == filter.from_block
                    && to_block == filter.to_block,
                ClauseView::TopicEq { position, value } => position < 4
                    && filter.topics[position as int] == Some(value),
            },
        filter.addresses.len() > 0 ==> clauses_of(filter).contains(
            ClauseView::AddressIn(filter.addresses),
        ),
        forall|position: usize|
            position < 4 && filter.topics[position as int] is Some ==> clauses_of(
                filter,
            ).contains(
                ClauseView::TopicEq { position, value: filter.topics[position as int].unwrap() },
            ),
{
    let clauses = clauses_of(filter);
    let head = address_clauses(filter.addresses);
    let range = ClauseView::BlockRange {
        from_block: filter.from_block,
        to_block: filter.to_block,
    };
    let t0 = topic_clauses(filter.topics, 0);
    let t1 = topic_clauses(filter.topics, 1);
    let t2 = topic_clauses(filter.topics, 2);
    let t3 = topic_clauses(filter.topics, 3);
    let n = head.len() as int;
    assert(clauses[n] == range);
    if filter.addresses.len() > 0 {
        assert(clauses[0] == ClauseView::AddressIn(filter.addresses));
    }
    assert forall|position: usize|
        position < 4 && filter.topics[position as int] is Some implies clauses.contains(
        ClauseView::TopicEq { position, value: filter.topics[position as int].unwrap() },
    ) by {
        let at = if position == 0 {
            n + 1
        } else if position == 1 {
            n + 1 + t0.len()
        } else if position == 2 {
            n + 1 + t0.len() + t1.len()
        } else {
            n + 1 + t0.len() + t1.len() + t2.len()
        };
        assert(clauses[at] == ClauseView::TopicEq {
            position,
            value: filter.topics[position as int].unwrap(),
        });
    }
}

/// A filter without addresses and without topics has exactly one clause, the
/// block range, and its predicate is that clause behind `WHERE`.
pub proof fn lemma_block_range_alone(filter: ValidatedView)
    requires
        filter.addresses.len() == 0,
        filter.topics.len() == 4,
        forall|i: int| 0 <= i < 4 ==> filter.topics[i] is None,
    ensures
        clauses_of(filter) == seq![
            ClauseView::BlockRange { from_block: filter.from_block, to_block: filter.to_block },
        ],
        where_text(filter) == Ok::<Seq<char>, ErrorView>(
            "WHERE "@ + ("block_number BETWEEN "@ + decimal_digits(filter.from_block as nat)
                + " AND "@ + decimal_digits(filter.to_block as nat)),
        ),
{
    let range = ClauseView::BlockRange {
        from_block: filter.from_block,
        to_block: filter.to_block,
    };
    assert(clauses_of(filter) =~= seq![range]);
    assert(seq![range].drop_last() =~= Seq::<ClauseView>::empty());
    reveal_with_fuel(conjunction, 2);
}

} // verus!
