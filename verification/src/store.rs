//! What is done to the rows of a query once the store has handed them over:
//! the payload pattern is matched, and the window of the page is cut out.

use crate::models::{FilterCriteria, Message};
use crate::pattern::{is_valid_regex, regex_is_match, regex_match_of};
use vstd::prelude::*;

verus! {

/// The part of a row that a pattern is matched against.
#[derive(Clone, Copy, Debug, PartialEq, Eq, Structural)]
pub enum RowField {
    Topic,
    Payload,
}

/// The text of a part of a row.
pub open spec fn field_text(row: Message, field: RowField) -> Seq<char> {
    match field {
        RowField::Topic => row.topic@,
        RowField::Payload => row.payload@,
    }
}

/// The pattern matches the given part of the row.
pub open spec fn field_matches(pattern: Seq<char>, row: Message, field: RowField) -> bool {
    regex_match_of(pattern, field_text(row, field)) == Some(true)
}

/// The pattern matches the payload of the row.
pub open spec fn payload_matches(pattern: Seq<char>, row: Message) -> bool {
    field_matches(pattern, row, RowField::Payload)
}

/// The rows of which the pattern matches the given part, in their order.
/// Without a pattern, or with one that does not compile, every row stays.
pub open spec fn pattern_kept(rows: Seq<Message>, pattern: Option<String>, field: RowField) -> Seq<
    Message,
> {
    match pattern {
        Some(p) => if is_valid_regex(p@) {
            rows.filter(|m: Message| field_matches(p@, m, field))
        } else {
            rows
        },
        None => rows,
    }
}

/// The rows whose payload the pattern matches, in their order.
pub open spec fn pattern_filtered(rows: Seq<Message>, pattern: Option<String>) -> Seq<Message> {
    pattern_kept(rows, pattern, RowField::Payload)
}

/// The rows from `offset` on. A negative offset leaves no row.
pub open spec fn skipped(rows: Seq<Message>, offset: Option<i64>) -> Seq<Message> {
    match offset {
        Some(o) => if 0 <= o <= rows.len() {
            rows.skip(o as int)
        } else {
            Seq::empty()
        },
        None => rows,
    }
}

/// The first `limit` rows. A negative limit leaves every row.
pub open spec fn limited(rows: Seq<Message>, limit: Option<i64>) -> Seq<Message> {
    match limit {
        Some(l) => if 0 <= l < rows.len() {
            rows.take(l as int)
        } else {
            rows
        },
        None => rows,
    }
}

/// What a query for the messages of a topic returns, given the rows of the
/// topic within the time bounds, newest first.
pub open spec fn selected(rows: Seq<Message>, criteria: FilterCriteria) -> Seq<Message> {
    limited(skipped(pattern_filtered(rows, criteria.payload_regex), criteria.offset), criteria.limit)
}

/// Keeps the rows whose payload the pattern matches.
pub fn filter_by_payload(rows: Vec<Message>, pattern: &Option<String>) -> (kept: Vec<Message>)
    ensures
        kept@ == pattern_filtered(rows@, *pattern),
{
    filter_by_pattern(rows, pattern, RowField::Payload)
}

/// Keeps the rows of which the pattern matches the given part.
pub fn filter_by_pattern(rows: Vec<Message>, pattern: &Option<String>, field: RowField) -> (kept:
    Vec<Message>)
    ensures
        kept@ == pattern_kept(rows@, *pattern, field),
{
    let text: &String = match pattern {
        Some(p) => p,
        None => {
            return rows;
        },
    };
    let ghost keep = |m: Message| field_matches(text@, m, field);
    let mut kept: Vec<Message> = Vec::new();
    let mut i: usize = 0;
    proof {
        reveal(Seq::filter);
        assert(rows@.take(0).filter(keep) =~= Seq::<Message>::empty());
    }
    while i < rows.len()
        invariant
            i <= rows.len(),
            *pattern == Some(*text),
            keep == |m: Message| field_matches(text@, m, field),
            kept@ == rows@.take(i as int).filter(keep),
            i > 0 ==> is_valid_regex(text@),
        decreases rows.len() - i,
    {
        let found: Option<bool> = match field {
            RowField::Topic => regex_is_match(text.as_str(), rows[i].topic.as_str()),
            RowField::Payload => regex_is_match(text.as_str(), rows[i].payload.as_str()),
        };
        proof {
            reveal(Seq::filter);
            assert(rows@.take(i + 1).drop_last() =~= rows@.take(i as int));
            assert(rows@.take(i + 1).last() == rows@[i as int]);
        }
        match found {
            None => {
                return rows;
            },
            Some(hit) => {
                if hit {
                    kept.push(rows[i].clone());
                }
            },
        }
        i = i + 1;
    }
    assert(rows@.take(rows@.len() as int) =~= rows@);
    if rows.len() == 0 {
        proof {
            reveal(Seq::filter);
        }
        assert(rows@.filter(keep) =~= rows@);
        return rows;
    }
    kept
}

/// Cuts the window of a page out of the rows.
pub fn cut_window(rows: Vec<Message>, offset: Option<i64>, limit: Option<i64>) -> (out: Vec<
    Message,
>)
    ensures
        out@ == limited(skipped(rows@, offset), limit),
{
    let len: usize = rows.len();
    let start: usize = match offset {
        Some(o) => if o < 0 {
            len
        } else if o as u64 >= len as u64 {
            len
        } else {
            o as usize
        },
        None => 0,
    };
    let rest: usize = len - start;
    let count: usize = match limit {
        Some(l) => if l < 0 {
            rest
        } else if l as u64 >= rest as u64 {
            rest
        } else {
            l as usize
        },
        None => rest,
    };
    let mut out: Vec<Message> = Vec::new();
    let mut i: usize = 0;
    while i < count
        invariant
            i <= count,
            start + count <= rows.len(),
            out@ == rows@.subrange(start as int, start + i),
        decreases count - i,
    {
        out.push(rows[start + i].clone());
        assert(out@ =~= rows@.subrange(start as int, start + i + 1));
        i = i + 1;
    }
    assert(out@ =~= limited(skipped(rows@, offset), limit));
    out
}

/// What a query for the messages of a topic returns, given the rows of the
/// topic within the time bounds, newest first.
pub fn select_rows(rows: Vec<Message>, criteria: &FilterCriteria) -> (out: Vec<Message>)
    ensures
        out@ == selected(rows@, *criteria),
{
    let kept: Vec<Message> = filter_by_payload(rows, &criteria.payload_regex);
    cut_window(kept, criteria.offset, criteria.limit)
}

/// Two windows that follow each other make up the window that spans both:
/// pages neither overlap nor leave a gap.
pub proof fn lemma_adjacent_windows_join(rows: Seq<Message>, offset: int, first: int, second: int)
    requires
        0 <= offset,
        0 <= first,
        0 <= second,
        offset + first + second <= i64::MAX,
    ensures
        limited(skipped(rows, Some(offset as i64)), Some(first as i64)) + limited(
            skipped(rows, Some((offset + first) as i64)),
            Some(second as i64),
        ) == limited(skipped(rows, Some(offset as i64)), Some((first + second) as i64)),
{
    assert(limited(skipped(rows, Some(offset as i64)), Some(first as i64)) + limited(
        skipped(rows, Some((offset + first) as i64)),
        Some(second as i64),
    ) =~= limited(skipped(rows, Some(offset as i64)), Some((first + second) as i64)));
}

/// The query without window returns every row that the pattern lets
/// through, and a window never holds more rows than its limit.
pub proof fn lemma_window_within_limit(rows: Seq<Message>, criteria: FilterCriteria)
    ensures
        criteria.offset is None && criteria.limit is None ==> selected(rows, criteria)
            == pattern_filtered(rows, criteria.payload_regex),
        criteria.limit is Some && criteria.limit->0 >= 0 ==> selected(rows, criteria).len()
            <= criteria.limit->0,
        selected(rows, criteria).len() <= rows.len(),
{
    match criteria.payload_regex {
        Some(p) => {
            rows.lemma_filter_len(|m: Message| field_matches(p@, m, RowField::Payload));
        },
        None => {},
    }
}

} // verus!
