//! The summary of the store by topic: how many messages a topic has, when
//! its first and its last came in, and what the last one said.

use crate::datetime::Timestamp;
use crate::models::{store_count, FilterCriteria, Message, TopicStat};
use crate::store::{filter_by_pattern, pattern_kept, RowField};
use vstd::hash_map::StringHashMap;
use vstd::prelude::*;

verus! {

/// The row at `at` is the newest of its topic, and the last of the rows
/// that are: every row of the topic after it is strictly older.
pub open spec fn is_newest(rows: Seq<Message>, at: int) -> bool {
    &&& 0 <= at < rows.len()
    &&& forall|j: int|
        0 <= j < rows.len() && (#[trigger] rows[j]).topic@ == rows[at].topic@
            ==> !rows[at].timestamp.before(rows[j].timestamp)
    &&& forall|j: int|
        at < j < rows.len() && (#[trigger] rows[j]).topic@ == rows[at].topic@
            ==> rows[j].timestamp.before(rows[at].timestamp)
}

/// The row at `at` is the oldest of its topic, or one of the oldest.
pub open spec fn is_oldest(rows: Seq<Message>, at: int) -> bool {
    &&& 0 <= at < rows.len()
    &&& forall|j: int|
        0 <= j < rows.len() && (#[trigger] rows[j]).topic@ == rows[at].topic@
            ==> !rows[j].timestamp.before(rows[at].timestamp)
}

/// Number of rows of a topic.
pub open spec fn count_of(rows: Seq<Message>, topic: Seq<char>) -> nat {
    rows.filter(|m: Message| m.topic@ == topic).len()
}

/// `stat` sums up the rows of its topic: their number, the times of the
/// oldest and the newest, and the payload of the newest.
#[verifier::opaque]
pub open spec fn sums_up(stat: TopicStat, rows: Seq<Message>) -> bool {
    &&& stat.message_count == store_count(count_of(rows, stat.topic@) as int)
    &&& stat.latest_payload is Some
    &&& exists|newest: int| #[trigger]
        is_newest(rows, newest) && rows[newest].topic@ == stat.topic@ && rows[newest].timestamp
            == stat.last_message_time && rows[newest].payload@ == stat.latest_payload->0@
    &&& exists|oldest: int| #[trigger]
        is_oldest(rows, oldest) && rows[oldest].topic@ == stat.topic@ && rows[oldest].timestamp
            == stat.first_message_time
}

/// `stats` is the summary of `rows`: one entry for each topic that has a
/// row, none twice, each summing up its topic.
pub open spec fn is_summary(stats: Seq<TopicStat>, rows: Seq<Message>) -> bool {
    &&& forall|i: int| 0 <= i < stats.len() ==> sums_up(#[trigger] stats[i], rows)
    &&& forall|i: int, j: int|
        0 <= i < j < stats.len() ==> (#[trigger] stats[i]).topic@ != (#[trigger] stats[j]).topic@
    &&& forall|k: int|
        0 <= k < rows.len() ==> exists|i: int|
            0 <= i < stats.len() && (#[trigger] stats[i]).topic@ == (#[trigger] rows[k]).topic@
}

/// The first `upto` entries stand with the most recently active topic
/// first.
pub open spec fn by_recency(stats: Seq<TopicStat>, upto: int) -> bool {
    forall|a: int, b: int|
        0 <= a < b < upto ==> !(#[trigger] stats[a]).last_message_time.before(
            (#[trigger] stats[b]).last_message_time,
        )
}

/// The first `limit` entries. A negative limit leaves every entry.
pub open spec fn limited_stats(stats: Seq<TopicStat>, limit: Option<i64>) -> Seq<TopicStat> {
    match limit {
        Some(l) => if 0 <= l < stats.len() {
            stats.take(l as int)
        } else {
            stats
        },
        None => stats,
    }
}

/// The rows that a query for the topics counts: those whose topic and
/// payload the patterns of the query match.
pub open spec fn counted_rows(rows: Seq<Message>, criteria: FilterCriteria) -> Seq<Message> {
    pattern_kept(
        pattern_kept(rows, criteria.topic_regex, RowField::Topic),
        criteria.payload_regex,
        RowField::Payload,
    )
}

/// `out` is what a query for the topics returns: the summary of the rows
/// that it counts, the most recently active topic first, cut at the limit.
pub open spec fn answers(out: Seq<TopicStat>, rows: Seq<Message>, criteria: FilterCriteria) -> bool {
    exists|full: Seq<TopicStat>| #[trigger]
        is_summary(full, counted_rows(rows, criteria)) && by_recency(full, full.len() as int)
            && out == limited_stats(full, criteria.limit)
}

/// The index knows the place of the entry of every topic that has one, and
/// knows no other topic.
pub open spec fn indexes(places: Map<Seq<char>, usize>, stats: Seq<TopicStat>) -> bool {
    &&& forall|topic: Seq<char>| #[trigger]
        places.contains_key(topic) ==> {
            &&& places[topic] < stats.len()
            &&& stats[places[topic] as int].topic@ == topic
        }
    &&& forall|i: int|
        0 <= i < stats.len() ==> places.contains_key((#[trigger] stats[i]).topic@)
}

/// Place of the entry of a topic, if there is one, looked up in the index.
fn find_topic(
    places: &StringHashMap<usize>,
    stats: &Vec<TopicStat>,
    topic: &String,
) -> (found: Option<usize>)
    requires
        indexes(places@, stats@),
    ensures
        match found {
            Some(at) => at < stats@.len() && stats@[at as int].topic@ == topic@,
            None => forall|i: int| 0 <= i < stats@.len() ==> (#[trigger] stats@[i]).topic@ != topic@,
        },
{
    match places.get(topic.as_str()) {
        Some(at) => Some(*at),
        None => None,
    }
}

/// One more row of the topic of `stat` came in: the entry that sums up the
/// rows with it.
fn extended(stat: &TopicStat, row: &Message) -> (out: TopicStat)
    requires
        stat.topic@ == row.topic@,
    ensures
        out.topic@ == stat.topic@,
        out.message_count == if stat.message_count < i64::MAX {
            (stat.message_count + 1) as i64
        } else {
            stat.message_count
        },
        out.last_message_time == if row.timestamp.before(stat.last_message_time) {
            stat.last_message_time
        } else {
            row.timestamp
        },
        out.first_message_time == if row.timestamp.before(stat.first_message_time) {
            row.timestamp
        } else {
            stat.first_message_time
        },
        out.latest_payload is Some,
        out.latest_payload->0@ == if row.timestamp.before(stat.last_message_time)
            && stat.latest_payload is Some {
            stat.latest_payload->0@
        } else {
            row.payload@
        },
{
    let count: i64 = if stat.message_count < i64::MAX {
        stat.message_count + 1
    } else {
        stat.message_count
    };
    let older: bool = row.timestamp.is_before(&stat.last_message_time);
    let payload: String = match &stat.latest_payload {
        Some(p) => if older {
            p.clone()
        } else {
            row.payload.clone()
        },
        None => row.payload.clone(),
    };
    TopicStat {
        topic: stat.topic.clone(),
        message_count: count,
        last_message_time: if older {
            stat.last_message_time
        } else {
            row.timestamp
        },
        first_message_time: if row.timestamp.is_before(&stat.first_message_time) {
            row.timestamp
        } else {
            stat.first_message_time
        },
        latest_payload: Some(payload),
    }
}

/// Counting the rows of a topic one row further.
proof fn lemma_count_step(rows: Seq<Message>, k: int, topic: Seq<char>)
    requires
        0 <= k < rows.len(),
    ensures
        count_of(rows.take(k + 1), topic) == count_of(rows.take(k), topic) + if rows[k].topic@
            == topic {
            1nat
        } else {
            0nat
        },
{
    reveal(Seq::filter);
    assert(rows.take(k + 1).drop_last() =~= rows.take(k));
    assert(rows.take(k + 1).last() == rows[k]);
}

/// An entry that sums up the rows so far still does so after a row of
/// another topic.
proof fn lemma_other_topic_keeps(stat: TopicStat, rows: Seq<Message>, k: int)
    requires
        0 <= k < rows.len(),
        sums_up(stat, rows.take(k)),
        rows[k].topic@ != stat.topic@,
    ensures
        sums_up(stat, rows.take(k + 1)),
{
    reveal(sums_up);
    let before = rows.take(k);
    let after = rows.take(k + 1);
    lemma_count_step(rows, k, stat.topic@);
    let newest = choose|newest: int| #[trigger]
        is_newest(before, newest) && before[newest].topic@ == stat.topic@
            && before[newest].timestamp == stat.last_message_time && before[newest].payload@
            == stat.latest_payload->0@;
    let oldest = choose|oldest: int| #[trigger]
        is_oldest(before, oldest) && before[oldest].topic@ == stat.topic@
            && before[oldest].timestamp == stat.first_message_time;
    assert(forall|j: int| 0 <= j < k ==> after[j] == before[j]);
    assert(after[k] == rows[k]);
    assert(is_newest(after, newest));
    assert(is_oldest(after, oldest));
}

/// The entry that `extended` builds sums up the rows with the new row.
proof fn lemma_same_topic_extends(stat: TopicStat, next: TopicStat, rows: Seq<Message>, k: int)
    requires
        0 <= k < rows.len(),
        sums_up(stat, rows.take(k)),
        rows[k].topic@ == stat.topic@,
        next.topic@ == stat.topic@,
        next.message_count == if stat.message_count < i64::MAX {
            (stat.message_count + 1) as i64
        } else {
            stat.message_count
        },
        next.last_message_time == if rows[k].timestamp.before(stat.last_message_time) {
            stat.last_message_time
        } else {
            rows[k].timestamp
        },
        next.first_message_time == if rows[k].timestamp.before(stat.first_message_time) {
            rows[k].timestamp
        } else {
            stat.first_message_time
        },
        next.latest_payload is Some,
        next.latest_payload->0@ == if rows[k].timestamp.before(stat.last_message_time)
            && stat.latest_payload is Some {
            stat.latest_payload->0@
        } else {
            rows[k].payload@
        },
    ensures
        sums_up(next, rows.take(k + 1)),
{
    reveal(sums_up);
    let before = rows.take(k);
    let after = rows.take(k + 1);
    lemma_count_step(rows, k, stat.topic@);
    let newest = choose|newest: int| #[trigger]
        is_newest(before, newest) && before[newest].topic@ == stat.topic@
            && before[newest].timestamp == stat.last_message_time && before[newest].payload@
            == stat.latest_payload->0@;
    let oldest = choose|oldest: int| #[trigger]
        is_oldest(before, oldest) && before[oldest].topic@ == stat.topic@
            && before[oldest].timestamp == stat.first_message_time;
    assert(forall|j: int| 0 <= j < k ==> after[j] == before[j]);
    assert(after[k] == rows[k]);
    if rows[k].timestamp.before(stat.last_message_time) {
        assert(is_newest(after, newest));
    } else {
        assert(is_newest(after, k));
    }
    if rows[k].timestamp.before(stat.first_message_time) {
        assert(is_oldest(after, k));
    } else {
        assert(is_oldest(after, oldest));
    }
}

/// The first entry of a topic sums up its first row.
proof fn lemma_first_row_opens(next: TopicStat, rows: Seq<Message>, k: int)
    requires
        0 <= k < rows.len(),
        forall|j: int| 0 <= j < k ==> (#[trigger] rows[j]).topic@ != rows[k].topic@,
        next.topic@ == rows[k].topic@,
        next.message_count == 1,
        next.last_message_time == rows[k].timestamp,
        next.first_message_time == rows[k].timestamp,
        next.latest_payload is Some,
        next.latest_payload->0@ == rows[k].payload@,
    ensures
        sums_up(next, rows.take(k + 1)),
{
    reveal(sums_up);
    let after = rows.take(k + 1);
    lemma_count_step(rows, k, next.topic@);
    lemma_count_none(rows.take(k), next.topic@);
    assert(forall|j: int| 0 <= j < k ==> after[j] == rows[j]);
    assert(after[k] == rows[k]);
    assert(is_newest(after, k));
    assert(is_oldest(after, k));
}

/// A topic without a row counts no row.
proof fn lemma_count_none(rows: Seq<Message>, topic: Seq<char>)
    requires
        forall|j: int| 0 <= j < rows.len() ==> (#[trigger] rows[j]).topic@ != topic,
    ensures
        count_of(rows, topic) == 0,
    decreases rows.len(),
{
    reveal(Seq::filter);
    if rows.len() > 0 {
        assert(forall|j: int|
            0 <= j < rows.drop_last().len() ==> (#[trigger] rows.drop_last()[j]) == rows[j]);
        lemma_count_none(rows.drop_last(), topic);
    }
}

/// Sums the rows up by topic, in the order in which the topics first occur.
pub fn group_by_topic(rows: &Vec<Message>) -> (stats: Vec<TopicStat>)
    ensures
        is_summary(stats@, rows@),
{
    let mut stats: Vec<TopicStat> = Vec::new();
    let mut places: StringHashMap<usize> = StringHashMap::new();
    let mut k: usize = 0;
    assert(rows@.take(0).len() == 0);
    while k < rows.len()
        invariant
            k <= rows.len(),
            is_summary(stats@, rows@.take(k as int)),
            indexes(places@, stats@),
        decreases rows.len() - k,
    {
        let row: &Message = &rows[k];
        let ghost before = stats@;
        let ghost seen = rows@.take(k as int);
        let ghost now = rows@.take(k + 1);
        assert(forall|j: int| 0 <= j < k ==> now[j] == seen[j]);
        assert(now[k as int] == rows@[k as int]);
        let ghost known = places@;
        match find_topic(&places, &stats, &row.topic) {
            Some(at) => {
                let next: TopicStat = extended(&stats[at], row);
                stats.set(at, next);
                proof {
                    assert forall|i: int| 0 <= i < stats@.len() implies (
                    #[trigger] stats@[i]).topic@ == before[i].topic@ by {}
                    assert(indexes(places@, stats@));
                    lemma_same_topic_extends(before[at as int], next, rows@, k as int);
                    assert forall|i: int| 0 <= i < stats@.len() implies sums_up(
                        #[trigger] stats@[i],
                        now,
                    ) by {
                        if i != at {
                            assert(stats@[i] == before[i]);
                            assert(before[i].topic@ != before[at as int].topic@);
                            lemma_other_topic_keeps(before[i], rows@, k as int);
                        }
                    }
                    assert forall|i: int, j: int| 0 <= i < j < stats@.len() implies (
                    #[trigger] stats@[i]).topic@ != (#[trigger] stats@[j]).topic@ by {
                        assert(stats@[i].topic@ == before[i].topic@);
                        assert(stats@[j].topic@ == before[j].topic@);
                    }
                    assert forall|r: int| 0 <= r < now.len() implies exists|i: int|
                        0 <= i < stats@.len() && (#[trigger] stats@[i]).topic@ == (
                        #[trigger] now[r]).topic@ by {
                        if r < k {
                            let i = choose|i: int|
                                0 <= i < before.len() && (#[trigger] before[i]).topic@
                                    == seen[r].topic@;
                            assert(stats@[i].topic@ == before[i].topic@);
                        } else {
                            assert(stats@[at as int].topic@ == now[r].topic@);
                        }
                    }
                }
            },
            None => {
                let next: TopicStat = TopicStat {
                    topic: row.topic.clone(),
                    message_count: 1,
                    last_message_time: row.timestamp,
                    first_message_time: row.timestamp,
                    latest_payload: Some(row.payload.clone()),
                };
                places.insert(row.topic.clone(), stats.len());
                stats.push(next);
                proof {
                    assert forall|topic: Seq<char>| #[trigger]
                        places@.contains_key(topic) implies places@[topic] < stats@.len()
                        && stats@[places@[topic] as int].topic@ == topic by {
                        if topic != row.topic@ {
                            assert(known.contains_key(topic));
                            assert(stats@[known[topic] as int] == before[known[topic] as int]);
                        }
                    }
                    assert forall|i: int| 0 <= i < stats@.len() implies places@.contains_key(
                        (#[trigger] stats@[i]).topic@,
                    ) by {
                        if i < before.len() {
                            assert(stats@[i] == before[i]);
                        }
                    }
                    assert forall|j: int| 0 <= j < k implies (#[trigger] rows@[j]).topic@
                        != rows@[k as int].topic@ by {
                        let i = choose|i: int|
                            0 <= i < before.len() && (#[trigger] before[i]).topic@
                                == seen[j].topic@;
                    }
                    lemma_first_row_opens(next, rows@, k as int);
                    assert forall|i: int| 0 <= i < stats@.len() implies sums_up(
                        #[trigger] stats@[i],
                        now,
                    ) by {
                        if i < before.len() {
                            assert(stats@[i] == before[i]);
                            lemma_other_topic_keeps(before[i], rows@, k as int);
                        }
                    }
                    assert forall|i: int, j: int| 0 <= i < j < stats@.len() implies (
                    #[trigger] stats@[i]).topic@ != (#[trigger] stats@[j]).topic@ by {
                        assert(stats@[i] == before[i]);
                        if j < before.len() {
                            assert(stats@[j] == before[j]);
                        }
                    }
                    assert forall|r: int| 0 <= r < now.len() implies exists|i: int|
                        0 <= i < stats@.len() && (#[trigger] stats@[i]).topic@ == (
                        #[trigger] now[r]).topic@ by {
                        if r < k {
                            let i = choose|i: int|
                                0 <= i < before.len() && (#[trigger] before[i]).topic@
                                    == seen[r].topic@;
                            assert(stats@[i] == before[i]);
                        } else {
                            assert(stats@[before.len() as int].topic@ == now[r].topic@);
                        }
                    }
                }
            },
        }
        k = k + 1;
    }
    assert(rows@.take(rows@.len() as int) =~= rows@);
    stats
}

/// Where the entry at `p` stood before the entry at `from` was moved
/// forward to `to`.
pub open spec fn stood_at(p: int, from: int, to: int) -> int {
    if p < to {
        p
    } else if p == to {
        from
    } else if p <= from {
        p - 1
    } else {
        p
    }
}

/// Where the entry at `i` stands after the entry at `from` was moved
/// forward to `to`.
pub open spec fn stands_at(i: int, from: int, to: int) -> int {
    if i < to {
        i
    } else if i == from {
        to
    } else if i < from {
        i + 1
    } else {
        i
    }
}

/// Moving an entry forward rearranges the entries and loses none.
proof fn lemma_move_rearranges(
    old_stats: Seq<TopicStat>,
    new_stats: Seq<TopicStat>,
    from: int,
    to: int,
)
    requires
        0 <= to <= from < old_stats.len(),
        new_stats == old_stats.remove(from).insert(to, old_stats[from]),
    ensures
        new_stats.len() == old_stats.len(),
        forall|p: int|
            0 <= p < new_stats.len() ==> #[trigger] new_stats[p] == old_stats[stood_at(
                p,
                from,
                to,
            )],
        forall|i: int|
            0 <= i < old_stats.len() ==> new_stats[stands_at(i, from, to)]
                == #[trigger] old_stats[i],
{
}

/// Entries that are rearranged still sum up their topics, none twice, and
/// none is missing.
proof fn lemma_rearranged_summary(
    old_stats: Seq<TopicStat>,
    new_stats: Seq<TopicStat>,
    rows: Seq<Message>,
    from: int,
    to: int,
)
    requires
        0 <= to <= from < old_stats.len(),
        new_stats.len() == old_stats.len(),
        forall|p: int|
            0 <= p < new_stats.len() ==> #[trigger] new_stats[p] == old_stats[stood_at(
                p,
                from,
                to,
            )],
        forall|i: int|
            0 <= i < old_stats.len() ==> new_stats[stands_at(i, from, to)]
                == #[trigger] old_stats[i],
        is_summary(old_stats, rows),
    ensures
        is_summary(new_stats, rows),
{
    assert forall|p: int| 0 <= p < new_stats.len() implies sums_up(
        #[trigger] new_stats[p],
        rows,
    ) by {
        assert(sums_up(old_stats[stood_at(p, from, to)], rows));
    }
    assert forall|a: int, b: int| 0 <= a < b < new_stats.len() implies (
    #[trigger] new_stats[a]).topic@ != (#[trigger] new_stats[b]).topic@ by {
        let x = stood_at(a, from, to);
        let y = stood_at(b, from, to);
        assert(x != y);
        if x < y {
            assert(old_stats[x].topic@ != old_stats[y].topic@);
        } else {
            assert(old_stats[y].topic@ != old_stats[x].topic@);
        }
    }
    assert forall|k: int| 0 <= k < rows.len() implies exists|i: int|
        0 <= i < new_stats.len() && (#[trigger] new_stats[i]).topic@ == (#[trigger] rows[k]).topic@ by {
        let i = choose|i: int|
            0 <= i < old_stats.len() && (#[trigger] old_stats[i]).topic@ == rows[k].topic@;
        let moved = stands_at(i, from, to);
        assert(new_stats[moved] == old_stats[i]);
    }
}

/// An entry that is moved forward to where it belongs leaves the entries
/// up to its old place in order.
proof fn lemma_rearranged_order(
    old_times: Seq<Timestamp>,
    new_times: Seq<Timestamp>,
    from: int,
    to: int,
)
    requires
        0 <= to < from < old_times.len(),
        new_times.len() == old_times.len(),
        forall|p: int|
            0 <= p < new_times.len() ==> #[trigger] new_times[p] == old_times[stood_at(
                p,
                from,
                to,
            )],
        forall|a: int, b: int|
            0 <= a < b < from ==> !(#[trigger] old_times[a]).before(#[trigger] old_times[b]),
        forall|p: int| 0 <= p < to ==> !(#[trigger] old_times[p]).before(old_times[from]),
        old_times[to].before(old_times[from]),
    ensures
        forall|a: int, b: int|
            0 <= a < b < from + 1 ==> !(#[trigger] new_times[a]).before(#[trigger] new_times[b]),
{
    assert forall|a: int, b: int| 0 <= a < b < from + 1 implies !(#[trigger] new_times[a]).before(
        #[trigger] new_times[b],
    ) by {
        let x = stood_at(a, from, to);
        let y = stood_at(b, from, to);
        if a < to {
            if b == to {
                assert(!old_times[x].before(old_times[from]));
            } else {
                assert(x < y);
            }
        } else if a == to {
            assert(x == from);
            assert(to <= y < from);
            if y > to {
                assert(!old_times[to].before(old_times[y]));
            }
        } else {
            assert(x < y);
        }
    }
}

/// The times at which the topics were last active.
pub open spec fn last_times(stats: Seq<TopicStat>) -> Seq<Timestamp> {
    stats.map_values(|s: TopicStat| s.last_message_time)
}

/// Moves the entry at `from` forward to where it belongs among the entries
/// before it, which are in order.
fn insert_in_order(out: &mut Vec<TopicStat>, from: usize, rows: Ghost<Seq<Message>>)
    requires
        from < old(out)@.len(),
        is_summary(old(out)@, rows@),
        by_recency(old(out)@, from as int),
    ensures
        final(out)@.len() == old(out)@.len(),
        is_summary(final(out)@, rows@),
        by_recency(final(out)@, from + 1),
{
    let mut to: usize = 0;
    while to < from && !out[to].last_message_time.is_before(&out[from].last_message_time)
        invariant
            to <= from < out.len(),
            out@ == old(out)@,
            forall|p: int|
                0 <= p < to ==> !(#[trigger] out@[p]).last_message_time.before(
                    out@[from as int].last_message_time,
                ),
        decreases from - to,
    {
        to = to + 1;
    }
    if to < from {
        let ghost before = out@;
        let moved: TopicStat = out.remove(from);
        out.insert(to, moved);
        proof {
            lemma_move_rearranges(before, out@, from as int, to as int);
            lemma_rearranged_summary(before, out@, rows@, from as int, to as int);
            let old_times = last_times(before);
            let new_times = last_times(out@);
            assert forall|p: int| 0 <= p < new_times.len() implies #[trigger] new_times[p]
                == old_times[stood_at(p, from as int, to as int)] by {
                assert(out@[p] == before[stood_at(p, from as int, to as int)]);
            }
            assert forall|a: int, b: int| 0 <= a < b < from implies !(
            #[trigger] old_times[a]).before(#[trigger] old_times[b]) by {
                assert(!before[a].last_message_time.before(before[b].last_message_time));
            }
            assert forall|p: int| 0 <= p < to implies !(#[trigger] old_times[p]).before(
                old_times[from as int],
            ) by {
                assert(!before[p].last_message_time.before(before[from as int].last_message_time));
            }
            lemma_rearranged_order(old_times, new_times, from as int, to as int);
            assert forall|a: int, b: int| 0 <= a < b < from + 1 implies !(
            #[trigger] out@[a]).last_message_time.before(
                (#[trigger] out@[b]).last_message_time,
            ) by {
                assert(!new_times[a].before(new_times[b]));
            }
        }
    } else {
        assert forall|a: int, b: int| 0 <= a < b < from + 1 implies !(
        #[trigger] out@[a]).last_message_time.before((#[trigger] out@[b]).last_message_time) by {
            if b == from {
                assert(!out@[a].last_message_time.before(out@[from as int].last_message_time));
            }
        }
    }
}

/// Puts the most recently active topic first. Topics that were last active
/// at the same instant keep their order.
fn sort_by_recency(stats: Vec<TopicStat>, rows: Ghost<Seq<Message>>) -> (out: Vec<TopicStat>)
    requires
        is_summary(stats@, rows@),
    ensures
        is_summary(out@, rows@),
        by_recency(out@, out@.len() as int),
{
    let mut out: Vec<TopicStat> = stats;
    if out.len() == 0 {
        return out;
    }
    let mut from: usize = 1;
    while from < out.len()
        invariant
            1 <= from <= out@.len(),
            is_summary(out@, rows@),
            by_recency(out@, from as int),
        decreases out.len() - from,
    {
        insert_in_order(&mut out, from, rows);
        from = from + 1;
    }
    out
}

/// Keeps the first `limit` entries.
fn cut_stats(stats: Vec<TopicStat>, limit: Option<i64>) -> (out: Vec<TopicStat>)
    ensures
        out@ == limited_stats(stats@, limit),
{
    let mut out: Vec<TopicStat> = stats;
    match limit {
        Some(l) => {
            if 0 <= l && (l as u64) < out.len() as u64 {
                out.truncate(l as usize);
                assert(out@ =~= limited_stats(stats@, limit));
            }
        },
        None => {},
    }
    out
}

/// What a query for the topics returns, given the rows of the store within
/// the time bounds.
pub fn topic_stats(rows: Vec<Message>, criteria: &FilterCriteria) -> (out: Vec<TopicStat>)
    ensures
        answers(out@, rows@, *criteria),
{
    let by_topic: Vec<Message> = filter_by_pattern(rows, &criteria.topic_regex, RowField::Topic);
    let counted: Vec<Message> = filter_by_pattern(
        by_topic,
        &criteria.payload_regex,
        RowField::Payload,
    );
    let grouped: Vec<TopicStat> = group_by_topic(&counted);
    let sorted: Vec<TopicStat> = sort_by_recency(grouped, Ghost(counted@));
    let ghost full = sorted@;
    let out = cut_stats(sorted, criteria.limit);
    assert(is_summary(full, counted_rows(rows@, *criteria)) && by_recency(full, full.len() as int)
        && out@ == limited_stats(full, criteria.limit));
    out
}

/// What is cut off at the limit was active no later than what is kept.
pub proof fn lemma_limit_keeps_the_most_recent(
    full: Seq<TopicStat>,
    limit: Option<i64>,
    kept: int,
    cut: int,
)
    requires
        by_recency(full, full.len() as int),
        0 <= kept < limited_stats(full, limit).len(),
        limited_stats(full, limit).len() <= cut < full.len(),
    ensures
        !full[kept].last_message_time.before(full[cut].last_message_time),
        limited_stats(full, limit)[kept] == full[kept],
{
}

/// In a summary the counts of the topics add up: a topic with a row has
/// an entry, and the entry counts at least that row.
pub proof fn lemma_every_row_is_counted(stats: Seq<TopicStat>, rows: Seq<Message>, k: int)
    requires
        is_summary(stats, rows),
        0 <= k < rows.len(),
    ensures
        exists|i: int|
            0 <= i < stats.len() && (#[trigger] stats[i]).topic@ == rows[k].topic@
                && stats[i].message_count >= 1 && !stats[i].last_message_time.before(
                rows[k].timestamp,
            ) && !rows[k].timestamp.before(stats[i].first_message_time),
{
    reveal(sums_up);
    let i = choose|i: int|
        0 <= i < stats.len() && (#[trigger] stats[i]).topic@ == (#[trigger] rows[k]).topic@;
    let own = |m: Message| m.topic@ == stats[i].topic@;
    rows.lemma_filter_contains(own, k);
    assert(rows.filter(own).len() >= 1);
    let newest = choose|newest: int| #[trigger]
        is_newest(rows, newest) && rows[newest].topic@ == stats[i].topic@
            && rows[newest].timestamp == stats[i].last_message_time && rows[newest].payload@
            == stats[i].latest_payload->0@;
    let oldest = choose|oldest: int| #[trigger]
        is_oldest(rows, oldest) && rows[oldest].topic@ == stats[i].topic@
            && rows[oldest].timestamp == stats[i].first_message_time;
}

} // verus!
