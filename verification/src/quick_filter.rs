//! The quick-filter bar: up to five keyword rules, each with its own switch.
//!
//! With at least one switch on, a message is shown when it matches a rule
//! whose switch is on. With every switch off, a message is shown when it
//! matches no rule at all.

use crate::config::QuickFilter;
use crate::models::Message;
use crate::text::{contains_text, to_lowercase};
use vstd::prelude::*;
use vstd::string::*;

verus! {

/// The text that rules are matched against: topic, one blank, payload.
pub open spec fn content_of(topic: Seq<char>, payload: Seq<char>) -> Seq<char> {
    topic + seq![' '] + payload
}

/// The rule matches the content.
pub open spec fn rule_matches(rule: QuickFilter, content: Seq<char>) -> bool {
    rule@.matches(content)
}

/// Some rule among the first `upto` matches, whatever its switch.
pub open spec fn matches_any_rule(rules: Seq<QuickFilter>, content: Seq<char>, upto: int) -> bool {
    exists|i: int| 0 <= i < upto && i < rules.len() && #[trigger] rule_matches(rules[i], content)
}

/// Some rule among the first `upto` matches and has its switch on.
pub open spec fn matches_enabled_rule(
    rules: Seq<QuickFilter>,
    switches: Seq<bool>,
    content: Seq<char>,
    upto: int,
) -> bool {
    exists|i: int|
        0 <= i < upto && i < rules.len() && i < switches.len() && switches[i]
            && #[trigger] rule_matches(rules[i], content)
}

/// At least one of the first `upto` switches is on.
pub open spec fn any_switch_on(switches: Seq<bool>, upto: int) -> bool {
    exists|i: int| 0 <= i < upto && i < switches.len() && #[trigger] switches[i]
}

/// The bar lets the content through.
pub open spec fn passes(rules: Seq<QuickFilter>, switches: Seq<bool>, content: Seq<char>) -> bool {
    if any_switch_on(switches, switches.len() as int) {
        matches_enabled_rule(rules, switches, content, rules.len() as int)
    } else {
        !matches_any_rule(rules, content, rules.len() as int)
    }
}

/// The bar lets the message through.
pub open spec fn shows(rules: Seq<QuickFilter>, switches: Seq<bool>, message: Message) -> bool {
    passes(rules, switches, message@.content())
}

/// The messages of `rows` that the bar lets through, in their order.
pub open spec fn shown(rules: Seq<QuickFilter>, switches: Seq<bool>, rows: Seq<Message>) -> Seq<
    Message,
> {
    rows.filter(|m: Message| shows(rules, switches, m))
}

/// Every switch flipped.
pub open spec fn all_flipped(switches: Seq<bool>) -> Seq<bool> {
    Seq::new(switches.len(), |i: int| !switches[i])
}

/// Topic, one blank, payload.
pub fn content(message: &Message) -> (text: String)
    ensures
        text@ == content_of(message.topic@, message.payload@),
{
    let mut text: String = message.topic.clone();
    proof {
        reveal_strlit(" ");
    }
    text.append(" ");
    text.append(message.payload.as_str());
    assert(text@ =~= content_of(message.topic@, message.payload@));
    text
}

/// Tells whether one rule matches the content.
pub fn rule_hits(rule: &QuickFilter, content: &str) -> (hit: bool)
    ensures
        hit == rule_matches(*rule, content@),
{
    if rule.case_sensitive {
        contains_text(content, rule.pattern.as_str())
    } else {
        let hay: String = to_lowercase(content);
        let needle: String = to_lowercase(rule.pattern.as_str());
        contains_text(hay.as_str(), needle.as_str())
    }
}

/// Tells whether at least one switch is on.
pub fn has_active(switches: &Vec<bool>) -> (on: bool)
    ensures
        on == any_switch_on(switches@, switches@.len() as int),
{
    let mut i: usize = 0;
    while i < switches.len()
        invariant
            i <= switches.len(),
            !any_switch_on(switches@, i as int),
        decreases switches.len() - i,
    {
        if switches[i] {
            return true;
        }
        i = i + 1;
    }
    false
}

/// Tells whether some rule matches the content, whatever its switch.
pub fn matches_any_filter(rules: &Vec<QuickFilter>, content: &str) -> (hit: bool)
    ensures
        hit == matches_any_rule(rules@, content@, rules@.len() as int),
{
    let mut i: usize = 0;
    while i < rules.len()
        invariant
            i <= rules.len(),
            !matches_any_rule(rules@, content@, i as int),
        decreases rules.len() - i,
    {
        if rule_hits(&rules[i], content) {
            return true;
        }
        i = i + 1;
    }
    false
}

/// Tells whether some rule with its switch on matches the content.
pub fn matches_any_active_filter(rules: &Vec<QuickFilter>, switches: &Vec<bool>, content: &str) -> (hit:
    bool)
    ensures
        hit == matches_enabled_rule(rules@, switches@, content@, rules@.len() as int),
{
    let mut i: usize = 0;
    while i < rules.len() && i < switches.len()
        invariant
            i <= rules.len(),
            i <= switches.len(),
            !matches_enabled_rule(rules@, switches@, content@, i as int),
        decreases rules.len() - i,
    {
        if switches[i] && rule_hits(&rules[i], content) {
            return true;
        }
        i = i + 1;
    }
    false
}

/// Tells whether the bar lets the message through.
pub fn message_passes(rules: &Vec<QuickFilter>, switches: &Vec<bool>, message: &Message) -> (ok:
    bool)
    ensures
        ok == shows(rules@, switches@, *message),
{
    let text: String = content(message);
    if has_active(switches) {
        matches_any_active_filter(rules, switches, text.as_str())
    } else {
        !matches_any_filter(rules, text.as_str())
    }
}

/// Keeps the messages that the bar lets through, in their order.
pub fn apply_quick_filters(rules: &Vec<QuickFilter>, switches: &Vec<bool>, rows: Vec<Message>) -> (kept:
    Vec<Message>)
    ensures
        kept@ == shown(rules@, switches@, rows@),
{
    let ghost keep = |m: Message| shows(rules@, switches@, m);
    let mut kept: Vec<Message> = Vec::new();
    let mut i: usize = 0;
    proof {
        reveal(Seq::filter);
        assert(rows@.take(0).filter(keep) =~= Seq::<Message>::empty());
    }
    while i < rows.len()
        invariant
            i <= rows.len(),
            keep == |m: Message| shows(rules@, switches@, m),
            kept@ == rows@.take(i as int).filter(keep),
        decreases rows.len() - i,
    {
        let ok: bool = message_passes(rules, switches, &rows[i]);
        proof {
            reveal(Seq::filter);
            assert(rows@.take(i + 1).drop_last() =~= rows@.take(i as int));
            assert(rows@.take(i + 1).last() == rows@[i as int]);
        }
        if ok {
            kept.push(rows[i].clone());
        }
        i = i + 1;
    }
    assert(rows@.take(rows@.len() as int) =~= rows@);
    kept
}

/// Flipping every switch twice gives the switches back.
pub proof fn lemma_flip_twice(switches: Seq<bool>)
    ensures
        all_flipped(all_flipped(switches)) == switches,
{
    assert(all_flipped(all_flipped(switches)) =~= switches);
}

/// Switching one filter and then switching it again gives the switches
/// back, and with them the messages that are shown.
pub proof fn lemma_toggle_twice(
    rules: Seq<QuickFilter>,
    switches: Seq<bool>,
    index: int,
    rows: Seq<Message>,
)
    requires
        0 <= index < switches.len(),
    ensures
        switches.update(index, !switches[index]).update(index, switches[index]) == switches,
        shown(
            rules,
            switches.update(index, !switches[index]).update(index, switches[index]),
            rows,
        ) == shown(rules, switches, rows),
{
    assert(switches.update(index, !switches[index]).update(index, switches[index]) =~= switches);
}

/// One switch flipped.
pub open spec fn toggled(switches: Seq<bool>, index: int) -> Seq<bool> {
    if 0 <= index < switches.len() {
        switches.update(index, !switches[index])
    } else {
        switches
    }
}

/// Switching two filters gives the same switches in either order.
pub proof fn lemma_toggles_commute(switches: Seq<bool>, first: int, second: int)
    ensures
        toggled(toggled(switches, first), second) == toggled(toggled(switches, second), first),
{
    assert(toggled(toggled(switches, first), second) =~= toggled(
        toggled(switches, second),
        first,
    ));
}

/// Each of the five filters switched once.
pub open spec fn each_toggled(switches: Seq<bool>) -> Seq<bool> {
    toggled(toggled(toggled(toggled(toggled(switches, 0), 1), 2), 3), 4)
}

/// Switching each of the five filters once flips every switch.
pub proof fn lemma_toggling_each_flips_all(switches: Seq<bool>)
    requires
        switches.len() == 5,
    ensures
        each_toggled(switches) == all_flipped(switches),
{
    assert(each_toggled(switches) =~= all_flipped(switches));
}

/// Flipping every switch, and then every switch again, shows the same
/// messages as before, and so as many.
pub proof fn lemma_all_off_then_on_restores(
    rules: Seq<QuickFilter>,
    switches: Seq<bool>,
    rows: Seq<Message>,
)
    ensures
        shown(rules, all_flipped(all_flipped(switches)), rows) == shown(rules, switches, rows),
        shown(rules, all_flipped(all_flipped(switches)), rows).len() == shown(
            rules,
            switches,
            rows,
        ).len(),
{
    lemma_flip_twice(switches);
}

/// With every switch off, the bar shows exactly the messages that no rule
/// matches, whichever rules there are.
pub proof fn lemma_all_off_hides_every_match(
    rules: Seq<QuickFilter>,
    switches: Seq<bool>,
    message: Message,
)
    requires
        forall|i: int| 0 <= i < switches.len() ==> !switches[i],
    ensures
        shows(rules, switches, message) == !matches_any_rule(
            rules,
            content_of(message.topic@, message.payload@),
            rules.len() as int,
        ),
{
}

/// With some switch on, a message is shown exactly when a rule with its
/// switch on matches it.
pub proof fn lemma_some_on_isolates(
    rules: Seq<QuickFilter>,
    switches: Seq<bool>,
    message: Message,
    index: int,
)
    requires
        0 <= index < switches.len(),
        switches[index],
    ensures
        shows(rules, switches, message) == matches_enabled_rule(
            rules,
            switches,
            content_of(message.topic@, message.payload@),
            rules.len() as int,
        ),
{
    assert(any_switch_on(switches, switches.len() as int));
}

} // verus!
