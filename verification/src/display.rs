//! What the screens show of a value: numbers, colours and cut texts. Putting
//! it on the terminal is left to the caller.

use crate::app::App;
use crate::config::QuickFilter;
use crate::json_formatter::{pretty_json, pretty_json_of};
use crate::models::Message;
use crate::quick_filter::{content, content_of, rule_hits, rule_matches};
use crate::text::{push_char, shorten, shortened};
use vstd::prelude::*;
use vstd::string::*;

verus! {

/// The colours that a rule can name.
#[derive(Clone, Copy, Debug, PartialEq, Eq, Structural)]
pub enum Tint {
    Red,
    Green,
    DarkGreen,
    Yellow,
    Blue,
    Cyan,
    Magenta,
    White,
    DarkGrey,
    Grey,
}

/// The colour that a rule names, if it names one.
pub open spec fn tint_named(name: Seq<char>) -> Option<Tint> {
    if name == "red"@ {
        Some(Tint::Red)
    } else if name == "green"@ {
        Some(Tint::Green)
    } else if name == "light_green"@ {
        Some(Tint::DarkGreen)
    } else if name == "yellow"@ {
        Some(Tint::Yellow)
    } else if name == "blue"@ {
        Some(Tint::Blue)
    } else if name == "cyan"@ {
        Some(Tint::Cyan)
    } else if name == "magenta"@ {
        Some(Tint::Magenta)
    } else if name == "white"@ {
        Some(Tint::White)
    } else if name == "dark_grey"@ {
        Some(Tint::DarkGrey)
    } else if name == "grey"@ {
        Some(Tint::Grey)
    } else {
        None
    }
}

/// Index of the first rule that matches the content, from `from` on.
pub open spec fn first_match(rules: Seq<QuickFilter>, content: Seq<char>, from: int) -> Option<int>
    decreases rules.len() - from,
{
    if from < 0 || from >= rules.len() {
        None
    } else if rule_matches(rules[from], content) {
        Some(from)
    } else {
        first_match(rules, content, from + 1)
    }
}

/// The colour of a message: that of the first rule that matches it, if the
/// marks are shown, a rule matches, and the rule names a colour.
pub open spec fn message_tint(shown: bool, rules: Seq<QuickFilter>, message: Message) -> Option<
    Tint,
> {
    if !shown {
        None
    } else {
        match first_match(rules, content_of(message.topic@, message.payload@), 0) {
            Some(i) => tint_named(rules[i].color@),
            None => None,
        }
    }
}

/// The running number of the row at `index` of a page: rows are numbered
/// from the oldest, so the newest row carries the total. A row beyond the
/// total carries 1.
pub open spec fn running_number(total: int, page: int, per_page: int, index: int) -> int {
    let before = crate::message_list::rows_before(page, per_page) + index;
    if before < total {
        total - before
    } else {
        1
    }
}

/// The first line that the payload view may show when the payload has
/// `lines` lines and the view `rows` rows: the wanted one, but no later than
/// the line from which the last lines fill the view.
pub open spec fn scroll_within(wanted: int, lines: int, rows: int) -> int {
    let last = if lines >= rows {
        lines - rows
    } else {
        0
    };
    if wanted > last {
        last
    } else {
        wanted
    }
}

/// Number of decimal digits of `n`.
pub open spec fn digits(n: nat) -> nat
    decreases n,
{
    if n < 10 {
        1
    } else {
        1 + digits(n / 10)
    }
}

/// `text` followed by blanks up to `width` characters.
pub open spec fn padded(text: Seq<char>, width: nat) -> Seq<char> {
    if text.len() >= width {
        text
    } else {
        text + Seq::new((width - text.len()) as nat, |i: int| ' ')
    }
}

/// A text in a column of `width` characters: cut with three dots if it is
/// longer, filled with blanks if it is shorter.
pub open spec fn in_column(text: Seq<char>, width: nat) -> Seq<char> {
    if text.len() > width {
        shortened(text, width)
    } else {
        padded(text, width)
    }
}

/// The lines of a text: it is split at line feeds, a carriage return before
/// a line feed goes with it, and a line feed at the very end opens no
/// further line.
pub open spec fn lines_of(text: Seq<char>) -> Seq<Seq<char>>
    decreases text.len(),
{
    if text.len() == 0 {
        Seq::empty()
    } else {
        let cut = text.index_of_first('\n');
        match cut {
            Some(at) => if 0 <= at < text.len() {
                seq![without_return(text.subrange(0, at))] + lines_of(
                    text.subrange(at + 1, text.len() as int),
                )
            } else {
                seq![text]
            },
            None => seq![text],
        }
    }
}

/// A line without the carriage return at its end, if it has one.
pub open spec fn without_return(line: Seq<char>) -> Seq<char> {
    if line.len() > 0 && line.last() == '\r' {
        line.drop_last()
    } else {
        line
    }
}

/// The texts of a list of lines.
pub open spec fn lines_view(lines: Seq<String>) -> Seq<Seq<char>> {
    lines.map_values(|line: String| line@)
}

/// The lines that the payload view shows: those of the indented JSON if
/// the payload is JSON, else those of the payload.
pub open spec fn payload_lines(payload: Seq<char>) -> Seq<Seq<char>> {
    match pretty_json_of(payload) {
        Some(pretty) => lines_of(pretty),
        None => lines_of(payload),
    }
}

/// A number with its sign, in decimal.
pub open spec fn signed_decimal(n: int) -> Seq<char> {
    if n < 0 {
        seq!['-'] + crate::text::decimal((-n) as nat)
    } else {
        crate::text::decimal(n as nat)
    }
}

/// The count of a topic as its row shows it: counts above 9999 show as
/// `9999+`.
pub open spec fn count_shown(count: int) -> Seq<char> {
    if count > 9999 {
        "9999+"@
    } else {
        signed_decimal(count)
    }
}

/// The six groups of a time text: year, month, day, hour, minute and
/// second stand at fixed places of the first nineteen characters. A shorter
/// text has no groups.
pub open spec fn groups_of(text: Seq<char>) -> Option<Seq<Seq<char>>> {
    if text.len() >= 19 {
        Some(
            seq![
                text.subrange(0, 4),
                text.subrange(5, 7),
                text.subrange(8, 10),
                text.subrange(11, 13),
                text.subrange(14, 16),
                text.subrange(17, 19),
            ],
        )
    } else {
        None
    }
}

/// The blanks before the quick-filter marks, which stand at the right end
/// of a line of `width` characters that already holds `used` characters
/// and is to hold marks of `marks` characters behind a separator of three.
pub open spec fn gap_before_marks(width: int, used: int, marks: int) -> int {
    if width > used + marks + 3 {
        width - (used + marks + 3)
    } else {
        0
    }
}

/// The first and the last line that the payload view shows, counted from
/// 1, if the payload has more lines than the view has rows. The number of
/// the first line stops at the largest `usize`; the last line shown is never
/// beyond the last line there is.
pub open spec fn lines_shown(offset: int, rows: int, lines: int) -> Option<(int, int)> {
    if lines > rows {
        Some(
            (
                crate::app_events::capped_sum(offset, 1),
                if offset + rows < lines {
                    offset + rows
                } else {
                    lines
                },
            ),
        )
    } else {
        None
    }
}

/// The colour that a quick-filter mark of the status rows names; white
/// for a name that is none of the six.
pub open spec fn status_tint_named(name: Seq<char>) -> Tint {
    if name == "Green"@ {
        Tint::Green
    } else if name == "Yellow"@ {
        Tint::Yellow
    } else if name == "Red"@ {
        Tint::Red
    } else if name == "Blue"@ {
        Tint::Blue
    } else if name == "Cyan"@ {
        Tint::Cyan
    } else if name == "Magenta"@ {
        Tint::Magenta
    } else {
        Tint::White
    }
}

/// The colour of a quick-filter mark: its own while the filter is on, or
/// white if it names none; dark grey while the filter is off.
pub open spec fn mark_tint(enabled: bool, named: Option<Tint>) -> Tint {
    if !enabled {
        Tint::DarkGrey
    } else {
        match named {
            Some(tint) => tint,
            None => Tint::White,
        }
    }
}

/// What an empty time field of the message list shows.
pub open spec fn empty_field_text(focused: bool, editing: bool) -> Seq<char> {
    if !focused {
        "___________________"@
    } else if editing {
        "<<<EDITING>>>"@
    } else {
        "<<<FOCUS>>>"@
    }
}

/// The status line of the message list.
pub open spec fn page_status_text(page: nat, pages: nat, shown: nat, topic: Seq<char>) -> Seq<char> {
    "Page "@ + crate::text::decimal(page) + "/"@ + crate::text::decimal(pages) + " | "@
        + crate::text::decimal(shown) + " messages | Topic: "@ + topic
}

/// The counts of the status rows.
pub open spec fn counts_text(topics: nat, messages: int) -> Seq<char> {
    crate::text::decimal(topics) + " topics | "@ + signed_decimal(messages) + " messages"@
}

/// The status line of the payload view: the size of the payload, the
/// lines that are shown of how many, and the topic.
pub open spec fn payload_status_text(
    bytes: nat,
    shown: Option<(int, int)>,
    lines: nat,
    topic: Seq<char>,
) -> Seq<char> {
    "Payload: "@ + crate::text::decimal(bytes) + " bytes | Lines: "@ + (match shown {
        Some(range) => crate::text::decimal(range.0 as nat) + "-"@ + crate::text::decimal(
            range.1 as nat,
        ) + "/"@,
        None => Seq::empty(),
    }) + crate::text::decimal(lines) + " | Topic: "@ + topic
}

/// A text split at the cursor: what stands before it, the character under
/// it, or a blank behind the end, and what stands after it.
pub open spec fn split_at(text: Seq<char>, cursor: int) -> (Seq<char>, Seq<char>, Seq<char>) {
    if 0 <= cursor < text.len() {
        (text.subrange(0, cursor), seq![text[cursor]], text.subrange(cursor + 1, text.len() as int))
    } else {
        (text, seq![' '], Seq::empty())
    }
}

/// Wraps `str::lines`: the lines of a text, without their line endings,
/// as [`lines_of`] spells them out.
#[verifier::external_body]
pub(crate) fn split_lines(text: &str) -> (lines: Vec<String>)
    ensures
        lines_view(lines@) == lines_of(text@),
{
    text.lines().map(|line| line.to_string()).collect()
}

/// The colour that a rule names, if it names one.
pub fn tint_of(name: &str) -> (tint: Option<Tint>)
    ensures
        tint == tint_named(name@),
{
    if crate::text::same(name, "red") {
        Some(Tint::Red)
    } else if crate::text::same(name, "green") {
        Some(Tint::Green)
    } else if crate::text::same(name, "light_green") {
        Some(Tint::DarkGreen)
    } else if crate::text::same(name, "yellow") {
        Some(Tint::Yellow)
    } else if crate::text::same(name, "blue") {
        Some(Tint::Blue)
    } else if crate::text::same(name, "cyan") {
        Some(Tint::Cyan)
    } else if crate::text::same(name, "magenta") {
        Some(Tint::Magenta)
    } else if crate::text::same(name, "white") {
        Some(Tint::White)
    } else if crate::text::same(name, "dark_grey") {
        Some(Tint::DarkGrey)
    } else if crate::text::same(name, "grey") {
        Some(Tint::Grey)
    } else {
        None
    }
}

/// `text` followed by blanks up to `width` characters.
pub fn pad(text: &str, width: usize) -> (out: String)
    ensures
        out@ == padded(text@, width as nat),
{
    let len: usize = text.unicode_len();
    let mut out: String = String::from_str(text);
    let mut i: usize = len;
    while i < width
        invariant
            len == text@.len(),
            len <= i,
            i <= width || i == len,
            out@ == text@ + Seq::new((i - len) as nat, |j: int| ' '),
        decreases width - i,
    {
        push_char(&mut out, ' ');
        i = i + 1;
        assert(out@ =~= text@ + Seq::new((i - len) as nat, |j: int| ' '));
    }
    assert(out@ =~= padded(text@, width as nat));
    out
}

/// A text in a column of `width` characters.
pub fn fit_column(text: &str, width: usize) -> (out: String)
    ensures
        out@ == in_column(text@, width as nat),
{
    if text.unicode_len() > width {
        shorten(text, width)
    } else {
        pad(text, width)
    }
}

/// Ten to the power of `k`.
pub open spec fn power_of_ten(k: nat) -> nat
    decreases k,
{
    if k == 0 {
        1
    } else {
        10 * power_of_ten((k - 1) as nat)
    }
}

/// A number below ten to the `k` has at most `k` digits.
pub proof fn lemma_digits_bound(n: nat, k: nat)
    requires
        k >= 1,
        n < power_of_ten(k),
    ensures
        digits(n) <= k,
    decreases k,
{
    if n >= 10 {
        assert(power_of_ten(1) == 10) by {
            reveal_with_fuel(power_of_ten, 2);
        }
        lemma_digits_bound(n / 10, (k - 1) as nat);
    }
}

/// Number of decimal digits of `n`.
pub fn line_number_width(n: usize) -> (width: usize)
    ensures
        width == digits(n as nat),
{
    let mut rest: usize = n;
    let mut width: usize = 1;
    proof {
        assert(power_of_ten(20) == 100_000_000_000_000_000_000nat) by {
            reveal_with_fuel(power_of_ten, 21);
        }
        lemma_digits_bound(n as nat, 20);
    }
    while rest >= 10
        invariant
            digits(n as nat) == width - 1 + digits(rest as nat),
            digits(n as nat) <= 20,
            width >= 1,
        decreases rest,
    {
        rest = rest / 10;
        width = width + 1;
    }
    width
}

/// A number with its sign, in decimal.
pub fn signed_text(n: i64) -> (out: String)
    ensures
        out@ == signed_decimal(n as int),
{
    if n < 0 {
        let magnitude: u64 = if n == i64::MIN {
            9223372036854775808u64
        } else {
            (-n) as u64
        };
        proof {
            reveal_strlit("-");
        }
        let mut out: String = String::from_str("-");
        let digits: String = crate::text::decimal_text(magnitude);
        out.append(digits.as_str());
        assert(out@ =~= signed_decimal(n as int));
        out
    } else {
        crate::text::decimal_text(n as u64)
    }
}

/// The count of a topic as its row shows it.
pub fn count_label(count: i64) -> (out: String)
    ensures
        out@ == count_shown(count as int),
{
    if count > 9999 {
        String::from_str("9999+")
    } else {
        signed_text(count)
    }
}

/// The six groups of a time text.
pub fn time_groups(text: &str) -> (groups: Option<Vec<String>>)
    ensures
        match groups {
            Some(parts) => groups_of(text@) == Some(lines_view(parts@)),
            None => groups_of(text@) is None,
        },
{
    if text.unicode_len() < 19 {
        return None;
    }
    let mut parts: Vec<String> = Vec::new();
    parts.push(String::from_str(text.substring_char(0, 4)));
    parts.push(String::from_str(text.substring_char(5, 7)));
    parts.push(String::from_str(text.substring_char(8, 10)));
    parts.push(String::from_str(text.substring_char(11, 13)));
    parts.push(String::from_str(text.substring_char(14, 16)));
    parts.push(String::from_str(text.substring_char(17, 19)));
    assert(lines_view(parts@) =~= groups_of(text@)->0);
    Some(parts)
}

/// The blanks before the quick-filter marks.
pub fn marks_gap(width: usize, used: usize, marks: usize) -> (gap: usize)
    ensures
        gap == gap_before_marks(width as int, used as int, marks as int),
{
    width.saturating_sub(used).saturating_sub(marks).saturating_sub(3)
}

/// The first and the last line that the payload view shows.
pub fn visible_lines(offset: usize, rows: usize, lines: usize) -> (range: Option<(usize, usize)>)
    ensures
        match range {
            Some(r) => lines_shown(offset as int, rows as int, lines as int) == Some(
                (r.0 as int, r.1 as int),
            ),
            None => lines_shown(offset as int, rows as int, lines as int) is None,
        },
{
    if lines > rows {
        let last: usize = if offset < lines && rows < lines - offset {
            offset + rows
        } else {
            lines
        };
        Some((offset.saturating_add(1), last))
    } else {
        None
    }
}

/// The colour that a quick-filter mark of the status rows names.
pub fn status_tint_of(name: &str) -> (tint: Tint)
    ensures
        tint == status_tint_named(name@),
{
    if crate::text::same(name, "Green") {
        Tint::Green
    } else if crate::text::same(name, "Yellow") {
        Tint::Yellow
    } else if crate::text::same(name, "Red") {
        Tint::Red
    } else if crate::text::same(name, "Blue") {
        Tint::Blue
    } else if crate::text::same(name, "Cyan") {
        Tint::Cyan
    } else if crate::text::same(name, "Magenta") {
        Tint::Magenta
    } else {
        Tint::White
    }
}

/// The colour of a quick-filter mark.
pub fn tint_of_mark(enabled: bool, named: Option<Tint>) -> (tint: Tint)
    ensures
        tint == mark_tint(enabled, named),
{
    if !enabled {
        Tint::DarkGrey
    } else {
        match named {
            Some(tint) => tint,
            None => Tint::White,
        }
    }
}

/// What an empty time field of the message list shows.
pub fn empty_field(focused: bool, editing: bool) -> (text: String)
    ensures
        text@ == empty_field_text(focused, editing),
{
    if !focused {
        String::from_str("___________________")
    } else if editing {
        String::from_str("<<<EDITING>>>")
    } else {
        String::from_str("<<<FOCUS>>>")
    }
}

/// The status line of the message list.
pub fn page_status(page: usize, pages: usize, shown: usize, topic: &str) -> (text: String)
    ensures
        text@ == page_status_text(page as nat, pages as nat, shown as nat, topic@),
{
    let mut text: String = String::from_str("Page ");
    text.append(crate::text::decimal_text(page as u64).as_str());
    text.append("/");
    text.append(crate::text::decimal_text(pages as u64).as_str());
    text.append(" | ");
    text.append(crate::text::decimal_text(shown as u64).as_str());
    text.append(" messages | Topic: ");
    text.append(topic);
    assert(text@ =~= page_status_text(page as nat, pages as nat, shown as nat, topic@));
    text
}

/// The counts of the status rows.
pub fn counts_status(topics: usize, messages: i64) -> (text: String)
    ensures
        text@ == counts_text(topics as nat, messages as int),
{
    let mut text: String = crate::text::decimal_text(topics as u64);
    text.append(" topics | ");
    text.append(signed_text(messages).as_str());
    text.append(" messages");
    assert(text@ =~= counts_text(topics as nat, messages as int));
    text
}

/// The status line of the payload view.
pub fn payload_status(bytes: usize, shown: Option<(usize, usize)>, lines: usize, topic: &str) -> (text:
    String)
    ensures
        text@ == payload_status_text(
            bytes as nat,
            match shown {
                Some(range) => Some((range.0 as int, range.1 as int)),
                None => None,
            },
            lines as nat,
            topic@,
        ),
{
    let mut text: String = String::from_str("Payload: ");
    text.append(crate::text::decimal_text(bytes as u64).as_str());
    text.append(" bytes | Lines: ");
    match shown {
        Some(range) => {
            text.append(crate::text::decimal_text(range.0 as u64).as_str());
            text.append("-");
            text.append(crate::text::decimal_text(range.1 as u64).as_str());
            text.append("/");
        },
        None => {},
    }
    text.append(crate::text::decimal_text(lines as u64).as_str());
    text.append(" | Topic: ");
    text.append(topic);
    assert(text@ =~= payload_status_text(
        bytes as nat,
        match shown {
            Some(range) => Some((range.0 as int, range.1 as int)),
            None => None,
        },
        lines as nat,
        topic@,
    ));
    text
}

/// Splits a text at the cursor.
pub fn split_at_cursor(text: &str, cursor: usize) -> (parts: (String, String, String))
    ensures
        (parts.0@, parts.1@, parts.2@) == split_at(text@, cursor as int),
{
    let len: usize = text.unicode_len();
    if cursor < len {
        let before: String = String::from_str(text.substring_char(0, cursor));
        let at: String = String::from_str(text.substring_char(cursor, cursor + 1));
        let after: String = String::from_str(text.substring_char(cursor + 1, len));
        assert(at@ =~= seq![text@[cursor as int]]);
        (before, at, after)
    } else {
        proof {
            reveal_strlit(" ");
        }
        assert(" "@ =~= seq![' ']);
        (String::from_str(text), String::from_str(" "), String::new())
    }
}

impl App {
    /// The colour in which a message is listed.
    pub fn get_message_color(&self, message: &Message) -> (tint: Option<Tint>)
        ensures
            tint == message_tint(
                self.config.quick_filters.enabled,
                self.config.quick_filters.filters@,
                *message,
            ),
    {
        if !self.config.quick_filters.enabled {
            return None;
        }
        let text: String = content(message);
        let mut i: usize = self.config.quick_filters.filters.len();
        let ghost rules = self.config.quick_filters.filters@;
        let mut found: Option<usize> = None;
        while i > 0
            invariant
                i <= rules.len(),
                rules == self.config.quick_filters.filters@,
                text@ == content_of(message.topic@, message.payload@),
                match found {
                    Some(at) => first_match(rules, text@, i as int) == Some(at as int) && at
                        < rules.len(),
                    None => first_match(rules, text@, i as int) is None,
                },
            decreases i,
        {
            i = i - 1;
            if rule_hits(&self.config.quick_filters.filters[i], text.as_str()) {
                found = Some(i);
            }
        }
        match found {
            Some(at) => tint_of(self.config.quick_filters.filters[at].color.as_str()),
            None => None,
        }
    }

    /// The running number of the row at `index` of the current page.
    pub fn sequence_number(&self, index: usize) -> (number: usize)
        ensures
            number as int == running_number(
                self.message_list_state.total_count as int,
                self.message_list_state.page as int,
                self.message_list_state.per_page as int,
                index as int,
            ),
    {
        let list = &self.message_list_state;
        let pages: u128 = if list.page >= 1 {
            (list.page - 1) as u128
        } else {
            0
        };
        let per: u128 = list.per_page as u128;
        assert(pages * per <= 0xFFFF_FFFF_FFFF_FFFF * 0xFFFF_FFFF_FFFF_FFFF) by (nonlinear_arith)
            requires
                pages <= 0xFFFF_FFFF_FFFF_FFFF,
                per <= 0xFFFF_FFFF_FFFF_FFFF,
        ;
        let before: u128 = pages * per + index as u128;
        if before < list.total_count as u128 {
            list.total_count - before as usize
        } else {
            1
        }
    }

    /// Keeps the first line of the payload view within a payload of `lines`
    /// lines.
    pub fn clamp_payload_scroll(&mut self, lines: usize)
        ensures
            *final(self) == (App {
                payload_detail_scroll_offset: scroll_within(
                    old(self).payload_detail_scroll_offset as int,
                    lines as int,
                    crate::app::detail_rows_for_height(old(self).terminal_height as int),
                ) as usize,
                ..*old(self)
            }),
    {
        let rows: usize = self.get_payload_detail_page_size();
        let last: usize = lines.saturating_sub(rows);
        if self.payload_detail_scroll_offset > last {
            self.payload_detail_scroll_offset = last;
        }
    }

    /// The lines that the payload view shows of a payload.
    pub fn format_payload_content(&self, payload: &str) -> (lines: Vec<String>)
        ensures
            lines_view(lines@) == payload_lines(payload@),
    {
        match pretty_json(payload) {
            Some(pretty) => split_lines(pretty.as_str()),
            None => split_lines(payload),
        }
    }
}

/// The six groups of the text of a calendar value of the years 0 to 9999
/// are its year in four digits and its other groups in two.
pub proof fn lemma_written_text_has_its_groups(parts: crate::datetime::DateTimeParts)
    requires
        0 <= parts.year <= 9999,
    ensures
        groups_of(crate::datetime::written(parts)) == Some(
            seq![
                crate::datetime::four_digits(parts.year as int),
                crate::datetime::two_digits(parts.month as int),
                crate::datetime::two_digits(parts.day as int),
                crate::datetime::two_digits(parts.hour as int),
                crate::datetime::two_digits(parts.minute as int),
                crate::datetime::two_digits(parts.second as int),
            ],
        ),
{
    crate::datetime::lemma_civil_text_shape(parts);
}

/// The running numbers of a page count down from its first row, and the
/// first row of the first page carries the total.
pub proof fn lemma_running_numbers_count_down(total: int, page: int, per_page: int, index: int)
    requires
        page >= 1,
        per_page >= 0,
        index >= 0,
        crate::message_list::rows_before(page, per_page) + index + 1 < total,
    ensures
        running_number(total, page, per_page, index + 1) == running_number(
            total,
            page,
            per_page,
            index,
        ) - 1,
        running_number(total, 1, per_page, 0) == total,
{
    assert(crate::message_list::rows_before(1, per_page) == 0) by (nonlinear_arith);
}

/// A text in a column fills the column exactly, whenever the column has
/// room for the three dots.
pub proof fn lemma_column_is_filled(text: Seq<char>, width: nat)
    requires
        width >= 3,
    ensures
        in_column(text, width).len() == width,
{
}

} // verus!
