//! Lyrics: how they are asked for, and how their text is read into lines with times.
//!
//! Two notations are read: LRC, `[mm:ss.fff]text`, and KRC, `[start,length]text` with marks in angle
//! brackets inside the text. A KRC text may carry translations as an encoded JSON document.
use vstd::prelude::*;
use vstd::string::StringExecFns;
use crate::client::{Mode, Request, RequestModel};
use crate::error::{AppError, ErrorModel};
use crate::json;
use crate::json::Json;
use crate::model;
use crate::model::{Lyric, LyricLine, LyricLineModel, Song};
use crate::text;

verus! {

// ---------------------------------------------------------------------------
// Outside decoders
// ---------------------------------------------------------------------------
/// The bytes that `text` encodes in base64 with the standard alphabet and padding, or `None` where
/// it encodes none.
pub uninterp spec fn base64_bytes(text: Seq<char>) -> Option<Seq<u8>>;

/// `Engine::decode` of `base64::engine::general_purpose::STANDARD`: whether the text is valid, and
/// for which bytes, rests on the text alone.
#[verifier::external_body]
fn decode_base64(text: &str) -> (r: Option<Vec<u8>>)
    ensures
        match r {
            Some(bytes) => base64_bytes(text@) == Some(bytes@),
            None => base64_bytes(text@) is None,
        },
{
    base64::Engine::decode(&base64::engine::general_purpose::STANDARD, text).ok()
}

/// The text that `bytes` hold in UTF-8, faults replaced by the replacement character.
pub uninterp spec fn utf8_lossy(bytes: Seq<u8>) -> Seq<char>;

/// `String::from_utf8_lossy`: the text of the bytes, a function of the bytes alone.
#[verifier::external_body]
fn decode_utf8_lossy(bytes: &[u8]) -> (r: String)
    ensures
        r@ == utf8_lossy(bytes@),
{
    String::from_utf8_lossy(bytes).into_owned()
}

// ---------------------------------------------------------------------------
// Time tags
// ---------------------------------------------------------------------------
/// The digits of `s`.
pub open spec fn digits_of(s: Seq<char>) -> Seq<char>
    decreases s.len(),
{
    if s.len() == 0 {
        Seq::empty()
    } else if text::is_digit(s.last()) {
        digits_of(s.drop_last()).push(s.last())
    } else {
        digits_of(s.drop_last())
    }
}

/// The milliseconds that a fraction of a second writes: its first three digits, filled up with
/// zeros.
pub open spec fn fraction_ms(s: Seq<char>) -> nat {
    let digits = digits_of(s);
    if digits.len() == 0 {
        0
    } else {
        text::digits_value((digits + seq!['0', '0']).take(3))
    }
}

/// The time that `mm:ss.fff` writes, in milliseconds; seconds from 60 on are no time.
pub open spec fn clock_tag(tag: Seq<char>) -> Option<u64> {
    match text::char_position(tag, ':') {
        Some(colon) => {
            let rest = tag.skip(colon + 1);
            let dot = text::char_position(rest, '.');
            let seconds_text = match dot {
                Some(d) => rest.take(d),
                None => rest,
            };
            let millis = match dot {
                Some(d) => fraction_ms(rest.skip(d + 1)),
                None => 0,
            };
            let minutes = text::natural_u64(text::trimmed(tag.take(colon)));
            let seconds = text::natural_u64(text::trimmed(seconds_text));
            if minutes is None || seconds is None || seconds->0 >= 60 {
                None
            } else {
                let total = minutes->0 * 60_000 + seconds->0 * 1_000 + millis;
                Some(
                    if total > u64::MAX {
                        u64::MAX
                    } else {
                        total as u64
                    },
                )
            }
        },
        None => None,
    }
}

/// The time that a tag gives, in either notation; other tags give none.
pub open spec fn tag_time(tag: Seq<char>) -> Option<u64> {
    if text::char_position(tag, ':') is Some {
        clock_tag(tag)
    } else {
        match text::char_position(tag, ',') {
            Some(comma) => text::natural_u64(text::trimmed(tag.take(comma))),
            None => None,
        }
    }
}

/// A number of three digits or fewer is below a thousand.
proof fn lemma_three_digits(s: Seq<char>)
    requires
        s.len() <= 3,
        text::all_digits(s),
    ensures
        text::digits_value(s) < 1000,
{
    reveal_with_fuel(text::digits_value, 4);
    if s.len() > 0 {
        assert(text::is_digit(s[s.len() - 1]));
        let t = s.drop_last();
        if t.len() > 0 {
            assert(t.last() == s[t.len() - 1]);
            assert(text::is_digit(s[t.len() - 1]));
            let u = t.drop_last();
            if u.len() > 0 {
                assert(u.last() == s[u.len() - 1]);
                assert(text::is_digit(s[u.len() - 1]));
                assert(u.drop_last().len() == 0);
            }
        }
    }
}

/// The digits of a text are digits.
proof fn lemma_digits_of(s: Seq<char>)
    ensures
        text::all_digits(digits_of(s)),
    decreases s.len(),
{
    if s.len() > 0 {
        lemma_digits_of(s.drop_last());
    }
}

/// Reads a fraction of a second as milliseconds.
fn parse_fraction(s: &[char]) -> (r: u64)
    ensures
        r == fraction_ms(s@),
        r < 1000,
{
    let mut digits: Vec<char> = Vec::new();
    let mut i: usize = 0;
    while i < s.len()
        invariant
            i <= s@.len(),
            digits@ == digits_of(s@.take(i as int)),
        decreases s@.len() - i,
    {
        proof {
            assert(s@.take(i + 1).drop_last() =~= s@.take(i as int));
            assert(s@.take(i + 1).last() == s@[i as int]);
        }
        let c = s[i];
        if '0' <= c && c <= '9' {
            digits.push(c);
        }
        i += 1;
    }
    proof {
        assert(s@.take(s@.len() as int) =~= s@);
        lemma_digits_of(s@);
    }
    if digits.len() == 0 {
        return 0;
    }
    let ghost plain = digits@;
    digits.push('0');
    digits.push('0');
    let first = &digits.as_slice()[0..3];
    proof {
        assert(digits@ =~= plain + seq!['0', '0']);
        assert(first@ =~= digits@.take(3));
        assert forall|k: int| 0 <= k < first@.len() implies text::is_digit(#[trigger] first@[k]) by {
            if k < plain.len() {
                assert(first@[k] == plain[k]);
            }
        }
        lemma_three_digits(first@);
        assert(text::is_digit(first@[0]));
    }
    match text::parse_u64(first) {
        Some(value) => value,
        None => 0,
    }
}

/// Reads `mm:ss.fff`.
fn parse_lrc_tag(tag: &[char]) -> (r: Option<u64>)
    ensures
        r == clock_tag(tag@),
{
    let colon: usize = match text::find_char(tag, ':') {
        Some(colon) => colon,
        None => {
            return None;
        },
    };
    proof {
        text::lemma_position_from(tag@, seq![':'], 0);
    }
    let length: usize = tag.len();
    let rest = &tag[colon + 1..length];
    proof {
        assert(rest@ =~= tag@.skip(colon + 1));
        assert(tag@.subrange(0, colon as int) =~= tag@.take(colon as int));
        text::lemma_position_from(rest@, seq!['.'], 0);
    }
    let minutes: u64 = match text::parse_u64(text::trim(&tag[0..colon])) {
        Some(minutes) => minutes,
        None => {
            return None;
        },
    };
    let dot = text::find_char(rest, '.');
    let seconds_text = match dot {
        Some(d) => &rest[0..d],
        None => rest,
    };
    proof {
        if let Some(d) = dot {
            assert(seconds_text@ =~= rest@.take(d as int));
            assert(rest@.subrange(d + 1, rest@.len() as int) =~= rest@.skip(d + 1));
        }
    }
    let seconds: u64 = match text::parse_u64(text::trim(seconds_text)) {
        Some(seconds) => seconds,
        None => {
            return None;
        },
    };
    if seconds >= 60 {
        return None;
    }
    let millis: u64 = match dot {
        Some(d) => parse_fraction(&rest[d + 1..rest.len()]),
        None => 0,
    };
    let tail: u64 = seconds * 1_000 + millis;
    let total: u64 = match minutes.checked_mul(60_000) {
        Some(head) => head.saturating_add(tail),
        None => u64::MAX,
    };
    Some(total)
}

/// Reads a tag as a time.
pub fn parse_time_tag(tag: &str) -> (r: Option<u64>)
    ensures
        r == tag_time(tag@),
{
    let chars = text::to_chars(tag);
    read_time_tag(chars.as_slice())
}

/// Reads a tag as a time.
fn read_time_tag(tag: &[char]) -> (r: Option<u64>)
    ensures
        r == tag_time(tag@),
{
    if text::find_char(tag, ':').is_some() {
        return parse_lrc_tag(tag);
    }
    match text::find_char(tag, ',') {
        Some(comma) => {
            proof {
                text::lemma_position_from(tag@, seq![','], 0);
                assert(tag@.subrange(0, comma as int) =~= tag@.take(comma as int));
            }
            text::parse_u64(text::trim(&tag[0..comma]))
        },
        None => None,
    }
}

/// The times given by the tags at the front of a line.
pub open spec fn line_times(line: Seq<char>) -> Seq<u64>
    decreases line.len(),
{
    match front_tag(line) {
        Some((time, close)) if 0 <= close < line.len() => seq![time] + line_times(
            line.skip(close + 1),
        ),
        _ => Seq::empty(),
    }
}

/// What follows the tags at the front of a line.
pub open spec fn line_rest(line: Seq<char>) -> Seq<char>
    decreases line.len(),
{
    match front_tag(line) {
        Some((_, close)) if 0 <= close < line.len() => line_rest(line.skip(close + 1)),
        _ => line,
    }
}

/// The time of the tag with which a line begins, and where the tag closes.
pub open spec fn front_tag(line: Seq<char>) -> Option<(u64, int)> {
    if text::begins(line, seq!['[']) {
        match text::char_position(line, ']') {
            Some(close) => match tag_time(line.subrange(1, close)) {
                Some(time) => Some((time, close)),
                None => None,
            },
            None => None,
        }
    } else {
        None
    }
}

/// Takes the tags off the front of a line: their times, and where the rest begins.
fn consume_time_tags(line: &[char]) -> (r: (Vec<u64>, usize))
    ensures
        r.0@ == line_times(line@),
        r.1 <= line@.len(),
        line@.skip(r.1 as int) == line_rest(line@),
{
    let mut times: Vec<u64> = Vec::new();
    let mut start: usize = 0;
    proof {
        assert(line@.skip(0) =~= line@);
        assert(times@ + line_times(line@) =~= line_times(line@));
    }
    loop
        invariant_except_break
            start <= line@.len(),
            times@ + line_times(line@.skip(start as int)) == line_times(line@),
            line_rest(line@.skip(start as int)) == line_rest(line@),
        ensures
            start <= line@.len(),
            times@ == line_times(line@),
            line@.skip(start as int) == line_rest(line@),
        decreases line@.len() - start,
    {
        let here = &line[start..line.len()];
        proof {
            assert(here@ =~= line@.skip(start as int));
        }
        if here.len() == 0 || here[0] != '[' {
            proof {
                assert(!text::begins(here@, seq!['['])) by {
                    if here@.len() > 0 {
                        assert(here@.subrange(0, 1)[0] == here@[0]);
                    }
                }
                assert(times@ + Seq::<u64>::empty() =~= times@);
            }
            break ;
        }
        proof {
            assert(here@.subrange(0, 1) =~= seq!['[']);
        }
        let close: usize = match text::find_char(here, ']') {
            Some(close) => close,
            None => {
                proof {
                    assert(front_tag(here@) is None);
                    assert(times@ + Seq::<u64>::empty() =~= times@);
                }
                break ;
            },
        };
        proof {
            text::lemma_position_from(here@, seq![']'], 0);
            assert(here@.subrange(close as int, close + 1)[0] == ']');
        }
        match read_time_tag(&here[1..close]) {
            Some(time) => {
                let ghost before = times@;
                times.push(time);
                proof {
                    assert(front_tag(here@) == Some((time, close as int)));
                    assert(here@.skip(close + 1) =~= line@.skip(start + close + 1));
                    assert(times@ + line_times(line@.skip(start + close + 1)) =~= before + (
                    seq![time] + line_times(line@.skip(start + close + 1))));
                }
                start = start + close + 1;
            },
            None => {
                proof {
                    assert(front_tag(here@) is None);
                    assert(times@ + Seq::<u64>::empty() =~= times@);
                }
                break ;
            },
        }
    }
    (times, start)
}

// ---------------------------------------------------------------------------
// The text of a line
// ---------------------------------------------------------------------------
/// How many angle brackets are open behind `s`.
pub open spec fn open_brackets(s: Seq<char>) -> nat
    decreases s.len(),
{
    if s.len() == 0 {
        0
    } else {
        let before = open_brackets(s.drop_last());
        if s.last() == '<' {
            before + 1
        } else if s.last() == '>' && before > 0 {
            (before - 1) as nat
        } else {
            before
        }
    }
}

/// The characters of `s` that stand outside angle brackets.
pub open spec fn outside_brackets(s: Seq<char>) -> Seq<char>
    decreases s.len(),
{
    if s.len() == 0 {
        Seq::empty()
    } else {
        let before = outside_brackets(s.drop_last());
        if s.last() != '<' && s.last() != '>' && open_brackets(s.drop_last()) == 0 {
            before.push(s.last())
        } else {
            before
        }
    }
}

/// No more brackets are open than characters were read.
proof fn lemma_open_brackets(s: Seq<char>)
    ensures
        open_brackets(s) <= s.len(),
    decreases s.len(),
{
    if s.len() > 0 {
        lemma_open_brackets(s.drop_last());
    }
}

/// Drops the marks in angle brackets, and the white space around what is left.
fn clean_krc_markup(s: &[char]) -> (r: String)
    ensures
        r@ == text::trimmed(outside_brackets(s@)),
{
    let mut shown: Vec<char> = Vec::new();
    let mut depth: usize = 0;
    let mut i: usize = 0;
    while i < s.len()
        invariant
            i <= s@.len(),
            depth == open_brackets(s@.take(i as int)),
            shown@ == outside_brackets(s@.take(i as int)),
        decreases s@.len() - i,
    {
        proof {
            assert(s@.take(i + 1).drop_last() =~= s@.take(i as int));
            assert(s@.take(i + 1).last() == s@[i as int]);
            lemma_open_brackets(s@.take(i as int));
        }
        let c = s[i];
        if c == '<' {
            depth += 1;
        } else if c == '>' {
            if depth > 0 {
                depth -= 1;
            }
        } else if depth == 0 {
            shown.push(c);
        }
        i += 1;
    }
    proof {
        assert(s@.take(s@.len() as int) =~= s@);
    }
    text::from_chars(text::trim(shown.as_slice()))
}

// ---------------------------------------------------------------------------
// Lines in order of time
// ---------------------------------------------------------------------------
/// A line that has no translation yet.
pub open spec fn plain_line(time_ms: u64, words: Seq<char>) -> LyricLineModel {
    LyricLineModel { time_ms, text: words, translation: None, romanization: None }
}

/// `lines` with `line` put in: behind every line that does not come later.
pub open spec fn put_in(lines: Seq<LyricLineModel>, line: LyricLineModel) -> Seq<LyricLineModel>
    decreases lines.len(),
{
    if lines.len() == 0 || lines.last().time_ms <= line.time_ms {
        lines.push(line)
    } else {
        put_in(lines.drop_last(), line).push(lines.last())
    }
}

/// `lines` with one line for each of `times` put in.
pub open spec fn put_in_all(
    lines: Seq<LyricLineModel>,
    times: Seq<u64>,
    words: Seq<char>,
) -> Seq<LyricLineModel>
    decreases times.len(),
{
    if times.len() == 0 {
        lines
    } else {
        put_in(put_in_all(lines, times.drop_last(), words), plain_line(times.last(), words))
    }
}

/// `lines` with what one line of the text gives put in: nothing without a time or without words.
pub open spec fn put_in_line(lines: Seq<LyricLineModel>, raw: Seq<char>) -> Seq<LyricLineModel> {
    let line = text::trimmed_end(raw);
    let words = text::trimmed(outside_brackets(line_rest(line)));
    if words.len() == 0 {
        lines
    } else {
        put_in_all(lines, line_times(line), words)
    }
}

/// The lines that the lines of a text give, in order of time; lines of one time stay in the order
/// of the text.
pub open spec fn timed_lines(raw: Seq<Seq<char>>) -> Seq<LyricLineModel>
    decreases raw.len(),
{
    if raw.len() == 0 {
        Seq::empty()
    } else {
        put_in_line(timed_lines(raw.drop_last()), raw.last())
    }
}

/// Whether two lines have the same time and the same words.
pub open spec fn same_line(a: LyricLineModel, b: LyricLineModel) -> bool {
    a.time_ms == b.time_ms && a.text == b.text
}

/// `lines` without those that repeat the line before them.
pub open spec fn without_repeats(lines: Seq<LyricLineModel>) -> Seq<LyricLineModel>
    decreases lines.len(),
{
    if lines.len() == 0 {
        Seq::empty()
    } else {
        let before = without_repeats(lines.drop_last());
        if before.len() > 0 && same_line(before.last(), lines.last()) {
            before
        } else {
            before.push(lines.last())
        }
    }
}

/// The lines of a lyric text.
pub open spec fn lyric_lines(lyric: Seq<char>) -> Seq<LyricLineModel> {
    without_repeats(timed_lines(text::pieces(lyric, seq!['\n'])))
}

/// Whether no line comes later than `t`.
spec fn within(lines: Seq<LyricLineModel>, t: u64) -> bool {
    forall|i: int| 0 <= i < lines.len() ==> (#[trigger] lines[i]).time_ms <= t
}

/// Putting a line in keeps the order of time.
proof fn lemma_put_in(lines: Seq<LyricLineModel>, line: LyricLineModel)
    requires
        model::by_time(lines),
    ensures
        model::by_time(put_in(lines, line)),
        put_in(lines, line).len() == lines.len() + 1,
        forall|t: u64| #[trigger]
            within(lines, t) && line.time_ms <= t ==> within(put_in(lines, line), t),
    decreases lines.len(),
{
    if lines.len() == 0 || lines.last().time_ms <= line.time_ms {
        assert forall|i: int, j: int| 0 <= i <= j < lines.push(line).len() implies lines.push(
            line,
        )[i].time_ms <= lines.push(line)[j].time_ms by {
            if j == lines.len() && i < j {
                assert(lines[i].time_ms <= lines[lines.len() - 1].time_ms);
            }
        }
    } else {
        let shorter = lines.drop_last();
        assert(model::by_time(shorter));
        lemma_put_in(shorter, line);
        let front = put_in(shorter, line);
        let last = lines.last();
        assert forall|i: int| 0 <= i < shorter.len() implies (#[trigger] shorter[i]).time_ms
            <= last.time_ms by {
            assert(lines[i].time_ms <= lines[lines.len() - 1].time_ms);
        }
        assert(within(shorter, last.time_ms));
        assert(within(front, last.time_ms));
        let all = put_in(lines, line);
        assert(all == front.push(last));
        assert forall|t: u64| #[trigger]
            within(lines, t) && line.time_ms <= t implies within(all, t) by {
            assert forall|i: int| 0 <= i < shorter.len() implies (#[trigger] shorter[i]).time_ms
                <= t by {
                assert(shorter[i] == lines[i]);
            }
            assert(within(shorter, t));
            assert(lines[lines.len() - 1].time_ms <= t);
        }
    }
}

/// Putting in the lines of several times keeps the order of time.
proof fn lemma_put_in_all(lines: Seq<LyricLineModel>, times: Seq<u64>, words: Seq<char>)
    requires
        model::by_time(lines),
    ensures
        model::by_time(put_in_all(lines, times, words)),
    decreases times.len(),
{
    if times.len() > 0 {
        lemma_put_in_all(lines, times.drop_last(), words);
        lemma_put_in(
            put_in_all(lines, times.drop_last(), words),
            plain_line(times.last(), words),
        );
    }
}

/// The lines of a text come out in order of time.
proof fn lemma_timed_lines(raw: Seq<Seq<char>>)
    ensures
        model::by_time(timed_lines(raw)),
    decreases raw.len(),
{
    if raw.len() > 0 {
        lemma_timed_lines(raw.drop_last());
        let line = text::trimmed_end(raw.last());
        lemma_put_in_all(
            timed_lines(raw.drop_last()),
            line_times(line),
            text::trimmed(outside_brackets(line_rest(line))),
        );
    }
}

/// Leaving out repeats keeps the order of time, and no line that is left repeats the one before it.
proof fn lemma_without_repeats(lines: Seq<LyricLineModel>)
    requires
        model::by_time(lines),
    ensures
        model::by_time(without_repeats(lines)),
        forall|i: int|
            0 <= i < without_repeats(lines).len() - 1 ==> !same_line(
                #[trigger] without_repeats(lines)[i],
                without_repeats(lines)[i + 1],
            ),
        lines.len() > 0 ==> without_repeats(lines).len() > 0 && without_repeats(
            lines,
        ).last().time_ms == lines.last().time_ms,
    decreases lines.len(),
{
    if lines.len() > 0 {
        let shorter = lines.drop_last();
        assert(model::by_time(shorter));
        lemma_without_repeats(shorter);
        let before = without_repeats(shorter);
        let all = without_repeats(lines);
        if shorter.len() > 0 {
            assert(lines[lines.len() - 2].time_ms <= lines[lines.len() - 1].time_ms);
        }
        assert forall|i: int, j: int| 0 <= i <= j < all.len() implies all[i].time_ms
            <= all[j].time_ms by {
            if j == before.len() && i < j {
                assert(before[i].time_ms <= before[before.len() - 1].time_ms);
            }
        }
    }
}

/// The lines of a lyric stand in order of time, and none repeats the one before it.
pub proof fn lyrics_are_in_order(lyric: Seq<char>)
    ensures
        model::by_time(lyric_lines(lyric)),
        forall|i: int|
            0 <= i < lyric_lines(lyric).len() - 1 ==> !same_line(
                #[trigger] lyric_lines(lyric)[i],
                lyric_lines(lyric)[i + 1],
            ),
{
    lemma_timed_lines(text::pieces(lyric, seq!['\n']));
    lemma_without_repeats(timed_lines(text::pieces(lyric, seq!['\n'])));
}

/// Puts a line in behind every line that does not come later.
fn put_line(lines: &mut Vec<LyricLine>, line: LyricLine)
    ensures
        final(lines).deep_view() == put_in(old(lines).deep_view(), line.deep_view()),
{
    let ghost before = lines.deep_view();
    let ghost model_line = line.deep_view();
    let mut at: usize = lines.len();
    proof {
        assert(before.take(at as int) =~= before);
        assert(put_in(before, model_line) + before.skip(at as int) =~= put_in(before, model_line));
    }
    while at > 0 && lines[at - 1].time_ms > line.time_ms
        invariant
            at <= lines@.len(),
            before == lines.deep_view(),
            model_line == line.deep_view(),
            put_in(before, model_line) == put_in(before.take(at as int), model_line) + before.skip(
                at as int,
            ),
        decreases at,
    {
        proof {
            let here = before.take(at as int);
            assert(here.drop_last() =~= before.take(at - 1));
            assert(here.last() == before[at - 1]);
            assert(put_in(here, model_line) == put_in(here.drop_last(), model_line).push(
                here.last(),
            ));
            assert(put_in(before.take(at - 1), model_line).push(here.last()) + before.skip(
                at as int,
            ) =~= put_in(before.take(at - 1), model_line) + before.skip(at - 1));
        }
        at -= 1;
    }
    proof {
        let here = before.take(at as int);
        if at > 0 {
            assert(here.last() == lines@[at - 1].deep_view());
        }
        assert(put_in(here, model_line) == here.push(model_line));
    }
    lines.insert(at, line);
    proof {
        assert(lines.deep_view() =~= before.take(at as int).push(model_line) + before.skip(
            at as int,
        ));
    }
}

/// Reads the lines of a lyric text.
pub fn parse_lrc(text: &str) -> (r: Lyric)
    ensures
        r.deep_view() == lyric_lines(text@),
        model::by_time(r.deep_view()),
{
    let chars = text::to_chars(text);
    let breaks = ['\n'];
    let raw = text::split(chars.as_slice(), &breaks);
    let ghost all = text::pieces(text@, seq!['\n']);
    proof {
        assert(breaks@ =~= seq!['\n']);
        assert(all.take(0) =~= Seq::<Seq<char>>::empty());
    }
    let mut lines: Vec<LyricLine> = Vec::new();
    proof {
        assert(lines.deep_view() =~= Seq::<LyricLineModel>::empty());
    }
    let mut i: usize = 0;
    while i < raw.len()
        invariant
            i <= raw@.len(),
            text::rows(raw@) == all,
            lines.deep_view() == timed_lines(all.take(i as int)),
        decreases raw@.len() - i,
    {
        proof {
            assert(all.take(i + 1).drop_last() =~= all.take(i as int));
            assert(all.take(i + 1).last() == raw@[i as int]@);
        }
        let line = text::trim_end(raw[i].as_slice());
        let (times, start) = consume_time_tags(line);
        let rest = &line[start..line.len()];
        proof {
            assert(rest@ =~= line@.skip(start as int));
        }
        let words = clean_krc_markup(rest);
        if !words.as_str().is_empty() {
            let ghost base = lines.deep_view();
            let mut k: usize = 0;
            proof {
                assert(times@.take(0) =~= Seq::<u64>::empty());
            }
            while k < times.len()
                invariant
                    k <= times@.len(),
                    lines.deep_view() == put_in_all(base, times@.take(k as int), words@),
                decreases times@.len() - k,
            {
                proof {
                    assert(times@.take(k + 1).drop_last() =~= times@.take(k as int));
                    assert(times@.take(k + 1).last() == times@[k as int]);
                }
                let line = LyricLine {
                    time_ms: times[k],
                    text: words.clone(),
                    translation: None,
                    romanization: None,
                };
                put_line(&mut lines, line);
                k += 1;
            }
            proof {
                assert(times@.take(times@.len() as int) =~= times@);
            }
        }
        i += 1;
    }
    proof {
        assert(all.take(all.len() as int) =~= all);
        lyrics_are_in_order(text@);
    }
    Lyric { lines: drop_repeats(lines) }
}

/// Leaves out the lines that repeat the line before them.
fn drop_repeats(lines: Vec<LyricLine>) -> (r: Vec<LyricLine>)
    ensures
        r.deep_view() == without_repeats(lines.deep_view()),
{
    let ghost all = lines.deep_view();
    let mut out: Vec<LyricLine> = Vec::new();
    proof {
        assert(out.deep_view() =~= Seq::<LyricLineModel>::empty());
    }
    let mut i: usize = 0;
    while i < lines.len()
        invariant
            i <= lines@.len(),
            all == lines.deep_view(),
            out.deep_view() == without_repeats(all.take(i as int)),
        decreases lines@.len() - i,
    {
        let line = &lines[i];
        proof {
            assert(all.take(i + 1).drop_last() =~= all.take(i as int));
            assert(all.take(i + 1).last() == line.deep_view());
        }
        let last: usize = out.len();
        let repeats = last > 0 && out[last - 1].time_ms == line.time_ms && text::same(
            out[last - 1].text.as_str(),
            line.text.as_str(),
        );
        proof {
            if last > 0 {
                assert(out.deep_view().last() == out@[last - 1].deep_view());
            }
        }
        if !repeats {
            let ghost before = out.deep_view();
            let copy = copy_line(line);
            out.push(copy);
            proof {
                assert(out.deep_view() =~= before.push(line.deep_view()));
            }
        }
        i += 1;
    }
    proof {
        assert(all.take(all.len() as int) =~= all);
    }
    out
}

/// A copy of a line.
pub(crate) fn copy_line(line: &LyricLine) -> (r: LyricLine)
    ensures
        r.deep_view() == line.deep_view(),
{
    LyricLine {
        time_ms: line.time_ms,
        text: line.text.clone(),
        translation: model::copy_text(&line.translation),
        romanization: model::copy_text(&line.romanization),
    }
}

// ---------------------------------------------------------------------------
// Translations
// ---------------------------------------------------------------------------
/// `s` without its white space.
pub open spec fn unspaced(s: Seq<char>) -> Seq<char>
    decreases s.len(),
{
    if s.len() == 0 {
        Seq::empty()
    } else if text::is_space(s.last()) {
        unspaced(s.drop_last())
    } else {
        unspaced(s.drop_last()).push(s.last())
    }
}

/// Drops all white space.
fn drop_spaces(s: &[char]) -> (r: String)
    ensures
        r@ == unspaced(s@),
{
    let mut out = String::new();
    let mut i: usize = 0;
    while i < s.len()
        invariant
            i <= s@.len(),
            out@ == unspaced(s@.take(i as int)),
        decreases s@.len() - i,
    {
        proof {
            assert(s@.take(i + 1).drop_last() =~= s@.take(i as int));
            assert(s@.take(i + 1).last() == s@[i as int]);
        }
        if !text::is_whitespace(s[i]) {
            out.push(s[i]);
        }
        i += 1;
    }
    proof {
        assert(s@.take(s@.len() as int) =~= s@);
    }
    out
}

/// How many bytes `s` takes in UTF-8.
pub open spec fn byte_length(s: Seq<char>) -> nat {
    vstd::utf8::encode_utf8(s).len()
}

/// `s` filled up with equals signs to a multiple of four bytes.
pub open spec fn padded(s: Seq<char>) -> Seq<char> {
    let missing = (4 - byte_length(s) % 4) % 4;
    if missing == 0 {
        s
    } else if missing == 1 {
        s + "="@
    } else if missing == 2 {
        s + "=="@
    } else {
        s + "==="@
    }
}

/// Fills a text up with equals signs to a multiple of four bytes.
fn pad(s: String) -> (r: String)
    ensures
        r@ == padded(s@),
{
    let over: usize = s.as_str().as_bytes().len() % 4;
    let mut out = s;
    if over == 1 {
        out.append("===");
    } else if over == 2 {
        out.append("==");
    } else if over == 3 {
        out.append("=");
    }
    out
}

/// What stands between `[language:` and the next closing bracket.
pub open spec fn language_code(krc: Seq<char>) -> Option<Seq<char>> {
    match text::position(krc, "[language:"@) {
        Some(at) => {
            let rest = krc.skip(at + "[language:"@.len());
            match text::char_position(rest, ']') {
                Some(close) => Some(rest.take(close)),
                None => None,
            }
        },
        None => None,
    }
}

/// The document of translations that a lyric text carries.
pub open spec fn language_document(krc: Seq<char>) -> Option<Json> {
    match language_code(krc) {
        Some(code) => match base64_bytes(padded(unspaced(code))) {
            Some(bytes) => json::document_bytes(bytes),
            None => None,
        },
        None => None,
    }
}

/// Finds the code between `[language:` and the next closing bracket.
fn find_language_code(krc: &str) -> (r: Option<Vec<char>>)
    ensures
        match r {
            Some(code) => language_code(krc@) == Some(code@),
            None => language_code(krc@) is None,
        },
{
    let chars = text::to_chars(krc);
    let mark = text::to_chars("[language:");
    let at: usize = match text::find(chars.as_slice(), mark.as_slice()) {
        Some(at) => at,
        None => {
            return None;
        },
    };
    proof {
        text::lemma_position_from(chars@, mark@, 0);
    }
    let length: usize = chars.len();
    let rest = &chars.as_slice()[at + mark.len()..length];
    proof {
        assert(rest@ =~= krc@.skip(at + "[language:"@.len()));
        text::lemma_position_from(rest@, seq![']'], 0);
    }
    match text::find_char(rest, ']') {
        Some(close) => {
            let mut code: Vec<char> = Vec::new();
            let mut i: usize = 0;
            while i < close
                invariant
                    i <= close <= rest@.len(),
                    code@ == rest@.take(i as int),
                decreases close - i,
            {
                code.push(rest[i]);
                proof {
                    assert(code@ =~= rest@.take(i + 1));
                }
                i += 1;
            }
            Some(code)
        },
        None => None,
    }
}

/// Reads the document of translations that a lyric text carries.
fn extract_language_payload(krc: &str) -> (r: Option<Json>)
    ensures
        r == language_document(krc@),
{
    match find_language_code(krc) {
        Some(code) => {
            let clean = drop_spaces(code.as_slice());
            match decode_base64(pad(clean).as_str()) {
                Some(bytes) => json::parse_bytes(bytes.as_slice()),
                None => None,
            }
        },
        None => None,
    }
}

/// The text in the last of `parts`; nothing where it holds none.
pub open spec fn last_text(parts: Seq<Json>) -> Seq<char> {
    if parts.len() == 0 {
        Seq::empty()
    } else {
        match json::exact_text(parts.last()) {
            Some(words) => words,
            None => Seq::empty(),
        }
    }
}

/// The line that one entry of a track gives: a text, or the last of an array, which holds the line
/// of the song in front of it.
pub open spec fn track_line(entry: Json) -> Option<Seq<char>> {
    match entry {
        Json::Text(words) => Some(words@),
        Json::Array(parts) => Some(last_text(parts@)),
        _ => None,
    }
}

/// [`track_line`] as a value.
pub open spec fn track_line_model() -> spec_fn(Json) -> Option<Seq<char>> {
    |entry: Json| track_line(entry)
}

/// Reads one entry of a track.
fn flatten_lyric_content(entry: &Json) -> (r: Option<String>)
    ensures
        r.deep_view() == track_line(*entry),
{
    match entry {
        Json::Text(words) => Some(words.clone()),
        Json::Array(parts) => {
            if parts.is_empty() {
                return Some(String::new());
            }
            match parts[parts.len() - 1].as_str() {
                Some(words) => Some(words.to_owned()),
                None => Some(String::new()),
            }
        },
        _ => None,
    }
}

/// Whether a section is the track of the given kind.
pub open spec fn is_track(section: Json, kind: i64) -> bool {
    match json::at(section, "type"@) {
        Some(value) => json::exact_i64(value) == Some(kind),
        None => false,
    }
}

/// The lines of the first track of the given kind: 1 is the translation, 0 the romanization.
pub open spec fn track(sections: Seq<Json>, kind: i64) -> Option<Seq<Seq<char>>>
    decreases sections.len(),
{
    if sections.len() == 0 {
        None
    } else if is_track(sections[0], kind) {
        match json::array_at(sections[0], "lyricContent"@) {
            Some(items) => Some(json::kept(items@, track_line_model())),
            None => None,
        }
    } else {
        track(sections.drop_first(), kind)
    }
}

/// Reads the first track of the given kind.
fn read_track(sections: &Vec<Json>, kind: i64) -> (r: Option<Vec<String>>)
    ensures
        r.deep_view() == track(sections@, kind),
{
    let mut i: usize = 0;
    proof {
        assert(sections@.skip(0) =~= sections@);
    }
    while i < sections.len()
        invariant
            i <= sections@.len(),
            track(sections@, kind) == track(sections@.skip(i as int), kind),
        decreases sections@.len() - i,
    {
        let section = &sections[i];
        proof {
            assert(sections@.skip(i as int)[0] == *section);
            assert(sections@.skip(i as int).drop_first() =~= sections@.skip(i + 1));
            assert(json::reads::<String, _>(flatten_lyric_content, track_line_model()));
        }
        let found = match section.get("type") {
            Some(value) => match value.as_i64() {
                Some(n) => n == kind,
                None => false,
            },
            None => false,
        };
        if found {
            return match section.get_array("lyricContent") {
                Some(items) => Some(json::read_all(items.as_slice(), &flatten_lyric_content)),
                None => None,
            };
        }
        i += 1;
    }
    None
}

/// What a track says of line `i`, if it says anything; otherwise what was there.
pub open spec fn track_entry(
    lines: Option<Seq<Seq<char>>>,
    i: int,
    before: Option<Seq<char>>,
) -> Option<Seq<char>> {
    match lines {
        Some(all) => if 0 <= i < all.len() && text::trimmed(all[i]).len() > 0 {
            Some(all[i])
        } else {
            before
        },
        None => before,
    }
}

/// `lines` with the translations of `document` put to the lines of the same number.
pub open spec fn translated(lines: Seq<LyricLineModel>, document: Option<Json>) -> Seq<
    LyricLineModel,
> {
    match document {
        Some(payload) => match json::array_at(payload, "content"@) {
            Some(sections) => lines.map(
                |i: int, line: LyricLineModel|
                    LyricLineModel {
                        translation: track_entry(track(sections@, 1), i, line.translation),
                        romanization: track_entry(track(sections@, 0), i, line.romanization),
                        ..line
                    },
            ),
            None => lines,
        },
        None => lines,
    }
}

/// What a track says of line `i`, if it says anything; otherwise what was there.
fn pick_entry(lines: &Option<Vec<String>>, i: usize, before: &Option<String>) -> (r: Option<String>)
    ensures
        r.deep_view() == track_entry(lines.deep_view(), i as int, before.deep_view()),
{
    match lines {
        Some(all) => if i < all.len() && !text::is_blank(all[i].as_str()) {
            Some(all[i].clone())
        } else {
            model::copy_text(before)
        },
        None => model::copy_text(before),
    }
}

/// Puts the translations of a document to the lines of the same number.
pub fn attach_document(lyric: &mut Lyric, document: &Option<Json>)
    ensures
        final(lyric).deep_view() == translated(old(lyric).deep_view(), *document),
{
    let payload = match document {
        Some(payload) => payload,
        None => {
            return ;
        },
    };
    let sections = match payload.get_array("content") {
        Some(sections) => sections,
        None => {
            return ;
        },
    };
    let translation = read_track(sections, 1);
    let romanization = read_track(sections, 0);
    let ghost before = lyric.deep_view();
    let ghost wanted = translated(before, *document);
    let mut lines: Vec<LyricLine> = Vec::new();
    let mut i: usize = 0;
    while i < lyric.lines.len()
        invariant
            i <= lyric.lines@.len(),
            lyric.deep_view() == before,
            wanted == translated(before, Some(*payload)),
            json::array_at(*payload, "content"@) == Some(*sections),
            translation.deep_view() == track(sections@, 1),
            romanization.deep_view() == track(sections@, 0),
            lines.deep_view() == wanted.take(i as int),
        decreases lyric.lines@.len() - i,
    {
        let line = &lyric.lines[i];
        let new_line = LyricLine {
            time_ms: line.time_ms,
            text: line.text.clone(),
            translation: pick_entry(&translation, i, &line.translation),
            romanization: pick_entry(&romanization, i, &line.romanization),
        };
        proof {
            assert(before[i as int] == line.deep_view());
            assert(new_line.deep_view() == wanted[i as int]);
        }
        let ghost done = lines.deep_view();
        lines.push(new_line);
        proof {
            assert(lines.deep_view() =~= done.push(new_line.deep_view()));
            assert(wanted.take(i + 1) =~= wanted.take(i as int).push(wanted[i as int]));
        }
        i += 1;
    }
    proof {
        assert(wanted.take(wanted.len() as int) =~= wanted);
    }
    lyric.lines = lines;
}

/// Puts the translations that a lyric text carries to its lines.
pub fn attach_translations(lyric: &mut Lyric, krc_text: &str)
    ensures
        final(lyric).deep_view() == translated(
            old(lyric).deep_view(),
            language_document(krc_text@),
        ),
{
    let document = extract_language_payload(krc_text);
    attach_document(lyric, &document);
}

/// Translations change neither the times nor the words of a lyric, nor how many lines it has.
pub proof fn translations_keep_the_words(lines: Seq<LyricLineModel>, document: Option<Json>)
    ensures
        translated(lines, document).len() == lines.len(),
        forall|i: int|
            0 <= i < lines.len() ==> (#[trigger] translated(lines, document)[i]).time_ms
                == lines[i].time_ms && translated(lines, document)[i].text == lines[i].text,
        model::by_time(lines) ==> model::by_time(translated(lines, document)),
{
}

// ---------------------------------------------------------------------------
// Asking for a lyric
// ---------------------------------------------------------------------------
/// The request that finds a lyric for a song.
pub open spec fn search_request(song: model::SongModel) -> RequestModel {
    RequestModel {
        path: "/search/lyric"@,
        query: seq![
            ("hash"@, song.hash),
            ("keywords"@, model::singers_text(song.singers) + " - "@ + song.name),
            ("duration"@, text::decimal(song.duration_ms as nat)),
            ("man"@, "no"@),
        ],
        mode: Mode::Cached,
    }
}

/// The request that finds a lyric for `song`.
pub fn find_request(song: &Song) -> (r: Request)
    ensures
        r.deep_view() == search_request(song.deep_view()),
{
    let r = Request::new("/search/lyric", Mode::Cached).with("hash", song.hash.clone()).with(
        "keywords",
        text::join3(song.singer_text().as_str(), " - ", song.name.as_str()),
    ).with("duration", text::write_u64(song.duration_ms)).with("man", "no".to_owned());
    proof {
        assert(r.deep_view().query =~= search_request(song.deep_view()).query);
    }
    r
}

/// The number and the key of a lyric that one candidate names.
pub open spec fn candidate_of(value: Json) -> Option<(Seq<char>, Seq<char>)> {
    let id = json::first_text(value, seq!["id", "lyric_id"]);
    let key = json::first_text(value, seq!["accesskey", "access_key"]);
    if id is None || key is None {
        None
    } else {
        Some((id->0, key->0))
    }
}

/// [`candidate_of`] as a value.
pub open spec fn candidate_model() -> spec_fn(Json) -> Option<(Seq<char>, Seq<char>)> {
    |value: Json| candidate_of(value)
}

/// Reads one candidate for a lyric.
fn lyric_candidate(value: &Json) -> (r: Option<(String, String)>)
    ensures
        r.deep_view() == candidate_of(*value),
{
    let id_keys = ["id", "lyric_id"];
    let access_keys = ["accesskey", "access_key"];
    proof {
        assert(id_keys@ =~= seq!["id", "lyric_id"]);
        assert(access_keys@ =~= seq!["accesskey", "access_key"]);
    }
    match (json::pick_string(value, &id_keys), json::pick_string(value, &access_keys)) {
        (Some(id), Some(key)) => Some((id, key)),
        _ => None,
    }
}

/// That no lyric was found for a song of the given name.
pub open spec fn lyric_missing(name: Seq<char>) -> ErrorModel {
    ErrorModel::NotFound("未找到《"@ + name + "》的歌词"@)
}

/// That the lyric of a song of the given name is empty.
pub open spec fn lyric_empty(name: Seq<char>) -> ErrorModel {
    ErrorModel::NotFound("《"@ + name + "》的歌词为空"@)
}

/// Reads the number and the key of the lyric from the answer to the search.
pub fn find_lyric_candidate(root: &Json, song: &Song) -> (r: Result<(String, String), AppError>)
    ensures
        match r {
            Ok(pair) => json::only(*root, candidate_model()) == Some(pair.deep_view()),
            Err(error) => json::only(*root, candidate_model()) is None && error.deep_view()
                == lyric_missing(song.name@),
        },
{
    let found = json::extract_first(root, lyric_candidate);
    proof {
        assert(json::reads::<(String, String), _>(lyric_candidate, candidate_model()));
    }
    match found {
        Some(pair) => Ok(pair),
        None => Err(
            AppError::NotFound(text::join3("未找到《", song.name.as_str(), "》的歌词")),
        ),
    }
}

/// The request that fetches a lyric.
pub open spec fn words_request(lyric_id: Seq<char>, access_key: Seq<char>) -> RequestModel {
    RequestModel {
        path: "/lyric"@,
        query: seq![
            ("id"@, lyric_id),
            ("accesskey"@, access_key),
            ("fmt"@, "krc"@),
            ("decode"@, "true"@),
            ("charset"@, "utf8"@),
        ],
        mode: Mode::Cached,
    }
}

/// The request that fetches a lyric.
pub fn fetch_request(lyric_id: String, access_key: String) -> (r: Request)
    ensures
        r.deep_view() == words_request(lyric_id@, access_key@),
{
    let r = Request::new("/lyric", Mode::Cached).with("id", lyric_id).with(
        "accesskey",
        access_key,
    ).with("fmt", "krc".to_owned()).with("decode", "true".to_owned()).with(
        "charset",
        "utf8".to_owned(),
    );
    proof {
        assert(r.deep_view().query =~= seq![
            ("id"@, lyric_id@),
            ("accesskey"@, access_key@),
            ("fmt"@, "krc"@),
            ("decode"@, "true"@),
            ("charset"@, "utf8"@),
        ]);
    }
    r
}

/// What a base64 text holds; the text itself where it is none.
pub open spec fn decoded_content(encoded: Seq<char>) -> Seq<char> {
    match base64_bytes(unspaced(encoded)) {
        Some(bytes) => utf8_lossy(bytes),
        None => encoded,
    }
}

/// The keys under which the text of a lyric stands.
pub open spec fn lyric_keys() -> Seq<&'static str> {
    seq!["decodeContent", "lyric", "lrc"]
}

/// The lyric text of an answer: as it stands, or decoded from `content`.
pub open spec fn lyric_text(root: Json) -> Seq<char> {
    let data = json::payload(root);
    let plain = model::either(
        json::first_text(data, lyric_keys()),
        json::first_text(root, lyric_keys()),
    );
    let encoded = model::either(
        json::first_text(data, seq!["content"]),
        json::first_text(root, seq!["content"]),
    );
    if plain is Some {
        plain->0
    } else if encoded is Some {
        decoded_content(encoded->0)
    } else {
        Seq::empty()
    }
}

/// Reads the lyric text of an answer.
pub fn extract_lyric_text(root: &Json) -> (r: String)
    ensures
        r@ == lyric_text(*root),
{
    let keys = ["decodeContent", "lyric", "lrc"];
    let content = ["content"];
    proof {
        assert(keys@ =~= lyric_keys());
        assert(content@ =~= seq!["content"]);
    }
    let data = json::data_of(root);
    if let Some(words) = json::pick_string(data, &keys) {
        return words;
    }
    if let Some(words) = json::pick_string(root, &keys) {
        return words;
    }
    let mut encoded = json::pick_string(data, &content);
    if encoded.is_none() {
        encoded = json::pick_string(root, &content);
    }
    match encoded {
        Some(encoded) => {
            let chars = text::to_chars(encoded.as_str());
            let compact = drop_spaces(chars.as_slice());
            match decode_base64(compact.as_str()) {
                Some(bytes) => decode_utf8_lossy(bytes.as_slice()),
                None => encoded,
            }
        },
        None => String::new(),
    }
}

/// The lyric text that the answer to the request for a lyric gives, when its body holds `document`:
/// a body that is no document is the text itself.
pub open spec fn lyric_answer(document: Option<Json>, body: Seq<char>) -> Result<
    Seq<char>,
    ErrorModel,
> {
    match document {
        Some(root) => match model::reported_error("/lyric"@, root) {
            Some(error) => Err(error),
            None => Ok(lyric_text(root)),
        },
        None => Ok(body),
    }
}

/// The lyric text of an answer, given the document that its body holds, if it holds one.
pub fn judge_lyric(document: Option<Json>, body: String) -> (r: Result<String, AppError>)
    ensures
        match r {
            Ok(words) => lyric_answer(document, body@) == Ok::<Seq<char>, ErrorModel>(words@),
            Err(error) => lyric_answer(document, body@) == Err::<Seq<char>, ErrorModel>(
                error.deep_view(),
            ),
        },
{
    match document {
        Some(root) => match model::check_error_code("/lyric", &root) {
            Err(error) => Err(error),
            Ok(_) => Ok(extract_lyric_text(&root)),
        },
        None => Ok(body),
    }
}

/// The lyric of a song from its text; a lyric without lines is none.
pub open spec fn song_lyric(words: Seq<char>) -> Seq<LyricLineModel> {
    translated(lyric_lines(words), language_document(words))
}

/// Reads the lyric of `song` from the answer to the request for it.
pub fn read_lyric(body: String, song: &Song) -> (r: Result<Lyric, AppError>)
    ensures
        match (lyric_answer(json::document(body@), body@), r) {
            (Err(expected), Err(error)) => error.deep_view() == expected,
            (Err(_), Ok(_)) => false,
            (Ok(words), Ok(lyric)) => lyric.deep_view() == song_lyric(words)
                && lyric.deep_view().len() > 0 && model::by_time(lyric.deep_view()),
            (Ok(words), Err(error)) => song_lyric(words).len() == 0 && error.deep_view()
                == lyric_empty(song.name@),
        },
{
    let document = json::parse(body.as_str());
    let words = match judge_lyric(document, body) {
        Ok(words) => words,
        Err(error) => {
            return Err(error);
        },
    };
    let mut lyric = parse_lrc(words.as_str());
    proof {
        translations_keep_the_words(lyric_lines(words@), language_document(words@));
    }
    attach_translations(&mut lyric, words.as_str());
    if lyric.is_empty() {
        return Err(AppError::NotFound(text::join3("《", song.name.as_str(), "》的歌词为空")));
    }
    Ok(lyric)
}

// ---------------------------------------------------------------------------
// What is read from a text
// ---------------------------------------------------------------------------
/// Every line of a track gives one entry where each is a text or an array.
proof fn lemma_all_kept(items: Seq<Json>, i: int)
    requires
        forall|k: int|
            0 <= k < items.len() ==> (#[trigger] items[k]) is Text || items[k] is Array,
        0 <= i < items.len(),
    ensures
        json::kept(items, track_line_model()).len() == items.len(),
        Some(json::kept(items, track_line_model())[i]) == track_line(items[i]),
    decreases items.len(),
{
    let less = items.drop_last();
    assert forall|k: int| 0 <= k < less.len() implies (#[trigger] less[k]) is Text || less[k] is Array by {
        assert(less[k] == items[k]);
    }
    let last = items[items.len() - 1];
    assert(last is Text || last is Array);
    assert(track_line_model()(last) == track_line(last));
    assert(track_line(last) is Some);
    if less.len() > 0 {
        let k = if i < less.len() {
            i
        } else {
            0
        };
        lemma_all_kept(less, k);
    } else {
        assert(json::kept(less, track_line_model()).len() == 0);
    }
}

/// The first track of a kind is the one that is used.
proof fn lemma_first_track(sections: Seq<Json>, kind: i64, at: int)
    requires
        0 <= at < sections.len(),
        json::at(sections[at], "type"@) == Some(Json::Int(kind)),
        forall|k: int|
            0 <= k < at ==> json::at(#[trigger] sections[k], "type"@) != Some(Json::Int(kind)),
        json::array_at(sections[at], "lyricContent"@) is Some,
    ensures
        track(sections, kind) == Some(
            json::kept(json::array_at(sections[at], "lyricContent"@)->0@, track_line_model()),
        ),
    decreases at,
{
    if at > 0 {
        assert(json::at(sections[0], "type"@) != Some(Json::Int(kind)));
        assert(!is_track(sections[0], kind));
        let rest = sections.drop_first();
        assert forall|k: int| 0 <= k < at - 1 implies json::at(#[trigger] rest[k], "type"@) != Some(
            Json::Int(kind),
        ) by {
            assert(rest[k] == sections[k + 1]);
        }
        lemma_first_track(rest, kind, at - 1);
    }
}

/// Every line gets the translation that stands at its own place in the track: a text, or the last
/// text of an array. The track of type 1 is the translation, that of type 0 the romanization, and
/// neither touches the other; where the entry is blank or there is none, the line stays as it is.
pub proof fn each_line_gets_its_own_translation(
    lines: Seq<LyricLineModel>,
    payload: Json,
    kind: i64,
    at: int,
    i: int,
    words: Seq<char>,
)
    requires
        json::array_at(payload, "content"@) is Some,
        0 <= at < json::array_at(payload, "content"@)->0@.len(),
        json::at(json::array_at(payload, "content"@)->0@[at], "type"@) == Some(Json::Int(kind)),
        forall|k: int|
            0 <= k < at ==> json::at(
                #[trigger] json::array_at(payload, "content"@)->0@[k],
                "type"@,
            ) != Some(Json::Int(kind)),
        json::array_at(
            json::array_at(payload, "content"@)->0@[at],
            "lyricContent"@,
        ) is Some,
        ({
            let items = json::array_at(
                json::array_at(payload, "content"@)->0@[at],
                "lyricContent"@,
            )->0@;
            &&& forall|k: int|
                0 <= k < items.len() ==> (#[trigger] items[k]) is Text || items[k] is Array
            &&& 0 <= i < items.len()
            &&& (items[i] matches Json::Text(s) && s@ == words) || (items[i] matches Json::Array(
                parts,
            ) && parts@.len() > 0 && (parts@.last() matches Json::Text(s) && s@ == words))
        }),
        0 <= i < lines.len(),
    ensures
        kind == 1 && text::trimmed(words).len() > 0 ==> translated(
            lines,
            Some(payload),
        )[i].translation == Some(words),
        kind == 0 && text::trimmed(words).len() > 0 ==> translated(
            lines,
            Some(payload),
        )[i].romanization == Some(words),
        kind == 1 && text::trimmed(words).len() == 0 ==> translated(
            lines,
            Some(payload),
        )[i].translation == lines[i].translation,
        kind == 0 && text::trimmed(words).len() == 0 ==> translated(
            lines,
            Some(payload),
        )[i].romanization == lines[i].romanization,
{
    let sections = json::array_at(payload, "content"@)->0@;
    let items = json::array_at(sections[at], "lyricContent"@)->0@;
    lemma_first_track(sections, kind, at);
    lemma_all_kept(items, i);
    assert(track_line(items[i]) == Some(words));
}

/// Lines without an entry of their own keep what they have: a track never reaches beyond its end.
pub proof fn short_tracks_leave_the_rest(
    lines: Seq<LyricLineModel>,
    payload: Json,
    at: int,
    i: int,
)
    requires
        json::array_at(payload, "content"@) is Some,
        0 <= at < json::array_at(payload, "content"@)->0@.len(),
        json::at(json::array_at(payload, "content"@)->0@[at], "type"@) == Some(Json::Int(1)),
        forall|k: int|
            0 <= k < at ==> json::at(
                #[trigger] json::array_at(payload, "content"@)->0@[k],
                "type"@,
            ) != Some(Json::Int(1)),
        json::array_at(
            json::array_at(payload, "content"@)->0@[at],
            "lyricContent"@,
        ) is Some,
        json::array_at(
            json::array_at(payload, "content"@)->0@[at],
            "lyricContent"@,
        )->0@.len() <= i < lines.len(),
    ensures
        translated(lines, Some(payload))[i].translation == lines[i].translation,
{
    let sections = json::array_at(payload, "content"@)->0@;
    let items = json::array_at(sections[at], "lyricContent"@)->0@;
    lemma_first_track(sections, 1, at);
    lemma_kept_is_short(items);
}

/// No more entries are kept than there are.
proof fn lemma_kept_is_short(items: Seq<Json>)
    ensures
        json::kept(items, track_line_model()).len() <= items.len(),
    decreases items.len(),
{
    if items.len() > 0 {
        lemma_kept_is_short(items.drop_last());
    }
}

/// Digits are all that digits hold.
proof fn lemma_only_digits(s: Seq<char>)
    requires
        text::all_digits(s),
    ensures
        digits_of(s) == s,
    decreases s.len(),
{
    if s.len() > 0 {
        let less = s.drop_last();
        assert forall|k: int| 0 <= k < less.len() implies text::is_digit(#[trigger] less[k]) by {
            assert(text::is_digit(s[k]));
        }
        lemma_only_digits(less);
        assert(text::is_digit(s[s.len() - 1]));
        assert(less.push(s.last()) =~= s);
    } else {
        assert(s =~= Seq::<char>::empty());
    }
}

/// A text of digits holds no other character, and is not trimmed.
proof fn lemma_digits_stand_alone(s: Seq<char>, c: char)
    requires
        text::all_digits(s),
        !text::is_digit(c),
    ensures
        !s.contains(c),
        text::trimmed(s) == s,
{
    assert forall|k: int| 0 <= k < s.len() implies s[k] != c by {
        assert(text::is_digit(s[k]));
    }
    if s.len() > 0 {
        assert(text::is_digit(s[0]));
        assert(text::is_digit(s[s.len() - 1]));
    }
    text::plain_texts_are_not_trimmed(s);
}

/// A clock tag counts sixty seconds to the minute and reads its fraction as tenths, hundredths or
/// thousandths of a second, by how many digits it has; seconds from sixty on are no time.
pub proof fn clocks_count_minutes_seconds_and_parts(
    minutes: Seq<char>,
    seconds: Seq<char>,
    part: Seq<char>,
)
    requires
        text::all_digits(minutes) && minutes.len() > 0,
        text::all_digits(seconds) && seconds.len() > 0,
        text::all_digits(part) && 0 < part.len() <= 3,
        text::digits_value(minutes) <= 1_000_000,
        text::digits_value(seconds) <= 1_000_000,
    ensures
        ({
            let tag = minutes + seq![':'] + seconds + seq!['.'] + part;
            let scale: int = if part.len() == 3 {
                1
            } else if part.len() == 2 {
                10
            } else {
                100
            };
            if text::digits_value(seconds) < 60 {
                tag_time(tag) matches Some(time) && time == text::digits_value(minutes) * 60_000
                    + text::digits_value(seconds) * 1_000 + text::digits_value(part) * scale
            } else {
                tag_time(tag) is None
            }
        }),
{
    let rest = seconds + seq!['.'] + part;
    let tag = minutes + seq![':'] + seconds + seq!['.'] + part;
    assert(tag =~= minutes + seq![':'] + rest);
    lemma_digits_stand_alone(minutes, ':');
    lemma_digits_stand_alone(seconds, '.');
    text::characters_are_found_first(minutes, ':', rest);
    text::characters_are_found_first(seconds, '.', part);
    assert(tag.skip(minutes.len() as int + 1) =~= rest);
    assert(tag.take(minutes.len() as int) =~= minutes);
    assert(rest.take(seconds.len() as int) =~= seconds);
    assert(rest.skip(seconds.len() as int + 1) =~= part);
    assert(text::is_digit(minutes[0]));
    assert(text::is_digit(seconds[0]));
    lemma_only_digits(part);
    let filled = (part + seq!['0', '0']).take(3);
    if part.len() == 3 {
        assert(filled =~= part);
    } else if part.len() == 2 {
        assert(filled =~= part.push('0'));
        assert(part.push('0').drop_last() =~= part);
    } else {
        assert(filled =~= part.push('0').push('0'));
        assert(part.push('0').push('0').drop_last() =~= part.push('0'));
        assert(part.push('0').drop_last() =~= part);
    }
    reveal_with_fuel(text::digits_value, 3);
    assert(text::digits_value(part) < 1000) by {
        lemma_three_digits(part);
    }
}

/// A tag with a comma gives the milliseconds in front of it; what follows is how long the line lasts
/// and does not matter.
pub proof fn spans_begin_with_their_time(begin: Seq<char>, length: Seq<char>)
    requires
        text::all_digits(begin) && begin.len() > 0,
        text::digits_value(begin) <= u64::MAX,
        !length.contains(':'),
    ensures
        tag_time(begin + seq![','] + length) == Some(text::digits_value(begin) as u64),
{
    let tag = begin + seq![','] + length;
    lemma_digits_stand_alone(begin, ',');
    lemma_digits_stand_alone(begin, ':');
    text::characters_are_found_first(begin, ',', length);
    assert forall|k: int| 0 <= k < tag.len() implies tag[k] != ':' by {
        if k < begin.len() {
            assert(tag[k] == begin[k]);
        } else if k > begin.len() {
            assert(tag[k] == length[k - begin.len() - 1]);
        }
    }
    text::missing_characters_are_not_found(tag, ':', 0);
    assert(tag.take(begin.len() as int) =~= begin);
    assert(text::is_digit(begin[0]));
}

/// A line is taken apart at its tags: the time is that of the tag in front, and the words are what
/// follows it, with further tags in front of them counted too.
pub proof fn tags_stand_in_front_of_the_words(tag: Seq<char>, rest: Seq<char>)
    requires
        !tag.contains(']'),
        tag_time(tag) is Some,
    ensures
        line_times(seq!['['] + tag + seq![']'] + rest) == seq![tag_time(tag)->0] + line_times(rest),
        line_rest(seq!['['] + tag + seq![']'] + rest) == line_rest(rest),
        rest.len() == 0 || rest[0] != '[' ==> line_times(rest).len() == 0 && line_rest(rest) == rest,
{
    let line = seq!['['] + tag + seq![']'] + rest;
    let front = seq!['['] + tag;
    assert forall|k: int| 0 <= k < front.len() implies front[k] != ']' by {
        if k > 0 {
            assert(front[k] == tag[k - 1]);
        }
    }
    text::characters_are_found_first(front, ']', rest);
    assert(line.subrange(0, 1) =~= seq!['[']);
    assert(line.subrange(1, front.len() as int) =~= tag);
    assert(line.skip(front.len() as int + 1) =~= rest);
    if rest.len() > 0 && rest[0] != '[' {
        assert(rest.subrange(0, 1)[0] == rest[0]);
        assert(seq!['['][0] == '[');
    }
}

/// Putting a line in loses none and adds no other.
proof fn lemma_put_in_holds(lines: Seq<LyricLineModel>, line: LyricLineModel, other: LyricLineModel)
    ensures
        put_in(lines, line).contains(other) <==> lines.contains(other) || other == line,
    decreases lines.len(),
{
    let after = put_in(lines, line);
    if lines.len() == 0 || lines.last().time_ms <= line.time_ms {
        assert(after[lines.len() as int] == line);
        if lines.contains(other) {
            let k = lines.index_of(other);
            assert(after[k] == other);
        }
        if after.contains(other) {
            let k = after.index_of(other);
            if k < lines.len() {
                assert(lines[k] == other);
            }
        }
    } else {
        let less = lines.drop_last();
        lemma_put_in_holds(less, line, other);
        let front = put_in(less, line);
        assert(after == front.push(lines.last()));
        if after.contains(other) {
            let k = after.index_of(other);
            if k < front.len() {
                assert(front[k] == other);
                assert(front.contains(other));
                if less.contains(other) {
                    assert(lines[less.index_of(other)] == other);
                }
            } else {
                assert(lines[lines.len() - 1] == other);
            }
        }
        if lines.contains(other) || other == line {
            if other == line || less.contains(other) {
                let k = front.index_of(other);
                assert(after[k] == other);
            } else {
                let k = lines.index_of(other);
                if k < less.len() {
                    assert(less[k] == other);
                }
                assert(after[front.len() as int] == other);
            }
        }
    }
}

/// The same of one line for each of several times.
proof fn lemma_put_in_all_holds(
    lines: Seq<LyricLineModel>,
    times: Seq<u64>,
    words: Seq<char>,
    other: LyricLineModel,
)
    ensures
        put_in_all(lines, times, words).contains(other) <==> lines.contains(other) || (other
            == plain_line(other.time_ms, words) && times.contains(other.time_ms)),
    decreases times.len(),
{
    if times.len() > 0 {
        let less = times.drop_last();
        lemma_put_in_all_holds(lines, less, words, other);
        lemma_put_in_holds(
            put_in_all(lines, less, words),
            plain_line(times.last(), words),
            other,
        );
        assert(times[times.len() - 1] == times.last());
        if less.contains(other.time_ms) {
            assert(times[less.index_of(other.time_ms)] == other.time_ms);
        }
        if times.contains(other.time_ms) {
            let k = times.index_of(other.time_ms);
            if k < less.len() {
                assert(less[k] == other.time_ms);
            }
        }
    }
}

/// What one line of a text writes: so many words at a time.
pub open spec fn writes(raw: Seq<char>, line: LyricLineModel) -> bool {
    let shown = text::trimmed_end(raw);
    &&& line == plain_line(line.time_ms, text::trimmed(outside_brackets(line_rest(shown))))
    &&& line.text.len() > 0
    &&& line_times(shown).contains(line.time_ms)
}

/// The lines hold what the text writes.
proof fn lemma_timed_lines_hold(raw: Seq<Seq<char>>, line: LyricLineModel)
    ensures
        timed_lines(raw).contains(line) <==> exists|k: int|
            0 <= k < raw.len() && writes(#[trigger] raw[k], line),
    decreases raw.len(),
{
    if raw.len() > 0 {
        let less = raw.drop_last();
        let last = raw.last();
        lemma_timed_lines_hold(less, line);
        let shown = text::trimmed_end(last);
        let words = text::trimmed(outside_brackets(line_rest(shown)));
        lemma_put_in_all_holds(timed_lines(less), line_times(shown), words, line);
        assert(raw[raw.len() - 1] == last);
        if exists|k: int| 0 <= k < raw.len() && writes(#[trigger] raw[k], line) {
            let k = choose|k: int| 0 <= k < raw.len() && writes(#[trigger] raw[k], line);
            if k < less.len() {
                assert(writes(less[k], line));
            }
        }
        if timed_lines(raw).contains(line) {
            if timed_lines(less).contains(line) {
                let k = choose|k: int| 0 <= k < less.len() && writes(#[trigger] less[k], line);
                assert(writes(raw[k], line));
            } else {
                assert(writes(raw[raw.len() - 1], line));
            }
        }
    }
}

/// Dropping repeats drops no line for good.
proof fn lemma_without_repeats_holds(lines: Seq<LyricLineModel>, time_ms: u64, words: Seq<char>)
    ensures
        (exists|k: int|
            0 <= k < lines.len() && (#[trigger] lines[k]).time_ms == time_ms && lines[k].text
                == words) <==> (exists|k: int|
            0 <= k < without_repeats(lines).len() && (#[trigger] without_repeats(lines)[k]).time_ms
                == time_ms && without_repeats(lines)[k].text == words),
    decreases lines.len(),
{
    if lines.len() > 0 {
        let less = lines.drop_last();
        let before = without_repeats(less);
        let after = without_repeats(lines);
        lemma_without_repeats_holds(less, time_ms, words);
        if exists|k: int|
            0 <= k < lines.len() && (#[trigger] lines[k]).time_ms == time_ms && lines[k].text
                == words {
            let k = choose|k: int|
                0 <= k < lines.len() && (#[trigger] lines[k]).time_ms == time_ms && lines[k].text
                    == words;
            if k < less.len() {
                assert(less[k].time_ms == time_ms && less[k].text == words);
                let m = choose|m: int|
                    0 <= m < before.len() && (#[trigger] before[m]).time_ms == time_ms
                        && before[m].text == words;
                assert(after[m] == before[m]);
            } else {
                assert(after[after.len() - 1].time_ms == time_ms && after[after.len() - 1].text
                    == words);
            }
        }
        if exists|k: int|
            0 <= k < after.len() && (#[trigger] after[k]).time_ms == time_ms && after[k].text
                == words {
            let k = choose|k: int|
                0 <= k < after.len() && (#[trigger] after[k]).time_ms == time_ms && after[k].text
                    == words;
            if k < before.len() {
                assert(before[k] == after[k]);
                let m = choose|m: int|
                    0 <= m < less.len() && (#[trigger] less[m]).time_ms == time_ms && less[m].text
                        == words;
                assert(lines[m] == less[m]);
            } else {
                assert(lines[lines.len() - 1].time_ms == time_ms);
            }
        }
    }
}

/// A lyric holds what its text writes and nothing else: words stand in it at a time exactly where a
/// line of the text gives that time and those words.
pub proof fn lyrics_hold_what_is_written(lyric: Seq<char>, time_ms: u64, words: Seq<char>)
    ensures
        (exists|k: int|
            0 <= k < lyric_lines(lyric).len() && (#[trigger] lyric_lines(lyric)[k]).time_ms
                == time_ms && lyric_lines(lyric)[k].text == words) <==> (exists|k: int|
            0 <= k < text::pieces(lyric, seq!['\n']).len() && writes(
                #[trigger] text::pieces(lyric, seq!['\n'])[k],
                plain_line(time_ms, words),
            )),
{
    let raw = text::pieces(lyric, seq!['\n']);
    let lines = timed_lines(raw);
    let line = plain_line(time_ms, words);
    lemma_timed_lines_hold(raw, line);
    lemma_without_repeats_holds(lines, time_ms, words);
    if lines.contains(line) {
        assert(lines[lines.index_of(line)].time_ms == time_ms);
    }
    if exists|k: int|
        0 <= k < lines.len() && (#[trigger] lines[k]).time_ms == time_ms && lines[k].text == words {
        let k = choose|k: int|
            0 <= k < lines.len() && (#[trigger] lines[k]).time_ms == time_ms && lines[k].text
                == words;
        assert(lines.contains(lines[k]));
        lemma_timed_lines_hold(raw, lines[k]);
        assert(lines[k] == line);
    }
}

/// What stands in angle brackets is not shown, and nothing else is left out.
pub proof fn marks_are_not_shown(front: Seq<char>, mark: Seq<char>)
    requires
        !front.contains('<') && !front.contains('>'),
        !mark.contains('<') && !mark.contains('>'),
    ensures
        outside_brackets(front) == front,
        outside_brackets(front + seq!['<'] + mark + seq!['>']) == front,
        open_brackets(front + seq!['<'] + mark + seq!['>']) == 0,
{
    lemma_plain(front);
    lemma_inside(front, mark);
    let whole = front + seq!['<'] + mark + seq!['>'];
    assert(whole.drop_last() =~= front + seq!['<'] + mark);
    assert(whole.last() == '>');
}

/// Without brackets everything is shown.
proof fn lemma_plain(s: Seq<char>)
    requires
        !s.contains('<') && !s.contains('>'),
    ensures
        outside_brackets(s) == s,
        open_brackets(s) == 0,
    decreases s.len(),
{
    if s.len() > 0 {
        let less = s.drop_last();
        assert forall|k: int| 0 <= k < less.len() implies less[k] != '<' && less[k] != '>' by {
            assert(less[k] == s[k]);
            assert(s.contains(s[k]));
        }
        lemma_plain(less);
        assert(s.contains(s[s.len() - 1]));
        assert(less.push(s.last()) =~= s);
    } else {
        assert(s =~= Seq::<char>::empty());
    }
}

/// Inside brackets nothing is shown.
proof fn lemma_inside(front: Seq<char>, mark: Seq<char>)
    requires
        !front.contains('<') && !front.contains('>'),
        !mark.contains('<') && !mark.contains('>'),
    ensures
        outside_brackets(front + seq!['<'] + mark) == front,
        open_brackets(front + seq!['<'] + mark) == 1,
    decreases mark.len(),
{
    let whole = front + seq!['<'] + mark;
    if mark.len() == 0 {
        lemma_plain(front);
        assert(whole =~= front.push('<'));
        assert(whole.drop_last() =~= front);
    } else {
        let less = mark.drop_last();
        assert forall|k: int| 0 <= k < less.len() implies less[k] != '<' && less[k] != '>' by {
            assert(less[k] == mark[k]);
            assert(mark.contains(mark[k]));
        }
        lemma_inside(front, less);
        assert(whole.drop_last() =~= front + seq!['<'] + less);
        assert(whole.last() == mark.last());
        assert(mark.contains(mark[mark.len() - 1]));
    }
}

/// A lyric is looked for under the recording, the singers and the name, and the length of the song.
pub proof fn lyrics_are_looked_for_by_song(song: model::SongModel)
    ensures
        search_request(song).path == "/search/lyric"@,
        search_request(song).says("hash"@, song.hash),
        search_request(song).says("keywords"@, model::singers_text(song.singers) + " - "@ + song.name),
        search_request(song).says_number("duration"@, song.duration_ms as int),
        search_request(song).says("man"@, "no"@),
        search_request(song).mode == Mode::Cached,
{
    reveal_strlit("hash");
    reveal_strlit("keywords");
    reveal_strlit("duration");
    reveal_strlit("man");
    let query = search_request(song).query;
    text::numbers_are_read_back(song.duration_ms as int);
    assert(query[0].0 == "hash"@);
    assert(query[1].0 == "keywords"@);
    assert(query[2].0 == "duration"@);
    assert(query[3].0 == "man"@);
    assert("keywords"@[0] != "duration"@[0]);
}

/// A lyric is fetched under its number and its key, in the form that carries translations.
pub proof fn lyrics_are_fetched_by_number_and_key(lyric_id: Seq<char>, access_key: Seq<char>)
    ensures
        words_request(lyric_id, access_key).path == "/lyric"@,
        words_request(lyric_id, access_key).says("id"@, lyric_id),
        words_request(lyric_id, access_key).says("accesskey"@, access_key),
        words_request(lyric_id, access_key).says("fmt"@, "krc"@),
        words_request(lyric_id, access_key).says("decode"@, "true"@),
        words_request(lyric_id, access_key).says("charset"@, "utf8"@),
        words_request(lyric_id, access_key).mode == Mode::Cached,
{
    reveal_strlit("id");
    reveal_strlit("accesskey");
    reveal_strlit("fmt");
    reveal_strlit("decode");
    reveal_strlit("charset");
    let query = words_request(lyric_id, access_key).query;
    assert(query[0].0 == "id"@);
    assert(query[1].0 == "accesskey"@);
    assert(query[2].0 == "fmt"@);
    assert(query[3].0 == "decode"@);
    assert(query[4].0 == "charset"@);
}

/// A lyric is told apart by the number and the key that the answer gives; without either there is
/// none.
pub proof fn candidates_have_a_number_and_a_key(value: Json, id: String, key: String)
    ensures
        json::at(value, "id"@) == Some(Json::Text(id)) && json::at(value, "accesskey"@) == Some(
            Json::Text(key),
        ) && text::trimmed(id@).len() > 0 && text::trimmed(key@).len() > 0 ==> candidate_of(value)
            == Some((text::trimmed(id@), text::trimmed(key@))),
        json::at(value, "id"@) is None && json::at(value, "lyric_id"@) is None ==> candidate_of(
            value,
        ) is None,
        json::at(value, "accesskey"@) is None && json::at(value, "access_key"@) is None
            ==> candidate_of(value) is None,
{
    reveal_with_fuel(json::first_text, 3);
    let ids = seq!["id", "lyric_id"];
    let keys = seq!["accesskey", "access_key"];
    assert(ids[0]@ == "id"@);
    assert(ids.drop_first()[0]@ == "lyric_id"@);
    assert(keys[0]@ == "accesskey"@);
    assert(keys.drop_first()[0]@ == "access_key"@);
}

} // verus!
