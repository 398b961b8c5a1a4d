//! Text as sequences of characters: trimming, searching, splitting and writing numbers.
//!
//! The functions work on slices of characters, so that every position is a character and no cut
//! can fall inside one.
use vstd::prelude::*;
use vstd::string::StringExecFns;

verus! {

// ---------------------------------------------------------------------------
// Characters and conversions
// ---------------------------------------------------------------------------
/// `String::push` appends the given character to the end of the string.
pub assume_specification[ String::push ](s: &mut String, c: char)
    ensures
        final(s)@ == old(s)@.push(c),
;

/// The lower-case form of a text as Unicode gives it.
pub uninterp spec fn lowercase(text: Seq<char>) -> Seq<char>;

/// `str::to_lowercase`: the lower-case equivalent of the text, a function of the text alone.
#[verifier::external_body]
pub(crate) fn to_lowercase(text: &str) -> (r: String)
    ensures
        r@ == lowercase(text@),
{
    text.to_lowercase()
}

/// The upper-case form of a text as Unicode gives it.
pub uninterp spec fn uppercase(text: Seq<char>) -> Seq<char>;

/// `str::to_uppercase`: the upper-case equivalent of the text, a function of the text alone.
#[verifier::external_body]
pub(crate) fn to_uppercase(text: &str) -> (r: String)
    ensures
        r@ == uppercase(text@),
{
    text.to_uppercase()
}

/// Whether `c` carries the Unicode property White_Space.
pub open spec fn is_space(c: char) -> bool {
    ||| '\u{9}' <= c <= '\u{d}'
    ||| c == ' '
    ||| c == '\u{85}'
    ||| c == '\u{a0}'
    ||| c == '\u{1680}'
    ||| '\u{2000}' <= c <= '\u{200a}'
    ||| c == '\u{2028}'
    ||| c == '\u{2029}'
    ||| c == '\u{202f}'
    ||| c == '\u{205f}'
    ||| c == '\u{3000}'
}

/// Tests the Unicode property White_Space.
pub fn is_whitespace(c: char) -> (r: bool)
    ensures
        r == is_space(c),
{
    ('\u{9}' <= c && c <= '\u{d}') || c == ' ' || c == '\u{85}' || c == '\u{a0}' || c == '\u{1680}'
        || ('\u{2000}' <= c && c <= '\u{200a}') || c == '\u{2028}' || c == '\u{2029}' || c
        == '\u{202f}' || c == '\u{205f}' || c == '\u{3000}'
}

/// Whether `c` is a control character (the Unicode category Cc).
pub open spec fn is_control(c: char) -> bool {
    c <= '\u{1f}' || '\u{7f}' <= c <= '\u{9f}'
}

/// Whether `c` is one of the ten ASCII digits.
pub open spec fn is_digit(c: char) -> bool {
    '0' <= c <= '9'
}

/// `c` with an ASCII capital turned into its small letter.
pub open spec fn ascii_lower(c: char) -> char {
    if 'A' <= c <= 'Z' {
        (c as u32 + 32) as char
    } else {
        c
    }
}

/// Lowers one ASCII capital and keeps every other character.
pub fn to_ascii_lower(c: char) -> (r: char)
    ensures
        r == ascii_lower(c),
{
    if 'A' <= c && c <= 'Z' {
        ((c as u8) + 32) as char
    } else {
        c
    }
}

/// The characters of `text`.
pub fn to_chars(text: &str) -> (r: Vec<char>)
    ensures
        r@ == text@,
{
    let mut out: Vec<char> = Vec::new();
    for c in it: text.chars()
        invariant
            it.seq() == text@,
            out@ == text@.take(it.index()),
    {
        proof {
            assert(text@.take(it.index() + 1) =~= text@.take(it.index()).push(c));
        }
        out.push(c);
    }
    proof {
        assert(text@.take(text@.len() as int) =~= text@);
    }
    out
}

/// The text made of `chars`.
pub fn from_chars(chars: &[char]) -> (r: String)
    ensures
        r@ == chars@,
{
    let mut out = String::new();
    let mut i: usize = 0;
    while i < chars.len()
        invariant
            i <= chars@.len(),
            out@ == chars@.take(i as int),
        decreases chars@.len() - i,
    {
        proof {
            assert(chars@.take(i + 1) =~= chars@.take(i as int).push(chars@[i as int]));
        }
        out.push(chars[i]);
        i += 1;
    }
    proof {
        assert(chars@.take(chars@.len() as int) =~= chars@);
    }
    out
}

/// Whether two texts hold the same characters.
pub fn same(a: &str, b: &str) -> (r: bool)
    ensures
        r == (a@ == b@),
{
    let left = a.to_owned();
    let right = b.to_owned();
    left == right
}

/// Whether two slices hold the same characters.
pub fn same_chars(a: &[char], b: &[char]) -> (r: bool)
    ensures
        r == (a@ == b@),
{
    if a.len() != b.len() {
        return false;
    }
    let mut i: usize = 0;
    while i < a.len()
        invariant
            i <= a@.len(),
            a@.len() == b@.len(),
            forall|k: int| 0 <= k < i ==> a@[k] == b@[k],
        decreases a@.len() - i,
    {
        if a[i] != b[i] {
            return false;
        }
        i += 1;
    }
    proof {
        assert(a@ =~= b@);
    }
    true
}

/// The text `a` followed by the text `b`.
pub fn join2(a: &str, b: &str) -> (r: String)
    ensures
        r@ == a@ + b@,
{
    let mut out = a.to_owned();
    out.append(b);
    out
}

/// The texts `a`, `b` and `c` one after the other.
pub fn join3(a: &str, b: &str, c: &str) -> (r: String)
    ensures
        r@ == a@ + b@ + c@,
{
    let mut out = a.to_owned();
    out.append(b);
    out.append(c);
    out
}

/// The views of a list of texts.
pub open spec fn views(texts: Seq<String>) -> Seq<Seq<char>> {
    texts.map_values(|t: String| t@)
}

/// Four texts one after the other.
pub fn join4(a: &str, b: &str, c: &str, d: &str) -> (r: String)
    ensures
        r@ == a@ + b@ + c@ + d@,
{
    let mut out = join3(a, b, c);
    out.append(d);
    out
}

/// Five texts one after the other.
pub fn join5(a: &str, b: &str, c: &str, d: &str, e: &str) -> (r: String)
    ensures
        r@ == a@ + b@ + c@ + d@ + e@,
{
    let mut out = join3(a, b, c);
    out.append(d);
    out.append(e);
    out
}

/// Six texts one after the other.
pub fn join6(a: &str, b: &str, c: &str, d: &str, e: &str, f: &str) -> (r: String)
    ensures
        r@ == a@ + b@ + c@ + d@ + e@ + f@,
{
    let mut out = join3(a, b, c);
    out.append(d);
    out.append(e);
    out.append(f);
    out
}

/// The texts of `parts` with `separator` between each two.
pub open spec fn joined(parts: Seq<Seq<char>>, separator: Seq<char>) -> Seq<char>
    decreases parts.len(),
{
    if parts.len() == 0 {
        Seq::empty()
    } else if parts.len() == 1 {
        parts[0]
    } else {
        joined(parts.drop_last(), separator) + separator + parts.last()
    }
}

/// Writes the texts of `parts` with `separator` between each two.
pub fn join(parts: &[String], separator: &str) -> (r: String)
    ensures
        r@ == joined(views(parts@), separator@),
{
    let mut out = String::new();
    let mut i: usize = 0;
    while i < parts.len()
        invariant
            i <= parts@.len(),
            out@ == joined(views(parts@).take(i as int), separator@),
        decreases parts@.len() - i,
    {
        proof {
            let before = views(parts@).take(i as int);
            let after = views(parts@).take(i + 1);
            assert(after.drop_last() =~= before);
            assert(after.last() == parts@[i as int]@);
            if i == 0 {
                assert(after[0] == parts@[0]@);
                assert(out@ + parts@[0]@ =~= parts@[0]@);
            }
        }
        if i > 0 {
            out.append(separator);
        }
        out.append(parts[i].as_str());
        i += 1;
    }
    proof {
        assert(views(parts@).take(parts@.len() as int) =~= views(parts@));
    }
    out
}

// ---------------------------------------------------------------------------
// Trimming
// ---------------------------------------------------------------------------
/// `s` without its leading white space.
pub open spec fn trimmed_start(s: Seq<char>) -> Seq<char>
    decreases s.len(),
{
    if s.len() > 0 && is_space(s[0]) {
        trimmed_start(s.drop_first())
    } else {
        s
    }
}

/// `s` without its trailing white space.
pub open spec fn trimmed_end(s: Seq<char>) -> Seq<char>
    decreases s.len(),
{
    if s.len() > 0 && is_space(s.last()) {
        trimmed_end(s.drop_last())
    } else {
        s
    }
}

/// `s` without the white space at either end.
pub open spec fn trimmed(s: Seq<char>) -> Seq<char> {
    trimmed_end(trimmed_start(s))
}

/// Drops the leading white space.
pub fn trim_start(s: &[char]) -> (r: &[char])
    ensures
        r@ == trimmed_start(s@),
{
    let mut i: usize = 0;
    proof {
        assert(s@.subrange(0, s@.len() as int) =~= s@);
    }
    while i < s.len() && is_whitespace(s[i])
        invariant
            i <= s@.len(),
            trimmed_start(s@) == trimmed_start(s@.subrange(i as int, s@.len() as int)),
        decreases s@.len() - i,
    {
        proof {
            assert(s@.subrange(i as int, s@.len() as int).drop_first() =~= s@.subrange(
                i + 1,
                s@.len() as int,
            ));
        }
        i += 1;
    }
    &s[i..s.len()]
}

/// Drops the trailing white space.
pub fn trim_end(s: &[char]) -> (r: &[char])
    ensures
        r@ == trimmed_end(s@),
{
    let mut end: usize = s.len();
    proof {
        assert(s@.subrange(0, s@.len() as int) =~= s@);
    }
    while end > 0 && is_whitespace(s[end - 1])
        invariant
            end <= s@.len(),
            trimmed_end(s@) == trimmed_end(s@.subrange(0, end as int)),
        decreases end,
    {
        proof {
            assert(s@.subrange(0, end as int).drop_last() =~= s@.subrange(0, end - 1));
        }
        end -= 1;
    }
    &s[0..end]
}

/// Drops the white space at either end.
pub fn trim(s: &[char]) -> (r: &[char])
    ensures
        r@ == trimmed(s@),
{
    trim_end(trim_start(s))
}

/// `text` without the white space at either end.
pub fn trim_text(text: &str) -> (r: String)
    ensures
        r@ == trimmed(text@),
{
    let chars = to_chars(text);
    from_chars(trim(chars.as_slice()))
}

/// Whether nothing but white space stands in `text`.
pub fn is_blank(text: &str) -> (r: bool)
    ensures
        r == (trimmed(text@).len() == 0),
{
    let chars = to_chars(text);
    trim(chars.as_slice()).len() == 0
}

// ---------------------------------------------------------------------------
// Searching
// ---------------------------------------------------------------------------
/// Whether `pattern` stands in `s` at position `at`.
pub open spec fn occurs_at(s: Seq<char>, pattern: Seq<char>, at: int) -> bool {
    0 <= at && at + pattern.len() <= s.len() && s.subrange(at, at + pattern.len()) == pattern
}

/// The first position from `from` on at which `pattern` stands in `s`.
pub open spec fn position_from(s: Seq<char>, pattern: Seq<char>, from: int) -> Option<int>
    decreases s.len() + 1 - from,
{
    if from < 0 || from + pattern.len() > s.len() {
        None
    } else if occurs_at(s, pattern, from) {
        Some(from)
    } else {
        position_from(s, pattern, from + 1)
    }
}

/// The first position at which `pattern` stands in `s`.
pub open spec fn position(s: Seq<char>, pattern: Seq<char>) -> Option<int> {
    position_from(s, pattern, 0)
}

/// The first position of the character `c` in `s`.
pub open spec fn char_position(s: Seq<char>, c: char) -> Option<int> {
    position(s, seq![c])
}

/// Whether `pattern` stands somewhere in `s`.
pub open spec fn has(s: Seq<char>, pattern: Seq<char>) -> bool {
    position(s, pattern) is Some
}

/// Whether `s` begins with `prefix`.
pub open spec fn begins(s: Seq<char>, prefix: Seq<char>) -> bool {
    occurs_at(s, prefix, 0)
}

/// Whether `s` ends with `suffix`.
pub open spec fn ends(s: Seq<char>, suffix: Seq<char>) -> bool {
    occurs_at(s, suffix, s.len() - suffix.len())
}

/// What `position_from` means: the least position at which the pattern stands.
pub proof fn lemma_position_from(s: Seq<char>, pattern: Seq<char>, from: int)
    requires
        0 <= from,
    ensures
        match position_from(s, pattern, from) {
            Some(at) => from <= at && occurs_at(s, pattern, at) && forall|k: int|
                from <= k < at ==> !occurs_at(s, pattern, k),
            None => forall|k: int| from <= k ==> !occurs_at(s, pattern, k),
        },
    decreases s.len() + 1 - from,
{
    if from + pattern.len() <= s.len() && !occurs_at(s, pattern, from) {
        lemma_position_from(s, pattern, from + 1);
    }
}

/// Whether `pattern` stands in `s` at position `at`.
pub fn is_at(s: &[char], pattern: &[char], at: usize) -> (r: bool)
    ensures
        r == occurs_at(s@, pattern@, at as int),
{
    if at > s.len() || pattern.len() > s.len() - at {
        return false;
    }
    same_chars(&s[at..at + pattern.len()], pattern)
}

/// The first position from `from` on at which `pattern` stands in `s`.
pub fn find_from(s: &[char], pattern: &[char], from: usize) -> (r: Option<usize>)
    ensures
        match r {
            Some(at) => position_from(s@, pattern@, from as int) == Some(at as int),
            None => position_from(s@, pattern@, from as int) is None,
        },
{
    let mut i: usize = from;
    while i <= s.len() && pattern.len() <= s.len() - i
        invariant
            position_from(s@, pattern@, from as int) == position_from(s@, pattern@, i as int),
        decreases s@.len() + 1 - i,
    {
        if is_at(s, pattern, i) {
            return Some(i);
        }
        proof {
            if pattern@.len() == 0 {
                assert(s@.subrange(i as int, i as int) =~= pattern@);
            }
        }
        i += 1;
    }
    None
}

/// The first position at which `pattern` stands in `s`.
pub fn find(s: &[char], pattern: &[char]) -> (r: Option<usize>)
    ensures
        match r {
            Some(at) => position(s@, pattern@) == Some(at as int),
            None => position(s@, pattern@) is None,
        },
{
    find_from(s, pattern, 0)
}

/// The first position of `c` in `s`.
pub fn find_char(s: &[char], c: char) -> (r: Option<usize>)
    ensures
        match r {
            Some(at) => char_position(s@, c) == Some(at as int),
            None => char_position(s@, c) is None,
        },
{
    let pattern = [c];
    proof {
        assert(pattern@ =~= seq![c]);
    }
    find_from(s, &pattern, 0)
}

/// Whether `pattern` stands somewhere in `text`.
pub fn contains(text: &str, pattern: &str) -> (r: bool)
    ensures
        r == has(text@, pattern@),
{
    let s = to_chars(text);
    let p = to_chars(pattern);
    match find(s.as_slice(), p.as_slice()) {
        Some(_) => true,
        None => false,
    }
}

/// Whether `text` begins with `prefix`.
pub fn starts_with(text: &str, prefix: &str) -> (r: bool)
    ensures
        r == begins(text@, prefix@),
{
    let s = to_chars(text);
    let p = to_chars(prefix);
    is_at(s.as_slice(), p.as_slice(), 0)
}

/// Whether `text` ends with `suffix`.
pub fn ends_with(text: &str, suffix: &str) -> (r: bool)
    ensures
        r == ends(text@, suffix@),
{
    let s = to_chars(text);
    let p = to_chars(suffix);
    if p.len() > s.len() {
        return false;
    }
    is_at(s.as_slice(), p.as_slice(), s.len() - p.len())
}

/// The last position of `c` in `s`.
pub open spec fn last_char_position(s: Seq<char>, c: char) -> Option<int>
    decreases s.len(),
{
    if s.len() == 0 {
        None
    } else if s.last() == c {
        Some(s.len() - 1)
    } else {
        last_char_position(s.drop_last(), c)
    }
}

/// The last position of `c` in `s`.
pub fn rfind_char(s: &[char], c: char) -> (r: Option<usize>)
    ensures
        match r {
            Some(at) => last_char_position(s@, c) == Some(at as int) && at < s@.len(),
            None => last_char_position(s@, c) is None,
        },
{
    let mut end: usize = s.len();
    proof {
        assert(s@.take(s@.len() as int) =~= s@);
    }
    while end > 0
        invariant
            end <= s@.len(),
            last_char_position(s@, c) == last_char_position(s@.take(end as int), c),
        decreases end,
    {
        proof {
            assert(s@.take(end as int).drop_last() =~= s@.take(end - 1));
        }
        if s[end - 1] == c {
            return Some(end - 1);
        }
        end -= 1;
    }
    None
}

/// `s` with every occurrence of `from`, taken from the left without overlap, replaced by `to`.
pub open spec fn replaced(s: Seq<char>, from: Seq<char>, to: Seq<char>) -> Seq<char>
    decreases s.len(),
{
    match position(s, from) {
        Some(at) if from.len() > 0 && 0 <= at && at + from.len() <= s.len() => s.take(at) + to + replaced(
            s.skip(at + from.len()),
            from,
            to,
        ),
        _ => s,
    }
}

/// Replaces every occurrence of `from`, taken from the left without overlap, by `to`.
pub fn replace(text: &str, from: &str, to: &str) -> (r: String)
    requires
        from@.len() > 0,
    ensures
        r@ == replaced(text@, from@, to@),
{
    let s = to_chars(text);
    let p = to_chars(from);
    let mut out = String::new();
    let mut start: usize = 0;
    proof {
        assert(s@.skip(0) =~= s@);
        assert(out@ + replaced(s@, from@, to@) =~= replaced(s@, from@, to@));
    }
    loop
        invariant_except_break
            p@ == from@,
            from@.len() > 0,
            start <= s@.len(),
            out@ + replaced(s@.skip(start as int), from@, to@) == replaced(s@, from@, to@),
        ensures
            out@ == replaced(s@, from@, to@),
        decreases s@.len() - start,
    {
        let rest = &s.as_slice()[start..s.len()];
        proof {
            assert(rest@ =~= s@.skip(start as int));
            lemma_position_from(rest@, from@, 0);
        }
        match find(rest, p.as_slice()) {
            Some(at) => {
                let piece = from_chars(&rest[0..at]);
                let ghost before = out@;
                out.append(piece.as_str());
                out.append(to);
                proof {
                    assert(rest@.subrange(0, at as int) =~= rest@.take(at as int));
                    assert(rest@.skip(at + from@.len()) =~= s@.skip(start + at + from@.len()));
                    assert(out@ + replaced(s@.skip(start + at + from@.len()), from@, to@) =~= before
                        + (rest@.take(at as int) + to@ + replaced(
                        s@.skip(start + at + from@.len()),
                        from@,
                        to@,
                    )));
                }
                start = start + at + p.len();
            },
            None => {
                let piece = from_chars(rest);
                out.append(piece.as_str());
                break;
            },
        }
    }
    out
}

// ---------------------------------------------------------------------------
// Splitting
// ---------------------------------------------------------------------------
/// The pieces of `s` between the characters of `separators`.
pub open spec fn pieces(s: Seq<char>, separators: Seq<char>) -> Seq<Seq<char>>
    decreases s.len(),
{
    if s.len() == 0 {
        seq![Seq::<char>::empty()]
    } else {
        let before = pieces(s.drop_last(), separators);
        if separators.contains(s.last()) {
            before.push(Seq::empty())
        } else {
            before.update(before.len() - 1, before.last().push(s.last()))
        }
    }
}

/// There is always at least one piece.
pub proof fn lemma_pieces_nonempty(s: Seq<char>, separators: Seq<char>)
    ensures
        pieces(s, separators).len() >= 1,
    decreases s.len(),
{
    if s.len() > 0 {
        lemma_pieces_nonempty(s.drop_last(), separators);
    }
}

/// Whether `c` is one of `set`.
pub fn is_one_of(c: char, set: &[char]) -> (r: bool)
    ensures
        r == set@.contains(c),
{
    let mut i: usize = 0;
    while i < set.len()
        invariant
            i <= set@.len(),
            forall|k: int| 0 <= k < i ==> set@[k] != c,
        decreases set@.len() - i,
    {
        if set[i] == c {
            return true;
        }
        i += 1;
    }
    false
}

/// The characters of the lists in `rows`.
pub open spec fn rows(rows: Seq<Vec<char>>) -> Seq<Seq<char>> {
    rows.map_values(|row: Vec<char>| row@)
}

/// Cuts `s` at every character of `separators`.
pub fn split(s: &[char], separators: &[char]) -> (r: Vec<Vec<char>>)
    ensures
        rows(r@) == pieces(s@, separators@),
{
    let mut out: Vec<Vec<char>> = Vec::new();
    let mut current: Vec<char> = Vec::new();
    let mut i: usize = 0;
    proof {
        assert(s@.take(0) =~= Seq::<char>::empty());
        assert(rows(out@).push(current@) =~= pieces(s@.take(0), separators@));
    }
    while i < s.len()
        invariant
            i <= s@.len(),
            rows(out@).push(current@) == pieces(s@.take(i as int), separators@),
        decreases s@.len() - i,
    {
        let c = s[i];
        let ghost done = rows(out@).push(current@);
        proof {
            assert(s@.take(i + 1).drop_last() =~= s@.take(i as int));
            assert(done.last() == current@);
        }
        if is_one_of(c, separators) {
            let ghost rows_before = rows(out@);
            let ghost row = current@;
            out.push(current);
            current = Vec::new();
            proof {
                assert(rows(out@) =~= rows_before.push(row));
            }
        } else {
            current.push(c);
            proof {
                assert(rows(out@).push(current@) =~= done.update(done.len() - 1, current@));
            }
        }
        i += 1;
    }
    let ghost rows_before = rows(out@);
    let ghost row = current@;
    out.push(current);
    proof {
        assert(s@.take(s@.len() as int) =~= s@);
        assert(rows(out@) =~= rows_before.push(row));
    }
    out
}

// ---------------------------------------------------------------------------
// Numbers
// ---------------------------------------------------------------------------
/// The character of the digit `d`.
pub open spec fn digit(d: int) -> char {
    (('0' as int) + d) as char
}

/// The decimal form of `n`.
pub open spec fn decimal(n: nat) -> Seq<char>
    decreases n,
{
    if n < 10 {
        seq![digit(n as int)]
    } else {
        decimal(n / 10).push(digit((n % 10) as int))
    }
}

/// The decimal form of `n`, with a minus sign where it is negative.
pub open spec fn signed_decimal(n: int) -> Seq<char> {
    if n < 0 {
        seq!['-'] + decimal((-n) as nat)
    } else {
        decimal(n as nat)
    }
}

/// The decimal form of `n` filled up with zeros on the left to two places.
pub open spec fn two_digits(n: nat) -> Seq<char> {
    if n < 10 {
        seq!['0'] + decimal(n)
    } else {
        decimal(n)
    }
}

/// The character of the digit `d`.
fn digit_char(d: u8) -> (r: char)
    requires
        d < 10,
    ensures
        r == digit(d as int),
{
    (48 + d) as char
}

/// Writes `n` in decimal.
pub fn write_u64(n: u64) -> (r: String)
    ensures
        r@ == decimal(n as nat),
    decreases n,
{
    let last = digit_char((n % 10) as u8);
    let mut out = if n < 10 {
        String::new()
    } else {
        write_u64(n / 10)
    };
    out.push(last);
    proof {
        if n < 10 {
            assert(out@ =~= seq![digit(n as int)]);
        }
    }
    out
}

/// Writes `n` in decimal.
pub fn write_usize(n: usize) -> (r: String)
    ensures
        r@ == decimal(n as nat),
{
    write_u64(n as u64)
}

/// Writes `n` in decimal, with a minus sign where it is negative.
pub fn write_i64(n: i64) -> (r: String)
    ensures
        r@ == signed_decimal(n as int),
{
    if n >= 0 {
        return write_u64(n as u64);
    }
    let magnitude: u64 = if n == i64::MIN {
        0x8000_0000_0000_0000
    } else {
        (-n) as u64
    };
    let digits = write_u64(magnitude);
    let mut out = String::new();
    out.push('-');
    out.append(digits.as_str());
    proof {
        assert(Seq::<char>::empty().push('-') =~= seq!['-']);
    }
    out
}

/// Writes `n` in decimal with at least two places.
pub fn write_two_digits(n: u64) -> (r: String)
    ensures
        r@ == two_digits(n as nat),
{
    let digits = write_u64(n);
    if n < 10 {
        let mut out = String::new();
        out.push('0');
        out.append(digits.as_str());
        proof {
            assert(Seq::<char>::empty().push('0') =~= seq!['0']);
        }
        out
    } else {
        digits
    }
}

/// Whether every character of `s` is an ASCII digit.
pub open spec fn all_digits(s: Seq<char>) -> bool {
    forall|i: int| 0 <= i < s.len() ==> is_digit(#[trigger] s[i])
}

/// The number that the digits of `s` write.
pub open spec fn digits_value(s: Seq<char>) -> nat
    decreases s.len(),
{
    if s.len() == 0 {
        0
    } else {
        digits_value(s.drop_last()) * 10 + (s.last() as nat - '0' as nat) as nat
    }
}

/// The number that `s` writes: digits, after an optional plus sign.
pub open spec fn natural(s: Seq<char>) -> Option<nat> {
    let body = if s.len() > 0 && s[0] == '+' {
        s.drop_first()
    } else {
        s
    };
    if body.len() > 0 && all_digits(body) {
        Some(digits_value(body))
    } else {
        None
    }
}

/// The number of at most 64 bits that `s` writes.
pub open spec fn natural_u64(s: Seq<char>) -> Option<u64> {
    match natural(s) {
        Some(n) if n <= u64::MAX => Some(n as u64),
        _ => None,
    }
}

/// The signed number of at most 64 bits that `s` writes.
pub open spec fn integer_i64(s: Seq<char>) -> Option<i64> {
    if s.len() > 0 && s[0] == '-' {
        let body = s.drop_first();
        if body.len() > 0 && all_digits(body) && digits_value(body) <= -(i64::MIN as int) {
            Some((-(digits_value(body) as int)) as i64)
        } else {
            None
        }
    } else {
        match natural(s) {
            Some(n) if n <= i64::MAX => Some(n as i64),
            _ => None,
        }
    }
}

/// A number never loses value when a digit is put behind it.
proof fn lemma_digits_grow(s: Seq<char>, k: int)
    requires
        0 <= k <= s.len(),
        all_digits(s),
    ensures
        digits_value(s.take(k)) <= digits_value(s),
    decreases s.len() - k,
{
    if k < s.len() {
        lemma_digits_grow(s, k + 1);
        assert(s.take(k + 1).drop_last() =~= s.take(k));
        assert(is_digit(s[k]));
        assert(s.take(k + 1).last() == s[k]);
        assert(digits_value(s.take(k + 1)) >= digits_value(s.take(k))) by (nonlinear_arith)
            requires
                digits_value(s.take(k + 1)) == digits_value(s.take(k)) * 10 + (s[k] as nat
                    - '0' as nat) as nat,
        ;
    } else {
        assert(s.take(k) =~= s);
    }
}

/// Reads digits as a number; `None` where there are none, another character stands among them, or
/// the number does not fit.
fn read_digits(s: &[char]) -> (r: Option<u64>)
    ensures
        r == (if s@.len() > 0 && all_digits(s@) && digits_value(s@) <= u64::MAX {
            Some(digits_value(s@) as u64)
        } else {
            None
        }),
{
    if s.len() == 0 {
        return None;
    }
    let mut value: u64 = 0;
    let mut fits = true;
    let mut i: usize = 0;
    while i < s.len()
        invariant
            i <= s@.len(),
            all_digits(s@.take(i as int)),
            fits ==> value == digits_value(s@.take(i as int)),
            !fits ==> digits_value(s@.take(i as int)) > u64::MAX,
        decreases s@.len() - i,
    {
        let c = s[i];
        if c < '0' || c > '9' {
            proof {
                assert(!is_digit(s@[i as int]));
            }
            return None;
        }
        proof {
            assert(s@.take(i + 1).drop_last() =~= s@.take(i as int));
            assert(s@.take(i + 1).last() == c);
            assert forall|k: int| 0 <= k < i + 1 implies is_digit(#[trigger] s@.take(i + 1)[k]) by {
                if k < i {
                    assert(is_digit(s@.take(i as int)[k]));
                }
            }
            lemma_digits_grow(s@.take(i + 1), i as int);
            assert(s@.take(i + 1).take(i as int) =~= s@.take(i as int));
        }
        if fits {
            let d: u64 = (c as u32 - '0' as u32) as u64;
            match value.checked_mul(10) {
                Some(tens) => match tens.checked_add(d) {
                    Some(sum) => {
                        value = sum;
                    },
                    None => {
                        fits = false;
                    },
                },
                None => {
                    fits = false;
                },
            }
        }
        i += 1;
    }
    proof {
        assert(s@.take(s@.len() as int) =~= s@);
    }
    if fits {
        Some(value)
    } else {
        None
    }
}

/// Reads an unsigned number: digits, after an optional plus sign.
pub fn parse_u64(s: &[char]) -> (r: Option<u64>)
    ensures
        r == natural_u64(s@),
{
    if s.len() > 0 && s[0] == '+' {
        proof {
            assert(s@.subrange(1, s@.len() as int) =~= s@.drop_first());
        }
        read_digits(&s[1..s.len()])
    } else {
        read_digits(s)
    }
}

/// Reads a signed number: digits, after an optional sign.
pub fn parse_i64(s: &[char]) -> (r: Option<i64>)
    ensures
        r == integer_i64(s@),
{
    if s.len() > 0 && s[0] == '-' {
        proof {
            assert(s@.subrange(1, s@.len() as int) =~= s@.drop_first());
        }
        match read_digits(&s[1..s.len()]) {
            Some(n) => {
                if n < 0x8000_0000_0000_0000 {
                    Some(-(n as i64))
                } else if n == 0x8000_0000_0000_0000 {
                    Some(i64::MIN)
                } else {
                    None
                }
            },
            None => None,
        }
    } else {
        match parse_u64(s) {
            Some(n) => {
                if n <= i64::MAX as u64 {
                    Some(n as i64)
                } else {
                    None
                }
            },
            None => None,
        }
    }
}

/// What is written is read back.
pub proof fn reading_undoes_writing(n: nat)
    ensures
        all_digits(decimal(n)),
        decimal(n).len() > 0,
        digits_value(decimal(n)) == n,
        natural(decimal(n)) == Some(n),
    decreases n,
{
    reveal_with_fuel(digits_value, 2);
    if n < 10 {
        let s = decimal(n);
        assert(s.drop_last() =~= Seq::<char>::empty());
        assert(s.last() == digit(n as int));
    } else {
        reading_undoes_writing(n / 10);
        let s = decimal(n);
        assert(s.drop_last() =~= decimal(n / 10));
        assert(s.last() == digit((n % 10) as int));
        assert forall|i: int| 0 <= i < s.len() implies is_digit(#[trigger] s[i]) by {
            if i < s.len() - 1 {
                assert(s[i] == decimal(n / 10)[i]);
            }
        }
    }
    assert(is_digit(decimal(n)[0]));
}

/// The number that `s` writes, of any size: digits, after an optional sign.
pub open spec fn integer(s: Seq<char>) -> Option<int> {
    if s.len() > 0 && s[0] == '-' {
        match natural(s.drop_first()) {
            Some(n) if s.drop_first()[0] != '+' => Some(-(n as int)),
            _ => None,
        }
    } else {
        match natural(s) {
            Some(n) => Some(n as int),
            None => None,
        }
    }
}

/// A number that is written is read back, with its sign; no two numbers are written alike.
pub proof fn numbers_are_read_back(n: int)
    ensures
        integer(signed_decimal(n)) == Some(n),
        n >= 0 ==> integer(decimal(n as nat)) == Some(n) && signed_decimal(n) == decimal(n as nat),
{
    if n < 0 {
        reading_undoes_writing((-n) as nat);
        let s = signed_decimal(n);
        assert(s.drop_first() =~= decimal((-n) as nat));
        assert(is_digit(s.drop_first()[0]));
    } else {
        reading_undoes_writing(n as nat);
        assert(is_digit(decimal(n as nat)[0]));
    }
}

/// The digits 0 and 1 are read as numbers.
pub proof fn small_numbers_are_read_back()
    ensures
        integer("0"@) == Some(0int),
        integer("1"@) == Some(1int),
{
    reveal_strlit("0");
    reveal_strlit("1");
    reveal_with_fuel(digits_value, 2);
}

/// A text without the separator is one piece.
proof fn lemma_one_piece(s: Seq<char>, c: char)
    requires
        !s.contains(c),
    ensures
        pieces(s, seq![c]) == seq![s],
    decreases s.len(),
{
    if s.len() > 0 {
        let front = s.drop_last();
        assert forall|i: int| 0 <= i < front.len() implies front[i] != c by {
            assert(front[i] == s[i]);
        }
        lemma_one_piece(front, c);
        assert(s.last() != c) by {
            assert(s[s.len() - 1] == s.last());
        }
        assert(!seq![c].contains(s.last()));
        assert(front.push(s.last()) =~= s);
        assert(pieces(s, seq![c]) =~= seq![s]);
    } else {
        assert(s =~= Seq::<char>::empty());
    }
}

/// What stands behind a separator and holds none is a piece of its own.
proof fn lemma_piece_behind(front: Seq<char>, s: Seq<char>, c: char)
    requires
        !s.contains(c),
    ensures
        pieces(front + seq![c] + s, seq![c]) == pieces(front, seq![c]).push(s),
    decreases s.len(),
{
    let whole = front + seq![c] + s;
    if s.len() == 0 {
        assert(s =~= Seq::<char>::empty());
        assert(whole.drop_last() =~= front);
        assert(seq![c][0] == c);
        assert(whole.last() == c);
    } else {
        let less = s.drop_last();
        assert forall|i: int| 0 <= i < less.len() implies less[i] != c by {
            assert(less[i] == s[i]);
        }
        lemma_piece_behind(front, less, c);
        assert(whole.drop_last() =~= front + seq![c] + less);
        assert(s.last() != c) by {
            assert(s[s.len() - 1] == s.last());
        }
        assert(whole.last() == s.last());
        assert(!seq![c].contains(s.last()));
        assert(less.push(s.last()) =~= s);
        let before = pieces(front, seq![c]).push(less);
        assert(before.last() == less);
        assert(pieces(whole, seq![c]) =~= pieces(front, seq![c]).push(s));
    }
}

/// Texts that are put together with a separator that none of them holds are told apart again: all of
/// them, in their order.
pub proof fn splitting_undoes_joining(parts: Seq<Seq<char>>, c: char)
    requires
        parts.len() > 0,
        forall|i: int| 0 <= i < parts.len() ==> !(#[trigger] parts[i]).contains(c),
    ensures
        pieces(joined(parts, seq![c]), seq![c]) == parts,
    decreases parts.len(),
{
    if parts.len() == 1 {
        assert(!parts[0].contains(c));
        lemma_one_piece(parts[0], c);
        assert(parts =~= seq![parts[0]]);
    } else {
        let less = parts.drop_last();
        assert forall|i: int| 0 <= i < less.len() implies !(#[trigger] less[i]).contains(c) by {
            assert(less[i] == parts[i]);
        }
        splitting_undoes_joining(less, c);
        assert(!parts[parts.len() - 1].contains(c));
        lemma_piece_behind(joined(less, seq![c]), parts.last(), c);
        assert(less.push(parts.last()) =~= parts);
    }
}

/// The search goes on to the first place at which the character stands.
proof fn lemma_char_position(s: Seq<char>, c: char, from: int, at: int)
    requires
        0 <= from <= at < s.len(),
        s[at] == c,
        forall|k: int| from <= k < at ==> s[k] != c,
    ensures
        position_from(s, seq![c], from) == Some(at),
    decreases at - from,
{
    let here = s.subrange(from, from + 1);
    assert(here[0] == s[from]);
    if from == at {
        assert(here =~= seq![c]);
    } else {
        assert(seq![c][0] == c);
        assert(here != seq![c]);
        lemma_char_position(s, c, from + 1, at);
    }
}

/// A character is found at its first place.
pub proof fn characters_are_found_first(front: Seq<char>, c: char, rest: Seq<char>)
    requires
        !front.contains(c),
    ensures
        char_position(front + seq![c] + rest, c) == Some(front.len() as int),
{
    let s = front + seq![c] + rest;
    let at = front.len() as int;
    assert(s[at] == c);
    assert forall|k: int| 0 <= k < at implies s[k] != c by {
        assert(s[k] == front[k]);
    }
    lemma_char_position(s, c, 0, at);
}

/// A character that is not there is not found.
pub proof fn missing_characters_are_not_found(s: Seq<char>, c: char, from: int)
    requires
        !s.contains(c),
        0 <= from,
    ensures
        position_from(s, seq![c], from) is None,
    decreases s.len() - from,
{
    if from < s.len() {
        let here = s.subrange(from, from + 1);
        assert(here[0] == s[from]);
        assert(seq![c][0] == c);
        assert(here != seq![c]);
        missing_characters_are_not_found(s, c, from + 1);
    }
}

/// What neither begins nor ends with white space is not trimmed.
pub proof fn plain_texts_are_not_trimmed(s: Seq<char>)
    requires
        s.len() > 0 ==> !is_space(s[0]) && !is_space(s.last()),
    ensures
        trimmed(s) == s,
{
    if s.len() > 0 {
        assert(trimmed_start(s) == s);
    }
}

} // verus!
