//! JSON documents as plain trees, and the tolerant look-ups that the services' answers need.
//!
//! The services name one thing in several ways and mix numbers with texts, so nothing here fails:
//! a look-up that finds nothing usable yields nothing.
use serde_json::Value;
use vstd::prelude::*;
use crate::text;

verus! {

/// A JSON document.
#[derive(Debug)]
pub enum Json {
    Null,
    Bool(bool),
    /// A whole number that fits in an `i64`.
    Int(i64),
    /// A whole number above `i64::MAX`.
    Big(u64),
    /// Any other number: how it is written, and its whole part held within an `i64`.
    Real { written: String, whole: i64 },
    Text(String),
    Array(Vec<Json>),
    /// The members in the order in which they are walked.
    Object(Vec<(String, Json)>),
}

// ---------------------------------------------------------------------------
// Reading documents
// ---------------------------------------------------------------------------
/// The document that `text` writes, or `None` where it writes none.
pub uninterp spec fn document(text: Seq<char>) -> Option<Json>;

/// The document that the UTF-8 `bytes` write, or `None` where they write none.
pub uninterp spec fn document_bytes(bytes: Seq<u8>) -> Option<Json>;

/// A document as `serde_json` holds it.
#[verifier::external_type_specification]
#[verifier::external_body]
pub struct ExValue(serde_json::Value);

/// Turns a `serde_json::Value` into the tree of this library, variant by variant. A number becomes
/// `Int`, `Big` or `Real` as `Number::as_i64` and `Number::as_u64` tell its three forms apart.
#[verifier::external_body]
fn from_value(value: Value) -> Json {
    match value {
        Value::Null => Json::Null,
        Value::Bool(flag) => Json::Bool(flag),
        Value::Number(n) => match (n.as_i64(), n.as_u64()) {
            (Some(whole), _) => Json::Int(whole),
            (None, Some(whole)) => Json::Big(whole),
            _ => Json::Real { written: n.to_string(), whole: n.as_f64().map_or(0, |x| x as i64) },
        },
        Value::String(text) => Json::Text(text),
        Value::Array(items) => Json::Array(items.into_iter().map(from_value).collect()),
        Value::Object(members) => Json::Object(
            members.into_iter().map(|(key, value)| (key, from_value(value))).collect(),
        ),
    }
}

/// `serde_json::from_str` of a `serde_json::Value`: whether the text is one JSON document, and
/// which, rests on the text alone.
#[verifier::external_body]
pub(crate) fn parse(text: &str) -> (r: Option<Json>)
    ensures
        r == document(text@),
{
    serde_json::from_str(text).ok().map(from_value)
}

/// `serde_json::from_slice` of a `serde_json::Value`: whether the bytes are one JSON document, and
/// which, rests on the bytes alone.
#[verifier::external_body]
pub(crate) fn parse_bytes(bytes: &[u8]) -> (r: Option<Json>)
    ensures
        r == document_bytes(bytes@),
{
    serde_json::from_slice(bytes).ok().map(from_value)
}

// ---------------------------------------------------------------------------
// Members and items
// ---------------------------------------------------------------------------
/// The value of the first member called `key`.
pub open spec fn member(members: Seq<(String, Json)>, key: Seq<char>) -> Option<Json>
    decreases members.len(),
{
    if members.len() == 0 {
        None
    } else if members[0].0@ == key {
        Some(members[0].1)
    } else {
        member(members.drop_first(), key)
    }
}

/// The value under `key`, where `value` is an object that has it.
pub open spec fn at(value: Json, key: Seq<char>) -> Option<Json> {
    match value {
        Json::Object(members) => member(members@, key),
        _ => None,
    }
}

/// The items of an array.
pub open spec fn array(value: Json) -> Option<Vec<Json>> {
    match value {
        Json::Array(items) => Some(items),
        _ => None,
    }
}

/// The array under `key`, where `value` is an object that has one there.
pub open spec fn array_at(value: Json, key: Seq<char>) -> Option<Vec<Json>> {
    match at(value, key) {
        Some(inner) => array(inner),
        None => None,
    }
}

/// The values directly inside an object or an array.
pub open spec fn children(value: Json) -> Seq<Json> {
    match value {
        Json::Array(items) => items@,
        Json::Object(members) => members@.map_values(|m: (String, Json)| m.1),
        _ => Seq::empty(),
    }
}

impl Json {
    /// The value under `key`, where this is an object that has it.
    pub fn get(&self, key: &str) -> (r: Option<&Json>)
        ensures
            match r {
                Some(value) => at(*self, key@) == Some(*value),
                None => at(*self, key@) is None,
            },
    {
        match self {
            Json::Object(members) => {
                let mut i: usize = 0;
                proof {
                    assert(members@.skip(0) =~= members@);
                }
                while i < members.len()
                    invariant
                        i <= members@.len(),
                        *self == Json::Object(*members),
                        member(members@, key@) == member(members@.skip(i as int), key@),
                    decreases members@.len() - i,
                {
                    if text::same(members[i].0.as_str(), key) {
                        return Some(&members[i].1);
                    }
                    proof {
                        assert(members@.skip(i as int).drop_first() =~= members@.skip(i + 1));
                    }
                    i += 1;
                }
                None
            },
            _ => None,
        }
    }

    /// The items, where this is an array.
    pub fn as_array(&self) -> (r: Option<&Vec<Json>>)
        ensures
            match r {
                Some(items) => array(*self) == Some(*items),
                None => array(*self) is None,
            },
    {
        match self {
            Json::Array(items) => Some(items),
            _ => None,
        }
    }

    /// The array under `key`, where this is an object that has one there.
    pub fn get_array(&self, key: &str) -> (r: Option<&Vec<Json>>)
        ensures
            match r {
                Some(items) => array_at(*self, key@) == Some(*items),
                None => array_at(*self, key@) is None,
            },
    {
        match self.get(key) {
            Some(inner) => inner.as_array(),
            None => None,
        }
    }

    /// Whether this is an object.
    pub fn is_object(&self) -> (r: bool)
        ensures
            r == (*self is Object),
    {
        match self {
            Json::Object(_) => true,
            _ => false,
        }
    }

    /// The number, where this is a whole number that fits in an `i64`.
    pub fn as_i64(&self) -> (r: Option<i64>)
        ensures
            r == exact_i64(*self),
    {
        match self {
            Json::Int(n) => Some(*n),
            _ => None,
        }
    }

    /// The text, where this is one.
    pub fn as_str(&self) -> (r: Option<&str>)
        ensures
            match r {
                Some(s) => exact_text(*self) == Some(s@),
                None => exact_text(*self) is None,
            },
    {
        match self {
            Json::Text(s) => Some(s.as_str()),
            _ => None,
        }
    }
}

/// The number, where `value` is a whole number that fits in an `i64`.
pub open spec fn exact_i64(value: Json) -> Option<i64> {
    match value {
        Json::Int(n) => Some(n),
        _ => None,
    }
}

/// The text, where `value` is one.
pub open spec fn exact_text(value: Json) -> Option<Seq<char>> {
    match value {
        Json::Text(s) => Some(s@),
        _ => None,
    }
}

// ---------------------------------------------------------------------------
// Tolerant conversions
// ---------------------------------------------------------------------------
/// What `text` amounts to when it is read as a decimal number with a fraction or an exponent and
/// cut to an `i64`, or `None` where it cannot be read so.
pub uninterp spec fn fraction_i64(text: Seq<char>) -> Option<i64>;

/// `str::parse` for the 64-bit floating-point numbers, cut to an `i64` as the `as` cast does it.
/// Naming `Number::from_f64` is what fixes the type that is parsed.
#[verifier::external_body]
fn parse_fraction_i64(text: &str) -> (r: Option<i64>)
    ensures
        r == fraction_i64(text@),
{
    match text.parse() {
        Ok(number) => {
            let _ = serde_json::Number::from_f64(number);
            Some(number as i64)
        },
        Err(_) => None,
    }
}

/// The text that `value` stands for: a text that is not blank, without the white space around it;
/// a number or a truth value as it is written.
pub open spec fn as_text(value: Json) -> Option<Seq<char>> {
    match value {
        Json::Text(s) => if text::trimmed(s@).len() == 0 {
            None
        } else {
            Some(text::trimmed(s@))
        },
        Json::Int(n) => Some(text::signed_decimal(n as int)),
        Json::Big(n) => Some(text::decimal(n as nat)),
        Json::Real { written, .. } => Some(written@),
        Json::Bool(flag) => Some(if flag {
            "true"@
        } else {
            "false"@
        }),
        _ => None,
    }
}

/// The number that `value` stands for: a number cut to an `i64`, a text that writes one, or a truth
/// value as 0 or 1.
pub open spec fn as_number(value: Json) -> Option<i64> {
    match value {
        Json::Int(n) => Some(n),
        Json::Big(_) => Some(i64::MAX),
        Json::Real { whole, .. } => Some(whole),
        Json::Text(s) => match text::integer_i64(text::trimmed(s@)) {
            Some(n) => Some(n),
            None => fraction_i64(text::trimmed(s@)),
        },
        Json::Bool(flag) => Some(if flag {
            1
        } else {
            0
        }),
        _ => None,
    }
}

/// The number that `value` stands for, where it is not negative.
pub open spec fn as_u64(value: Json) -> Option<u64> {
    match as_number(value) {
        Some(n) if n >= 0 => Some(n as u64),
        _ => None,
    }
}

/// The number that `value` stands for, where it fits in a `u32`.
pub open spec fn as_u32(value: Json) -> Option<u32> {
    match as_number(value) {
        Some(n) if 0 <= n <= u32::MAX => Some(n as u32),
        _ => None,
    }
}

/// Reads a value as a text; numbers and truth values count, blank texts do not.
pub fn value_to_string(value: &Json) -> (r: Option<String>)
    ensures
        r.deep_view() == as_text(*value),
{
    match value {
        Json::Text(s) => {
            let trimmed = text::trim_text(s.as_str());
            if trimmed.as_str().is_empty() {
                None
            } else {
                Some(trimmed)
            }
        },
        Json::Int(n) => Some(text::write_i64(*n)),
        Json::Big(n) => Some(text::write_u64(*n)),
        Json::Real { written, .. } => Some(written.clone()),
        Json::Bool(flag) => Some(
            if *flag {
                "true".to_owned()
            } else {
                "false".to_owned()
            },
        ),
        _ => None,
    }
}

/// Reads a value as a number; texts that write one and truth values count.
pub fn value_to_i64(value: &Json) -> (r: Option<i64>)
    ensures
        r == as_number(*value),
{
    match value {
        Json::Int(n) => Some(*n),
        Json::Big(_) => Some(i64::MAX),
        Json::Real { whole, .. } => Some(*whole),
        Json::Text(s) => {
            let trimmed = text::trim_text(s.as_str());
            let chars = text::to_chars(trimmed.as_str());
            match text::parse_i64(chars.as_slice()) {
                Some(n) => Some(n),
                None => parse_fraction_i64(trimmed.as_str()),
            }
        },
        Json::Bool(flag) => Some(
            if *flag {
                1
            } else {
                0
            },
        ),
        _ => None,
    }
}

/// Reads a value as a number that is not negative.
pub fn value_to_u64(value: &Json) -> (r: Option<u64>)
    ensures
        r == as_u64(*value),
{
    match value_to_i64(value) {
        Some(n) => if n >= 0 {
            Some(n as u64)
        } else {
            None
        },
        None => None,
    }
}

/// Reads a value as a number that fits in a `u32`.
pub fn value_to_u32(value: &Json) -> (r: Option<u32>)
    ensures
        r == as_u32(*value),
{
    match value_to_i64(value) {
        Some(n) => if 0 <= n && n <= u32::MAX as i64 {
            Some(n as u32)
        } else {
            None
        },
        None => None,
    }
}

// ---------------------------------------------------------------------------
// Picking by the first key that yields something
// ---------------------------------------------------------------------------
/// The first text among the values under `keys`.
pub open spec fn first_text(object: Json, keys: Seq<&str>) -> Option<Seq<char>>
    decreases keys.len(),
{
    if keys.len() == 0 {
        None
    } else {
        match at(object, keys[0]@) {
            Some(value) if as_text(value) is Some => as_text(value),
            _ => first_text(object, keys.drop_first()),
        }
    }
}

/// The first number among the values under `keys`.
pub open spec fn first_number(object: Json, keys: Seq<&str>) -> Option<i64>
    decreases keys.len(),
{
    if keys.len() == 0 {
        None
    } else {
        match at(object, keys[0]@) {
            Some(value) if as_number(value) is Some => as_number(value),
            _ => first_number(object, keys.drop_first()),
        }
    }
}

/// The first number that is not negative among the values under `keys`.
pub open spec fn first_u64(object: Json, keys: Seq<&str>) -> Option<u64>
    decreases keys.len(),
{
    if keys.len() == 0 {
        None
    } else {
        match at(object, keys[0]@) {
            Some(value) if as_u64(value) is Some => as_u64(value),
            _ => first_u64(object, keys.drop_first()),
        }
    }
}

/// The first number that fits in a `u32` among the values under `keys`.
pub open spec fn first_u32(object: Json, keys: Seq<&str>) -> Option<u32>
    decreases keys.len(),
{
    if keys.len() == 0 {
        None
    } else {
        match at(object, keys[0]@) {
            Some(value) if as_u32(value) is Some => as_u32(value),
            _ => first_u32(object, keys.drop_first()),
        }
    }
}

/// The items of the first array among the values under `keys`; none where there is no array.
pub open spec fn first_array(object: Json, keys: Seq<&str>) -> Seq<Json>
    decreases keys.len(),
{
    if keys.len() == 0 {
        Seq::empty()
    } else {
        match array_at(object, keys[0]@) {
            Some(items) => items@,
            None => first_array(object, keys.drop_first()),
        }
    }
}

/// Tries the keys in turn and returns the first value that reads as a text.
pub fn pick_string(object: &Json, keys: &[&str]) -> (r: Option<String>)
    ensures
        r.deep_view() == first_text(*object, keys@),
{
    let mut i: usize = 0;
    proof {
        assert(keys@.skip(0) =~= keys@);
    }
    while i < keys.len()
        invariant
            i <= keys@.len(),
            first_text(*object, keys@) == first_text(*object, keys@.skip(i as int)),
        decreases keys@.len() - i,
    {
        proof {
            assert(keys@.skip(i as int).drop_first() =~= keys@.skip(i + 1));
        }
        if let Some(value) = object.get(keys[i]) {
            if let Some(found) = value_to_string(value) {
                return Some(found);
            }
        }
        i += 1;
    }
    None
}

/// Tries the keys in turn and returns the first value that reads as a number.
pub fn pick_i64(object: &Json, keys: &[&str]) -> (r: Option<i64>)
    ensures
        r == first_number(*object, keys@),
{
    let mut i: usize = 0;
    proof {
        assert(keys@.skip(0) =~= keys@);
    }
    while i < keys.len()
        invariant
            i <= keys@.len(),
            first_number(*object, keys@) == first_number(*object, keys@.skip(i as int)),
        decreases keys@.len() - i,
    {
        proof {
            assert(keys@.skip(i as int).drop_first() =~= keys@.skip(i + 1));
        }
        if let Some(value) = object.get(keys[i]) {
            if let Some(found) = value_to_i64(value) {
                return Some(found);
            }
        }
        i += 1;
    }
    None
}

/// Tries the keys in turn and returns the first value that reads as a number that is not negative.
pub fn pick_u64(object: &Json, keys: &[&str]) -> (r: Option<u64>)
    ensures
        r == first_u64(*object, keys@),
{
    let mut i: usize = 0;
    proof {
        assert(keys@.skip(0) =~= keys@);
    }
    while i < keys.len()
        invariant
            i <= keys@.len(),
            first_u64(*object, keys@) == first_u64(*object, keys@.skip(i as int)),
        decreases keys@.len() - i,
    {
        proof {
            assert(keys@.skip(i as int).drop_first() =~= keys@.skip(i + 1));
        }
        if let Some(value) = object.get(keys[i]) {
            if let Some(found) = value_to_u64(value) {
                return Some(found);
            }
        }
        i += 1;
    }
    None
}

/// Tries the keys in turn and returns the first value that reads as a number within a `u32`.
pub fn pick_u32(object: &Json, keys: &[&str]) -> (r: Option<u32>)
    ensures
        r == first_u32(*object, keys@),
{
    let mut i: usize = 0;
    proof {
        assert(keys@.skip(0) =~= keys@);
    }
    while i < keys.len()
        invariant
            i <= keys@.len(),
            first_u32(*object, keys@) == first_u32(*object, keys@.skip(i as int)),
        decreases keys@.len() - i,
    {
        proof {
            assert(keys@.skip(i as int).drop_first() =~= keys@.skip(i + 1));
        }
        if let Some(value) = object.get(keys[i]) {
            if let Some(found) = value_to_u32(value) {
                return Some(found);
            }
        }
        i += 1;
    }
    None
}

/// Tries the keys in turn and returns the first array; an empty slice where there is none.
pub fn pick_array<'a>(object: &'a Json, keys: &[&str]) -> (r: &'a [Json])
    ensures
        r@ == first_array(*object, keys@),
{
    let mut i: usize = 0;
    proof {
        assert(keys@.skip(0) =~= keys@);
    }
    while i < keys.len()
        invariant
            i <= keys@.len(),
            first_array(*object, keys@) == first_array(*object, keys@.skip(i as int)),
        decreases keys@.len() - i,
    {
        proof {
            assert(keys@.skip(i as int).drop_first() =~= keys@.skip(i + 1));
        }
        if let Some(items) = object.get_array(keys[i]) {
            return items.as_slice();
        }
        i += 1;
    }
    let none: &'a [Json] = &[];
    proof {
        assert(none@ =~= Seq::<Json>::empty());
    }
    none
}

// ---------------------------------------------------------------------------
// Finding lists anywhere in a document
// ---------------------------------------------------------------------------
/// How deep the searches below go.
pub const MAX_DEPTH: usize = 5;

/// The `data` part of an answer; the answer itself where it has none.
pub open spec fn payload(root: Json) -> Json {
    match at(root, "data"@) {
        Some(data) => data,
        None => root,
    }
}

/// The `data` part of an answer; the answer itself where it has none.
pub fn data_of(root: &Json) -> (r: &Json)
    ensures
        *r == payload(*root),
{
    match root.get("data") {
        Some(data) => data,
        None => root,
    }
}

/// The first array called `key` in the tree, each object before what it holds, no deeper than
/// [`MAX_DEPTH`] levels below the document.
pub open spec fn array_named(value: Json, key: Seq<char>, depth: int) -> Option<Vec<Json>>
    decreases MAX_DEPTH + 1 - depth, 1int, 0int,
{
    if depth > MAX_DEPTH {
        None
    } else {
        match array_at(value, key) {
            Some(items) => Some(items),
            None => array_named_in(children(value), key, depth),
        }
    }
}

/// The first array called `key` in the trees `values`, which stand below level `depth`.
pub open spec fn array_named_in(values: Seq<Json>, key: Seq<char>, depth: int) -> Option<Vec<Json>>
    decreases MAX_DEPTH + 1 - depth, 0int, values.len(),
{
    if depth > MAX_DEPTH || values.len() == 0 {
        None
    } else {
        match array_named(values[0], key, depth + 1) {
            Some(items) => Some(items),
            None => array_named_in(values.drop_first(), key, depth),
        }
    }
}

/// Finds the first array called `key`, down to [`MAX_DEPTH`] levels.
pub fn find_array_by_key<'a>(value: &'a Json, key: &str, depth: usize) -> (r: Option<&'a Vec<Json>>)
    ensures
        match r {
            Some(items) => array_named(*value, key@, depth as int) == Some(*items),
            None => array_named(*value, key@, depth as int) is None,
        },
    decreases MAX_DEPTH + 1 - depth,
{
    if depth > MAX_DEPTH {
        return None;
    }
    if let Some(items) = value.get_array(key) {
        return Some(items);
    }
    let ghost all = children(*value);
    proof {
        assert(all.skip(0) =~= all);
    }
    match value {
        Json::Object(members) => {
            let mut i: usize = 0;
            while i < members.len()
                invariant
                    i <= members@.len(),
                    depth <= MAX_DEPTH,
                    all == members@.map_values(|m: (String, Json)| m.1),
                    all == children(*value),
                    array_at(*value, key@) is None,
                    array_named_in(all, key@, depth as int) == array_named_in(
                        all.skip(i as int),
                        key@,
                        depth as int,
                    ),
                decreases members@.len() - i,
            {
                proof {
                    assert(all.skip(i as int).drop_first() =~= all.skip(i + 1));
                    assert(all.skip(i as int)[0] == members@[i as int].1);
                }
                if let Some(items) = find_array_by_key(&members[i].1, key, depth + 1) {
                    return Some(items);
                }
                i += 1;
            }
            None
        },
        Json::Array(items) => {
            let mut i: usize = 0;
            while i < items.len()
                invariant
                    i <= items@.len(),
                    depth <= MAX_DEPTH,
                    all == items@,
                    all == children(*value),
                    array_at(*value, key@) is None,
                    array_named_in(all, key@, depth as int) == array_named_in(
                        all.skip(i as int),
                        key@,
                        depth as int,
                    ),
                decreases items@.len() - i,
            {
                proof {
                    assert(all.skip(i as int).drop_first() =~= all.skip(i + 1));
                }
                if let Some(found) = find_array_by_key(&items[i], key, depth + 1) {
                    return Some(found);
                }
                i += 1;
            }
            None
        },
        _ => None,
    }
}

/// Whether an array holds at least one object.
pub open spec fn holds_object(items: Seq<Json>) -> bool {
    exists|i: int| 0 <= i < items.len() && (#[trigger] items[i]) is Object
}

/// Every array that holds an object, each before what it holds, no deeper than [`MAX_DEPTH`]
/// levels below the document.
pub open spec fn object_arrays(value: Json, depth: int) -> Seq<Vec<Json>>
    decreases MAX_DEPTH + 1 - depth, 1int, 0int,
{
    if depth > MAX_DEPTH {
        Seq::empty()
    } else {
        let own = match value {
            Json::Array(items) if holds_object(items@) => seq![items],
            _ => Seq::<Vec<Json>>::empty(),
        };
        own + object_arrays_in(children(value), depth)
    }
}

/// Every array that holds an object in the trees `values`, which stand below level `depth`.
pub open spec fn object_arrays_in(values: Seq<Json>, depth: int) -> Seq<Vec<Json>>
    decreases MAX_DEPTH + 1 - depth, 0int, values.len(),
{
    if depth > MAX_DEPTH || values.len() == 0 {
        Seq::empty()
    } else {
        object_arrays_in(values.drop_last(), depth) + object_arrays(values.last(), depth + 1)
    }
}

/// What a list of references refers to.
pub open spec fn targets(refs: Seq<&Vec<Json>>) -> Seq<Vec<Json>> {
    refs.map_values(|r: &Vec<Json>| *r)
}

/// Whether an array holds at least one object.
fn any_object(items: &Vec<Json>) -> (r: bool)
    ensures
        r == holds_object(items@),
{
    let mut i: usize = 0;
    while i < items.len()
        invariant
            i <= items@.len(),
            forall|k: int| 0 <= k < i ==> !((#[trigger] items@[k]) is Object),
        decreases items@.len() - i,
    {
        if items[i].is_object() {
            proof {
                assert(items@[i as int] is Object);
            }
            return true;
        }
        i += 1;
    }
    false
}

/// Collects every array that holds an object behind those of `out`, down to [`MAX_DEPTH`] levels.
pub fn collect_object_arrays<'a>(value: &'a Json, out: &mut Vec<&'a Vec<Json>>, depth: usize)
    ensures
        targets(final(out)@) == targets(old(out)@) + object_arrays(*value, depth as int),
    decreases MAX_DEPTH + 1 - depth,
{
    let ghost start = targets(out@);
    if depth > MAX_DEPTH {
        proof {
            assert(start + object_arrays(*value, depth as int) =~= start);
        }
        return ;
    }
    let ghost all = children(*value);
    proof {
        assert(all.take(0) =~= Seq::<Json>::empty());
        assert(all.take(all.len() as int) =~= all);
    }
    match value {
        Json::Array(items) => {
            if any_object(items) {
                out.push(items);
                proof {
                    assert(targets(out@) =~= start + seq![*items]);
                }
            } else {
                proof {
                    assert(start =~= start + Seq::<Vec<Json>>::empty());
                }
            }
            let ghost base = targets(out@);
            proof {
                assert(base =~= base + object_arrays_in(all.take(0), depth as int));
            }
            let mut i: usize = 0;
            while i < items.len()
                invariant
                    i <= items@.len(),
                    depth <= MAX_DEPTH,
                    all == items@,
                    targets(out@) == base + object_arrays_in(all.take(i as int), depth as int),
                decreases items@.len() - i,
            {
                proof {
                    assert(all.take(i + 1).drop_last() =~= all.take(i as int));
                    assert(all.take(i + 1).last() == items@[i as int]);
                }
                collect_object_arrays(&items[i], out, depth + 1);
                proof {
                    assert(targets(out@) =~= base + object_arrays_in(all.take(i + 1), depth as int));
                }
                i += 1;
            }
            proof {
                assert(targets(out@) =~= start + object_arrays(*value, depth as int));
            }
        },
        Json::Object(members) => {
            let mut i: usize = 0;
            proof {
                assert(start =~= start + object_arrays_in(all.take(0), depth as int));
            }
            while i < members.len()
                invariant
                    i <= members@.len(),
                    depth <= MAX_DEPTH,
                    all == members@.map_values(|m: (String, Json)| m.1),
                    targets(out@) == start + object_arrays_in(all.take(i as int), depth as int),
                decreases members@.len() - i,
            {
                proof {
                    assert(all.take(i + 1).drop_last() =~= all.take(i as int));
                    assert(all.take(i + 1).last() == members@[i as int].1);
                }
                collect_object_arrays(&members[i].1, out, depth + 1);
                proof {
                    assert(targets(out@) =~= start + object_arrays_in(
                        all.take(i + 1),
                        depth as int,
                    ));
                }
                i += 1;
            }
            proof {
                assert(targets(out@) =~= start + object_arrays(*value, depth as int));
            }
        },
        _ => {
            proof {
                assert(targets(out@) =~= start + object_arrays(*value, depth as int));
            }
        },
    }
}

// ---------------------------------------------------------------------------
// Reading lists with a reader of single values
// ---------------------------------------------------------------------------
/// Whether `reader` returns on every value what `model` says.
pub open spec fn reads<T: DeepView, F: Fn(&Json) -> Option<T>>(
    reader: F,
    model: spec_fn(Json) -> Option<T::V>,
) -> bool {
    forall|value: &Json, out: Option<T>| #[trigger]
        call_ensures(reader, (value,), out) ==> out.deep_view() == model(*value)
}

/// What `model` makes of the items, those left out of which it makes nothing.
pub open spec fn kept<V>(items: Seq<Json>, model: spec_fn(Json) -> Option<V>) -> Seq<V>
    decreases items.len(),
{
    if items.len() == 0 {
        Seq::empty()
    } else {
        match model(items.last()) {
            Some(made) => kept(items.drop_last(), model).push(made),
            None => kept(items.drop_last(), model),
        }
    }
}

/// What `model` makes of the first of the arrays of which it makes anything.
pub open spec fn kept_of_first<V>(
    arrays: Seq<Vec<Json>>,
    model: spec_fn(Json) -> Option<V>,
) -> Seq<V>
    decreases arrays.len(),
{
    if arrays.len() == 0 {
        Seq::empty()
    } else if kept(arrays[0]@, model).len() > 0 {
        kept(arrays[0]@, model)
    } else {
        kept_of_first(arrays.drop_first(), model)
    }
}

/// The arrays of the document that are called as `keys` say, in the order of the keys.
pub open spec fn named_arrays(root: Json, keys: Seq<&str>) -> Seq<Vec<Json>>
    decreases keys.len(),
{
    if keys.len() == 0 {
        Seq::empty()
    } else {
        let before = named_arrays(root, keys.drop_last());
        match array_named(root, keys.last()@, 0) {
            Some(items) => before.push(items),
            None => before,
        }
    }
}

/// The list in a document: what `model` makes of the first array of which it makes anything, the
/// arrays called as `keys` say before any other.
pub open spec fn listed<V>(
    root: Json,
    keys: Seq<&str>,
    model: spec_fn(Json) -> Option<V>,
) -> Seq<V> {
    kept_of_first(named_arrays(root, keys) + object_arrays(root, 0), model)
}

/// The first item of which `model` makes something.
pub open spec fn first_made<V>(items: Seq<Json>, model: spec_fn(Json) -> Option<V>) -> Option<V>
    decreases items.len(),
{
    if items.len() == 0 {
        None
    } else {
        match model(items[0]) {
            Some(made) => Some(made),
            None => first_made(items.drop_first(), model),
        }
    }
}

/// What `model` makes of the first item of `arrays`, taken one after the other, of which it makes
/// something.
pub open spec fn first_made_of<V>(
    arrays: Seq<Vec<Json>>,
    model: spec_fn(Json) -> Option<V>,
) -> Option<V>
    decreases arrays.len(),
{
    if arrays.len() == 0 {
        None
    } else {
        match first_made(arrays[0]@, model) {
            Some(made) => Some(made),
            None => first_made_of(arrays.drop_first(), model),
        }
    }
}

/// The single thing in a document: the first that `model` makes of the items of `data`, then of
/// those of any array, then of `data` itself.
pub open spec fn only<V>(root: Json, model: spec_fn(Json) -> Option<V>) -> Option<V> {
    let of_data = match array_at(root, "data"@) {
        Some(items) => first_made(items@, model),
        None => None,
    };
    if of_data is Some {
        of_data
    } else {
        match first_made_of(object_arrays(root, 0), model) {
            Some(made) => Some(made),
            None => match at(root, "data"@) {
                Some(data) => model(data),
                None => None,
            },
        }
    }
}

/// Two lists of arrays one after the other give what the first gives, if it gives anything.
proof fn lemma_kept_of_first_split<V>(
    front: Seq<Vec<Json>>,
    back: Seq<Vec<Json>>,
    model: spec_fn(Json) -> Option<V>,
)
    ensures
        kept_of_first(front + back, model) == if kept_of_first(front, model).len() > 0 {
            kept_of_first(front, model)
        } else {
            kept_of_first(back, model)
        },
    decreases front.len(),
{
    if front.len() == 0 {
        assert(front + back =~= back);
    } else {
        assert((front + back).drop_first() =~= front.drop_first() + back);
        assert((front + back)[0] == front[0]);
        lemma_kept_of_first_split(front.drop_first(), back, model);
    }
}

/// Reads every item and keeps what is made.
pub fn read_all<T: DeepView, F: Fn(&Json) -> Option<T>>(items: &[Json], reader: &F) -> (r: Vec<T>)
    requires
        forall|value: &Json| call_requires(reader, (value,)),
    ensures
        forall|model: spec_fn(Json) -> Option<T::V>| #[trigger]
            reads::<T, F>(*reader, model) ==> r.deep_view() == kept(items@, model),
{
    let mut out: Vec<T> = Vec::new();
    let mut i: usize = 0;
    proof {
        assert forall|model: spec_fn(Json) -> Option<T::V>| #[trigger]
            reads::<T, F>(*reader, model) implies out.deep_view() == kept(items@.take(0), model) by {
            assert(out.deep_view() =~= kept(items@.take(0), model));
        }
    }
    while i < items.len()
        invariant
            i <= items@.len(),
            forall|value: &Json| call_requires(reader, (value,)),
            forall|model: spec_fn(Json) -> Option<T::V>| #[trigger]
                reads::<T, F>(*reader, model) ==> out.deep_view() == kept(
                    items@.take(i as int),
                    model,
                ),
        decreases items@.len() - i,
    {
        let item = &items[i];
        let made = reader(item);
        let ghost before = out.deep_view();
        let ghost made_view = made.deep_view();
        proof {
            assert(items@.take(i + 1).drop_last() =~= items@.take(i as int));
            assert(items@.take(i + 1).last() == *item);
        }
        if let Some(value) = made {
            let ghost added = value.deep_view();
            out.push(value);
            proof {
                assert(out.deep_view() =~= before.push(added));
            }
        }
        proof {
            assert forall|model: spec_fn(Json) -> Option<T::V>| #[trigger]
                reads::<T, F>(*reader, model) implies out.deep_view() == kept(
                items@.take(i + 1),
                model,
            ) by {
                assert(made_view == model(*item));
            }
        }
        i += 1;
    }
    proof {
        assert(items@.take(items@.len() as int) =~= items@);
    }
    out
}

/// Reads the items in turn and returns the first thing made.
fn read_first<T: DeepView, F: Fn(&Json) -> Option<T>>(items: &[Json], reader: &F) -> (r: Option<T>)
    requires
        forall|value: &Json| call_requires(reader, (value,)),
    ensures
        forall|model: spec_fn(Json) -> Option<T::V>| #[trigger]
            reads::<T, F>(*reader, model) ==> r.deep_view() == first_made(items@, model),
{
    let mut i: usize = 0;
    proof {
        assert(items@.skip(0) =~= items@);
    }
    while i < items.len()
        invariant
            i <= items@.len(),
            forall|value: &Json| call_requires(reader, (value,)),
            forall|model: spec_fn(Json) -> Option<T::V>| #[trigger]
                reads::<T, F>(*reader, model) ==> first_made(items@, model) == first_made(
                    items@.skip(i as int),
                    model,
                ),
        decreases items@.len() - i,
    {
        let item = &items[i];
        let made = reader(item);
        let ghost made_view = made.deep_view();
        proof {
            assert(items@.skip(i as int).drop_first() =~= items@.skip(i + 1));
            assert(items@.skip(i as int)[0] == *item);
            assert forall|model: spec_fn(Json) -> Option<T::V>| #[trigger]
                reads::<T, F>(*reader, model) implies made_view == model(*item) by {}
        }
        if made.is_some() {
            return made;
        }
        i += 1;
    }
    None
}

/// Reads the list in a document: the arrays called as `preferred_keys` say are tried first, then
/// every array that holds an object, and the first that yields anything is taken.
pub fn extract_list<T: DeepView, F: Fn(&Json) -> Option<T>>(
    root: &Json,
    preferred_keys: &[&str],
    reader: F,
) -> (r: Vec<T>)
    requires
        forall|value: &Json| call_requires(reader, (value,)),
    ensures
        forall|model: spec_fn(Json) -> Option<T::V>| #[trigger]
            reads::<T, F>(reader, model) ==> r.deep_view() == listed(
                *root,
                preferred_keys@,
                model,
            ),
{
    let ghost rest = object_arrays(*root, 0);
    let mut i: usize = 0;
    proof {
        assert(named_arrays(*root, preferred_keys@.take(0)) =~= Seq::<Vec<Json>>::empty());
    }
    while i < preferred_keys.len()
        invariant
            i <= preferred_keys@.len(),
            rest == object_arrays(*root, 0),
            forall|value: &Json| call_requires(reader, (value,)),
            forall|model: spec_fn(Json) -> Option<T::V>| #[trigger]
                reads::<T, F>(reader, model) ==> kept_of_first(
                    named_arrays(*root, preferred_keys@.take(i as int)),
                    model,
                ).len() == 0,
        decreases preferred_keys@.len() - i,
    {
        proof {
            assert(preferred_keys@.take(i + 1).drop_last() =~= preferred_keys@.take(i as int));
            assert(preferred_keys@.take(i + 1).last() == preferred_keys@[i as int]);
        }
        if let Some(items) = find_array_by_key(root, preferred_keys[i], 0) {
            let made = read_all(items.as_slice(), &reader);
            let ghost before = named_arrays(*root, preferred_keys@.take(i as int));
            proof {
                assert forall|model: spec_fn(Json) -> Option<T::V>| #[trigger]
                    reads::<T, F>(reader, model) implies kept_of_first(
                    named_arrays(*root, preferred_keys@.take(i + 1)),
                    model,
                ) == made.deep_view() by {
                    lemma_kept_of_first_split(before, seq![*items], model);
                    assert(before.push(*items) =~= before + seq![*items]);
                    assert(seq![*items].drop_first() =~= Seq::<Vec<Json>>::empty());
                    assert(kept_of_first(seq![*items].drop_first(), model) =~= Seq::<T::V>::empty());
                    if kept(items@, model).len() == 0 {
                        assert(kept(items@, model) =~= Seq::<T::V>::empty());
                    }
                }
            }
            if made.len() > 0 {
                proof {
                    assert forall|model: spec_fn(Json) -> Option<T::V>| #[trigger]
                        reads::<T, F>(reader, model) implies made.deep_view() == listed(
                        *root,
                        preferred_keys@,
                        model,
                    ) by {
                        let front = named_arrays(*root, preferred_keys@.take(i + 1));
                        lemma_named_arrays_split(*root, preferred_keys@, i + 1);
                        let back = named_arrays(*root, preferred_keys@.skip(i + 1));
                        lemma_kept_of_first_split(front, back + rest, model);
                        assert(front + (back + rest) =~= (front + back) + rest);
                    }
                }
                return made;
            }
        }
        i += 1;
    }
    let mut arrays: Vec<&Vec<Json>> = Vec::new();
    collect_object_arrays(root, &mut arrays, 0);
    proof {
        assert(preferred_keys@.take(preferred_keys@.len() as int) =~= preferred_keys@);
        assert(targets(arrays@) =~= rest);
        assert(rest.skip(0) =~= rest);
        assert forall|model: spec_fn(Json) -> Option<T::V>| #[trigger]
            reads::<T, F>(reader, model) implies listed(*root, preferred_keys@, model)
            == kept_of_first(rest, model) by {
            lemma_kept_of_first_split(named_arrays(*root, preferred_keys@), rest, model);
        }
    }
    let mut j: usize = 0;
    while j < arrays.len()
        invariant
            j <= arrays@.len(),
            targets(arrays@) == rest,
            forall|value: &Json| call_requires(reader, (value,)),
            forall|model: spec_fn(Json) -> Option<T::V>| #[trigger]
                reads::<T, F>(reader, model) ==> listed(*root, preferred_keys@, model)
                    == kept_of_first(rest.skip(j as int), model),
        decreases arrays@.len() - j,
    {
        let items = arrays[j];
        let made = read_all(items.as_slice(), &reader);
        proof {
            assert(rest[j as int] == *items);
            assert(rest.skip(j as int)[0] == *items);
            assert(rest.skip(j as int).drop_first() =~= rest.skip(j + 1));
        }
        if made.len() > 0 {
            return made;
        }
        j += 1;
    }
    let none: Vec<T> = Vec::new();
    proof {
        assert forall|model: spec_fn(Json) -> Option<T::V>| #[trigger]
            reads::<T, F>(reader, model) implies none.deep_view() == listed(
            *root,
            preferred_keys@,
            model,
        ) by {
            assert(none.deep_view() =~= Seq::<T::V>::empty());
        }
    }
    none
}

/// The arrays of the first keys come first.
proof fn lemma_named_arrays_split(root: Json, keys: Seq<&str>, k: int)
    requires
        0 <= k <= keys.len(),
    ensures
        named_arrays(root, keys) == named_arrays(root, keys.take(k)) + named_arrays(
            root,
            keys.skip(k),
        ),
    decreases keys.len(),
{
    if k == keys.len() {
        assert(keys.take(k) =~= keys);
        assert(named_arrays(root, keys.skip(k)) =~= Seq::<Vec<Json>>::empty());
    } else {
        lemma_named_arrays_split(root, keys.drop_last(), k);
        assert(keys.drop_last().take(k) =~= keys.take(k));
        assert(keys.drop_last().skip(k) =~= keys.skip(k).drop_last());
        assert(keys.skip(k).last() == keys.last());
        let front = named_arrays(root, keys.take(k));
        let middle = named_arrays(root, keys.skip(k).drop_last());
        match array_named(root, keys.last()@, 0) {
            Some(items) => {
                assert((front + middle).push(items) =~= front + middle.push(items));
            },
            None => {},
        }
    }
}

/// Reads the single thing in a document, for answers that describe one thing.
pub fn extract_first<T: DeepView, F: Fn(&Json) -> Option<T>>(root: &Json, reader: F) -> (r: Option<
    T,
>)
    requires
        forall|value: &Json| call_requires(reader, (value,)),
    ensures
        forall|model: spec_fn(Json) -> Option<T::V>| #[trigger]
            reads::<T, F>(reader, model) ==> r.deep_view() == only(*root, model),
{
    if let Some(items) = root.get_array("data") {
        let found = read_first(items.as_slice(), &reader);
        if found.is_some() {
            return found;
        }
    }
    let ghost all = object_arrays(*root, 0);
    let mut arrays: Vec<&Vec<Json>> = Vec::new();
    collect_object_arrays(root, &mut arrays, 0);
    proof {
        assert(targets(arrays@) =~= all);
        assert(all.skip(0) =~= all);
    }
    let mut j: usize = 0;
    while j < arrays.len()
        invariant
            j <= arrays@.len(),
            targets(arrays@) == all,
            forall|value: &Json| call_requires(reader, (value,)),
            forall|model: spec_fn(Json) -> Option<T::V>| #[trigger]
                reads::<T, F>(reader, model) ==> first_made_of(all, model) == first_made_of(
                    all.skip(j as int),
                    model,
                ),
            all == object_arrays(*root, 0),
            forall|model: spec_fn(Json) -> Option<T::V>| #[trigger]
                reads::<T, F>(reader, model) ==> (match array_at(*root, "data"@) {
                    Some(items) => first_made(items@, model) is None,
                    None => true,
                }),
        decreases arrays@.len() - j,
    {
        let items = arrays[j];
        let found = read_first(items.as_slice(), &reader);
        proof {
            assert(all[j as int] == *items);
            assert(all.skip(j as int)[0] == *items);
            assert(all.skip(j as int).drop_first() =~= all.skip(j + 1));
        }
        if found.is_some() {
            return found;
        }
        j += 1;
    }
    match root.get("data") {
        Some(data) => reader(data),
        None => None,
    }
}

/// Members are found by their name, and the first of a name counts.
pub proof fn members_are_found_by_name(members: Seq<(String, Json)>, key: Seq<char>, i: int)
    requires
        0 <= i < members.len(),
        members[i].0@ == key,
        forall|k: int| 0 <= k < i ==> (#[trigger] members[k]).0@ != key,
    ensures
        member(members, key) == Some(members[i].1),
    decreases i,
{
    if i > 0 {
        assert(members[0].0@ != key);
        let rest = members.drop_first();
        assert forall|k: int| 0 <= k < i - 1 implies (#[trigger] rest[k]).0@ != key by {
            assert(rest[k] == members[k + 1]);
        }
        members_are_found_by_name(rest, key, i - 1);
    }
}

/// Of several names the first that has a value of the wanted sort counts, and nothing is made up.
pub proof fn first_names_count(object: Json, keys: Seq<&str>, i: int)
    requires
        0 <= i < keys.len(),
    ensures
        (at(object, keys[i]@) matches Some(value) && as_text(value) is Some) && (forall|k: int|
            0 <= k < i ==> at(object, (#[trigger] keys[k])@) is None) ==> first_text(object, keys)
            == as_text(at(object, keys[i]@)->0),
        (at(object, keys[i]@) matches Some(value) && as_number(value) is Some) && (forall|k: int|
            0 <= k < i ==> at(object, (#[trigger] keys[k])@) is None) ==> first_number(object, keys)
            == as_number(at(object, keys[i]@)->0),
    decreases i,
{
    if i > 0 {
        let rest = keys.drop_first();
        assert(rest[i - 1] == keys[i]);
        first_names_count(object, rest, i - 1);
        if forall|k: int| 0 <= k < i ==> at(object, (#[trigger] keys[k])@) is None {
            assert(at(object, keys[0]@) is None);
            assert forall|k: int| 0 <= k < i - 1 implies at(object, (#[trigger] rest[k])@) is None by {
                assert(rest[k] == keys[k + 1]);
            }
        }
    }
}

/// What is under `data` is what an answer is about; without it, the answer itself.
pub proof fn answers_are_about_their_data(root: Json, data: Json)
    ensures
        at(root, "data"@) == Some(data) ==> payload(root) == data,
        at(root, "data"@) is None ==> payload(root) == root,
{
}

/// Numbers and truth values are written as they are, texts lose the white space around them, and a
/// number that is written as a text is read as that number.
pub proof fn values_are_read_for_what_they_say(n: i64, words: String)
    ensures
        as_text(Json::Int(n)) matches Some(text) && text::integer(text) == Some(n as int),
        as_number(Json::Int(n)) == Some(n),
        text::trimmed(words@).len() > 0 ==> as_text(Json::Text(words)) == Some(text::trimmed(words@)),
        text::trimmed(words@).len() == 0 ==> as_text(Json::Text(words)) is None,
        as_number(Json::Bool(true)) == Some(1i64) && as_number(Json::Bool(false)) == Some(0i64),
        as_number(Json::Null) is None && as_text(Json::Null) is None,
        text::integer_i64(text::trimmed(words@)) == Some(n) ==> as_number(Json::Text(words)) == Some(
            n,
        ),
        n < 0 ==> as_u64(Json::Int(n)) is None,
        n >= 0 ==> as_u64(Json::Int(n)) == Some(n as u64),
{
    text::numbers_are_read_back(n as int);
}

} // verus!
