//! The decrypted save is a structured-data (JSON) document. The document is
//! parsed by an outside codec and rewritten into the library's own document
//! type, so that every schema decision made on it — field lookups, type
//! checks, numeric "level" reads — is verified code with exact contracts.
//!
//! Numeric fields carry real-number semantics in the source format but are
//! guaranteed to hold exact small non-negative integers; they are kept here
//! as their decimal text and read back as integers.

use vstd::prelude::*;

verus! {

/// A structured-data document value. Object entries keep the deterministic
/// order in which the parser hands them out; numbers are kept as the decimal
/// text the parser prints for them.
#[derive(Debug)]
pub enum JsonVal {
    Null,
    Bool(bool),
    Num(Vec<u8>),
    Str(String),
    Arr(Vec<JsonVal>),
    Obj(Vec<(String, JsonVal)>),
}

#[verifier::external_type_specification]
#[verifier::external_body]
pub struct ExJsonValue(serde_json::Value);

/// What parsing the given bytes as a structured-data document yields: the
/// document, or nothing when the bytes are not a valid document.
pub uninterp spec fn json_doc(bytes: Seq<u8>) -> Option<JsonVal>;

/// Relies on serde_json::from_slice: parsing is a function of the input
/// bytes alone, and returns an error exactly on bytes that do not form a
/// valid document.
#[verifier::external_body]
pub fn parse_json(bytes: &[u8]) -> (r: Result<JsonVal, String>)
    ensures
        r matches Ok(v) ==> json_doc(bytes@) == Some(v),
        r is Err <==> json_doc(bytes@) is None,
{
    match serde_json::from_slice::<serde_json::Value>(bytes) {
        Ok(v) => Ok(json_tree(v)),
        Err(e) => Err(format!("invalid document: {e}")),
    }
}

/// Relies on serde_json::Value: rewrites the parsed document, variant by
/// variant, into the library's own document type. Object entries come out in
/// the deterministic (key-sorted) order of serde_json's map type; numbers
/// become the decimal text that serde_json prints for them.
#[verifier::external_body]
fn json_tree(v: serde_json::Value) -> JsonVal {
    match v {
        serde_json::Value::Null => JsonVal::Null,
        serde_json::Value::Bool(b) => JsonVal::Bool(b),
        serde_json::Value::Number(n) => JsonVal::Num(n.to_string().into_bytes()),
        serde_json::Value::String(s) => JsonVal::Str(s),
        serde_json::Value::Array(a) => JsonVal::Arr(a.into_iter().map(json_tree).collect()),
        serde_json::Value::Object(o) => JsonVal::Obj(
            o.into_iter().map(|(k, x)| (k, json_tree(x))).collect(),
        ),
    }
}

/// Relies on str's equality being equality of the character sequences.
pub assume_specification[ <str as PartialEq>::eq ](a: &str, b: &str) -> (r: bool)
    ensures
        r == (a@ == b@),
;

/// Compares two string slices by content.
pub fn str_eq(a: &str, b: &str) -> (r: bool)
    ensures
        r == (a@ == b@),
{
    a.eq(b)
}

/// Position `k` holds the first entry of `es` whose key is `key`.
pub open spec fn is_key_index(es: Seq<(String, JsonVal)>, key: Seq<char>, k: int) -> bool {
    &&& 0 <= k < es.len()
    &&& es[k].0@ == key
    &&& forall|j: int| 0 <= j < k ==> es[j].0@ != key
}

/// The position of the first entry with the given key.
pub open spec fn key_index(es: Seq<(String, JsonVal)>, key: Seq<char>) -> int {
    choose|k: int| is_key_index(es, key, k)
}

/// At most one position holds the first entry with a given key.
pub proof fn lemma_key_index_unique(es: Seq<(String, JsonVal)>, key: Seq<char>, k1: int, k2: int)
    requires
        is_key_index(es, key, k1),
        is_key_index(es, key, k2),
    ensures
        k1 == k2,
{
    if k1 < k2 {
        assert(es[k1].0@ != key);
    }
    if k2 < k1 {
        assert(es[k2].0@ != key);
    }
}

/// The value of the first entry with the given key, if any.
pub open spec fn lookup_entry(es: Seq<(String, JsonVal)>, key: Seq<char>) -> Option<JsonVal> {
    if exists|k: int| is_key_index(es, key, k) {
        Some(es[key_index(es, key)].1)
    } else {
        None
    }
}

/// The field of an object document under the given key; `None` when the
/// document is not an object or has no such field. Kept opaque: callers
/// reason through `get_field`'s contract, not through the lookup itself.
#[verifier::opaque]
pub open spec fn field_of(v: JsonVal, key: Seq<char>) -> Option<JsonVal> {
    match v {
        JsonVal::Obj(es) => lookup_entry(es@, key),
        _ => None,
    }
}

/// Looks up a field of an object document by key, taking the first entry
/// with that key.
pub fn get_field<'a>(v: &'a JsonVal, key: &str) -> (r: Option<&'a JsonVal>)
    ensures
        match r {
            Some(f) => field_of(*v, key@) == Some(*f),
            None => field_of(*v, key@) is None,
        },
{
    proof {
        reveal(field_of);
    }
    match v {
        JsonVal::Obj(es) => {
            let n = es.len();
            let mut i: usize = 0;
            while i < n
                invariant
                    *v == JsonVal::Obj(*es),
                    n == es@.len(),
                    i <= n,
                    forall|j: int| 0 <= j < i ==> es@[j].0@ != key@,
                decreases n - i,
        {
                if str_eq(es[i].0.as_str(), key) {
                    proof {
                        reveal(field_of);
                        assert(is_key_index(es@, key@, i as int));
                        lemma_key_index_unique(es@, key@, i as int, key_index(es@, key@));
                    }
                    return Some(&es[i].1);
                }
                i = i + 1;
            }
            proof {
                assert forall|k: int| !is_key_index(es@, key@, k) by {
                    if 0 <= k < es@.len() {
                        assert(es@[k].0@ != key@);
                    }
                }
            }
            None
        },
        _ => None,
    }
}

/// The boolean field of an object document under the given key; `None` when
/// missing or not a boolean.
#[verifier::opaque]
pub open spec fn bool_at(v: JsonVal, key: Seq<char>) -> Option<bool> {
    match field_of(v, key) {
        Some(f) => match f {
            JsonVal::Bool(b) => Some(b),
            _ => None,
        },
        None => None,
    }
}

/// Reads a boolean field of an object document.
pub fn read_bool(v: &JsonVal, key: &str) -> (r: Option<bool>)
    ensures
        r == bool_at(*v, key@),
{
    proof {
        reveal(bool_at);
    }
    match get_field(v, key) {
        Some(f) => match f {
            JsonVal::Bool(b) => Some(*b),
            _ => None,
        },
        None => None,
    }
}

/// The string field of an object document under the given key; `None` when
/// missing or not a string.
#[verifier::opaque]
pub open spec fn str_at(v: JsonVal, key: Seq<char>) -> Option<Seq<char>> {
    match field_of(v, key) {
        Some(f) => match f {
            JsonVal::Str(s) => Some(s@),
            _ => None,
        },
        None => None,
    }
}

/// Reads a string field of an object document.
pub fn read_string(v: &JsonVal, key: &str) -> (r: Option<String>)
    ensures
        match r {
            Some(s) => str_at(*v, key@) == Some(s@),
            None => str_at(*v, key@) is None,
        },
{
    proof {
        reveal(str_at);
    }
    match get_field(v, key) {
        Some(f) => match f {
            JsonVal::Str(s) => Some(s.clone()),
            _ => None,
        },
        None => None,
    }
}

/// The elements of the array field of an object document under the given
/// key; `None` when missing or not an array.
#[verifier::opaque]
pub open spec fn arr_at(v: JsonVal, key: Seq<char>) -> Option<Seq<JsonVal>> {
    match field_of(v, key) {
        Some(f) => match f {
            JsonVal::Arr(a) => Some(a@),
            _ => None,
        },
        None => None,
    }
}

/// Reads an array field of an object document.
pub fn get_arr<'a>(v: &'a JsonVal, key: &str) -> (r: Option<&'a Vec<JsonVal>>)
    ensures
        match r {
            Some(a) => arr_at(*v, key@) == Some(a@),
            None => arr_at(*v, key@) is None,
        },
{
    proof {
        reveal(arr_at);
    }
    match get_field(v, key) {
        Some(f) => match f {
            JsonVal::Arr(a) => Some(a),
            _ => None,
        },
        None => None,
    }
}

/// The numeric field of an object document under the given key, as its
/// decimal text; `None` when missing or not a number.
#[verifier::opaque]
pub open spec fn num_at(v: JsonVal, key: Seq<char>) -> Option<Seq<u8>> {
    match field_of(v, key) {
        Some(f) => match f {
            JsonVal::Num(t) => Some(t@),
            _ => None,
        },
        None => None,
    }
}

/// The level a numeric field of an object document holds: present exactly
/// when the field exists, is a number, and its text denotes an exact
/// non-negative integer.
#[verifier::opaque]
pub open spec fn level_at(v: JsonVal, key: Seq<char>) -> Option<u32> {
    match num_at(v, key) {
        Some(t) => level_value(t),
        None => None,
    }
}

/// Reads a numeric "level" field of an object document as an integer.
pub fn read_level(v: &JsonVal, key: &str) -> (r: Option<u32>)
    ensures
        r == level_at(*v, key@),
{
    proof {
        reveal(num_at);
        reveal(level_at);
    }
    match get_field(v, key) {
        Some(f) => match f {
            JsonVal::Num(t) => parse_level(t.as_slice()),
            _ => None,
        },
        None => None,
    }
}

/// The byte is a decimal digit.
pub open spec fn is_digit_byte(b: u8) -> bool {
    48 <= b <= 57
}

/// The value of a sequence of decimal digit bytes, most significant first.
pub open spec fn digits_value(s: Seq<u8>) -> int
    decreases s.len(),
{
    if s.len() == 0 {
        0
    } else {
        10 * digits_value(s.drop_last()) + (s.last() - 48)
    }
}

/// Appending a digit multiplies the value by ten and adds the digit.
pub proof fn lemma_digits_value_push(s: Seq<u8>, b: u8)
    ensures
        digits_value(s.push(b)) == 10 * digits_value(s) + (b - 48),
{
    assert(s.push(b).drop_last() =~= s);
    assert(s.push(b).last() == b);
}

/// The value of a sequence of digit bytes is non-negative.
pub proof fn lemma_digits_value_nonneg(s: Seq<u8>)
    requires
        forall|j: int| 0 <= j < s.len() ==> is_digit_byte(s[j]),
    ensures
        digits_value(s) >= 0,
    decreases s.len(),
{
    if s.len() > 0 {
        lemma_digits_value_nonneg(s.drop_last());
    }
}

/// Position `d` ends the leading run of digit bytes: everything before it is
/// a digit and it is the end of the text or a non-digit.
pub open spec fn is_digit_run_end(s: Seq<u8>, d: int) -> bool {
    &&& 0 <= d <= s.len()
    &&& forall|j: int| 0 <= j < d ==> is_digit_byte(s[j])
    &&& (d == s.len() || !is_digit_byte(s[d]))
}

/// The length of the leading run of digit bytes.
pub open spec fn digit_run_len(s: Seq<u8>) -> int {
    choose|d: int| is_digit_run_end(s, d)
}

/// At most one position ends the leading digit run.
pub proof fn lemma_digit_run_end_unique(s: Seq<u8>, d1: int, d2: int)
    requires
        is_digit_run_end(s, d1),
        is_digit_run_end(s, d2),
    ensures
        d1 == d2,
{
    if d1 < d2 {
        assert(is_digit_byte(s[d1]));
    }
    if d2 < d1 {
        assert(is_digit_byte(s[d2]));
    }
}

/// The exact integer a numeric field's decimal text stands for: a non-empty
/// run of digits, optionally followed by a decimal point and a non-empty run
/// of zeros. Any other shape — a sign, a non-zero fraction, an exponent — is
/// not an exact small non-negative integer and yields `None`. Kept opaque:
/// callers reason through `parse_level`'s contract.
#[verifier::opaque]
pub open spec fn level_of_text(s: Seq<u8>) -> Option<int> {
    let d = digit_run_len(s);
    if !(exists|k: int| is_digit_run_end(s, k)) || d < 1 {
        None
    } else if d == s.len() {
        Some(digits_value(s))
    } else if s[d] == 46 && d + 1 < s.len() && (forall|j: int| d < j < s.len() ==> s[j] == 48) {
        Some(digits_value(s.subrange(0, d)))
    } else {
        None
    }
}

/// The numeric value a "level" field holds, clamped to the machine range;
/// thresholds compared against levels are tiny, so clamping preserves every
/// comparison the mapper makes.
pub open spec fn level_value(s: Seq<u8>) -> Option<u32> {
    match level_of_text(s) {
        Some(n) => Some(
            if n > u32::MAX {
                u32::MAX
            } else {
                n as u32
            },
        ),
        None => None,
    }
}

/// Parses a numeric field's decimal text as an exact non-negative integer,
/// clamped to the machine range; rejects any text that does not denote an
/// exact integer.
pub fn parse_level(t: &[u8]) -> (r: Option<u32>)
    ensures
        r == level_value(t@),
{
    proof {
        reveal(level_of_text);
    }
    let n = t.len();
    let mut d: usize = 0;
    let mut acc: u64 = 0;
    while d < n && t[d] >= 48 && t[d] <= 57
        invariant
            n == t@.len(),
            0 <= d <= n,
            forall|j: int| 0 <= j < d ==> is_digit_byte(t@[j]),
            digits_value(t@.subrange(0, d as int)) <= u32::MAX ==> acc == digits_value(
                t@.subrange(0, d as int),
            ),
            digits_value(t@.subrange(0, d as int)) > u32::MAX ==> acc == 0x1_0000_0000u64,
            acc <= 0x1_0000_0000u64,
        decreases n - d,
    {
        let b = t[d];
        proof {
            let prefix = t@.subrange(0, d as int);
            assert(t@.subrange(0, d + 1) =~= prefix.push(t@[d as int]));
            lemma_digits_value_push(prefix, t@[d as int]);
            lemma_digits_value_nonneg(prefix);
        }
        let step: u64 = acc * 10 + ((b - 48) as u64);
        if step > 0x1_0000_0000u64 {
            acc = 0x1_0000_0000u64;
        } else {
            acc = step;
        }
        d = d + 1;
    }
    proof {
        assert(is_digit_run_end(t@, d as int));
        lemma_digit_run_end_unique(t@, d as int, digit_run_len(t@));
    }
    if d == 0 {
        return None;
    }
    let value: u32 = if acc > 0xffff_ffffu64 {
        u32::MAX
    } else {
        acc as u32
    };
    if d == n {
        proof {
            assert(t@.subrange(0, d as int) =~= t@);
        }
        return Some(value);
    }
    if t[d] != 46 || d + 1 >= n {
        return None;
    }
    let mut j: usize = d + 1;
    while j < n
        invariant
            n == t@.len(),
            d + 1 <= j <= n,
            1 <= d < n,
            is_digit_run_end(t@, d as int),
            digit_run_len(t@) == d as int,
            t@[d as int] == 46,
            forall|k: int| d < k < j ==> t@[k] == 48,
        decreases n - j,
    {
        if t[j] != 48 {
            proof {
                reveal(level_of_text);
            }
            return None;
        }
        j = j + 1;
    }
    Some(value)
}

} // verus!
