//! Header stripping: the raw save file starts with a fixed 22-byte binary
//! prologue, then a variable-length prefix (a run of non-ASCII bytes closed
//! by one ASCII byte), then the base64 payload, and ends with one trailing
//! sentinel byte. This stage discards the framing and yields the payload.

use vstd::prelude::*;

use crate::ParseError;

verus! {

/// A byte is ASCII when its high bit is clear; the variable-length prefix
/// is exactly the leading run of non-ASCII bytes.
pub open spec fn is_ascii_byte(b: u8) -> bool {
    b < 128
}

/// The fixed 22-byte prologue that opens every raw save file. Its contents
/// are discarded framing and are not validated.
pub open spec fn prologue() -> Seq<u8> {
    seq![
        0x00u8,
        0x01,
        0x00,
        0x00,
        0x00,
        0xff,
        0xff,
        0xff,
        0xff,
        0x01,
        0x00,
        0x00,
        0x00,
        0x00,
        0x00,
        0x00,
        0x00,
        0x06,
        0x01,
        0x00,
        0x00,
        0x00,
    ]
}

/// Position `k` in `body` is the prefix's closing ASCII byte: every byte
/// before it is non-ASCII and the byte at it is ASCII.
pub open spec fn is_separator_index(body: Seq<u8>, k: int) -> bool {
    &&& 0 <= k < body.len()
    &&& is_ascii_byte(body[k])
    &&& forall|j: int| 0 <= j < k ==> !is_ascii_byte(body[j])
}

/// The position of the first ASCII byte of `body`.
pub open spec fn separator_index(body: Seq<u8>) -> int {
    choose|k: int| is_separator_index(body, k)
}

/// At most one position can be the first ASCII byte.
pub proof fn lemma_separator_index_unique(body: Seq<u8>, k1: int, k2: int)
    requires
        is_separator_index(body, k1),
        is_separator_index(body, k2),
    ensures
        k1 == k2,
{
    if k1 < k2 {
        assert(!is_ascii_byte(body[k1]));
    }
    if k2 < k1 {
        assert(!is_ascii_byte(body[k2]));
    }
}

/// The base64 payload of a raw save file: everything between the prologue,
/// the length prefix with its closing ASCII byte, and the trailing sentinel.
/// `None` when the file is shorter than the prologue plus the sentinel, or
/// when no ASCII byte closes the prefix.
pub open spec fn payload_of(data: Seq<u8>) -> Option<Seq<u8>> {
    if data.len() < 23 {
        None
    } else {
        let body = data.subrange(22, data.len() - 1);
        if exists|k: int| is_separator_index(body, k) {
            Some(body.subrange(separator_index(body) + 1, body.len() as int))
        } else {
            None
        }
    }
}

/// Skips the fixed prologue, the trailing sentinel, and the variable-length
/// prefix up to and including its closing ASCII byte, returning the base64
/// payload. The skipped bytes are discarded framing and are not interpreted.
pub fn strip_header(data: &[u8]) -> (r: Result<Vec<u8>, ParseError>)
    ensures
        match r {
            Ok(p) => payload_of(data@) == Some(p@),
            Err(e) => payload_of(data@) is None && e is MalformedHeader,
        },
{
    if data.len() < 23 {
        return Err(ParseError::MalformedHeader);
    }
    let end = data.len() - 1;
    let mut i: usize = 22;
    while i < end && data[i] >= 128
        invariant
            22 <= i <= end,
            end == data@.len() - 1,
            data@.len() >= 23,
            forall|j: int| 22 <= j < i ==> !is_ascii_byte(data@[j]),
        decreases end - i,
    {
        i = i + 1;
    }
    let ghost body = data@.subrange(22, data@.len() - 1);
    if i == end {
        proof {
            assert forall|k: int| !is_separator_index(body, k) by {
                if 0 <= k < body.len() {
                    assert(body[k] == data@[22 + k]);
                    assert(!is_ascii_byte(body[k]));
                }
            }
        }
        return Err(ParseError::MalformedHeader);
    }
    proof {
        assert(body[i - 22] == data@[i as int]);
        assert forall|j: int| 0 <= j < i - 22 implies !is_ascii_byte(body[j]) by {
            assert(body[j] == data@[22 + j]);
        }
        assert(is_separator_index(body, i - 22));
        lemma_separator_index_unique(body, i - 22, separator_index(body));
    }
    let mut payload: Vec<u8> = Vec::new();
    let mut p: usize = i + 1;
    while p < end
        invariant
            i + 1 <= p <= end,
            end == data@.len() - 1,
            data@.len() >= 23,
            payload@ =~= data@.subrange(i + 1, p as int),
        decreases end - p,
    {
        payload.push(data[p]);
        p = p + 1;
    }
    proof {
        assert(payload@ =~= body.subrange(i - 22 + 1, body.len() as int));
    }
    Ok(payload)
}

/// Header framing law: a buffer of the fixed prologue, any run of non-ASCII
/// bytes, one ASCII closing byte, an ASCII (base64) payload and one trailing
/// sentinel strips to exactly that payload, for a run of any length.
pub proof fn lemma_header_framing(run: Seq<u8>, sep: u8, payload: Seq<u8>, trailing: u8)
    requires
        forall|j: int| 0 <= j < run.len() ==> !is_ascii_byte(run[j]),
        is_ascii_byte(sep),
        forall|j: int| 0 <= j < payload.len() ==> is_ascii_byte(payload[j]),
    ensures
        payload_of(prologue() + run + seq![sep] + payload + seq![trailing]) == Some(payload),
{
    let data = prologue() + run + seq![sep] + payload + seq![trailing];
    assert(prologue().len() == 22);
    assert(data.len() == 24 + run.len() + payload.len());
    let body = data.subrange(22, data.len() - 1);
    assert(body =~= run + seq![sep] + payload);
    let k = run.len() as int;
    assert(body[k] == sep);
    assert forall|j: int| 0 <= j < k implies !is_ascii_byte(body[j]) by {
        assert(body[j] == run[j]);
    }
    assert(is_separator_index(body, k));
    lemma_separator_index_unique(body, k, separator_index(body));
    assert(body.subrange(k + 1, body.len() as int) =~= payload);
}

} // verus!
