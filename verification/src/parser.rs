//! The decoder: holds the current checklist as its only state and runs the
//! full pipeline — header stripping, base64 decoding, decryption, document
//! parsing, schema extraction, checklist mapping — replacing the held
//! checklist only when every stage succeeds.

use vstd::prelude::*;

use crate::ParseError;
use crate::checks::GameSer;
use crate::checks::GameSerV;
use crate::checks::HollowKnightChecks;
use crate::checks::HollowKnightChecksV;
use crate::checks::empty_hollow_knight_checks;
use crate::codec::b64_decode;
use crate::codec::base64_decoded;
use crate::codec::decrypt_save;
use crate::codec::save_plaintext;
use crate::header::payload_of;
use crate::header::strip_header;
use crate::json::JsonVal;
use crate::json::json_doc;
use crate::json::parse_json;
use crate::mapper::hollow_knight_checks_of;
use crate::mapper::map_checklist;
use crate::save::SaveFileV;
use crate::save::detect_variant;
use crate::save::save_of;

verus! {

/// The ciphertext a raw save file carries: its payload, base64-decoded.
pub open spec fn ciphertext_of(data: Seq<u8>) -> Option<Seq<u8>> {
    match payload_of(data) {
        Some(p) => base64_decoded(p),
        None => None,
    }
}

/// The plaintext document bytes a raw save file carries.
pub open spec fn plaintext_of(data: Seq<u8>) -> Option<Seq<u8>> {
    match ciphertext_of(data) {
        Some(c) => save_plaintext(c),
        None => None,
    }
}

/// The parsed document a raw save file carries.
pub open spec fn document_of(data: Seq<u8>) -> Option<JsonVal> {
    match plaintext_of(data) {
        Some(p) => json_doc(p),
        None => None,
    }
}

/// The raw save a raw save file carries, when its document matches the
/// save schema.
pub open spec fn raw_save_of(data: Seq<u8>) -> Option<SaveFileV> {
    match document_of(data) {
        Some(d) => save_of(d),
        None => None,
    }
}

/// The checklist a raw save file decodes to; `None` exactly when some
/// pipeline stage fails on it.
pub open spec fn decoded_checks(data: Seq<u8>) -> Option<HollowKnightChecksV> {
    match raw_save_of(data) {
        Some(s) => Some(hollow_knight_checks_of(s)),
        None => None,
    }
}

/// The decoder. It owns the one piece of retained state: the checklist of
/// the last successful decode, overwritten (never merged) on each success.
pub struct Parser {
    map: GameSer,
}

impl View for Parser {
    type V = GameSerV;

    closed spec fn view(&self) -> GameSerV {
        self.map@
    }
}

impl Parser {
    /// A fresh decoder: the primary variant's tag with every category empty.
    pub fn new() -> (r: Self)
        ensures
            r@ == GameSerV::HollowKnight(empty_hollow_knight_checks()),
    {
        Parser { map: GameSer::HollowKnight(HollowKnightChecks::default()) }
    }

    /// Runs the full decode pipeline on a raw save file. On success the held
    /// checklist is replaced by the decoded one; on any failure it is left
    /// exactly as it was and the first failing stage's error is returned.
    pub fn parse_save_file(&mut self, data: &[u8]) -> (r: Result<(), ParseError>)
        ensures
            r is Ok <==> decoded_checks(data@) is Some,
            r is Ok ==> final(self)@ == GameSerV::HollowKnight(decoded_checks(data@)->Some_0),
            r is Err ==> *final(self) == *old(self),
            r matches Err(e) ==> match e {
                ParseError::MalformedHeader => payload_of(data@) is None,
                ParseError::Base64DecodeError(_) => payload_of(data@) is Some && ciphertext_of(
                    data@,
                ) is None,
                ParseError::DecryptionError(_) => ciphertext_of(data@) is Some && plaintext_of(
                    data@,
                ) is None,
                ParseError::DeserializationError(_) => plaintext_of(data@) is Some && raw_save_of(
                    data@,
                ) is None,
                ParseError::UnsupportedVariant => false,
            },
    {
        let payload = match strip_header(data) {
            Ok(p) => p,
            Err(e) => {
                return Err(e);
            },
        };
        let ciphertext = match b64_decode(payload.as_slice()) {
            Ok(c) => c,
            Err(msg) => {
                return Err(ParseError::Base64DecodeError(msg));
            },
        };
        let plain = match decrypt_save(ciphertext.as_slice()) {
            Ok(p) => p,
            Err(msg) => {
                return Err(ParseError::DecryptionError(msg));
            },
        };
        let doc = match parse_json(plain.as_slice()) {
            Ok(d) => d,
            Err(msg) => {
                return Err(ParseError::DeserializationError(msg));
            },
        };
        let raw = match detect_variant(&doc) {
            Ok(s) => s,
            Err(e) => {
                return Err(e);
            },
        };
        let checks = match map_checklist(&raw) {
            Ok(c) => c,
            Err(e) => {
                return Err(e);
            },
        };
        self.map = GameSer::HollowKnight(checks);
        Ok(())
    }

    /// A copy of the held checklist; the decoder's own state cannot be
    /// changed through it.
    pub fn get_map(&self) -> (r: GameSer)
        ensures
            r@ == self@,
    {
        self.map.clone()
    }
}

/// Round-trip determinism law: the decode contract pins the resulting
/// checklist as a function of the input bytes alone, so two successful
/// decodes of the same well-formed buffer hold identical checklists.
pub proof fn lemma_decode_deterministic(data: Seq<u8>, m1: GameSerV, m2: GameSerV)
    requires
        decoded_checks(data) is Some,
        m1 == GameSerV::HollowKnight(decoded_checks(data)->Some_0),
        m2 == GameSerV::HollowKnight(decoded_checks(data)->Some_0),
    ensures
        m1 == m2,
{
}

} // verus!
