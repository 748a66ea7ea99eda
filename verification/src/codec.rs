//! Payload codec stages: standard-alphabet base64 decoding of the stripped
//! payload, and block-cipher decryption of the ciphertext with the game's
//! fixed embedded 256-bit key in electronic-codebook mode with PKCS#7
//! unpadding. Both stages are pure functions of their input bytes.

use vstd::prelude::*;

use aes::Aes256;
use aes::cipher::BlockModeDecrypt;
use aes::cipher::KeyInit;
use aes::cipher::block_padding::Pkcs7;

verus! {

/// What standard-alphabet base64 decoding (with padding) yields on the given
/// text: the decoded bytes, or nothing when the text is not valid base64.
pub uninterp spec fn base64_decoded(text: Seq<u8>) -> Option<Seq<u8>>;

/// Relies on base64's standard-alphabet engine with padding: decoding is a
/// function of the input text alone, and returns an error exactly on text
/// that is not valid base64 (bad alphabet, length or padding).
#[verifier::external_body]
pub fn b64_decode(text: &[u8]) -> (r: Result<Vec<u8>, String>)
    ensures
        r matches Ok(p) ==> base64_decoded(text@) == Some(p@),
        r is Err <==> base64_decoded(text@) is None,
{
    base64::Engine::decode(&base64::engine::general_purpose::STANDARD, text)
        .map_err(|e| format!("invalid base64: {e}"))
}

/// What decrypting the given ciphertext with the game's fixed key yields:
/// the unpadded plaintext, or nothing when the ciphertext length is not a
/// whole number of blocks or the padding is invalid.
pub uninterp spec fn save_plaintext(ciphertext: Seq<u8>) -> Option<Seq<u8>>;

/// Relies on ecb::Decryptor<aes::Aes256> with PKCS#7 unpadding and the
/// game's fixed embedded key (the ASCII bytes of
/// "UKu52ePUBwetZ9wNX88o54dnfKRu0T1l"): with the key fixed, the plaintext is
/// a function of the ciphertext alone, and decryption returns an error
/// exactly when the ciphertext length is not a multiple of the 16-byte block
/// size or the decrypted padding is malformed.
#[verifier::external_body]
pub fn decrypt_save(ciphertext: &[u8]) -> (r: Result<Vec<u8>, String>)
    ensures
        r matches Ok(p) ==> save_plaintext(ciphertext@) == Some(p@),
        r is Err <==> save_plaintext(ciphertext@) is None,
{
    let key: [u8; 32] = [
        85, 75, 117, 53, 50, 101, 80, 85, 66, 119, 101, 116, 90, 57, 119, 78, 88, 56, 56, 111, 53,
        52, 100, 110, 102, 75, 82, 117, 48, 84, 49, 108,
    ];
    let mut buf = ciphertext.to_vec();
    match ecb::Decryptor::<Aes256>::new((&key).into()).decrypt_padded::<Pkcs7>(&mut buf) {
        Ok(p) => Ok(p.to_vec()),
        Err(e) => Err(format!("invalid ciphertext: {e}")),
    }
}

} // verus!
