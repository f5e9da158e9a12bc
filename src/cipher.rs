use crate::error::CryptoError;
use cbc::cipher::block_padding::NoPadding;
use cbc::cipher::{BlockDecryptMut, KeyIvInit};
use vstd::prelude::*;
use vstd::slice::slice_subrange;

verus! {

/// Length in bytes of an AES block, of the key and of the IV.
pub const BLOCK_LEN: usize = 16;

/// What AES-128 in CBC mode makes of `ciphertext` under `key` and `iv`,
/// block by block, with no padding removed.
pub uninterp spec fn aes128_cbc_blocks(key: Seq<u8>, iv: Seq<u8>, ciphertext: Seq<u8>) -> Seq<u8>;

/// Relies on `cbc::Decryptor::<aes::Aes128>::new_from_slices` and
/// `decrypt_padded_vec_mut::<NoPadding>`: with a 16-byte key and IV and whole
/// blocks, the input is decrypted block by block into an output of equal length.
#[verifier::external_body]
fn cbc_decrypt_blocks(key: &[u8], iv: &[u8], ciphertext: &[u8]) -> (r: Vec<u8>)
    requires
        key@.len() == 16,
        iv@.len() == 16,
        ciphertext@.len() % 16 == 0,
    ensures
        r@ == aes128_cbc_blocks(key@, iv@, ciphertext@),
        r@.len() == ciphertext@.len(),
{
    match cbc::Decryptor::<aes::Aes128>::new_from_slices(key, iv) {
        Ok(dec) => dec.decrypt_padded_vec_mut::<NoPadding>(ciphertext).unwrap_or_default(),
        Err(_) => Vec::new(),
    }
}

/// The PKCS#7 padding of `plaintext` to a whole number of 16-byte blocks:
/// `n` bytes of value `n`, with `n` between 1 and 16.
pub open spec fn pkcs7_pad(plaintext: Seq<u8>) -> Seq<u8> {
    let n = 16 - plaintext.len() % 16;
    plaintext + Seq::new(n as nat, |_i: int| n as u8)
}

/// Whether `data` ends in a well-formed PKCS#7 padding of a 16-byte block.
pub open spec fn pkcs7_padded(data: Seq<u8>) -> bool {
    &&& data.len() > 0
    &&& 1 <= data.last() <= 16
    &&& data.last() <= data.len()
    &&& forall|i: int| data.len() - data.last() <= i < data.len() ==> data[i] == data.last()
}

/// `data` with its PKCS#7 padding removed, or `None` where the padding is malformed.
pub open spec fn pkcs7_unpad(data: Seq<u8>) -> Option<Seq<u8>> {
    if pkcs7_padded(data) {
        Some(data.subrange(0, data.len() - data.last()))
    } else {
        None
    }
}

/// The result of decrypting one downloaded segment: the first 16 bytes are the
/// IV, the rest is AES-128-CBC ciphertext with PKCS#7 padding.
pub open spec fn decrypt_spec(encrypted: Seq<u8>, key: Seq<u8>) -> Result<Seq<u8>, CryptoError> {
    if encrypted.len() < 16 {
        Err(CryptoError::Truncated)
    } else if key.len() != 16 {
        Err(CryptoError::InvalidKeyLength)
    } else {
        let ciphertext = encrypted.subrange(16, encrypted.len() as int);
        if ciphertext.len() == 0 || ciphertext.len() % 16 != 0 {
            Err(CryptoError::InvalidCiphertextLength)
        } else {
            match pkcs7_unpad(aes128_cbc_blocks(key, encrypted.subrange(0, 16), ciphertext)) {
                Some(plain) => Ok(plain),
                None => Err(CryptoError::PaddingInvalid),
            }
        }
    }
}

/// Removes PKCS#7 padding from decrypted blocks; `None` where it is malformed.
pub fn unpad_pkcs7(data: &[u8]) -> (r: Option<Vec<u8>>)
    ensures
        match r {
            Some(v) => pkcs7_unpad(data@) == Some(v@),
            None => pkcs7_unpad(data@) is None,
        },
{
    let len = data.len();
    if len == 0 {
        return None;
    }
    let n = data[len - 1];
    if n < 1 || n > 16 || n as usize > len {
        return None;
    }
    let start: usize = len - n as usize;
    let mut i: usize = start;
    while i < len
        invariant
            start <= i <= len,
            len == data@.len(),
            start == len - n,
            n == data@.last(),
            forall|j: int| start <= j < i ==> data@[j] == n,
        decreases len - i,
    {
        if data[i] != n {
            return None;
        }
        i = i + 1;
    }
    let mut out: Vec<u8> = Vec::new();
    out.extend_from_slice(slice_subrange(data, 0, start));
    Some(out)
}

/// Decrypts one segment blob with `key`: its first 16 bytes are the IV and the
/// rest is AES-128-CBC ciphertext whose PKCS#7 padding is removed.
pub fn decrypt_segment(encrypted: &[u8], key: &[u8]) -> (r: Result<Vec<u8>, CryptoError>)
    ensures
        match r {
            Ok(v) => decrypt_spec(encrypted@, key@) == Ok::<Seq<u8>, CryptoError>(v@),
            Err(e) => decrypt_spec(encrypted@, key@) == Err::<Seq<u8>, CryptoError>(e),
        },
        encrypted@.len() < 16 ==> r == Err::<Vec<u8>, CryptoError>(CryptoError::Truncated),
        encrypted@.len() >= 16 && key@.len() != 16 ==> r == Err::<Vec<u8>, CryptoError>(
            CryptoError::InvalidKeyLength,
        ),
        encrypted@.len() >= 16 && key@.len() == 16 && (encrypted@.len() - 16) % 16 != 0 ==> r
            == Err::<Vec<u8>, CryptoError>(CryptoError::InvalidCiphertextLength),
{
    if encrypted.len() < BLOCK_LEN {
        return Err(CryptoError::Truncated);
    }
    if key.len() != BLOCK_LEN {
        return Err(CryptoError::InvalidKeyLength);
    }
    let iv = slice_subrange(encrypted, 0, BLOCK_LEN);
    let ciphertext = slice_subrange(encrypted, BLOCK_LEN, encrypted.len());
    if ciphertext.len() == 0 || ciphertext.len() % BLOCK_LEN != 0 {
        return Err(CryptoError::InvalidCiphertextLength);
    }
    let blocks = cbc_decrypt_blocks(key, iv, ciphertext);
    match unpad_pkcs7(blocks.as_slice()) {
        Some(plain) => Ok(plain),
        None => Err(CryptoError::PaddingInvalid),
    }
}

/// Round trip: when `ciphertext` is an AES-128-CBC encryption of the PKCS#7
/// padded `plaintext` under `key` and `iv` (so that decrypting its blocks gives
/// the padded plaintext back), decrypting `iv ‖ ciphertext` with `key` returns
/// `plaintext` exactly.
pub proof fn lemma_round_trip(key: Seq<u8>, iv: Seq<u8>, plaintext: Seq<u8>, ciphertext: Seq<u8>)
    requires
        key.len() == 16,
        iv.len() == 16,
        ciphertext.len() == pkcs7_pad(plaintext).len(),
        aes128_cbc_blocks(key, iv, ciphertext) == pkcs7_pad(plaintext),
    ensures
        decrypt_spec(iv + ciphertext, key) == Ok::<Seq<u8>, CryptoError>(plaintext),
{
    let enc = iv + ciphertext;
    let padded = pkcs7_pad(plaintext);
    let n = 16 - plaintext.len() % 16;
    assert(enc.subrange(0, 16) =~= iv);
    assert(enc.subrange(16, enc.len() as int) =~= ciphertext);
    assert(padded.len() == plaintext.len() + n);
    assert((plaintext.len() + n) % 16 == 0) by (nonlinear_arith)
        requires n == 16 - plaintext.len() % 16;
    assert(padded.last() == n as u8);
    assert(pkcs7_padded(padded));
    assert(padded.subrange(0, padded.len() - padded.last()) =~= plaintext);
}

} // verus!
