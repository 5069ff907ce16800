use vstd::prelude::*;

use aes::Aes128;
use block_modes::block_padding::Pkcs7;
use block_modes::BlockMode;
use block_modes::Ecb;

use crate::codec::xor;
use crate::codec::xor_const_spec;
use crate::error::RncmError;
use crate::keystream::keystream_spec;
use crate::keystream::rc4_keystream;

verus! {

/// The fixed 16-byte key for recovering the key blob, the ASCII bytes of
/// `hzHRAmso5kInbaxW`.
pub open spec fn core_key_spec() -> Seq<u8> {
    seq![
        0x68u8, 0x7au8, 0x48u8, 0x52u8, 0x41u8, 0x6du8, 0x73u8, 0x6fu8,
        0x35u8, 0x6bu8, 0x49u8, 0x6eu8, 0x62u8, 0x61u8, 0x78u8, 0x57u8,
    ]
}

/// The fixed 16-byte key for recovering the metadata blob, the ASCII bytes
/// of `#14ljk_!\]&0U<'(`.
pub open spec fn meta_key_spec() -> Seq<u8> {
    seq![
        0x23u8, 0x31u8, 0x34u8, 0x6cu8, 0x6au8, 0x6bu8, 0x5fu8, 0x21u8,
        0x5cu8, 0x5du8, 0x26u8, 0x30u8, 0x55u8, 0x3cu8, 0x27u8, 0x28u8,
    ]
}

/// The key used exclusively for key-blob recovery.
pub fn core_key() -> (r: Vec<u8>)
    ensures
        r@ == core_key_spec(),
{
    let k: Vec<u8> = vec![
        0x68, 0x7a, 0x48, 0x52, 0x41, 0x6d, 0x73, 0x6f,
        0x35, 0x6b, 0x49, 0x6e, 0x62, 0x61, 0x78, 0x57,
    ];
    proof {
        assert(k@ =~= core_key_spec());
    }
    k
}

/// The key used exclusively for metadata recovery.
pub fn meta_key() -> (r: Vec<u8>)
    ensures
        r@ == meta_key_spec(),
{
    let k: Vec<u8> = vec![
        0x23, 0x31, 0x34, 0x6c, 0x6a, 0x6b, 0x5f, 0x21,
        0x5c, 0x5d, 0x26, 0x30, 0x55, 0x3c, 0x27, 0x28,
    ];
    proof {
        assert(k@ =~= meta_key_spec());
    }
    k
}

/// A view of an optional byte vector.
pub open spec fn opt_bytes(o: Option<Vec<u8>>) -> Option<Seq<u8>> {
    match o {
        Some(v) => Some(v@),
        None => None,
    }
}

/// What AES-128-ECB decryption with PKCS#7 unpadding returns: a function of
/// the key and the ciphertext alone; `None` when the ciphertext length is not
/// a multiple of the block size or the padding is invalid.
pub uninterp spec fn aes_ecb_decrypt_of(key: Seq<u8>, data: Seq<u8>) -> Option<Seq<u8>>;

/// Relies on block_modes::BlockMode::decrypt over aes::Aes128 in ECB mode
/// with Pkcs7 padding: in-place block decryption followed by unpadding,
/// deterministic in the key and data, erring exactly on a bad length or bad
/// padding. Success needs a non-empty ciphertext of whole blocks, and the
/// unpadding removes between 1 and 255 trailing bytes (the padding crate
/// accepts any removal count its last byte names, up to 255, not only a
/// block's worth).
#[verifier::external_body]
pub(crate) fn aes_ecb_decrypt(key: &Vec<u8>, data: &Vec<u8>) -> (r: Option<Vec<u8>>)
    requires
        key@.len() == 16,
    ensures
        opt_bytes(r) == aes_ecb_decrypt_of(key@, data@),
        r matches Some(p) ==> data@.len() > 0 && data@.len() % 16 == 0 && p@.len() < data@.len()
            && data@.len() <= p@.len() + 255,
{
    let cipher: Ecb<Aes128, Pkcs7> = match Ecb::new_from_slices(key, &[]) {
        Ok(c) => c,
        Err(_) => return None,
    };
    let mut buf = data.clone();
    match cipher.decrypt(&mut buf) {
        Ok(plain) => Some(plain.to_vec()),
        Err(_) => None,
    }
}

/// What standard base64 decoding (the default alphabet, padding required)
/// returns: a function of the input alone; `None` on an invalid byte or bad
/// padding.
pub uninterp spec fn base64_decode_of(data: Seq<u8>) -> Option<Seq<u8>>;

/// Relies on base64::decode: the standard alphabet with padding,
/// deterministic in its input, erring exactly on invalid input.
#[verifier::external_body]
pub(crate) fn base64_decode(data: &Vec<u8>) -> (r: Option<Vec<u8>>)
    ensures
        opt_bytes(r) == base64_decode_of(data@),
{
    base64::decode(data.as_slice()).ok()
}

/// The keystream seed hidden in an obfuscated key blob: strip the constant
/// XOR whitening, block-decrypt with the core key, and discard the fixed
/// 17-byte prefix. `None` when decryption fails or the result is too short
/// to leave a non-empty seed.
pub open spec fn key_seed_of(blob: Seq<u8>) -> Option<Seq<u8>> {
    match aes_ecb_decrypt_of(core_key_spec(), xor_const_spec(blob, 0x64)) {
        Some(d) => if d.len() > 17 {
            Some(d.skip(17))
        } else {
            None
        },
        None => None,
    }
}

/// Copy `v[n..]` into a fresh vector.
pub(crate) fn skip_bytes(v: &Vec<u8>, n: usize) -> (r: Vec<u8>)
    requires
        n <= v@.len(),
    ensures
        r@ == v@.skip(n as int),
{
    let mut out: Vec<u8> = Vec::new();
    let mut i: usize = n;
    while i < v.len()
        invariant
            n <= i <= v@.len(),
            out@.len() == i - n,
            forall|k: int| 0 <= k < out@.len() ==> out@[k] == v@[n + k],
        decreases v@.len() - i,
    {
        out.push(v[i]);
        i = i + 1;
    }
    proof {
        assert(out@ =~= v@.skip(n as int));
    }
    out
}

/// Recover the 256-byte keystream from the obfuscated key blob: whitening,
/// block decryption, prefix drop, then the keystream derivation. Succeeds
/// exactly when a non-empty seed can be recovered.
pub fn decrypt_key_blob(blob: Vec<u8>) -> (r: Result<Vec<u8>, RncmError>)
    ensures
        r is Ok <==> key_seed_of(blob@) is Some,
        r matches Ok(ks) ==> ks@ == keystream_spec(key_seed_of(blob@).unwrap()) && ks@.len()
            == 256,
        r matches Err(e) ==> e == RncmError::CryptoError,
{
    let whitened = xor(blob, 0x64);
    let key = core_key();
    let decrypted = match aes_ecb_decrypt(&key, &whitened) {
        Some(d) => d,
        None => {
            return Err(RncmError::CryptoError);
        },
    };
    if decrypted.len() <= 17 {
        return Err(RncmError::CryptoError);
    }
    let seed = skip_bytes(&decrypted, 17);
    Ok(rc4_keystream(&seed))
}

} // verus!
