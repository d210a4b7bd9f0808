use aes::Aes128;
use base64::Engine;
use block_modes::block_padding::Pkcs7;
use block_modes::{BlockMode, Cfb};
use vstd::prelude::*;

verus! {

/// AES-128 in full-block cipher-feedback mode, PKCS#7-padded to whole blocks.
type AesCfb = Cfb<Aes128, Pkcs7>;

/// Key length that AES-128 requires, in bytes.
pub const KEY_LEN: usize = 16;

/// Initialisation-vector length, the cipher's block width, in bytes.
pub const IV_LEN: usize = 16;

/// Block width of the cipher, in bytes.
pub const BLOCK_LEN: usize = 16;

/// Why a payload could not be protected or revealed.
#[derive(Debug, Clone, Copy, PartialEq, Eq, Structural)]
pub enum CryptoError {
    /// The text is not canonical standard base64.
    InvalidEncoding,
    /// The key is not `KEY_LEN` bytes long.
    InvalidKeyLength,
    /// The initialisation vector is not `IV_LEN` bytes long.
    InvalidIvLength,
    /// The decoded ciphertext is not a whole number of blocks.
    CiphertextLengthInvalid,
    /// The decrypted blocks do not end in well-formed padding of at most
    /// one block.
    PaddingInvalid,
}

/// The standard base64 text (with `=` padding) of `bytes`.
pub uninterp spec fn base64_text(bytes: Seq<u8>) -> Seq<char>;

/// The bytes that `text` decodes to under canonical standard base64, if any.
pub uninterp spec fn base64_bytes(text: Seq<char>) -> Option<Seq<u8>>;

/// The ciphertext of `plain` under AES-128-CFB with PKCS#7 padding.
pub uninterp spec fn cfb_encrypted(key: Seq<u8>, iv: Seq<u8>, plain: Seq<u8>) -> Seq<u8>;

/// The plaintext that `cipher` decrypts to under AES-128-CFB, padding removed,
/// or `None` when the padding is malformed.
pub uninterp spec fn cfb_decrypted(key: Seq<u8>, iv: Seq<u8>, cipher: Seq<u8>) -> Option<Seq<u8>>;

/// Relies on base64 0.21's `STANDARD` engine `encode`: standard alphabet with
/// `=` padding; decoding that text with the same engine gives the bytes back.
#[verifier::external_body]
fn base64_encode(bytes: &[u8]) -> (r: String)
    ensures
        r@ == base64_text(bytes@),
        base64_bytes(r@) == Some(bytes@),
{
    base64::engine::general_purpose::STANDARD.encode(bytes)
}

/// Relies on base64 0.21's `STANDARD` engine `decode`: it requires canonical
/// padding and rejects non-zero trailing bits, so a text it accepts is the
/// encoding of the bytes it returns.
#[verifier::external_body]
fn base64_decode(text: &str) -> (r: Option<Vec<u8>>)
    ensures
        match r {
            Some(b) => base64_bytes(text@) == Some(b@) && base64_text(b@) == text@,
            None => base64_bytes(text@) is None,
        },
{
    base64::engine::general_purpose::STANDARD.decode(text).ok()
}

/// Relies on block-modes 0.8's `Cfb<Aes128, Pkcs7>::encrypt_vec`: the plaintext
/// is padded with 1 to 16 bytes to whole blocks and encrypted; `decrypt_vec`
/// under the same key and IV gives the plaintext back.
#[verifier::external_body]
fn cfb_encrypt(key: &[u8], iv: &[u8], plain: &[u8]) -> (r: Vec<u8>)
    requires
        key@.len() == KEY_LEN,
        iv@.len() == IV_LEN,
    ensures
        r@ == cfb_encrypted(key@, iv@, plain@),
        r@.len() == (plain@.len() / (BLOCK_LEN as nat) + 1) * (BLOCK_LEN as nat),
        cfb_decrypted(key@, iv@, r@) == Some(plain@),
{
    match AesCfb::new_from_slices(key, iv) {
        Ok(mode) => mode.encrypt_vec(plain),
        Err(_) => Vec::new(),
    }
}

/// Relies on block-modes 0.8's `Cfb<Aes128, Pkcs7>::decrypt_vec`: on whole
/// blocks it inverts the feedback transform and strips the PKCS#7 padding,
/// failing when that padding is malformed. The padding removed is at least
/// one byte, but block-padding 0.2 accepts one longer than a block; when it
/// is at most a block, it is the padding `encrypt_vec` adds to what is left,
/// so that plaintext encrypts back to the same ciphertext.
#[verifier::external_body]
fn cfb_decrypt(key: &[u8], iv: &[u8], cipher: &[u8]) -> (r: Option<Vec<u8>>)
    requires
        key@.len() == KEY_LEN,
        iv@.len() == IV_LEN,
        cipher@.len() % (BLOCK_LEN as nat) == 0,
    ensures
        match r {
            Some(p) => cfb_decrypted(key@, iv@, cipher@) == Some(p@) && p@.len() < cipher@.len()
                && (cipher@.len() - p@.len() <= BLOCK_LEN ==> cfb_encrypted(key@, iv@, p@)
                == cipher@),
            None => cfb_decrypted(key@, iv@, cipher@) is None,
        },
{
    match AesCfb::new_from_slices(key, iv) {
        Ok(mode) => mode.decrypt_vec(cipher).ok(),
        Err(_) => None,
    }
}

/// What `protect` yields: the base64 text of the ciphertext, or the first
/// configuration error, the key's before the IV's.
pub open spec fn protect_spec(plain: Seq<u8>, key: Seq<u8>, iv: Seq<u8>) -> Result<
    Seq<char>,
    CryptoError,
> {
    if key.len() != KEY_LEN {
        Err(CryptoError::InvalidKeyLength)
    } else if iv.len() != IV_LEN {
        Err(CryptoError::InvalidIvLength)
    } else {
        Ok(base64_text(cfb_encrypted(key, iv, plain)))
    }
}

/// What `reveal_payload` yields: the key and IV are checked first, then the text's
/// encoding, the ciphertext's length, and the padding, which must be well
/// formed and no longer than one block.
pub open spec fn reveal_spec(text: Seq<char>, key: Seq<u8>, iv: Seq<u8>) -> Result<
    Seq<u8>,
    CryptoError,
> {
    if key.len() != KEY_LEN {
        Err(CryptoError::InvalidKeyLength)
    } else if iv.len() != IV_LEN {
        Err(CryptoError::InvalidIvLength)
    } else {
        match base64_bytes(text) {
            None => Err(CryptoError::InvalidEncoding),
            Some(c) => if c.len() % (BLOCK_LEN as nat) != 0 {
                Err(CryptoError::CiphertextLengthInvalid)
            } else {
                match cfb_decrypted(key, iv, c) {
                    None => Err(CryptoError::PaddingInvalid),
                    Some(p) => if c.len() - p.len() > BLOCK_LEN {
                        Err(CryptoError::PaddingInvalid)
                    } else {
                        Ok(p)
                    },
                }
            },
        }
    }
}

pub open spec fn text_result_view(r: Result<String, CryptoError>) -> Result<Seq<char>, CryptoError> {
    match r {
        Ok(s) => Ok(s@),
        Err(e) => Err(e),
    }
}

pub open spec fn bytes_result_view(r: Result<Vec<u8>, CryptoError>) -> Result<Seq<u8>, CryptoError> {
    match r {
        Ok(b) => Ok(b@),
        Err(e) => Err(e),
    }
}

/// Encrypts `plain` under `key` and `iv`, then encodes the ciphertext as
/// standard base64. Whatever it returns, `reveal_payload` under the same key and IV
/// turns back into `plain`.
pub fn protect(plain: &[u8], key: &[u8], iv: &[u8]) -> (r: Result<String, CryptoError>)
    ensures
        text_result_view(r) == protect_spec(plain@, key@, iv@),
        r is Ok ==> base64_bytes(r->Ok_0@) == Some(cfb_encrypted(key@, iv@, plain@)),
        r is Ok ==> cfb_encrypted(key@, iv@, plain@).len() == (plain@.len() / (BLOCK_LEN as nat)
            + 1) * (BLOCK_LEN as nat),
        r is Ok ==> reveal_spec(r->Ok_0@, key@, iv@) == Result::<Seq<u8>, CryptoError>::Ok(plain@),
{
    if key.len() != KEY_LEN {
        return Err(CryptoError::InvalidKeyLength);
    }
    if iv.len() != IV_LEN {
        return Err(CryptoError::InvalidIvLength);
    }
    let cipher = cfb_encrypt(key, iv, plain);
    let text = base64_encode(cipher.as_slice());
    proof {
        let n: int = plain@.len() as int / 16 + 1;
        assert((n * 16) % 16 == 0) by (nonlinear_arith);
        assert((plain@.len() as int / 16) * 16 <= plain@.len() as int) by (nonlinear_arith);
    }
    Ok(text)
}

/// Decodes `text` from base64 and decrypts it under `key` and `iv`. Any text
/// it accepts is exactly the one `protect` makes of the plaintext it returns,
/// so an altered text never reveals the original plaintext.
pub fn reveal_payload(text: &str, key: &[u8], iv: &[u8]) -> (r: Result<Vec<u8>, CryptoError>)
    ensures
        bytes_result_view(r) == reveal_spec(text@, key@, iv@),
        r is Ok ==> protect_spec(r->Ok_0@, key@, iv@) == Result::<Seq<char>, CryptoError>::Ok(text@),
{
    if key.len() != KEY_LEN {
        return Err(CryptoError::InvalidKeyLength);
    }
    if iv.len() != IV_LEN {
        return Err(CryptoError::InvalidIvLength);
    }
    let cipher = match base64_decode(text) {
        Some(c) => c,
        None => return Err(CryptoError::InvalidEncoding),
    };
    if cipher.len() % BLOCK_LEN != 0 {
        return Err(CryptoError::CiphertextLengthInvalid);
    }
    match cfb_decrypt(key, iv, cipher.as_slice()) {
        Some(p) => if cipher.len() - p.len() > BLOCK_LEN {
            Err(CryptoError::PaddingInvalid)
        } else {
            Ok(p)
        },
        None => Err(CryptoError::PaddingInvalid),
    }
}

} // verus!
