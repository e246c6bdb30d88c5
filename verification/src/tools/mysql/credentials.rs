use crate::config_loader::{MySQLConfig, MySQLRecord};
use crate::error::{CliError, ErrorView};
use crate::text::{chars_of, concat};
use aes_gcm::aead::{Aead, KeyInit};
use base64::Engine;
use vstd::prelude::*;
use vstd::string::StrSliceExecFns;
use vstd::utf8::encode_utf8;

verus! {

/// Names what the `base64` crate reads in a text by its standard alphabet with
/// padding: the bytes that the text writes, or the crate's complaint where the
/// text writes none.
pub uninterp spec fn base64_decoded(text: Seq<char>) -> Result<Seq<u8>, Seq<char>>;

/// Names what the `base64` crate writes for bytes by its standard alphabet with
/// padding.
pub uninterp spec fn base64_encoded(bytes: Seq<u8>) -> Seq<char>;

/// Names what the `aes_gcm` crate gives when it opens sealed bytes with a key of
/// thirty-two bytes and a nonce of twelve, by AES-256 in Galois/counter mode and
/// with nothing associated: the bytes that were sealed, or the crate's complaint
/// where the sealed bytes are not what that key and nonce seal.
pub uninterp spec fn aes_gcm_opened(key: Seq<u8>, nonce: Seq<u8>, sealed: Seq<u8>) -> Result<
    Seq<u8>,
    Seq<char>,
>;

/// Names what the `aes_gcm` crate gives when it seals bytes with a key of
/// thirty-two bytes and a nonce of twelve: the sealed bytes, or the crate's
/// complaint where there are too many bytes to seal.
pub uninterp spec fn aes_gcm_sealed(key: Seq<u8>, nonce: Seq<u8>, plain: Seq<u8>) -> Result<
    Seq<u8>,
    Seq<char>,
>;

/// Names what `String::from_utf8` reads in bytes: the text that they write in
/// UTF-8, or the complaint of the standard library where they write none.
pub uninterp spec fn utf8_read(bytes: Seq<u8>) -> Result<Seq<char>, Seq<char>>;

/// `Engine::decode` of `base64::engine::general_purpose::STANDARD`; a failure is
/// handed out as the text of the crate's error. The contract names the result
/// and claims nothing more.
#[verifier::external_body]
fn decode_base64(text: &str) -> (r: Result<Vec<u8>, String>)
    ensures
        match r {
            Ok(v) => base64_decoded(text@) == Ok::<_, Seq<char>>(v@),
            Err(e) => base64_decoded(text@) == Err::<Seq<u8>, _>(e@),
        },
{
    base64::engine::general_purpose::STANDARD.decode(text).map_err(|e| e.to_string())
}

/// `Engine::encode` of `base64::engine::general_purpose::STANDARD`. The contract
/// names the result and claims nothing more.
#[verifier::external_body]
fn encode_base64(bytes: &Vec<u8>) -> (r: String)
    ensures
        r@ == base64_encoded(bytes@),
{
    base64::engine::general_purpose::STANDARD.encode(bytes)
}

/// `Aes256Gcm::new` on the key, then `Aead::decrypt` with the nonce; a failure is
/// handed out as the text of the crate's error. The key must have thirty-two
/// bytes and the nonce twelve. The contract names the result and claims nothing
/// more.
#[verifier::external_body]
fn open_sealed(key: &Vec<u8>, nonce: &Vec<u8>, sealed: &Vec<u8>) -> (r: Result<Vec<u8>, String>)
    requires
        key@.len() == 32,
        nonce@.len() == 12,
    ensures
        match r {
            Ok(v) => aes_gcm_opened(key@, nonce@, sealed@) == Ok::<_, Seq<char>>(v@),
            Err(e) => aes_gcm_opened(key@, nonce@, sealed@) == Err::<Seq<u8>, _>(e@),
        },
{
    let cipher = aes_gcm::Aes256Gcm::new(aes_gcm::Key::<aes_gcm::Aes256Gcm>::from_slice(key));
    cipher
        .decrypt(aes_gcm::Nonce::from_slice(nonce), sealed.as_slice())
        .map_err(|e| e.to_string())
}

/// `Aes256Gcm::new` on the key, then `Aead::encrypt` with the nonce; a failure is
/// handed out as the text of the crate's error. The key must have thirty-two
/// bytes and the nonce twelve. The contract names the result and claims nothing
/// more.
#[verifier::external_body]
fn seal(key: &Vec<u8>, nonce: &Vec<u8>, plain: &Vec<u8>) -> (r: Result<Vec<u8>, String>)
    requires
        key@.len() == 32,
        nonce@.len() == 12,
    ensures
        match r {
            Ok(v) => aes_gcm_sealed(key@, nonce@, plain@) == Ok::<_, Seq<char>>(v@),
            Err(e) => aes_gcm_sealed(key@, nonce@, plain@) == Err::<Seq<u8>, _>(e@),
        },
{
    let cipher = aes_gcm::Aes256Gcm::new(aes_gcm::Key::<aes_gcm::Aes256Gcm>::from_slice(key));
    cipher
        .encrypt(aes_gcm::Nonce::from_slice(nonce), plain.as_slice())
        .map_err(|e| e.to_string())
}

/// `String::from_utf8`; a failure is handed out as the text of its error. The
/// contract names the result and claims nothing more.
#[verifier::external_body]
fn read_utf8(bytes: Vec<u8>) -> (r: Result<String, String>)
    ensures
        match r {
            Ok(t) => utf8_read(bytes@) == Ok::<_, Seq<char>>(t@),
            Err(e) => utf8_read(bytes@) == Err::<Seq<char>, _>(e@),
        },
{
    String::from_utf8(bytes).map_err(|e| e.to_string())
}

/// The name and the password with which the database is asked, in the clear.
#[derive(Debug)]
pub struct MySQLCredentials {
    pub user: String,
    pub password: String,
}

/// What a `MySQLCredentials` holds, as plain values.
pub struct MySQLCredentialsView {
    pub user: Seq<char>,
    pub password: Seq<char>,
}

impl View for MySQLCredentials {
    type V = MySQLCredentialsView;

    open spec fn view(&self) -> MySQLCredentialsView {
        MySQLCredentialsView { user: self.user@, password: self.password@ }
    }
}

/// The name under which the database is asked where the operator gives none.
pub fn default_user() -> (r: String)
    ensures
        r@ == "root"@,
{
    "root".to_owned()
}

/// The directory of the console under a user's home directory.
pub fn get_config_dir(home: &str) -> (r: String)
    ensures
        r@ == crate::text::path_join(home@, ".config/cloud-cli"@),
{
    crate::text::join_path(home, ".config/cloud-cli")
}

/// The file that keeps the key with which passwords are encrypted.
pub fn get_key_path(home: &str) -> (r: String)
    ensures
        r@ == crate::text::path_join(
            crate::text::path_join(home@, ".config/cloud-cli"@),
            "key"@,
        ),
{
    let dir = get_config_dir(home);
    crate::text::join_path(dir.as_str(), "key")
}

/// The password that a stored text keeps: none for an empty text; else the text
/// writes, by base 64, a nonce of twelve bytes and behind it what the key and the
/// nonce sealed, which is the password in UTF-8. Each way in which the text fails
/// to be that is a failure of its own.
pub open spec fn decrypted(key: Seq<u8>, encrypted: Seq<char>) -> Result<Seq<char>, ErrorView> {
    if encrypted.len() == 0 {
        Ok(seq![])
    } else {
        match base64_decoded(encrypted) {
            Err(said) => Err(ErrorView::IoError("Base64 decode failed: "@ + said)),
            Ok(combined) => if combined.len() < 12 {
                Err(ErrorView::IoError("Invalid encrypted data"@))
            } else {
                match aes_gcm_opened(key, combined.take(12), combined.skip(12)) {
                    Err(said) => Err(ErrorView::IoError("Decryption failed: "@ + said)),
                    Ok(plain) => match utf8_read(plain) {
                        Ok(text) => Ok(text),
                        Err(said) => Err(ErrorView::IoError("UTF8 decode failed: "@ + said)),
                    },
                }
            },
        }
    }
}

/// The text that keeps a password: the nonce and behind it what the key and the
/// nonce seal of the password in UTF-8, written by base 64.
pub open spec fn encrypted(key: Seq<u8>, nonce: Seq<u8>, password: Seq<char>) -> Result<
    Seq<char>,
    ErrorView,
> {
    match aes_gcm_sealed(key, nonce, encode_utf8(password)) {
        Ok(sealed) => Ok(base64_encoded(nonce + sealed)),
        Err(said) => Err(ErrorView::IoError("Encryption failed: "@ + said)),
    }
}

/// What a result with a text holds, as plain values.
pub open spec fn text_result(r: Result<String, CliError>) -> Result<Seq<char>, ErrorView> {
    match r {
        Ok(t) => Ok(t@),
        Err(e) => Err(e@),
    }
}

/// Keeps passwords under a key of thirty-two bytes.
pub struct CredentialManager {
    key: Vec<u8>,
}

impl CredentialManager {
    /// The key.
    pub closed spec fn key_view(&self) -> Seq<u8> {
        self.key@
    }

    /// Whether the key has the thirty-two bytes of a key.
    pub open spec fn well_formed(&self) -> bool {
        self.key_view().len() == 32
    }

    /// The keeper of passwords under a key; nothing where the key has not
    /// thirty-two bytes.
    pub fn new(key: Vec<u8>) -> (r: Option<CredentialManager>)
        ensures
            match r {
                Some(m) => key@.len() == 32 && m.key_view() == key@ && m.well_formed(),
                None => key@.len() != 32,
            },
    {
        if key.len() == 32 {
            Some(CredentialManager { key })
        } else {
            None
        }
    }

    /// The password that a stored text keeps.
    pub fn decrypt_password(&self, encrypted: &str) -> (r: Result<String, CliError>)
        requires
            self.well_formed(),
        ensures
            text_result(r) == decrypted(self.key_view(), encrypted@),
    {
        if chars_of(encrypted).len() == 0 {
            return Ok(String::new());
        }
        let combined = match decode_base64(encrypted) {
            Ok(bytes) => bytes,
            Err(said) => {
                return Err(CliError::IoError(concat("Base64 decode failed: ", said.as_str())));
            },
        };
        if combined.len() < 12 {
            return Err(CliError::IoError("Invalid encrypted data".to_owned()));
        }
        let mut nonce: Vec<u8> = Vec::new();
        let mut sealed: Vec<u8> = Vec::new();
        let mut i: usize = 0;
        while i < combined.len()
            invariant
                i <= combined.len(),
                combined@.len() >= 12,
                nonce@ =~= combined@.take(if i < 12 {
                    i as int
                } else {
                    12
                }),
                sealed@ =~= if i < 12 {
                    Seq::<u8>::empty()
                } else {
                    combined@.subrange(12, i as int)
                },
            decreases combined.len() - i,
        {
            if i < 12 {
                nonce.push(combined[i]);
            } else {
                sealed.push(combined[i]);
            }
            i += 1;
        }
        assert(sealed@ =~= combined@.skip(12));
        let plain = match open_sealed(&self.key, &nonce, &sealed) {
            Ok(bytes) => bytes,
            Err(said) => {
                return Err(CliError::IoError(concat("Decryption failed: ", said.as_str())));
            },
        };
        match read_utf8(plain) {
            Ok(text) => Ok(text),
            Err(said) => Err(CliError::IoError(concat("UTF8 decode failed: ", said.as_str()))),
        }
    }

    /// The text that keeps a password under a nonce of twelve bytes, which must
    /// be fresh for every password that is kept.
    pub fn encrypt_password(&self, nonce: &Vec<u8>, password: &str) -> (r: Result<String, CliError>)
        requires
            self.well_formed(),
            nonce@.len() == 12,
        ensures
            text_result(r) == encrypted(self.key_view(), nonce@, password@),
    {
        let plain = password.as_bytes_vec();
        let sealed = match seal(&self.key, nonce, &plain) {
            Ok(bytes) => bytes,
            Err(said) => {
                return Err(CliError::IoError(concat("Encryption failed: ", said.as_str())));
            },
        };
        let mut combined: Vec<u8> = Vec::new();
        let mut i: usize = 0;
        while i < nonce.len()
            invariant
                i <= nonce.len(),
                combined@ =~= nonce@.take(i as int),
            decreases nonce.len() - i,
        {
            combined.push(nonce[i]);
            i += 1;
        }
        let mut j: usize = 0;
        while j < sealed.len()
            invariant
                j <= sealed.len(),
                combined@ =~= nonce@ + sealed@.take(j as int),
            decreases sealed.len() - j,
        {
            combined.push(sealed[j]);
            j += 1;
        }
        assert(combined@ =~= nonce@ + sealed@);
        Ok(encode_base64(&combined))
    }

    /// The credentials as they are stored: the name in the clear, the password
    /// encrypted.
    pub fn encrypt_credentials(&self, nonce: &Vec<u8>, user: &str, password: &str) -> (r: Result<
        MySQLConfig,
        CliError,
    >)
        requires
            self.well_formed(),
            nonce@.len() == 12,
        ensures
            match encrypted(self.key_view(), nonce@, password@) {
                Ok(kept) => r is Ok && r->Ok_0@ == (MySQLRecord { user: user@, password: kept }),
                Err(e) => r is Err && r->Err_0@ == e,
            },
    {
        match self.encrypt_password(nonce, password) {
            Ok(kept) => Ok(MySQLConfig { user: user.to_owned(), password: kept }),
            Err(e) => Err(e),
        }
    }
}

} // verus!
