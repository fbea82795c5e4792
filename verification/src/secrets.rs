//! The private key of the service: where it is kept, and how it is read
//! from and written to a PEM file. Reading and writing the file itself is
//! left to the caller.

use vstd::prelude::*;
use vstd::string::*;
use crate::text::{opt_text, str_eq};

verus! {

/// The label under which the key is kept.
pub const KEY_LABEL: &'static str = "EC PRIVATE KEY";

/// The generator of the `rand` crate that each thread keeps for itself.
#[verifier::external_type_specification]
#[verifier::external_body]
pub struct ExThreadRng(rand::rngs::ThreadRng);

/// `rand::thread_rng`: the generator of this thread. Nothing is claimed of
/// it.
#[verifier::external_body]
fn thread_generator() -> rand::rngs::ThreadRng {
    rand::thread_rng()
}

/// A private key that can be drawn at random, made from bytes, and gives
/// its bytes back.
pub trait SecretKeyHandler: Sized {
    /// A new key, drawn from `rng`.
    fn new(rng: &mut rand::rngs::ThreadRng) -> Self;

    /// The key that `data` holds, or why it holds none.
    fn from_slice(data: &[u8]) -> Result<Self, String>;

    /// The bytes of the key.
    fn secret_bytes(&self) -> [u8; 32];
}

/// The extension of the file name at the end of `path`, as `Path::extension`
/// gives it; `None` where the name has none.
pub uninterp spec fn path_extension(path: Seq<char>) -> Option<Seq<char>>;

/// `std::path::Path::extension` on the path `path`. The contract claims
/// that the extension is a function of the path.
#[verifier::external_body]
fn extension_of(path: &str) -> (extension: Option<String>)
    ensures
        opt_text(extension) == path_extension(path@),
{
    match std::path::Path::new(path).extension() {
        Some(extension) => match extension.to_str() {
            Some(text) => Some(text.to_string()),
            None => None,
        },
        None => None,
    }
}

/// Whether an extension is that of a PEM file.
pub fn is_pem_extension(extension: Option<&str>) -> (r: bool)
    ensures
        r == match extension {
            Some(text) => text@ == "pem"@,
            None => false,
        },
{
    match extension {
        Some(text) => str_eq(text, "pem"),
        None => false,
    }
}

/// Whether `file_path` names a PEM file: its extension is `pem`.
pub fn is_pem_file(file_path: &str) -> (r: bool)
    ensures
        r == (path_extension(file_path@) == Some("pem"@)),
{
    match extension_of(file_path) {
        Some(extension) => is_pem_extension(Some(extension.as_str())),
        None => is_pem_extension(None),
    }
}

/// What the `pem-rfc7468` crate reads from the PEM document `pem`: the
/// label and the bytes, or its words for what is wrong with the document.
pub uninterp spec fn pem_decoded(pem: Seq<char>) -> Result<(Seq<char>, Seq<u8>), Seq<char>>;

/// The PEM document that the `pem-rfc7468` crate writes for `bytes` under
/// `label`, with line feeds, or its words for why it cannot.
pub uninterp spec fn pem_encoded(label: Seq<char>, bytes: Seq<u8>) -> Result<Seq<char>, Seq<char>>;

/// The view of a decoded document.
pub open spec fn decoded_view(decoded: Result<(String, Vec<u8>), String>) -> Result<
    (Seq<char>, Seq<u8>),
    Seq<char>,
> {
    match decoded {
        Ok((label, bytes)) => Ok((label@, bytes@)),
        Err(fault) => Err(fault@),
    }
}

/// The view of an encoded document.
pub open spec fn encoded_view(encoded: Result<String, String>) -> Result<Seq<char>, Seq<char>> {
    match encoded {
        Ok(pem) => Ok(pem@),
        Err(fault) => Err(fault@),
    }
}

/// `pem_rfc7468::decode_vec`. The contract claims that what is read is a
/// function of the document.
#[verifier::external_body]
fn pem_decode(pem: &str) -> (decoded: Result<(String, Vec<u8>), String>)
    ensures
        decoded_view(decoded) == pem_decoded(pem@),
{
    match pem_rfc7468::decode_vec(pem.as_bytes()) {
        Ok((label, bytes)) => Ok((label.to_string(), bytes)),
        Err(error) => Err(error.to_string()),
    }
}

/// `pem_rfc7468::encode_string` with `LineEnding::LF`. The contract claims
/// that what is written is a function of the label and the bytes.
#[verifier::external_body]
fn pem_encode(label: &str, bytes: &[u8]) -> (encoded: Result<String, String>)
    ensures
        encoded_view(encoded) == pem_encoded(label@, bytes@),
{
    match pem_rfc7468::encode_string(label, pem_rfc7468::LineEnding::LF, bytes) {
        Ok(pem) => Ok(pem),
        Err(error) => Err(error.to_string()),
    }
}

/// The bytes of the key that the PEM document `pem_data` holds. A document
/// that cannot be read is refused with the reader's words, one under
/// another label as an invalid key format.
pub fn key_bytes(pem_data: &str) -> (r: Result<Vec<u8>, String>)
    ensures
        match pem_decoded(pem_data@) {
            Err(fault) => r matches Err(text) && text@ == fault,
            Ok((label, bytes)) => if label == KEY_LABEL@ {
                r matches Ok(found) && found@ == bytes
            } else {
                r matches Err(text) && text@ == "Invalid key format"@
            },
        },
{
    match pem_decode(pem_data) {
        Err(fault) => Err(fault),
        Ok((label, bytes)) => {
            if str_eq(label.as_str(), KEY_LABEL) {
                Ok(bytes)
            } else {
                Err(String::from_str("Invalid key format"))
            }
        },
    }
}

/// Why the PEM document `pem` holds no key of the service: the reader's
/// words where it cannot be read, an invalid key format where it bears
/// another label; `None` where it holds the bytes of a key.
pub open spec fn key_refusal(pem: Seq<char>) -> Option<Seq<char>> {
    match pem_decoded(pem) {
        Err(fault) => Some(fault),
        Ok((label, _)) => if label == KEY_LABEL@ {
            None
        } else {
            Some("Invalid key format"@)
        },
    }
}

/// The key that the PEM document `pem_data` holds: what the key type makes
/// of the bytes, where the document holds the bytes of a key.
pub fn read_key<T: SecretKeyHandler>(pem_data: &str) -> (r: Result<T, String>)
    ensures
        key_refusal(pem_data@) matches Some(why) ==> (r matches Err(text) && text@ == why),
{
    match key_bytes(pem_data) {
        Ok(bytes) => T::from_slice(bytes.as_slice()),
        Err(fault) => Err(fault),
    }
}

/// The detail of the error for a key that cannot be written.
pub open spec fn encode_failure(fault: Seq<char>) -> Seq<char> {
    "Failed to encode key: "@ + fault
}

/// The PEM document that holds the key `bytes`.
pub fn key_document(bytes: &[u8]) -> (r: Result<String, String>)
    ensures
        match pem_encoded(KEY_LABEL@, bytes@) {
            Ok(pem) => r matches Ok(text) && text@ == pem,
            Err(fault) => r matches Err(text) && text@ == encode_failure(fault),
        },
{
    match pem_encode(KEY_LABEL, bytes) {
        Ok(pem) => Ok(pem),
        Err(fault) => Err(crate::text::concat2("Failed to encode key: ", fault.as_str())),
    }
}

/// Whether `r` is what writing the key `bytes` gives: the PEM document that
/// holds them under the label of the service's key, or why they cannot be
/// written.
pub open spec fn is_key_document(bytes: Seq<u8>, r: Result<String, String>) -> bool {
    match pem_encoded(KEY_LABEL@, bytes) {
        Ok(pem) => r matches Ok(text) && text@ == pem,
        Err(fault) => r matches Err(text) && text@ == encode_failure(fault),
    }
}

/// The PEM document to write for `key`: the document of the 32 bytes that
/// the key gives as its own.
pub fn save_key<T: SecretKeyHandler>(key: &T) -> (r: Result<String, String>)
    ensures
        exists|bytes: Seq<u8>| bytes.len() == 32 && #[trigger] is_key_document(bytes, r),
{
    let bytes = key.secret_bytes();
    let r = key_document(bytes.as_slice());
    assert(is_key_document(bytes@, r));
    r
}

/// What to do about the key file `file_path`.
#[derive(Clone, Copy, Debug, PartialEq, Eq, Structural)]
pub enum KeyPlan {
    /// The file is no PEM file: refuse it.
    Refuse,
    /// The file is there: read the key from it.
    Read,
    /// The file is not there: make a key and save it.
    Generate,
}

/// The detail of the error for a key file that is no PEM file.
pub open spec fn not_a_pem_file() -> Seq<char> {
    "Not a '.pem' file extension"@
}

/// What `get_key` does about the key file `file_path`, given whether the
/// file is there.
pub fn key_plan(file_path: &str, present: bool) -> (plan: KeyPlan)
    ensures
        plan == if path_extension(file_path@) != Some("pem"@) {
            KeyPlan::Refuse
        } else if present {
            KeyPlan::Read
        } else {
            KeyPlan::Generate
        },
{
    if !is_pem_file(file_path) {
        KeyPlan::Refuse
    } else if present {
        KeyPlan::Read
    } else {
        KeyPlan::Generate
    }
}

/// A new key.
pub fn generate_new_key<T: SecretKeyHandler>() -> T {
    let mut rng = thread_generator();
    T::new(&mut rng)
}

/// Whether `r` is what making a key file for the key `bytes` gives: the new
/// key with the document of its bytes to write to the file, or why the bytes
/// cannot be written.
pub open spec fn is_new_key_file<T>(bytes: Seq<u8>, r: Result<(T, Option<String>), String>)
    -> bool {
    match r {
        Ok(made) => made.1 matches Some(document) && is_key_document(
            bytes,
            Ok::<String, String>(document),
        ),
        Err(why) => is_key_document(bytes, Err::<String, String>(why)),
    }
}

/// The key kept in the file `file_path`, whose content is `existing` where
/// the file is there. Where it is not, a new key is made, and returned with
/// the document to write to the file: the document of the 32 bytes that the
/// key gives as its own. That fails only where those bytes cannot be
/// written. A file that is no PEM file is refused.
pub fn get_key<T: SecretKeyHandler>(file_path: &str, existing: Option<&str>) -> (r: Result<
    (T, Option<String>),
    String,
>)
    ensures
        path_extension(file_path@) != Some("pem"@) ==> (r matches Err(text) && text@
            == not_a_pem_file()),
        path_extension(file_path@) == Some("pem"@) ==> match existing {
            Some(pem) => {
                &&& r matches Ok(found) ==> found.1 is None
                &&& key_refusal(pem@) matches Some(why) ==> (r matches Err(text) && text@ == why)
            },
            None => exists|bytes: Seq<u8>|
                bytes.len() == 32 && #[trigger] is_new_key_file(bytes, r),
        },
{
    match key_plan(file_path, existing.is_some()) {
        KeyPlan::Refuse => Err(String::from_str("Not a '.pem' file extension")),
        KeyPlan::Read => match existing {
            Some(pem) => match read_key(pem) {
                Ok(key) => Ok((key, None)),
                Err(fault) => Err(fault),
            },
            None => Err(String::from_str("Not a '.pem' file extension")),
        },
        KeyPlan::Generate => {
            let key: T = generate_new_key();
            let saved = save_key(&key);
            let ghost bytes = choose|bytes: Seq<u8>|
                bytes.len() == 32 && #[trigger] is_key_document(bytes, saved);
            let r = match saved {
                Ok(pem) => Ok((key, Some(pem))),
                Err(fault) => Err(fault),
            };
            assert(is_new_key_file(bytes, r));
            r
        },
    }
}

} // verus!
