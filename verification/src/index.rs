//! The bootstrap document: decoded once at startup, with its asset references
//! rewritten to go through the local resource protocol.

use vstd::prelude::*;
use vstd::utf8::{decode_utf8, encode_utf8, valid_utf8};

verus! {

/// Base address of the local resource protocol.
pub const BASE_URL: &'static str = "wry://localhost";

/// Matches the start of an asset reference that points below `/static`.
pub const ASSET_PATTERN: &'static str = "(href|src)=\"/static";

/// What an asset reference is rewritten to: the attribute that matched, then
/// the same target below the base address.
pub const ASSET_REPLACEMENT: &'static str = "$1=\"wry://localhost/static";

/// The page that stands in for a bootstrap document that is not valid UTF-8.
pub const INVALID_ENCODING_PAGE: &'static str =
    "<html><body>Error: Invalid HTML encoding</body></html>";

/// Why the shell cannot start.
#[derive(Debug, Clone, Copy, PartialEq, Eq, Structural)]
pub enum StartupError {
    /// The bootstrap document could not be read.
    MissingBootstrapDocument,
}

/// The result of `regex::Regex::replace_all` for the regex compiled from
/// `pattern`, applied to `haystack` with the replacement string
/// `replacement`; `None` where `regex::Regex::new` rejects the pattern.
pub uninterp spec fn regex_replaced(
    pattern: Seq<char>,
    haystack: Seq<char>,
    replacement: Seq<char>,
) -> Option<Seq<char>>;

/// Calls `regex::Regex::new` on `pattern` and, where it compiles,
/// `regex::Regex::replace_all` on `haystack` with `replacement`. Nothing is
/// claimed about the text that comes out beyond its name: it is whatever the
/// regex engine produces for these three strings.
#[verifier::external_body]
fn replace_all(pattern: &str, haystack: &str, replacement: &str) -> (r: Option<String>)
    ensures
        match r {
            Some(s) => regex_replaced(pattern@, haystack@, replacement@) == Some(s@),
            None => regex_replaced(pattern@, haystack@, replacement@) is None,
        },
{
    match regex::Regex::new(pattern) {
        Ok(re) => Some(re.replace_all(haystack, replacement).into_owned()),
        Err(_) => None,
    }
}

/// Calls `String::from_utf8`: succeeds exactly on valid UTF-8, and the string
/// that comes back encodes to the bytes that went in.
#[verifier::external_body]
fn string_from_utf8(bytes: Vec<u8>) -> (r: Option<String>)
    ensures
        r is Some <==> valid_utf8(bytes@),
        r matches Some(s) ==> encode_utf8(s@) == bytes@,
{
    String::from_utf8(bytes).ok()
}

/// The text of a bootstrap document given as raw bytes.
pub open spec fn document_text(bytes: Seq<u8>) -> Seq<char> {
    if valid_utf8(bytes) {
        decode_utf8(bytes)
    } else {
        INVALID_ENCODING_PAGE@
    }
}

/// The text that is served, given what the rewrite of `text` produced.
pub open spec fn served_text(text: Seq<char>, rewritten: Option<Seq<char>>) -> Seq<char> {
    match rewritten {
        Some(s) => s,
        None => text,
    }
}

/// The served text of a bootstrap document given as raw bytes.
pub open spec fn index_text(bytes: Seq<u8>) -> Seq<char> {
    served_text(
        document_text(bytes),
        regex_replaced(ASSET_PATTERN@, document_text(bytes), ASSET_REPLACEMENT@),
    )
}

/// Decodes the bootstrap document, substituting a fixed error page where the
/// bytes are not valid UTF-8.
pub fn decode_document(bytes: Vec<u8>) -> (text: String)
    ensures
        text@ == document_text(bytes@),
{
    match string_from_utf8(bytes) {
        Some(s) => {
            proof {
                vstd::utf8::encode_utf8_decode_utf8(s@);
            }
            s
        },
        None => String::from_str(INVALID_ENCODING_PAGE),
    }
}

/// Picks the rewritten text where the rewrite ran, and keeps the document as
/// it is where the pattern was rejected.
pub fn choose_served(text: String, rewritten: Option<String>) -> (served: String)
    ensures
        served@ == served_text(
            text@,
            match rewritten {
                Some(s) => Some(s@),
                None => None,
            },
        ),
{
    match rewritten {
        Some(s) => s,
        None => text,
    }
}

/// The shell's bootstrap HTML, ready to be served for the root path.
pub struct IndexDocument {
    html: String,
}

impl View for IndexDocument {
    type V = Seq<char>;

    closed spec fn view(&self) -> Seq<char> {
        self.html@
    }
}

impl IndexDocument {
    /// Builds the document from the bytes of the packaged file: decodes them
    /// and routes every asset reference below `/static` through `BASE_URL`.
    pub fn from_bytes(bytes: Vec<u8>) -> (doc: IndexDocument)
        ensures
            doc@ == index_text(bytes@),
    {
        let text = decode_document(bytes);
        let rewritten = replace_all(ASSET_PATTERN, text.as_str(), ASSET_REPLACEMENT);
        IndexDocument { html: choose_served(text, rewritten) }
    }

    /// Startup policy: the document is required, so a file that could not be
    /// read is an error and nothing is served in its place.
    pub fn load(read: Option<Vec<u8>>) -> (r: Result<IndexDocument, StartupError>)
        ensures
            match read {
                Some(bytes) => r matches Ok(doc) && doc@ == index_text(bytes@),
                None => r matches Err(e) && e == StartupError::MissingBootstrapDocument,
            },
    {
        match read {
            Some(bytes) => Ok(IndexDocument::from_bytes(bytes)),
            None => Err(StartupError::MissingBootstrapDocument),
        }
    }

    /// The document's text.
    pub fn as_str(&self) -> (s: &str)
        ensures
            s@ == self@,
    {
        self.html.as_str()
    }

    /// The document's text as the bytes of a response body.
    pub fn to_bytes(&self) -> (body: Vec<u8>)
        ensures
            body@ == encode_utf8(self@),
    {
        self.html.as_str().as_bytes_vec()
    }
}

} // verus!
