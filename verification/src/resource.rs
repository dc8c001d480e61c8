//! The local resource server: maps a request path of the custom protocol to an
//! HTTP-shaped response, and never lets a request leave the installation
//! directory.
//!
//! The server itself does no I/O. A request is answered in up to three steps,
//! and the caller performs the filesystem access between them:
//! [`begin`] answers at once or hands out a request whose path has to be
//! canonicalized,
//! [`authorize`] decides whether the canonical path may be read, and
//! [`complete`] turns the outcome of the read into the response.

use vstd::prelude::*;
use vstd::utf8::encode_utf8;
use crate::index::IndexDocument;
use crate::text::{chars_of, contains, ends_with, has_infix, has_suffix, occurs_at};

verus! {

/// The content types the server can announce.
#[derive(Debug, Clone, Copy, PartialEq, Eq, Structural)]
pub enum ContentType {
    Html,
    JavaScript,
    Css,
    Json,
    Png,
    Svg,
    OctetStream,
    PlainText,
}

impl ContentType {
    /// The header value, as a sequence of characters.
    pub open spec fn name(self) -> Seq<char> {
        match self {
            ContentType::Html => "text/html"@,
            ContentType::JavaScript => "text/javascript"@,
            ContentType::Css => "text/css"@,
            ContentType::Json => "application/json"@,
            ContentType::Png => "image/png"@,
            ContentType::Svg => "image/svg+xml"@,
            ContentType::OctetStream => "application/octet-stream"@,
            ContentType::PlainText => "text/plain"@,
        }
    }

    /// The header value.
    pub fn as_str(&self) -> (s: &'static str)
        ensures
            s@ == self.name(),
    {
        match self {
            ContentType::Html => "text/html",
            ContentType::JavaScript => "text/javascript",
            ContentType::Css => "text/css",
            ContentType::Json => "application/json",
            ContentType::Png => "image/png",
            ContentType::Svg => "image/svg+xml",
            ContentType::OctetStream => "application/octet-stream",
            ContentType::PlainText => "text/plain",
        }
    }
}

/// A response of the resource server.
#[derive(Debug)]
pub struct ResourceResponse {
    pub status: u16,
    pub content_type: ContentType,
    pub body: Vec<u8>,
}

/// What a response holds, as mathematical values.
pub struct ResponseView {
    pub status: int,
    pub content_type: ContentType,
    pub body: Seq<u8>,
}

impl View for ResourceResponse {
    type V = ResponseView;

    open spec fn view(&self) -> ResponseView {
        ResponseView {
            status: self.status as int,
            content_type: self.content_type,
            body: self.body@,
        }
    }
}

/// A canonical filesystem path, one string per component, root first.
#[derive(Debug)]
pub struct CanonicalPath {
    pub components: Vec<String>,
}

impl View for CanonicalPath {
    type V = Seq<Seq<char>>;

    open spec fn view(&self) -> Seq<Seq<char>> {
        Seq::new(self.components@.len(), |i: int| self.components@[i]@)
    }
}

/// A request path that passed validation: it holds no parent-directory
/// sequence and no null byte. Only [`begin`] and [`ResourceRequest::new`]
/// make one, so a file is only ever read for a path that was checked.
#[derive(Debug)]
pub struct ResourceRequest {
    path: String,
}

impl View for ResourceRequest {
    type V = Seq<char>;

    closed spec fn view(&self) -> Seq<char> {
        self.path@
    }
}

/// The first step of answering a request.
#[derive(Debug)]
pub enum Lookup {
    /// The request is answered without touching the filesystem.
    Respond(ResourceResponse),
    /// The request names a file: its path relative to the installation
    /// directory has to be canonicalized before anything is read.
    Resolve(ResourceRequest),
}

/// The request is for the bootstrap document.
pub open spec fn is_root(path: Seq<char>) -> bool {
    path == seq!['/']
}

/// The path holds a parent-directory sequence or a null byte.
pub open spec fn is_unsafe(path: Seq<char>) -> bool {
    has_infix(path, ".."@) || has_infix(path, seq!['\0'])
}

/// The request path without its leading character.
pub open spec fn relative_part(path: Seq<char>) -> Seq<char> {
    if path.len() == 0 {
        path
    } else {
        path.subrange(1, path.len() as int)
    }
}

/// The fixed mapping from a path's extension to its content type.
pub open spec fn content_type_of(path: Seq<char>) -> ContentType {
    if has_suffix(path, ".html"@) || is_root(path) {
        ContentType::Html
    } else if has_suffix(path, ".js"@) {
        ContentType::JavaScript
    } else if has_suffix(path, ".css"@) {
        ContentType::Css
    } else if has_suffix(path, ".json"@) {
        ContentType::Json
    } else if has_suffix(path, ".png"@) {
        ContentType::Png
    } else if has_suffix(path, ".svg"@) {
        ContentType::Svg
    } else {
        ContentType::OctetStream
    }
}

/// The answer to a path that is refused before any filesystem access.
pub open spec fn bad_request() -> ResponseView {
    ResponseView {
        status: 400,
        content_type: ContentType::PlainText,
        body: encode_utf8("Bad Request"@),
    }
}

/// The answer to a path that does not resolve into the installation directory.
pub open spec fn forbidden() -> ResponseView {
    ResponseView {
        status: 403,
        content_type: ContentType::PlainText,
        body: encode_utf8("Forbidden"@),
    }
}

/// The answer to a file that could not be read; `reason` is the diagnostic.
pub open spec fn not_found(reason: Seq<char>) -> ResponseView {
    ResponseView {
        status: 404,
        content_type: ContentType::Html,
        body: encode_utf8("<h1>404</h1><p>File not found: "@ + reason + "</p>"@),
    }
}

/// The answer that carries the bootstrap document.
pub open spec fn index_page(html: Seq<char>) -> ResponseView {
    ResponseView { status: 200, content_type: ContentType::Html, body: encode_utf8(html) }
}

/// The answer that carries a file's bytes.
pub open spec fn found(path: Seq<char>, bytes: Seq<u8>) -> ResponseView {
    ResponseView { status: 200, content_type: content_type_of(path), body: bytes }
}

/// `path` lies in the directory `root` or below it, component by component.
pub open spec fn lies_within(path: Seq<Seq<char>>, root: Seq<Seq<char>>) -> bool {
    root.is_prefix_of(path)
}

/// A [`Lookup`] as a mathematical value.
pub enum LookupView {
    Respond(ResponseView),
    Resolve(Seq<char>),
}

impl View for Lookup {
    type V = LookupView;

    open spec fn view(&self) -> LookupView {
        match self {
            Lookup::Respond(r) => LookupView::Respond(r@),
            Lookup::Resolve(request) => LookupView::Resolve(request@),
        }
    }
}

/// The outcome of canonicalizing a path, as a mathematical value.
pub open spec fn path_view(canonical: Option<&CanonicalPath>) -> Option<Seq<Seq<char>>> {
    match canonical {
        Some(p) => Some(p@),
        None => None,
    }
}

/// The outcome of reading a file, as a mathematical value.
pub open spec fn read_view(read: Result<Vec<u8>, String>) -> Result<Seq<u8>, Seq<char>> {
    match read {
        Ok(bytes) => Ok(bytes@),
        Err(reason) => Err(reason@),
    }
}

/// The first step for a request path: an unsafe path is refused, the root
/// path is answered with the bootstrap document `html`, and any other path
/// becomes a request for a file.
pub open spec fn first_step(path: Seq<char>, html: Seq<char>) -> LookupView {
    if is_unsafe(path) {
        LookupView::Respond(bad_request())
    } else if is_root(path) {
        LookupView::Respond(index_page(html))
    } else {
        LookupView::Resolve(path)
    }
}

/// The refusal of a path that failed to canonicalize (`None`) or whose
/// canonical form lies outside `root`; `None` where the file may be read.
pub open spec fn refusal(canonical: Option<Seq<Seq<char>>>, root: Seq<Seq<char>>) -> Option<
    ResponseView,
> {
    match canonical {
        Some(p) if lies_within(p, root) => None,
        _ => Some(forbidden()),
    }
}

/// The answer for a file that was allowed to be read, given the outcome of
/// the read: the file's bytes, or the diagnostic of the failure.
pub open spec fn outcome(path: Seq<char>, read: Result<Seq<u8>, Seq<char>>) -> ResponseView {
    match read {
        Ok(bytes) => found(path, bytes),
        Err(reason) => not_found(reason),
    }
}

/// The answer to a request as a whole, given what the filesystem would say:
/// `canonical` for the canonical form of the requested path, `read` for the
/// outcome of reading it. Each is consulted only where the step before it
/// did not answer.
pub open spec fn response_to(
    path: Seq<char>,
    html: Seq<char>,
    root: Seq<Seq<char>>,
    canonical: Option<Seq<Seq<char>>>,
    read: Result<Seq<u8>, Seq<char>>,
) -> ResponseView {
    match first_step(path, html) {
        LookupView::Respond(r) => r,
        LookupView::Resolve(_) => match refusal(canonical, root) {
            Some(r) => r,
            None => outcome(path, read),
        },
    }
}

fn text_response(status: u16, content_type: ContentType, text: &str) -> (r: ResourceResponse)
    ensures
        r@ == (ResponseView { status: status as int, content_type, body: encode_utf8(text@) }),
{
    ResourceResponse { status, content_type, body: text.as_bytes_vec() }
}

/// Whether the request path must be refused outright.
pub fn is_unsafe_path(path: &str) -> (b: bool)
    ensures
        b == is_unsafe(path@),
{
    let chars = chars_of(path);
    let dots = chars_of("..");
    let nul: Vec<char> = vec!['\0'];
    assert(nul@ =~= seq!['\0']);
    contains(chars.as_slice(), dots.as_slice()) || contains(chars.as_slice(), nul.as_slice())
}

/// The content type announced for `path`, from its extension alone.
pub fn content_type_for(path: &str) -> (t: ContentType)
    ensures
        t == content_type_of(path@),
{
    let chars = chars_of(path);
    let p = chars.as_slice();
    if ends_with(p, chars_of(".html").as_slice()) || (p.len() == 1 && p[0] == '/') {
        assert(is_root(path@) <==> (p@.len() == 1 && p@[0] == '/')) by {
            if p@.len() == 1 && p@[0] == '/' {
                assert(path@ =~= seq!['/']);
            }
        }
        ContentType::Html
    } else if ends_with(p, chars_of(".js").as_slice()) {
        ContentType::JavaScript
    } else if ends_with(p, chars_of(".css").as_slice()) {
        ContentType::Css
    } else if ends_with(p, chars_of(".json").as_slice()) {
        ContentType::Json
    } else if ends_with(p, chars_of(".png").as_slice()) {
        ContentType::Png
    } else if ends_with(p, chars_of(".svg").as_slice()) {
        ContentType::Svg
    } else {
        ContentType::OctetStream
    }
}

impl ResourceRequest {
    #[verifier::type_invariant]
    spec fn checked(&self) -> bool {
        !is_unsafe(self.path@)
    }

    /// Validates a request path; `None` for a path that must be refused.
    pub fn new(path: &str) -> (r: Option<ResourceRequest>)
        ensures
            match r {
                Some(request) => !is_unsafe(path@) && request@ == path@,
                None => is_unsafe(path@),
            },
    {
        if is_unsafe_path(path) {
            None
        } else {
            Some(ResourceRequest { path: String::from_str(path) })
        }
    }

    /// The request path as it was received.
    pub fn path(&self) -> (p: &str)
        ensures
            p@ == self@,
            !is_unsafe(self@),
    {
        proof {
            use_type_invariant(self);
        }
        self.path.as_str()
    }

    /// Whether the request is for the bootstrap document.
    pub fn is_root(&self) -> (b: bool)
        ensures
            b == is_root(self@),
    {
        let p = self.path.as_str();
        let root = p.unicode_len() == 1 && p.get_char(0) == '/';
        assert(root ==> p@ =~= seq!['/']);
        root
    }

    /// The path to resolve below the installation directory: the request
    /// path without its leading character.
    pub fn relative(&self) -> (rel: String)
        ensures
            rel@ == relative_part(self@),
    {
        let p = self.path.as_str();
        let n: usize = p.unicode_len();
        if n == 0 {
            String::from_str(p)
        } else {
            String::from_str(p.substring_char(1, n))
        }
    }
}

/// First step: refuses an unsafe path with 400, answers the root path with the
/// bootstrap document, and turns every other path into a request for a file.
/// Only the last case leads to the filesystem.
pub fn begin(path: &str, index: &IndexDocument) -> (step: Lookup)
    ensures
        step@ == first_step(path@, index@),
{
    match ResourceRequest::new(path) {
        None => Lookup::Respond(text_response(400, ContentType::PlainText, "Bad Request")),
        Some(request) => {
            if request.is_root() {
                Lookup::Respond(
                    ResourceResponse {
                        status: 200,
                        content_type: ContentType::Html,
                        body: index.to_bytes(),
                    },
                )
            } else {
                Lookup::Resolve(request)
            }
        },
    }
}

/// Whether `path` lies in `root` or below it.
pub fn is_within(path: &CanonicalPath, root: &CanonicalPath) -> (b: bool)
    ensures
        b == lies_within(path@, root@),
{
    let n: usize = root.components.len();
    if n > path.components.len() {
        return false;
    }
    let mut i: usize = 0;
    while i < n
        invariant
            n == root.components@.len(),
            n <= path.components@.len(),
            i <= n,
            forall|j: int| 0 <= j < i ==> path@[j] == root@[j],
        decreases n - i,
    {
        if path.components[i] != root.components[i] {
            assert(path@.subrange(0, n as int)[i as int] != root@[i as int]);
            return false;
        }
        i = i + 1;
    }
    assert(root@ =~= path@.subrange(0, n as int));
    true
}

/// Second step: `canonical` is what canonicalizing the requested path gave,
/// `None` where it failed. Answers 403 unless the canonical path lies within
/// `root`; `None` means the file may be read.
pub fn authorize(canonical: Option<&CanonicalPath>, root: &CanonicalPath) -> (refused: Option<
    ResourceResponse,
>)
    ensures
        match refused {
            Some(r) => refusal(path_view(canonical), root@) == Some(r@),
            None => refusal(path_view(canonical), root@) is None,
        },
{
    match canonical {
        Some(p) => {
            if is_within(p, root) {
                None
            } else {
                Some(text_response(403, ContentType::PlainText, "Forbidden"))
            }
        },
        None => Some(text_response(403, ContentType::PlainText, "Forbidden")),
    }
}

/// Third step: `read` is the outcome of reading the file that `request`
/// resolved to, its bytes or the diagnostic of the failure.
pub fn complete(request: &ResourceRequest, read: Result<Vec<u8>, String>) -> (r: ResourceResponse)
    ensures
        r@ == outcome(request@, read_view(read)),
        !is_unsafe(request@),
{
    match read {
        Ok(bytes) => ResourceResponse {
            status: 200,
            content_type: content_type_for(request.path()),
            body: bytes,
        },
        Err(reason) => {
            proof {
                use_type_invariant(request);
            }
            let mut page = String::from_str("<h1>404</h1><p>File not found: ");
            page.append(reason.as_str());
            page.append("</p>");
            text_response(404, ContentType::Html, page.as_str())
        },
    }
}

/// The root path is never refused as unsafe.
pub proof fn lemma_root_is_safe(path: Seq<char>)
    requires
        is_root(path),
    ensures
        !is_unsafe(path),
{
    reveal_strlit("..");
    assert forall|at: int| !occurs_at(path, ".."@, at) by {}
    assert forall|at: int| !occurs_at(path, seq!['\0'], at) by {
        if occurs_at(path, seq!['\0'], at) {
            assert(path.subrange(at, at + 1)[0] == path[at]);
        }
    }
}

/// A path that holds `..` or a null byte is answered with 400 whatever the
/// filesystem holds: the first step answers it, so nothing is resolved or
/// read.
pub proof fn lemma_unsafe_path_is_refused(
    path: Seq<char>,
    html: Seq<char>,
    root: Seq<Seq<char>>,
    canonical: Option<Seq<Seq<char>>>,
    read: Result<Seq<u8>, Seq<char>>,
)
    requires
        is_unsafe(path),
    ensures
        first_step(path, html) == LookupView::Respond(bad_request()),
        response_to(path, html, root, canonical, read) == bad_request(),
        response_to(path, html, root, canonical, read).status == 400,
{
}

/// The root path is answered with the bootstrap document, status 200 and
/// content type `text/html`, whatever the filesystem holds.
pub proof fn lemma_root_is_served(
    path: Seq<char>,
    html: Seq<char>,
    root: Seq<Seq<char>>,
    canonical: Option<Seq<Seq<char>>>,
    read: Result<Seq<u8>, Seq<char>>,
)
    requires
        is_root(path),
    ensures
        first_step(path, html) == LookupView::Respond(index_page(html)),
        response_to(path, html, root, canonical, read) == index_page(html),
        response_to(path, html, root, canonical, read).status == 200,
        response_to(path, html, root, canonical, read).content_type.name() == "text/html"@,
{
    lemma_root_is_safe(path);
}

/// A path that is neither refused nor the root, and whose canonical form
/// lies outside the installation directory, is answered with 403 whatever a
/// read would give.
pub proof fn lemma_escape_is_forbidden(
    path: Seq<char>,
    html: Seq<char>,
    root: Seq<Seq<char>>,
    outside: Seq<Seq<char>>,
    read: Result<Seq<u8>, Seq<char>>,
)
    requires
        !is_unsafe(path),
        !is_root(path),
        !lies_within(outside, root),
    ensures
        response_to(path, html, root, Some(outside), read) == forbidden(),
        response_to(path, html, root, Some(outside), read).status == 403,
{
}

/// A response carries a file's bytes only if the file's canonical path lies
/// within the installation directory.
pub proof fn lemma_served_file_is_contained(
    path: Seq<char>,
    html: Seq<char>,
    root: Seq<Seq<char>>,
    canonical: Option<Seq<Seq<char>>>,
    bytes: Seq<u8>,
)
    requires
        !is_root(path),
        response_to(path, html, root, canonical, Ok(bytes)).status == 200,
    ensures
        canonical matches Some(p) && lies_within(p, root),
        !is_unsafe(path),
{
}

/// Two different extensions of the table never both end one path.
proof fn lemma_extensions_exclude(path: Seq<char>)
    ensures
        has_suffix(path, ".html"@) ==> path.len() >= 5 && path.last() == 'l',
        has_suffix(path, ".js"@) ==> path.len() >= 3 && path.last() == 's',
        has_suffix(path, ".css"@) ==> path.len() >= 4 && path.last() == 's' && path[path.len()
            - 2] == 's',
        has_suffix(path, ".json"@) ==> path.len() >= 5 && path.last() == 'n',
        has_suffix(path, ".png"@) ==> path.len() >= 4 && path.last() == 'g' && path[path.len()
            - 2] == 'n',
        has_suffix(path, ".svg"@) ==> path.len() >= 4 && path.last() == 'g' && path[path.len()
            - 2] == 'v',
        has_suffix(path, ".js"@) ==> path[path.len() - 2] == 'j',
{
    reveal_strlit(".html");
    reveal_strlit(".js");
    reveal_strlit(".css");
    reveal_strlit(".json");
    reveal_strlit(".png");
    reveal_strlit(".svg");
    let n = path.len() as int;
    if has_suffix(path, ".html"@) {
        assert(path.subrange(n - 5, n)[4] == 'l');
    }
    if has_suffix(path, ".js"@) {
        assert(path.subrange(n - 3, n)[2] == 's');
        assert(path.subrange(n - 3, n)[1] == 'j');
    }
    if has_suffix(path, ".css"@) {
        assert(path.subrange(n - 4, n)[3] == 's');
        assert(path.subrange(n - 4, n)[2] == 's');
    }
    if has_suffix(path, ".json"@) {
        assert(path.subrange(n - 5, n)[4] == 'n');
    }
    if has_suffix(path, ".png"@) {
        assert(path.subrange(n - 4, n)[3] == 'g');
        assert(path.subrange(n - 4, n)[2] == 'n');
    }
    if has_suffix(path, ".svg"@) {
        assert(path.subrange(n - 4, n)[3] == 'g');
        assert(path.subrange(n - 4, n)[2] == 'v');
    }
}

/// The content type is decided by the extension alone: each extension of the
/// table gives its own type, and a path with none of them, other than the
/// root path, is an octet stream.
pub proof fn lemma_extension_decides(path: Seq<char>)
    ensures
        has_suffix(path, ".html"@) ==> content_type_of(path) == ContentType::Html,
        has_suffix(path, ".js"@) ==> content_type_of(path) == ContentType::JavaScript,
        has_suffix(path, ".css"@) ==> content_type_of(path) == ContentType::Css,
        has_suffix(path, ".json"@) ==> content_type_of(path) == ContentType::Json,
        has_suffix(path, ".png"@) ==> content_type_of(path) == ContentType::Png,
        has_suffix(path, ".svg"@) ==> content_type_of(path) == ContentType::Svg,
        !has_suffix(path, ".html"@) && !has_suffix(path, ".js"@) && !has_suffix(path, ".css"@)
            && !has_suffix(path, ".json"@) && !has_suffix(path, ".png"@) && !has_suffix(
            path,
            ".svg"@,
        ) && !is_root(path) ==> content_type_of(path) == ContentType::OctetStream,
{
    lemma_extensions_exclude(path);
}

} // verus!
