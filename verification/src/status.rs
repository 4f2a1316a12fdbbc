//! Turning an HTTP error response into an error value.
//!
//! A status below 400 is a success. Otherwise the body, read as UTF-8 with
//! invalid sequences replaced, becomes the error message: an HTML page
//! (a body starting with `<!doctype`, in any case) is replaced by a short
//! note, since it most likely comes from a proxy, and a message longer than
//! 500 bytes is cut there and marked as truncated.

use vstd::prelude::*;
use vstd::string::StringSliceAdditionalSpecFns;
use vstd::string::StringExecFns;
use vstd::utf8::encode_utf8;
use vstd::utf8::decode_utf8;
use vstd::utf8::is_char_boundary;
use crate::errors::SaplingRemoteApiError;

verus! {

broadcast use vstd::utf8::group_utf8_lib;

/// Longest error message kept, in bytes.
pub const MAX_ERROR_MSG_LEN: usize = 500;

/// What `String::from_utf8_lossy` makes of the bytes.
pub uninterp spec fn utf8_lossy(bytes: Seq<u8>) -> Seq<char>;

/// What `str::to_lowercase` makes of the characters.
pub uninterp spec fn str_lowercase(s: Seq<char>) -> Seq<char>;

/// Calls `String::from_utf8_lossy`; the result is named by `utf8_lossy`.
/// As its documentation says, bytes that are valid UTF-8 come back as the
/// text they encode.
#[verifier::external_body]
fn lossy_string(body: &[u8]) -> (s: String)
    ensures
        s@ == utf8_lossy(body@),
        vstd::utf8::valid_utf8(body@) ==> s@ == vstd::utf8::decode_utf8(body@),
{
    String::from_utf8_lossy(body).into_owned()
}

/// Calls `str::to_lowercase`; the result is named by `str_lowercase`.
#[verifier::external_body]
fn lowercase(s: &str) -> (res: String)
    ensures
        res@ == str_lowercase(s@),
{
    s.to_lowercase()
}

/// Whether the status is a success, that is below 400.
pub open spec fn is_success(status: u16) -> bool {
    status < 400
}

/// Whether the message, by its first nine bytes, is an HTML page.
pub open spec fn is_html(message: Seq<char>) -> bool {
    let bytes = encode_utf8(message);
    bytes.len() >= 9 && str_lowercase(decode_utf8(bytes.subrange(0, 9))) == "<!doctype"@
}

/// The inputs on which shaping the message does not abort: the message is
/// cut at byte 9 for the HTML test and at byte 500 for truncation, and
/// both cuts must fall between characters.
pub open spec fn message_cuttable(message: Seq<char>) -> bool {
    let bytes = encode_utf8(message);
    &&& bytes.len() >= 9 ==> is_char_boundary(bytes, 9)
    &&& (!is_html(message) && bytes.len() > MAX_ERROR_MSG_LEN) ==> is_char_boundary(bytes, MAX_ERROR_MSG_LEN as int)
}

/// The message that an error carries for the given body text.
pub open spec fn shaped_message(message: Seq<char>) -> Seq<char> {
    let bytes = encode_utf8(message);
    if is_html(message) {
        "HTML content omitted (this error may have come from a proxy server)"@
    } else if bytes.len() > MAX_ERROR_MSG_LEN {
        decode_utf8(bytes.subrange(0, MAX_ERROR_MSG_LEN as int)) + "... (truncated)"@
    } else {
        message
    }
}

/// Whether a response with this status is passed on as a success.
pub fn status_is_success(status: u16) -> (r: bool)
    ensures
        r == is_success(status),
{
    status < 400
}

fn is_html_page(message: &str) -> (r: bool)
    requires
        message.spec_bytes().len() >= 9 ==> is_char_boundary(message.spec_bytes(), 9),
    ensures
        r == is_html(message@),
{
    if message.as_bytes().len() >= 9 {
        let (head, _rest) = message.split_at(9);
        proof {
            assert(decode_utf8(encode_utf8(head@)) == head@);
        }
        let lower = lowercase(head);
        let doctype = String::from_str("<!doctype");
        lower == doctype
    } else {
        false
    }
}

/// Shapes an error body's text into the error message.
pub fn error_message(message: &str) -> (res: String)
    requires
        message_cuttable(message@),
    ensures
        res@ == shaped_message(message@),
{
    if is_html_page(message) {
        String::from_str("HTML content omitted (this error may have come from a proxy server)")
    } else if message.as_bytes().len() > MAX_ERROR_MSG_LEN {
        let (head, _rest) = message.split_at(MAX_ERROR_MSG_LEN);
        proof {
            assert(decode_utf8(encode_utf8(head@)) == head@);
        }
        let mut cut = String::from_str(head);
        cut.append("... (truncated)");
        cut
    } else {
        String::from_str(message)
    }
}

/// Shapes an error body's text into the error message, or gives `None`
/// where the cuts would split a character.
pub fn checked_error_message(message: &str) -> (res: Option<String>)
    ensures
        match res {
            Some(m) => message_cuttable(message@) && m@ == shaped_message(message@),
            None => !message_cuttable(message@),
        },
{
    if message.as_bytes().len() >= 9 && !message.is_char_boundary(9) {
        return None;
    }
    if !is_html_page(message) && message.as_bytes().len() > MAX_ERROR_MSG_LEN && !message.is_char_boundary(MAX_ERROR_MSG_LEN) {
        return None;
    }
    Some(error_message(message))
}

/// Whether `e` is the HTTP error for this status, URL, headers and body text.
pub open spec fn is_http_error_for(e: SaplingRemoteApiError, status: u16, url: Seq<char>, headers: Seq<(String, Vec<u8>)>, text: Seq<char>) -> bool {
    e matches SaplingRemoteApiError::HttpError { status: s, message, headers: h, url: u }
        && s == status && message@ == shaped_message(text) && h@ == headers && u@ == url
}

/// The error for a response whose status is 400 or above, carrying the
/// status, the shaped body, the headers and the URL.
pub fn http_error(status: u16, url: String, headers: Vec<(String, Vec<u8>)>, body: &[u8]) -> (e: SaplingRemoteApiError)
    requires
        !is_success(status),
        message_cuttable(utf8_lossy(body@)),
    ensures
        is_http_error_for(e, status, url@, headers@, utf8_lossy(body@)),
{
    let text = lossy_string(body);
    let message = error_message(text.as_str());
    SaplingRemoteApiError::HttpError { status, message, headers, url }
}

/// The error for a response whose status is 400 or above, or `None` where
/// shaping its body would split a character.
pub fn checked_http_error(status: u16, url: String, headers: Vec<(String, Vec<u8>)>, body: &[u8]) -> (e: Option<SaplingRemoteApiError>)
    requires
        !is_success(status),
    ensures
        match e {
            Some(err) => message_cuttable(utf8_lossy(body@)) && is_http_error_for(err, status, url@, headers@, utf8_lossy(body@)),
            None => !message_cuttable(utf8_lossy(body@)),
        },
{
    let text = lossy_string(body);
    match checked_error_message(text.as_str()) {
        Some(_) => Some(http_error(status, url, headers, body)),
        None => None,
    }
}

proof fn lemma_encode_concat(a: Seq<char>, b: Seq<char>)
    ensures
        encode_utf8(a + b) == encode_utf8(a) + encode_utf8(b),
    decreases a.len(),
{
    if a.len() == 0 {
        assert(a + b =~= b);
        assert(encode_utf8(a) + encode_utf8(b) =~= encode_utf8(b));
    } else {
        assert((a + b).drop_first() =~= a.drop_first() + b);
        assert((a + b)[0] == a[0]);
        lemma_encode_concat(a.drop_first(), b);
        assert(encode_utf8(a + b) =~= encode_utf8(a) + encode_utf8(b));
    }
}

/// Error messages stay short: whatever the body, the message carried by an
/// HTTP error is at most 515 bytes, the 500 kept bytes and the
/// truncation mark.
pub proof fn lemma_message_is_short(message: Seq<char>)
    requires
        message_cuttable(message),
    ensures
        encode_utf8(shaped_message(message)).len() <= MAX_ERROR_MSG_LEN + 15,
{
    let bytes = encode_utf8(message);
    if is_html(message) {
        let note = "HTML content omitted (this error may have come from a proxy server)"@;
        reveal_strlit("HTML content omitted (this error may have come from a proxy server)");
        assert(vstd::utf8::is_ascii_chars(note));
        vstd::utf8::is_ascii_chars_encode_utf8(note);
    } else if bytes.len() > MAX_ERROR_MSG_LEN {
        let head = bytes.subrange(0, MAX_ERROR_MSG_LEN as int);
        let mark = "... (truncated)"@;
        reveal_strlit("... (truncated)");
        assert(vstd::utf8::is_ascii_chars(mark));
        vstd::utf8::is_ascii_chars_encode_utf8(mark);
        vstd::utf8::valid_utf8_split(bytes, MAX_ERROR_MSG_LEN as int);
        vstd::utf8::decode_utf8_encode_utf8(head);
        lemma_encode_concat(decode_utf8(head), mark);
    }
}

} // verus!
