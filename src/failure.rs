use vstd::prelude::*;
use vstd::string::StrSliceExecFns;
use vstd::string::StringExecFns;
use vstd::string::StringSliceAdditionalSpecFns;
use vstd::utf8::encode_utf8;

verus! {

/// The document-type marker of an HTML page, in lower case.
pub open spec fn html_marker() -> Seq<u8> {
    seq![60u8, 33u8, 100u8, 111u8, 99u8, 116u8, 121u8, 112u8, 101u8, 32u8, 104u8, 116u8, 109u8, 108u8, 62u8]
}

/// An ASCII upper-case letter turned to lower case; any other byte unchanged.
pub open spec fn ascii_lower(b: u8) -> u8 {
    if 65 <= b <= 90 {
        (b + 32) as u8
    } else {
        b
    }
}

/// True when the marker stands in `text` at position `i`, letters compared
/// without regard to case.
pub open spec fn marker_at(text: Seq<u8>, i: int) -> bool {
    0 <= i && i + html_marker().len() <= text.len() && forall|j: int|
        0 <= j < html_marker().len() ==> ascii_lower(#[trigger] text[i + j]) == html_marker()[j]
}

/// True when the text holds an HTML document-type marker anywhere.
pub open spec fn has_html_marker(text: Seq<u8>) -> bool {
    exists|i: int| marker_at(text, i)
}

const MARKER: [u8; 15] = [60, 33, 100, 111, 99, 116, 121, 112, 101, 32, 104, 116, 109, 108, 62];

fn lower(b: u8) -> (r: u8)
    ensures
        r == ascii_lower(b),
{
    if 65 <= b && b <= 90 {
        b + 32
    } else {
        b
    }
}

fn marker_at_exec(text: &[u8], i: usize) -> (r: bool)
    requires
        i + 15 <= text@.len(),
    ensures
        r == marker_at(text@, i as int),
{
    let marker = MARKER;
    let n = text.len();
    assert(marker@ =~= html_marker());
    let mut j: usize = 0;
    while j < 15
        invariant
            j <= 15,
            n == text@.len(),
            i + 15 <= text@.len(),
            marker@ == html_marker(),
            forall|k: int| 0 <= k < j ==> ascii_lower(#[trigger] text@[i + k]) == html_marker()[k],
        decreases 15 - j,
    {
        if lower(text[i + j]) != marker[j] {
            return false;
        }
        j = j + 1;
    }
    true
}

/// True when the UTF-8 text of an error holds an HTML document-type marker,
/// ASCII letters compared without regard to case.
pub fn is_html_error(text: &str) -> (r: bool)
    ensures
        r == has_html_marker(encode_utf8(text@)),
{
    let b = text.as_bytes();
    let n = b.len();
    if n < 15 {
        assert forall|i: int| !marker_at(b@, i) by {}
        return false;
    }
    let mut i: usize = 0;
    while i <= n - 15
        invariant
            n == b@.len(),
            b@ == text.spec_bytes(),
            15 <= n,
            i <= n - 14,
            forall|k: int| 0 <= k < i ==> !marker_at(b@, k),
        decreases n - i,
    {
        if marker_at_exec(b, i) {
            return true;
        }
        i = i + 1;
    }
    assert forall|k: int| !marker_at(b@, k) by {
        if 0 <= k < i {
        }
    }
    false
}

/// What to do with a request that failed: an HTML page is written to the
/// diagnostic file and pointed to; any other error is reported as it is.
pub enum FailurePlan {
    WriteDiagnostic { contents: String },
    Report { message: String },
}

/// Decides how a failed request is presented.
pub fn plan_failure(text: String) -> (r: FailurePlan)
    ensures
        r is WriteDiagnostic <==> has_html_marker(encode_utf8(text@)),
        r matches FailurePlan::WriteDiagnostic { contents } ==> contents@ == text@,
        r matches FailurePlan::Report { message } ==> message@ == text@,
{
    if is_html_error(text.as_str()) {
        FailurePlan::WriteDiagnostic { contents: text }
    } else {
        FailurePlan::Report { message: text }
    }
}

/// The prefix that marks an extended-length path on some systems.
pub open spec fn verbatim_prefix() -> Seq<char> {
    seq!['\\', '\\', '?', '\\']
}

/// The path with an extended-length prefix, if any, taken off.
pub open spec fn plain_path(p: Seq<char>) -> Seq<char> {
    if p.len() >= 4 && p.subrange(0, 4) == verbatim_prefix() {
        p.subrange(4, p.len() as int)
    } else {
        p
    }
}

/// The text that leads the message pointing to a diagnostic file.
pub open spec fn diagnostic_lead() -> Seq<char> {
    "Faced an error encoded in html. View it here: file:///"@
}

/// The fatal message that points to the diagnostic file at `path`.
pub open spec fn diagnostic_message(path: Seq<char>) -> Seq<char> {
    diagnostic_lead() + plain_path(path)
}

/// The fatal message of a failed request. `diagnostic_path` is where the
/// diagnostic file was written, as an absolute path, or `None` where it was
/// not written or its path could not be resolved: the error is then reported
/// as it is.
pub fn failure_message(text: &str, diagnostic_path: Option<&str>) -> (r: String)
    ensures
        r@ == (match diagnostic_path {
            Some(p) => diagnostic_message(p@),
            None => text@,
        }),
{
    match diagnostic_path {
        Some(p) => {
            let n = p.unicode_len();
            let lead = String::from_str("Faced an error encoded in html. View it here: file:///");
            let verbatim = n >= 4 && p.get_char(0) == '\\' && p.get_char(1) == '\\' && p.get_char(
                2,
            ) == '?' && p.get_char(3) == '\\';
            proof {
                if n >= 4 {
                    assert(verbatim == (p@.subrange(0, 4) =~= verbatim_prefix()));
                }
            }
            let rest = if verbatim {
                p.substring_char(4, n)
            } else {
                p
            };
            lead.concat(rest)
        },
        None => String::from_str(text),
    }
}

} // verus!
