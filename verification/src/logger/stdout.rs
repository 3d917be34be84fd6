//! Writing kept statuses to the standard output.
use crate::status::Status;
use nanohtml2text::html2text;
use vstd::prelude::*;

verus! {

/// The plain text that nanohtml2text's `html2text` makes of the HTML `html`.
pub uninterp spec fn html_text_of(html: Seq<char>) -> Seq<char>;

/// `html2text` of nanohtml2text.  Claims only that the result is the text named
/// by `html_text_of`.
#[verifier::external_body]
fn plain_text(html: &str) -> (res: String)
    ensures
        res@ == html_text_of(html@),
{
    html2text(html)
}

/// The text under which a status is shown: the plain content that the server
/// gives, else the HTML content turned into plain text.
pub open spec fn shown_content(status: Status) -> Seq<char> {
    match status.plain_content {
        Some(text) => text@,
        None => html_text_of(status.content@),
    }
}

/// The entry written for `status`.
pub open spec fn stdout_entry(status: Status) -> Seq<char> {
    "==========\nName: "@ + status.account.display_name@ + " ("@ + status.account.acct@
        + ")\nContent:\n"@ + shown_content(status) + "\nURL: "@ + status.uri@
}

/// Writes kept statuses to the standard output.
pub struct StdoutLogger {}

impl StdoutLogger {
    pub fn new() -> (res: Self) {
        StdoutLogger {  }
    }

    /// The entry to write for `status`, one line per field.
    pub fn log(&self, status: &Status) -> (res: String)
        ensures
            res@ == stdout_entry(*status),
    {
        let content = match &status.plain_content {
            Some(text) => text.clone(),
            None => plain_text(status.content.as_str()),
        };
        let mut res = String::from_str("==========\nName: ");
        res.append(status.account.display_name.as_str());
        res.append(" (");
        res.append(status.account.acct.as_str());
        res.append(")\nContent:\n");
        res.append(content.as_str());
        res.append("\nURL: ");
        res.append(status.uri.as_str());
        res
    }
}

} // verus!
