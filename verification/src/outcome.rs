//! Classification of a finished export run: the error taxonomy, and the
//! decision that turns an exit status and captured output into a success or a
//! failure, compensating for the desktop application's habit of exiting with
//! status zero after printing an error message to stdout.

use vstd::prelude::*;
use vstd::string::StringExecFns;
use predicates::Predicate;
use crate::arguments::opt_view;

verus! {

/// How an export run can fail.
#[derive(Debug, PartialEq, Eq)]
pub enum ExportError {
    /// The application binary path does not exist; fatal at startup, found
    /// before any job runs. Carries the offending path.
    Configuration { path: String },
    /// The operating system could not start the subprocess at all; carries
    /// the attempted command line for diagnostics.
    Launch { command_line: String },
    /// The subprocess exited with failure status, or exited cleanly after
    /// printing an error message to stdout; carries the captured stderr text,
    /// or a note that it was undecodable.
    ExportFailure { stderr: String },
}

/// The decoded text of captured output bytes: present exactly when the bytes
/// are valid UTF-8.
pub open spec fn decoded_text(bytes: Seq<u8>) -> Option<Seq<char>> {
    if vstd::utf8::valid_utf8(bytes) {
        Some(vstd::utf8::decode_utf8(bytes))
    } else {
        None
    }
}

/// The literal the stdout heuristic scans for. The application sometimes
/// exits with status zero after printing such a message.
pub open spec fn error_marker() -> Seq<char> {
    "Error: "@
}

/// Whether the error marker occurs in `text` as a contiguous substring.
pub open spec fn contains_error_marker(text: Seq<char>) -> bool {
    exists|i: int|
        0 <= i && i + error_marker().len() <= text.len() && #[trigger] text.subrange(
            i,
            i + error_marker().len() as int,
        ) == error_marker()
}

/// Whether a finished run counts as a failure: only inspectable (decodable)
/// stdout can trip the heuristic, so undecodable stdout is a soft success,
/// and otherwise a run fails on a failing exit status or on the error marker
/// anywhere in stdout.
pub open spec fn is_export_failure(status_success: bool, stdout_text: Option<Seq<char>>) -> bool {
    match stdout_text {
        Some(text) => !status_success || contains_error_marker(text),
        None => false,
    }
}

/// The note reported in place of stderr when stderr itself is not valid text.
pub open spec fn undecodable_output_note() -> Seq<char> {
    "unreadable output"@
}

/// The detail reported with a failure: the decoded stderr text, or the fixed
/// note where stderr is undecodable.
pub open spec fn failure_detail(stderr_text: Option<Seq<char>>) -> Seq<char> {
    match stderr_text {
        Some(text) => text,
        None => undecodable_output_note(),
    }
}

/// Relies on String::from_utf8: it succeeds exactly on valid UTF-8 input, and
/// the returned string holds the decoded characters. The result depends on
/// the bytes alone.
#[verifier::external_body]
fn decode_output(bytes: Vec<u8>) -> (r: Option<String>)
    ensures
        r matches Some(text) ==> vstd::utf8::valid_utf8(bytes@) && text@ == vstd::utf8::decode_utf8(
            bytes@,
        ),
        r is None ==> !vstd::utf8::valid_utf8(bytes@),
{
    match String::from_utf8(bytes) {
        Ok(text) => Some(text),
        Err(_) => None,
    }
}

/// Relies on predicates::str::contains and predicates::Predicate::eval: the
/// built predicate reports whether its pattern occurs as a substring, here
/// the all-ASCII error marker, whose byte-level occurrences in valid UTF-8
/// coincide with its character-level occurrences.
#[verifier::external_body]
fn text_contains_error_marker(text: &String) -> (r: bool)
    ensures
        r == contains_error_marker(text@),
{
    predicates::str::contains("Error: ").eval(text.as_str())
}

/// Classifies a run whose captured output is already decoded: succeeds when
/// stdout is undecodable, and otherwise fails exactly on a failing exit
/// status or on the error marker anywhere in stdout, reporting the stderr
/// text (or the undecodable-output note) as the detail.
pub fn classify_decoded_output(
    status_success: bool,
    stdout_text: Option<String>,
    stderr_text: Option<String>,
) -> (r: Result<(), ExportError>)
    ensures
        r is Ok <==> !is_export_failure(status_success, opt_view(stdout_text)),
        r matches Err(e) ==> e matches ExportError::ExportFailure { stderr } && stderr@
            == failure_detail(opt_view(stderr_text)),
{
    match stdout_text {
        None => Ok(()),
        Some(text) => {
            if !status_success || text_contains_error_marker(&text) {
                let detail = match stderr_text {
                    Some(err_text) => err_text,
                    None => String::from_str("unreadable output"),
                };
                Err(ExportError::ExportFailure { stderr: detail })
            } else {
                Ok(())
            }
        },
    }
}

/// Classifies a finished run from its exit status and raw captured output
/// bytes, decoding both streams first.
pub fn classify_output(status_success: bool, stdout: Vec<u8>, stderr: Vec<u8>) -> (r: Result<
    (),
    ExportError,
>)
    ensures
        r is Ok <==> !is_export_failure(status_success, decoded_text(stdout@)),
        r matches Err(e) ==> e matches ExportError::ExportFailure { stderr: detail } && detail@
            == failure_detail(decoded_text(stderr@)),
{
    let stdout_text = decode_output(stdout);
    let stderr_text = decode_output(stderr);
    classify_decoded_output(status_success, stdout_text, stderr_text)
}

} // verus!
