//! Orchestration of the external GPU mode-switching tool.
//!
//! The tool itself is a separate installed program that the application
//! layer spawns.  Everything decidable without spawning lives here: the
//! allow-list check that keeps invalid modes from ever reaching the tool,
//! the messages reported for each outcome of an invocation, and the
//! parser for the tool's query output.

use vstd::prelude::*;

verus! {

use crate::text::{spec_trim, trim_bytes, spec_lower, lower_bytes, spec_find, find_bytes};
use crate::wire::{str_eq, string_from_utf8};
use vstd::slice::slice_subrange;
use vstd::string::StringExecFns;
use vstd::utf8::{valid_utf8, decode_utf8};

/// The fixed allow-list of modes the tool accepts.
pub open spec fn spec_valid_mode(mode: Seq<char>) -> bool {
    mode == "integrated"@ || mode == "hybrid"@ || mode == "nvidia"@
}

pub fn valid_mode(mode: &str) -> (r: bool)
    ensures
        r == spec_valid_mode(mode@),
{
    str_eq(mode, "integrated") || str_eq(mode, "hybrid") || str_eq(mode, "nvidia")
}

/// What to do for a mode-switch request: refuse it with a message, or
/// invoke the external tool.
pub enum SetModePlan {
    Reject { message: String },
    Invoke,
}

pub open spec fn spec_invalid_mode_message(mode: Seq<char>) -> Seq<char> {
    "Invalid mode '"@ + mode + "'. Use: integrated, hybrid, or nvidia"@
}

/// Decide a mode-switch request.  An invalid mode is rejected here, with
/// an explanatory message, and never reaches the external tool; exactly
/// the allow-listed modes lead to an invocation.
pub fn plan_set_mode(mode: &str) -> (r: SetModePlan)
    ensures
        match r {
            SetModePlan::Reject { message } => !spec_valid_mode(mode@) && message@
                == spec_invalid_mode_message(mode@),
            SetModePlan::Invoke => spec_valid_mode(mode@),
        },
{
    if valid_mode(mode) {
        SetModePlan::Invoke
    } else {
        let message = String::from_str("Invalid mode '").concat(mode).concat(
            "'. Use: integrated, hybrid, or nvidia",
        );
        SetModePlan::Reject { message }
    }
}

/// How an invocation of the external tool went: the spawn itself failed,
/// or the tool ran and exited, successfully or not, with its combined
/// output.
pub enum ToolOutcome {
    NotRun { error: String },
    Finished { success: bool, output: String },
}

pub open spec fn spec_set_mode_success_message(mode: Seq<char>) -> Seq<char> {
    "GPU mode set to '"@ + mode + "'. Logout required to take effect."@
}

pub open spec fn spec_set_mode_failed_message(output: Seq<char>) -> Seq<char> {
    "envycontrol failed: "@ + output
}

pub open spec fn spec_set_mode_not_run_message(error: Seq<char>) -> Seq<char> {
    "Failed to run envycontrol: "@ + error
}

/// The reply for a mode-switch request whose tool invocation ended as
/// `outcome`: success exactly when the tool ran and exited successfully,
/// and a message naming the mode on success, or carrying the tool's
/// output or the spawn error on failure.
pub fn set_mode_result(mode: &str, outcome: &ToolOutcome) -> (r: (bool, String))
    requires
        spec_valid_mode(mode@),
    ensures
        r.0 == (outcome matches ToolOutcome::Finished { success: true, .. }),
        r.1@ == (match outcome {
            ToolOutcome::Finished { success, output } => {
                if *success {
                    spec_set_mode_success_message(mode@)
                } else {
                    spec_set_mode_failed_message(output@)
                }
            },
            ToolOutcome::NotRun { error } => spec_set_mode_not_run_message(error@),
        }),
{
    match outcome {
        ToolOutcome::Finished { success, output } => {
            if *success {
                let msg = String::from_str("GPU mode set to '").concat(mode).concat(
                    "'. Logout required to take effect.",
                );
                (true, msg)
            } else {
                let msg = String::from_str("envycontrol failed: ").concat(output.as_str());
                (false, msg)
            }
        },
        ToolOutcome::NotRun { error } => {
            let msg = String::from_str("Failed to run envycontrol: ").concat(error.as_str());
            (false, msg)
        },
    }
}

// ---------------------------------------------------------------------------
// Parsing the tool's query output
// ---------------------------------------------------------------------------

/// The bytes of `"mode:"`.
pub open spec fn mode_marker() -> Seq<u8> {
    seq![109u8, 111u8, 100u8, 101u8, 58u8]
}

fn mode_marker_bytes() -> (r: Vec<u8>)
    ensures
        r@ == mode_marker(),
{
    let mut v: Vec<u8> = Vec::new();
    v.push(109);
    v.push(111);
    v.push(100);
    v.push(101);
    v.push(58);
    proof {
        assert(v@ =~= mode_marker());
    }
    v
}

/// The mode token in the tool's query output: the text after the first
/// `"mode:"` of the lower-cased output, up to the next `"mode:"` if any,
/// trimmed; when no `"mode:"` occurs, the whole lower-cased output,
/// trimmed.
pub open spec fn spec_mode_piece(out: Seq<u8>) -> Seq<u8> {
    let low = spec_lower(out);
    match spec_find(low, mode_marker()) {
        Some(i) => {
            let after = low.subrange(i + 5, low.len() as int);
            let end = match spec_find(after, mode_marker()) {
                Some(j) => j,
                None => after.len() as int,
            };
            spec_trim(after.subrange(0, end))
        },
        None => spec_trim(low),
    }
}

/// The mode reported by the tool's query output, `"unknown"` when the
/// token is not valid UTF-8.
pub open spec fn spec_parse_mode_query(out: Seq<u8>) -> Seq<char> {
    if valid_utf8(spec_mode_piece(out)) {
        decode_utf8(spec_mode_piece(out))
    } else {
        "unknown"@
    }
}

/// Extract the mode token from the raw query output of the tool.
pub fn parse_mode_query(out: &[u8]) -> (r: String)
    ensures
        r@ == spec_parse_mode_query(out@),
{
    let low = lower_bytes(out);
    let pat = mode_marker_bytes();
    proof {
        assert(pat@.len() == 5);
    }
    let n = low.len();
    let piece: Vec<u8> = match find_bytes(low.as_slice(), pat.as_slice()) {
        Some(i) => {
            let after = slice_subrange(low.as_slice(), i + 5, n);
            let end = match find_bytes(after, pat.as_slice()) {
                Some(j) => j,
                None => after.len(),
            };
            trim_bytes(slice_subrange(after, 0, end))
        },
        None => trim_bytes(low.as_slice()),
    };
    match string_from_utf8(piece) {
        Some(s) => s,
        None => String::from_str("unknown"),
    }
}

/// The mode reported for one query of the external tool: its output
/// parsed when it ran successfully, `"unknown"` otherwise.
pub fn mode_query_result(out: Option<&Vec<u8>>) -> (r: String)
    ensures
        r@ == (match out {
            Some(bytes) => spec_parse_mode_query(bytes@),
            None => "unknown"@,
        }),
{
    match out {
        Some(bytes) => parse_mode_query(bytes.as_slice()),
        None => String::from_str("unknown"),
    }
}

} // verus!
