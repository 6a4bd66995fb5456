use vstd::prelude::*;
use vstd::arithmetic::div_mod::lemma_mod_multiples_vanish;
use vstd::string::*;
use vstd::utf8::decode_utf8;
use vstd::utf8::valid_utf8;

use crate::codes::INTERNAL_ERROR;
use crate::codes::UNKNOWN_EXIT;

verus! {

/// What one invocation of the worker resolves to: the bytes it wrote on
/// success, or a status code and a diagnostic on failure.
pub enum Outcome {
    Success(Vec<u8>),
    Failure(u8, String),
}

pub enum OutcomeView {
    Success(Seq<u8>),
    Failure(u8, Seq<char>),
}

impl View for Outcome {
    type V = OutcomeView;

    open spec fn view(&self) -> OutcomeView {
        match self {
            Outcome::Success(out) => OutcomeView::Success(out@),
            Outcome::Failure(code, diagnostic) => OutcomeView::Failure(*code, diagnostic@),
        }
    }
}

/// The step of an invocation at which the host itself failed.
#[derive(Clone, Copy, Debug, PartialEq, Eq, Structural)]
pub enum Stage {
    Spawn,
    Write,
    Wait,
}

/// The text that opens the diagnostic of a failure at `stage`.
pub open spec fn stage_prefix(stage: Stage) -> Seq<char> {
    match stage {
        Stage::Spawn => "error spawning ATO_invoke: "@,
        Stage::Write => "error writing stdin of ATO_invoke: "@,
        Stage::Wait => "error waiting for ATO_invoke: "@,
    }
}

/// The text that opens the diagnostic of a worker that exited with failure.
pub open spec fn run_failure_prefix() -> Seq<char> {
    "error running ATO_invoke:\n"@
}

/// The text that `String::from_utf8_lossy` makes of `bytes`.
pub uninterp spec fn lossy_text(bytes: Seq<u8>) -> Seq<char>;

/// Relies on `String::from_utf8_lossy`: the result depends on the bytes
/// alone, and bytes that are valid UTF-8 come back as the text they encode.
#[verifier::external_body]
fn text_of_lossy(bytes: &[u8]) -> (r: String)
    ensures
        r@ == lossy_text(bytes@),
        valid_utf8(bytes@) ==> r@ == decode_utf8(bytes@),
{
    String::from_utf8_lossy(bytes).into_owned()
}

/// The 8-bit status code of a worker's exit code: its low eight bits, or
/// `UNKNOWN_EXIT` where the platform gave none.
pub open spec fn status_code_of(code: Option<i32>) -> u8 {
    match code {
        Some(c) => (c as int % 256) as u8,
        None => UNKNOWN_EXIT,
    }
}

/// The outcome of a worker that ran to its end with exit code `code`
/// (`None` where the platform reports none) after writing `stdout`.
pub open spec fn exit_outcome(code: Option<i32>, stdout: Seq<u8>) -> OutcomeView {
    if code == Some(0i32) {
        OutcomeView::Success(stdout)
    } else {
        OutcomeView::Failure(status_code_of(code), run_failure_prefix() + lossy_text(stdout))
    }
}

/// Narrows a worker's exit code to its status code.
pub fn status_code(code: Option<i32>) -> (s: u8)
    ensures
        s == status_code_of(code),
{
    match code {
        Some(c) => {
            // Shift by a multiple of 256 so that the remainder is taken of a
            // non-negative number.
            let shifted: u64 = (c as i64 + 2147483648) as u64;
            proof {
                lemma_mod_multiples_vanish(8388608, c as int, 256);
            }
            (shifted % 256) as u8
        },
        None => UNKNOWN_EXIT,
    }
}

/// The outcome of a failure of the host at `stage`, described by `detail`.
/// It carries `INTERNAL_ERROR` whatever the request was.
pub fn internal_failure(stage: Stage, detail: &str) -> (o: Outcome)
    ensures
        o@ == OutcomeView::Failure(INTERNAL_ERROR, stage_prefix(stage) + detail@),
{
    let mut text = match stage {
        Stage::Spawn => String::from_str("error spawning ATO_invoke: "),
        Stage::Write => String::from_str("error writing stdin of ATO_invoke: "),
        Stage::Wait => String::from_str("error waiting for ATO_invoke: "),
    };
    text.append(detail);
    Outcome::Failure(INTERNAL_ERROR, text)
}

/// Resolves a worker that ran to its end. Exit code zero gives its output
/// verbatim; any other exit gives the narrowed status code and a diagnostic
/// built from the output (not from the error stream, which is not captured).
pub fn resolve_exit(code: Option<i32>, stdout: Vec<u8>) -> (o: Outcome)
    ensures
        o@ == exit_outcome(code, stdout@),
        code == Some(0i32) ==> o@ == OutcomeView::Success(stdout@),
        code != Some(0i32) && valid_utf8(stdout@) ==> o@ == OutcomeView::Failure(
            status_code_of(code),
            run_failure_prefix() + decode_utf8(stdout@),
        ),
{
    let succeeded = match code {
        Some(c) => c == 0,
        None => false,
    };
    if succeeded {
        Outcome::Success(stdout)
    } else {
        let mut text = String::from_str("error running ATO_invoke:\n");
        let tail = text_of_lossy(stdout.as_slice());
        text.append(tail.as_str());
        Outcome::Failure(status_code(code), text)
    }
}

/// A worker that exits with a code between 1 and 255 fails with that code
/// as status, and its diagnostic is its output after a fixed heading.
pub proof fn lemma_worker_failure_keeps_code(c: i32, stdout: Seq<u8>)
    requires
        1 <= c <= 255,
    ensures
        exit_outcome(Some(c), stdout) == OutcomeView::Failure(
            c as u8,
            run_failure_prefix() + lossy_text(stdout),
        ),
{
}

} // verus!
