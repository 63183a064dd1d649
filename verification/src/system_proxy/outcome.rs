//! What a run of the `networksetup` program comes to.

use vstd::prelude::*;
use vstd::string::*;
use vstd::utf8::{decode_utf8, valid_utf8};

use crate::errors::{PlatformError, PlatformErrorView};
use crate::number::{decimal, decimal_text};
use crate::system_proxy::request::{reply_view, NetworkSetupRequest, RequestView};
use crate::utf8::{lossy_text, text_from_utf8_lossy};

verus! {

/// How a run of a program ended.
#[derive(Debug, PartialEq, Eq)]
pub struct ProgramOutcome {
    /// It reported success.
    pub success: bool,
    /// The number that it ended with, where it ended by itself.
    pub code: Option<i32>,
    /// What it printed.
    pub stdout: Vec<u8>,
    /// What it complained of.
    pub stderr: Vec<u8>,
}

/// What the `Debug` form of a text is.
pub uninterp spec fn quoted_text(text: Seq<char>) -> Seq<char>;

/// The text in quotation marks, with its special characters escaped.
///
/// Calls `format!` for the `Debug` form of a `str`, and takes it over under a name.
#[verifier::external_body]
fn quoted(text: &str) -> (r: String)
    ensures
        r@ == quoted_text(text@),
{
    format!("{text:?}")
}

/// The texts behind one another, with a comma between any two.
pub open spec fn comma_separated(texts: Seq<Seq<char>>) -> Seq<char>
    decreases texts.len(),
{
    if texts.len() == 0 {
        Seq::empty()
    } else if texts.len() == 1 {
        texts[0]
    } else {
        comma_separated(texts.drop_last()) + ", "@ + texts.last()
    }
}

/// The number that a program ended with, for a message.
pub open spec fn code_text(code: Option<i32>) -> Seq<char> {
    match code {
        None => "None"@,
        Some(code) => if code < 0 {
            "Some(-"@ + decimal_text((-code) as nat) + ")"@
        } else {
            "Some("@ + decimal_text(code as nat) + ")"@
        },
    }
}

/// The complaint about a listing that ended without success.
pub open spec fn listing_failed(code: Option<i32>, stderr: Seq<char>) -> PlatformErrorView {
    PlatformErrorView::OperationFailed(
        "读取 macOS 网络服务失败，networksetup="@ + code_text(code) + ": "@ + stderr,
    )
}

/// The complaint about a run that ended without success, given its arguments in quotation marks.
pub open spec fn run_failed(
    quoted_args: Seq<Seq<char>>,
    code: Option<i32>,
    stderr: Seq<char>,
) -> PlatformErrorView {
    PlatformErrorView::OperationFailed(
        "执行 networksetup ["@ + comma_separated(quoted_args) + "] 失败，状态 "@ + code_text(code)
            + ": "@ + stderr,
    )
}

/// The complaint about a program that could not be run.
pub open spec fn not_run(request: RequestView, error: Seq<char>) -> PlatformErrorView {
    match request {
        RequestView::ListServices => PlatformErrorView::OperationFailed(
            "读取 macOS 网络服务失败: "@ + error,
        ),
        RequestView::Run(_) => PlatformErrorView::OperationFailed(
            "执行 networksetup 失败: "@ + error,
        ),
    }
}

/// What the outcome of a run is to the operation that asked for it: what the program printed where
/// it succeeded, else the complaint.
pub open spec fn reply_of(
    request: RequestView,
    outcome: Result<ProgramOutcome, String>,
) -> Result<Seq<char>, PlatformErrorView> {
    match outcome {
        Err(error) => Err(not_run(request, error@)),
        Ok(outcome) => if outcome.success {
            Ok(lossy_text(outcome.stdout@))
        } else {
            let stderr = lossy_text(outcome.stderr@);
            match request {
                RequestView::ListServices => Err(listing_failed(outcome.code, stderr)),
                RequestView::Run(args) => Err(
                    run_failed(
                        args.map_values(|arg: Seq<char>| quoted_text(arg)),
                        outcome.code,
                        stderr,
                    ),
                ),
            }
        },
    }
}

fn comma_separate(texts: &Vec<String>) -> (r: String)
    ensures
        r@ == comma_separated(texts.deep_view()),
{
    let ghost whole = texts.deep_view();
    let mut r = "".to_owned();
    proof {
        reveal_strlit("");
        assert(r@ == comma_separated(whole.take(0)));
    }
    for i in 0..texts.len()
        invariant
            whole == texts.deep_view(),
            r@ == comma_separated(whole.take(i as int)),
    {
        let ghost before = r@;
        proof {
            assert(whole.take(i + 1).drop_last() == whole.take(i as int));
            assert(whole.take(i + 1).last() == texts@[i as int]@);
        }
        if i > 0 {
            r.append(", ");
        }
        r.append(texts[i].as_str());
        if i == 0 {
            assert(before == Seq::<char>::empty());
            assert(r@ == texts@[0]@);
        }
    }
    assert(whole.take(texts.len() as int) == whole);
    r
}

fn code_in_words(code: Option<i32>) -> (r: String)
    ensures
        r@ == code_text(code),
{
    match code {
        None => "None".to_owned(),
        Some(code) => {
            let mut r: String;
            if code < 0 {
                r = "Some(-".to_owned();
                let positive: i64 = -(code as i64);
                let digits = decimal(positive as u32);
                r.append(digits.as_str());
            } else {
                r = "Some(".to_owned();
                let digits = decimal(code as u32);
                r.append(digits.as_str());
            }
            r.append(")");
            r
        },
    }
}

/// The complaint about a run that ended without success, given its arguments in quotation marks.
pub fn networksetup_failure(
    quoted_args: &Vec<String>,
    code: Option<i32>,
    stderr: &str,
) -> (r: PlatformError)
    ensures
        r@ == run_failed(quoted_args.deep_view(), code, stderr@),
{
    let mut message = "执行 networksetup [".to_owned();
    let args = comma_separate(quoted_args);
    message.append(args.as_str());
    message.append("] 失败，状态 ");
    let ended = code_in_words(code);
    message.append(ended.as_str());
    message.append(": ");
    message.append(stderr);
    PlatformError::OperationFailed(message)
}

fn quote_all(args: &Vec<String>) -> (r: Vec<String>)
    ensures
        r.deep_view() == args.deep_view().map_values(|arg: Seq<char>| quoted_text(arg)),
{
    let ghost quote = |arg: Seq<char>| quoted_text(arg);
    let mut r: Vec<String> = Vec::new();
    for i in 0..args.len()
        invariant
            r.deep_view() == args.deep_view().take(i as int).map_values(quote),
            quote == (|arg: Seq<char>| quoted_text(arg)),
    {
        let ghost before = r.deep_view();
        r.push(quoted(args[i].as_str()));
        assert(r.deep_view() == before.push(quote(args@[i as int]@)));
    }
    assert(args.deep_view().take(args.len() as int) == args.deep_view());
    r
}

/// What the outcome of a run is to the operation that asked for it. A program that could not be run
/// comes as the text of its failure.
pub fn networksetup_reply(
    request: &NetworkSetupRequest,
    outcome: Result<ProgramOutcome, String>,
) -> (r: Result<String, PlatformError>)
    ensures
        reply_view(r) == reply_of(request@, outcome),
        outcome matches Ok(ended) ==> ended.success && valid_utf8(ended.stdout@) ==> reply_view(r)
            == Ok::<Seq<char>, PlatformErrorView>(decode_utf8(ended.stdout@)),
{
    match outcome {
        Err(error) => {
            let mut message: String = match request {
                NetworkSetupRequest::ListServices => "读取 macOS 网络服务失败: ".to_owned(),
                NetworkSetupRequest::Run(_) => "执行 networksetup 失败: ".to_owned(),
            };
            message.append(error.as_str());
            Err(PlatformError::OperationFailed(message))
        },
        Ok(outcome) => {
            if outcome.success {
                return Ok(text_from_utf8_lossy(&outcome.stdout));
            }
            let stderr = text_from_utf8_lossy(&outcome.stderr);
            match request {
                NetworkSetupRequest::ListServices => {
                    let mut message = "读取 macOS 网络服务失败，networksetup=".to_owned();
                    let ended = code_in_words(outcome.code);
                    message.append(ended.as_str());
                    message.append(": ");
                    message.append(stderr.as_str());
                    Err(PlatformError::OperationFailed(message))
                },
                NetworkSetupRequest::Run(args) => Err(
                    networksetup_failure(&quote_all(args), outcome.code, stderr.as_str()),
                ),
            }
        },
    }
}

/// A run that succeeded replies with what it printed, whatever it complained of. A run that did not
/// is complained about with its code and what it complained of, and one that could not be run with
/// the text of that failure; the complaints tell a listing from any other run, of which they name
/// the arguments.
pub proof fn law_reply(
    args: Seq<Seq<char>>,
    ended: ProgramOutcome,
    error: String,
)
    ensures
        ended.success ==> reply_of(RequestView::ListServices, Ok(ended)) == Ok::<
            _,
            PlatformErrorView,
        >(lossy_text(ended.stdout@)) && reply_of(RequestView::Run(args), Ok(ended)) == Ok::<
            _,
            PlatformErrorView,
        >(lossy_text(ended.stdout@)),
        !ended.success ==> reply_of(RequestView::ListServices, Ok(ended)) == Err::<Seq<char>, _>(
            PlatformErrorView::OperationFailed(
                "读取 macOS 网络服务失败，networksetup="@ + code_text(ended.code) + ": "@
                    + lossy_text(ended.stderr@),
            ),
        ) && reply_of(RequestView::Run(args), Ok(ended)) == Err::<Seq<char>, _>(
            PlatformErrorView::OperationFailed(
                "执行 networksetup ["@ + comma_separated(
                    Seq::new(args.len(), |i: int| quoted_text(args[i])),
                ) + "] 失败，状态 "@ + code_text(ended.code) + ": "@ + lossy_text(ended.stderr@),
            ),
        ),
        reply_of(RequestView::ListServices, Err(error)) == Err::<Seq<char>, _>(
            PlatformErrorView::OperationFailed("读取 macOS 网络服务失败: "@ + error@),
        ),
        reply_of(RequestView::Run(args), Err(error)) == Err::<Seq<char>, _>(
            PlatformErrorView::OperationFailed("执行 networksetup 失败: "@ + error@),
        ),
{
    assert(args.map_values(|arg: Seq<char>| quoted_text(arg)) == Seq::new(
        args.len(),
        |i: int| quoted_text(args[i]),
    ));
}

/// A code is shown as its decimal number, with a minus sign below zero, and a program that did not
/// end by itself has none.
pub proof fn law_code_text(code: i32)
    ensures
        code_text(None) == "None"@,
        code >= 0 ==> code_text(Some(code)) == "Some("@ + decimal_text(code as nat) + ")"@,
        code < 0 ==> code_text(Some(code)) == "Some(-"@ + decimal_text((0 - code) as nat) + ")"@,
{
}

/// A further text comes behind the others and a comma; the first comes without one.
pub proof fn law_comma_separated(texts: Seq<Seq<char>>, text: Seq<char>)
    ensures
        comma_separated(Seq::empty()).len() == 0,
        comma_separated(seq![text]) == text,
        texts.len() > 0 ==> comma_separated(texts.push(text)) == comma_separated(texts) + ", "@
            + text,
{
    assert(texts.push(text).drop_last() == texts);
}

} // verus!
