//! A rule-based HTTP security audit engine, with a small condition language
//! that is evaluated against a captured response.

use reqwest::header::HeaderMap;
use vstd::prelude::*;
use vstd::string::StringExecFns;

pub mod attacks;
pub mod error;
pub mod headers;
pub mod probe;
pub mod rules;
pub mod scanner;
pub mod text;

use crate::headers::{contains_key, fold_name, header_fields};
use crate::text::{between, contains_text, decimal, lowercase_of, occurs_at};

verus! {

/// The outcome of an action or of a condition: whether it held, and a
/// message for the caller.
#[derive(Debug)]
pub struct AttackResult {
    pub success: bool,
    pub message: String,
}

/// An `AttackResult` as plain values.
pub struct AttackResultView {
    pub success: bool,
    pub message: Seq<char>,
}

impl View for AttackResult {
    type V = AttackResultView;

    open spec fn view(&self) -> AttackResultView {
        AttackResultView { success: self.success, message: self.message@ }
    }
}

/// A captured HTTP response: its status code and its header fields.
#[derive(Debug)]
pub struct ResponseContext {
    pub status: u16,
    pub headers: HeaderMap,
}

/// A `ResponseContext` as plain values: the status, and each header name in
/// lower case with the bytes of its first value.
pub struct ResponseView {
    pub status: u16,
    pub headers: Map<Seq<char>, Seq<u8>>,
}

impl View for ResponseContext {
    type V = ResponseView;

    open spec fn view(&self) -> ResponseView {
        ResponseView { status: self.status, headers: header_fields(self.headers) }
    }
}

/// A named group of checks.
#[derive(Debug, Clone, Copy, PartialEq, Eq, Structural)]
pub enum ScanScope {
    /// Header and transport hygiene of the target's root response.
    Kernel,
    /// Exposure of infrastructure files under well-known paths.
    Territory,
}

/// What `execute_attack` answers to an action of the given kind and value.
pub open spec fn attack_outcome(kind: Seq<char>, value: Seq<char>) -> AttackResultView {
    if kind != "attack"@ {
        AttackResultView { success: false, message: "Unsupported action kind: "@ + kind }
    } else if value == "secure_headers"@ {
        AttackResultView {
            success: true,
            message: "Security headers audit completed successfully!!"@,
        }
    } else if value == "clear_session"@ {
        AttackResultView { success: true, message: "Active sessions cleared from memory"@ }
    } else {
        AttackResultView { success: false, message: "Unknown attack payload: "@ + value }
    }
}

/// Answers an action sent by the command line front end. Only the kind
/// `attack` is known, with the payloads `secure_headers` and `clear_session`.
pub fn execute_attack(kind: &str, value: &str) -> (r: AttackResult)
    ensures
        r@ == attack_outcome(kind@, value@),
{
    if !text::str_eq(kind, "attack") {
        AttackResult {
            success: false,
            message: String::from_str("Unsupported action kind: ").concat(kind),
        }
    } else if text::str_eq(value, "secure_headers") {
        AttackResult {
            success: true,
            message: String::from_str("Security headers audit completed successfully!!"),
        }
    } else if text::str_eq(value, "clear_session") {
        AttackResult {
            success: true,
            message: String::from_str("Active sessions cleared from memory"),
        }
    } else {
        AttackResult {
            success: false,
            message: String::from_str("Unknown attack payload: ").concat(value),
        }
    }
}

/// The outcome of asking whether a header of the given name is present. An
/// empty name is never present; any other is looked up without regard to
/// the case of its ASCII letters.
pub open spec fn header_outcome(name: Seq<char>, headers: Map<Seq<char>, Seq<u8>>)
    -> AttackResultView {
    if name.len() > 0 && headers.contains_key(fold_name(name)) {
        AttackResultView {
            success: true,
            message: "Condition satisfied: Header '"@ + name + "' is present"@,
        }
    } else {
        AttackResultView {
            success: false,
            message: "Security Gap: Header '"@ + name + "' is missing"@,
        }
    }
}

/// The outcome of asking whether the status is 200.
pub open spec fn status_outcome(status: u16) -> AttackResultView {
    if status == 200 {
        AttackResultView { success: true, message: "HTTP 200 OK verified"@ }
    } else {
        AttackResultView {
            success: false,
            message: "Verification failed: Expected 200, got "@ + decimal(status as nat),
        }
    }
}

/// The header name that an instruction quotes: the text between its first
/// two double quotes, in lower case. Empty where nothing is quoted.
pub open spec fn quoted_name(instruction: Seq<char>) -> Seq<char> {
    let quoted = between(instruction, '"');
    if quoted.len() == 0 {
        quoted
    } else {
        lowercase_of(quoted)
    }
}

/// What `verify_condition` answers to an instruction. An instruction that
/// holds `EXISTS` asks for the header that it quotes; one that holds
/// `status BE 200` asks for the status; any other is unsupported.
pub open spec fn condition_outcome(instruction: Seq<char>, response: ResponseView)
    -> AttackResultView {
    if contains_text(instruction, "EXISTS"@) {
        header_outcome(quoted_name(instruction), response.headers)
    } else if contains_text(instruction, "status BE 200"@) {
        status_outcome(response.status)
    } else {
        AttackResultView { success: false, message: "Unsupported instruction: "@ + instruction }
    }
}

/// Whether the response carries a header of the given name.
pub fn check_header(name: &str, response: &ResponseContext) -> (r: AttackResult)
    ensures
        r@ == header_outcome(name@, response@.headers),
{
    if !name.is_empty() && contains_key(&response.headers, name) {
        AttackResult {
            success: true,
            message: String::from_str("Condition satisfied: Header '").concat(name).concat(
                "' is present",
            ),
        }
    } else {
        AttackResult {
            success: false,
            message: String::from_str("Security Gap: Header '").concat(name).concat(
                "' is missing",
            ),
        }
    }
}

/// Whether the response has the status 200.
pub fn check_status(response: &ResponseContext) -> (r: AttackResult)
    ensures
        r@ == status_outcome(response@.status),
{
    if response.status == 200 {
        AttackResult { success: true, message: String::from_str("HTTP 200 OK verified") }
    } else {
        let code = text::to_decimal(response.status);
        AttackResult {
            success: false,
            message: String::from_str("Verification failed: Expected 200, got ").concat(
                code.as_str(),
            ),
        }
    }
}

/// Evaluates one instruction of the condition language against a captured
/// response. The response is only read, so the same instruction on the same
/// response gives the same answer every time.
pub fn verify_condition(raw_instruction: &str, response_data: &ResponseContext) -> (r:
    AttackResult)
    ensures
        r@ == condition_outcome(raw_instruction@, response_data@),
{
    if text::contains(raw_instruction, "EXISTS") {
        let quoted = text::text_between(raw_instruction, '"');
        if quoted.is_empty() {
            check_header(quoted, response_data)
        } else {
            let header_name = text::to_lowercase(quoted);
            check_header(header_name.as_str(), response_data)
        }
    } else if text::contains(raw_instruction, "status BE 200") {
        check_status(response_data)
    } else {
        AttackResult {
            success: false,
            message: String::from_str("Unsupported instruction: ").concat(raw_instruction),
        }
    }
}

/// An instruction that asks for a header and quotes no name, or an empty
/// one, fails on every response.
pub proof fn lemma_unnamed_header_fails(instruction: Seq<char>, response: ResponseView)
    requires
        contains_text(instruction, "EXISTS"@),
        between(instruction, '"').len() == 0,
    ensures
        !condition_outcome(instruction, response).success,
        condition_outcome(instruction, response).message == "Security Gap: Header '"@
            + "' is missing"@,
{
    let name = quoted_name(instruction);
    assert("Security Gap: Header '"@ + name + "' is missing"@ =~= "Security Gap: Header '"@
        + "' is missing"@);
}

/// A status other than 200 fails the status condition, and the message
/// names both the code that was expected and the code that came.
pub proof fn lemma_status_mismatch_names_both_codes(status: u16)
    requires
        status != 200,
    ensures
        !status_outcome(status).success,
        contains_text(status_outcome(status).message, "200"@),
        contains_text(status_outcome(status).message, decimal(status as nat)),
{
    let prefix = "Verification failed: Expected 200, got "@;
    let code = decimal(status as nat);
    let message = status_outcome(status).message;
    reveal_strlit("Verification failed: Expected 200, got ");
    reveal_strlit("200");
    assert(prefix.len() == 39);
    assert(message.subrange(30, 33) =~= "200"@);
    assert(occurs_at(message, "200"@, 30));
    assert(message.subrange(39, 39 + code.len() as int) =~= code);
    assert(occurs_at(message, code, 39));
}

/// Two evaluations of one instruction against one response agree in success
/// and in message.
pub proof fn lemma_condition_repeatable(
    instruction: Seq<char>,
    response: ResponseView,
    first: AttackResultView,
    second: AttackResultView,
)
    requires
        first == condition_outcome(instruction, response),
        second == condition_outcome(instruction, response),
    ensures
        first == second,
{
}

/// The version of this engine.
pub fn get_version() -> (v: &'static str)
    ensures
        v@ == "0.1.0"@,
{
    "0.1.0"
}

} // verus!
