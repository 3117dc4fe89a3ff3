//! What the service answers, as the library hands it to its callers.
use crate::codec::text_view;
use vstd::prelude::*;

verus! {

/// The service's reply to a command.
#[derive(Debug, Clone)]
pub struct JObfuscatorResult {
    /// Error code (see the `ERROR_*` constants on `JObfuscator`).
    pub error: i64,
    /// Obfuscated source when `error` is `JObfuscator::ERROR_SUCCESS`.
    pub output: Option<String>,
    /// Demo mode when the activation key is invalid or empty.
    pub demo: Option<bool>,
    /// Credits remaining after the operation.
    pub credits_left: Option<i64>,
    /// Total credits of the activation key.
    pub credits_total: Option<i64>,
    /// True when the last credit was used.
    pub expired: Option<bool>,
    /// Largest source size (bytes) accepted, e.g. the demo limit.
    pub string_limit: Option<i64>,
}

/// `JObfuscatorResult` with its texts taken as character sequences.
pub struct JObfuscatorResultView {
    pub error: i64,
    pub output: Option<Seq<char>>,
    pub demo: Option<bool>,
    pub credits_left: Option<i64>,
    pub credits_total: Option<i64>,
    pub expired: Option<bool>,
    pub string_limit: Option<i64>,
}

impl View for JObfuscatorResult {
    type V = JObfuscatorResultView;

    open spec fn view(&self) -> JObfuscatorResultView {
        JObfuscatorResultView {
            error: self.error,
            output: text_view(self.output),
            demo: self.demo,
            credits_left: self.credits_left,
            credits_total: self.credits_total,
            expired: self.expired,
            string_limit: self.string_limit,
        }
    }
}

impl JObfuscatorResultView {
    /// The same reply with `output` replaced by `text`.
    pub open spec fn with_output(self, text: Seq<char>) -> JObfuscatorResultView {
        JObfuscatorResultView { output: Some(text), ..self }
    }
}

/// The view of an optional reply.
pub open spec fn result_view(o: Option<JObfuscatorResult>) -> Option<JObfuscatorResultView> {
    match o {
        Some(r) => Some(r@),
        None => None,
    }
}

/// A reply handed to the caller: either the structured result or the JSON
/// text of the reply.
#[derive(Debug, Clone)]
pub enum JObfuscatorResponse {
    /// Structured result (after unpacking of a compressed output).
    Object(JObfuscatorResult),
    /// JSON text: the service's original body, or the result encoded again
    /// after its output was unpacked.
    Json(String),
}

/// `JObfuscatorResponse` with its texts taken as character sequences.
pub enum JObfuscatorResponseView {
    Object(JObfuscatorResultView),
    Json(Seq<char>),
}

impl View for JObfuscatorResponse {
    type V = JObfuscatorResponseView;

    open spec fn view(&self) -> JObfuscatorResponseView {
        match self {
            JObfuscatorResponse::Object(r) => JObfuscatorResponseView::Object(r@),
            JObfuscatorResponse::Json(t) => JObfuscatorResponseView::Json(t@),
        }
    }
}

/// What becomes of a reply of the service.
#[derive(Debug, Clone)]
pub enum Reply {
    /// The call yields nothing (`None`).
    Nothing,
    /// The call yields this response.
    Deliver(JObfuscatorResponse),
    /// The call yields this result encoded as JSON text
    /// (`JObfuscatorResponse::Json`), or nothing where encoding fails.
    Encode(JObfuscatorResult),
}

/// `Reply` with its texts taken as character sequences.
pub enum ReplyView {
    Nothing,
    Deliver(JObfuscatorResponseView),
    Encode(JObfuscatorResultView),
}

impl View for Reply {
    type V = ReplyView;

    open spec fn view(&self) -> ReplyView {
        match self {
            Reply::Nothing => ReplyView::Nothing,
            Reply::Deliver(r) => ReplyView::Deliver(r@),
            Reply::Encode(r) => ReplyView::Encode(r@),
        }
    }
}

} // verus!
