//! The value that a successful call on the index handle returns to the host.
use vstd::prelude::*;

verus! {

/// What a [`PhpPagefindResponse`] holds.
pub struct ResponseView {
    pub success: bool,
    pub message: Seq<char>,
    pub metadata: Option<Seq<char>>,
}

/// The outcome of one call as the host sees it. The metadata is a diagnostic
/// rendering of the engine's summary, carried as it came and never read here.
#[derive(Debug)]
pub struct PhpPagefindResponse {
    success: bool,
    message: String,
    metadata: Option<String>,
}

/// The text that an optional string holds.
pub open spec fn optional_text(text: Option<String>) -> Option<Seq<char>> {
    match text {
        Some(t) => Some(t@),
        None => None,
    }
}

impl View for PhpPagefindResponse {
    type V = ResponseView;

    closed spec fn view(&self) -> ResponseView {
        ResponseView {
            success: self.success,
            message: self.message@,
            metadata: optional_text(self.metadata),
        }
    }
}

impl PhpPagefindResponse {
    /// A response with the given fields.
    pub fn __construct(success: bool, message: String, metadata: Option<String>) -> (response: Self)
        ensures
            response@ == (ResponseView {
                success,
                message: message@,
                metadata: optional_text(metadata),
            }),
    {
        PhpPagefindResponse { success, message, metadata }
    }

    pub fn is_success(&self) -> (success: bool)
        ensures
            success == self@.success,
    {
        self.success
    }

    pub fn get_message(&self) -> (message: String)
        ensures
            message@ == self@.message,
    {
        self.message.clone()
    }

    /// The metadata, the same at every read of one response.
    pub fn get_metadata(&self) -> (metadata: Option<String>)
        ensures
            optional_text(metadata) == self@.metadata,
    {
        match &self.metadata {
            Some(text) => Some(text.clone()),
            None => None,
        }
    }
}

} // verus!
