//! What can go wrong in a call, and what a transport outcome amounts to.

use serde_json::Value;
use vstd::prelude::*;

verus! {

/// Why no usable response arrived.
#[derive(Debug, Clone, Copy, PartialEq, Eq)]
pub enum NetworkFault {
    /// The connection failed or was reset.
    Connection,
    /// The backend did not answer in time.
    Timeout,
    /// The backend answered with a status in the 5xx range.
    Server { status: u16 },
}

/// Why a request could not be made from the input, or was refused as sent.
#[derive(Debug, Clone, Copy, PartialEq, Eq)]
pub enum InputFault {
    /// Two tools share a name.
    DuplicateTool,
    /// A message holds content that its role cannot carry on the wire.
    UnsupportedContent,
    /// The backend refused the request with a 4xx status that signals
    /// neither bad credentials nor throttling.
    Rejected { status: u16 },
}

/// What is wrong with a response that did arrive.
#[derive(Debug, Clone, Copy, PartialEq, Eq)]
pub enum ShapeFault {
    /// The body is not a JSON document.
    UnreadableBody,
    /// The status is neither a success nor an error in the 4xx or 5xx range.
    UnexpectedStatus { status: u16 },
    /// The first choice with its message is absent.
    MissingMessage,
    /// A tool call lacks its id, its name or its arguments.
    MalformedToolCall,
    /// The `data` array of a model listing is absent.
    MissingListing,
}

/// A classified failure of the adapter.
#[derive(Debug, PartialEq, Eq)]
pub enum ProviderError {
    /// A required configuration key is absent; `key` names it.
    Configuration { key: String },
    /// The backend rejected the credentials.
    Authentication { status: u16 },
    /// The backend signalled throttling.
    RateLimited { status: u16 },
    /// A failure that may pass: nothing arrived, or the backend failed.
    TransientNetwork { cause: NetworkFault },
    /// The conversation or the tools cannot be sent to this backend.
    MalformedInput { fault: InputFault },
    /// The backend answered, but not in the expected shape.
    ResponseShape { defect: ShapeFault },
}

impl ProviderError {
    /// Whether trying again may help: throttling and transient failures.
    pub open spec fn retriable(self) -> bool {
        self is RateLimited || self is TransientNetwork
    }

    /// Whether trying again may help.
    pub fn is_retriable(&self) -> (r: bool)
        ensures
            r == self.retriable(),
    {
        match self {
            ProviderError::RateLimited { .. } => true,
            ProviderError::TransientNetwork { .. } => true,
            _ => false,
        }
    }
}

/// The failure that an HTTP status stands for; `None` for a success.
pub open spec fn status_error(status: u16) -> Option<ProviderError> {
    if 200 <= status <= 299 {
        None
    } else if status == 401 || status == 403 {
        Some(ProviderError::Authentication { status })
    } else if status == 429 {
        Some(ProviderError::RateLimited { status })
    } else if 400 <= status <= 499 {
        Some(ProviderError::MalformedInput { fault: InputFault::Rejected { status } })
    } else if 500 <= status <= 599 {
        Some(ProviderError::TransientNetwork { cause: NetworkFault::Server { status } })
    } else {
        Some(ProviderError::ResponseShape { defect: ShapeFault::UnexpectedStatus { status } })
    }
}

/// Classifies an HTTP status.
pub fn classify_status(status: u16) -> (r: Option<ProviderError>)
    ensures
        r == status_error(status),
{
    if 200 <= status && status <= 299 {
        None
    } else if status == 401 || status == 403 {
        Some(ProviderError::Authentication { status })
    } else if status == 429 {
        Some(ProviderError::RateLimited { status })
    } else if 400 <= status && status <= 499 {
        Some(ProviderError::MalformedInput { fault: InputFault::Rejected { status } })
    } else if 500 <= status && status <= 599 {
        Some(ProviderError::TransientNetwork { cause: NetworkFault::Server { status } })
    } else {
        Some(ProviderError::ResponseShape { defect: ShapeFault::UnexpectedStatus { status } })
    }
}

/// What the transport reports of one request.
#[derive(Debug, PartialEq, Eq)]
pub enum TransportOutcome {
    /// The backend answered; `body` is the parsed document, or `None` where
    /// the body was not JSON.
    Response { status: u16, body: Option<Value> },
    /// The connection failed or was reset.
    ConnectionFailed,
    /// No answer arrived in time.
    TimedOut,
}

/// The document or the failure that a transport outcome amounts to.
pub open spec fn outcome_result(outcome: TransportOutcome) -> Result<Value, ProviderError> {
    match outcome {
        TransportOutcome::Response { status, body } => match status_error(status) {
            Some(error) => Err(error),
            None => match body {
                Some(document) => Ok(document),
                None => Err(ProviderError::ResponseShape { defect: ShapeFault::UnreadableBody }),
            },
        },
        TransportOutcome::ConnectionFailed => Err(
            ProviderError::TransientNetwork { cause: NetworkFault::Connection },
        ),
        TransportOutcome::TimedOut => Err(
            ProviderError::TransientNetwork { cause: NetworkFault::Timeout },
        ),
    }
}

/// Turns a transport outcome into the response document or a classified
/// failure. The status decides first: the body of an error response is not
/// looked at.
pub fn handle_response(outcome: TransportOutcome) -> (r: Result<Value, ProviderError>)
    ensures
        r == outcome_result(outcome),
{
    match outcome {
        TransportOutcome::Response { status, body } => match classify_status(status) {
            Some(error) => Err(error),
            None => match body {
                Some(document) => Ok(document),
                None => Err(ProviderError::ResponseShape { defect: ShapeFault::UnreadableBody }),
            },
        },
        TransportOutcome::ConnectionFailed => Err(
            ProviderError::TransientNetwork { cause: NetworkFault::Connection },
        ),
        TransportOutcome::TimedOut => Err(
            ProviderError::TransientNetwork { cause: NetworkFault::Timeout },
        ),
    }
}

} // verus!
