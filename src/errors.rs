use vstd::prelude::*;
use vstd::string::StringExecFns;

verus! {

/// Every failure the SDK reports, each carrying a human-readable reason.
#[derive(Debug, Clone, PartialEq, Eq)]
pub enum ForestError {
    AuthenticationError(String),
    RateLimitError(String),
    ValidationError(String),
    NotFoundError(String),
    ServerError(String),
    NetworkError(String),
    InvalidResponse(String),
    ConfigurationError(String),
    WebhookError(String),
    Unknown(String),
}

pub type ForestResult<T> = Result<T, ForestError>;

/// The label that introduces each kind of error in its rendered form.
pub open spec fn label_of(e: ForestError) -> Seq<char> {
    match e {
        ForestError::AuthenticationError(_) => "Authentication error: "@,
        ForestError::RateLimitError(_) => "Rate limit exceeded: "@,
        ForestError::ValidationError(_) => "Validation error: "@,
        ForestError::NotFoundError(_) => "Resource not found: "@,
        ForestError::ServerError(_) => "Server error: "@,
        ForestError::NetworkError(_) => "Network error: "@,
        ForestError::InvalidResponse(_) => "Invalid response: "@,
        ForestError::ConfigurationError(_) => "Configuration error: "@,
        ForestError::WebhookError(_) => "Webhook error: "@,
        ForestError::Unknown(_) => "Unknown error: "@,
    }
}

impl ForestError {
    /// The reason carried by the error.
    pub open spec fn reason(&self) -> Seq<char> {
        match self {
            ForestError::AuthenticationError(m) => m@,
            ForestError::RateLimitError(m) => m@,
            ForestError::ValidationError(m) => m@,
            ForestError::NotFoundError(m) => m@,
            ForestError::ServerError(m) => m@,
            ForestError::NetworkError(m) => m@,
            ForestError::InvalidResponse(m) => m@,
            ForestError::ConfigurationError(m) => m@,
            ForestError::WebhookError(m) => m@,
            ForestError::Unknown(m) => m@,
        }
    }

    /// The reason carried by the error.
    pub fn message(&self) -> (r: &String)
        ensures
            r@ == self.reason(),
    {
        match self {
            ForestError::AuthenticationError(m) => m,
            ForestError::RateLimitError(m) => m,
            ForestError::ValidationError(m) => m,
            ForestError::NotFoundError(m) => m,
            ForestError::ServerError(m) => m,
            ForestError::NetworkError(m) => m,
            ForestError::InvalidResponse(m) => m,
            ForestError::ConfigurationError(m) => m,
            ForestError::WebhookError(m) => m,
            ForestError::Unknown(m) => m,
        }
    }

    /// The error rendered as text: its kind's label followed by its reason.
    pub fn to_text(&self) -> (r: String)
        ensures
            r@ == label_of(*self) + self.reason(),
    {
        let label: &str = match self {
            ForestError::AuthenticationError(_) => "Authentication error: ",
            ForestError::RateLimitError(_) => "Rate limit exceeded: ",
            ForestError::ValidationError(_) => "Validation error: ",
            ForestError::NotFoundError(_) => "Resource not found: ",
            ForestError::ServerError(_) => "Server error: ",
            ForestError::NetworkError(_) => "Network error: ",
            ForestError::InvalidResponse(_) => "Invalid response: ",
            ForestError::ConfigurationError(_) => "Configuration error: ",
            ForestError::WebhookError(_) => "Webhook error: ",
            ForestError::Unknown(_) => "Unknown error: ",
        };
        let mut out = String::from_str(label);
        out.append(self.message().as_str());
        out
    }
}

} // verus!
