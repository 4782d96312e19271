use vstd::prelude::*;
use vstd::string::StringExecFns;

verus! {

/// The error taxonomy of the tool: a plain message, a two-layer error pairing a
/// context message with an underlying cause, a network failure, or a
/// filesystem failure.
#[derive(Debug)]
pub enum InternalError {
    Common(String),
    Multiple(Box<InternalError>, Box<InternalError>),
    NetworkError(String),
    IOError(String),
}

pub type InternalResult<T> = Result<T, InternalError>;

/// The one-line rendering of an error: the layers of a two-layer error joined
/// by a newline, network and filesystem failures labelled by their kind.
pub open spec fn error_text(e: InternalError) -> Seq<char>
    decreases e,
{
    match e {
        InternalError::Common(m) => m@,
        InternalError::Multiple(a, b) => error_text(*a) + "\n"@ + error_text(*b),
        InternalError::NetworkError(m) => "Network error: "@ + m@,
        InternalError::IOError(m) => "IO error: "@ + m@,
    }
}

impl InternalError {
    /// Renders the error as the text reported on the console.
    pub fn to_string(&self) -> (r: String)
        ensures
            r@ == error_text(*self),
        decreases self,
    {
        match self {
            InternalError::Common(m) => m.clone(),
            InternalError::Multiple(a, b) => {
                let left = a.to_string();
                let right = b.to_string();
                left.concat("\n").concat(right.as_str())
            },
            InternalError::NetworkError(m) => {
                String::from_str("Network error: ").concat(m.as_str())
            },
            InternalError::IOError(m) => String::from_str("IO error: ").concat(m.as_str()),
        }
    }
}

} // verus!
