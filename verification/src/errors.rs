use vstd::prelude::*;
use vstd::string::StringExecFns;
use crate::numerals::{decimal_chars, format_u64};

verus! {

/// The classification of every failure that the control loop reacts to.
///
/// The tag, not the payload, drives control flow: `Transient` failures are
/// retried after a wait, `AuthRejected` forces a fresh authentication (and is
/// fatal when authentication itself is rejected), and `ProtocolViolation`
/// marks a response that breaks the expected protocol (a login response
/// without a usable session cookie), which is fatal during authentication.
#[derive(Debug)]
#[allow(inconsistent_fields)]
pub enum ClassifiedError {
    /// A transport failure or an unexpected response status. `status` is
    /// `None` for transport failures and carries the HTTP status otherwise;
    /// the message exists only for logging.
    Transient { message: String, status: Option<u16> },
    /// The remote service answered 401 or 403 to a credential-bearing call.
    AuthRejected { status: u16 },
    /// The login response carried no usable session cookie.
    ProtocolViolation,
}

/// The mathematical model of a `ClassifiedError`.
#[allow(inconsistent_fields)]
pub enum ErrorModel {
    Transient { message: Seq<char>, status: Option<u16> },
    AuthRejected { status: u16 },
    ProtocolViolation,
}

impl View for ClassifiedError {
    type V = ErrorModel;

    open spec fn view(&self) -> ErrorModel {
        match self {
            ClassifiedError::Transient { message, status } => ErrorModel::Transient {
                message: message@,
                status: *status,
            },
            ClassifiedError::AuthRejected { status } => ErrorModel::AuthRejected {
                status: *status,
            },
            ClassifiedError::ProtocolViolation => ErrorModel::ProtocolViolation,
        }
    }
}

/// Whether a status code means the caller's credentials were rejected.
pub open spec fn status_is_auth_rejection(status: u16) -> bool {
    status == 401 || status == 403
}

/// How a non-success status from a credential-bearing torrent-client call is
/// classified: 401 and 403 are rejections of the credential, everything else
/// is transient.
pub open spec fn status_error_model(status: u16) -> ErrorModel {
    if status_is_auth_rejection(status) {
        ErrorModel::AuthRejected { status }
    } else {
        ErrorModel::Transient {
            message: "unexpected response status "@ + decimal_chars(status as int),
            status: Some(status),
        }
    }
}

/// An error during authentication is fatal exactly when the credentials were
/// rejected or the response broke the protocol.
pub open spec fn is_fatal_login_error(e: ErrorModel) -> bool {
    e is AuthRejected || e is ProtocolViolation
}

/// Classifies a non-success HTTP status from a credential-bearing call.
pub fn classify_status(status: u16) -> (e: ClassifiedError)
    ensures
        e@ == status_error_model(status),
{
    if status == 401 || status == 403 {
        ClassifiedError::AuthRejected { status }
    } else {
        let mut message = String::from_str("unexpected response status ");
        let digits = format_u64(status as u64);
        message.append(digits.as_str());
        ClassifiedError::Transient { message, status: Some(status) }
    }
}

/// Wraps the text of a transport failure (a refused connection, a timeout, a
/// broken body) as a transient error, the classification that the control
/// loop retries.
pub fn transient_from_transport(message: String) -> (e: ClassifiedError)
    ensures
        e@ == (ErrorModel::Transient { message: message@, status: None }),
{
    ClassifiedError::Transient { message, status: None }
}

impl ClassifiedError {
    /// The human-readable line that the log carries for this failure,
    /// naming the status code where one was received.
    pub fn message(&self) -> (m: String)
        ensures
            (match self@ {
                ErrorModel::Transient { message, .. } => m@ == message,
                ErrorModel::AuthRejected { status } => m@ == "authentication rejected, status "@
                    + decimal_chars(status as int),
                ErrorModel::ProtocolViolation => m@ == "No Cookie Returned"@,
            }),
    {
        match self {
            ClassifiedError::Transient { message, .. } => message.clone(),
            ClassifiedError::AuthRejected { status } => {
                let mut m = String::from_str("authentication rejected, status ");
                let digits = format_u64(*status as u64);
                m.append(digits.as_str());
                m
            },
            ClassifiedError::ProtocolViolation => String::from_str("No Cookie Returned"),
        }
    }

    /// The HTTP status this failure carries, if one was received.
    pub fn status(&self) -> (r: Option<u16>)
        ensures
            (match self@ {
                ErrorModel::Transient { status, .. } => r == status,
                ErrorModel::AuthRejected { status } => r == Some(status),
                ErrorModel::ProtocolViolation => r is None,
            }),
    {
        match self {
            ClassifiedError::Transient { status, .. } => *status,
            ClassifiedError::AuthRejected { status } => Some(*status),
            ClassifiedError::ProtocolViolation => None,
        }
    }

    /// Whether this failure means the session credential was rejected.
    pub fn is_auth_rejection(&self) -> (r: bool)
        ensures
            r == self@ is AuthRejected,
    {
        match self {
            ClassifiedError::AuthRejected { .. } => true,
            _ => false,
        }
    }
}

} // verus!
