use vstd::prelude::*;
use vstd::string::StringExecFns;
use crate::config::Config;
use crate::errors::{ClassifiedError, ErrorModel, status_error_model};

verus! {

/// The login credentials for the torrent client, sent as the two fields of
/// the form-encoded login request.
pub struct QBCreds {
    pub username: String,
    pub password: String,
}

impl QBCreds {
    /// The credentials the configuration holds.
    pub fn from(value: &Config) -> (r: QBCreds)
        ensures
            r.username@ == value.qb_username@,
            r.password@ == value.qb_password@,
    {
        QBCreds { username: value.qb_username.clone(), password: value.qb_password.clone() }
    }

    /// The credentials written as `username=<u>&password=<p>`, the plain
    /// concatenation with no percent-escaping: a display form, not an
    /// encoder. A driver that sends the fields lets its HTTP layer encode
    /// them.
    pub fn form_body(&self) -> (r: String)
        ensures
            r@ == "username="@ + self.username@ + "&password="@ + self.password@,
    {
        let mut r = String::from_str("username=");
        r.append(self.username.as_str());
        r.append("&password=");
        r.append(self.password.as_str());
        proof {
            assert(r@ =~= "username="@ + self.username@ + "&password="@ + self.password@);
        }
        r
    }
}

/// An opaque session credential for the torrent client: the bytes of the
/// `Set-Cookie` header of a successful login, passed back verbatim as a
/// `Cookie` header on later calls. Held in memory only and replaced wholesale
/// whenever the client stops accepting it.
#[derive(Debug)]
pub struct Credential {
    pub token: Vec<u8>,
}

impl View for Credential {
    type V = Seq<u8>;

    open spec fn view(&self) -> Seq<u8> {
        self.token@
    }
}

impl Credential {
    /// A deep copy of the credential, byte for byte, handed to the driver
    /// alongside each apply action.
    pub fn duplicate(&self) -> (c: Credential)
        ensures
            c@ == self@,
    {
        let mut token: Vec<u8> = Vec::new();
        let mut i: usize = 0;
        while i < self.token.len()
            invariant
                i <= self.token@.len(),
                token@ == self.token@.take(i as int),
            decreases self.token@.len() - i,
        {
            let b = self.token[i];
            token.push(b);
            proof {
                assert(token@ =~= self.token@.take(i + 1 as int));
            }
            i += 1;
        }
        proof {
            assert(token@ =~= self.token@);
        }
        Credential { token }
    }
}

/// A single byte is representable as header text: visible ASCII, the space,
/// or a horizontal tab.
pub open spec fn header_text_byte(b: u8) -> bool {
    (0x20 <= b && b < 0x7f) || b == 0x09
}

/// A cookie value is usable as a credential when every byte is representable
/// as header text.
pub open spec fn token_usable(bytes: Seq<u8>) -> bool {
    forall|i: int| 0 <= i < bytes.len() ==> header_text_byte(#[trigger] bytes[i])
}

/// Checks that every byte of a candidate cookie is representable as header
/// text.
pub fn bytes_usable(bytes: &Vec<u8>) -> (r: bool)
    ensures
        r == token_usable(bytes@),
{
    let mut i: usize = 0;
    while i < bytes.len()
        invariant
            i <= bytes@.len(),
            forall|j: int| 0 <= j < i ==> header_text_byte(#[trigger] bytes@[j]),
        decreases bytes@.len() - i,
    {
        let b = bytes[i];
        if (b < 0x20 || b >= 0x7f) && b != 0x09 {
            return false;
        }
        i += 1;
    }
    true
}

/// What a login response yields: the session token on HTTP 200 with a usable
/// cookie; a protocol violation on HTTP 200 without one; an auth rejection on
/// 401/403; a transient failure on any other status.
pub open spec fn login_outcome_model(status: u16, cookie: Option<Seq<u8>>) -> Result<
    Seq<u8>,
    ErrorModel,
> {
    if status != 200 {
        Err(status_error_model(status))
    } else {
        match cookie {
            Some(bytes) => if token_usable(bytes) {
                Ok(bytes)
            } else {
                Err(ErrorModel::ProtocolViolation)
            },
            None => Err(ErrorModel::ProtocolViolation),
        }
    }
}

/// The model of a login result as the control loop sees it.
pub open spec fn cred_result_model(r: Result<Credential, ClassifiedError>) -> Result<
    Seq<u8>,
    ErrorModel,
> {
    match r {
        Ok(c) => Ok(c@),
        Err(e) => Err(e@),
    }
}

/// Classifies a login response. `status` is the HTTP status of the response
/// and `set_cookie` the raw bytes of its `Set-Cookie` header, if any.
///
/// Success is HTTP 200 together with a usable cookie; a 200 without one is a
/// protocol violation, since the client answered but withheld the credential.
pub fn login_outcome(status: u16, set_cookie: Option<Vec<u8>>) -> (r: Result<
    Credential,
    ClassifiedError,
>)
    ensures
        cred_result_model(r) == login_outcome_model(
            status,
            match set_cookie {
                Some(bytes) => Some(bytes@),
                None => None,
            },
        ),
{
    if status != 200 {
        return Err(crate::errors::classify_status(status));
    }
    match set_cookie {
        Some(bytes) => {
            if bytes_usable(&bytes) {
                Ok(Credential { token: bytes })
            } else {
                Err(ClassifiedError::ProtocolViolation)
            }
        },
        None => Err(ClassifiedError::ProtocolViolation),
    }
}

} // verus!
