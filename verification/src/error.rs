//! The layered error taxonomy of the auth middleware and of the storage layer, and the
//! structured bodies they surface to a rejected request.
//!
//! Credential, permission, algorithm and decode failures carry HTTP status
//! 401; failures to reach or parse the identity provider's key set are
//! infrastructure faults and carry 500. That asymmetry is deliberate and
//! load-bearing.

use vstd::prelude::*;

verus! {

/// The structured body returned with a failed request.
#[derive(Debug, Clone)]
pub struct ErrorMessage {
    pub error: Option<String>,
    pub error_description: Option<String>,
    pub message: String,
}

/// The body of an [`ErrorMessage`] as mathematical values.
pub ghost struct ErrorMessageView {
    pub error: Option<Seq<char>>,
    pub error_description: Option<Seq<char>>,
    pub message: Seq<char>,
}

impl View for ErrorMessage {
    type V = ErrorMessageView;

    open spec fn view(&self) -> ErrorMessageView {
        ErrorMessageView {
            error: match self.error {
                None => None,
                Some(s) => Some(s@),
            },
            error_description: match self.error_description {
                None => None,
                Some(s) => Some(s@),
            },
            message: self.message@,
        }
    }
}

/// A gate failure. Every rejected request ends in exactly one of these.
#[derive(Debug)]
pub enum ClientError {
    /// The request carried no usable bearer credential.
    Authentication,
    /// The identity provider's key-set endpoint could not be reached, or
    /// answered with an error status.
    SendRequestError(String),
    /// The token failed structural decoding, or its signature, expiry,
    /// audience or issuer check.
    Decode,
    /// The token named no key id, or the key set holds no key with the
    /// token's key id.
    NotFound(String),
    /// The resolved key's family is not RSA, or the token's declared
    /// algorithm is not RS256. The payload names the rejected algorithm.
    UnsupportedAlgorithm(String),
    /// The key-set response body could not be parsed as a key set.
    JsonPayloadError(String),
    /// The verified token lacks the required permission.
    NoPermission(String),
}

/// The shape of a gate failure, with payloads as character sequences.
pub ghost enum ClientErrorView {
    Authentication,
    SendRequestError(Seq<char>),
    Decode,
    NotFound(Seq<char>),
    UnsupportedAlgorithm(Seq<char>),
    JsonPayloadError(Seq<char>),
    NoPermission(Seq<char>),
}

impl View for ClientError {
    type V = ClientErrorView;

    open spec fn view(&self) -> ClientErrorView {
        match self {
            ClientError::Authentication => ClientErrorView::Authentication,
            ClientError::SendRequestError(e) => ClientErrorView::SendRequestError(e@),
            ClientError::Decode => ClientErrorView::Decode,
            ClientError::NotFound(m) => ClientErrorView::NotFound(m@),
            ClientError::UnsupportedAlgorithm(a) => ClientErrorView::UnsupportedAlgorithm(a@),
            ClientError::JsonPayloadError(e) => ClientErrorView::JsonPayloadError(e@),
            ClientError::NoPermission(l) => ClientErrorView::NoPermission(l@),
        }
    }
}

/// The HTTP status a failure surfaces with: 500 for infrastructure faults
/// (reaching or parsing the key set), 401 for everything else.
pub open spec fn spec_status_code(e: ClientErrorView) -> int {
    match e {
        ClientErrorView::SendRequestError(_) => 500,
        ClientErrorView::JsonPayloadError(_) => 500,
        _ => 401,
    }
}

/// The structured body a failure surfaces with.
pub open spec fn spec_error_response(e: ClientErrorView) -> ErrorMessageView {
    match e {
        ClientErrorView::Authentication => ErrorMessageView {
            error: None,
            error_description: Some(
                "Authorization header value must follow this format: Bearer access-token"@,
            ),
            message: "Requires authentication"@,
        },
        ClientErrorView::SendRequestError(err) => ErrorMessageView {
            error: Some(err),
            error_description: None,
            message: "Requires authentication"@,
        },
        ClientErrorView::JsonPayloadError(err) => ErrorMessageView {
            error: Some(err),
            error_description: None,
            message: "Requires authentication"@,
        },
        ClientErrorView::Decode => ErrorMessageView {
            error: Some("invalid_token"@),
            error_description: Some(
                "Authorization header value must follow this format: Bearer access-token"@,
            ),
            message: "Bad credentials"@,
        },
        ClientErrorView::NotFound(msg) => ErrorMessageView {
            error: Some("invalid_token"@),
            error_description: Some(msg),
            message: "Bad credentials"@,
        },
        ClientErrorView::UnsupportedAlgorithm(alg) => ErrorMessageView {
            error: Some("invalid_token"@),
            error_description: Some(
                "Unsupported encryption algorithm expected RSA got "@ + alg,
            ),
            message: "Bad credentials"@,
        },
        ClientErrorView::NoPermission(level) => ErrorMessageView {
            error: Some("lack of permissions"@),
            error_description: Some(
                "Your user doesn't have "@ + level + " permission"@,
            ),
            message: "Bad credentials"@,
        },
    }
}

impl ClientError {
    /// The HTTP status this failure surfaces with.
    pub fn status_code(&self) -> (r: u16)
        ensures
            r as int == spec_status_code(self@),
    {
        match self {
            ClientError::SendRequestError(_) => 500,
            ClientError::JsonPayloadError(_) => 500,
            _ => 401,
        }
    }

    /// The structured body this failure surfaces with.
    pub fn error_response(&self) -> (r: ErrorMessage)
        ensures
            r@ == spec_error_response(self@),
    {
        match self {
            ClientError::Authentication => ErrorMessage {
                error: None,
                error_description: Some(
                    "Authorization header value must follow this format: Bearer access-token"
                        .to_owned(),
                ),
                message: "Requires authentication".to_owned(),
            },
            ClientError::SendRequestError(err) => ErrorMessage {
                error: Some(err.clone()),
                error_description: None,
                message: "Requires authentication".to_owned(),
            },
            ClientError::JsonPayloadError(err) => ErrorMessage {
                error: Some(err.clone()),
                error_description: None,
                message: "Requires authentication".to_owned(),
            },
            ClientError::Decode => ErrorMessage {
                error: Some("invalid_token".to_owned()),
                error_description: Some(
                    "Authorization header value must follow this format: Bearer access-token"
                        .to_owned(),
                ),
                message: "Bad credentials".to_owned(),
            },
            ClientError::NotFound(msg) => ErrorMessage {
                error: Some("invalid_token".to_owned()),
                error_description: Some(msg.clone()),
                message: "Bad credentials".to_owned(),
            },
            ClientError::UnsupportedAlgorithm(alg) => ErrorMessage {
                error: Some("invalid_token".to_owned()),
                error_description: Some(
                    "Unsupported encryption algorithm expected RSA got "
                        .to_owned()
                        .concat(alg.as_str()),
                ),
                message: "Bad credentials".to_owned(),
            },
            ClientError::NoPermission(level) => ErrorMessage {
                error: Some("lack of permissions".to_owned()),
                error_description: Some(
                    "Your user doesn't have "
                        .to_owned()
                        .concat(level.as_str())
                        .concat(" permission"),
                ),
                message: "Bad credentials".to_owned(),
            },
        }
    }
}

/// A storage-layer failure. The storage backend is outside this crate; its
/// failures arrive as plain text and surface as server faults.
#[derive(Debug)]
pub enum RepositoryError {
    CreateUpdateUser(String),
    DeleteUser(String),
    GeneralError(String),
}

impl RepositoryError {
    /// A one-line description of the failure.
    pub fn to_message(&self) -> (r: String)
        ensures
            (self matches RepositoryError::CreateUpdateUser(e) ==> r@ == "Error saving data to Database: "@
                + e@),
            (self matches RepositoryError::DeleteUser(e) ==> r@
                == "Error deleting data in the Database: "@ + e@),
            (self matches RepositoryError::GeneralError(m) ==> r@ == m@),
    {
        match self {
            RepositoryError::CreateUpdateUser(err) => "Error saving data to Database: "
                .to_owned()
                .concat(err.as_str()),
            RepositoryError::DeleteUser(err) => "Error deleting data in the Database: "
                .to_owned()
                .concat(err.as_str()),
            RepositoryError::GeneralError(msg) => msg.clone(),
        }
    }

    /// The HTTP status a storage failure surfaces with: always a server
    /// fault.
    pub fn status_code(&self) -> (r: u16)
        ensures
            r == 500,
    {
        500
    }

    /// The structured body a storage failure surfaces with.
    pub fn error_response(&self) -> (r: ErrorMessage)
        ensures
            (self matches RepositoryError::CreateUpdateUser(e) ==> r@ == (ErrorMessageView {
                error: Some(e@),
                error_description: None,
                message: "Error when inserting user"@,
            })),
            (self matches RepositoryError::DeleteUser(e) ==> r@ == (ErrorMessageView {
                error: Some(e@),
                error_description: None,
                message: "Error when deleting user"@,
            })),
            (self matches RepositoryError::GeneralError(e) ==> r@ == (ErrorMessageView {
                error: Some(e@),
                error_description: None,
                message: "General error"@,
            })),
    {
        match self {
            RepositoryError::CreateUpdateUser(err) => ErrorMessage {
                error: Some(err.clone()),
                error_description: None,
                message: "Error when inserting user".to_owned(),
            },
            RepositoryError::DeleteUser(err) => ErrorMessage {
                error: Some(err.clone()),
                error_description: None,
                message: "Error when deleting user".to_owned(),
            },
            RepositoryError::GeneralError(err) => ErrorMessage {
                error: Some(err.clone()),
                error_description: None,
                message: "General error".to_owned(),
            },
        }
    }
}

} // verus!
