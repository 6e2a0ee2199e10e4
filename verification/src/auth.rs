//! How credentials are attached to a request.

use vstd::prelude::*;

verus! {

/// The way a backend wants credentials presented. It cannot be printed, so
/// that no credential ends up in a log.
#[derive(Clone, PartialEq, Eq)]
pub enum AuthMethod {
    /// `Authorization: Bearer <token>`.
    BearerToken(String),
    /// A header of the backend's own choosing that holds the key.
    ApiKey { header: String, key: String },
    /// No credentials.
    Anonymous,
}

/// The mathematical reading of an [`AuthMethod`].
pub enum AuthView {
    BearerToken(Seq<char>),
    ApiKey { header: Seq<char>, key: Seq<char> },
    Anonymous,
}

impl View for AuthMethod {
    type V = AuthView;

    open spec fn view(&self) -> AuthView {
        match self {
            AuthMethod::BearerToken(token) => AuthView::BearerToken(token@),
            AuthMethod::ApiKey { header, key } => AuthView::ApiKey { header: header@, key: key@ },
            AuthMethod::Anonymous => AuthView::Anonymous,
        }
    }
}

impl AuthView {
    /// The header, as name and value, that carries the credentials.
    pub open spec fn header(self) -> Option<(Seq<char>, Seq<char>)> {
        match self {
            AuthView::BearerToken(token) => Some(("Authorization"@, "Bearer "@ + token)),
            AuthView::ApiKey { header, key } => Some((header, key)),
            AuthView::Anonymous => None,
        }
    }
}

impl AuthMethod {
    /// The header to add to every request, as name and value; `None` where
    /// the backend wants no credentials.
    pub fn header(&self) -> (r: Option<(String, String)>)
        ensures
            match self@.header() {
                Some((name, value)) => r matches Some(pair) && pair.0@ == name && pair.1@ == value,
                None => r is None,
            },
    {
        match self {
            AuthMethod::BearerToken(token) => Some(
                (
                    String::from_str("Authorization"),
                    String::from_str("Bearer ").concat(token.as_str()),
                ),
            ),
            AuthMethod::ApiKey { header, key } => Some((header.clone(), key.clone())),
            AuthMethod::Anonymous => None,
        }
    }
}

} // verus!
