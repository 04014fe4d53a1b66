//! Session credentials and validation of the role-assumption response.
//!
//! The role-assumption provider may answer with a response that carries no
//! credentials, or carries a credential object with missing fields. Such a
//! response is a typed `InvalidResponse` failure, never a crash: a `Creds`
//! value exists only when all three fields are present and non-empty.
use vstd::prelude::*;

use crate::errors::STSError;
use crate::errors::STSErrorView;

verus! {

/// Seconds of validity requested for each session: four hours.
pub const DEFAULT_SESSION_TIME: u32 = 3600 * 4;

/// The fixed, deterministic session name identifying this pipeline.
pub open spec fn session_name_spec() -> Seq<char> {
    "fastlycredspusher"@
}

/// Returns the fixed session name used for every role-assumption request.
pub fn session_name() -> (s: &'static str)
    ensures
        s@ == session_name_spec(),
{
    "fastlycredspusher"
}

/// The raw credential object of a role-assumption response, before
/// validation: every field may be absent.
#[derive(Debug, Clone)]
pub struct RoleFields {
    pub access_key_id: Option<String>,
    pub secret_access_key: Option<String>,
    pub session_token: Option<String>,
}

/// Mathematical model of a `RoleFields`.
#[verifier::ext_equal]
pub struct RoleFieldsView {
    pub access_key_id: Option<Seq<char>>,
    pub secret_access_key: Option<Seq<char>>,
    pub session_token: Option<Seq<char>>,
}

impl View for RoleFields {
    type V = RoleFieldsView;

    open spec fn view(&self) -> RoleFieldsView {
        RoleFieldsView {
            access_key_id: match self.access_key_id {
                Some(s) => Some(s@),
                None => None,
            },
            secret_access_key: match self.secret_access_key {
                Some(s) => Some(s@),
                None => None,
            },
            session_token: match self.session_token {
                Some(s) => Some(s@),
                None => None,
            },
        }
    }
}

/// A validated credential triple: every field present and non-empty.
#[derive(Debug, Clone)]
pub struct Creds {
    pub aws_access_key_id: String,
    pub aws_secret_access_key: String,
    pub aws_session_token: String,
}

/// Mathematical model of a `Creds`.
#[verifier::ext_equal]
pub struct CredsView {
    pub access_key_id: Seq<char>,
    pub secret_access_key: Seq<char>,
    pub session_token: Seq<char>,
}

impl View for Creds {
    type V = CredsView;

    open spec fn view(&self) -> CredsView {
        CredsView {
            access_key_id: self.aws_access_key_id@,
            secret_access_key: self.aws_secret_access_key@,
            session_token: self.aws_session_token@,
        }
    }
}

impl CredsView {
    /// Invariant of a credential triple: all three fields non-empty.
    pub open spec fn wf(self) -> bool {
        &&& self.access_key_id.len() > 0
        &&& self.secret_access_key.len() > 0
        &&& self.session_token.len() > 0
    }
}

/// A raw credential object is complete when all three fields are present and
/// non-empty; anything less is a retrieval failure, not a partial value.
pub open spec fn fields_complete(f: RoleFieldsView) -> bool {
    &&& f.access_key_id matches Some(k) && k.len() > 0
    &&& f.secret_access_key matches Some(k) && k.len() > 0
    &&& f.session_token matches Some(k) && k.len() > 0
}

/// The credential triple carried by a complete raw credential object.
pub open spec fn creds_of(f: RoleFieldsView) -> CredsView
    recommends
        fields_complete(f),
{
    CredsView {
        access_key_id: f.access_key_id->0,
        secret_access_key: f.secret_access_key->0,
        session_token: f.session_token->0,
    }
}

impl Creds {
    /// Validates the credential object of a successful role-assumption
    /// response. Returns the triple exactly when the response carried a
    /// credential object with all three fields present and non-empty;
    /// otherwise the response is invalid.
    pub fn from_response(response: Option<RoleFields>) -> (r: Result<Creds, STSError>)
        ensures
            match r {
                Ok(c) => {
                    &&& response matches Some(f) && fields_complete(f@)
                    &&& c@ == creds_of(response->0@)
                    &&& c@.wf()
                },
                Err(e) => {
                    &&& e@ == STSErrorView::InvalidResponse
                    &&& (response is None || !fields_complete(response->0@))
                },
            },
    {
        match response {
            None => Err(STSError::InvalidResponse),
            Some(f) => {
                match (f.access_key_id, f.secret_access_key, f.session_token) {
                    (Some(key_id), Some(secret), Some(token)) => {
                        if key_id.as_str().is_empty() || secret.as_str().is_empty()
                            || token.as_str().is_empty() {
                            Err(STSError::InvalidResponse)
                        } else {
                            Ok(
                                Creds {
                                    aws_access_key_id: key_id,
                                    aws_secret_access_key: secret,
                                    aws_session_token: token,
                                },
                            )
                        }
                    },
                    _ => Err(STSError::InvalidResponse),
                }
            },
        }
    }
}

} // verus!
