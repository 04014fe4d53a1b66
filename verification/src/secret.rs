//! Interpretation of the one-time secret fetch.
//!
//! The secrets provider answers a get-parameter request with an optional
//! parameter that optionally carries a value, or with a provider-level
//! failure. A usable secret is a present parameter with a non-empty value;
//! everything else is a typed startup failure.
use vstd::prelude::*;

use crate::errors::SSMError;
use crate::errors::SSMErrorView;

verus! {

/// A secret parameter resolved at startup: a name and its decrypted value.
/// The value is non-empty by construction.
#[derive(Debug, Clone)]
pub struct SecretParameter {
    name: String,
    value: String,
}

/// Mathematical model of a `SecretParameter`.
#[verifier::ext_equal]
pub struct SecretParameterView {
    pub name: Seq<char>,
    pub value: Seq<char>,
}

impl View for SecretParameter {
    type V = SecretParameterView;

    closed spec fn view(&self) -> SecretParameterView {
        SecretParameterView { name: self.name@, value: self.value@ }
    }
}

impl SecretParameterView {
    /// Invariant: the value is non-empty; an empty or absent value is an
    /// error, not a usable default.
    pub open spec fn wf(self) -> bool {
        self.value.len() > 0
    }
}

impl SecretParameter {
    /// Interprets the outcome of a get-parameter call for the named secret.
    /// `fetch` is `Err` when the provider call itself failed; otherwise it
    /// holds the optional parameter with its optional value.
    pub fn from_fetch(name: String, fetch: Result<Option<Option<String>>, String>) -> (r: Result<
        SecretParameter,
        SSMError,
    >)
        ensures
            match r {
                Ok(p) => {
                    &&& fetch matches Ok(Some(Some(v))) && v@.len() > 0
                    &&& p@.name == name@
                    &&& p@.value == fetch->Ok_0->0->0@
                    &&& p@.wf()
                },
                Err(e) => match e@ {
                    SSMErrorView::ParameterNotExist => fetch matches Ok(None),
                    SSMErrorView::EmptyParameter => fetch matches Ok(Some(v)) && (v is None
                        || v->0@.len() == 0),
                    SSMErrorView::Provider(m) => fetch matches Err(cause) && m == cause@,
                },
            },
    {
        match fetch {
            Err(cause) => Err(SSMError::Provider(cause)),
            Ok(None) => Err(SSMError::ParameterNotExist),
            Ok(Some(None)) => Err(SSMError::EmptyParameter),
            Ok(Some(Some(value))) => {
                if value.as_str().is_empty() {
                    Err(SSMError::EmptyParameter)
                } else {
                    Ok(SecretParameter { name, value })
                }
            },
        }
    }

    /// The secret's name.
    pub fn name(&self) -> (s: &str)
        ensures
            s@ == self@.name,
    {
        self.name.as_str()
    }

    /// The secret's decrypted value.
    pub fn value(&self) -> (s: &str)
        ensures
            s@ == self@.value,
    {
        self.value.as_str()
    }

    /// Consumes the parameter, yielding the decrypted value.
    pub fn into_value(self) -> (s: String)
        ensures
            s@ == self@.value,
    {
        self.value
    }
}

} // verus!
