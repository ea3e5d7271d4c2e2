//! Where the credential comes from.

use vstd::prelude::*;
use vstd::string::StringExecFns;

verus! {

/// A reference to the credential: the secret itself, or the name of an
/// environment variable that holds it.
#[derive(Debug, PartialEq, Eq)]
pub enum ApiKeyRef {
    Value(String),
    Env(Option<String>),
}

/// What a [`ApiKeyRef`] is, over sequences: the value that contracts speak of.
pub enum ApiKeyRefView {
    Value(Seq<char>),
    Env(Option<Seq<char>>),
}

/// The variable that is read where a reference names none.
pub open spec fn default_variable() -> Seq<char> {
    "OPENAI_KEY"@
}

impl View for ApiKeyRef {
    type V = ApiKeyRefView;

    open spec fn view(&self) -> ApiKeyRefView {
        match self {
            ApiKeyRef::Value(key) => ApiKeyRefView::Value(key@),
            ApiKeyRef::Env(Some(name)) => ApiKeyRefView::Env(Some(name@)),
            ApiKeyRef::Env(None) => ApiKeyRefView::Env(None),
        }
    }
}

impl ApiKeyRefView {
    /// What the reference prints as: the secret, or the variable's name.
    pub open spec fn text(self) -> Seq<char> {
        match self {
            ApiKeyRefView::Value(key) => key,
            ApiKeyRefView::Env(Some(name)) => name,
            ApiKeyRefView::Env(None) => default_variable(),
        }
    }

    /// The variable to look up, where the reference names one.
    pub open spec fn variable(self) -> Option<Seq<char>> {
        match self {
            ApiKeyRefView::Value(_) => None,
            ApiKeyRefView::Env(Some(name)) => Some(name),
            ApiKeyRefView::Env(None) => Some(default_variable()),
        }
    }

    /// The credential, given what the lookup of the variable found: the
    /// secret itself, or what was found, or the empty text where nothing was.
    pub open spec fn resolved(self, found: Option<Seq<char>>) -> Seq<char> {
        match self {
            ApiKeyRefView::Value(key) => key,
            ApiKeyRefView::Env(_) => match found {
                Some(value) => value,
                None => Seq::empty(),
            },
        }
    }
}

impl Clone for ApiKeyRef {
    fn clone(&self) -> (copy: ApiKeyRef)
        ensures
            copy@ == self@,
    {
        match self {
            ApiKeyRef::Value(key) => ApiKeyRef::Value(key.clone()),
            ApiKeyRef::Env(Some(name)) => ApiKeyRef::Env(Some(name.clone())),
            ApiKeyRef::Env(None) => ApiKeyRef::Env(None),
        }
    }
}

impl Default for ApiKeyRef {
    fn default() -> (it: ApiKeyRef)
        ensures
            it@ == ApiKeyRefView::Env(Some(default_variable())),
    {
        ApiKeyRef::Env(Some(String::from_str("OPENAI_KEY")))
    }
}

impl ApiKeyRef {
    /// The reference as it prints.
    pub fn to_string(&self) -> (text: String)
        ensures
            text@ == self@.text(),
    {
        match self {
            ApiKeyRef::Value(key) => key.clone(),
            ApiKeyRef::Env(Some(name)) => name.clone(),
            ApiKeyRef::Env(None) => String::from_str("OPENAI_KEY"),
        }
    }

    /// The environment variable whose value the caller is to look up before
    /// it asks for the credential.
    pub fn variable(&self) -> (name: Option<String>)
        ensures
            match name {
                Some(n) => self@.variable() == Some(n@),
                None => self@.variable() is None,
            },
    {
        match self {
            ApiKeyRef::Value(_) => None,
            ApiKeyRef::Env(Some(name)) => Some(name.clone()),
            ApiKeyRef::Env(None) => Some(String::from_str("OPENAI_KEY")),
        }
    }

    /// Resolves the credential. `found` is what the lookup of
    /// [`ApiKeyRef::variable`] gave; an empty result means there is none.
    pub fn api_key(&self, found: Option<String>) -> (key: String)
        ensures
            key@ == self@.resolved(
                match found {
                    Some(value) => Some(value@),
                    None => None,
                },
            ),
    {
        match self {
            ApiKeyRef::Value(key) => key.clone(),
            ApiKeyRef::Env(_) => match found {
                Some(value) => value,
                None => String::new(),
            },
        }
    }
}

} // verus!
