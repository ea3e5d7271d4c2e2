//! The model a session talks to.

use vstd::prelude::*;
use vstd::string::StringExecFns;

verus! {

/// A model identifier.
#[derive(Debug)]
pub struct Model(pub String);

/// The identifier of the model used where none is named.
pub open spec fn default_model_name() -> Seq<char> {
    "gpt-4o-realtime-preview-2024-12-17"@
}

impl View for Model {
    type V = Seq<char>;

    open spec fn view(&self) -> Seq<char> {
        self.0@
    }
}

impl DeepView for Model {
    type V = Seq<char>;

    open spec fn deep_view(&self) -> Seq<char> {
        self.0@
    }
}

impl Clone for Model {
    fn clone(&self) -> (model: Model)
        ensures
            model@ == self@,
    {
        Model(self.0.clone())
    }
}

impl Default for Model {
    fn default() -> (model: Model)
        ensures
            model@ == default_model_name(),
    {
        Model(String::from_str("gpt-4o-realtime-preview-2024-12-17"))
    }
}

impl Model {
    /// The identifier as text.
    pub fn to_string(&self) -> (text: String)
        ensures
            text@ == self@,
    {
        self.0.clone()
    }
}

} // verus!
