//! The settings form.

use vstd::prelude::*;

verus! {

/// The form that sets the provider key of the current user.
#[derive(Debug, Clone, PartialEq, Eq)]
pub struct OpenAiAPIKey {
    pub api_key: String,
}

} // verus!
