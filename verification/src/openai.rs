//! The voice descriptions of the hosted synthesis service. The service
//! itself (network requests, audio decoding) is an external collaborator.

use vstd::prelude::*;

verus! {

/// One voice offered by the hosted synthesis service.
#[derive(Debug, PartialEq)]
pub struct OpenAIVoice {
    pub id: String,
    pub name: String,
}

impl Clone for OpenAIVoice {
    fn clone(&self) -> (r: Self)
        ensures
            r == *self,
    {
        OpenAIVoice { id: self.id.clone(), name: self.name.clone() }
    }
}

} // verus!
