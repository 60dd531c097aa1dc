//! The language model service, as far as no connection is needed to speak of it.

use vstd::prelude::*;

verus! {

/// A model that the service offers.
#[derive(Debug)]
pub struct ModelInfo {
    pub name: String,
    pub size: u64,
}

/// Where the service listens unless configured otherwise.
pub fn default_endpoint() -> (r: &'static str)
    ensures
        r@ == "http://localhost:11434"@,
{
    "http://localhost:11434"
}

/// The model that answers unless another is set.
pub fn default_model() -> (r: &'static str)
    ensures
        r@ == "mistral:7b-instruct"@,
{
    "mistral:7b-instruct"
}

/// The small model that answers quick questions.
pub fn fast_model() -> (r: &'static str)
    ensures
        r@ == "llama3.2:1b"@,
{
    "llama3.2:1b"
}

/// The seconds that an answer may take.
pub const DEFAULT_TIMEOUT: u64 = 30;

/// The seconds that a quick answer may take.
pub const FAST_TIMEOUT: u64 = 10;

/// The names of the models, in order.
pub fn model_names(models: &Vec<ModelInfo>) -> (r: Vec<String>)
    ensures
        r.len() == models.len(),
        forall|i: int| 0 <= i < r.len() ==> (#[trigger] r[i])@ == models[i].name@,
{
    let mut out: Vec<String> = Vec::new();
    let mut i: usize = 0;
    while i < models.len()
        invariant
            i <= models.len(),
            out.len() == i,
            forall|k: int| 0 <= k < i ==> (#[trigger] out[k])@ == models[k].name@,
        decreases models.len() - i,
    {
        out.push(models[i].name.clone());
        i += 1;
    }
    out
}

} // verus!
