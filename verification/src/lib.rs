use vstd::prelude::*;

pub mod audio;
pub mod b64;
pub mod decode;
pub mod encode;
pub mod events;
pub mod jsontext;
pub mod protocol;
pub mod session;

verus! {

/// The model identifier assumed when a session update names none.
pub fn default_model() -> (m: String)
    ensures
        m@ == "Qwen/Qwen2.5-0.5B-Instruct-GGUF"@,
{
    "Qwen/Qwen2.5-0.5B-Instruct-GGUF".to_owned()
}

} // verus!
