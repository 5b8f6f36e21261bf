//! The exported-symbol manifest: the list of exported symbols as the text
//! that the native build reads.

use vstd::prelude::*;
use vstd::string::*;
use crate::model::TsModule;
use crate::symbols::{collect_exported_function_names, exported_symbols};

verus! {

/// The error type of `serde_json`. Nothing is known of a value of it.
#[verifier::external_type_specification]
#[verifier::external_body]
pub struct ExJsonError(serde_json::Error);

/// The JSON text that `serde_json::to_string` gives for a list of strings.
pub uninterp spec fn json_of_names(names: Seq<Seq<char>>) -> Seq<char>;

/// Calls `serde_json::to_string` on a list of strings. Believed of it, not
/// proved: it answers with a text, and the text depends on the strings
/// alone. The serializer fails only where a value's own serialization
/// fails or a map has a key that is no string; a list of strings has
/// neither, and what it writes goes to a byte vector in memory.
#[verifier::external_body]
fn names_to_json(names: &Vec<String>) -> (r: Result<String, serde_json::Error>)
    ensures
        r is Ok,
        r->Ok_0@ == json_of_names(names.deep_view()),
{
    serde_json::to_string(names)
}

/// Why a serialization gave no manifest.
#[derive(Clone, Copy, Debug, PartialEq, Eq, Structural)]
pub enum ManifestError {
    /// The serializer answered with an error.
    NotSerialized,
}

/// The manifest for an outcome of the serialization: its text, or the
/// library's error in place of the serializer's.
pub fn manifest_from(outcome: Result<String, serde_json::Error>) -> (r: Result<String, ManifestError>)
    ensures
        match outcome {
            Ok(text) => r is Ok && r->Ok_0@ == text@,
            Err(_) => r == Err::<String, ManifestError>(ManifestError::NotSerialized),
        },
{
    match outcome {
        Ok(text) => Ok(text),
        Err(_) => Err(ManifestError::NotSerialized),
    }
}

/// The manifest of a model: the JSON text of its exported symbols, in the
/// collector's order. There is one for every model.
pub fn exported_functions_manifest(modules: &[TsModule]) -> (r: Result<String, ManifestError>)
    ensures
        r is Ok,
        r->Ok_0@ == json_of_names(exported_symbols(modules.deep_view())),
{
    let names = collect_exported_function_names(modules);
    manifest_from(names_to_json(&names))
}

} // verus!
