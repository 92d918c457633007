//! Where the input comes from, and the consistency of the output flags.
use vstd::prelude::*;
use vstd::string::StringExecFns;

verus! {

/// The source of the input text.
#[derive(Clone, Debug)]
pub enum InputSource {
    /// The file at this path.
    File(String),
    /// Standard input.
    Stdin,
}

/// Where the input is read from: the named file when one is given, standard
/// input otherwise.
pub fn read_input(input_file: Option<&str>) -> (r: InputSource)
    ensures
        match input_file {
            Some(path) => r matches InputSource::File(p) && p@ == path@,
            None => r is Stdin,
        },
{
    match input_file {
        Some(path) => InputSource::File(String::from_str(path)),
        None => InputSource::Stdin,
    }
}

/// Whether the output flags agree: one-line JSON asks for JSON as well.
pub fn json_flags_valid(jsonify: bool, jsonify_one_line: bool) -> (r: bool)
    ensures
        r == (!jsonify_one_line || jsonify),
{
    !jsonify_one_line || jsonify
}

} // verus!
