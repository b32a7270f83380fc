//! The executable command: a JSON array of strings whose first element is
//! the program path and whose rest are the argv tail. The JSON reading
//! itself is serde_json's; everything around it is checked here.

use vstd::prelude::*;

verus! {

#[verifier::external_type_specification]
#[verifier::external_body]
pub struct ExSerdeJsonError(serde_json::Error);

/// What serde_json reads a piece of text as, when asked for an array of
/// strings: the strings in order, or nothing when the text is not such an
/// array. The result depends on the text alone.
pub uninterp spec fn json_string_list(s: Seq<char>) -> Option<Seq<Seq<char>>>;

/// Relies on serde_json::from_str::<Vec<String>>: parses the text as a JSON
/// array of strings; errs exactly when the text is not one.
#[verifier::external_body]
fn parse_string_list(s: &str) -> (r: Result<Vec<String>, serde_json::Error>)
    ensures
        match r {
            Ok(v) => json_string_list(s@) == Some(v@.map_values(|t: String| t@)),
            Err(_) => json_string_list(s@) is None,
        },
{
    serde_json::from_str::<Vec<String>>(s)
}

/// Why a command string was rejected.
#[derive(Clone, Copy, Debug, PartialEq, Eq, Structural)]
pub enum CommandError {
    /// The command string is empty.
    Empty,
    /// The command string is not a JSON array of strings.
    Unparsable,
    /// The array is empty: there is no program to run.
    NoProgram,
}

/// Reads the command string: a non-empty JSON array of strings. Returns the
/// command vector, or says exactly why there is none.
pub fn exec_command(cmd: &str) -> (r: Result<Vec<String>, CommandError>)
    ensures
        match r {
            Ok(v) => {
                &&& cmd@.len() > 0
                &&& json_string_list(cmd@) == Some(v@.map_values(|t: String| t@))
                &&& v@.len() > 0
            },
            Err(e) => match e {
                CommandError::Empty => cmd@.len() == 0,
                CommandError::Unparsable => cmd@.len() > 0 && json_string_list(cmd@) is None,
                CommandError::NoProgram => cmd@.len() > 0 && json_string_list(cmd@) == Some(
                    Seq::<Seq<char>>::empty(),
                ),
            },
        },
{
    if cmd.is_empty() {
        return Err(CommandError::Empty);
    }
    match parse_string_list(cmd) {
        Ok(v) => {
            if v.len() == 0 {
                proof {
                    assert(v@.map_values(|t: String| t@) =~= Seq::<Seq<char>>::empty());
                }
                Err(CommandError::NoProgram)
            } else {
                Ok(v)
            }
        },
        Err(_) => Err(CommandError::Unparsable),
    }
}

} // verus!
