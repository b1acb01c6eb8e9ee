//! The command line of the compiler.

use vstd::prelude::*;
use vstd::string::{StrSliceExecFns, StringExecFns};

verus! {

/// The arguments of the command line. An empty path stands for a path that
/// was not given.
#[derive(Debug, PartialEq, Eq)]
pub struct Cli {
    /// The path to the data file.
    pub data: String,
    /// The path to the model file.
    pub model: String,
}

/// Where the path to the model comes from.
#[derive(Debug, PartialEq, Eq)]
pub enum ModelPath {
    /// It was given on the command line.
    Given(String),
    /// It has to be asked for.
    Asked,
}

impl Cli {
    /// Where the path to the model comes from: the command line where it
    /// gives one, else a prompt.
    pub fn model_path(&self) -> (r: ModelPath)
        ensures
            match r {
                ModelPath::Given(p) => self.model@.len() > 0 && p@ == self.model@,
                ModelPath::Asked => self.model@.len() == 0,
            },
    {
        if self.model.as_str().unicode_len() == 0 {
            ModelPath::Asked
        } else {
            ModelPath::Given(self.model.clone())
        }
    }

    /// The path that was entered at the prompt: the line that was read
    /// without its last character, which ends the line. An empty line holds
    /// no path.
    pub fn entered_path(line: &str) -> (r: Option<String>)
        ensures
            match r {
                Some(p) => line@.len() > 0 && p@ == line@.drop_last(),
                None => line@.len() == 0,
            },
    {
        let n: usize = line.unicode_len();
        if n == 0 {
            None
        } else {
            Some(String::from_str(line.substring_char(0, n - 1)))
        }
    }
}

} // verus!
