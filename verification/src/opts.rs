use vstd::prelude::*;
use vstd::string::StringExecFns;

use crate::cli::{path_exists, str_eq};

verus! {

#[derive(Debug)]
pub struct Opts {
    pub cmd: Subcommand,
}

#[derive(Debug)]
pub enum Subcommand {
    Csv(CsvOpts),
}

/// Output format of the CSV conversion.
#[derive(Debug, Clone, Copy, PartialEq, Eq, Structural)]
pub enum OutputFormat {
    Json,
    Yaml,
}

#[derive(Debug, Clone)]
pub struct CsvOpts {
    pub input: String,
    pub output: Option<String>,
    pub format: OutputFormat,
    pub header: bool,
    pub delimiter: char,
}

/// The decision of `verify_input_file`, taken once the existence probe has
/// answered: only a path that exists is accepted.
pub fn resolve_input_file(file_name: &str, exists: bool) -> (r: Result<String, &'static str>)
    ensures
        exists ==> (r matches Ok(s) && s@ == file_name@),
        !exists ==> (r matches Err(e) && e@ == "Input file does not exist"@),
{
    if exists {
        Ok(String::from_str(file_name))
    } else {
        Err("Input file does not exist")
    }
}

/// Accepts only a path that exists on disk.
pub fn verify_input_file(file_name: &str) -> (r: Result<String, &'static str>)
    ensures
        r matches Ok(s) ==> s@ == file_name@,
        r matches Err(e) ==> e@ == "Input file does not exist"@,
{
    let exists = path_exists(file_name);
    resolve_input_file(file_name, exists)
}

/// Maps the command-line token to an output format.
pub fn parse_format(format: &str) -> (r: Result<OutputFormat, String>)
    ensures
        format@ == "json"@ ==> r == Ok::<OutputFormat, String>(OutputFormat::Json),
        format@ == "yaml"@ ==> r == Ok::<OutputFormat, String>(OutputFormat::Yaml),
        format@ != "json"@ && format@ != "yaml"@ ==> r is Err,
{
    proof {
        reveal_strlit("json");
        reveal_strlit("yaml");
        assert("json"@[0] == 'j' && "yaml"@[0] == 'y');
    }
    if str_eq(format, "json") {
        Ok(OutputFormat::Json)
    } else if str_eq(format, "yaml") {
        Ok(OutputFormat::Yaml)
    } else {
        Err(String::from_str("Invalid format"))
    }
}

impl core::str::FromStr for OutputFormat {
    type Err = String;

    fn from_str(s: &str) -> Result<Self, Self::Err> {
        parse_format(s)
    }
}

impl OutputFormat {
    /// The command-line token of the variant.
    pub fn as_str(self) -> (r: &'static str)
        ensures
            self is Json ==> r@ == "json"@,
            self is Yaml ==> r@ == "yaml"@,
    {
        match self {
            OutputFormat::Json => "json",
            OutputFormat::Yaml => "yaml",
        }
    }
}

} // verus!
