mod base64;
mod text;

use vstd::prelude::*;
use vstd::string::StrSliceExecFns;
use vstd::string::StringExecFns;

pub use base64::{
    Base64DecodeOpts, Base64EncodeOpts, Base64Format, Base64SubCommand, parse_base64_format,
};
pub use text::{
    TextGenerateKeyOpts, TextSignFormat, TextSignOpts, TextSubCommand, TextVerifyOpts,
    parse_text_sign_format,
};
pub use crate::opts::{CsvOpts, OutputFormat};

verus! {

/// Top-level command selection: one variant per tool of the suite.
#[derive(Debug)]
pub struct Opts {
    pub cmd: Subcommand,
}

#[derive(Debug)]
pub enum Subcommand {
    Csv(CsvOpts),
    GenPass(GenPassOpts),
    Base64(Base64SubCommand),
    Text(TextSubCommand),
}

/// Options of the password generator; the generator itself lives outside the
/// library, as it is pure sampling around the operating system's randomness.
#[derive(Debug, Clone)]
pub struct GenPassOpts {
    pub length: u8,
    pub uppercase: bool,
    pub lowercase: bool,
    pub number: bool,
    pub symbol: bool,
}

/// Character-for-character equality of two string slices.
pub fn str_eq(a: &str, b: &str) -> (r: bool)
    ensures
        r == (a@ == b@),
{
    let a_len = a.unicode_len();
    if a_len != b.unicode_len() {
        return false;
    }
    let mut i: usize = 0;
    while i < a_len
        invariant
            i <= a_len,
            a_len == a@.len(),
            a_len == b@.len(),
            forall|k: int| 0 <= k < i ==> a@[k] == b@[k],
        decreases a_len - i,
    {
        let ca = a.get_char(i);
        let cb = b.get_char(i);
        if ca != cb {
            assert(a@[i as int] != b@[i as int]);
            return false;
        }
        i += 1;
    }
    proof {
        assert(a@ =~= b@);
    }
    true
}

/// Relies on std::path::Path::exists to probe the file system. Nothing is
/// promised of the answer: it depends on the state of the machine.
#[verifier::external_body]
pub(crate) fn path_exists(name: &str) -> bool {
    std::path::Path::new(name).exists()
}

/// The decision of `verify_input_file`, taken once the existence probe has
/// answered: `-` (standard input) is always accepted, a path only if it exists.
pub fn resolve_input_file(file_name: &str, exists: bool) -> (r: Result<String, &'static str>)
    ensures
        (file_name@ == "-"@ || exists) ==> (r matches Ok(s) && s@ == file_name@),
        !(file_name@ == "-"@ || exists) ==> (r matches Err(e) && e@ == "File does not exist"@),
{
    if str_eq(file_name, "-") || exists {
        Ok(String::from_str(file_name))
    } else {
        Err("File does not exist")
    }
}

/// Accepts `-` (standard input) or a path that exists on disk.
pub fn verify_input_file(file_name: &str) -> (r: Result<String, &'static str>)
    ensures
        file_name@ == "-"@ ==> r matches Ok(s),
        r matches Ok(s) ==> s@ == file_name@,
        r matches Err(e) ==> e@ == "File does not exist"@ && file_name@ != "-"@,
{
    let exists = path_exists(file_name);
    resolve_input_file(file_name, exists)
}

} // verus!
