use vstd::prelude::*;
use vstd::string::StringExecFns;

use crate::cli::str_eq;

verus! {

/// Selects the alphabet and padding rule of the base64 codec: the standard
/// alphabet with `=` padding, or the URL-safe alphabet without padding.
#[derive(Debug, Clone, Copy, PartialEq, Eq, Structural)]
pub enum Base64Format {
    Standard,
    UrlSafe,
}

#[derive(Debug)]
pub enum Base64SubCommand {
    Encode(Base64EncodeOpts),
    Decode(Base64DecodeOpts),
}

#[derive(Debug, Clone)]
pub struct Base64EncodeOpts {
    pub input: String,
    pub format: Base64Format,
}

#[derive(Debug, Clone)]
pub struct Base64DecodeOpts {
    pub input: String,
    pub format: Base64Format,
}

/// Maps the command-line token to a codec variant.
pub fn parse_base64_format(format: &str) -> (r: Result<Base64Format, String>)
    ensures
        format@ == "standard"@ ==> r == Ok::<Base64Format, String>(Base64Format::Standard),
        format@ == "urlsafe"@ ==> r == Ok::<Base64Format, String>(Base64Format::UrlSafe),
        format@ != "standard"@ && format@ != "urlsafe"@ ==> r is Err,
{
    proof {
        reveal_strlit("standard");
        reveal_strlit("urlsafe");
        assert("standard"@.len() == 8 && "urlsafe"@.len() == 7);
    }
    if str_eq(format, "standard") {
        Ok(Base64Format::Standard)
    } else if str_eq(format, "urlsafe") {
        Ok(Base64Format::UrlSafe)
    } else {
        Err(String::from_str("invalid base64 format"))
    }
}

impl core::str::FromStr for Base64Format {
    type Err = String;

    fn from_str(s: &str) -> Result<Self, Self::Err> {
        parse_base64_format(s)
    }
}

impl Base64Format {
    /// The command-line token of the variant.
    pub fn as_str(self) -> (r: &'static str)
        ensures
            self is Standard ==> r@ == "standard"@,
            self is UrlSafe ==> r@ == "urlsafe"@,
    {
        match self {
            Base64Format::Standard => "standard",
            Base64Format::UrlSafe => "urlsafe",
        }
    }
}

} // verus!
