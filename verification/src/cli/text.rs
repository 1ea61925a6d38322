use vstd::prelude::*;
use vstd::string::StringExecFns;

use crate::cli::str_eq;

verus! {

#[derive(Debug)]
pub enum TextSubCommand {
    Sign(TextSignOpts),
    Verify(TextVerifyOpts),
    Generate(TextGenerateKeyOpts),
}

#[derive(Debug, Clone)]
pub struct TextSignOpts {
    pub input: String,
    pub key: String,
    pub format: TextSignFormat,
}

#[derive(Debug, Clone)]
pub struct TextVerifyOpts {
    pub input: String,
    pub key: String,
    pub signature: String,
    pub format: TextSignFormat,
}

#[derive(Debug, Clone)]
pub struct TextGenerateKeyOpts {
    pub format: TextSignFormat,
    pub output: String,
}

/// Selects the signing scheme: the keyed hash or the asymmetric signature.
#[derive(Debug, Clone, Copy, PartialEq, Eq, Structural)]
pub enum TextSignFormat {
    Black3,
    Ed25519,
}

/// Maps the command-line token to a signing scheme.
pub fn parse_text_sign_format(f: &str) -> (r: Result<TextSignFormat, String>)
    ensures
        f@ == "black3"@ ==> r == Ok::<TextSignFormat, String>(TextSignFormat::Black3),
        f@ == "ed25519"@ ==> r == Ok::<TextSignFormat, String>(TextSignFormat::Ed25519),
        f@ != "black3"@ && f@ != "ed25519"@ ==> r is Err,
{
    proof {
        reveal_strlit("black3");
        reveal_strlit("ed25519");
        assert("black3"@.len() == 6 && "ed25519"@.len() == 7);
    }
    if str_eq(f, "black3") {
        Ok(TextSignFormat::Black3)
    } else if str_eq(f, "ed25519") {
        Ok(TextSignFormat::Ed25519)
    } else {
        Err(String::from_str("Invalid text sign format"))
    }
}

impl core::str::FromStr for TextSignFormat {
    type Err = String;

    fn from_str(s: &str) -> Result<Self, Self::Err> {
        parse_text_sign_format(s)
    }
}

impl TextSignFormat {
    /// The command-line token of the variant.
    pub fn as_str(self) -> (r: &'static str)
        ensures
            self is Black3 ==> r@ == "black3"@,
            self is Ed25519 ==> r@ == "ed25519"@,
    {
        match self {
            TextSignFormat::Black3 => "black3",
            TextSignFormat::Ed25519 => "ed25519",
        }
    }
}

} // verus!
