pub mod cli;
pub mod opts;
pub mod process;

pub use cli::{
    Base64DecodeOpts, Base64EncodeOpts, Base64Format, Base64SubCommand, CsvOpts, GenPassOpts,
    Opts, OutputFormat, Subcommand, TextGenerateKeyOpts, TextSignFormat, TextSignOpts,
    TextSubCommand, TextVerifyOpts, parse_base64_format, parse_text_sign_format,
    verify_input_file,
};
pub use process::{
    Black3, Ed25519Signer, Ed25519Verifier, KeyLoader, KeyMaterial, KeyRole, ProcessError,
    TextSign, TextVerify, decode, encode, load_key, process_decode, process_encode,
    process_text_generate_key, process_text_sign, process_text_verify, sign_message,
    verify_message,
};
