use vstd::prelude::*;

verus! {

#[verifier::external_type_specification]
#[verifier::external_body]
pub struct ExFromUtf8Error(std::string::FromUtf8Error);

#[verifier::external_type_specification]
#[verifier::external_body]
pub struct ExParseError(chrono::format::ParseError);

/// Every way in which an operation of the pipeline can fail, with its cause.
#[derive(Debug)]
pub enum CliError {
    IoError(String),
    YamlError(String),
    XmlError(std::string::FromUtf8Error),
    S3UploadError(String),
    Mp3Error(String),
    ChronoError(chrono::format::ParseError),
    Unknown,
}

} // verus!
