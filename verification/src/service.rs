//! The plain values that a service around the validator answers with.

use vstd::prelude::*;
use vstd::string::StringExecFns;
use crate::engine::{validation, IbanInfo, IbanValidationError, InfoView};
use crate::registry::Registry;

verus! {

/// How much a process logs, as chosen on the command line.
#[derive(Clone, Copy, Debug, PartialEq, Eq, Structural)]
pub enum LogLevel {
    Trace,
    Debug,
    Info,
    Warn,
    Error,
}

/// The most verbose level that a log filter lets through.
#[derive(Clone, Copy, Debug, PartialEq, Eq, Structural)]
pub enum LevelFilter {
    Off,
    Error,
    Warn,
    Info,
    Debug,
    Trace,
}

impl LogLevel {
    /// The filter that lets this level and the less verbose ones through.
    pub open spec fn filter(self) -> LevelFilter {
        match self {
            LogLevel::Trace => LevelFilter::Trace,
            LogLevel::Debug => LevelFilter::Debug,
            LogLevel::Info => LevelFilter::Info,
            LogLevel::Warn => LevelFilter::Warn,
            LogLevel::Error => LevelFilter::Error,
        }
    }

    pub fn to_filter(&self) -> (r: LevelFilter)
        ensures
            r == self.filter(),
    {
        match self {
            LogLevel::Trace => LevelFilter::Trace,
            LogLevel::Debug => LevelFilter::Debug,
            LogLevel::Info => LevelFilter::Info,
            LogLevel::Warn => LevelFilter::Warn,
            LogLevel::Error => LevelFilter::Error,
        }
    }
}

/// A response that is one message.
#[derive(Clone, Debug)]
pub struct MessageResponse {
    /// Information or an error message.
    pub message: String,
}

impl MessageResponse {
    /// The message as text.
    pub fn to_text(&self) -> (r: String)
        ensures
            r@ == self.message@,
    {
        self.message.clone()
    }
}

/// What the service answers to a request for an account number's parts.
#[derive(Debug)]
pub enum IbanResponse {
    Info(IbanInfo),
    Error(MessageResponse),
}

/// An answer as sequences of characters.
pub enum ResponseView {
    Info(InfoView),
    Error(Seq<char>),
}

impl View for IbanResponse {
    type V = ResponseView;

    open spec fn view(&self) -> ResponseView {
        match self {
            IbanResponse::Info(info) => ResponseView::Info(info@),
            IbanResponse::Error(e) => ResponseView::Error(e.message@),
        }
    }
}

/// The status of a successful answer.
pub const STATUS_OK: u16 = 200;

/// The status of an answer to a request that is at fault.
pub const STATUS_BAD_REQUEST: u16 = 400;

/// The status of an answer after a fault of the server.
pub const STATUS_INTERNAL_SERVER_ERROR: u16 = 500;

/// The decimal numeral of `n`.
pub open spec fn decimal(n: nat) -> Seq<char>
    decreases n,
{
    if n < 10 {
        seq![digit_char(n)]
    } else {
        decimal(n / 10).push(digit_char(n % 10))
    }
}

/// The character of the digit `d`.
pub open spec fn digit_char(d: nat) -> char {
    (48 + d) as u8 as char
}

/// The decimal numeral of `n` as text.
pub fn decimal_text(n: usize) -> (r: String)
    ensures
        r@ == decimal(n as nat),
    decreases n,
{
    if n < 10 {
        let mut text = String::new();
        text.push((48 + n as u8) as char);
        text
    } else {
        let mut text = decimal_text(n / 10);
        text.push((48 + (n % 10) as u8) as char);
        text
    }
}

impl IbanValidationError {
    /// The reason of a refusal in words.
    pub open spec fn reason_text(self) -> Seq<char> {
        match self {
            IbanValidationError::InvalidCharacters { position, character } => {
                "the character '"@.push(character) + "' may not stand at position "@ + decimal(
                    position as nat,
                )
            },
            IbanValidationError::InvalidLength { expected, actual } => {
                "the length is "@ + decimal(actual as nat) + " where "@ + decimal(expected as nat)
                    + " is asked for"@
            },
            IbanValidationError::ChecksumMismatch { .. } => {
                "the string does not follow the base IBAN rules"@
            },
            IbanValidationError::MalformedBban => "the IBAN doesn't have a correct BBAN"@,
        }
    }

    /// The message of a refusal: a fixed prefix, then the reason.
    pub open spec fn message_text(self) -> Seq<char> {
        "Invalid IBAN: "@ + self.reason_text()
    }

    /// The reason of this refusal in words.
    pub fn reason(&self) -> (r: String)
        ensures
            r@ == self.reason_text(),
    {
        match self {
            IbanValidationError::InvalidCharacters { position, character } => {
                let mut text = "the character '".to_owned();
                text.push(*character);
                text.append("' may not stand at position ");
                text.append(decimal_text(*position).as_str());
                text
            },
            IbanValidationError::InvalidLength { expected, actual } => {
                let mut text = "the length is ".to_owned();
                text.append(decimal_text(*actual).as_str());
                text.append(" where ");
                text.append(decimal_text(*expected).as_str());
                text.append(" is asked for");
                text
            },
            IbanValidationError::ChecksumMismatch { .. } => {
                "the string does not follow the base IBAN rules".to_owned()
            },
            IbanValidationError::MalformedBban => "the IBAN doesn't have a correct BBAN".to_owned(),
        }
    }

    /// The message of this refusal.
    pub fn message(&self) -> (r: String)
        ensures
            r@ == self.message_text(),
    {
        let mut text = "Invalid IBAN: ".to_owned();
        text.append(self.reason().as_str());
        text
    }
}

/// The answer that stands for an outcome of the validation.
pub open spec fn response_for(outcome: Result<InfoView, IbanValidationError>) -> ResponseView {
    match outcome {
        Ok(info) => ResponseView::Info(info),
        Err(e) => ResponseView::Error(e.message_text()),
    }
}

impl IbanResponse {
    /// The answer for an outcome of the validation: the parts, or the
    /// refusal's message.
    pub fn from_outcome(outcome: Result<IbanInfo, IbanValidationError>) -> (r: IbanResponse)
        ensures
            r@ == response_for(
                match outcome {
                    Ok(info) => Ok(info@),
                    Err(e) => Err(e),
                },
            ),
    {
        match outcome {
            Ok(info) => IbanResponse::Info(info),
            Err(e) => IbanResponse::Error(MessageResponse { message: e.message() }),
        }
    }

    /// The status that this answer is sent with: parts are a success, a
    /// refusal is the client's fault.
    pub fn status(&self) -> (code: u16)
        ensures
            code == match self {
                IbanResponse::Info(_) => STATUS_OK,
                IbanResponse::Error(_) => STATUS_BAD_REQUEST,
            },
    {
        match self {
            IbanResponse::Info(_) => STATUS_OK,
            IbanResponse::Error(_) => STATUS_BAD_REQUEST,
        }
    }
}

impl Registry {
    /// The answer to a request for the parts of `account`.
    pub fn respond(&self, account: &str) -> (r: IbanResponse)
        ensures
            r@ == response_for(validation(self@, account@)),
    {
        IbanResponse::from_outcome(self.validate(account))
    }
}

/// A fault of the server, with what is known of it.
#[derive(Debug)]
pub struct ServerError {
    pub cause: String,
}

impl ServerError {
    /// The body that the fault is reported with.
    pub fn body(&self) -> (r: String)
        ensures
            r@ == "Error: "@ + self.cause@,
    {
        let mut text = "Error: ".to_owned();
        text.append(self.cause.as_str());
        text
    }

    /// The status that the fault is reported with.
    pub fn status(&self) -> (code: u16)
        ensures
            code == STATUS_INTERNAL_SERVER_ERROR,
    {
        STATUS_INTERNAL_SERVER_ERROR
    }
}

/// What is known of the build that runs.
#[derive(Clone, Debug)]
pub struct VersionInfo {
    pub name: String,
    pub version: String,
    pub build_time: String,
    pub branch: String,
    pub commit: String,
    pub commit_time: String,
    pub build_os: String,
    pub rust_version: String,
    pub rust_channel: String,
}

impl VersionInfo {
    /// The version information of a build, from what the build recorded.
    pub fn from_build_info(
        project_name: &str,
        pkg_version: &str,
        build_time: &str,
        branch: &str,
        commit_hash: &str,
        commit_date: &str,
        build_os: &str,
        rust_version: &str,
        rust_channel: &str,
    ) -> (r: VersionInfo)
        ensures
            r.name@ == project_name@,
            r.version@ == pkg_version@,
            r.build_time@ == build_time@,
            r.branch@ == branch@,
            r.commit@ == commit_hash@,
            r.commit_time@ == commit_date@,
            r.build_os@ == build_os@,
            r.rust_version@ == rust_version@,
            r.rust_channel@ == rust_channel@,
    {
        VersionInfo {
            name: project_name.to_owned(),
            version: pkg_version.to_owned(),
            build_time: build_time.to_owned(),
            branch: branch.to_owned(),
            commit: commit_hash.to_owned(),
            commit_time: commit_date.to_owned(),
            build_os: build_os.to_owned(),
            rust_version: rust_version.to_owned(),
            rust_channel: rust_channel.to_owned(),
        }
    }
}

} // verus!
