//! The errors of an update cycle.

use crate::api_client::{describe_status, status_line};
use crate::decimal::{decimal_text, IntFault};
use crate::text::prefixed;
use vstd::prelude::*;
use vstd::string::*;

verus! {

/// Why a piece of text is not a run of hexadecimal digit pairs.
#[derive(Clone, Copy, Debug, PartialEq, Eq)]
pub enum HexFault {
    /// The byte `c` at `index` is no hexadecimal digit.
    InvalidCharacter { c: char, index: usize },
    /// The text has an odd number of bytes.
    OddLength,
    /// The text does not have the length of the container it is decoded into.
    InvalidStringLength,
}

/// What is wrong with a decimal integer, in words.
pub open spec fn int_fault_text(fault: IntFault) -> Seq<char> {
    match fault {
        IntFault::Empty => "cannot parse integer from empty string"@,
        IntFault::InvalidDigit => "invalid digit found in string"@,
        IntFault::PosOverflow => "number too large to fit in target type"@,
        IntFault::NegOverflow => "number too small to fit in target type"@,
    }
}

/// Writes what is wrong with a decimal integer.
pub fn describe_int_fault(fault: IntFault) -> (text: String)
    ensures
        text@ == int_fault_text(fault),
{
    match fault {
        IntFault::Empty => String::from_str("cannot parse integer from empty string"),
        IntFault::InvalidDigit => String::from_str("invalid digit found in string"),
        IntFault::PosOverflow => String::from_str("number too large to fit in target type"),
        IntFault::NegOverflow => String::from_str("number too small to fit in target type"),
    }
}

/// A character as the standard library writes it for diagnostics: in
/// single quotes, escaped where it needs it.
pub uninterp spec fn char_debug(c: char) -> Seq<char>;

/// What is wrong with hexadecimal text, in words.
pub open spec fn hex_fault_text(fault: HexFault) -> Seq<char> {
    match fault {
        HexFault::InvalidCharacter { c, index } => "Invalid character "@ + char_debug(c)
            + " at position "@ + decimal_text(index as nat),
        HexFault::OddLength => "Odd number of digits"@,
        HexFault::InvalidStringLength => "Invalid string length"@,
    }
}

/// The `Display` form of `hex::FromHexError`: one fixed text for each of
/// the two faults of length; for a bad character the words
/// `Invalid character`, the character in its `Debug` form, `at position`
/// and the index in decimal.
#[verifier::external_body]
pub(crate) fn describe_hex_fault(fault: HexFault) -> (text: String)
    ensures
        text@ == match fault {
            HexFault::InvalidCharacter { c, index } => "Invalid character "@ + char_debug(c)
                + " at position "@ + decimal_text(index as nat),
            HexFault::OddLength => "Odd number of digits"@,
            HexFault::InvalidStringLength => "Invalid string length"@,
        },
{
    let shown = match fault {
        HexFault::InvalidCharacter { c, index } => hex::FromHexError::InvalidHexCharacter {
            c,
            index,
        },
        HexFault::OddLength => hex::FromHexError::OddLength,
        HexFault::InvalidStringLength => hex::FromHexError::InvalidStringLength,
    };
    shown.to_string()
}

/// The kinds of error, without what each carries.
#[derive(Clone, Copy, Debug, PartialEq, Eq, Structural)]
pub enum ErrorKind {
    Config,
    VersionRead,
    TokenRead,
    VersionFormat,
    ApiClient,
    ApiRequest,
    NoUpdate,
    Download,
    Head,
    Decryption,
    Encryption,
    Archive,
    Script,
    FileSystem,
    Hex,
    FileIo,
    TempFile,
    Timeout,
}

/// What can go wrong while the agent looks for, fetches, unpacks and
/// installs an update.
#[derive(Clone, Debug, PartialEq, Eq)]
pub enum UpdateError {
    /// The configuration could not be read or is not valid.
    ConfigError(String),
    /// The file that records the installed version could not be read.
    VersionReadError(String),
    /// The device credential could not be read.
    TokenReadError(String),
    /// The recorded version is not a 32-bit decimal integer.
    VersionFormatError(IntFault),
    /// A request could not be sent, or its answer could not be decoded.
    ApiClientError(String),
    /// The control plane answered with a status that is no success.
    ApiRequestFailed { status: u16, message: String },
    /// The control plane offers nothing newer.
    NoUpdateAvailable,
    /// The artifact could not be fetched.
    DownloadError(String),
    /// The probe for the artifact's size was refused.
    HeadError(String),
    DecryptionError(String),
    EncryptionError(String),
    /// The artifact could not be unpacked.
    ArchiveError(String),
    /// The installer script is missing, could not be started, or failed.
    ScriptError(String),
    /// A directory or a file's attributes could not be read or changed.
    FileSystemError(String),
    /// The decryption key is not hexadecimal.
    HexError(HexFault),
    /// The destination file could not be opened or written.
    FileIOError(String),
    TempFileError(String),
    /// The transfer stalled: a fetch failure that is worth retrying at once.
    TimeoutError,
}

impl UpdateError {
    pub open spec fn kind(self) -> ErrorKind {
        match self {
            UpdateError::ConfigError(_) => ErrorKind::Config,
            UpdateError::VersionReadError(_) => ErrorKind::VersionRead,
            UpdateError::TokenReadError(_) => ErrorKind::TokenRead,
            UpdateError::VersionFormatError(_) => ErrorKind::VersionFormat,
            UpdateError::ApiClientError(_) => ErrorKind::ApiClient,
            UpdateError::ApiRequestFailed { .. } => ErrorKind::ApiRequest,
            UpdateError::NoUpdateAvailable => ErrorKind::NoUpdate,
            UpdateError::DownloadError(_) => ErrorKind::Download,
            UpdateError::HeadError(_) => ErrorKind::Head,
            UpdateError::DecryptionError(_) => ErrorKind::Decryption,
            UpdateError::EncryptionError(_) => ErrorKind::Encryption,
            UpdateError::ArchiveError(_) => ErrorKind::Archive,
            UpdateError::ScriptError(_) => ErrorKind::Script,
            UpdateError::FileSystemError(_) => ErrorKind::FileSystem,
            UpdateError::HexError(_) => ErrorKind::Hex,
            UpdateError::FileIOError(_) => ErrorKind::FileIo,
            UpdateError::TempFileError(_) => ErrorKind::TempFile,
            UpdateError::TimeoutError => ErrorKind::Timeout,
        }
    }

    /// The text that the error carries, or what its fault is in words;
    /// empty where it carries nothing.
    pub open spec fn detail(self) -> Seq<char> {
        match self {
            UpdateError::ConfigError(m) => m@,
            UpdateError::VersionReadError(m) => m@,
            UpdateError::TokenReadError(m) => m@,
            UpdateError::VersionFormatError(fault) => int_fault_text(fault),
            UpdateError::ApiClientError(m) => m@,
            UpdateError::ApiRequestFailed { message, .. } => message@,
            UpdateError::NoUpdateAvailable => Seq::empty(),
            UpdateError::DownloadError(m) => m@,
            UpdateError::HeadError(m) => m@,
            UpdateError::DecryptionError(m) => m@,
            UpdateError::EncryptionError(m) => m@,
            UpdateError::ArchiveError(m) => m@,
            UpdateError::ScriptError(m) => m@,
            UpdateError::FileSystemError(m) => m@,
            UpdateError::HexError(fault) => hex_fault_text(fault),
            UpdateError::FileIOError(m) => m@,
            UpdateError::TempFileError(m) => m@,
            UpdateError::TimeoutError => Seq::empty(),
        }
    }

    /// The error is of `kind` and carries `text`.
    pub open spec fn has(self, kind: ErrorKind, text: Seq<char>) -> bool {
        self.kind() == kind && self.detail() == text
    }

    /// The text that the error carries.
    pub fn detail_text(&self) -> (text: String)
        ensures
            text@ == self.detail(),
    {
        match self {
            UpdateError::ConfigError(m) => m.clone(),
            UpdateError::VersionReadError(m) => m.clone(),
            UpdateError::TokenReadError(m) => m.clone(),
            UpdateError::VersionFormatError(fault) => describe_int_fault(*fault),
            UpdateError::ApiClientError(m) => m.clone(),
            UpdateError::ApiRequestFailed { message, .. } => message.clone(),
            UpdateError::NoUpdateAvailable => String::new(),
            UpdateError::DownloadError(m) => m.clone(),
            UpdateError::HeadError(m) => m.clone(),
            UpdateError::DecryptionError(m) => m.clone(),
            UpdateError::EncryptionError(m) => m.clone(),
            UpdateError::ArchiveError(m) => m.clone(),
            UpdateError::ScriptError(m) => m.clone(),
            UpdateError::FileSystemError(m) => m.clone(),
            UpdateError::HexError(fault) => describe_hex_fault(*fault),
            UpdateError::FileIOError(m) => m.clone(),
            UpdateError::TempFileError(m) => m.clone(),
            UpdateError::TimeoutError => String::new(),
        }
    }

    /// The error in words: what kind of error it is, then what it carries.
    pub open spec fn message_text(self) -> Seq<char> {
        match self {
            UpdateError::ConfigError(_) => "Configuration error: "@ + self.detail(),
            UpdateError::VersionReadError(_) => "Failed to read current version: "@ + self.detail(),
            UpdateError::TokenReadError(_) => "Failed to read Token: "@ + self.detail(),
            UpdateError::VersionFormatError(_) => "Invalid version format in version file: "@
                + self.detail(),
            UpdateError::ApiClientError(_) => "API client error: "@ + self.detail(),
            UpdateError::ApiRequestFailed { status, .. } => "API request failed: "@ + status_line(
                status,
            ) + " - "@ + self.detail(),
            UpdateError::NoUpdateAvailable => "No update available or service up-to-date"@,
            UpdateError::DownloadError(_) => "Download error: "@ + self.detail(),
            UpdateError::HeadError(_) => "Head error: "@ + self.detail(),
            UpdateError::DecryptionError(_) => "Decryption error: "@ + self.detail(),
            UpdateError::EncryptionError(_) => "Encryption error (internal): "@ + self.detail(),
            UpdateError::ArchiveError(_) => "Archive extraction error: "@ + self.detail(),
            UpdateError::ScriptError(_) => "Update script execution failed: "@ + self.detail(),
            UpdateError::FileSystemError(_) => "Filesystem error: "@ + self.detail(),
            UpdateError::HexError(_) => "Hex decoding error for key: "@ + self.detail(),
            UpdateError::FileIOError(_) => "I/O error during file operation: "@ + self.detail(),
            UpdateError::TempFileError(_) => "Temporary directory/file creation error: "@
                + self.detail(),
            UpdateError::TimeoutError => "Download timed out"@,
        }
    }

    /// The error in words, as it is logged.
    pub fn message(&self) -> (text: String)
        ensures
            text@ == self.message_text(),
    {
        let detail = self.detail_text();
        match self {
            UpdateError::ConfigError(_) => prefixed("Configuration error: ", detail.as_str()),
            UpdateError::VersionReadError(_) => prefixed(
                "Failed to read current version: ",
                detail.as_str(),
            ),
            UpdateError::TokenReadError(_) => prefixed("Failed to read Token: ", detail.as_str()),
            UpdateError::VersionFormatError(_) => prefixed(
                "Invalid version format in version file: ",
                detail.as_str(),
            ),
            UpdateError::ApiClientError(_) => prefixed("API client error: ", detail.as_str()),
            UpdateError::ApiRequestFailed { status, .. } => {
                let line = describe_status(*status);
                let mut text = prefixed("API request failed: ", line.as_str());
                text.append(" - ");
                text.append(detail.as_str());
                text
            },
            UpdateError::NoUpdateAvailable => String::from_str(
                "No update available or service up-to-date",
            ),
            UpdateError::DownloadError(_) => prefixed("Download error: ", detail.as_str()),
            UpdateError::HeadError(_) => prefixed("Head error: ", detail.as_str()),
            UpdateError::DecryptionError(_) => prefixed("Decryption error: ", detail.as_str()),
            UpdateError::EncryptionError(_) => prefixed(
                "Encryption error (internal): ",
                detail.as_str(),
            ),
            UpdateError::ArchiveError(_) => prefixed("Archive extraction error: ", detail.as_str()),
            UpdateError::ScriptError(_) => prefixed(
                "Update script execution failed: ",
                detail.as_str(),
            ),
            UpdateError::FileSystemError(_) => prefixed("Filesystem error: ", detail.as_str()),
            UpdateError::HexError(_) => prefixed("Hex decoding error for key: ", detail.as_str()),
            UpdateError::FileIOError(_) => prefixed(
                "I/O error during file operation: ",
                detail.as_str(),
            ),
            UpdateError::TempFileError(_) => prefixed(
                "Temporary directory/file creation error: ",
                detail.as_str(),
            ),
            UpdateError::TimeoutError => String::from_str("Download timed out"),
        }
    }

    /// Whether the error is the stalled transfer that is retried at once.
    pub fn is_timeout(&self) -> (b: bool)
        ensures
            b == (self.kind() == ErrorKind::Timeout),
    {
        match self {
            UpdateError::TimeoutError => true,
            _ => false,
        }
    }
}

/// The cipher's error, carried through unread.
#[verifier::external_type_specification]
#[verifier::external_body]
pub struct ExAeadError(aes_gcm::Error);

/// The `Display` form of `aes_gcm::Error`, which is one fixed text.
#[verifier::external_body]
fn aead_error_text(err: &aes_gcm::Error) -> (text: String)
    ensures
        text@ == "aead::Error"@,
{
    err.to_string()
}

/// What the conversion gives is stated on `from` itself, over the text of
/// the error that it makes.
impl vstd::std_specs::convert::FromSpecImpl<aes_gcm::Error> for UpdateError {
    open spec fn obeys_from_spec() -> bool {
        false
    }

    open spec fn from_spec(err: aes_gcm::Error) -> UpdateError {
        choose|e: UpdateError| e.has(ErrorKind::Decryption, "aead::Error"@)
    }
}

impl From<aes_gcm::Error> for UpdateError {
    /// A failed decryption, with the cipher's own text for it.
    fn from(err: aes_gcm::Error) -> (e: UpdateError)
        ensures
            e.has(ErrorKind::Decryption, "aead::Error"@),
    {
        UpdateError::DecryptionError(aead_error_text(&err))
    }
}

} // verus!
