//! The agent's settings and the record of the installed version.

use crate::decimal::{parse_trimmed_i32, spec_parse_i32, trimmed};
use crate::error::{ErrorKind, HexFault, UpdateError};
use crate::paths::{path_debug, quoted_path};
use crate::text::prefixed;
use vstd::prelude::*;
use vstd::string::*;
use vstd::utf8::encode_utf8;

verus! {

/// The settings of one agent. Paths are kept as text.
#[derive(Clone, Debug, PartialEq, Eq)]
pub struct Config {
    pub service_name: String,
    /// The file that holds the installed version as one decimal integer.
    pub current_version_file: String,
    pub update_check_api_url: String,
    pub status_report_api_url: String,
    /// Seconds to wait before the next cycle. Only the cycle changes it.
    pub poll_interval_seconds: u64,
    /// The directory that artifacts are fetched to and unpacked in.
    pub download_base_dir: String,
    pub decryption_key_hex: String,
    /// The installer's file name inside an unpacked artifact.
    pub update_script_name: String,
    /// The credential that goes with every request to the control plane.
    pub device_token: String,
    /// The credential that the installer gets through its environment.
    pub db_password: String,
}

/// What reading the settings file gave.
#[derive(Clone, Debug, PartialEq, Eq)]
pub enum ConfigSource {
    /// The file at `path` could not be read.
    Unreadable { path: String, reason: String },
    /// The file is not in the settings' format.
    Malformed { reason: String },
    /// The settings as the file has them.
    Parsed(Config),
}

/// The number of bytes that the text of a 32-byte key has.
pub const KEY_HEX_LENGTH: usize = 64;

pub open spec fn is_hex_digit(b: u8) -> bool {
    ||| 0x30 <= b <= 0x39
    ||| 0x41 <= b <= 0x46
    ||| 0x61 <= b <= 0x66
}

pub open spec fn hex_digit_value(b: u8) -> nat {
    if 0x30 <= b <= 0x39 {
        (b - 0x30) as nat
    } else if 0x41 <= b <= 0x46 {
        (b - 0x41 + 10) as nat
    } else {
        (b - 0x61 + 10) as nat
    }
}

/// How many hexadecimal digits `data` starts with.
pub open spec fn hex_run(data: Seq<u8>) -> nat
    decreases data.len(),
{
    if data.len() > 0 && is_hex_digit(data[0]) {
        1 + hex_run(data.drop_first())
    } else {
        0
    }
}

/// The bytes that the hexadecimal text `data` denotes, two digits to a
/// byte, or the first thing that is wrong with it.
pub open spec fn hex_decoded(data: Seq<u8>) -> Result<Seq<u8>, HexFault> {
    if data.len() % 2 != 0 {
        Err(HexFault::OddLength)
    } else if hex_run(data) < data.len() {
        Err(
            HexFault::InvalidCharacter {
                c: data[hex_run(data) as int] as char,
                index: hex_run(data) as usize,
            },
        )
    } else {
        Ok(
            Seq::new(
                data.len() / 2,
                |i: int| (hex_digit_value(data[2 * i]) * 16 + hex_digit_value(data[2 * i + 1])) as u8,
            ),
        )
    }
}

/// `hex::decode`: text of odd length is refused as such; otherwise the
/// first byte that is no hexadecimal digit is reported with its place;
/// otherwise each pair of digits gives one byte, the first digit the
/// upper half.
#[verifier::external_body]
fn decode_hex(data: &[u8]) -> (r: Result<Vec<u8>, HexFault>)
    ensures
        match hex_decoded(data@) {
            Ok(bytes) => r matches Ok(v) && v@ == bytes,
            Err(fault) => r == Err::<Vec<u8>, HexFault>(fault),
        },
{
    hex::decode(data).map_err(
        |e|
            match e {
                hex::FromHexError::InvalidHexCharacter { c, index } => HexFault::InvalidCharacter {
                    c,
                    index,
                },
                hex::FromHexError::OddLength => HexFault::OddLength,
                hex::FromHexError::InvalidStringLength => HexFault::InvalidStringLength,
            },
    )
}

impl Config {
    /// The number of bytes in the text of the decryption key.
    pub open spec fn key_length(self) -> nat {
        encode_utf8(self.decryption_key_hex@).len()
    }

    /// What `load` makes of what reading the settings file gave.
    pub open spec fn loaded(source: ConfigSource, r: Result<Config, UpdateError>) -> bool {
        match source {
            ConfigSource::Unreadable { path, reason } => r matches Err(e) && e.has(
                ErrorKind::Config,
                "Failed to read config file '"@ + path@ + "': "@ + reason@,
            ),
            ConfigSource::Malformed { reason } => r matches Err(e) && e.has(
                ErrorKind::Config,
                "Failed to parse TOML config: "@ + reason@,
            ),
            ConfigSource::Parsed(config) => if config.key_length() == KEY_HEX_LENGTH {
                r == Ok::<Config, UpdateError>(config)
            } else {
                r matches Err(e) && e.has(
                    ErrorKind::Config,
                    "Decryption key hex string must be 64 characters long for a 32-byte key."@,
                )
            },
        }
    }

    /// The settings that the agent runs with, from what reading the
    /// settings file gave: they are accepted where the file could be read
    /// and understood and the key's text has the length of a 32-byte key.
    pub fn load(source: ConfigSource) -> (r: Result<Config, UpdateError>)
        ensures
            Config::loaded(source, r),
    {
        match source {
            ConfigSource::Unreadable { path, reason } => {
                let mut text = prefixed("Failed to read config file '", path.as_str());
                text.append("': ");
                text.append(reason.as_str());
                Err(UpdateError::ConfigError(text))
            },
            ConfigSource::Malformed { reason } => Err(
                UpdateError::ConfigError(prefixed("Failed to parse TOML config: ", reason.as_str())),
            ),
            ConfigSource::Parsed(config) => {
                if config.decryption_key_hex.as_str().as_bytes().len() != KEY_HEX_LENGTH {
                    Err(
                        UpdateError::ConfigError(
                            String::from_str(
                                "Decryption key hex string must be 64 characters long for a 32-byte key.",
                            ),
                        ),
                    )
                } else {
                    Ok(config)
                }
            },
        }
    }

    /// The error for a download directory that is missing and could not be
    /// made.
    pub fn directory_failure(&self, reason: &str) -> (e: UpdateError)
        ensures
            e.has(
                ErrorKind::FileSystem,
                "Failed to create download base directory "@ + path_debug(self.download_base_dir@)
                    + ": "@ + reason@,
            ),
    {
        let quoted = quoted_path(self.download_base_dir.as_str());
        let mut text = prefixed("Failed to create download base directory ", quoted.as_str());
        text.append(": ");
        text.append(reason);
        UpdateError::FileSystemError(text)
    }

    /// The decryption key as bytes.
    pub fn get_decryption_key(&self) -> (r: Result<Vec<u8>, UpdateError>)
        ensures
            match hex_decoded(encode_utf8(self.decryption_key_hex@)) {
                Ok(bytes) => r matches Ok(v) && v@ == bytes,
                Err(fault) => r == Err::<Vec<u8>, UpdateError>(UpdateError::HexError(fault)),
            },
    {
        match decode_hex(self.decryption_key_hex.as_str().as_bytes()) {
            Ok(bytes) => Ok(bytes),
            Err(fault) => Err(UpdateError::HexError(fault)),
        }
    }
}

/// What reading the file that records the installed version gave.
#[derive(Clone, Debug, PartialEq, Eq)]
pub enum VersionFile {
    /// There is no such file.
    Missing,
    /// The file is there and could not be read.
    Unreadable(String),
    /// What the file holds.
    Contents(String),
}

/// What `get_current_version` makes of what reading the file gave.
pub open spec fn current_version(file: VersionFile, r: Result<i32, UpdateError>) -> bool {
    match file {
        VersionFile::Missing => r == Ok::<i32, UpdateError>(0),
        VersionFile::Unreadable(reason) => r matches Err(e) && e.has(
            ErrorKind::VersionRead,
            reason@,
        ),
        VersionFile::Contents(text) => match spec_parse_i32(trimmed(text@)) {
            Ok(version) => r == Ok::<i32, UpdateError>(version),
            Err(fault) => r == Err::<i32, UpdateError>(UpdateError::VersionFormatError(fault)),
        },
    }
}

/// The installed version: 0 where no file records one, else the decimal
/// integer that the file holds between whitespace.
pub fn get_current_version(file: VersionFile) -> (r: Result<i32, UpdateError>)
    ensures
        current_version(file, r),
{
    match file {
        VersionFile::Missing => Ok(0),
        VersionFile::Unreadable(reason) => Err(UpdateError::VersionReadError(reason)),
        VersionFile::Contents(text) => match parse_trimmed_i32(text.as_str()) {
            Ok(version) => Ok(version),
            Err(fault) => Err(UpdateError::VersionFormatError(fault)),
        },
    }
}

/// The version that a cycle compares offers with: the installed version,
/// and 0 where the file that records it cannot be read or understood.
pub open spec fn version_for_cycle(file: VersionFile) -> i32 {
    match file {
        VersionFile::Contents(text) => match spec_parse_i32(trimmed(text@)) {
            Ok(version) => version,
            Err(_) => 0,
        },
        _ => 0,
    }
}

/// The version that a cycle compares offers with.
pub fn installed_version(file: VersionFile) -> (version: i32)
    ensures
        version == version_for_cycle(file),
{
    match get_current_version(file) {
        Ok(version) => version,
        Err(_) => 0,
    }
}

} // verus!
