//! The command line's settings, and the connection settings read from a TOML
//! configuration text.
use vstd::prelude::*;
use crate::engine::TransferRequest;
use crate::filter::views_of;
use crate::path::{split, split_on};

verus! {

/// The settings given on the command line.
pub struct Args {
    /// The local directory to upload.
    pub directory: String,
    /// The remote directory it goes to.
    pub remote_dir: String,
    /// Paths to leave out, separated by `,`.
    pub skip: String,
    /// Whether directories whose name starts with `.` are left out.
    pub ignore: bool,
}

impl Args {
    /// The transfer these settings ask for.
    pub fn request(&self) -> (r: TransferRequest)
        ensures
            r.local_root@ == self.directory@,
            r.remote_root@ == self.remote_dir@,
            views_of(r.skip@) == split_on(self.skip@, ','),
            r.ignore_dotfiles == self.ignore,
    {
        TransferRequest {
            local_root: self.directory.clone(),
            remote_root: self.remote_dir.clone(),
            skip: split(self.skip.as_str(), ','),
            ignore_dotfiles: self.ignore,
        }
    }
}

/// Where and as whom to connect.
pub struct SessionConfig {
    pub username: String,
    /// The public key file to authenticate with.
    pub key_file: String,
    pub server: String,
    pub port: u16,
}

/// Why the configuration could not be read.
#[derive(Clone, Copy, Debug, PartialEq, Eq, Structural)]
pub enum ConfigError {
    /// The text is not TOML.
    Parse,
    MissingUsername,
    MissingKeyFile,
    MissingServer,
    MissingPort,
    /// The port is not in 0..=65535.
    InvalidPort,
}

/// The text of each error's message. A missing port is reported with the
/// same line as a missing server.
pub open spec fn message_of(e: ConfigError) -> Seq<char> {
    match e {
        ConfigError::Parse => "Configuration is not valid TOML"@,
        ConfigError::MissingUsername => "Missing username in config"@,
        ConfigError::MissingKeyFile => "Missing key_file in config"@,
        ConfigError::MissingServer => "Missing server in config"@,
        ConfigError::MissingPort => "Missing server in config"@,
        ConfigError::InvalidPort => "Port in config is out of range"@,
    }
}

impl ConfigError {
    /// A line for the user.
    pub fn message(&self) -> (r: String)
        ensures
            r@ == message_of(*self),
    {
        match self {
            ConfigError::Parse => String::from_str("Configuration is not valid TOML"),
            ConfigError::MissingUsername => String::from_str("Missing username in config"),
            ConfigError::MissingKeyFile => String::from_str("Missing key_file in config"),
            ConfigError::MissingServer => String::from_str("Missing server in config"),
            ConfigError::MissingPort => String::from_str("Missing server in config"),
            ConfigError::InvalidPort => String::from_str("Port in config is out of range"),
        }
    }
}

/// Connection settings over character sequences: username, key file,
/// server, port.
pub type SettingsModel = (Seq<char>, Seq<char>, Seq<char>, u16);

/// A result of reading settings, over character sequences.
pub open spec fn settings_view(r: Result<SessionConfig, ConfigError>) -> Result<
    SettingsModel,
    ConfigError,
> {
    match r {
        Ok(c) => Ok((c.username@, c.key_file@, c.server@, c.port)),
        Err(e) => Err(e),
    }
}

/// The settings from the value found for each key; else the error for the
/// first key, in the order username, key_file, server, port, that has no value
/// of its type; a port outside 0..=65535 is invalid.
pub open spec fn settings_from(
    username: Option<Seq<char>>,
    key_file: Option<Seq<char>>,
    server: Option<Seq<char>>,
    port: Option<i64>,
) -> Result<SettingsModel, ConfigError> {
    if username is None {
        Err(ConfigError::MissingUsername)
    } else if key_file is None {
        Err(ConfigError::MissingKeyFile)
    } else if server is None {
        Err(ConfigError::MissingServer)
    } else if port is None {
        Err(ConfigError::MissingPort)
    } else if port.unwrap() < 0 || port.unwrap() > 65535 {
        Err(ConfigError::InvalidPort)
    } else {
        Ok((username.unwrap(), key_file.unwrap(), server.unwrap(), port.unwrap() as u16))
    }
}

pub open spec fn opt_view(o: Option<&str>) -> Option<Seq<char>> {
    match o {
        Some(s) => Some(s@),
        None => None,
    }
}

/// The settings built from the values found for each key.
pub fn session_config_from_fields(
    username: Option<&str>,
    key_file: Option<&str>,
    server: Option<&str>,
    port: Option<i64>,
) -> (r: Result<SessionConfig, ConfigError>)
    ensures
        settings_view(r) == settings_from(
            opt_view(username),
            opt_view(key_file),
            opt_view(server),
            port,
        ),
{
    let username = match username {
        Some(u) => u,
        None => return Err(ConfigError::MissingUsername),
    };
    let key_file = match key_file {
        Some(k) => k,
        None => return Err(ConfigError::MissingKeyFile),
    };
    let server = match server {
        Some(s) => s,
        None => return Err(ConfigError::MissingServer),
    };
    let port = match port {
        Some(p) => p,
        None => return Err(ConfigError::MissingPort),
    };
    if port < 0 || port > 65535 {
        return Err(ConfigError::InvalidPort);
    }
    Ok(
        SessionConfig {
            username: String::from_str(username),
            key_file: String::from_str(key_file),
            server: String::from_str(server),
            port: port as u16,
        },
    )
}

/// Whether `text` is a TOML document.
pub uninterp spec fn toml_parses(text: Seq<char>) -> bool;

/// The string under `key` at the top of the TOML document `text`, if it has
/// one.
pub uninterp spec fn toml_str_field(text: Seq<char>, key: Seq<char>) -> Option<Seq<char>>;

/// The integer under `key` at the top of the TOML document `text`, if it has
/// one.
pub uninterp spec fn toml_int_field(text: Seq<char>, key: Seq<char>) -> Option<i64>;

/// Relies on `toml::Value`'s `FromStr`: whether `text` parses as TOML, which
/// depends on the text alone.
#[verifier::external_body]
fn is_toml(text: &str) -> (r: bool)
    ensures
        r == toml_parses(text@),
{
    text.parse::<toml::Value>().is_ok()
}

/// Relies on `toml::Value`'s `FromStr`, `toml::Value::get` and
/// `toml::Value::as_str`: the string under `key` in the parsed document, which
/// depends on the text and the key alone.
#[verifier::external_body]
fn toml_string(text: &str, key: &str) -> (r: Option<String>)
    ensures
        r matches Some(s) ==> toml_str_field(text@, key@) == Some(s@),
        r is None ==> toml_str_field(text@, key@) is None,
{
    match text.parse::<toml::Value>() {
        Ok(doc) => doc.get(key).and_then(toml::Value::as_str).map(String::from),
        Err(_) => None,
    }
}

/// Relies on `toml::Value`'s `FromStr`, `toml::Value::get` and
/// `toml::Value::as_integer`: the integer under `key` in the parsed document,
/// which depends on the text and the key alone.
#[verifier::external_body]
fn toml_integer(text: &str, key: &str) -> (r: Option<i64>)
    ensures
        r == toml_int_field(text@, key@),
{
    match text.parse::<toml::Value>() {
        Ok(doc) => doc.get(key).and_then(toml::Value::as_integer),
        Err(_) => None,
    }
}

fn as_str_opt(o: &Option<String>) -> (r: Option<&str>)
    ensures
        opt_view(r) == match o {
            Some(s) => Some(s@),
            None => None::<Seq<char>>,
        },
{
    match o {
        Some(s) => Some(s.as_str()),
        None => None,
    }
}

/// Reads the connection settings from a TOML text with the string keys
/// `username`, `key_file` and `server` and the integer key `port`.
pub fn read_session_config(text: &str) -> (r: Result<SessionConfig, ConfigError>)
    ensures
        !toml_parses(text@) ==> r == Err::<SessionConfig, ConfigError>(ConfigError::Parse),
        toml_parses(text@) ==> settings_view(r) == settings_from(
            toml_str_field(text@, "username"@),
            toml_str_field(text@, "key_file"@),
            toml_str_field(text@, "server"@),
            toml_int_field(text@, "port"@),
        ),
{
    if !is_toml(text) {
        return Err(ConfigError::Parse);
    }
    let username = toml_string(text, "username");
    let key_file = toml_string(text, "key_file");
    let server = toml_string(text, "server");
    let port = toml_integer(text, "port");
    session_config_from_fields(
        as_str_opt(&username),
        as_str_opt(&key_file),
        as_str_opt(&server),
        port,
    )
}

} // verus!
