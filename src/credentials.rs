//! Where the application-default credentials live when none are named.

use vstd::prelude::*;
use crate::text::same_text;

verus! {

/// The operating-system families that the default location is known for.
#[derive(Clone, Copy, Debug, PartialEq, Eq, Structural)]
pub enum OsFamily {
    Unix,
    Windows,
    Other,
}

/// Why no default credentials location could be computed.
#[derive(Clone, Copy, Debug, PartialEq, Eq, Structural)]
pub enum ConfigError {
    /// The host is neither Unix-like nor Windows.
    UnsupportedOs,
    /// The Unix home directory variable `HOME` is unset.
    HomeUnset,
    /// The Windows profile variable `APPDATA` is unset.
    AppDataUnset,
}

/// The family that a platform family name (`"unix"`, `"windows"`) denotes.
pub open spec fn family_of(name: Seq<char>) -> OsFamily {
    if name == "unix"@ {
        OsFamily::Unix
    } else if name == "windows"@ {
        OsFamily::Windows
    } else {
        OsFamily::Other
    }
}

/// The location under the Unix home directory.
pub open spec fn unix_default_path(home: Seq<char>) -> Seq<char> {
    home + "/.config/gcloud/application_default_credentials.json"@
}

/// The location under the Windows application-data directory.
pub open spec fn windows_default_path(appdata: Seq<char>) -> Seq<char> {
    appdata + "/gcloud/application_default_credentials.json"@
}

/// The default credentials location, given the family and the values of
/// `HOME` and `APPDATA` (`None` where unset).
pub open spec fn default_path(
    family: OsFamily,
    home: Option<Seq<char>>,
    appdata: Option<Seq<char>>,
) -> Result<Seq<char>, ConfigError> {
    match family {
        OsFamily::Unix => match home {
            Some(h) => Ok(unix_default_path(h)),
            None => Err(ConfigError::HomeUnset),
        },
        OsFamily::Windows => match appdata {
            Some(a) => Ok(windows_default_path(a)),
            None => Err(ConfigError::AppDataUnset),
        },
        OsFamily::Other => Err(ConfigError::UnsupportedOs),
    }
}

/// The view of an optional string.
pub open spec fn opt_view(o: Option<String>) -> Option<Seq<char>> {
    match o {
        Some(s) => Some(s@),
        None => None,
    }
}

/// The view of a path result.
pub open spec fn path_result_view(r: Result<String, ConfigError>) -> Result<Seq<char>, ConfigError> {
    match r {
        Ok(s) => Ok(s@),
        Err(e) => Err(e),
    }
}

impl OsFamily {
    /// Reads a platform family name such as `std::env::consts::FAMILY`.
    pub fn from_name(name: &str) -> (r: OsFamily)
        ensures
            r == family_of(name@),
    {
        if same_text(name, "unix") {
            OsFamily::Unix
        } else if same_text(name, "windows") {
            OsFamily::Windows
        } else {
            OsFamily::Other
        }
    }
}

impl ConfigError {
    /// The message that the failure is reported with.
    pub fn message(&self) -> (r: String)
        ensures
            r@ == config_error_message(*self),
    {
        match self {
            ConfigError::UnsupportedOs => String::from_str("Unsupported OS"),
            ConfigError::HomeUnset => String::from_str("environment variable HOME is not set"),
            ConfigError::AppDataUnset => String::from_str("environment variable APPDATA is not set"),
        }
    }
}

/// The message of each configuration error.
pub open spec fn config_error_message(e: ConfigError) -> Seq<char> {
    match e {
        ConfigError::UnsupportedOs => "Unsupported OS"@,
        ConfigError::HomeUnset => "environment variable HOME is not set"@,
        ConfigError::AppDataUnset => "environment variable APPDATA is not set"@,
    }
}

/// Computes the default credentials location for `family` from the values
/// of `HOME` and `APPDATA`; only the variable of the family is read.
pub fn get_default_credentials_path(
    family: OsFamily,
    home: Option<String>,
    appdata: Option<String>,
) -> (r: Result<String, ConfigError>)
    ensures
        path_result_view(r) == default_path(family, opt_view(home), opt_view(appdata)),
{
    match family {
        OsFamily::Unix => match home {
            Some(h) => {
                let mut p = h;
                p.append("/.config/gcloud/application_default_credentials.json");
                Ok(p)
            },
            None => Err(ConfigError::HomeUnset),
        },
        OsFamily::Windows => match appdata {
            Some(a) => {
                let mut p = a;
                p.append("/gcloud/application_default_credentials.json");
                Ok(p)
            },
            None => Err(ConfigError::AppDataUnset),
        },
        OsFamily::Other => Err(ConfigError::UnsupportedOs),
    }
}

} // verus!
