//! The failures the installer reports, each with its user-facing message.

use vstd::prelude::*;
use vstd::string::StringExecFns;

verus! {

/// Everything that can make an install or uninstall abort.
#[derive(Debug, Clone, PartialEq, Eq)]
pub enum InstallerError {
    /// The executable name does not match the identifier pattern.
    InvalidName { name: String },
    /// No name was given and none could be inferred from the specifier.
    NoNameInferred,
    /// A log verbosity that the argument vector cannot express.
    InvalidLogLevel { level: String },
    /// The module specifier is neither a URL nor a resolvable path.
    ModuleResolveFailed { specifier: String },
    /// The import map path is neither a URL nor a resolvable path.
    ImportMapResolveFailed { path: String },
    /// The explicit config file could not be read.
    ConfigReadFailed { path: String },
    /// The explicit lock file could not be read.
    LockReadFailed { path: String },
    /// The installation directory path exists but is not a directory.
    PathNotDirectory,
    /// A shim of this name exists and `force` was not set.
    AlreadyInstalled,
    /// Nothing is installed under this name.
    NotInstalled { name: String },
    /// No home directory variable is defined to derive a root from.
    HomeNotDefined { var: String },
}

/// The message text each error carries.
pub open spec fn spec_message(e: InstallerError) -> Seq<char> {
    match e {
        InstallerError::InvalidName { name } => "Invalid executable name: "@ + name@,
        InstallerError::NoNameInferred => "An executable name was not provided. One could not be inferred from the URL. Aborting."@,
        InstallerError::InvalidLogLevel { level } => "invalid log level "@ + level@,
        InstallerError::ModuleResolveFailed { specifier } => "invalid module specifier: "@
            + specifier@,
        InstallerError::ImportMapResolveFailed { path } => "invalid import map specifier: "@
            + path@,
        InstallerError::ConfigReadFailed { path } => "error reading "@ + path@,
        InstallerError::LockReadFailed { path } => "error reading "@ + path@,
        InstallerError::PathNotDirectory => "Installation path is not a directory"@,
        InstallerError::AlreadyInstalled => "Existing installation found. Aborting (Use -f to overwrite)."@,
        InstallerError::NotInstalled { name } => "No installation found for "@ + name@,
        InstallerError::HomeNotDefined { var } => "$"@ + var@ + " is not defined"@,
    }
}

impl InstallerError {
    /// The single descriptive line shown for this failure.
    pub fn message(&self) -> (r: String)
        ensures
            r@ == spec_message(*self),
    {
        match self {
            InstallerError::InvalidName { name } => {
                let mut s = String::from_str("Invalid executable name: ");
                s.append(name.as_str());
                s
            },
            InstallerError::NoNameInferred => String::from_str(
                "An executable name was not provided. One could not be inferred from the URL. Aborting.",
            ),
            InstallerError::InvalidLogLevel { level } => {
                let mut s = String::from_str("invalid log level ");
                s.append(level.as_str());
                s
            },
            InstallerError::ModuleResolveFailed { specifier } => {
                let mut s = String::from_str("invalid module specifier: ");
                s.append(specifier.as_str());
                s
            },
            InstallerError::ImportMapResolveFailed { path } => {
                let mut s = String::from_str("invalid import map specifier: ");
                s.append(path.as_str());
                s
            },
            InstallerError::ConfigReadFailed { path } => {
                let mut s = String::from_str("error reading ");
                s.append(path.as_str());
                s
            },
            InstallerError::LockReadFailed { path } => {
                let mut s = String::from_str("error reading ");
                s.append(path.as_str());
                s
            },
            InstallerError::PathNotDirectory => String::from_str(
                "Installation path is not a directory",
            ),
            InstallerError::AlreadyInstalled => String::from_str(
                "Existing installation found. Aborting (Use -f to overwrite).",
            ),
            InstallerError::NotInstalled { name } => {
                let mut s = String::from_str("No installation found for ");
                s.append(name.as_str());
                s
            },
            InstallerError::HomeNotDefined { var } => {
                let mut s = String::from_str("$");
                s.append(var.as_str());
                s.append(" is not defined");
                s
            },
        }
    }
}

} // verus!
