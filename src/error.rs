use vstd::prelude::*;

verus! {

/// Why a sync folder could not be found.
#[derive(Debug, Clone, Copy, PartialEq, Eq, Structural)]
pub enum Error {
    /// No configuration file was found where the client writes it.
    NotConfiguredError,
    /// The configuration file exists but could not be read.
    CantReadConfigError,
    /// The configuration file is not a valid configuration record.
    InvalidConfigError,
    /// The record holds no account of the kind asked for.
    AccountNotConfiguredError,
}

impl Error {
    /// The words that describe each kind of error.
    pub open spec fn spec_description(self) -> Seq<char> {
        match self {
            Error::NotConfiguredError => "Dropbox not configured"@,
            Error::CantReadConfigError => "can't read configuration"@,
            Error::InvalidConfigError => "configuration invalid"@,
            Error::AccountNotConfiguredError => "account type not configured"@,
        }
    }

    /// Describes the error in words.
    pub fn description(&self) -> (r: &'static str)
        ensures
            r@ == self.spec_description(),
    {
        match self {
            Error::NotConfiguredError => "Dropbox not configured",
            Error::CantReadConfigError => "can't read configuration",
            Error::InvalidConfigError => "configuration invalid",
            Error::AccountNotConfiguredError => "account type not configured",
        }
    }
}

} // verus!
