use vstd::prelude::*;

use crate::error::Error;
use crate::smart_path::{SmartPath, SmartPathView};

verus! {

/// One account of the client, as its configuration record holds it.
#[derive(Debug, Clone)]
pub struct Account {
    /// The local sync folder of the account.
    pub path: String,
    /// The client's identifier of the host; kept, not read.
    pub host: i64,
    /// Whether the account belongs to a team.
    pub is_team: bool,
    /// The kind of subscription, as the client names it.
    pub subscription_type: String,
}

/// The client's configuration record: each kind of account may be absent.
#[derive(Debug, Clone)]
pub struct Info {
    pub personal: Option<Account>,
    pub business: Option<Account>,
}

/// The two kinds of account that a client can hold.
#[derive(Debug, Clone, Copy, PartialEq, Eq, Structural)]
pub enum AccountKind {
    Personal,
    Business,
}

impl Info {
    /// The account of the given kind, if the record holds one.
    pub open spec fn account(self, kind: AccountKind) -> Option<Account> {
        match kind {
            AccountKind::Personal => self.personal,
            AccountKind::Business => self.business,
        }
    }
}

/// The sync folder of the given kind of account, from what reading the
/// configuration gave: an error of the reading is passed on as it is.
pub open spec fn dir_result(config: Result<Info, Error>, kind: AccountKind) -> Result<
    String,
    Error,
> {
    match config {
        Err(e) => Err(e),
        Ok(info) => match info.account(kind) {
            Some(account) => Ok(account.path),
            None => Err(Error::AccountNotConfiguredError),
        },
    }
}

/// Gets the sync folder of the given kind of account from the configuration
/// that was read.
pub fn get_dir(config: Result<Info, Error>, kind: AccountKind) -> (r: Result<String, Error>)
    ensures
        r == dir_result(config, kind),
{
    let info = match config {
        Ok(info) => info,
        Err(e) => return Err(e),
    };
    let data = match kind {
        AccountKind::Personal => info.personal,
        AccountKind::Business => info.business,
    };
    match data {
        Some(account) => Ok(account.path),
        None => Err(Error::AccountNotConfiguredError),
    }
}

/// Gets the personal directory path.
pub fn personal_dir(config: Result<Info, Error>) -> (r: Result<String, Error>)
    ensures
        r == dir_result(config, AccountKind::Personal),
{
    get_dir(config, AccountKind::Personal)
}

/// Gets the business directory path.
pub fn business_dir(config: Result<Info, Error>) -> (r: Result<String, Error>)
    ensures
        r == dir_result(config, AccountKind::Business),
{
    get_dir(config, AccountKind::Business)
}

/// The `SmartPath` for `path` in the sync folder of the given kind of
/// account, or the error that finding the folder gave.
pub open spec fn smart_path_result(
    config: Result<Info, Error>,
    kind: AccountKind,
    path: Seq<char>,
    r: Result<SmartPath, Error>,
) -> bool {
    match dir_result(config, kind) {
        Err(e) => r == Err::<SmartPath, Error>(e),
        Ok(root) => r is Ok && r->Ok_0@ == SmartPathView::new(root@, path),
    }
}

impl SmartPath {
    /// Creates a new `SmartPath`, the `path` parameter represent a target
    /// inside the Dropbox directory (personal).
    pub fn new_personal(config: Result<Info, Error>, path: &str) -> (r: Result<SmartPath, Error>)
        ensures
            smart_path_result(config, AccountKind::Personal, path@, r),
    {
        let root = personal_dir(config)?;
        Ok(SmartPath::new(root.as_str(), path))
    }

    /// Creates a new `SmartPath`, the `path` parameter represent a target
    /// inside the Dropbox directory (business).
    pub fn new_business(config: Result<Info, Error>, path: &str) -> (r: Result<SmartPath, Error>)
        ensures
            smart_path_result(config, AccountKind::Business, path@, r),
    {
        let root = business_dir(config)?;
        Ok(SmartPath::new(root.as_str(), path))
    }
}

/// An error met while reading the configuration is what the accessors and
/// both constructors give back, unchanged.
pub proof fn lemma_read_error_passed_on(
    e: Error,
    kind: AccountKind,
    path: Seq<char>,
    r: Result<SmartPath, Error>,
)
    requires
        smart_path_result(Err(e), kind, path, r),
    ensures
        dir_result(Err(e), kind) == Err::<String, Error>(e),
        r == Err::<SmartPath, Error>(e),
{
}

/// With a personal account and no business account, the business folder is
/// not configured, while the personal folder is the account's path as it is.
pub proof fn lemma_personal_only(info: Info)
    requires
        info.personal is Some,
        info.business is None,
    ensures
        dir_result(Ok(info), AccountKind::Business) == Err::<String, Error>(
            Error::AccountNotConfiguredError,
        ),
        dir_result(Ok(info), AccountKind::Personal) == Ok::<String, Error>(
            info.personal->0.path,
        ),
{
}

} // verus!
