use std::sync::Arc;

use vstd::prelude::*;

use crate::errors::UserUpdateError;
use crate::user::{Credentials, CredentialsRow, User};

verus! {

/// Where the database lives.
#[derive(Debug)]
pub struct DbConfig {
    pub database: String,
}

impl DbConfig {
    pub fn new(database: &str) -> (r: DbConfig)
        ensures
            r.database@ == database@,
    {
        DbConfig { database: String::from_str(database) }
    }

    pub fn get_database(&self) -> (r: &str)
        ensures
            r@ == self.database@,
    {
        self.database.as_str()
    }
}

/// The database-backed user and credential store. Its queries run outside this
/// library; what they write is decided by `plan_credentials_save`.
#[derive(Debug)]
pub struct UserService {
    pub db_config: Arc<DbConfig>,
}

impl UserService {
    pub fn new(db_config: Arc<DbConfig>) -> (r: UserService)
        ensures
            r.db_config == db_config,
    {
        UserService { db_config }
    }
}

/// One statement that saves credentials.
#[derive(Debug)]
pub enum CredentialsWrite {
    /// A new row; the store assigns its id.
    Insert(CredentialsRow),
    /// An update of the row with the row's id.
    Update(CredentialsRow),
}

/// What saving `c` writes, or why nothing may be written: credentials with no
/// user are refused before any storage is touched; `id == 0` inserts, any other
/// id updates.
pub open spec fn credentials_save_spec(c: Credentials) -> Result<CredentialsWrite, UserUpdateError> {
    if c.user_id == 0 {
        Err(UserUpdateError::MissingUserId)
    } else if c.id == 0 {
        Ok(CredentialsWrite::Insert(c.row_spec()))
    } else {
        Ok(CredentialsWrite::Update(c.row_spec()))
    }
}

pub fn plan_credentials_save(c: &Credentials) -> (r: Result<CredentialsWrite, UserUpdateError>)
    ensures
        r == credentials_save_spec(*c),
{
    if c.user_id == 0 {
        Err(UserUpdateError::MissingUserId)
    } else if c.id == 0 {
        Ok(CredentialsWrite::Insert(c.to_row()))
    } else {
        Ok(CredentialsWrite::Update(c.to_row()))
    }
}

/// The writes that save a user with its password, made in one transaction.
#[derive(Debug)]
pub enum AccountWrite {
    /// Insert the user, then a credentials row for the id it gets.
    Create { name: String, email: String, password: String },
    /// Update the user's name and email and the password of its credentials.
    Update { user: User, password: String },
}

/// `id == 0` creates the user with its credentials; any other id updates both.
pub open spec fn account_save_spec(user: User, password: String) -> AccountWrite {
    if user.id == 0 {
        AccountWrite::Create { name: user.name, email: user.email, password: password }
    } else {
        AccountWrite::Update { user: user, password: password }
    }
}

pub fn plan_account_save(user: User, password: String) -> (r: AccountWrite)
    ensures
        r == account_save_spec(user, password),
{
    if user.id == 0 {
        AccountWrite::Create { name: user.name, email: user.email, password }
    } else {
        AccountWrite::Update { user, password }
    }
}

} // verus!
