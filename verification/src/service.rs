//! The account service: a thin pass-through over the repository, kept as
//! its own layer so the HTTP controller depends on one narrow seam.

use vstd::prelude::*;

use crate::account::{Account, AccountStatus, AccountType};
use crate::decoder::spec_decode_rows;
use crate::error::PermanentError;
use crate::filter::spec_conditions;
use crate::repository::{AccountRepository, DatabaseClient, spec_filter_rows};

verus! {

/// The service in front of the account repository.
pub struct AccountService<C: DatabaseClient> {
    pub repository: AccountRepository<C>,
}

impl<C: DatabaseClient> AccountService<C> {
    /// Builds a service over a repository of the given client.
    pub fn new(client: C) -> (r: Self)
        ensures
            r.repository.client == client,
    {
        AccountService { repository: AccountRepository::new(client) }
    }

    /// Lists the accounts matching the optional filters, exactly as the
    /// repository does.
    pub fn list_accounts(
        &self,
        account_type: Option<AccountType>,
        account_status: Option<AccountStatus>,
    ) -> (r: Result<Vec<Account>, PermanentError>)
        ensures
            ({
                let outcome = spec_decode_rows(
                    spec_filter_rows(
                        self.repository.client.rows(),
                        spec_conditions(account_type, account_status),
                    ),
                );
                &&& r matches Ok(accounts) ==> outcome matches Ok(vs) && accounts@.map_values(
                    |a: Account| a@,
                ) == vs
                &&& outcome matches Err(f) ==> r is Err
            }),
    {
        self.repository.list_accounts(account_type, account_status)
    }
}

} // verus!
