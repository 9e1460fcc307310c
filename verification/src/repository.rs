//! The account repository: composes the filter builder, a substitutable
//! database client and the row decoder into the one listing operation. The
//! client is a capability interface so the repository logic can be exercised
//! against an in-memory store; the in-memory client provided here is itself
//! verified against the same contract.

use vstd::prelude::*;
use vstd::string::StringExecFns;

use crate::account::{Account, AccountStatus, AccountType};
use crate::attribute::{attr_get, attr_lookup, AttributeMap, AttributeValue};
use crate::decoder::{decode_listing, deref_rows, spec_decode_rows};
use crate::error::PermanentError;
use crate::filter::{build_conditions, conditions_view, spec_conditions};
use crate::text::str_eq;

verus! {

/// Whether a row satisfies one condition: the named attribute holds exactly
/// the bound string.
pub open spec fn row_matches_condition(row: AttributeMap, cond: (Seq<char>, Seq<char>)) -> bool {
    match attr_get(row@, cond.0) {
        Some(av) => av matches AttributeValue::S(s) && s@ == cond.1,
        None => false,
    }
}

/// Whether a row satisfies every condition of a scan.
pub open spec fn row_matches(row: AttributeMap, conds: Seq<(Seq<char>, Seq<char>)>) -> bool {
    forall|i: int| 0 <= i < conds.len() ==> row_matches_condition(row, #[trigger] conds[i])
}

/// The rows a scan with the given conditions returns, in store order.
pub open spec fn spec_filter_rows(
    rows: Seq<AttributeMap>,
    conds: Seq<(Seq<char>, Seq<char>)>,
) -> Seq<AttributeMap> {
    rows.filter(|row: AttributeMap| row_matches(row, conds))
}

/// A scan whose conditions every stored row satisfies keeps the whole
/// store.
pub proof fn lemma_filter_rows_all_match(
    rows: Seq<AttributeMap>,
    conds: Seq<(Seq<char>, Seq<char>)>,
)
    requires
        forall|i: int| 0 <= i < rows.len() ==> row_matches(#[trigger] rows[i], conds),
    ensures
        spec_filter_rows(rows, conds) == rows,
    decreases rows.len(),
{
    reveal(Seq::filter);
    if rows.len() == 0 {
        assert(spec_filter_rows(rows, conds) =~= rows);
    } else {
        lemma_filter_rows_all_match(rows.drop_last(), conds);
        assert(row_matches(rows.last(), conds));
        assert(spec_filter_rows(rows, conds) =~= rows);
    }
}

/// An unfiltered listing: with neither filter present the scan carries no
/// conditions, a scan without conditions returns every row the store
/// provides, in store order, and the listing is then the decode of exactly
/// those rows.
pub proof fn lemma_unfiltered_scan(rows: Seq<AttributeMap>)
    ensures
        spec_conditions(None, None) == Seq::<(Seq<char>, Seq<char>)>::empty(),
        spec_filter_rows(rows, spec_conditions(None, None)) == rows,
        spec_decode_rows(spec_filter_rows(rows, spec_conditions(None, None))) == spec_decode_rows(
            rows,
        ),
{
    assert(spec_conditions(None, None) =~= Seq::<(Seq<char>, Seq<char>)>::empty());
    lemma_filter_rows_all_match(rows, spec_conditions(None, None));
}

/// The capability interface of the backing store: one scan operation over a
/// named table, restricted by equality conditions, answering with the
/// matching rows or a store fault.
pub trait DatabaseClient: Sized {
    /// The rows this client's store holds.
    spec fn rows(&self) -> Seq<AttributeMap>;

    /// Scans `table_name` and returns every stored row that satisfies all
    /// of `conditions`, in store order; a store fault may surface instead.
    fn list<'a>(&'a self, table_name: String, conditions: Vec<(String, String)>) -> (r: Result<
        Vec<&'a AttributeMap>,
        PermanentError,
    >)
        ensures
            r matches Ok(out) ==> deref_rows(out@) == spec_filter_rows(
                self.rows(),
                conditions_view(conditions@),
            ),
    ;
}

/// An in-memory database client: holds its rows directly, and can be primed
/// with a fault to stand in for a store outage.
pub struct InMemoryDatabaseClient {
    pub stored: Vec<AttributeMap>,
    pub fault: Option<String>,
}

/// Whether a row satisfies every condition of a list, decided by lookup and
/// string comparison.
fn row_satisfies(row: &AttributeMap, conditions: &Vec<(String, String)>) -> (b: bool)
    ensures
        b == row_matches(*row, conditions_view(conditions@)),
{
    let ghost cv = conditions_view(conditions@);
    let mut i: usize = 0;
    while i < conditions.len()
        invariant
            i <= conditions@.len(),
            cv == conditions_view(conditions@),
            forall|j: int| 0 <= j < i ==> row_matches_condition(*row, #[trigger] cv[j]),
        decreases conditions@.len() - i,
    {
        proof {
            assert(cv[i as int] == (conditions@[i as int].0@, conditions@[i as int].1@));
        }
        let holds = match attr_lookup(row, conditions[i].0.as_str()) {
            Some(AttributeValue::S(s)) => str_eq(s.as_str(), conditions[i].1.as_str()),
            _ => false,
        };
        if !holds {
            assert(!row_matches_condition(*row, cv[i as int]));
            return false;
        }
        i += 1;
    }
    true
}

impl InMemoryDatabaseClient {
    /// Scans the held rows: without a primed fault the result is exactly
    /// the rows satisfying every condition, in order; with one, the fault's
    /// text surfaces as the store error.
    pub fn scan<'a>(&'a self, conditions: &Vec<(String, String)>) -> (r: Result<
        Vec<&'a AttributeMap>,
        PermanentError,
    >)
        ensures
            self.fault is None ==> (r matches Ok(out) && deref_rows(out@) == spec_filter_rows(
                self.stored@,
                conditions_view(conditions@),
            )),
            self.fault matches Some(f) ==> (r matches Err(e) && e.source@ == f@ && e.message
                is None),
    {
        if let Some(f) = &self.fault {
            return Err(PermanentError { source: f.clone(), message: None });
        }
        let ghost cv = conditions_view(conditions@);
        let mut out: Vec<&'a AttributeMap> = Vec::new();
        let mut i: usize = 0;
        proof {
            reveal(Seq::filter);
            assert(self.stored@.take(0) =~= Seq::<AttributeMap>::empty());
            assert(deref_rows(out@) =~= spec_filter_rows(self.stored@.take(0), cv));
        }
        while i < self.stored.len()
            invariant
                i <= self.stored@.len(),
                cv == conditions_view(conditions@),
                deref_rows(out@) == spec_filter_rows(self.stored@.take(i as int), cv),
            decreases self.stored@.len() - i,
        {
            proof {
                reveal(Seq::filter);
                assert(self.stored@.take(i as int + 1).drop_last() =~= self.stored@.take(i as int));
                assert(self.stored@.take(i as int + 1).last() == self.stored@[i as int]);
            }
            let row = &self.stored[i];
            let ghost old_out = out@;
            if row_satisfies(row, conditions) {
                out.push(row);
                proof {
                    assert(deref_rows(out@) =~= deref_rows(old_out).push(self.stored@[i as int]));
                }
            }
            proof {
                assert(deref_rows(out@) =~= spec_filter_rows(
                    self.stored@.take(i as int + 1),
                    cv,
                ));
            }
            i += 1;
        }
        proof {
            assert(self.stored@.take(self.stored@.len() as int) =~= self.stored@);
        }
        Ok(out)
    }
}

impl DatabaseClient for InMemoryDatabaseClient {
    open spec fn rows(&self) -> Seq<AttributeMap> {
        self.stored@
    }

    fn list<'a>(&'a self, table_name: String, conditions: Vec<(String, String)>) -> (r: Result<
        Vec<&'a AttributeMap>,
        PermanentError,
    >) {
        self.scan(&conditions)
    }
}

/// The repository of accounts: the one composed listing operation over a
/// database client.
pub struct AccountRepository<C: DatabaseClient> {
    pub client: C,
}

impl<C: DatabaseClient> AccountRepository<C> {
    /// Builds a repository over the given client.
    pub fn new(client: C) -> (r: Self)
        ensures
            r.client == client,
    {
        AccountRepository { client }
    }

    /// Lists the accounts matching the optional filters: scans the table
    /// with the conditions of [`spec_conditions`], decodes every returned
    /// row and keeps the store's order. A store fault is passed through; a
    /// row that does not decode turns the listing into an error carrying
    /// the decode fault's description.
    pub fn list_accounts(
        &self,
        account_type: Option<AccountType>,
        account_status: Option<AccountStatus>,
    ) -> (r: Result<Vec<Account>, PermanentError>)
        ensures
            ({
                let outcome = spec_decode_rows(
                    spec_filter_rows(
                        self.client.rows(),
                        spec_conditions(account_type, account_status),
                    ),
                );
                &&& r matches Ok(accounts) ==> outcome matches Ok(vs) && accounts@.map_values(
                    |a: Account| a@,
                ) == vs
                &&& outcome matches Err(f) ==> r is Err
            }),
    {
        let conditions = build_conditions(account_type, account_status);
        let rows = match self.client.list(String::from_str("Account"), conditions) {
            Err(e) => {
                return Err(e);
            },
            Ok(rows) => rows,
        };
        match decode_listing(&rows) {
            Ok(accounts) => Ok(accounts),
            Err(e) => Err(PermanentError { source: e.describe(), message: None }),
        }
    }
}

} // verus!
