//! The filter builder: turns the two optional listing filters into
//! named-placeholder scan conditions, in the fixed order account type then
//! account status, and renders a condition list as an AND-joined filter
//! expression with its placeholder bindings.

use vstd::prelude::*;
use vstd::string::StringExecFns;

use crate::account::{account_status_str, account_type_str, AccountStatus, AccountType};

verus! {

/// The view of an executable condition list: attribute name and bound value
/// of each condition.
pub open spec fn conditions_view(conds: Seq<(String, String)>) -> Seq<(Seq<char>, Seq<char>)> {
    conds.map_values(|c: (String, String)| (c.0@, c.1@))
}

/// The conditions a listing with the given optional filters scans with: one
/// per present filter, bound to the enum's canonical string, account type
/// first.
pub open spec fn spec_conditions(
    account_type: Option<AccountType>,
    account_status: Option<AccountStatus>,
) -> Seq<(Seq<char>, Seq<char>)> {
    (match account_type {
        Some(t) => seq![("account_type"@, account_type_str(t))],
        None => Seq::empty(),
    }) + (match account_status {
        Some(s) => seq![("status"@, account_status_str(s))],
        None => Seq::empty(),
    })
}

/// Builds the scan conditions of a listing request.
pub fn build_conditions(
    account_type: Option<AccountType>,
    account_status: Option<AccountStatus>,
) -> (r: Vec<(String, String)>)
    ensures
        conditions_view(r@) == spec_conditions(account_type, account_status),
{
    let mut conditions: Vec<(String, String)> = Vec::new();
    if let Some(t) = account_type {
        conditions.push((String::from_str("account_type"), t.to_string()));
    }
    if let Some(s) = account_status {
        conditions.push((String::from_str("status"), s.to_string()));
    }
    proof {
        assert(conditions_view(conditions@) =~= spec_conditions(account_type, account_status));
    }
    conditions
}

/// With both filters present exactly two conditions are emitted: the
/// account-type condition first, the status condition second, each bound to
/// its enum's canonical string.
pub proof fn lemma_both_filters_conditions(t: AccountType, s: AccountStatus)
    ensures
        spec_conditions(Some(t), Some(s)) == seq![
            ("account_type"@, account_type_str(t)),
            ("status"@, account_status_str(s)),
        ],
{
    assert(spec_conditions(Some(t), Some(s)) =~= seq![
        ("account_type"@, account_type_str(t)),
        ("status"@, account_status_str(s)),
    ]);
}

/// One condition rendered as an equality between its two placeholders.
pub open spec fn condition_clause(name: Seq<char>) -> Seq<char> {
    "#"@ + name + " = :"@ + name
}

/// The AND-joined filter expression of a condition list, `None` when no
/// condition is present: the scan is then unfiltered.
pub open spec fn spec_filter_expression(conds: Seq<(Seq<char>, Seq<char>)>) -> Option<Seq<char>>
    decreases conds.len(),
{
    if conds.len() == 0 {
        None
    } else {
        let clause = condition_clause(conds.last().0);
        match spec_filter_expression(conds.drop_last()) {
            None => Some(clause),
            Some(e) => Some(e + " AND "@ + clause),
        }
    }
}

/// A two-condition scan renders as the first clause, ` AND `, then the
/// second clause.
pub proof fn lemma_two_condition_expression(conds: Seq<(Seq<char>, Seq<char>)>)
    requires
        conds.len() == 2,
    ensures
        spec_filter_expression(conds) == Some(
            condition_clause(conds[0].0) + " AND "@ + condition_clause(conds[1].0),
        ),
{
    reveal_with_fuel(spec_filter_expression, 3);
    assert(conds.drop_last().len() == 1);
    assert(conds.drop_last().drop_last().len() == 0);
    assert(conds.drop_last().last() == conds[0]);
    assert(conds.last() == conds[1]);
    assert(spec_filter_expression(conds.drop_last().drop_last()) is None);
    assert(spec_filter_expression(conds.drop_last()) == Some(condition_clause(conds[0].0)));
}

/// The name-placeholder bindings of a condition list.
pub open spec fn spec_attribute_names(conds: Seq<(Seq<char>, Seq<char>)>) -> Seq<
    (Seq<char>, Seq<char>),
> {
    conds.map_values(|c: (Seq<char>, Seq<char>)| ("#"@ + c.0, c.0))
}

/// The value-placeholder bindings of a condition list.
pub open spec fn spec_attribute_values(conds: Seq<(Seq<char>, Seq<char>)>) -> Seq<
    (Seq<char>, Seq<char>),
> {
    conds.map_values(|c: (Seq<char>, Seq<char>)| (":"@ + c.0, c.1))
}

/// A fully rendered scan request: the table, the optional filter expression
/// and the placeholder bindings it refers to.
pub struct ScanRequest {
    pub table_name: String,
    pub filter_expression: Option<String>,
    pub expression_attribute_names: Vec<(String, String)>,
    pub expression_attribute_values: Vec<(String, String)>,
}

/// Renders a condition list as a scan request against `table_name`.
pub fn build_scan_request(table_name: &str, conditions: &Vec<(String, String)>) -> (r: ScanRequest)
    ensures
        r.table_name@ == table_name@,
        match (r.filter_expression, spec_filter_expression(conditions_view(conditions@))) {
            (Some(e), Some(se)) => e@ == se,
            (None, None) => true,
            _ => false,
        },
        conditions_view(r.expression_attribute_names@) == spec_attribute_names(
            conditions_view(conditions@),
        ),
        conditions_view(r.expression_attribute_values@) == spec_attribute_values(
            conditions_view(conditions@),
        ),
{
    let ghost cv = conditions_view(conditions@);
    let mut filter_expression: Option<String> = None;
    let mut names: Vec<(String, String)> = Vec::new();
    let mut values: Vec<(String, String)> = Vec::new();
    let mut i: usize = 0;
    proof {
        assert(cv.take(0) =~= Seq::<(Seq<char>, Seq<char>)>::empty());
    }
    while i < conditions.len()
        invariant
            i <= conditions@.len(),
            cv == conditions_view(conditions@),
            match (filter_expression, spec_filter_expression(cv.take(i as int))) {
                (Some(e), Some(se)) => e@ == se,
                (None, None) => true,
                _ => false,
            },
            names@.len() == i,
            values@.len() == i,
            forall|j: int|
                0 <= j < i ==> (#[trigger] names@[j]).0@ == "#"@ + cv[j].0 && names@[j].1@
                    == cv[j].0,
            forall|j: int|
                0 <= j < i ==> (#[trigger] values@[j]).0@ == ":"@ + cv[j].0 && values@[j].1@
                    == cv[j].1,
        decreases conditions@.len() - i,
    {
        proof {
            assert(cv.take(i as int + 1).drop_last() =~= cv.take(i as int));
            assert(cv.take(i as int + 1).last() == cv[i as int]);
        }
        let name = conditions[i].0.as_str();
        let value = conditions[i].1.as_str();
        let name_parameter = String::from_str("#").concat(name);
        let value_parameter = String::from_str(":").concat(name);
        let clause = String::from_str("#").concat(name).concat(" = :").concat(name);
        let previous = filter_expression;
        filter_expression = Some(
            match previous {
                Some(e) => e.concat(" AND ").concat(clause.as_str()),
                None => clause,
            },
        );
        names.push((name_parameter, String::from_str(name)));
        values.push((value_parameter, String::from_str(value)));
        i += 1;
    }
    proof {
        assert(cv.take(conditions@.len() as int) =~= cv);
        assert forall|j: int| 0 <= j < cv.len() implies conditions_view(names@)[j]
            == spec_attribute_names(cv)[j] by {
            assert(conditions_view(names@)[j] == (names@[j].0@, names@[j].1@));
        }
        assert(conditions_view(names@) =~= spec_attribute_names(cv));
        assert forall|j: int| 0 <= j < cv.len() implies conditions_view(values@)[j]
            == spec_attribute_values(cv)[j] by {
            assert(conditions_view(values@)[j] == (values@[j].0@, values@[j].1@));
        }
        assert(conditions_view(values@) =~= spec_attribute_values(cv));
    }
    ScanRequest {
        table_name: String::from_str(table_name),
        filter_expression,
        expression_attribute_names: names,
        expression_attribute_values: values,
    }
}

} // verus!
