//! Writes an endpoint performs as one batch, and the reply it gives once they succeeded.

use vstd::prelude::*;
use crate::reply::Reply;

verus! {

/// The statements an endpoint runs in one transaction, and its reply when all succeed.
pub struct WritePlan {
    pub statements: Vec<String>,
    pub success: Reply,
}

/// The statements of a plan, as text.
pub open spec fn statements_of(p: WritePlan) -> Seq<Seq<char>> {
    p.statements@.map_values(|s: String| s@)
}

/// A plan of one statement.
pub fn single(statement: String, success: Reply) -> (p: WritePlan)
    ensures
        statements_of(p) == seq![statement@],
        p.success == success,
{
    let mut statements: Vec<String> = Vec::new();
    statements.push(statement);
    let p = WritePlan { statements, success };
    assert(statements_of(p) =~= seq![statement@]);
    p
}

} // verus!
