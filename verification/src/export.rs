use vstd::prelude::*;
use vstd::string::*;
use crate::text::cat3;

verus! {

/// `SELECT * FROM (<query>) AS _t LIMIT 0`: the query's columns, without rows.
pub open spec fn describe_query_of(query: Seq<char>) -> Seq<char> {
    "SELECT * FROM ("@ + query + ") AS _t LIMIT 0"@
}

/// The statement that resolves the schema of a query before it is exported.
pub fn describe_query(query: &str) -> (r: String)
    ensures
        r@ == describe_query_of(query@),
{
    cat3("SELECT * FROM (", query, ") AS _t LIMIT 0")
}

} // verus!
