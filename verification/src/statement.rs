//! Statements: SQL text with numbered placeholders and the values bound to them.

use vstd::prelude::*;

verus! {

/// A value bound to a placeholder.
#[derive(Debug)]
pub enum Param {
    Text(String),
    Id(uuid::Uuid),
}

/// What a bound value is, in specifications.
pub enum ParamValue {
    Text(Seq<char>),
    Id(uuid::Uuid),
}

impl View for Param {
    type V = ParamValue;

    open spec fn view(&self) -> ParamValue {
        match self {
            Param::Text(s) => ParamValue::Text(s@),
            Param::Id(id) => ParamValue::Id(*id),
        }
    }
}

/// A bound value's view is the value itself: a text by its characters, an
/// id as it is.
pub proof fn lemma_param_view_is_its_value(p: Param)
    ensures
        p matches Param::Text(t) ==> p@ == ParamValue::Text(t@),
        p matches Param::Id(id) ==> p@ == ParamValue::Id(id),
{
}

/// How the statement is to be run.
#[derive(Debug, Clone, Copy, PartialEq, Eq, Structural)]
pub enum Execution {
    /// Run it and read exactly one row back; no row is an error.
    FetchOne,
    /// Run it for its effect; no rows are read.
    Execute,
}

/// A statement ready to be run: `params[k - 1]` is bound to placeholder `$k`.
#[derive(Debug)]
pub struct Statement {
    pub sql: &'static str,
    pub params: Vec<Param>,
    pub execution: Execution,
}

/// The numeric value of a decimal digit.
pub open spec fn digit_value(c: char) -> int {
    c as int - '0' as int
}

pub open spec fn is_digit(c: char) -> bool {
    '0' <= c && c <= '9'
}

/// Placeholder `$k` is written at position `i` of `sql`.
pub open spec fn placeholder_at(sql: Seq<char>, i: int, k: int) -> bool {
    &&& 0 <= i < sql.len() - 1
    &&& sql[i] == '$'
    &&& digit_value(sql[i + 1]) == k
}

/// Placeholder `$k` occurs in `sql`.
pub open spec fn has_placeholder(sql: Seq<char>, k: int) -> bool {
    exists|i: int| #[trigger] placeholder_at(sql, i, k)
}

/// `sql` uses exactly the placeholders `$1` to `$n`, each written with one
/// digit: every `$` is followed by a digit from 1 to `n` that no other digit
/// follows, and each of `$1` .. `$n` occurs.
pub open spec fn numbers_placeholders(sql: Seq<char>, n: nat) -> bool {
    &&& n <= 9
    &&& forall|i: int|
        0 <= i < sql.len() && #[trigger] sql[i] == '$' ==> {
            &&& i + 1 < sql.len()
            &&& 1 <= digit_value(sql[i + 1]) <= n
            &&& (i + 2 < sql.len() ==> !is_digit(sql[i + 2]))
        }
    &&& forall|k: int| 1 <= k <= n ==> #[trigger] has_placeholder(sql, k)
}

impl Statement {
    /// The bound values, in placeholder order.
    pub open spec fn values(&self) -> Seq<ParamValue> {
        self.params@.map_values(|p: Param| p@)
    }

    /// The SQL text binds every value it is given and no other.
    pub open spec fn well_formed(&self) -> bool {
        numbers_placeholders(self.sql@, self.values().len())
    }
}

/// A statement that binds one id.
pub fn with_id(sql: &'static str, id: &uuid::Uuid, execution: Execution) -> (st: Statement)
    ensures
        st.sql == sql,
        st.execution == execution,
        st.values() == seq![ParamValue::Id(*id)],
{
    let mut params: Vec<Param> = Vec::new();
    params.push(Param::Id(*id));
    let st = Statement { sql, params, execution };
    assert(st.values() =~= seq![ParamValue::Id(*id)]);
    st
}

} // verus!
