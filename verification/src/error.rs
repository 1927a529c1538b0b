//! The errors that components receive.

use vstd::prelude::*;

verus! {

/// Why a query failed.
#[derive(Debug, PartialEq, Eq)]
pub enum QueryError {
    InvalidParams(String),
    Unexpected(String),
}

/// What a [`QueryError`] says.
pub ghost enum QueryErrorModel {
    InvalidParams(Seq<char>),
    Unexpected(Seq<char>),
}

impl View for QueryError {
    type V = QueryErrorModel;

    open spec fn view(&self) -> QueryErrorModel {
        match *self {
            QueryError::InvalidParams(text) => QueryErrorModel::InvalidParams(text@),
            QueryError::Unexpected(text) => QueryErrorModel::Unexpected(text@),
        }
    }
}

/// Why a statement could not be prepared.
#[derive(Debug, PartialEq, Eq)]
pub enum StatementPrepareError {
    Unexpected(String),
}

/// What a [`StatementPrepareError`] says.
pub ghost enum PrepareErrorModel {
    Unexpected(Seq<char>),
}

impl View for StatementPrepareError {
    type V = PrepareErrorModel;

    open spec fn view(&self) -> PrepareErrorModel {
        match *self {
            StatementPrepareError::Unexpected(text) => PrepareErrorModel::Unexpected(text@),
        }
    }
}

/// Why a prepared statement could not be executed.
#[derive(Debug, PartialEq, Eq)]
pub enum PreparedStatementExecError {
    QueryError(QueryError),
    Unexpected(String),
}

/// What a [`PreparedStatementExecError`] says.
pub ghost enum ExecErrorModel {
    QueryError(QueryErrorModel),
    Unexpected(Seq<char>),
}

impl View for PreparedStatementExecError {
    type V = ExecErrorModel;

    open spec fn view(&self) -> ExecErrorModel {
        match *self {
            PreparedStatementExecError::QueryError(e) => ExecErrorModel::QueryError(e@),
            PreparedStatementExecError::Unexpected(text) => ExecErrorModel::Unexpected(text@),
        }
    }
}

/// An error says the text that it holds, and is seen as the kind of error that it is.
pub proof fn law_errors_say_what_they_hold(text: String, e: QueryError)
    ensures
        QueryError::InvalidParams(text)@ == QueryErrorModel::InvalidParams(text@),
        QueryError::Unexpected(text)@ == QueryErrorModel::Unexpected(text@),
        StatementPrepareError::Unexpected(text)@ == PrepareErrorModel::Unexpected(text@),
        PreparedStatementExecError::Unexpected(text)@ == ExecErrorModel::Unexpected(text@),
        PreparedStatementExecError::QueryError(e)@ == ExecErrorModel::QueryError(e@),
{
}

} // verus!
