//! The requests of components: what is decided before a request reaches the database, and what is
//! answered when the database cannot be reached.

use vstd::prelude::*;
use crate::error::{
    ExecErrorModel, PrepareErrorModel, PreparedStatementExecError, QueryError, QueryErrorModel,
    StatementPrepareError,
};
use crate::params::{driver_params, find_fault, first_fault, json_flags, to_driver_params};
use crate::provider::{MysqlProvider, PreparedStatementInfo, ProviderModel, StatementModel};
use crate::text::{blank, is_blank};
use crate::value::{driver_values, values, ColumnType, DriverValue, MysqlValue, ValueModel};

verus! {

/// What is known of where a request comes from.
#[derive(Debug, PartialEq, Eq)]
pub struct Context {
    /// The component that sends it.
    pub component: Option<String>,
}

/// The component that a request comes from, if it is known.
pub open spec fn source_of(ctx: Option<Context>) -> Option<Seq<char>> {
    match ctx {
        Some(Context { component: Some(source_id) }) => Some(source_id@),
        _ => None,
    }
}

/// What is answered to a request of which it is not known where it comes from.
pub open spec fn missing_source_text() -> Seq<char> {
    "unexpectedly missing source ID"@
}

/// What is wrong with the parameters of a request, if anything.
pub open spec fn params_fault(params: Seq<ValueModel>) -> Option<Seq<char>> {
    first_fault(params, json_flags(params))
}

/// What is answered to a query of a component without a pool.
pub open spec fn query_pool_text(source_id: Seq<char>, reason: Seq<char>) -> Seq<char> {
    "missing connection pool for source ["@ + source_id + "] while querying: "@ + reason
}

/// What is answered to a component without a pool that prepares a statement.
pub open spec fn prepare_pool_text(source_id: Seq<char>, reason: Seq<char>) -> Seq<char> {
    "failed to find connection pool for source ["@ + source_id + "]: "@ + reason
}

/// What is answered when the component that prepared a statement has no pool.
pub open spec fn execute_pool_text(
    source_id: Seq<char>,
    token: Seq<char>,
    reason: Seq<char>,
) -> Seq<char> {
    "missing connection pool for token ["@ + source_id + "], statement ID ["@ + token + "]: "@
        + reason
}

/// What is answered when a statement is not known.
pub open spec fn missing_statement_text(token: Seq<char>) -> Seq<char> {
    "missing prepared statement with statement ID ["@ + token + "]"@
}

/// What is answered when a pool hands out no connection.
pub open spec fn no_connection_text(reason: Seq<char>) -> Seq<char> {
    "failed to get connection from pool: "@ + reason
}

fn no_connection_message(reason: &str) -> (r: String)
    ensures
        r@ == no_connection_text(reason@),
{
    let mut text: String = "failed to get connection from pool: ".to_owned();
    text.append(reason);
    text
}

/// The answer to a query for which the pool hands out no connection.
pub fn query_connection_error(reason: &str) -> (e: QueryError)
    ensures
        e@ == QueryErrorModel::Unexpected(no_connection_text(reason@)),
{
    QueryError::Unexpected(no_connection_message(reason))
}

/// The answer to the preparation of a statement for which the pool hands out no connection.
pub fn prepare_connection_error(reason: &str) -> (e: StatementPrepareError)
    ensures
        e@ == PrepareErrorModel::Unexpected(no_connection_text(reason@)),
{
    StatementPrepareError::Unexpected(no_connection_message(reason))
}

/// The answer to the execution of a statement for which the pool hands out no connection.
pub fn execute_connection_error(reason: &str) -> (e: PreparedStatementExecError)
    ensures
        e@ == ExecErrorModel::Unexpected(no_connection_text(reason@)),
{
    PreparedStatementExecError::Unexpected(no_connection_message(reason))
}

/// A query that is ready to be sent: the pool that serves it and its parameters.
pub struct QueryPlan<'a, P> {
    pub pool: &'a P,
    pub params: Vec<DriverValue>,
}

/// A statement that is ready to be executed: the pool that serves it, the query that was prepared
/// and the types that the server asks of its parameters.
pub struct ExecutePlan<'a, P> {
    pub pool: &'a P,
    pub statement: &'a PreparedStatementInfo,
}

/// What a query of `source_id` must be answered: `Ok` if it is to be sent.
pub open spec fn query_answer<P>(
    state: ProviderModel<P>,
    source_id: Seq<char>,
    params: Seq<ValueModel>,
) -> Result<P, QueryErrorModel> {
    match params_fault(params) {
        Some(fault) => Err(QueryErrorModel::InvalidParams(fault)),
        None => batch_answer(state, source_id),
    }
}

/// What a batch of `source_id` must be answered: `Ok` if it is to be sent.
pub open spec fn batch_answer<P>(state: ProviderModel<P>, source_id: Seq<char>) -> Result<
    P,
    QueryErrorModel,
> {
    match state.pool(source_id) {
        Ok(pool) => Ok(pool),
        Err(reason) => Err(QueryErrorModel::Unexpected(query_pool_text(source_id, reason))),
    }
}

/// What the preparation of `query` for `source_id` must be answered: `Ok` if it is to be sent.
pub open spec fn prepare_answer<P>(
    state: ProviderModel<P>,
    source_id: Seq<char>,
    query: Seq<char>,
) -> Result<P, PrepareErrorModel> {
    if blank(query) {
        Err(PrepareErrorModel::Unexpected("Query cannot be empty"@))
    } else {
        match state.pool(source_id) {
            Ok(pool) => Ok(pool),
            Err(reason) => Err(PrepareErrorModel::Unexpected(prepare_pool_text(source_id, reason))),
        }
    }
}

/// What the execution of the statement `token` must be answered: `Ok` if it is to be sent.
pub open spec fn execute_answer<P>(
    state: ProviderModel<P>,
    token: Seq<char>,
    params: Seq<ValueModel>,
) -> Result<(P, StatementModel), ExecErrorModel> {
    match params_fault(params) {
        Some(fault) => Err(ExecErrorModel::QueryError(QueryErrorModel::InvalidParams(fault))),
        None => if !state.statements.contains_key(token) {
            Err(ExecErrorModel::Unexpected(missing_statement_text(token)))
        } else {
            let statement = state.statements[token];
            match state.pool(statement.source_id) {
                Ok(pool) => Ok((pool, statement)),
                Err(reason) => Err(
                    ExecErrorModel::Unexpected(
                        execute_pool_text(statement.source_id, token, reason),
                    ),
                ),
            }
        },
    }
}

/// The token of the prepared statement with the identifier `id`.
pub open spec fn token_text(id: Seq<char>) -> Seq<char> {
    "prepared-statement-"@ + id
}

/// Whether a character is a digit of Crockford's base 32.
pub open spec fn crockford(c: char) -> bool {
    ('0' <= c <= '9') || ('A' <= c <= 'Z' && c != 'I' && c != 'L' && c != 'O' && c != 'U')
}

/// Whether a text has the form of a ULID: 26 digits of Crockford's base 32.
pub open spec fn ulid_text(text: Seq<char>) -> bool {
    text.len() == 26 && forall|i: int| 0 <= i < text.len() ==> crockford(#[trigger] text[i])
}

/// `Ulid::new` of ulid, as a text. Which one comes out is up to the clock and to chance; it always
/// has the form of a ULID. That no two are the same is not said.
#[verifier::external_body]
fn new_ulid() -> (id: String)
    ensures
        ulid_text(id@),
{
    ulid::Ulid::new().to_string()
}

/// The component that a request comes from.
fn source_id_of(ctx: Option<Context>) -> (r: Option<String>)
    ensures
        match r {
            Some(s) => source_of(ctx) == Some(s@),
            None => source_of(ctx) is None,
        },
{
    match ctx {
        Some(Context { component: Some(source_id) }) => Some(source_id),
        _ => None,
    }
}

impl<P> MysqlProvider<P> {
    /// Takes a query in: checks the parameters, finds the pool and puts the parameters into the
    /// driver's form.
    pub fn do_query(&self, source_id: &str, params: Vec<MysqlValue>) -> (r: Result<
        QueryPlan<'_, P>,
        QueryError,
    >)
        ensures
            match query_answer(self@, source_id@, values(params@)) {
                Ok(pool) => r matches Ok(plan) && *plan.pool == pool && driver_values(
                    plan.params@,
                ) == driver_params(values(params@)),
                Err(error) => r matches Err(e) && e@ == error,
            },
    {
        if let Some(fault) = find_fault(&params) {
            return Err(QueryError::InvalidParams(fault));
        }
        match self.do_query_batch(source_id) {
            Ok(pool) => Ok(QueryPlan { pool, params: to_driver_params(params) }),
            Err(e) => Err(e),
        }
    }

    /// Takes a batch of SQL statements in: finds the pool.
    pub fn do_query_batch(&self, source_id: &str) -> (r: Result<&P, QueryError>)
        ensures
            match batch_answer(self@, source_id@) {
                Ok(pool) => r matches Ok(p) && *p == pool,
                Err(error) => r matches Err(e) && e@ == error,
            },
    {
        match self.get_pool(source_id) {
            Ok(pool) => Ok(pool),
            Err(reason) => {
                let mut text: String = "missing connection pool for source [".to_owned();
                text.append(source_id);
                text.append("] while querying: ");
                text.append(reason.as_str());
                Err(QueryError::Unexpected(text))
            },
        }
    }

    /// Takes the preparation of a statement in: checks that there is one and finds the pool.
    pub fn do_statement_prepare(&self, source_id: &str, query: &str) -> (r: Result<
        &P,
        StatementPrepareError,
    >)
        ensures
            match prepare_answer(self@, source_id@, query@) {
                Ok(pool) => r matches Ok(p) && *p == pool,
                Err(error) => r matches Err(e) && e@ == error,
            },
    {
        if is_blank(query) {
            return Err(StatementPrepareError::Unexpected("Query cannot be empty".to_owned()));
        }
        match self.get_pool(source_id) {
            Ok(pool) => Ok(pool),
            Err(reason) => {
                let mut text: String = "failed to find connection pool for source [".to_owned();
                text.append(source_id);
                text.append("]: ");
                text.append(reason.as_str());
                Err(StatementPrepareError::Unexpected(text))
            },
        }
    }

    /// Makes a statement that the server has prepared known by the token with the identifier `id`.
    pub fn store_statement(
        &mut self,
        source_id: &str,
        query: &str,
        param_types: Vec<ColumnType>,
        id: &str,
    ) -> (token: String)
        ensures
            token@ == token_text(id@),
            final(self)@ == old(self)@.prepared(
                token@,
                StatementModel { query: query@, param_types: param_types@, source_id: source_id@ },
            ),
    {
        let mut token: String = "prepared-statement-".to_owned();
        token.append(id);
        self.insert_statement(
            token.clone(),
            PreparedStatementInfo {
                query: query.to_owned(),
                param_types,
                source_id: source_id.to_owned(),
            },
        );
        token
    }

    /// Makes a statement that the server has prepared known by a new token.
    pub fn record_statement(
        &mut self,
        source_id: &str,
        query: &str,
        param_types: Vec<ColumnType>,
    ) -> (token: String)
        ensures
            exists|id: Seq<char>| #[trigger] token_text(id) == token@ && ulid_text(id),
            final(self)@ == old(self)@.prepared(
                token@,
                StatementModel { query: query@, param_types: param_types@, source_id: source_id@ },
            ),
    {
        let id: String = new_ulid();
        self.store_statement(source_id, query, param_types, id.as_str())
    }

    /// Takes the execution of a statement in: checks the parameters, finds the statement and the
    /// pool.
    pub fn do_statement_execute(&self, statement_token: &str, params: &Vec<MysqlValue>) -> (r:
        Result<ExecutePlan<'_, P>, PreparedStatementExecError>)
        ensures
            match execute_answer(self@, statement_token@, values(params@)) {
                Ok((pool, statement)) => r matches Ok(plan) && *plan.pool == pool
                    && plan.statement@ == statement,
                Err(error) => r matches Err(e) && e@ == error,
            },
    {
        if let Some(fault) = find_fault(params) {
            return Err(PreparedStatementExecError::QueryError(QueryError::InvalidParams(fault)));
        }
        match self.get_statement(statement_token) {
            Some(statement) => match self.get_pool(statement.source_id.as_str()) {
                Ok(pool) => Ok(ExecutePlan { pool, statement }),
                Err(reason) => {
                    let mut text: String = "missing connection pool for token [".to_owned();
                    text.append(statement.source_id.as_str());
                    text.append("], statement ID [");
                    text.append(statement_token);
                    text.append("]: ");
                    text.append(reason.as_str());
                    Err(PreparedStatementExecError::Unexpected(text))
                },
            },
            None => {
                let mut text: String = "missing prepared statement with statement ID [".to_owned();
                text.append(statement_token);
                text.append("]");
                Err(PreparedStatementExecError::Unexpected(text))
            },
        }
    }

    /// Takes in a query that a component sends.
    pub fn query(&self, ctx: Option<Context>, params: Vec<MysqlValue>) -> (r: Result<
        QueryPlan<'_, P>,
        QueryError,
    >)
        ensures
            match source_of(ctx) {
                None => r matches Err(e) && e@ == QueryErrorModel::Unexpected(
                    missing_source_text(),
                ),
                Some(source_id) => match query_answer(self@, source_id, values(params@)) {
                    Ok(pool) => r matches Ok(plan) && *plan.pool == pool && driver_values(
                        plan.params@,
                    ) == driver_params(values(params@)),
                    Err(error) => r matches Err(e) && e@ == error,
                },
            },
    {
        match source_id_of(ctx) {
            Some(source_id) => self.do_query(source_id.as_str(), params),
            None => Err(QueryError::Unexpected("unexpectedly missing source ID".to_owned())),
        }
    }

    /// Takes in a batch of SQL statements that a component sends.
    pub fn query_batch(&self, ctx: Option<Context>) -> (r: Result<&P, QueryError>)
        ensures
            match source_of(ctx) {
                None => r matches Err(e) && e@ == QueryErrorModel::Unexpected(
                    missing_source_text(),
                ),
                Some(source_id) => match batch_answer(self@, source_id) {
                    Ok(pool) => r matches Ok(p) && *p == pool,
                    Err(error) => r matches Err(e) && e@ == error,
                },
            },
    {
        match source_id_of(ctx) {
            Some(source_id) => self.do_query_batch(source_id.as_str()),
            None => Err(QueryError::Unexpected("unexpectedly missing source ID".to_owned())),
        }
    }

    /// Takes in the preparation of a statement that a component asks for, and hands back the
    /// component with the pool that serves it.
    pub fn prepare(&self, ctx: Option<Context>, query: &str) -> (r: Result<
        (String, &P),
        StatementPrepareError,
    >)
        ensures
            match source_of(ctx) {
                None => r matches Err(e) && e@ == PrepareErrorModel::Unexpected(
                    missing_source_text(),
                ),
                Some(source_id) => match prepare_answer(self@, source_id, query@) {
                    Ok(pool) => r matches Ok(found) && found.0@ == source_id && *found.1 == pool,
                    Err(error) => r matches Err(e) && e@ == error,
                },
            },
    {
        match source_id_of(ctx) {
            Some(source_id) => match self.do_statement_prepare(source_id.as_str(), query) {
                Ok(pool) => Ok((source_id, pool)),
                Err(e) => Err(e),
            },
            None => Err(
                StatementPrepareError::Unexpected("unexpectedly missing source ID".to_owned()),
            ),
        }
    }
}

/// A request comes from the component that its context names, if there is a context and it names
/// one.
pub proof fn law_requests_come_from_named_components(ctx: Option<Context>, source_id: Seq<char>)
    ensures
        source_of(ctx) == Some(source_id) <==> (ctx matches Some(c) && c.component matches Some(s)
            && s@ == source_id),
{
}

/// A query or a batch is sent to the pool of its component and to no other, and so is a statement
/// that is to be prepared. Only queries with faulty parameters and blank statements are turned
/// away from a component that has a pool.
pub proof fn law_requests_are_sent_to_own_pool<P>(
    state: ProviderModel<P>,
    source_id: Seq<char>,
    params: Seq<ValueModel>,
    query: Seq<char>,
    pool: P,
)
    ensures
        batch_answer(state, source_id) == Ok::<P, QueryErrorModel>(pool) <==> state.pool(source_id)
            == Ok::<P, Seq<char>>(pool),
        query_answer(state, source_id, params) == Ok::<P, QueryErrorModel>(pool) <==> {
            &&& state.pool(source_id) == Ok::<P, Seq<char>>(pool)
            &&& first_fault(params, json_flags(params)) is None
        },
        prepare_answer(state, source_id, query) == Ok::<P, PrepareErrorModel>(pool) <==> {
            &&& state.pool(source_id) == Ok::<P, Seq<char>>(pool)
            &&& !blank(query)
        },
{
}

/// A statement is executed with the pool of the component that prepared it, whoever asks for it,
/// and as it was prepared. It must be known by the token, and the parameters must have no fault.
pub proof fn law_statements_are_executed_as_prepared<P>(
    state: ProviderModel<P>,
    token: Seq<char>,
    params: Seq<ValueModel>,
    pool: P,
    statement: StatementModel,
)
    ensures
        execute_answer(state, token, params) == Ok::<(P, StatementModel), ExecErrorModel>(
            (pool, statement),
        ) <==> {
            &&& first_fault(params, json_flags(params)) is None
            &&& state.statements.contains_key(token)
            &&& state.statements[token] == statement
            &&& state.pool(statement.source_id) == Ok::<P, Seq<char>>(pool)
        },
{
}

/// A query or an execution with faulty parameters is answered with the first fault, before anything
/// else is looked at.
pub proof fn law_faults_are_answered_first<P>(
    state: ProviderModel<P>,
    source_id: Seq<char>,
    token: Seq<char>,
    params: Seq<ValueModel>,
)
    ensures
        first_fault(params, json_flags(params)) matches Some(fault) ==> {
            &&& query_answer(state, source_id, params) == Err::<P, QueryErrorModel>(
                QueryErrorModel::InvalidParams(fault),
            )
            &&& execute_answer(state, token, params) == Err::<(P, StatementModel), ExecErrorModel>(
                ExecErrorModel::QueryError(QueryErrorModel::InvalidParams(fault)),
            )
        },
{
}

/// A component that is not linked is told so, in words that name it. A blank statement is refused
/// as such, whether or not the component is linked.
pub proof fn law_unlinked_components_are_refused<P>(
    state: ProviderModel<P>,
    source_id: Seq<char>,
    params: Seq<ValueModel>,
    query: Seq<char>,
)
    ensures
        blank(query) ==> prepare_answer(state, source_id, query) == Err::<P, PrepareErrorModel>(
            PrepareErrorModel::Unexpected("Query cannot be empty"@),
        ),
        !state.connections.contains_key(source_id) ==> {
            let reason = "missing connection pool for source ["@ + source_id + "]"@;
            let refusal = QueryErrorModel::Unexpected(
                "missing connection pool for source ["@ + source_id + "] while querying: "@
                    + reason,
            );
            &&& batch_answer(state, source_id) == Err::<P, QueryErrorModel>(refusal)
            &&& first_fault(params, json_flags(params)) is None ==> query_answer(
                state,
                source_id,
                params,
            ) == Err::<P, QueryErrorModel>(refusal)
            &&& !blank(query) ==> prepare_answer(state, source_id, query) == Err::<
                P,
                PrepareErrorModel,
            >(
                PrepareErrorModel::Unexpected(
                    "failed to find connection pool for source ["@ + source_id + "]: "@ + reason,
                ),
            )
        },
{
}

/// A statement that is not known is refused in words that name its token. One whose component has
/// no pool is refused in words that name the component, the token and why there is none.
pub proof fn law_lost_statements_are_refused<P>(
    state: ProviderModel<P>,
    token: Seq<char>,
    params: Seq<ValueModel>,
)
    requires
        first_fault(params, json_flags(params)) is None,
    ensures
        !state.statements.contains_key(token) ==> execute_answer(state, token, params) == Err::<
            (P, StatementModel),
            ExecErrorModel,
        >(
            ExecErrorModel::Unexpected(
                "missing prepared statement with statement ID ["@ + token + "]"@,
            ),
        ),
        state.statements.contains_key(token) ==> {
            let source_id = state.statements[token].source_id;
            state.pool(source_id) matches Err(reason) ==> execute_answer(state, token, params)
                == Err::<(P, StatementModel), ExecErrorModel>(
                ExecErrorModel::Unexpected(
                    "missing connection pool for token ["@ + source_id + "], statement ID ["@
                        + token + "]: "@ + reason,
                ),
            )
        },
{
}

/// A token is the identifier of its statement behind the same words in every token, so different
/// identifiers make different tokens.
pub proof fn law_tokens_differ_as_identifiers_do(a: Seq<char>, b: Seq<char>)
    ensures
        token_text(a) == "prepared-statement-"@ + a,
        token_text(a) == token_text(b) ==> a == b,
{
    let n = "prepared-statement-"@.len() as int;
    assert(token_text(a).skip(n) =~= a);
    assert(token_text(b).skip(n) =~= b);
}

/// An identifier is 26 of the digits and capital letters that are hard to mistake for each other.
pub proof fn law_identifiers_have_26_digits(text: Seq<char>)
    ensures
        ulid_text(text) <==> {
            &&& text.len() == 26
            &&& forall|i: int|
                0 <= i < text.len() ==> "0123456789ABCDEFGHJKMNPQRSTVWXYZ"@.contains(
                    #[trigger] text[i],
                )
        },
{
    reveal_strlit("0123456789ABCDEFGHJKMNPQRSTVWXYZ");
    let all = "0123456789ABCDEFGHJKMNPQRSTVWXYZ"@;
    assert forall|c: char| #[trigger] all.contains(c) <==> crockford(c) by {
        assert(all[0] == '0' && all[1] == '1' && all[2] == '2' && all[3] == '3');
        assert(all[4] == '4' && all[5] == '5' && all[6] == '6' && all[7] == '7');
        assert(all[8] == '8' && all[9] == '9' && all[10] == 'A' && all[11] == 'B');
        assert(all[12] == 'C' && all[13] == 'D' && all[14] == 'E' && all[15] == 'F');
        assert(all[16] == 'G' && all[17] == 'H' && all[18] == 'J' && all[19] == 'K');
        assert(all[20] == 'M' && all[21] == 'N' && all[22] == 'P' && all[23] == 'Q');
        assert(all[24] == 'R' && all[25] == 'S' && all[26] == 'T' && all[27] == 'V');
        assert(all[28] == 'W' && all[29] == 'X' && all[30] == 'Y' && all[31] == 'Z');
    }
}

/// What is told where a request has no source, and where a pool hands out no connection, which is
/// told with the reason.
pub proof fn law_words_for_failed_requests(reason: Seq<char>)
    ensures
        missing_source_text() == "unexpectedly missing source ID"@,
        no_connection_text(reason) == "failed to get connection from pool: "@ + reason,
{
}

} // verus!
