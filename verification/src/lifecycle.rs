//! What holds of a provider over the lives of its links and statements.

use vstd::prelude::*;
use vstd::utf8::encode_utf8;
use crate::config::{
    connection_text, law_shared_keys_tell_options_apart, separable, sha256, shared_key,
    OptionsModel,
};
use crate::error::{ExecErrorModel, QueryErrorModel};
use crate::provider::{missing_pool_text, ProviderModel, StatementModel};
use crate::request::{execute_answer, missing_statement_text, params_fault, query_answer};
use crate::value::ValueModel;

verus! {

/// In every state that a provider can come to, a shared connection leads to a pool: it is so at
/// the start, and whatever happens keeps it so.
pub proof fn law_shared_connections_lead_to_pools<P>(
    state: ProviderModel<P>,
    source_id: Seq<char>,
    options: OptionsModel,
    share: bool,
    pool: P,
    token: Seq<char>,
    statement: StatementModel,
)
    ensures
        ProviderModel::<P>::initial().wf(),
        state.wf() ==> state.linked(source_id, options, share, pool).wf(),
        state.wf() ==> state.unlinked(source_id).wf(),
        state.wf() ==> state.prepared(token, statement).wf(),
        state.wf() ==> state.stopped().wf(),
{
}

/// In a well-formed state the only reason for having no pool is not being linked.
pub proof fn law_only_unlinked_components_lack_pools<P>(
    state: ProviderModel<P>,
    source_id: Seq<char>,
)
    requires
        state.wf(),
    ensures
        state.pool(source_id) is Ok <==> state.connections.contains_key(source_id),
        state.pool(source_id) matches Err(reason) ==> reason == missing_pool_text(source_id),
{
}

/// A component that has been linked has a pool: the new one, where one was needed.
pub proof fn law_linked_component_has_pool<P>(
    state: ProviderModel<P>,
    source_id: Seq<char>,
    options: OptionsModel,
    share: bool,
    pool: P,
)
    requires
        state.wf(),
    ensures
        state.linked(source_id, options, share, pool).pool(source_id) is Ok,
        state.needs_pool(source_id, options, share) ==> state.linked(
            source_id,
            options,
            share,
            pool,
        ).pool(source_id) == Ok::<P, Seq<char>>(pool),
{
    if share && state.shared.contains_key(shared_key(options)) {
    } else if state.connections.contains_key(source_id) {
        law_only_unlinked_components_lack_pools(state, source_id);
    }
}

/// Linking a component a second time with the same settings changes nothing.
pub proof fn law_linking_again_changes_nothing<P>(
    state: ProviderModel<P>,
    source_id: Seq<char>,
    options: OptionsModel,
    share: bool,
    pool: P,
    other_pool: P,
)
    ensures
        !state.linked(source_id, options, share, pool).needs_pool(source_id, options, share),
        state.linked(source_id, options, share, pool).linked(source_id, options, share, other_pool)
            == state.linked(source_id, options, share, pool),
{
    let once = state.linked(source_id, options, share, pool);
    let twice = once.linked(source_id, options, share, other_pool);
    assert(twice.connections =~= once.connections);
    assert(twice.shared =~= once.shared);
}

/// Linking a component leaves the pools of the others, and all statements, as they were.
pub proof fn law_linking_leaves_others_alone<P>(
    state: ProviderModel<P>,
    source_id: Seq<char>,
    options: OptionsModel,
    share: bool,
    pool: P,
    other: Seq<char>,
)
    requires
        state.wf(),
        other != source_id,
    ensures
        state.linked(source_id, options, share, pool).pool(other) == state.pool(other),
        state.linked(source_id, options, share, pool).statements == state.statements,
{
}

/// Components that are linked with the same settings and share connections are served by one
/// pool: linking the second makes no new one. The first must get the shared connection: a
/// component that already has a connection of its own keeps it.
pub proof fn law_equal_settings_share_a_pool<P>(
    state: ProviderModel<P>,
    first: Seq<char>,
    second: Seq<char>,
    options: OptionsModel,
    pool: P,
    other_pool: P,
)
    requires
        state.shared.contains_key(shared_key(options)) || !state.connections.contains_key(first),
    ensures
        ({
            let one = state.linked(first, options, true, pool);
            let both = one.linked(second, options, true, other_pool);
            &&& !one.needs_pool(second, options, true)
            &&& both.pool(first) is Ok
            &&& both.pool(second) == both.pool(first)
            &&& both.pool(first) == one.pool(first)
        }),
{
}

/// A component that is linked without sharing, and has no connection yet, gets a pool of its own.
pub proof fn law_unshared_link_gets_own_pool<P>(
    state: ProviderModel<P>,
    source_id: Seq<char>,
    options: OptionsModel,
    pool: P,
)
    requires
        !state.connections.contains_key(source_id),
    ensures
        state.needs_pool(source_id, options, false),
        state.linked(source_id, options, false, pool).pool(source_id) == Ok::<P, Seq<char>>(pool),
        state.linked(source_id, options, false, pool).shared == state.shared,
{
}

/// A component whose link is dropped has no pool and no statements any more.
pub proof fn law_unlinked_component_holds_nothing<P>(
    state: ProviderModel<P>,
    source_id: Seq<char>,
    token: Seq<char>,
)
    ensures
        state.unlinked(source_id).pool(source_id) == Err::<P, Seq<char>>(
            missing_pool_text(source_id),
        ),
        state.unlinked(source_id).statements.contains_key(token) ==> state.unlinked(
            source_id,
        ).statements[token].source_id != source_id,
{
}

/// Dropping a link leaves the pools and the statements of the other components as they were.
pub proof fn law_unlinking_leaves_others_alone<P>(
    state: ProviderModel<P>,
    source_id: Seq<char>,
    other: Seq<char>,
    token: Seq<char>,
)
    requires
        other != source_id,
    ensures
        state.unlinked(source_id).pool(other) == state.pool(other),
        state.statements.contains_key(token) && state.statements[token].source_id == other ==> {
            &&& state.unlinked(source_id).statements.contains_key(token)
            &&& state.unlinked(source_id).statements[token] == state.statements[token]
        },
{
}

/// A shared pool outlives the links to it: a component that is linked again is served by the pool
/// that served it before.
pub proof fn law_shared_pool_outlives_links<P>(
    state: ProviderModel<P>,
    source_id: Seq<char>,
    options: OptionsModel,
    pool: P,
    other_pool: P,
)
    requires
        state.shared.contains_key(shared_key(options)) || !state.connections.contains_key(
            source_id,
        ),
    ensures
        ({
            let linked = state.linked(source_id, options, true, pool);
            let dropped = linked.unlinked(source_id);
            &&& !dropped.needs_pool(source_id, options, true)
            &&& dropped.linked(source_id, options, true, other_pool).pool(source_id)
                == linked.pool(source_id)
        }),
{
}

/// After a shutdown no component has a pool, no statement is known and no pool is shared: the
/// provider is as it was at the start.
pub proof fn law_nothing_is_served_after_shutdown<P>(
    state: ProviderModel<P>,
    source_id: Seq<char>,
    token: Seq<char>,
)
    ensures
        state.stopped().pool(source_id) == Err::<P, Seq<char>>(missing_pool_text(source_id)),
        !state.stopped().statements.contains_key(token),
        state.stopped() == ProviderModel::<P>::initial(),
{
}

/// A statement that has been prepared can be executed under its token for as long as its
/// component is linked, with parameters that have no fault; what is executed is the query that was
/// prepared. Other tokens mean what they meant before.
pub proof fn law_prepared_statement_can_be_executed<P>(
    state: ProviderModel<P>,
    token: Seq<char>,
    statement: StatementModel,
    params: Seq<ValueModel>,
    other: Seq<char>,
)
    ensures
        params_fault(params) is None && state.pool(statement.source_id) is Ok ==> execute_answer(
            state.prepared(token, statement),
            token,
            params,
        ) == Ok::<(P, StatementModel), ExecErrorModel>(
            (state.pool(statement.source_id)->Ok_0, statement),
        ),
        other != token ==> execute_answer(state.prepared(token, statement), other, params)
            == execute_answer(state, other, params),
{
}

/// A statement of a component whose link is dropped is not known any more.
pub proof fn law_statements_end_with_their_link<P>(
    state: ProviderModel<P>,
    token: Seq<char>,
    params: Seq<ValueModel>,
)
    requires
        state.statements.contains_key(token),
        params_fault(params) is None,
    ensures
        execute_answer(state.unlinked(state.statements[token].source_id), token, params) == Err::<
            (P, StatementModel),
            ExecErrorModel,
        >(ExecErrorModel::Unexpected(missing_statement_text(token))),
{
}

/// Faulty parameters are refused in the same words in every state, whoever sends them and whether
/// or not the pool or the statement is there.
pub proof fn law_faulty_params_are_always_refused<P>(
    state: ProviderModel<P>,
    source_id: Seq<char>,
    token: Seq<char>,
    params: Seq<ValueModel>,
)
    requires
        params_fault(params) is Some,
    ensures
        query_answer(state, source_id, params) == Err::<P, QueryErrorModel>(
            QueryErrorModel::InvalidParams(params_fault(params)->0),
        ),
        execute_answer(state, token, params) == Err::<(P, StatementModel), ExecErrorModel>(
            ExecErrorModel::QueryError(QueryErrorModel::InvalidParams(params_fault(params)->0)),
        ),
{
}

/// Components that share connections but are linked with different settings are served by different
/// pools, as long as the digests of their connection strings differ: the second gets the pool that
/// is made for it, and the first keeps the one that it has.
pub proof fn law_different_settings_do_not_share<P>(
    state: ProviderModel<P>,
    first: Seq<char>,
    second: Seq<char>,
    first_options: OptionsModel,
    second_options: OptionsModel,
    pool: P,
    other_pool: P,
)
    requires
        state.wf(),
        separable(first_options),
        separable(second_options),
        first_options != second_options,
        sha256(encode_utf8(connection_text(first_options))) != sha256(
            encode_utf8(connection_text(second_options)),
        ),
        first != second,
        state.pool(second) is Err,
        !state.shared.contains_key(shared_key(second_options)),
    ensures
        ({
            let one = state.linked(first, first_options, true, pool);
            let both = one.linked(second, second_options, true, other_pool);
            &&& one.needs_pool(second, second_options, true)
            &&& both.pool(second) == Ok::<P, Seq<char>>(other_pool)
            &&& both.pool(first) == one.pool(first)
        }),
{
    law_shared_keys_tell_options_apart(first_options, second_options);
    law_shared_connections_lead_to_pools(
        state,
        first,
        first_options,
        true,
        pool,
        first,
        arbitrary(),
    );
}

/// A component that has a connection keeps it, and no pool is made, unless it is linked to share a
/// connection that there is: then it is moved to the pool of that.
pub proof fn law_connected_component_moves_only_to_shared_pool<P>(
    state: ProviderModel<P>,
    source_id: Seq<char>,
    options: OptionsModel,
    share: bool,
    pool: P,
)
    requires
        state.connections.contains_key(source_id),
    ensures
        !state.needs_pool(source_id, options, share),
        state.linked(source_id, options, share, pool).shared == state.shared,
        share && state.shared.contains_key(shared_key(options)) ==> state.linked(
            source_id,
            options,
            share,
            pool,
        ).pool(source_id) == Ok::<P, Seq<char>>(state.shared[shared_key(options)]),
        !share || !state.shared.contains_key(shared_key(options)) ==> state.linked(
            source_id,
            options,
            share,
            pool,
        ) == state,
{
}

/// A component without a connection needs a new pool unless it is linked to share one that there
/// is. A pool that is made to be shared is shared under the key of its options, and no other shared
/// pool changes.
pub proof fn law_new_pool_is_kept_under_its_key<P>(
    state: ProviderModel<P>,
    source_id: Seq<char>,
    options: OptionsModel,
    share: bool,
    pool: P,
)
    requires
        !state.connections.contains_key(source_id),
    ensures
        state.needs_pool(source_id, options, share) <==> !(share && state.shared.contains_key(
            shared_key(options),
        )),
        state.linked(source_id, options, share, pool).shared == (if share
            && !state.shared.contains_key(shared_key(options)) {
            state.shared.insert(shared_key(options), pool)
        } else {
            state.shared
        }),
        share && state.shared.contains_key(shared_key(options)) ==> state.linked(
            source_id,
            options,
            share,
            pool,
        ).pool(source_id) == Ok::<P, Seq<char>>(state.shared[shared_key(options)]),
{
}

/// Preparing a statement makes it known by its token, and leaves the other statements and all pools
/// as they were.
pub proof fn law_preparing_adds_one_statement<P>(
    state: ProviderModel<P>,
    token: Seq<char>,
    statement: StatementModel,
    other: Seq<char>,
    source_id: Seq<char>,
)
    ensures
        state.prepared(token, statement).statements.contains_key(token),
        state.prepared(token, statement).statements[token] == statement,
        other != token ==> {
            &&& state.prepared(token, statement).statements.contains_key(other)
                <==> state.statements.contains_key(other)
            &&& state.prepared(token, statement).statements[other] == state.statements[other]
        },
        state.prepared(token, statement).pool(source_id) == state.pool(source_id),
        state.prepared(token, statement).shared == state.shared,
        state.prepared(token, statement).connections == state.connections,
{
}

/// Dropping a link makes no statement known that was not, changes none, and keeps the shared pools.
pub proof fn law_unlinking_adds_nothing<P>(
    state: ProviderModel<P>,
    source_id: Seq<char>,
    token: Seq<char>,
    other: Seq<char>,
)
    ensures
        state.unlinked(source_id).statements.contains_key(token) ==> {
            &&& state.statements.contains_key(token)
            &&& state.unlinked(source_id).statements[token] == state.statements[token]
        },
        state.unlinked(source_id).connections.contains_key(other) <==> {
            other != source_id && state.connections.contains_key(other)
        },
        state.unlinked(source_id).shared == state.shared,
{
}

} // verus!
