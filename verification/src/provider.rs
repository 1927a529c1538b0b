//! The provider's state and the decisions it takes: which pool serves a component, when a pool is
//! made, and which statements have been prepared.

use vstd::prelude::*;
use crate::config::{
    conn_config, extract_prefixed_conn_config, opts_for, shared_connection_key, shared_key,
    shares_connections, to_opts, wants_shared_connection, ConnectionCreateOptions, LinkConfig,
    OptionsModel,
};
use crate::string_map::StringMap;
use crate::value::ColumnType;

verus! {

/// Type of MySQL connection - either direct or shared.
pub enum MysqlConnection<P> {
    /// Direct connection to a pool
    Direct(P),
    /// Shared connection, identified by the hash of the connection configuration
    Shared(String),
}

/// What a [`MysqlConnection`] is.
pub ghost enum ConnectionModel<P> {
    Direct(P),
    Shared(Seq<char>),
}

impl<P> View for MysqlConnection<P> {
    type V = ConnectionModel<P>;

    open spec fn view(&self) -> ConnectionModel<P> {
        match *self {
            MysqlConnection::Direct(pool) => ConnectionModel::Direct(pool),
            MysqlConnection::Shared(key) => ConnectionModel::Shared(key@),
        }
    }
}

/// Information about a given prepared statement.
pub struct PreparedStatementInfo {
    /// The query that was prepared
    pub query: String,
    /// The types that the server asks of the parameters
    pub param_types: Vec<ColumnType>,
    /// The component that prepared it
    pub source_id: String,
}

/// What is known of a prepared statement.
pub ghost struct StatementModel {
    pub query: Seq<char>,
    pub param_types: Seq<ColumnType>,
    pub source_id: Seq<char>,
}

impl View for PreparedStatementInfo {
    type V = StatementModel;

    open spec fn view(&self) -> StatementModel {
        StatementModel {
            query: self.query@,
            param_types: self.param_types@,
            source_id: self.source_id@,
        }
    }
}

/// The state of a provider: the connection of each linked component, the pools that connections
/// share, and the prepared statements by their tokens. `P` is the type of connection pools.
pub struct MysqlProvider<P> {
    /// Database connections indexed by source ID name
    connections: StringMap<MysqlConnection<P>>,
    /// Shared connection pools indexed by configuration hash
    shared_connections: StringMap<P>,
    /// Lookup of prepared statements to the statement and the source ID that prepared them
    prepared_statements: StringMap<PreparedStatementInfo>,
}

/// What a [`MysqlProvider`] holds.
#[verifier::ext_equal]
pub ghost struct ProviderModel<P> {
    pub connections: Map<Seq<char>, ConnectionModel<P>>,
    pub shared: Map<Seq<char>, P>,
    pub statements: Map<Seq<char>, StatementModel>,
}

impl<P> View for MysqlProvider<P> {
    type V = ProviderModel<P>;

    closed spec fn view(&self) -> ProviderModel<P> {
        ProviderModel {
            connections: self.connections@.map_values(|c: MysqlConnection<P>| c@),
            shared: self.shared_connections@,
            statements: self.prepared_statements@.map_values(|s: PreparedStatementInfo| s@),
        }
    }
}

/// What is reported when a component is not linked.
pub open spec fn missing_pool_text(source_id: Seq<char>) -> Seq<char> {
    "missing connection pool for source ["@ + source_id + "]"@
}

/// What is reported when a shared pool is gone.
pub open spec fn missing_shared_text(key: Seq<char>) -> Seq<char> {
    "no shared connection found with key ["@ + key + "]"@
}

impl<P> ProviderModel<P> {
    /// The state of a provider that nothing has happened to.
    pub open spec fn initial() -> Self {
        ProviderModel { connections: Map::empty(), shared: Map::empty(), statements: Map::empty() }
    }

    /// Whether every connection that is shared leads to a pool.
    pub open spec fn wf(self) -> bool {
        forall|source_id: Seq<char>| #[trigger]
            self.connections.contains_key(source_id) ==> (
            self.connections[source_id] matches ConnectionModel::Shared(key)
                ==> self.shared.contains_key(key))
    }

    /// The pool that serves a component, or why there is none.
    pub open spec fn pool(self, source_id: Seq<char>) -> Result<P, Seq<char>> {
        if !self.connections.contains_key(source_id) {
            Err(missing_pool_text(source_id))
        } else {
            match self.connections[source_id] {
                ConnectionModel::Direct(pool) => Ok(pool),
                ConnectionModel::Shared(key) => if self.shared.contains_key(key) {
                    Ok(self.shared[key])
                } else {
                    Err(missing_shared_text(key))
                },
            }
        }
    }

    /// Whether linking a component takes a new pool: it has no connection yet, and there is none
    /// to share.
    pub open spec fn needs_pool(
        self,
        source_id: Seq<char>,
        options: OptionsModel,
        share: bool,
    ) -> bool {
        &&& !(share && self.shared.contains_key(shared_key(options)))
        &&& !self.connections.contains_key(source_id)
    }

    /// The state once a component is linked. `pool` is the new pool, where one is needed.
    pub open spec fn linked(
        self,
        source_id: Seq<char>,
        options: OptionsModel,
        share: bool,
        pool: P,
    ) -> Self {
        let key = shared_key(options);
        if share && self.shared.contains_key(key) {
            ProviderModel {
                connections: self.connections.insert(source_id, ConnectionModel::Shared(key)),
                ..self
            }
        } else if self.connections.contains_key(source_id) {
            self
        } else if share {
            ProviderModel {
                connections: self.connections.insert(source_id, ConnectionModel::Shared(key)),
                shared: self.shared.insert(key, pool),
                ..self
            }
        } else {
            ProviderModel {
                connections: self.connections.insert(source_id, ConnectionModel::Direct(pool)),
                ..self
            }
        }
    }

    /// The state once a statement is prepared and known by `token`.
    pub open spec fn prepared(self, token: Seq<char>, statement: StatementModel) -> Self {
        ProviderModel { statements: self.statements.insert(token, statement), ..self }
    }

    /// The state once a component is no longer linked: its connection and its statements are gone.
    pub open spec fn unlinked(self, source_id: Seq<char>) -> Self {
        ProviderModel {
            connections: self.connections.remove(source_id),
            statements: Map::new(
                |token: Seq<char>|
                    self.statements.contains_key(token) && self.statements[token].source_id
                        != source_id,
                |token: Seq<char>| self.statements[token],
            ),
            ..self
        }
    }

    /// The state once the provider is shut down: no connections, shared or not, and no statements.
    pub open spec fn stopped(self) -> Self {
        ProviderModel { connections: Map::empty(), shared: Map::empty(), statements: Map::empty() }
    }
}

/// A pool that may be missing, with the reason taken as a sequence of characters.
pub open spec fn pool_result<P>(r: Result<&P, String>) -> Result<P, Seq<char>> {
    match r {
        Ok(pool) => Ok(*pool),
        Err(text) => Err(text@),
    }
}

impl<P> Default for MysqlProvider<P> {
    /// A provider that nothing is linked to.
    fn default() -> (provider: Self)
        ensures
            provider@ == ProviderModel::<P>::initial(),
    {
        MysqlProvider::new()
    }
}

impl<P> MysqlProvider<P> {
    /// The name under which the provider runs.
    pub fn name() -> (r: &'static str)
        ensures
            r@ == "sqldb-mysql-provider"@,
    {
        "sqldb-mysql-provider"
    }

    /// A provider that nothing is linked to.
    pub fn new() -> (provider: Self)
        ensures
            provider@ == ProviderModel::<P>::initial(),
    {
        let provider = MysqlProvider {
            connections: StringMap::new(),
            shared_connections: StringMap::new(),
            prepared_statements: StringMap::new(),
        };
        assert(provider@ =~= ProviderModel::<P>::initial());
        provider
    }

    /// Get a pool for the given source_id, resolving shared connections if necessary.
    pub fn get_pool(&self, source_id: &str) -> (r: Result<&P, String>)
        ensures
            pool_result(r) == self@.pool(source_id@),
    {
        match self.connections.get(source_id) {
            Some(connection) => match connection {
                MysqlConnection::Direct(pool) => Ok(pool),
                MysqlConnection::Shared(key) => match self.shared_connections.get(key.as_str()) {
                    Some(pool) => Ok(pool),
                    None => {
                        let mut text: String = "no shared connection found with key [".to_owned();
                        text.append(key.as_str());
                        text.append("]");
                        Err(text)
                    },
                },
            },
            None => {
                let mut text: String = "missing connection pool for source [".to_owned();
                text.append(source_id);
                text.append("]");
                Err(text)
            },
        }
    }

    /// Create and store a connection pool, if not already present. `make_pool` makes a pool from
    /// the driver's options, and is called only where a new pool is needed.
    pub fn ensure_pool<F: FnOnce(mysql_async::Opts) -> P>(
        &mut self,
        source_id: &str,
        create_opts: ConnectionCreateOptions,
        share_connections: bool,
        make_pool: F,
    )
        requires
            old(self)@.needs_pool(source_id@, create_opts@, share_connections) ==> forall|
                opts: mysql_async::Opts,
            | #[trigger]
                call_requires(make_pool, (opts,)),
        ensures
            exists|pool: P|
                {
                    &&& #[trigger] old(self)@.linked(
                        source_id@,
                        create_opts@,
                        share_connections,
                        pool,
                    ) == final(self)@
                    &&& old(self)@.needs_pool(source_id@, create_opts@, share_connections)
                        ==> call_ensures(make_pool, (opts_for(create_opts@),), pool)
                },
    {
        let ghost options = create_opts@;
        let ghost before = self@;
        let key: String = shared_connection_key(&create_opts);
        // If sharing is enabled, check if we already have a shared connection for this configuration
        if share_connections && self.shared_connections.contains_key(key.as_str()) {
            self.connections.insert(source_id.to_owned(), MysqlConnection::Shared(key));
            proof {
                let pool: P = arbitrary();
                assert(self@ =~= before.linked(source_id@, options, share_connections, pool));
            }
            return ;
        }
        // Exit early if a pool with the given source ID is already present
        if self.connections.contains_key(source_id) {
            proof {
                let pool: P = arbitrary();
                assert(self@ =~= before.linked(source_id@, options, share_connections, pool));
            }
            return ;
        }
        // Build the new connection pool
        let pool: P = make_pool(to_opts(create_opts));
        if share_connections {
            self.shared_connections.insert(key.clone(), pool);
            self.connections.insert(source_id.to_owned(), MysqlConnection::Shared(key));
        } else {
            self.connections.insert(source_id.to_owned(), MysqlConnection::Direct(pool));
        }
        assert(self@ =~= before.linked(source_id@, options, share_connections, pool));
    }

    /// Handle being linked to a source (likely a component) as a target. Says whether the link
    /// holds a connection configuration, and does nothing if it does not.
    ///
    /// Components are expected to provide references to named configuration via link definitions
    /// which contain keys named `MYSQL_*` detailing configuration for connecting to MySQL.
    pub fn receive_link_config_as_target<F: FnOnce(mysql_async::Opts) -> P>(
        &mut self,
        link_config: &LinkConfig,
        make_pool: F,
    ) -> (configured: bool)
        requires
            conn_config("MYSQL_"@, *link_config) is Some && old(self)@.needs_pool(
                link_config.source_id@,
                conn_config("MYSQL_"@, *link_config)->0,
                shares_connections(*link_config),
            ) ==> forall|opts: mysql_async::Opts| #[trigger] call_requires(make_pool, (opts,)),
        ensures
            match conn_config("MYSQL_"@, *link_config) {
                None => !configured && final(self)@ == old(self)@,
                Some(options) => configured && exists|pool: P|
                    {
                        &&& #[trigger] old(self)@.linked(
                            link_config.source_id@,
                            options,
                            shares_connections(*link_config),
                            pool,
                        ) == final(self)@
                        &&& old(self)@.needs_pool(
                            link_config.source_id@,
                            options,
                            shares_connections(*link_config),
                        ) ==> call_ensures(make_pool, (opts_for(options),), pool)
                    },
            },
    {
        match extract_prefixed_conn_config("MYSQL_", link_config) {
            Some(db_cfg) => {
                let share_connections: bool = wants_shared_connection(link_config);
                self.ensure_pool(
                    link_config.source_id.as_str(),
                    db_cfg,
                    share_connections,
                    make_pool,
                );
                true
            },
            None => false,
        }
    }

    /// Handle notification that a link is dropped: release what is held for the source.
    pub fn delete_link_as_target(&mut self, source_id: &str)
        ensures
            final(self)@ == old(self)@.unlinked(source_id@),
    {
        let ghost before = self@;
        let source: String = source_id.to_owned();
        let of_others = |info: &PreparedStatementInfo| -> (keep: bool)
            ensures
                keep == (info.source_id@ != source@),
        {
            !(info.source_id == source)
        };
        self.prepared_statements.retain(of_others);
        self.connections.remove(source_id);
        proof {
            let after = before.unlinked(source_id@);
            assert(self@.connections =~= after.connections);
            assert(self@.statements =~= after.statements);
        }
    }

    /// Handle shutdown request by closing all connections: nothing that is shared, linked or
    /// prepared is kept.
    pub fn shutdown(&mut self)
        ensures
            final(self)@ == old(self)@.stopped(),
    {
        self.prepared_statements.clear();
        self.connections.clear();
        self.shared_connections.clear();
        assert(self@ =~= old(self)@.stopped());
    }

    /// The statement that is known by `token`, if there is one.
    pub fn get_statement(&self, token: &str) -> (r: Option<&PreparedStatementInfo>)
        ensures
            match r {
                Some(info) => self@.statements.contains_key(token@) && self@.statements[token@]
                    == info@,
                None => !self@.statements.contains_key(token@),
            },
    {
        self.prepared_statements.get(token)
    }

    /// Makes a statement known by `token`.
    pub fn insert_statement(&mut self, token: String, info: PreparedStatementInfo)
        ensures
            final(self)@ == old(self)@.prepared(token@, info@),
    {
        let ghost before = self@;
        self.prepared_statements.insert(token, info);
        assert(self@ =~= before.prepared(token@, info@));
    }
}

/// What is known of a prepared statement is its query, the types of its parameters and its
/// component, each in its place.
pub proof fn law_statement_is_known_as_it_is(info: PreparedStatementInfo)
    ensures
        info@.query == info.query@,
        info@.param_types == info.param_types@,
        info@.source_id == info.source_id@,
{
}

/// A component that is not linked has no pool, one with a pool of its own has that, and one with a
/// shared connection has the pool under its key. Without the pool itself the reason for that is
/// told, and names the component or the key.
pub proof fn law_pool_is_found_by_connection<P>(
    state: ProviderModel<P>,
    source_id: Seq<char>,
    r: Result<&P, String>,
)
    requires
        pool_result(r) == state.pool(source_id),
    ensures
        !state.connections.contains_key(source_id) ==> (r matches Err(text) && text@
            == "missing connection pool for source ["@ + source_id + "]"@),
        state.connections.contains_key(source_id) ==> match state.connections[source_id] {
            ConnectionModel::Direct(pool) => r matches Ok(p) && *p == pool,
            ConnectionModel::Shared(key) => match r {
                Ok(p) => state.shared.contains_key(key) && *p == state.shared[key],
                Err(text) => !state.shared.contains_key(key) && text@
                    == "no shared connection found with key ["@ + key + "]"@,
            },
        },
{
}

} // verus!
