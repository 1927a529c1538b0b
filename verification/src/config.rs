//! The settings of a link, and the connections that they ask for.

use vstd::prelude::*;
use vstd::utf8::{encode_utf8, encode_utf8_decode_utf8};
use crate::string_map::StringMap;
use crate::text::{
    affirmative, decimal, is_affirmative, law_written_number_reads_back, lemma_decimal_digits,
    parse_unsigned, push_decimal, unsigned, utf8_bytes,
};

verus! {

/// The port that a MySQL server listens on unless told otherwise.
pub const MYSQL_DEFAULT_PORT: u16 = 3306;

/// A secret that was handed over with a link.
#[derive(Debug, PartialEq, Eq)]
pub enum SecretValue {
    Text(String),
    Bytes(Vec<u8>),
}

impl SecretValue {
    /// The text of a secret, if it is text.
    pub open spec fn text(self) -> Option<Seq<char>> {
        match self {
            SecretValue::Text(s) => Some(s@),
            SecretValue::Bytes(_) => None,
        }
    }

    /// The text of a secret, if it is text.
    pub fn as_string(&self) -> (r: Option<&str>)
        ensures
            optional_text(r) == self.text(),
    {
        match self {
            SecretValue::Text(s) => Some(s.as_str()),
            SecretValue::Bytes(_) => None,
        }
    }
}

/// A text that may be missing, taken as a sequence of characters.
pub open spec fn optional_text(text: Option<&str>) -> Option<Seq<char>> {
    match text {
        Some(s) => Some(s@),
        None => None,
    }
}

/// What is known of a link from a component to the provider.
pub struct LinkConfig {
    /// The component that is linked.
    pub source_id: String,
    /// Named settings.
    pub config: StringMap<String>,
    /// Named settings that are kept secret.
    pub secrets: StringMap<SecretValue>,
}

impl LinkConfig {
    /// The text of a setting. Secrets are preferred; a secret that is no text does not count.
    pub open spec fn setting(&self, key: Seq<char>) -> Option<Seq<char>> {
        if self.secrets@.contains_key(key) && self.secrets@[key].text() is Some {
            self.secrets@[key].text()
        } else if self.config@.contains_key(key) {
            Some(self.config@[key]@)
        } else {
            None
        }
    }

    /// The text of a setting. Secrets are preferred; a secret that is no text does not count.
    pub fn get_setting(&self, key: &str) -> (r: Option<&str>)
        ensures
            optional_text(r) == self.setting(key@),
    {
        if let Some(secret) = self.secrets.get(key) {
            if let Some(text) = secret.as_string() {
                return Some(text);
            }
        }
        match self.config.get(key) {
            Some(text) => Some(text.as_str()),
            None => None,
        }
    }
}

/// Creation options for a MySQL connection.
#[derive(Debug, PartialEq, Eq)]
pub struct ConnectionCreateOptions {
    /// Hostname of the MySQL server to connect to
    pub host: String,
    /// Port on which to connect to the MySQL server
    pub port: u16,
    /// Username used when accessing the MySQL server
    pub username: String,
    /// Password used when accessing the MySQL server
    pub password: String,
    /// Database to connect to
    pub database: String,
    /// Whether TLS is required for the connection
    pub tls_required: bool,
    /// Optional connection pool size
    pub pool_size: Option<usize>,
}

/// What [`ConnectionCreateOptions`] say.
pub ghost struct OptionsModel {
    pub host: Seq<char>,
    pub port: u16,
    pub username: Seq<char>,
    pub password: Seq<char>,
    pub database: Seq<char>,
    pub tls_required: bool,
    pub pool_size: Option<usize>,
}

impl View for ConnectionCreateOptions {
    type V = OptionsModel;

    open spec fn view(&self) -> OptionsModel {
        OptionsModel {
            host: self.host@,
            port: self.port,
            username: self.username@,
            password: self.password@,
            database: self.database@,
            tls_required: self.tls_required,
            pool_size: self.pool_size,
        }
    }
}

/// The port that a setting asks for. What is no port number asks for the default port.
pub open spec fn port_of(text: Seq<char>) -> u16 {
    match unsigned(text, u16::MAX as nat) {
        Some(n) => n as u16,
        None => MYSQL_DEFAULT_PORT,
    }
}

/// The pool size that a setting asks for. What is no number asks for none.
pub open spec fn pool_size_of(text: Option<Seq<char>>) -> Option<usize> {
    match text {
        Some(text) => match unsigned(text, usize::MAX as nat) {
            Some(n) => Some(n as usize),
            None => None,
        },
        None => None,
    }
}

/// The connection that the settings of a link with names starting in `prefix` ask for. All but
/// the TLS and the pool size setting must be there.
pub open spec fn conn_config(prefix: Seq<char>, link: LinkConfig) -> Option<OptionsModel> {
    match (
        link.setting(prefix + "HOST"@),
        link.setting(prefix + "PORT"@),
        link.setting(prefix + "USERNAME"@),
        link.setting(prefix + "PASSWORD"@),
        link.setting(prefix + "DATABASE"@),
    ) {
        (Some(host), Some(port), Some(username), Some(password), Some(database)) => Some(
            OptionsModel {
                host,
                port: port_of(port),
                username,
                password,
                database,
                tls_required: link.setting(prefix + "TLS_REQUIRED"@) is Some && affirmative(
                    link.setting(prefix + "TLS_REQUIRED"@)->0,
                ),
                pool_size: pool_size_of(link.setting(prefix + "POOL_SIZE"@)),
            },
        ),
        _ => None,
    }
}

/// The setting of a link named `prefix` followed by `name`.
fn prefixed_setting<'a>(prefix: &str, name: &str, link_config: &'a LinkConfig) -> (r: Option<
    &'a str,
>)
    ensures
        optional_text(r) == link_config.setting(prefix@ + name@),
{
    let mut key: String = prefix.to_owned();
    key.append(name);
    link_config.get_setting(key.as_str())
}

/// Options that may be missing, taken by what they say.
pub open spec fn optional_options(options: Option<ConnectionCreateOptions>) -> Option<
    OptionsModel,
> {
    match options {
        Some(o) => Some(o@),
        None => None,
    }
}

/// Parse the options for MySQL configuration from a link, with a given prefix to the keys.
///
/// For example given a prefix like `EXAMPLE_`, and a link that contains an entry like
/// ("EXAMPLE_HOST", "localhost"), the parsed [`ConnectionCreateOptions`] would contain
/// "localhost" as the host.
pub fn extract_prefixed_conn_config(prefix: &str, link_config: &LinkConfig) -> (r: Option<
    ConnectionCreateOptions,
>)
    ensures
        optional_options(r) == conn_config(prefix@, *link_config),
{
    let host = prefixed_setting(prefix, "HOST", link_config);
    let port = prefixed_setting(prefix, "PORT", link_config);
    let username = prefixed_setting(prefix, "USERNAME", link_config);
    let password = prefixed_setting(prefix, "PASSWORD", link_config);
    let database = prefixed_setting(prefix, "DATABASE", link_config);
    let tls_required = prefixed_setting(prefix, "TLS_REQUIRED", link_config);
    let pool_size = prefixed_setting(prefix, "POOL_SIZE", link_config);

    match (host, port, username, password, database) {
        (Some(host), Some(port), Some(username), Some(password), Some(database)) => {
            let port: u16 = match parse_unsigned(port, u16::MAX as u64) {
                Some(n) => n as u16,
                None => MYSQL_DEFAULT_PORT,
            };
            let tls_required: bool = match tls_required {
                Some(text) => is_affirmative(text),
                None => false,
            };
            let pool_size: Option<usize> = match pool_size {
                Some(text) => match parse_unsigned(text, usize::MAX as u64) {
                    Some(n) => Some(n as usize),
                    None => None,
                },
                None => None,
            };
            Some(
                ConnectionCreateOptions {
                    host: host.to_owned(),
                    port,
                    username: username.to_owned(),
                    password: password.to_owned(),
                    database: database.to_owned(),
                    tls_required,
                    pool_size,
                },
            )
        },
        _ => None,
    }
}

/// The setting that says whether connections with equal settings are shared.
pub const CONFIG_SHARE_CONNECTIONS_BY_URL_KEY: &'static str = "MYSQL_SHARE_CONNECTIONS_BY_URL";

/// Whether a link asks for its connection to be shared. Here plain settings are preferred to
/// secrets.
pub open spec fn shares_connections(link: LinkConfig) -> bool {
    let key = CONFIG_SHARE_CONNECTIONS_BY_URL_KEY@;
    if link.config@.contains_key(key) {
        affirmative(link.config@[key]@)
    } else {
        link.secrets@.contains_key(key) && link.secrets@[key].text() is Some && affirmative(
            link.secrets@[key].text()->0,
        )
    }
}

/// Whether a link asks for its connection to be shared.
pub fn wants_shared_connection(link_config: &LinkConfig) -> (r: bool)
    ensures
        r == shares_connections(*link_config),
{
    if let Some(value) = link_config.config.get(CONFIG_SHARE_CONNECTIONS_BY_URL_KEY) {
        is_affirmative(value.as_str())
    } else if let Some(secret) = link_config.secrets.get(CONFIG_SHARE_CONNECTIONS_BY_URL_KEY) {
        match secret.as_string() {
            Some(value) => is_affirmative(value),
            None => false,
        }
    } else {
        false
    }
}

/// How a pool size is written in a connection string.
pub open spec fn pool_size_text(pool_size: Option<usize>) -> Seq<char> {
    match pool_size {
        Some(n) => "Some("@ + decimal(n as nat) + ")"@,
        None => "None"@,
    }
}

/// The connection string of connection options, as it is hashed.
pub open spec fn connection_text(options: OptionsModel) -> Seq<char> {
    "mysql://"@ + options.username + ":"@ + options.password + "@"@ + options.host + ":"@ + decimal(
        options.port as nat,
    ) + "/"@ + options.database + "?tls_required="@ + (if options.tls_required {
        "true"@
    } else {
        "false"@
    }) + "&pool_size="@ + pool_size_text(options.pool_size)
}

/// Generate a connection string from ConnectionCreateOptions for hashing.
pub fn connection_string_for_hashing(opts: &ConnectionCreateOptions) -> (r: String)
    ensures
        r@ == connection_text(opts@),
{
    let mut text: String = "mysql://".to_owned();
    text.append(opts.username.as_str());
    text.append(":");
    text.append(opts.password.as_str());
    text.append("@");
    text.append(opts.host.as_str());
    text.append(":");
    push_decimal(&mut text, opts.port as usize);
    text.append("/");
    text.append(opts.database.as_str());
    text.append("?tls_required=");
    text.append(if opts.tls_required { "true" } else { "false" });
    text.append("&pool_size=");
    let ghost before = text@;
    match opts.pool_size {
        Some(n) => {
            text.append("Some(");
            push_decimal(&mut text, n);
            text.append(")");
            assert(text@ =~= before + pool_size_text(opts.pool_size));
        },
        None => text.append("None"),
    }
    text
}

/// Texts that end at the first `c` of a longer text are the same where the longer texts are, and
/// so is what follows.
proof fn lemma_split_at(a: Seq<char>, b: Seq<char>, x: Seq<char>, y: Seq<char>, c: char)
    requires
        !a.contains(c),
        !b.contains(c),
        a.push(c) + x == b.push(c) + y,
    ensures
        a == b,
        x == y,
{
    let left = a.push(c) + x;
    let right = b.push(c) + y;
    assert(left[a.len() as int] == c);
    assert(right[b.len() as int] == c);
    if a.len() < b.len() {
        assert(b[a.len() as int] == c);
    } else if b.len() < a.len() {
        assert(a[b.len() as int] == c);
    }
    assert forall|i: int| 0 <= i < a.len() implies a[i] == b[i] by {
        assert(left[i] == a[i] && right[i] == b[i]);
    }
    assert(a =~= b);
    lemma_after_prefix(a.push(c), x, y);
}

/// What follows the same text is the same where the whole is.
proof fn lemma_after_prefix(prefix: Seq<char>, x: Seq<char>, y: Seq<char>)
    requires
        prefix + x == prefix + y,
    ensures
        x == y,
{
    assert((prefix + x).skip(prefix.len() as int) =~= x);
    assert((prefix + y).skip(prefix.len() as int) =~= y);
}

/// Numbers in base ten hold digits only, and differ where the numbers do.
proof fn lemma_decimal_distinct(m: nat, n: nat)
    ensures
        forall|c: char| #[trigger] decimal(n).contains(c) ==> '0' <= c <= '9',
        decimal(m) == decimal(n) ==> m == n,
{
    lemma_decimal_digits(n);
    law_written_number_reads_back(m, m + n);
    law_written_number_reads_back(n, m + n);
}

/// Pool sizes are written differently where they differ.
proof fn lemma_pool_size_text_distinct(a: Option<usize>, b: Option<usize>)
    requires
        pool_size_text(a) == pool_size_text(b),
    ensures
        a == b,
{
    reveal_strlit("Some(");
    reveal_strlit(")");
    reveal_strlit("None");
    match (a, b) {
        (Some(m), Some(n)) => {
            lemma_decimal_distinct(m as nat, n as nat);
            lemma_decimal_distinct(n as nat, m as nat);
            assert(pool_size_text(a) =~= "Some("@ + decimal(m as nat).push(')'));
            assert(pool_size_text(b) =~= "Some("@ + decimal(n as nat).push(')'));
            lemma_after_prefix("Some("@, decimal(m as nat).push(')'), decimal(n as nat).push(')'));
            assert(decimal(m as nat).push(')').drop_last() =~= decimal(m as nat));
            assert(decimal(n as nat).push(')').drop_last() =~= decimal(n as nat));
        },
        (Some(_), None) => {
            assert(pool_size_text(a)[0] == 'S' && pool_size_text(b)[0] == 'N');
        },
        (None, Some(_)) => {
            assert(pool_size_text(a)[0] == 'N' && pool_size_text(b)[0] == 'S');
        },
        (None, None) => {},
    }
}

/// The part of a connection string that says whether TLS is required and how large the pool is.
spec fn flags_text(options: OptionsModel) -> Seq<char> {
    (if options.tls_required {
        "true"@
    } else {
        "false"@
    }).push('&') + ("pool_size="@ + pool_size_text(options.pool_size))
}

/// The part of a connection string from the host on.
spec fn host_text(options: OptionsModel) -> Seq<char> {
    options.host.push(':') + (decimal(options.port as nat).push('/') + (options.database.push('?')
        + ("tls_required="@ + flags_text(options))))
}

/// A connection string, put together from its end.
proof fn lemma_connection_text_parts(options: OptionsModel)
    ensures
        connection_text(options) == "mysql://"@ + (options.username.push(':') + (
        options.password.push('@') + host_text(options))),
{
    reveal_strlit(":");
    reveal_strlit("@");
    reveal_strlit("/");
    reveal_strlit("?tls_required=");
    reveal_strlit("tls_required=");
    reveal_strlit("&pool_size=");
    reveal_strlit("pool_size=");
    assert("?tls_required="@ =~= seq!['?'] + "tls_required="@);
    assert("&pool_size="@ =~= seq!['&'] + "pool_size="@);
    assert(connection_text(options) =~= "mysql://"@ + (options.username.push(':') + (
    options.password.push('@') + host_text(options))));
}

/// Whether every part of a connection string can be told from the next.
pub open spec fn separable(options: OptionsModel) -> bool {
    &&& !options.username.contains(':')
    &&& !options.password.contains('@')
    &&& !options.host.contains(':')
    &&& !options.database.contains('?')
}

/// Different options have different connection strings, as long as no user or host holds a colon,
/// no password an at sign and no database a question mark.
pub proof fn law_connection_texts_are_distinct(a: OptionsModel, b: OptionsModel)
    requires
        separable(a),
        separable(b),
        connection_text(a) == connection_text(b),
    ensures
        a == b,
{
    lemma_connection_text_parts(a);
    lemma_connection_text_parts(b);
    lemma_after_prefix(
        "mysql://"@,
        a.username.push(':') + (a.password.push('@') + host_text(a)),
        b.username.push(':') + (b.password.push('@') + host_text(b)),
    );
    lemma_split_at(
        a.username,
        b.username,
        a.password.push('@') + host_text(a),
        b.password.push('@') + host_text(b),
        ':',
    );
    lemma_split_at(a.password, b.password, host_text(a), host_text(b), '@');
    let a_flags = "tls_required="@ + flags_text(a);
    let b_flags = "tls_required="@ + flags_text(b);
    let a_port = decimal(a.port as nat);
    let b_port = decimal(b.port as nat);
    lemma_split_at(
        a.host,
        b.host,
        a_port.push('/') + (a.database.push('?') + a_flags),
        b_port.push('/') + (b.database.push('?') + b_flags),
        ':',
    );
    lemma_decimal_distinct(a.port as nat, b.port as nat);
    lemma_decimal_distinct(b.port as nat, a.port as nat);
    lemma_split_at(
        a_port,
        b_port,
        a.database.push('?') + a_flags,
        b.database.push('?') + b_flags,
        '/',
    );
    lemma_split_at(a.database, b.database, a_flags, b_flags, '?');
    lemma_after_prefix("tls_required="@, flags_text(a), flags_text(b));
    reveal_strlit("true");
    reveal_strlit("false");
    assert(flags_text(a)[0] == if a.tls_required { 't' } else { 'f' });
    assert(flags_text(b)[0] == if b.tls_required { 't' } else { 'f' });
    let word = (if a.tls_required { "true"@ } else { "false"@ });
    let a_pool = "pool_size="@ + pool_size_text(a.pool_size);
    let b_pool = "pool_size="@ + pool_size_text(b.pool_size);
    lemma_after_prefix(word.push('&'), a_pool, b_pool);
    lemma_after_prefix("pool_size="@, pool_size_text(a.pool_size), pool_size_text(b.pool_size));
    lemma_pool_size_text_distinct(a.pool_size, b.pool_size);
}

/// The SHA-256 digest of data.
pub uninterp spec fn sha256(data: Seq<u8>) -> Seq<u8>;

/// `Sha256::digest` of sha2: 32 bytes that depend on the data alone.
#[verifier::external_body]
fn sha256_digest(data: &[u8]) -> (digest: Vec<u8>)
    ensures
        digest@ == sha256(data@),
        digest@.len() == 32,
{
    <sha2::Sha256 as sha2::Digest>::digest(data).to_vec()
}

/// The character of a hexadecimal digit below sixteen.
pub open spec fn hex_char(digit: int) -> char {
    if digit < 10 {
        (digit + '0' as int) as char
    } else {
        (digit - 10 + 'A' as int) as char
    }
}

/// Bytes in hexadecimal: two digits each, with capital letters.
pub open spec fn hex_text(bytes: Seq<u8>) -> Seq<char> {
    Seq::new(
        2 * bytes.len(),
        |i: int|
            hex_char(
                if i % 2 == 0 {
                    bytes[i / 2] as int / 16
                } else {
                    bytes[i / 2] as int % 16
                },
            ),
    )
}

fn hex_digit(digit: u8) -> (c: char)
    requires
        digit < 16,
    ensures
        c == hex_char(digit as int),
{
    if digit < 10 {
        (digit + 48) as char
    } else {
        (digit + 55) as char
    }
}

/// Bytes in hexadecimal: two digits each, with capital letters.
pub fn to_hex(bytes: &[u8]) -> (text: String)
    ensures
        text@ == hex_text(bytes@),
{
    let mut text: String = String::new();
    for i in 0..bytes.len()
        invariant
            text@ =~= hex_text(bytes@).take(2 * i),
    {
        text.push(hex_digit(bytes[i] / 16));
        text.push(hex_digit(bytes[i] % 16));
    }
    assert(hex_text(bytes@).take(2 * bytes@.len() as int) =~= hex_text(bytes@));
    text
}

/// The key under which a connection with the given options is shared: a digest of its connection
/// string, so that the key gives no password away.
pub open spec fn shared_key(options: OptionsModel) -> Seq<char> {
    hex_text(sha256(encode_utf8(connection_text(options))))
}

/// The key under which a connection with the given options is shared.
pub fn shared_connection_key(opts: &ConnectionCreateOptions) -> (key: String)
    ensures
        key@ == shared_key(opts@),
        key@.len() == 64,
{
    let connection_string: String = connection_string_for_hashing(opts);
    let digest: Vec<u8> = sha256_digest(utf8_bytes(&connection_string).as_slice());
    to_hex(digest.as_slice())
}

/// Connection options of the MySQL driver, carried without looking inside.
#[verifier::external_type_specification]
#[verifier::external_body]
pub struct ExOpts(mysql_async::Opts);

/// `PoolConstraints::new` of mysql_async, with the constraints taken as their two bounds: there
/// are none unless the lower bound is no more than the upper and the upper is not zero.
#[verifier::external_body]
fn pool_constraints(min: usize, max: usize) -> (limits: Option<(usize, usize)>)
    ensures
        limits == (if min <= max && max > 0 {
            Some((min, max))
        } else {
            None
        }),
{
    mysql_async::PoolConstraints::new(min, max).map(|c| (c.min(), c.max()))
}

/// The bounds of a pool of a given size. A pool without a size, or of size zero, has none of its
/// own and gets those that the driver uses otherwise.
pub open spec fn pool_limits(pool_size: Option<usize>) -> Option<(usize, usize)> {
    match pool_size {
        Some(size) => if size > 0 {
            Some((0, size))
        } else {
            None
        },
        None => None,
    }
}

/// The bounds of a pool of a given size.
pub fn pool_limits_for(pool_size: Option<usize>) -> (limits: Option<(usize, usize)>)
    ensures
        limits == pool_limits(pool_size),
{
    match pool_size {
        Some(size) => pool_constraints(0, size),
        None => None,
    }
}

/// The driver's options for a server, an account on it, the bounds of the pool and whether TLS is
/// required, everything else being as the driver has it otherwise.
pub uninterp spec fn driver_opts(
    host: Seq<char>,
    port: u16,
    user: Seq<char>,
    pass: Seq<char>,
    db_name: Seq<char>,
    limits: Option<(usize, usize)>,
    tls: bool,
) -> mysql_async::Opts;

/// `Opts` of mysql_async from an `OptsBuilder` that is given a host, a port, a user, a password, a
/// database, a pool and TLS. The options depend on these alone, everything else being as the
/// driver is built for the platform. Without bounds the pool is the default one, without TLS there
/// are no TLS options, with it they are the default ones.
#[verifier::external_body]
fn build_opts(
    host: String,
    port: u16,
    user: String,
    pass: String,
    db_name: String,
    limits: Option<(usize, usize)>,
    tls: bool,
) -> (opts: mysql_async::Opts)
    requires
        limits matches Some(l) ==> l.0 <= l.1 && l.1 > 0,
    ensures
        opts == driver_opts(host@, port, user@, pass@, db_name@, limits, tls),
{
    let constraints = limits.and_then(|l| mysql_async::PoolConstraints::new(l.0, l.1));
    let builder = mysql_async::OptsBuilder::default()
        .ip_or_hostname(host)
        .tcp_port(port)
        .user(Some(user))
        .pass(Some(pass))
        .db_name(Some(db_name))
        .pool_opts(constraints.map(|c| mysql_async::PoolOpts::new().with_constraints(c)))
        .ssl_opts(tls.then_some(mysql_async::SslOpts::default()));
    mysql_async::Opts::from(builder)
}

/// The driver's options for connection options.
pub open spec fn opts_for(options: OptionsModel) -> mysql_async::Opts {
    driver_opts(
        options.host,
        options.port,
        options.username,
        options.password,
        options.database,
        pool_limits(options.pool_size),
        options.tls_required,
    )
}

/// The driver's options for connection options.
pub fn to_opts(opts: ConnectionCreateOptions) -> (r: mysql_async::Opts)
    ensures
        r == opts_for(opts@),
{
    let limits: Option<(usize, usize)> = pool_limits_for(opts.pool_size);
    build_opts(
        opts.host,
        opts.port,
        opts.username,
        opts.password,
        opts.database,
        limits,
        opts.tls_required,
    )
}

/// A text that may be missing is the same text where it is there.
pub proof fn law_optional_text_is_kept(text: Option<&str>)
    ensures
        text matches Some(s) ==> optional_text(text) == Some(s@),
        text is None ==> optional_text(text) is None,
{
}

/// A setting reads what the secret of that name says, if there is one and it is text. If not, it
/// reads what the plain setting of that name says, and is missing where there is none.
pub proof fn law_secrets_are_preferred(link: LinkConfig, key: Seq<char>)
    ensures
        link.secrets@.contains_key(key) ==> (link.secrets@[key] matches SecretValue::Text(s)
            ==> link.setting(key) == Some(s@)),
        !link.secrets@.contains_key(key) || link.secrets@[key] is Bytes ==> {
            &&& link.config@.contains_key(key) ==> link.setting(key) == Some(link.config@[key]@)
            &&& !link.config@.contains_key(key) ==> link.setting(key) is None
        },
{
}

/// Options come out of a link exactly where it has a host, a port, a user, a password and a
/// database. They hold the texts of these settings and the number that the port writes, or 3306
/// where it writes none. TLS is required if and only if its setting is there and switched on, and
/// the pool has a size if and only if its setting is there and writes a number.
pub proof fn law_options_hold_what_settings_read(
    prefix: Seq<char>,
    link: LinkConfig,
    options: Option<ConnectionCreateOptions>,
)
    requires
        optional_options(options) == conn_config(prefix, link),
    ensures
        options is Some <==> {
            &&& link.setting(prefix + "HOST"@) is Some
            &&& link.setting(prefix + "PORT"@) is Some
            &&& link.setting(prefix + "USERNAME"@) is Some
            &&& link.setting(prefix + "PASSWORD"@) is Some
            &&& link.setting(prefix + "DATABASE"@) is Some
        },
        options matches Some(o) ==> {
            &&& link.setting(prefix + "HOST"@) == Some(o.host@)
            &&& link.setting(prefix + "USERNAME"@) == Some(o.username@)
            &&& link.setting(prefix + "PASSWORD"@) == Some(o.password@)
            &&& link.setting(prefix + "DATABASE"@) == Some(o.database@)
            &&& link.setting(prefix + "PORT"@) matches Some(port)
            &&& match unsigned(port, 0xffff) {
                Some(n) => o.port == n,
                None => o.port == 3306,
            }
            &&& o.tls_required <==> (link.setting(prefix + "TLS_REQUIRED"@) matches Some(tls)
                && affirmative(tls))
            &&& match o.pool_size {
                Some(size) => link.setting(prefix + "POOL_SIZE"@) matches Some(text) && unsigned(
                    text,
                    usize::MAX as nat,
                ) == Some(size as nat),
                None => link.setting(prefix + "POOL_SIZE"@) matches Some(text) ==> unsigned(
                    text,
                    usize::MAX as nat,
                ) is None,
            }
        },
{
}

/// A port or a pool size that is written in base ten is the one that comes out.
pub proof fn law_written_port_and_pool_size_come_out(
    prefix: Seq<char>,
    link: LinkConfig,
    port: u16,
    size: usize,
)
    requires
        conn_config(prefix, link) is Some,
    ensures
        link.setting(prefix + "PORT"@) == Some(decimal(port as nat)) ==> conn_config(
            prefix,
            link,
        )->0.port == port,
        link.setting(prefix + "POOL_SIZE"@) == Some(decimal(size as nat)) ==> conn_config(
            prefix,
            link,
        )->0.pool_size == Some(size),
{
    law_written_number_reads_back(port as nat, u16::MAX as nat);
    law_written_number_reads_back(size as nat, usize::MAX as nat);
}

/// A connection is shared if the plain setting for that is switched on. Only where there is no
/// plain one does a secret of that name decide, and only if it is text.
pub proof fn law_sharing_is_asked_for_by_name(link: LinkConfig)
    ensures
        ({
            let key = "MYSQL_SHARE_CONNECTIONS_BY_URL"@;
            shares_connections(link) <==> {
                if link.config@.contains_key(key) {
                    affirmative(link.config@[key]@)
                } else {
                    &&& link.secrets@.contains_key(key)
                    &&& link.secrets@[key] matches SecretValue::Text(s)
                    &&& affirmative(s@)
                }
            }
        }),
{
}

/// A connection string names, in this order, the user, the password, the host, the port and the
/// database, and then whether TLS is required and how large the pool is.
pub proof fn law_connection_string_names_every_option(o: ConnectionCreateOptions)
    ensures
        connection_text(o@) == "mysql://"@ + (o.username@ + ":"@ + o.password@) + "@"@ + (o.host@
            + ":"@ + decimal(o.port as nat)) + "/"@ + o.database@ + (if o.tls_required {
            "?tls_required=true"@
        } else {
            "?tls_required=false"@
        }) + (match o.pool_size {
            Some(n) => "&pool_size=Some("@ + decimal(n as nat) + ")"@,
            None => "&pool_size=None"@,
        }),
{
    reveal_strlit("?tls_required=");
    reveal_strlit("true");
    reveal_strlit("false");
    reveal_strlit("?tls_required=true");
    reveal_strlit("?tls_required=false");
    reveal_strlit("&pool_size=");
    reveal_strlit("Some(");
    reveal_strlit("None");
    reveal_strlit("&pool_size=Some(");
    reveal_strlit("&pool_size=None");
    assert("?tls_required=true"@ =~= "?tls_required="@ + "true"@);
    assert("?tls_required=false"@ =~= "?tls_required="@ + "false"@);
    assert("&pool_size=Some("@ =~= "&pool_size="@ + "Some("@);
    assert("&pool_size=None"@ =~= "&pool_size="@ + "None"@);
    let flags = (if o.tls_required { "?tls_required=true"@ } else { "?tls_required=false"@ });
    let size = (match o.pool_size {
        Some(n) => "&pool_size=Some("@ + decimal(n as nat) + ")"@,
        None => "&pool_size=None"@,
    });
    assert(connection_text(o@) =~= "mysql://"@ + (o.username@ + ":"@ + o.password@) + "@"@ + (o.host@
        + ":"@ + decimal(o.port as nat)) + "/"@ + o.database@ + flags + size);
}

/// In hexadecimal every byte is two digits: its sixteens first, its ones second.
pub proof fn law_hexadecimal_digits(bytes: Seq<u8>, i: int)
    requires
        0 <= i < bytes.len(),
    ensures
        hex_text(bytes).len() == 2 * bytes.len(),
        hex_text(bytes)[2 * i] == "0123456789ABCDEF"@[bytes[i] as int / 16],
        hex_text(bytes)[2 * i + 1] == "0123456789ABCDEF"@[bytes[i] as int % 16],
{
    lemma_hex_char(bytes[i] as int / 16);
    lemma_hex_char(bytes[i] as int % 16);
    assert((2 * i) / 2 == i && (2 * i + 1) / 2 == i);
}

/// The hexadecimal digits in order.
proof fn lemma_hex_char(digit: int)
    requires
        0 <= digit < 16,
    ensures
        hex_char(digit) == "0123456789ABCDEF"@[digit],
{
    reveal_strlit("0123456789ABCDEF");
    let all = "0123456789ABCDEF"@;
    assert(all[0] == '0' && all[1] == '1' && all[2] == '2' && all[3] == '3');
    assert(all[4] == '4' && all[5] == '5' && all[6] == '6' && all[7] == '7');
    assert(all[8] == '8' && all[9] == '9' && all[10] == 'A' && all[11] == 'B');
    assert(all[12] == 'C' && all[13] == 'D' && all[14] == 'E' && all[15] == 'F');
}

/// Different bytes are written differently in hexadecimal.
pub proof fn law_hexadecimal_is_distinct(a: Seq<u8>, b: Seq<u8>)
    requires
        hex_text(a) == hex_text(b),
    ensures
        a == b,
{
    assert(hex_text(a).len() == 2 * a.len());
    assert(hex_text(b).len() == 2 * b.len());
    assert forall|i: int| 0 <= i < a.len() implies a[i] == b[i] by {
        assert((2 * i) / 2 == i && (2 * i + 1) / 2 == i);
        assert(hex_text(a)[2 * i] == hex_char(a[i] as int / 16));
        assert(hex_text(b)[2 * i] == hex_char(b[i] as int / 16));
        assert(hex_text(a)[2 * i + 1] == hex_char(a[i] as int % 16));
        assert(hex_text(b)[2 * i + 1] == hex_char(b[i] as int % 16));
    }
    assert(a =~= b);
}

/// A shared key is the digest, in hexadecimal, of the whole connection string. So options that can
/// be told apart in writing and differ in any field have one key only if the digests of two
/// different connection strings are the same.
pub proof fn law_shared_keys_tell_options_apart(a: OptionsModel, b: OptionsModel)
    requires
        separable(a),
        separable(b),
        a != b,
    ensures
        encode_utf8(connection_text(a)) != encode_utf8(connection_text(b)),
        shared_key(a) == shared_key(b) <==> sha256(encode_utf8(connection_text(a))) == sha256(
            encode_utf8(connection_text(b)),
        ),
{
    let x = connection_text(a);
    let y = connection_text(b);
    if x == y {
        law_connection_texts_are_distinct(a, b);
    }
    encode_utf8_decode_utf8(x);
    encode_utf8_decode_utf8(y);
    if shared_key(a) == shared_key(b) {
        law_hexadecimal_is_distinct(sha256(encode_utf8(x)), sha256(encode_utf8(y)));
    }
}

/// A shared key spells the digest of the connection string, two digits to a byte.
pub proof fn law_shared_key_spells_digest(options: OptionsModel, i: int)
    requires
        0 <= i < sha256(encode_utf8(connection_text(options))).len(),
    ensures
        ({
            let digest = sha256(encode_utf8(connection_text(options)));
            &&& shared_key(options).len() == 2 * digest.len()
            &&& shared_key(options)[2 * i] == "0123456789ABCDEF"@[digest[i] as int / 16]
            &&& shared_key(options)[2 * i + 1] == "0123456789ABCDEF"@[digest[i] as int % 16]
        }),
{
    law_hexadecimal_digits(sha256(encode_utf8(connection_text(options))), i);
}

/// A pool has bounds of its own exactly where it has a size other than zero: no connection at
/// least, and as many as its size at most.
pub proof fn law_pool_size_is_upper_bound(pool_size: Option<usize>)
    ensures
        match pool_limits(pool_size) {
            Some(limits) => pool_size == Some(limits.1) && limits.0 == 0 && limits.1 > 0,
            None => pool_size is None || pool_size == Some(0usize),
        },
{
}

/// The driver is given every option in its own place.
pub proof fn law_options_reach_the_driver(o: ConnectionCreateOptions)
    ensures
        opts_for(o@) == driver_opts(
            o.host@,
            o.port,
            o.username@,
            o.password@,
            o.database@,
            pool_limits(o.pool_size),
            o.tls_required,
        ),
{
}

} // verus!
