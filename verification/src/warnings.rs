//! What is worth a warning in the settings of a link.

use vstd::prelude::*;
use crate::config::{conn_config, LinkConfig};
use crate::text::{parse_unsigned, unsigned};
use crate::value::texts;

verus! {

/// Something in the settings of a link that deserves a warning.
#[derive(Debug, PartialEq, Eq)]
pub enum ConfigWarning {
    /// The setting is both a secret and a plain setting; the secret is used.
    SecretAlsoInConfig(String),
    /// The password is a plain setting, and should be a secret.
    PasswordInConfig(String),
    /// The pool size is no number, and is left out.
    InvalidPoolSize(String),
    /// The port is no port number, and the default port is used.
    InvalidPort(String),
    /// Of these settings a required one is missing.
    MissingKeys(Vec<String>),
}

/// What a [`ConfigWarning`] says.
pub ghost enum WarningModel {
    SecretAlsoInConfig(Seq<char>),
    PasswordInConfig(Seq<char>),
    InvalidPoolSize(Seq<char>),
    InvalidPort(Seq<char>),
    MissingKeys(Seq<Seq<char>>),
}

impl View for ConfigWarning {
    type V = WarningModel;

    open spec fn view(&self) -> WarningModel {
        match *self {
            ConfigWarning::SecretAlsoInConfig(key) => WarningModel::SecretAlsoInConfig(key@),
            ConfigWarning::PasswordInConfig(key) => WarningModel::PasswordInConfig(key@),
            ConfigWarning::InvalidPoolSize(text) => WarningModel::InvalidPoolSize(text@),
            ConfigWarning::InvalidPort(text) => WarningModel::InvalidPort(text@),
            ConfigWarning::MissingKeys(keys) => WarningModel::MissingKeys(texts(keys@)),
        }
    }
}

/// What a list of warnings says.
pub open spec fn warning_models(list: Seq<ConfigWarning>) -> Seq<WarningModel> {
    list.map_values(|w: ConfigWarning| w@)
}

/// The names of the settings of a connection, in the order in which they are looked up. All but
/// the last two are required.
pub open spec fn setting_names() -> Seq<Seq<char>> {
    seq![
        "HOST"@,
        "PORT"@,
        "USERNAME"@,
        "PASSWORD"@,
        "DATABASE"@,
        "TLS_REQUIRED"@,
        "POOL_SIZE"@,
    ]
}

/// The keys of the settings of a connection: their names after `prefix`.
pub open spec fn setting_keys(prefix: Seq<char>) -> Seq<Seq<char>> {
    setting_names().map_values(|name: Seq<char>| prefix + name)
}

/// What there is to say of where the setting `key` is found. Only a password should not be a plain
/// setting.
pub open spec fn place_warnings(link: LinkConfig, key: Seq<char>, password: bool) -> Seq<
    WarningModel,
> {
    let secret = link.secrets@.contains_key(key) && link.secrets@[key].text() is Some;
    let plain = link.config@.contains_key(key);
    if secret && plain {
        seq![WarningModel::SecretAlsoInConfig(key)]
    } else if plain && password {
        seq![WarningModel::PasswordInConfig(key)]
    } else {
        Seq::empty()
    }
}

/// What there is to say of where the settings with the first `n` keys are found, in order.
pub open spec fn all_place_warnings(link: LinkConfig, prefix: Seq<char>, n: nat) -> Seq<
    WarningModel,
>
    decreases n,
{
    if n == 0 {
        Seq::empty()
    } else {
        all_place_warnings(link, prefix, (n - 1) as nat) + place_warnings(
            link,
            setting_keys(prefix)[n - 1],
            setting_names()[n - 1] == "PASSWORD"@,
        )
    }
}

/// Whether every setting that a connection requires is there.
pub open spec fn complete(link: LinkConfig, prefix: Seq<char>) -> bool {
    forall|i: int| 0 <= i < 5 ==> link.setting(#[trigger] setting_keys(prefix)[i]) is Some
}

/// What there is to say of what the settings read.
pub open spec fn reading_warnings(link: LinkConfig, prefix: Seq<char>) -> Seq<WarningModel> {
    if !complete(link, prefix) {
        seq![WarningModel::MissingKeys(setting_keys(prefix))]
    } else {
        let pool_size = link.setting(prefix + "POOL_SIZE"@);
        let port = link.setting(prefix + "PORT"@)->0;
        (if pool_size is Some && unsigned(pool_size->0, usize::MAX as nat) is None {
            seq![WarningModel::InvalidPoolSize(pool_size->0)]
        } else {
            Seq::empty()
        }) + (if unsigned(port, u16::MAX as nat) is None {
            seq![WarningModel::InvalidPort(port)]
        } else {
            Seq::empty()
        })
    }
}

/// Everything that there is to say of the settings of a link with names starting in `prefix`:
/// first of where they are found, then of what they read.
pub open spec fn link_warnings(prefix: Seq<char>, link: LinkConfig) -> Seq<WarningModel> {
    all_place_warnings(link, prefix, 7) + reading_warnings(link, prefix)
}

/// The keys of the settings of a connection, in the order in which they are looked up.
fn connection_keys(prefix: &str) -> (keys: Vec<String>)
    ensures
        texts(keys@) == setting_keys(prefix@),
{
    let names: [&str; 7] = [
        "HOST",
        "PORT",
        "USERNAME",
        "PASSWORD",
        "DATABASE",
        "TLS_REQUIRED",
        "POOL_SIZE",
    ];
    let mut keys: Vec<String> = Vec::new();
    for i in 0..7
        invariant
            forall|j: int| 0 <= j < 7 ==> (#[trigger] names@[j])@ == setting_names()[j],
            texts(keys@) =~= setting_keys(prefix@).take(i as int),
    {
        let ghost before = keys@;
        let mut key: String = prefix.to_owned();
        key.append(names[i]);
        assert(key@ == setting_keys(prefix@)[i as int]);
        keys.push(key);
        assert(texts(keys@) =~= texts(before).push(key@));
    }
    assert(texts(keys@) =~= setting_keys(prefix@));
    keys
}

/// What deserves a warning in the settings of a link with names starting in `prefix`.
pub fn config_warnings(prefix: &str, link_config: &LinkConfig) -> (r: Vec<ConfigWarning>)
    ensures
        warning_models(r@) == link_warnings(prefix@, *link_config),
{
    let keys: Vec<String> = connection_keys(prefix);
    let ghost all = setting_keys(prefix@);
    assert(all.len() == 7);
    assert forall|j: int| 0 <= j < 7 implies (#[trigger] keys@[j])@ == all[j] by {
        assert(texts(keys@)[j] == keys@[j]@);
    }
    let mut warnings: Vec<ConfigWarning> = Vec::new();
    assert(warning_models(warnings@) =~= all_place_warnings(*link_config, prefix@, 0));
    let mut missing: bool = false;
    for i in 0..7
        invariant
            all == setting_keys(prefix@),
            keys@.len() == 7,
            forall|j: int| 0 <= j < 7 ==> (#[trigger] keys@[j])@ == all[j],
            warning_models(warnings@) == all_place_warnings(*link_config, prefix@, i as nat),
            missing == exists|j: int|
                0 <= j < i && j < 5 && link_config.setting(#[trigger] all[j]) is None,
    {
        let key: &str = keys[i].as_str();
        let ghost before = warnings@;
        assert(key@ == all[i as int]);
        let secret: bool = match link_config.secrets.get(key) {
            Some(value) => value.as_string().is_some(),
            None => false,
        };
        let plain: bool = link_config.config.contains_key(key);
        proof {
            lemma_password_name(i as int);
        }
        if secret && plain {
            warnings.push(ConfigWarning::SecretAlsoInConfig(key.to_owned()));
        } else if plain && i == 3 {
            warnings.push(ConfigWarning::PasswordInConfig(key.to_owned()));
        }
        assert(warning_models(warnings@) =~= warning_models(before) + place_warnings(
            *link_config,
            all[i as int],
            i == 3,
        ));
        if i < 5 && !secret && !plain {
            assert(link_config.setting(all[i as int]) is None);
            missing = true;
        }
    }
    assert(missing == !complete(*link_config, prefix@));
    if missing {
        warnings.push(ConfigWarning::MissingKeys(keys));
        assert(warning_models(warnings@) =~= link_warnings(prefix@, *link_config));
        return warnings;
    }
    assert(all[1] == prefix@ + "PORT"@);
    assert(all[6] == prefix@ + "POOL_SIZE"@);
    if let Some(pool_size) = link_config.get_setting(keys[6].as_str()) {
        if parse_unsigned(pool_size, usize::MAX as u64).is_none() {
            warnings.push(ConfigWarning::InvalidPoolSize(pool_size.to_owned()));
        }
    }
    if let Some(port) = link_config.get_setting(keys[1].as_str()) {
        if parse_unsigned(port, u16::MAX as u64).is_none() {
            warnings.push(ConfigWarning::InvalidPort(port.to_owned()));
        }
    }
    assert(warning_models(warnings@) =~= link_warnings(prefix@, *link_config));
    warnings
}

/// Only the fourth setting is the password.
proof fn lemma_password_name(i: int)
    requires
        0 <= i < 7,
    ensures
        setting_names()[i] == "PASSWORD"@ <==> i == 3,
{
    reveal_strlit("HOST");
    reveal_strlit("PORT");
    reveal_strlit("USERNAME");
    reveal_strlit("PASSWORD");
    reveal_strlit("DATABASE");
    reveal_strlit("TLS_REQUIRED");
    reveal_strlit("POOL_SIZE");
    let letter = setting_names()[i][0];
    assert("PASSWORD"@[0] == 'P' && "PASSWORD"@.len() == 8);
    assert("POOL_SIZE"@.len() == 9 && "PORT"@.len() == 4);
    assert(letter == 'P' ==> i == 1 || i == 3 || i == 6);
}

/// There is a warning of missing settings exactly where no connection comes out of them.
pub proof fn law_missing_keys_are_warned_of(prefix: Seq<char>, link: LinkConfig)
    ensures
        conn_config(prefix, link) is None <==> link_warnings(prefix, link).contains(
            WarningModel::MissingKeys(setting_keys(prefix)),
        ),
{
    let keys = setting_keys(prefix);
    let warning = WarningModel::MissingKeys(keys);
    let places = all_place_warnings(link, prefix, 7);
    let readings = reading_warnings(link, prefix);
    assert(keys[0] == prefix + "HOST"@);
    assert(keys[1] == prefix + "PORT"@);
    assert(keys[2] == prefix + "USERNAME"@);
    assert(keys[3] == prefix + "PASSWORD"@);
    assert(keys[4] == prefix + "DATABASE"@);
    assert(complete(link, prefix) <==> conn_config(prefix, link) is Some);
    lemma_places_miss_nothing(link, prefix, 7);
    if complete(link, prefix) {
        assert forall|i: int| 0 <= i < link_warnings(prefix, link).len() implies link_warnings(
            prefix,
            link,
        )[i] != warning by {
            if i < places.len() {
                assert(link_warnings(prefix, link)[i] == places[i]);
            } else {
                assert(link_warnings(prefix, link)[i] == readings[i - places.len()]);
            }
        }
    } else {
        assert(link_warnings(prefix, link)[places.len() as int] == warning);
    }
}

/// Where settings are found says nothing of missing ones.
proof fn lemma_places_miss_nothing(link: LinkConfig, prefix: Seq<char>, n: nat)
    ensures
        forall|i: int|
            0 <= i < all_place_warnings(link, prefix, n).len() ==> !((
            #[trigger] all_place_warnings(link, prefix, n)[i]) is MissingKeys),
    decreases n,
{
    if n > 0 {
        let before = all_place_warnings(link, prefix, (n - 1) as nat);
        let all = all_place_warnings(link, prefix, n);
        lemma_places_miss_nothing(link, prefix, (n - 1) as nat);
        assert forall|i: int| 0 <= i < all.len() implies !((#[trigger] all[i]) is MissingKeys) by {
            if i < before.len() {
                assert(all[i] == before[i]);
            }
        }
    }
}

/// A warning says the key or the text that it holds, and is seen as the kind of warning that it is.
pub proof fn law_warnings_say_what_they_hold(text: String, keys: Vec<String>)
    ensures
        ConfigWarning::SecretAlsoInConfig(text)@ == WarningModel::SecretAlsoInConfig(text@),
        ConfigWarning::PasswordInConfig(text)@ == WarningModel::PasswordInConfig(text@),
        ConfigWarning::InvalidPoolSize(text)@ == WarningModel::InvalidPoolSize(text@),
        ConfigWarning::InvalidPort(text)@ == WarningModel::InvalidPort(text@),
        ConfigWarning::MissingKeys(keys)@ == WarningModel::MissingKeys(
            Seq::new(keys@.len(), |i: int| keys@[i]@),
        ),
{
    assert(texts(keys@) =~= Seq::new(keys@.len(), |i: int| keys@[i]@));
}

/// As many warnings are given as there are to give, each in its place.
pub proof fn law_warnings_are_given_in_order(
    prefix: Seq<char>,
    link: LinkConfig,
    given: Seq<ConfigWarning>,
)
    requires
        warning_models(given) == link_warnings(prefix, link),
    ensures
        given.len() == link_warnings(prefix, link).len(),
        forall|i: int|
            0 <= i < given.len() ==> (#[trigger] given[i])@ == link_warnings(prefix, link)[i],
{
    assert(warning_models(given).len() == given.len());
    assert forall|i: int| 0 <= i < given.len() implies (#[trigger] given[i])@ == link_warnings(
        prefix,
        link,
    )[i] by {
        assert(warning_models(given)[i] == given[i]@);
    }
}

/// The place of the setting `key` among the settings of a connection, counted from zero, or seven
/// if it is none of these.
pub open spec fn setting_place(prefix: Seq<char>, key: Seq<char>) -> int {
    if key == prefix + "HOST"@ {
        0
    } else if key == prefix + "PORT"@ {
        1
    } else if key == prefix + "USERNAME"@ {
        2
    } else if key == prefix + "PASSWORD"@ {
        3
    } else if key == prefix + "DATABASE"@ {
        4
    } else if key == prefix + "TLS_REQUIRED"@ {
        5
    } else if key == prefix + "POOL_SIZE"@ {
        6
    } else {
        7
    }
}

/// What a warning comes after: those of where a setting is found go by the setting, and are
/// followed by that of the pool size, that of the port and that of missing settings.
pub open spec fn warning_place(prefix: Seq<char>, warning: WarningModel) -> int {
    match warning {
        WarningModel::SecretAlsoInConfig(key) => setting_place(prefix, key),
        WarningModel::PasswordInConfig(key) => setting_place(prefix, key),
        WarningModel::InvalidPoolSize(_) => 8,
        WarningModel::InvalidPort(_) => 9,
        WarningModel::MissingKeys(_) => 10,
    }
}

/// The settings of a connection have different keys, each with its place.
proof fn lemma_setting_place(prefix: Seq<char>, i: int)
    requires
        0 <= i < 7,
    ensures
        setting_place(prefix, setting_keys(prefix)[i]) == i,
{
    let key = setting_keys(prefix)[i];
    let name = setting_names()[i];
    assert(key.skip(prefix.len() as int) =~= name);
    assert((prefix + "HOST"@).skip(prefix.len() as int) =~= "HOST"@);
    assert((prefix + "PORT"@).skip(prefix.len() as int) =~= "PORT"@);
    assert((prefix + "USERNAME"@).skip(prefix.len() as int) =~= "USERNAME"@);
    assert((prefix + "PASSWORD"@).skip(prefix.len() as int) =~= "PASSWORD"@);
    assert((prefix + "DATABASE"@).skip(prefix.len() as int) =~= "DATABASE"@);
    assert((prefix + "TLS_REQUIRED"@).skip(prefix.len() as int) =~= "TLS_REQUIRED"@);
    assert((prefix + "POOL_SIZE"@).skip(prefix.len() as int) =~= "POOL_SIZE"@);
    reveal_strlit("HOST");
    reveal_strlit("PORT");
    reveal_strlit("USERNAME");
    reveal_strlit("PASSWORD");
    reveal_strlit("DATABASE");
    reveal_strlit("TLS_REQUIRED");
    reveal_strlit("POOL_SIZE");
    assert("HOST"@[0] == 'H' && "PORT"@[0] == 'P' && "USERNAME"@[0] == 'U');
    assert("PASSWORD"@[0] == 'P' && "DATABASE"@[0] == 'D' && "TLS_REQUIRED"@[0] == 'T');
    assert("POOL_SIZE"@[0] == 'P');
}

/// What there is to say of where the first settings are found, and in which order.
proof fn lemma_places(link: LinkConfig, prefix: Seq<char>, n: nat)
    requires
        n <= 7,
    ensures
        ({
            let all = all_place_warnings(link, prefix, n);
            &&& forall|i: int|
                0 <= i < all.len() ==> 0 <= warning_place(prefix, #[trigger] all[i]) < n
            &&& forall|i: int, j: int|
                0 <= i < j < all.len() ==> warning_place(prefix, #[trigger] all[i]) < warning_place(
                    prefix,
                    #[trigger] all[j],
                )
            &&& forall|w: WarningModel| #[trigger]
                all.contains(w) <==> {
                    let k = warning_place(prefix, w);
                    &&& 0 <= k < n
                    &&& place_warnings(link, setting_keys(prefix)[k], k == 3).contains(w)
                }
        }),
    decreases n,
{
    if n > 0 {
        let m = (n - 1) as nat;
        let before = all_place_warnings(link, prefix, m);
        let all = all_place_warnings(link, prefix, n);
        let key = setting_keys(prefix)[m as int];
        let added = place_warnings(link, key, m == 3);
        lemma_places(link, prefix, m);
        lemma_password_name(m as int);
        lemma_setting_place(prefix, m as int);
        assert(all == before + added);
        assert forall|i: int| 0 <= i < all.len() implies {
            &&& i < before.len() ==> all[i] == before[i]
            &&& i >= before.len() ==> all[i] == added[i - before.len()] && warning_place(
                prefix,
                all[i],
            ) == m
        } by {}
        assert forall|w: WarningModel| #[trigger] all.contains(w) <==> {
            let k = warning_place(prefix, w);
            &&& 0 <= k < n
            &&& place_warnings(link, setting_keys(prefix)[k], k == 3).contains(w)
        } by {
            if all.contains(w) {
                let i = choose|i: int| 0 <= i < all.len() && all[i] == w;
                if i < before.len() {
                    assert(before[i] == w);
                    assert(before.contains(w));
                } else {
                    assert(added[i - before.len()] == w);
                    assert(added.contains(w));
                }
            }
            if before.contains(w) {
                let i = choose|i: int| 0 <= i < before.len() && before[i] == w;
                assert(all[i] == w);
            }
            if added.contains(w) {
                let i = choose|i: int| 0 <= i < added.len() && added[i] == w;
                assert(all[before.len() + i] == w);
            }
        }
    } else {
        assert forall|w: WarningModel| !(#[trigger] all_place_warnings(link, prefix, n).contains(
            w,
        )) by {}
    }
}

/// Every warning is given once: those of where a setting is found in the order of the settings,
/// then that of the pool size, then that of the port, or at their place that of missing settings.
pub proof fn law_warnings_come_in_order(prefix: Seq<char>, link: LinkConfig, i: int, j: int)
    requires
        0 <= i < j < link_warnings(prefix, link).len(),
    ensures
        warning_place(prefix, link_warnings(prefix, link)[i]) < warning_place(
            prefix,
            link_warnings(prefix, link)[j],
        ),
{
    let places = all_place_warnings(link, prefix, 7);
    let readings = reading_warnings(link, prefix);
    let all = link_warnings(prefix, link);
    lemma_places(link, prefix, 7);
    if j < places.len() {
        assert(all[i] == places[i] && all[j] == places[j]);
    } else {
        assert(all[j] == readings[j - places.len()]);
        if i < places.len() {
            assert(all[i] == places[i]);
        } else {
            assert(all[i] == readings[i - places.len()]);
        }
    }
}

/// A setting of a connection that is a text among the secrets and also a plain setting is warned of
/// by its key. So is a password that is a plain setting only.
pub proof fn law_misplaced_settings_are_warned_of(
    prefix: Seq<char>,
    link: LinkConfig,
    key: Seq<char>,
)
    ensures
        link_warnings(prefix, link).contains(WarningModel::SecretAlsoInConfig(key)) <==> {
            &&& setting_place(prefix, key) < 7
            &&& link.config@.contains_key(key)
            &&& link.secrets@.contains_key(key) && link.secrets@[key] is Text
        },
        link_warnings(prefix, link).contains(WarningModel::PasswordInConfig(key)) <==> {
            &&& key == prefix + "PASSWORD"@
            &&& link.config@.contains_key(key)
            &&& !(link.secrets@.contains_key(key) && link.secrets@[key] is Text)
        },
{
    let doubled = WarningModel::SecretAlsoInConfig(key);
    let plain = WarningModel::PasswordInConfig(key);
    lemma_parts(prefix, link, doubled);
    lemma_parts(prefix, link, plain);
    lemma_places(link, prefix, 7);
    let k = setting_place(prefix, key);
    lemma_setting_place(prefix, 3);
    assert(setting_keys(prefix)[3] == prefix + "PASSWORD"@);
    if k < 7 {
        assert(setting_keys(prefix)[k] == key);
        let said = place_warnings(link, key, k == 3);
        if said.len() > 0 {
            assert(said[0] == said.last());
            assert(said.contains(said[0]));
        }
        assert(forall|w: WarningModel| #[trigger] said.contains(w) ==> w == said[0]);
    }
}

/// A warning is one of where settings are found, or one of what they read.
proof fn lemma_parts(prefix: Seq<char>, link: LinkConfig, w: WarningModel)
    ensures
        link_warnings(prefix, link).contains(w) <==> all_place_warnings(link, prefix, 7).contains(w)
            || reading_warnings(link, prefix).contains(w),
{
    let places = all_place_warnings(link, prefix, 7);
    let readings = reading_warnings(link, prefix);
    let all = link_warnings(prefix, link);
    if all.contains(w) {
        let i = choose|i: int| 0 <= i < all.len() && all[i] == w;
        if i < places.len() {
            assert(places[i] == w);
        } else {
            assert(readings[i - places.len()] == w);
        }
    }
    if places.contains(w) {
        let i = choose|i: int| 0 <= i < places.len() && places[i] == w;
        assert(all[i] == w);
    }
    if readings.contains(w) {
        let i = choose|i: int| 0 <= i < readings.len() && readings[i] == w;
        assert(all[places.len() + i] == w);
    }
}

/// Where a connection comes out of the settings, a pool size or a port that writes no number is
/// warned of by its text. Where none comes out, neither is.
pub proof fn law_unreadable_numbers_are_warned_of(
    prefix: Seq<char>,
    link: LinkConfig,
    text: Seq<char>,
)
    ensures
        link_warnings(prefix, link).contains(WarningModel::InvalidPoolSize(text)) <==> {
            &&& conn_config(prefix, link) is Some
            &&& link.setting(prefix + "POOL_SIZE"@) == Some(text)
            &&& unsigned(text, usize::MAX as nat) is None
        },
        link_warnings(prefix, link).contains(WarningModel::InvalidPort(text)) <==> {
            &&& conn_config(prefix, link) is Some
            &&& link.setting(prefix + "PORT"@) == Some(text)
            &&& unsigned(text, 0xffff) is None
        },
{
    let keys = setting_keys(prefix);
    assert(keys[0] == prefix + "HOST"@);
    assert(keys[1] == prefix + "PORT"@);
    assert(keys[2] == prefix + "USERNAME"@);
    assert(keys[3] == prefix + "PASSWORD"@);
    assert(keys[4] == prefix + "DATABASE"@);
    assert(complete(link, prefix) <==> conn_config(prefix, link) is Some);
    lemma_parts(prefix, link, WarningModel::InvalidPoolSize(text));
    lemma_parts(prefix, link, WarningModel::InvalidPort(text));
    lemma_places(link, prefix, 7);
    let readings = reading_warnings(link, prefix);
    if readings.len() > 0 {
        assert(readings.contains(readings[0]));
    }
    if readings.len() > 1 {
        assert(readings.contains(readings[1]));
    }
    assert(readings.len() <= 2);
    assert(forall|w: WarningModel| #[trigger]
        readings.contains(w) ==> w == readings[0] || w == readings[1]);
}

/// A warning of missing settings lists the keys of all seven settings of a connection.
pub proof fn law_missing_keys_are_listed(
    prefix: Seq<char>,
    link: LinkConfig,
    keys: Seq<Seq<char>>,
)
    requires
        link_warnings(prefix, link).contains(WarningModel::MissingKeys(keys)),
    ensures
        keys == seq![
            prefix + "HOST"@,
            prefix + "PORT"@,
            prefix + "USERNAME"@,
            prefix + "PASSWORD"@,
            prefix + "DATABASE"@,
            prefix + "TLS_REQUIRED"@,
            prefix + "POOL_SIZE"@,
        ],
{
    lemma_parts(prefix, link, WarningModel::MissingKeys(keys));
    lemma_places(link, prefix, 7);
    assert(keys == setting_keys(prefix));
    assert(keys =~= seq![
        prefix + "HOST"@,
        prefix + "PORT"@,
        prefix + "USERNAME"@,
        prefix + "PASSWORD"@,
        prefix + "DATABASE"@,
        prefix + "TLS_REQUIRED"@,
        prefix + "POOL_SIZE"@,
    ]);
}

} // verus!
