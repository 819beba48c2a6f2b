//! The hot-reload view of the configuration.
//!
//! A reload parses the file anew and swaps a snapshot of the fields that
//! are safe to change without rebinding sockets: log level, ad tag, pool
//! size, keepalive knobs, and the whole access section.  Fields that
//! would need a restart are only reported.  The diff of the access users
//! — added, removed, secret changed — is computed here; logging it and
//! watching the file are the caller's work.

use vstd::prelude::*;

verus! {

/// The logging verbosity knob.
#[derive(Clone, Copy, Debug, PartialEq, Eq, Structural)]
pub enum LogLevel {
    Error,
    Warn,
    Info,
    Debug,
    Trace,
}

/// One user and the secret that admits them.
pub struct UserSecret {
    pub name: String,
    pub secret: String,
}

/// A per-user numeric setting.
pub struct NamedValue {
    pub name: String,
    pub value: u64,
}

/// The access section: users and their quotas.
pub struct AccessConfig {
    pub users: Vec<UserSecret>,
    pub user_max_tcp_conns: Vec<NamedValue>,
    pub user_expirations: Vec<NamedValue>,
    pub user_data_quota: Vec<NamedValue>,
    pub user_max_unique_ips: Vec<NamedValue>,
}

/// Where published proxy links should point.
pub struct LinksConfig {
    pub public_host: Option<String>,
    pub public_port: Option<u16>,
}

/// Which client-facing modes are served.
pub struct ModesConfig {
    pub classic: bool,
    pub secure: bool,
    pub tls: bool,
}

/// The general section.
pub struct GeneralConfig {
    pub log_level: LogLevel,
    pub ad_tag: Option<String>,
    pub middle_proxy_pool_size: usize,
    pub me_keepalive_enabled: bool,
    pub me_keepalive_interval_secs: u64,
    pub me_keepalive_jitter_secs: u64,
    pub me_keepalive_payload_random: bool,
    pub use_middle_proxy: bool,
    pub links: LinksConfig,
    pub modes: ModesConfig,
}

/// The listener section.
pub struct ServerConfig {
    pub port: u16,
}

/// The censorship-evasion section.
pub struct CensorshipConfig {
    pub tls_domain: String,
    pub tls_domains: Vec<String>,
}

/// The outbound-binding section.
pub struct NetworkConfig {
    pub ipv4: Option<u32>,
    pub ipv6: Option<u128>,
}

/// The whole configuration, as the watcher sees it.
pub struct ProxyConfig {
    pub general: GeneralConfig,
    pub server: ServerConfig,
    pub censorship: CensorshipConfig,
    pub network: NetworkConfig,
    pub access: AccessConfig,
}

/// The view of one user: name and secret as character sequences.
#[verifier::ext_equal]
pub struct UserView {
    pub name: Seq<char>,
    pub secret: Seq<char>,
}

/// The view of a per-user numeric setting.
#[verifier::ext_equal]
pub struct NamedView {
    pub name: Seq<char>,
    pub value: u64,
}

/// The view of one user.
pub open spec fn user_view(u: UserSecret) -> UserView {
    UserView { name: u.name@, secret: u.secret@ }
}

/// The view of a user list.
pub open spec fn users_view(v: Seq<UserSecret>) -> Seq<UserView> {
    v.map_values(|u: UserSecret| user_view(u))
}

/// The view of a per-user numeric setting list.
pub open spec fn named_view(v: Seq<NamedValue>) -> Seq<NamedView> {
    v.map_values(|nv: NamedValue| (NamedView { name: nv.name@, value: nv.value }))
}

/// The view of an optional string.
pub open spec fn opt_string_view(o: Option<String>) -> Option<Seq<char>> {
    match o {
        Some(s) => Some(s@),
        None => None,
    }
}

/// The access section as plain values.
#[verifier::ext_equal]
pub struct AccessView {
    pub users: Seq<UserView>,
    pub user_max_tcp_conns: Seq<NamedView>,
    pub user_expirations: Seq<NamedView>,
    pub user_data_quota: Seq<NamedView>,
    pub user_max_unique_ips: Seq<NamedView>,
}

/// The view of an access section.
pub open spec fn access_view(a: AccessConfig) -> AccessView {
    AccessView {
        users: users_view(a.users@),
        user_max_tcp_conns: named_view(a.user_max_tcp_conns@),
        user_expirations: named_view(a.user_expirations@),
        user_data_quota: named_view(a.user_data_quota@),
        user_max_unique_ips: named_view(a.user_max_unique_ips@),
    }
}

/// The hot fields as plain values.
pub struct HotView {
    pub log_level: LogLevel,
    pub ad_tag: Option<Seq<char>>,
    pub middle_proxy_pool_size: usize,
    pub me_keepalive_enabled: bool,
    pub me_keepalive_interval_secs: u64,
    pub me_keepalive_jitter_secs: u64,
    pub me_keepalive_payload_random: bool,
    pub access: AccessView,
}

/// Fields that are safe to swap without restarting listeners.
pub struct HotFields {
    pub log_level: LogLevel,
    pub ad_tag: Option<String>,
    pub middle_proxy_pool_size: usize,
    pub me_keepalive_enabled: bool,
    pub me_keepalive_interval_secs: u64,
    pub me_keepalive_jitter_secs: u64,
    pub me_keepalive_payload_random: bool,
    pub access: AccessConfig,
}

/// The view of a hot-field snapshot.
pub open spec fn hot_view(h: HotFields) -> HotView {
    HotView {
        log_level: h.log_level,
        ad_tag: opt_string_view(h.ad_tag),
        middle_proxy_pool_size: h.middle_proxy_pool_size,
        me_keepalive_enabled: h.me_keepalive_enabled,
        me_keepalive_interval_secs: h.me_keepalive_interval_secs,
        me_keepalive_jitter_secs: h.me_keepalive_jitter_secs,
        me_keepalive_payload_random: h.me_keepalive_payload_random,
        access: access_view(h.access),
    }
}

/// The hot fields a configuration carries.
pub open spec fn config_hot_view(cfg: ProxyConfig) -> HotView {
    HotView {
        log_level: cfg.general.log_level,
        ad_tag: opt_string_view(cfg.general.ad_tag),
        middle_proxy_pool_size: cfg.general.middle_proxy_pool_size,
        me_keepalive_enabled: cfg.general.me_keepalive_enabled,
        me_keepalive_interval_secs: cfg.general.me_keepalive_interval_secs,
        me_keepalive_jitter_secs: cfg.general.me_keepalive_jitter_secs,
        me_keepalive_payload_random: cfg.general.me_keepalive_payload_random,
        access: access_view(cfg.access),
    }
}

fn clone_opt_string(o: &Option<String>) -> (r: Option<String>)
    ensures
        opt_string_view(r) == opt_string_view(*o),
{
    match o {
        Some(s) => Some(s.clone()),
        None => None,
    }
}

fn clone_users(v: &Vec<UserSecret>) -> (r: Vec<UserSecret>)
    ensures
        users_view(r@) == users_view(v@),
{
    let mut r: Vec<UserSecret> = Vec::new();
    let n = v.len();
    let mut i: usize = 0;
    while i < n
        invariant
            i <= n,
            n == v@.len(),
            r@.len() == i,
            users_view(r@) == users_view(v@.take(i as int)),
        decreases n - i,
    {
        let u = UserSecret { name: v[i].name.clone(), secret: v[i].secret.clone() };
        let prev = Ghost(r@);
        r.push(u);
        i = i + 1;
        assert forall|j: int| 0 <= j < i implies users_view(r@)[j] == users_view(
            v@.take(i as int),
        )[j] by {
            assert(v@.take(i as int)[j] == v@[j]);
            if j < i - 1 {
                assert(r@[j] == prev@[j]);
                assert(users_view(prev@)[j] == users_view(v@.take(i as int - 1))[j]);
                assert(v@.take(i as int - 1)[j] == v@[j]);
            } else {
                assert(r@[j] == u);
            }
        }
        assert(users_view(r@) =~~= users_view(v@.take(i as int)));
    }
    assert(v@.take(n as int) =~= v@);
    r
}

fn clone_named(v: &Vec<NamedValue>) -> (r: Vec<NamedValue>)
    ensures
        named_view(r@) == named_view(v@),
{
    let mut r: Vec<NamedValue> = Vec::new();
    let n = v.len();
    let mut i: usize = 0;
    while i < n
        invariant
            i <= n,
            n == v@.len(),
            r@.len() == i,
            named_view(r@) == named_view(v@.take(i as int)),
        decreases n - i,
    {
        let nv = NamedValue { name: v[i].name.clone(), value: v[i].value };
        let prev = Ghost(r@);
        r.push(nv);
        i = i + 1;
        assert forall|j: int| 0 <= j < i implies named_view(r@)[j] == named_view(
            v@.take(i as int),
        )[j] by {
            assert(v@.take(i as int)[j] == v@[j]);
            if j < i - 1 {
                assert(r@[j] == prev@[j]);
                assert(named_view(prev@)[j] == named_view(v@.take(i as int - 1))[j]);
                assert(v@.take(i as int - 1)[j] == v@[j]);
            } else {
                assert(r@[j] == nv);
            }
        }
        assert(named_view(r@) =~~= named_view(v@.take(i as int)));
    }
    assert(v@.take(n as int) =~= v@);
    r
}

fn clone_access(a: &AccessConfig) -> (r: AccessConfig)
    ensures
        access_view(r) == access_view(*a),
{
    AccessConfig {
        users: clone_users(&a.users),
        user_max_tcp_conns: clone_named(&a.user_max_tcp_conns),
        user_expirations: clone_named(&a.user_expirations),
        user_data_quota: clone_named(&a.user_data_quota),
        user_max_unique_ips: clone_named(&a.user_max_unique_ips),
    }
}

impl HotFields {
    /// Take the hot fields out of a configuration snapshot.
    pub fn from_config(cfg: &ProxyConfig) -> (r: HotFields)
        ensures
            hot_view(r) == config_hot_view(*cfg),
    {
        HotFields {
            log_level: cfg.general.log_level,
            ad_tag: clone_opt_string(&cfg.general.ad_tag),
            middle_proxy_pool_size: cfg.general.middle_proxy_pool_size,
            me_keepalive_enabled: cfg.general.me_keepalive_enabled,
            me_keepalive_interval_secs: cfg.general.me_keepalive_interval_secs,
            me_keepalive_jitter_secs: cfg.general.me_keepalive_jitter_secs,
            me_keepalive_payload_random: cfg.general.me_keepalive_payload_random,
            access: clone_access(&cfg.access),
        }
    }
}

/// A configuration change that cannot be applied without a restart.
#[derive(Clone, Copy, Debug, PartialEq, Eq, Structural)]
pub enum NonHotChange {
    /// The listener port changed.
    ServerPort,
    /// The fronting TLS domain changed.
    TlsDomain,
    /// The outbound bindings changed.
    Network,
    /// The middle-proxy toggle changed.
    UseMiddleProxy,
}

/// Which non-hot fields differ between two configurations, in a fixed
/// order: port, TLS domain, network bindings, middle-proxy toggle.
pub open spec fn non_hot_changes_spec(old_cfg: ProxyConfig, new_cfg: ProxyConfig) -> Seq<
    NonHotChange,
> {
    (if old_cfg.server.port != new_cfg.server.port {
        seq![NonHotChange::ServerPort]
    } else {
        Seq::empty()
    }) + (if old_cfg.censorship.tls_domain@ != new_cfg.censorship.tls_domain@ {
        seq![NonHotChange::TlsDomain]
    } else {
        Seq::empty()
    }) + (if old_cfg.network.ipv4 != new_cfg.network.ipv4 || old_cfg.network.ipv6
        != new_cfg.network.ipv6 {
        seq![NonHotChange::Network]
    } else {
        Seq::empty()
    }) + (if old_cfg.general.use_middle_proxy != new_cfg.general.use_middle_proxy {
        seq![NonHotChange::UseMiddleProxy]
    } else {
        Seq::empty()
    })
}

/// Report the non-hot fields that changed, for the caller to warn about:
/// each needs a restart and is not applied.
pub fn warn_non_hot_changes(old_cfg: &ProxyConfig, new_cfg: &ProxyConfig) -> (r: Vec<NonHotChange>)
    ensures
        r@ == non_hot_changes_spec(*old_cfg, *new_cfg),
{
    let mut r: Vec<NonHotChange> = Vec::new();
    if old_cfg.server.port != new_cfg.server.port {
        r.push(NonHotChange::ServerPort);
    }
    if !(old_cfg.censorship.tls_domain == new_cfg.censorship.tls_domain) {
        r.push(NonHotChange::TlsDomain);
    }
    let v4_eq = match (&old_cfg.network.ipv4, &new_cfg.network.ipv4) {
        (Some(a), Some(b)) => *a == *b,
        (None, None) => true,
        _ => false,
    };
    let v6_eq = match (&old_cfg.network.ipv6, &new_cfg.network.ipv6) {
        (Some(a), Some(b)) => *a == *b,
        (None, None) => true,
        _ => false,
    };
    if !v4_eq || !v6_eq {
        r.push(NonHotChange::Network);
    }
    if old_cfg.general.use_middle_proxy != new_cfg.general.use_middle_proxy {
        r.push(NonHotChange::UseMiddleProxy);
    }
    assert(r@ =~= non_hot_changes_spec(*old_cfg, *new_cfg));
    r
}

/// Whether some user in `users` bears `name`.
pub open spec fn has_name(users: Seq<UserView>, name: Seq<char>) -> bool {
    exists|i: int| 0 <= i < users.len() && users[i].name == name
}

/// The secret of the first user bearing `name`, if any.
pub open spec fn secret_of(users: Seq<UserView>, name: Seq<char>) -> Option<Seq<char>>
    decreases users.len(),
{
    if users.len() == 0 {
        None
    } else if users[0].name == name {
        Some(users[0].secret)
    } else {
        secret_of(users.drop_first(), name)
    }
}

/// The names of `newu` that `oldu` lacks, in `newu`'s order.
pub open spec fn added_names(oldu: Seq<UserView>, newu: Seq<UserView>) -> Seq<Seq<char>>
    decreases newu.len(),
{
    if newu.len() == 0 {
        Seq::empty()
    } else {
        added_names(oldu, newu.drop_last()) + (if !has_name(oldu, newu.last().name) {
            seq![newu.last().name]
        } else {
            Seq::empty()
        })
    }
}

/// The names present in both lists whose secret differs, in `newu`'s
/// order.
pub open spec fn secret_changed_names(oldu: Seq<UserView>, newu: Seq<UserView>) -> Seq<Seq<char>>
    decreases newu.len(),
{
    if newu.len() == 0 {
        Seq::empty()
    } else {
        secret_changed_names(oldu, newu.drop_last()) + (match secret_of(oldu, newu.last().name) {
            Some(s) => if s != newu.last().secret {
                seq![newu.last().name]
            } else {
                Seq::empty()
            },
            None => Seq::empty(),
        })
    }
}

/// The per-user diff of a reload.
pub struct HotDiff {
    pub log_level_changed: bool,
    pub ad_tag_changed: bool,
    pub pool_size_changed: bool,
    pub keepalive_changed: bool,
    pub users_added: Vec<String>,
    pub users_removed: Vec<String>,
    pub users_secret_changed: Vec<String>,
    pub max_tcp_changed: bool,
    pub expirations_changed: bool,
    pub data_quota_changed: bool,
    pub unique_ips_changed: bool,
}

fn string_in_users(users: &Vec<UserSecret>, name: &String) -> (r: bool)
    ensures
        r == has_name(users_view(users@), name@),
{
    let n = users.len();
    let mut i: usize = 0;
    while i < n
        invariant
            i <= n,
            n == users@.len(),
            forall|j: int| 0 <= j < i ==> users_view(users@)[j].name != name@,
        decreases n - i,
    {
        if users[i].name == *name {
            assert(users_view(users@)[i as int].name == name@);
            return true;
        }
        i = i + 1;
    }
    assert(!has_name(users_view(users@), name@));
    false
}

fn secret_in_users<'a>(users: &'a Vec<UserSecret>, name: &String) -> (r: Option<&'a String>)
    ensures
        (r matches Some(s) ==> secret_of(users_view(users@), name@) == Some(s@)),
        (r matches None ==> secret_of(users_view(users@), name@) matches None),
{
    let n = users.len();
    let mut i: usize = 0;
    assert(users_view(users@).skip(0) =~= users_view(users@));
    while i < n
        invariant
            i <= n,
            n == users@.len(),
            secret_of(users_view(users@), name@) == secret_of(
                users_view(users@).skip(i as int),
                name@,
            ),
        decreases n - i,
    {
        proof {
            assert(users_view(users@).skip(i as int)[0] == users_view(users@)[i as int]);
        }
        if users[i].name == *name {
            assert(secret_of(users_view(users@).skip(i as int), name@) == Some(
                users_view(users@)[i as int].secret,
            ));
            return Some(&users[i].secret);
        }
        proof {
            assert(users_view(users@).skip(i as int).drop_first() =~= users_view(users@).skip(
                i as int + 1,
            ));
        }
        i = i + 1;
    }
    proof {
        assert(users_view(users@).skip(n as int) =~= Seq::<UserView>::empty());
    }
    None
}

fn named_eq(a: &Vec<NamedValue>, b: &Vec<NamedValue>) -> (r: bool)
    ensures
        r == (named_view(a@) == named_view(b@)),
{
    let n = a.len();
    if n != b.len() {
        assert(named_view(a@).len() != named_view(b@).len());
        return false;
    }
    let mut i: usize = 0;
    while i < n
        invariant
            i <= n,
            n == a@.len(),
            n == b@.len(),
            forall|j: int| 0 <= j < i ==> named_view(a@)[j] == named_view(b@)[j],
        decreases n - i,
    {
        if !(a[i].name == b[i].name) || a[i].value != b[i].value {
            assert(named_view(a@)[i as int] != named_view(b@)[i as int]);
            return false;
        }
        i = i + 1;
    }
    assert(named_view(a@) =~= named_view(b@));
    true
}

/// Whether two hot-field snapshots carry the same values; a reload whose
/// snapshots agree is skipped.
pub fn hot_eq(a: &HotFields, b: &HotFields) -> (r: bool)
    ensures
        r == (hot_view(*a) == hot_view(*b)),
{
    let scalars = a.log_level == b.log_level && a.middle_proxy_pool_size
        == b.middle_proxy_pool_size && a.me_keepalive_enabled == b.me_keepalive_enabled
        && a.me_keepalive_interval_secs == b.me_keepalive_interval_secs
        && a.me_keepalive_jitter_secs == b.me_keepalive_jitter_secs
        && a.me_keepalive_payload_random == b.me_keepalive_payload_random;
    if !scalars {
        return false;
    }
    let tag_eq = match (&a.ad_tag, &b.ad_tag) {
        (Some(x), Some(y)) => *x == *y,
        (None, None) => true,
        _ => false,
    };
    if !tag_eq {
        return false;
    }
    let ua = users_eq(&a.access.users, &b.access.users);
    if !ua {
        return false;
    }
    if !named_eq(&a.access.user_max_tcp_conns, &b.access.user_max_tcp_conns) {
        return false;
    }
    if !named_eq(&a.access.user_expirations, &b.access.user_expirations) {
        return false;
    }
    if !named_eq(&a.access.user_data_quota, &b.access.user_data_quota) {
        return false;
    }
    if !named_eq(&a.access.user_max_unique_ips, &b.access.user_max_unique_ips) {
        return false;
    }
    true
}

fn users_eq(a: &Vec<UserSecret>, b: &Vec<UserSecret>) -> (r: bool)
    ensures
        r == (users_view(a@) == users_view(b@)),
{
    let n = a.len();
    if n != b.len() {
        assert(users_view(a@).len() != users_view(b@).len());
        return false;
    }
    let mut i: usize = 0;
    while i < n
        invariant
            i <= n,
            n == a@.len(),
            n == b@.len(),
            forall|j: int| 0 <= j < i ==> users_view(a@)[j] == users_view(b@)[j],
        decreases n - i,
    {
        if !(a[i].name == b[i].name) || !(a[i].secret == b[i].secret) {
            assert(users_view(a@)[i as int] != users_view(b@)[i as int]);
            return false;
        }
        i = i + 1;
    }
    assert(users_view(a@) =~= users_view(b@));
    true
}

/// Compute the diff of two hot-field snapshots: which scalar knobs
/// changed, and the users added, removed, and re-secreted, each in the
/// order of the list they come from.
pub fn hot_diff(old_hot: &HotFields, new_hot: &HotFields) -> (r: HotDiff)
    ensures
        r.log_level_changed == (old_hot.log_level != new_hot.log_level),
        r.ad_tag_changed == (opt_string_view(old_hot.ad_tag) != opt_string_view(new_hot.ad_tag)),
        r.pool_size_changed == (old_hot.middle_proxy_pool_size != new_hot.middle_proxy_pool_size),
        r.keepalive_changed == (old_hot.me_keepalive_enabled != new_hot.me_keepalive_enabled
            || old_hot.me_keepalive_interval_secs != new_hot.me_keepalive_interval_secs
            || old_hot.me_keepalive_jitter_secs != new_hot.me_keepalive_jitter_secs
            || old_hot.me_keepalive_payload_random != new_hot.me_keepalive_payload_random),
        r.users_added@.map_values(|s: String| s@) == added_names(
            users_view(old_hot.access.users@),
            users_view(new_hot.access.users@),
        ),
        r.users_removed@.map_values(|s: String| s@) == added_names(
            users_view(new_hot.access.users@),
            users_view(old_hot.access.users@),
        ),
        r.users_secret_changed@.map_values(|s: String| s@) == secret_changed_names(
            users_view(old_hot.access.users@),
            users_view(new_hot.access.users@),
        ),
        r.max_tcp_changed == (named_view(old_hot.access.user_max_tcp_conns@) != named_view(
            new_hot.access.user_max_tcp_conns@,
        )),
        r.expirations_changed == (named_view(old_hot.access.user_expirations@) != named_view(
            new_hot.access.user_expirations@,
        )),
        r.data_quota_changed == (named_view(old_hot.access.user_data_quota@) != named_view(
            new_hot.access.user_data_quota@,
        )),
        r.unique_ips_changed == (named_view(old_hot.access.user_max_unique_ips@) != named_view(
            new_hot.access.user_max_unique_ips@,
        )),
{
    let tag_eq = match (&old_hot.ad_tag, &new_hot.ad_tag) {
        (Some(x), Some(y)) => *x == *y,
        (None, None) => true,
        _ => false,
    };
    let mut users_added: Vec<String> = Vec::new();
    let oldu = &old_hot.access.users;
    let newu = &new_hot.access.users;
    let n_new = newu.len();
    let mut i: usize = 0;
    while i < n_new
        invariant
            i <= n_new,
            n_new == newu@.len(),
            users_added@.map_values(|s: String| s@) == added_names(
                users_view(oldu@),
                users_view(newu@).take(i as int),
            ),
        decreases n_new - i,
    {
        proof {
            assert(users_view(newu@).take(i as int + 1).drop_last() =~= users_view(newu@).take(
                i as int,
            ));
            assert(users_view(newu@).take(i as int + 1).last() == users_view(newu@)[i as int]);
        }
        if !string_in_users(oldu, &newu[i].name) {
            users_added.push(newu[i].name.clone());
        }
        i = i + 1;
        assert(users_added@.map_values(|s: String| s@) =~= added_names(
            users_view(oldu@),
            users_view(newu@).take(i as int),
        ));
    }
    assert(users_view(newu@).take(n_new as int) =~= users_view(newu@));
    let mut users_removed: Vec<String> = Vec::new();
    let n_old = oldu.len();
    let mut i2: usize = 0;
    while i2 < n_old
        invariant
            i2 <= n_old,
            n_old == oldu@.len(),
            users_removed@.map_values(|s: String| s@) == added_names(
                users_view(newu@),
                users_view(oldu@).take(i2 as int),
            ),
        decreases n_old - i2,
    {
        proof {
            assert(users_view(oldu@).take(i2 as int + 1).drop_last() =~= users_view(oldu@).take(
                i2 as int,
            ));
            assert(users_view(oldu@).take(i2 as int + 1).last() == users_view(oldu@)[i2 as int]);
        }
        if !string_in_users(newu, &oldu[i2].name) {
            users_removed.push(oldu[i2].name.clone());
        }
        i2 = i2 + 1;
        assert(users_removed@.map_values(|s: String| s@) =~= added_names(
            users_view(newu@),
            users_view(oldu@).take(i2 as int),
        ));
    }
    assert(users_view(oldu@).take(n_old as int) =~= users_view(oldu@));
    let mut users_secret_changed: Vec<String> = Vec::new();
    let mut i3: usize = 0;
    while i3 < n_new
        invariant
            i3 <= n_new,
            n_new == newu@.len(),
            users_secret_changed@.map_values(|s: String| s@) == secret_changed_names(
                users_view(oldu@),
                users_view(newu@).take(i3 as int),
            ),
        decreases n_new - i3,
    {
        proof {
            assert(users_view(newu@).take(i3 as int + 1).drop_last() =~= users_view(newu@).take(
                i3 as int,
            ));
            assert(users_view(newu@).take(i3 as int + 1).last() == users_view(newu@)[i3 as int]);
        }
        match secret_in_users(oldu, &newu[i3].name) {
            Some(old_secret) => {
                if !(*old_secret == newu[i3].secret) {
                    users_secret_changed.push(newu[i3].name.clone());
                }
            },
            None => {
            },
        }
        i3 = i3 + 1;
        assert(users_secret_changed@.map_values(|s: String| s@) =~= secret_changed_names(
            users_view(oldu@),
            users_view(newu@).take(i3 as int),
        ));
    }
    HotDiff {
        log_level_changed: !(old_hot.log_level == new_hot.log_level),
        ad_tag_changed: !tag_eq,
        pool_size_changed: old_hot.middle_proxy_pool_size != new_hot.middle_proxy_pool_size,
        keepalive_changed: old_hot.me_keepalive_enabled != new_hot.me_keepalive_enabled
            || old_hot.me_keepalive_interval_secs != new_hot.me_keepalive_interval_secs
            || old_hot.me_keepalive_jitter_secs != new_hot.me_keepalive_jitter_secs
            || old_hot.me_keepalive_payload_random != new_hot.me_keepalive_payload_random,
        users_added,
        users_removed,
        users_secret_changed,
        max_tcp_changed: !named_eq(&old_hot.access.user_max_tcp_conns, &new_hot.access.user_max_tcp_conns),
        expirations_changed: !named_eq(&old_hot.access.user_expirations, &new_hot.access.user_expirations),
        data_quota_changed: !named_eq(&old_hot.access.user_data_quota, &new_hot.access.user_data_quota),
        unique_ips_changed: !named_eq(&old_hot.access.user_max_unique_ips, &new_hot.access.user_max_unique_ips),
    }
}

} // verus!
