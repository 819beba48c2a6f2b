use me_rpc::hot_reload::{
    hot_diff, hot_eq, warn_non_hot_changes, AccessConfig, CensorshipConfig, GeneralConfig,
    HotFields, LinksConfig, LogLevel, ModesConfig, NamedValue, NetworkConfig, NonHotChange,
    ProxyConfig, ServerConfig, UserSecret,
};

fn user(name: &str, secret: &str) -> UserSecret {
    UserSecret { name: name.to_string(), secret: secret.to_string() }
}

fn access(users: Vec<UserSecret>) -> AccessConfig {
    AccessConfig {
        users,
        user_max_tcp_conns: Vec::new(),
        user_expirations: Vec::new(),
        user_data_quota: Vec::new(),
        user_max_unique_ips: Vec::new(),
    }
}

fn config(port: u16, users: Vec<UserSecret>) -> ProxyConfig {
    ProxyConfig {
        general: GeneralConfig {
            log_level: LogLevel::Info,
            ad_tag: None,
            middle_proxy_pool_size: 2,
            me_keepalive_enabled: true,
            me_keepalive_interval_secs: 30,
            me_keepalive_jitter_secs: 5,
            me_keepalive_payload_random: false,
            use_middle_proxy: true,
            links: LinksConfig { public_host: None, public_port: None },
            modes: ModesConfig { classic: true, secure: true, tls: true },
        },
        server: ServerConfig { port },
        censorship: CensorshipConfig {
            tls_domain: "example.org".to_string(),
            tls_domains: Vec::new(),
        },
        network: NetworkConfig { ipv4: None, ipv6: None },
        access: access(users),
    }
}

#[test]
fn snapshot_copies_the_hot_fields() {
    let cfg = config(443, vec![user("alice", "aa"), user("bob", "bb")]);
    let hot = HotFields::from_config(&cfg);
    assert_eq!(hot.log_level, LogLevel::Info);
    assert_eq!(hot.middle_proxy_pool_size, 2);
    assert!(hot.me_keepalive_enabled);
    assert_eq!(hot.access.users.len(), 2);
    assert_eq!(hot.access.users[0].name, "alice");
    assert_eq!(hot.access.users[1].name, "bob");
}

#[test]
fn reload_diff_reports_added_and_resecreted_users() {
    let old_cfg = config(443, vec![user("alice", "old-secret")]);
    let new_cfg = config(443, vec![user("alice", "new-secret"), user("bob", "bb")]);
    let old_hot = HotFields::from_config(&old_cfg);
    let new_hot = HotFields::from_config(&new_cfg);
    assert!(!hot_eq(&old_hot, &new_hot));
    let d = hot_diff(&old_hot, &new_hot);
    assert_eq!(d.users_added, vec!["bob".to_string()]);
    assert!(d.users_removed.is_empty());
    assert_eq!(d.users_secret_changed, vec!["alice".to_string()]);
    assert!(!d.log_level_changed);
    assert!(!d.ad_tag_changed);
    assert!(!d.pool_size_changed);
    assert!(!d.keepalive_changed);
    // the fresh snapshot exposes both users
    assert_eq!(new_hot.access.users.len(), 2);
}

#[test]
fn reload_diff_reports_removed_users() {
    let old_hot = HotFields::from_config(&config(1, vec![user("a", "1"), user("b", "2")]));
    let new_hot = HotFields::from_config(&config(1, vec![user("b", "2")]));
    let d = hot_diff(&old_hot, &new_hot);
    assert_eq!(d.users_removed, vec!["a".to_string()]);
    assert!(d.users_added.is_empty());
    assert!(d.users_secret_changed.is_empty());
}

#[test]
fn non_hot_port_change_only_warns() {
    let old_cfg = config(443, vec![user("alice", "aa")]);
    let new_cfg = config(8443, vec![user("alice", "aa")]);
    let warns = warn_non_hot_changes(&old_cfg, &new_cfg);
    assert_eq!(warns, vec![NonHotChange::ServerPort]);
    // the hot snapshot has no port: changing it cannot rotate the snapshot
    let old_hot = HotFields::from_config(&old_cfg);
    let new_hot = HotFields::from_config(&new_cfg);
    assert!(hot_eq(&old_hot, &new_hot));
}

#[test]
fn non_hot_warnings_cover_each_field() {
    let base = config(1, Vec::new());
    let mut other = config(1, Vec::new());
    other.censorship.tls_domain = "changed.example".to_string();
    other.network.ipv4 = Some(0x7F00_0001);
    other.general.use_middle_proxy = false;
    let warns = warn_non_hot_changes(&base, &other);
    assert_eq!(
        warns,
        vec![
            NonHotChange::TlsDomain,
            NonHotChange::Network,
            NonHotChange::UseMiddleProxy
        ]
    );
    assert!(warn_non_hot_changes(&base, &config(1, Vec::new())).is_empty());
}

#[test]
fn scalar_hot_changes_are_flagged() {
    let mut new_cfg = config(1, Vec::new());
    new_cfg.general.log_level = LogLevel::Debug;
    new_cfg.general.middle_proxy_pool_size = 8;
    new_cfg.general.me_keepalive_interval_secs = 60;
    new_cfg.general.ad_tag = Some("feedbeef".to_string());
    let old_hot = HotFields::from_config(&config(1, Vec::new()));
    let new_hot = HotFields::from_config(&new_cfg);
    let d = hot_diff(&old_hot, &new_hot);
    assert!(d.log_level_changed);
    assert!(d.pool_size_changed);
    assert!(d.keepalive_changed);
    assert!(d.ad_tag_changed);
}

#[test]
fn quota_changes_are_flagged() {
    let mut new_cfg = config(1, vec![user("a", "1")]);
    new_cfg.access.user_data_quota.push(NamedValue {
        name: "a".to_string(),
        value: 1_000_000,
    });
    let old_hot = HotFields::from_config(&config(1, vec![user("a", "1")]));
    let new_hot = HotFields::from_config(&new_cfg);
    let d = hot_diff(&old_hot, &new_hot);
    assert!(d.data_quota_changed);
    assert!(!d.max_tcp_changed);
    assert!(!d.expirations_changed);
    assert!(!d.unique_ips_changed);
    assert!(d.users_added.is_empty());
}
