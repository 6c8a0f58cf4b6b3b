use std::sync::Arc;

use qdrant_registry::cluster::{
    api_key_env_var, cluster_from_external_name, cluster_variants, env_var_prefix_for_cluster,
    external_name, url_env_var, QdrantCluster, QdrantDataSourceConfig,
};
use qdrant_registry::env::EnvVars;
use qdrant_registry::registry::{QdrantBuildError, QdrantClients};

fn env_with(url: Option<&str>, api_key: Option<&str>) -> EnvVars {
    let mut env = EnvVars::new();
    if let Some(u) = url {
        env.set("QDRANT_MAIN_0_URL".to_string(), u.to_string());
    }
    if let Some(k) = api_key {
        env.set("QDRANT_MAIN_0_API_KEY".to_string(), k.to_string());
    }
    env
}

#[test]
fn cluster_enumeration_is_main0() {
    assert_eq!(cluster_variants(), vec![QdrantCluster::Main0]);
}

#[test]
fn env_var_prefix_of_main0() {
    assert_eq!(env_var_prefix_for_cluster(QdrantCluster::Main0), "QDRANT_MAIN_0");
}

#[test]
fn env_var_names_of_main0() {
    assert_eq!(url_env_var(QdrantCluster::Main0), "QDRANT_MAIN_0_URL");
    assert_eq!(api_key_env_var(QdrantCluster::Main0), "QDRANT_MAIN_0_API_KEY");
}

#[test]
fn external_name_round_trip() {
    assert_eq!(external_name(QdrantCluster::Main0), "main-0");
    assert_eq!(
        cluster_from_external_name(&"main-0".to_string()),
        Some(QdrantCluster::Main0)
    );
    assert_eq!(cluster_from_external_name(&"Main0".to_string()), None);
    assert_eq!(cluster_from_external_name(&"dedicated-0".to_string()), None);
    assert_eq!(cluster_from_external_name(&"".to_string()), None);
}

#[test]
fn env_vars_lookup() {
    let mut env = EnvVars::new();
    assert!(env.get(&"A".to_string()).is_none());
    env.set("A".to_string(), "1".to_string());
    env.set("B".to_string(), "2".to_string());
    assert_eq!(env.get(&"A".to_string()), Some(&"1".to_string()));
    assert_eq!(env.get(&"B".to_string()), Some(&"2".to_string()));
    assert!(env.get(&"C".to_string()).is_none());
    // A later entry for the same name overrides the earlier one.
    env.set("A".to_string(), "3".to_string());
    assert_eq!(env.get(&"A".to_string()), Some(&"3".to_string()));
}

#[test]
fn build_succeeds_with_both_vars() {
    let env = env_with(Some("http://x"), Some("k"));
    let clients = QdrantClients::build(&env).expect("build should succeed");
    // The handle for the enumerated cluster is registered and shared: both
    // lookups return the same underlying client.
    let a = clients.client(QdrantCluster::Main0);
    let b = clients.client(QdrantCluster::Main0);
    assert!(Arc::ptr_eq(&a, &b));
}

#[test]
fn build_fails_without_url() {
    let env = env_with(None, Some("k"));
    let err = QdrantClients::build(&env).err().expect("build must fail");
    assert!(matches!(err, QdrantBuildError::MissingUrl(QdrantCluster::Main0)));
    assert_eq!(err.cluster(), QdrantCluster::Main0);
}

#[test]
fn build_fails_without_api_key() {
    let env = env_with(Some("http://x"), None);
    let err = QdrantClients::build(&env).err().expect("build must fail");
    assert!(matches!(err, QdrantBuildError::MissingApiKey(QdrantCluster::Main0)));
    assert_eq!(err.cluster(), QdrantCluster::Main0);
}

#[test]
fn build_fails_without_any_vars() {
    let env = EnvVars::new();
    let err = QdrantClients::build(&env).err().expect("build must fail");
    // The URL is checked first.
    assert!(matches!(err, QdrantBuildError::MissingUrl(QdrantCluster::Main0)));
}

#[test]
fn build_reports_connection_error() {
    // Not a parsable URI: the client library refuses to construct a handle.
    let env = env_with(Some("this is not a uri"), Some("k"));
    let err = QdrantClients::build(&env).err().expect("build must fail");
    match err {
        QdrantBuildError::ConnectionError(cluster, cause) => {
            assert_eq!(cluster, QdrantCluster::Main0);
            assert!(!cause.is_empty());
        }
        other => panic!("expected a connection error, got {:?}", other),
    }
}

#[test]
fn main_client_defaults_to_main0() {
    let env = env_with(Some("http://x"), Some("k"));
    let clients = QdrantClients::build(&env).expect("build should succeed");
    let by_default = clients.main_client(&None);
    let by_id = clients.client(QdrantCluster::Main0);
    assert!(Arc::ptr_eq(&by_default, &by_id));
    // No configuration also means no shadow write.
    assert!(clients.shadow_write_client(&None).is_none());
}

#[test]
fn main_client_uses_configured_cluster() {
    let env = env_with(Some("http://x"), Some("k"));
    let clients = QdrantClients::build(&env).expect("build should succeed");
    let config = Some(QdrantDataSourceConfig {
        cluster: QdrantCluster::Main0,
        shadow_write_cluster: None,
    });
    let configured = clients.main_client(&config);
    let by_id = clients.client(QdrantCluster::Main0);
    assert!(Arc::ptr_eq(&configured, &by_id));
}

#[test]
fn shadow_write_cluster_projection() {
    let env = env_with(Some("http://x"), Some("k"));
    let clients = QdrantClients::build(&env).expect("build should succeed");
    let with_shadow = Some(QdrantDataSourceConfig {
        cluster: QdrantCluster::Main0,
        shadow_write_cluster: Some(QdrantCluster::Main0),
    });
    let without_shadow = Some(QdrantDataSourceConfig {
        cluster: QdrantCluster::Main0,
        shadow_write_cluster: None,
    });
    assert_eq!(
        clients.shadow_write_cluster(&with_shadow),
        Some(QdrantCluster::Main0)
    );
    assert_eq!(clients.shadow_write_cluster(&without_shadow), None);
    assert_eq!(clients.shadow_write_cluster(&None), None);
}

#[test]
fn shadow_write_client_consistent_with_cluster() {
    let env = env_with(Some("http://x"), Some("k"));
    let clients = QdrantClients::build(&env).expect("build should succeed");
    let with_shadow = Some(QdrantDataSourceConfig {
        cluster: QdrantCluster::Main0,
        shadow_write_cluster: Some(QdrantCluster::Main0),
    });
    let without_shadow = Some(QdrantDataSourceConfig {
        cluster: QdrantCluster::Main0,
        shadow_write_cluster: None,
    });
    let shadow = clients
        .shadow_write_client(&with_shadow)
        .expect("a shadow cluster is configured");
    assert!(Arc::ptr_eq(&shadow, &clients.client(QdrantCluster::Main0)));
    assert!(clients.shadow_write_client(&without_shadow).is_none());
    assert!(clients.shadow_write_client(&None).is_none());
}

#[test]
fn clone_shares_every_handle() {
    let env = env_with(Some("http://x"), Some("k"));
    let clients = QdrantClients::build(&env).expect("build should succeed");
    let cloned = clients.clone();
    assert!(Arc::ptr_eq(
        &clients.client(QdrantCluster::Main0),
        &cloned.client(QdrantCluster::Main0)
    ));
}
