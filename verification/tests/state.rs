use rust_compose::json::{Json, JsonMap};
use rust_compose::state::{
    compute_status, Backend, EffectiveState, Observed, ProviderConfigRef, SecretStackSpec,
    SecretStoreScope,
};

fn labels_of(m: &JsonMap) -> Vec<(String, Json)> {
    let mut out = Vec::new();
    for i in 0..m.len() {
        let (k, v) = m.get_index(i).unwrap();
        out.push((k.clone(), v.clone()));
    }
    out
}

#[test]
fn defaults_of_an_empty_spec() {
    let s = EffectiveState::from_spec(&SecretStackSpec::default());
    assert_eq!(s.name, "external-secrets");
    assert_eq!(s.cluster_name, "external-secrets");
    assert_eq!(s.namespace, "external-secrets");
    assert_eq!(s.management_policies, vec!["*".to_string()]);
    assert_eq!(s.backend, Backend::Aws);
    assert!(s.aws_enabled);
    assert!(!s.vault_enabled);
    assert!(!s.vault_install);
    assert_eq!(s.helm_release_name, "external-secrets");
    assert_eq!(s.helm_namespace, "external-secrets");
    assert_eq!(s.helm_provider, ProviderConfigRef::new("external-secrets", "ProviderConfig"));
    assert_eq!(s.k8s_provider, ProviderConfigRef::new("external-secrets", "ProviderConfig"));
    assert_eq!(s.aws_provider, ProviderConfigRef::new("default", "ProviderConfig"));
    assert_eq!(s.helm_values, Json::Object(JsonMap::new()));
    assert_eq!(s.vault_values, Json::Object(JsonMap::new()));
    assert!(s.helm_override_all.is_none());
    assert_eq!(s.aws_region, "");
    assert_eq!(s.vault_server, "");
    assert_eq!(s.vault_auth_method, "token");
    assert_eq!(s.vault_namespace, "vault");
    assert_eq!(s.vault_release_name, "vault");
    assert_eq!(s.vault_path, "secret");
    assert_eq!(s.vault_version, "v2");
    assert_eq!(s.vault_auth_mount_path, "kubernetes");
    assert_eq!(s.vault_auth_role, "external-secrets");
    assert_eq!(s.vault_token_secret_name, "vault-token");
    assert_eq!(s.vault_token_secret_key, "token");
    assert_eq!(s.vault_token_secret_namespace, "external-secrets");
    assert!(s.secret_store_enabled);
    assert_eq!(s.secret_store_scope, SecretStoreScope::Namespaced);
    assert_eq!(s.secret_store_name, "default");
    assert_eq!(s.pod_identity_name, "external-secrets-external-secrets");
    assert_eq!(s.service_account_name, "external-secrets");
    assert_eq!(s.service_account_namespace, "external-secrets");
    assert_eq!(
        labels_of(&s.labels),
        vec![
            ("hops.ops.com.ai/managed".to_string(), Json::text("true")),
            ("hops.ops.com.ai/secretstack".to_string(), Json::text("external-secrets")),
        ]
    );
}

#[test]
fn vault_install_defaults_server_and_kubernetes_auth() {
    let spec = SecretStackSpec {
        metadata_name: "es".into(),
        backend: Backend::Vault,
        vault_install: true,
        vault_namespace: Some("secrets".into()),
        ..Default::default()
    };
    let s = EffectiveState::from_spec(&spec);
    assert!(s.vault_install);
    assert!(s.vault_enabled);
    assert!(!s.aws_enabled);
    assert_eq!(s.vault_server, "http://vault.secrets.svc.cluster.local:8200");
    assert_eq!(s.vault_auth_method, "kubernetes");
    assert_eq!(s.cluster_name, "es");
    assert_eq!(s.pod_identity_name, "es-external-secrets");
}

#[test]
fn vault_install_needs_vault_backend() {
    let spec = SecretStackSpec { vault_install: true, ..Default::default() };
    let s = EffectiveState::from_spec(&spec);
    assert!(!s.vault_install);
    assert_eq!(s.vault_server, "");
    assert_eq!(s.vault_auth_method, "token");
}

#[test]
fn empty_vault_server_is_replaced() {
    let spec = SecretStackSpec {
        backend: Backend::Vault,
        vault_install: true,
        vault_server: Some("".into()),
        ..Default::default()
    };
    let s = EffectiveState::from_spec(&spec);
    assert_eq!(s.vault_server, "http://vault.vault.svc.cluster.local:8200");
    let spec2 = SecretStackSpec {
        backend: Backend::Vault,
        vault_install: true,
        vault_server: Some("https://v:8200".into()),
        vault_auth_method: Some("token".into()),
        ..Default::default()
    };
    let s2 = EffectiveState::from_spec(&spec2);
    assert_eq!(s2.vault_server, "https://v:8200");
    assert_eq!(s2.vault_auth_method, "token");
}

#[test]
fn user_labels_override_and_extend() {
    let mut labels = JsonMap::new();
    labels.insert("team".into(), Json::text("platform"));
    labels.insert("hops.ops.com.ai/managed".into(), Json::text("no"));
    let mut tags = JsonMap::new();
    tags.insert("cost".into(), Json::text("shared"));
    tags.insert("team".into(), Json::text("infra"));
    let spec = SecretStackSpec {
        metadata_name: "s".into(),
        labels,
        aws_tags: tags,
        management_policies: Some(vec!["Observe".into(), "Create".into()]),
        ..Default::default()
    };
    let s = EffectiveState::from_spec(&spec);
    assert_eq!(
        labels_of(&s.labels),
        vec![
            ("hops.ops.com.ai/managed".to_string(), Json::text("no")),
            ("hops.ops.com.ai/secretstack".to_string(), Json::text("s")),
            ("team".to_string(), Json::text("platform")),
        ]
    );
    assert_eq!(
        labels_of(&s.aws_tags),
        vec![
            ("hops.ops.com.ai/managed".to_string(), Json::text("no")),
            ("hops.ops.com.ai/secretstack".to_string(), Json::text("s")),
            ("team".to_string(), Json::text("infra")),
            ("cost".to_string(), Json::text("shared")),
        ]
    );
    assert_eq!(s.management_policies, vec!["Observe".to_string(), "Create".to_string()]);
}

#[test]
fn given_values_are_kept() {
    let spec = SecretStackSpec {
        namespace: Some("ns".into()),
        release_name: Some("eso".into()),
        helm_provider_name: Some("helm-pc".into()),
        k8s_provider_name: Some("k8s-pc".into()),
        cluster_name: "c".into(),
        values: Json::text("v"),
        override_all_values: Some(Json::Bool(true)),
        secret_store_scope: Some(SecretStoreScope::Cluster),
        secret_store_enabled: Some(false),
        vault_token_secret_namespace: Some("tok".into()),
        ..Default::default()
    };
    let s = EffectiveState::from_spec(&spec);
    assert_eq!(s.namespace, "ns");
    assert_eq!(s.helm_namespace, "ns");
    assert_eq!(s.service_account_namespace, "ns");
    assert_eq!(s.helm_release_name, "eso");
    assert_eq!(s.helm_provider.name, "helm-pc");
    assert_eq!(s.k8s_provider.name, "k8s-pc");
    assert_eq!(s.cluster_name, "c");
    assert_eq!(s.helm_values, Json::text("v"));
    assert_eq!(s.helm_override_all, Some(Json::Bool(true)));
    assert_eq!(s.secret_store_scope, SecretStoreScope::Cluster);
    assert!(!s.secret_store_enabled);
    assert_eq!(s.vault_token_secret_namespace, "tok");
}

#[test]
fn status_without_vault() {
    let s = EffectiveState::from_spec(&SecretStackSpec::default());
    let st = compute_status(&s, &Observed::bootstrap());
    assert!(!st.ready);
    assert_eq!(st.backend, Backend::Aws);
    assert_eq!(st.secret_store_name, "default");
    assert!(st.vault.is_none());
    assert_eq!(Observed::default(), Observed::bootstrap());
}
