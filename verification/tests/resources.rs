use rust_compose::json::{Json, JsonMap};
use rust_compose::resources::{
    helm_external_secrets, helm_vault, pod_identity, secret_store_object,
    usage_pod_identity_protects_until_helm_gone, usage_secret_store_before_eso_helm,
    usage_secret_store_before_vault, ESO_CHART_VERSION, VAULT_CHART_VERSION,
};
use rust_compose::state::{Backend, EffectiveState, SecretStackSpec, SecretStoreScope};

fn at<'a>(j: &'a Json, path: &[&str]) -> &'a Json {
    let mut cur = j;
    for k in path {
        match cur {
            Json::Object(m) => cur = m.get(k).unwrap_or_else(|| panic!("missing {k}")),
            _ => panic!("not an object at {k}"),
        }
    }
    cur
}

fn has(j: &Json, path: &[&str], key: &str) -> bool {
    match at(j, path) {
        Json::Object(m) => m.get(key).is_some(),
        _ => false,
    }
}

fn obj(members: &[(&str, Json)]) -> Json {
    let mut m = JsonMap::new();
    for (k, v) in members {
        m.insert(k.to_string(), v.clone());
    }
    Json::Object(m)
}

fn aws_state() -> EffectiveState {
    EffectiveState::from_spec(&SecretStackSpec {
        metadata_name: "es".into(),
        cluster_name: "prod".into(),
        aws_region: Some("us-west-2".into()),
        aws_role_prefix: Some("prod-".into()),
        ..Default::default()
    })
}

fn vault_state(scope: SecretStoreScope, method: Option<&str>) -> EffectiveState {
    EffectiveState::from_spec(&SecretStackSpec {
        metadata_name: "es".into(),
        backend: Backend::Vault,
        vault_install: true,
        secret_store_scope: Some(scope),
        vault_auth_method: method.map(|m| m.to_string()),
        ..Default::default()
    })
}

#[test]
fn eso_release_document() {
    let s = aws_state();
    let r = helm_external_secrets(&s);
    assert_eq!(at(&r, &["apiVersion"]), &Json::text("helm.m.crossplane.io/v1beta1"));
    assert_eq!(at(&r, &["kind"]), &Json::text("Release"));
    assert_eq!(at(&r, &["metadata", "name"]), &Json::text("external-secrets"));
    assert_eq!(
        at(&r, &["metadata", "annotations", "crossplane.io/composition-resource-name"]),
        &Json::text("helm-external-secrets")
    );
    assert_eq!(at(&r, &["spec", "forProvider", "chart", "version"]), &Json::text(ESO_CHART_VERSION));
    assert_eq!(at(&r, &["spec", "rollbackLimit"]), &Json::Number("3".into()));
    assert_eq!(at(&r, &["spec", "managementPolicies"]), &Json::Array(vec![Json::text("*")]));
    assert_eq!(at(&r, &["spec", "providerConfigRef", "name"]), &Json::text("prod"));
    assert_eq!(
        at(&r, &["spec", "forProvider", "values", "webhook", "resources", "limits", "memory"]),
        &Json::text("256Mi")
    );
    assert_eq!(
        at(&r, &["spec", "forProvider", "values", "serviceAccount", "name"]),
        &Json::text("external-secrets")
    );
}

#[test]
fn eso_values_merge_and_override() {
    let mut spec = SecretStackSpec {
        values: obj(&[("serviceAccount", obj(&[("name", Json::text("custom"))])), ("replicaCount", Json::Number("2".into()))]),
        ..Default::default()
    };
    let s = EffectiveState::from_spec(&spec);
    let r = helm_external_secrets(&s);
    let values = at(&r, &["spec", "forProvider", "values"]);
    assert_eq!(at(values, &["serviceAccount", "name"]), &Json::text("custom"));
    assert_eq!(at(values, &["serviceAccount", "create"]), &Json::Bool(true));
    assert_eq!(at(values, &["replicaCount"]), &Json::Number("2".into()));

    spec.override_all_values = Some(obj(&[("only", Json::Bool(true))]));
    let s2 = EffectiveState::from_spec(&spec);
    let r2 = helm_external_secrets(&s2);
    assert_eq!(at(&r2, &["spec", "forProvider", "values"]), &obj(&[("only", Json::Bool(true))]));
}

#[test]
fn vault_release_document() {
    let s = vault_state(SecretStoreScope::Cluster, None);
    let r = helm_vault(&s);
    assert_eq!(at(&r, &["metadata", "name"]), &Json::text("vault"));
    assert_eq!(at(&r, &["spec", "forProvider", "chart", "version"]), &Json::text(VAULT_CHART_VERSION));
    assert_eq!(at(&r, &["spec", "forProvider", "namespace"]), &Json::text("vault"));
    assert_eq!(at(&r, &["spec", "forProvider", "values", "server", "dev", "enabled"]), &Json::Bool(true));
    assert_eq!(at(&r, &["spec", "forProvider", "values", "injector", "enabled"]), &Json::Bool(false));
}

#[test]
fn pod_identity_document() {
    let s = aws_state();
    let r = pod_identity(&s);
    assert_eq!(at(&r, &["kind"]), &Json::text("PodIdentity"));
    assert_eq!(at(&r, &["metadata", "name"]), &Json::text("es-external-secrets"));
    assert_eq!(at(&r, &["spec", "clusterName"]), &Json::text("prod"));
    assert_eq!(at(&r, &["spec", "region"]), &Json::text("us-west-2"));
    assert_eq!(at(&r, &["spec", "rolePrefix"]), &Json::text("prod-"));
    assert!(!has(&r, &["spec"], "permissionsBoundaryArn"));
    assert_eq!(at(&r, &["spec", "serviceAccount", "namespace"]), &Json::text("external-secrets"));
    assert_eq!(at(&r, &["spec", "tags", "hops.ops.com.ai/secretstack"]), &Json::text("es"));
}

#[test]
fn pod_identity_without_prefix_with_boundary() {
    let s = EffectiveState::from_spec(&SecretStackSpec {
        aws_permissions_boundary_arn: Some("arn:b".into()),
        ..Default::default()
    });
    let r = pod_identity(&s);
    assert!(!has(&r, &["spec"], "rolePrefix"));
    assert_eq!(at(&r, &["spec", "permissionsBoundaryArn"]), &Json::text("arn:b"));
}

#[test]
fn usage_documents() {
    let s = aws_state();
    let u = usage_pod_identity_protects_until_helm_gone(&s);
    assert_eq!(at(&u, &["metadata", "name"]), &Json::text("es-delete-helm-eso-before-pod-identity"));
    assert_eq!(at(&u, &["spec", "of", "resourceRef", "name"]), &Json::text("es-external-secrets"));
    assert_eq!(at(&u, &["spec", "by", "resourceRef", "name"]), &Json::text("external-secrets"));
    assert_eq!(at(&u, &["spec", "replayDeletion"]), &Json::Bool(true));

    let h = usage_secret_store_before_eso_helm(&s);
    assert_eq!(at(&h, &["metadata", "name"]), &Json::text("es-delete-secret-store-before-helm"));
    assert_eq!(at(&h, &["spec", "by", "resourceRef", "name"]), &Json::text("es-secret-store"));

    let v = vault_state(SecretStoreScope::Cluster, None);
    let uv = usage_secret_store_before_vault(&v);
    assert_eq!(at(&uv, &["metadata", "name"]), &Json::text("es-delete-secret-store-before-vault"));
    assert_eq!(at(&uv, &["spec", "of", "resourceRef", "name"]), &Json::text("vault"));
    assert_eq!(at(&uv, &["spec", "by", "resourceRef", "name"]), &Json::text("es-cluster-secret-store"));
}

#[test]
fn aws_secret_store_document() {
    let s = aws_state();
    let r = secret_store_object(&s);
    assert_eq!(at(&r, &["metadata", "name"]), &Json::text("es-secret-store"));
    let m = at(&r, &["spec", "forProvider", "manifest"]);
    assert_eq!(at(m, &["kind"]), &Json::text("SecretStore"));
    assert_eq!(at(m, &["metadata", "namespace"]), &Json::text("external-secrets"));
    assert_eq!(at(m, &["spec", "provider", "aws", "service"]), &Json::text("SecretsManager"));
    assert_eq!(at(m, &["spec", "provider", "aws", "region"]), &Json::text("us-west-2"));
}

#[test]
fn vault_cluster_store_with_kubernetes_auth() {
    let s = vault_state(SecretStoreScope::Cluster, None);
    let r = secret_store_object(&s);
    assert_eq!(at(&r, &["metadata", "name"]), &Json::text("es-cluster-secret-store"));
    let m = at(&r, &["spec", "forProvider", "manifest"]);
    assert_eq!(at(m, &["kind"]), &Json::text("ClusterSecretStore"));
    assert!(!has(m, &["metadata"], "namespace"));
    let v = at(m, &["spec", "provider", "vault"]);
    assert_eq!(at(v, &["server"]), &Json::text("http://vault.vault.svc.cluster.local:8200"));
    assert_eq!(at(v, &["auth", "kubernetes", "role"]), &Json::text("external-secrets"));
    assert_eq!(
        at(v, &["auth", "kubernetes", "serviceAccountRef", "namespace"]),
        &Json::text("external-secrets")
    );
}

#[test]
fn vault_namespaced_store_with_token_auth() {
    let s = vault_state(SecretStoreScope::Namespaced, Some("token"));
    let r = secret_store_object(&s);
    let v = at(&r, &["spec", "forProvider", "manifest", "spec", "provider", "vault"]);
    assert_eq!(at(v, &["auth", "tokenSecretRef", "name"]), &Json::text("vault-token"));
    assert_eq!(at(v, &["auth", "tokenSecretRef", "key"]), &Json::text("token"));
    assert_eq!(at(v, &["auth", "tokenSecretRef", "namespace"]), &Json::text("external-secrets"));

    let k = vault_state(SecretStoreScope::Namespaced, Some("kubernetes"));
    let rk = secret_store_object(&k);
    let vk = at(&rk, &["spec", "forProvider", "manifest", "spec", "provider", "vault"]);
    assert!(!has(vk, &["auth", "kubernetes", "serviceAccountRef"], "namespace"));
}
