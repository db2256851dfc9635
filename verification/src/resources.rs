//! The bodies of the composed resources, as unstructured JSON.
//!
//! Each builder has a spec function of the same name with `spec_` in front
//! that states the whole document it produces.
use crate::json::{
    child, has_key, keys_distinct, law_insert_all_then_lookup, lookup, members_insert_all, members1, members2, members3, members4, members7, members_insert, merge, merge_objects, Json, JsonMap,
    JsonView,
};
use crate::state::{EffectiveState, ProviderConfigRef, SecretStoreScope};
use vstd::prelude::*;
use vstd::string::*;

verus! {

/// The chart version of the External Secrets Operator release.
pub const ESO_CHART_VERSION: &'static str = "2.2.0";

/// The chart version of the Vault release.
pub const VAULT_CHART_VERSION: &'static str = "0.30.0";

/// The inline IAM policy of the operator's pod identity: read access to
/// Secrets Manager, SSM parameters and the KMS keys that decrypt them.
pub const ESO_INLINE_POLICY: &'static str = "{\"Version\":\"2012-10-17\",\"Statement\":[{\"Effect\":\"Allow\",\"Action\":[\"secretsmanager:GetResourcePolicy\",\"secretsmanager:GetSecretValue\",\"secretsmanager:DescribeSecret\",\"secretsmanager:ListSecretVersionIds\",\"secretsmanager:ListSecrets\",\"secretsmanager:BatchGetSecretValue\",\"ssm:GetParameter\",\"ssm:GetParameters\",\"ssm:GetParametersByPath\",\"ssm:DescribeParameters\",\"kms:Decrypt\",\"kms:DescribeKey\"],\"Resource\":\"*\"}]}";

// ---------------------------------------------------------------------------
// Documents, as mathematical values.
// ---------------------------------------------------------------------------
pub open spec fn json_str(s: Seq<char>) -> JsonView {
    JsonView::Str(s)
}

pub open spec fn json_obj(m: Seq<(Seq<char>, JsonView)>) -> JsonView {
    JsonView::Object(m)
}

/// An object of one member.
pub open spec fn json_obj1(k: Seq<char>, v: JsonView) -> JsonView {
    JsonView::Object(members1(k, v))
}

/// The labels of the stack, as an object.
pub open spec fn spec_labels(state: EffectiveState) -> JsonView {
    json_obj(state.labels@)
}

/// The management policies, as an array of strings.
pub open spec fn spec_management_policies(state: EffectiveState) -> JsonView {
    JsonView::Array(state.management_policies.deep_view().map_values(|p: Seq<char>| json_str(p)))
}

/// A resource's metadata: its name, its composition resource name, the labels.
pub open spec fn spec_metadata(
    name: Seq<char>,
    composition_name: Seq<char>,
    state: EffectiveState,
) -> JsonView {
    json_obj(
        members3(
            "name"@,
            json_str(name),
            "annotations"@,
            json_obj1("crossplane.io/composition-resource-name"@, json_str(composition_name)),
            "labels"@,
            spec_labels(state),
        ),
    )
}

/// A reference to a provider configuration, as an object.
pub open spec fn spec_provider_ref(p: ProviderConfigRef) -> JsonView {
    json_obj(members2("name"@, json_str(p.name@), "kind"@, json_str(p.kind@)))
}

/// Requests and limits of cpu and memory.
pub open spec fn spec_resource_limits(
    req_cpu: Seq<char>,
    req_mem: Seq<char>,
    lim_cpu: Seq<char>,
    lim_mem: Seq<char>,
) -> JsonView {
    json_obj(
        members2(
            "requests"@,
            json_obj(members2("cpu"@, json_str(req_cpu), "memory"@, json_str(req_mem))),
            "limits"@,
            json_obj(members2("cpu"@, json_str(lim_cpu), "memory"@, json_str(lim_mem))),
        ),
    )
}

/// A reference to another resource by api version, kind and name.
pub open spec fn spec_resource_ref(api: Seq<char>, kind: Seq<char>, name: Seq<char>) -> JsonView {
    json_obj(
        members3(
            "apiVersion"@,
            json_str(api),
            "kind"@,
            json_str(kind),
            "resourceRef"@,
            json_obj1("name"@, json_str(name)),
        ),
    )
}

/// A Helm release of a chart.
pub open spec fn spec_helm_release(
    state: EffectiveState,
    release_name: Seq<char>,
    composition_name: Seq<char>,
    chart: Seq<char>,
    repository: Seq<char>,
    version: Seq<char>,
    namespace: Seq<char>,
    values: JsonView,
) -> JsonView {
    let chart_obj = json_obj(
        members3(
            "name"@,
            json_str(chart),
            "repository"@,
            json_str(repository),
            "version"@,
            json_str(version),
        ),
    );
    let for_provider = json_obj(
        members3("chart"@, chart_obj, "namespace"@, json_str(namespace), "values"@, values),
    );
    let spec = json_obj(
        members4(
            "managementPolicies"@,
            spec_management_policies(state),
            "forProvider"@,
            for_provider,
            "rollbackLimit"@,
            JsonView::Number("3"@),
            "providerConfigRef"@,
            spec_provider_ref(state.helm_provider),
        ),
    );
    json_obj(
        members4(
            "apiVersion"@,
            json_str("helm.m.crossplane.io/v1beta1"@),
            "kind"@,
            json_str("Release"@),
            "metadata"@,
            spec_metadata(release_name, composition_name, state),
            "spec"@,
            spec,
        ),
    )
}

/// The operator chart's default values.
pub open spec fn spec_eso_default_values(state: EffectiveState) -> JsonView {
    let limits = spec_resource_limits("15m"@, "100Mi"@, "100m"@, "256Mi"@);
    json_obj(
        members4(
            "serviceAccount"@,
            json_obj(
                members2(
                    "create"@,
                    JsonView::Bool(true),
                    "name"@,
                    json_str(state.service_account_name@),
                ),
            ),
            "resources"@,
            limits,
            "certController"@,
            json_obj1("resources"@, limits),
            "webhook"@,
            json_obj1("resources"@, limits),
        ),
    )
}

/// The operator chart's values: the override when given, else the user's
/// values merged into the defaults.
pub open spec fn spec_eso_values(state: EffectiveState) -> JsonView {
    match state.helm_override_all {
        Some(o) => o@,
        None => merge(spec_eso_default_values(state), state.helm_values@),
    }
}

/// The Helm release of the External Secrets Operator.
pub open spec fn spec_helm_external_secrets(state: EffectiveState) -> JsonView {
    spec_helm_release(
        state,
        state.helm_release_name@,
        "helm-external-secrets"@,
        "external-secrets"@,
        "https://charts.external-secrets.io"@,
        ESO_CHART_VERSION@,
        state.helm_namespace@,
        spec_eso_values(state),
    )
}

/// The Vault chart's default values.
pub open spec fn spec_vault_default_values() -> JsonView {
    let enabled = json_obj1("enabled"@, JsonView::Bool(true));
    json_obj(
        members4(
            "global"@,
            json_obj(
                members2("enabled"@, JsonView::Bool(true), "tlsDisable"@, JsonView::Bool(true)),
            ),
            "injector"@,
            json_obj1("enabled"@, JsonView::Bool(false)),
            "server"@,
            json_obj(
                members4(
                    "dev"@,
                    enabled,
                    "standalone"@,
                    enabled,
                    "dataStorage"@,
                    json_obj1("enabled"@, JsonView::Bool(false)),
                    "resources"@,
                    spec_resource_limits("50m"@, "128Mi"@, "500m"@, "512Mi"@),
                ),
            ),
            "ui"@,
            enabled,
        ),
    )
}

/// The Vault chart's values: the override when given, else the user's values
/// merged into the defaults.
pub open spec fn spec_vault_values(state: EffectiveState) -> JsonView {
    match state.vault_override_all {
        Some(o) => o@,
        None => merge(spec_vault_default_values(), state.vault_values@),
    }
}

/// The Helm release of an in-cluster Vault.
pub open spec fn spec_helm_vault(state: EffectiveState) -> JsonView {
    spec_helm_release(
        state,
        state.vault_release_name@,
        "helm-vault"@,
        "vault"@,
        "https://helm.releases.hashicorp.com"@,
        VAULT_CHART_VERSION@,
        state.vault_namespace@,
        spec_vault_values(state),
    )
}

/// The members of the pod identity's spec, before the optional role prefix and
/// permissions boundary.
pub open spec fn spec_pod_identity_base(state: EffectiveState) -> Seq<(Seq<char>, JsonView)> {
    members7(
        "managementPolicies"@,
        spec_management_policies(state),
        "clusterName"@,
        json_str(state.cluster_name@),
        "region"@,
        json_str(state.aws_region@),
        "providerConfigRef"@,
        spec_provider_ref(state.aws_provider),
        "serviceAccount"@,
        json_obj(
            members2(
                "name"@,
                json_str(state.service_account_name@),
                "namespace"@,
                json_str(state.service_account_namespace@),
            ),
        ),
        "inlinePolicy"@,
        JsonView::Array(
            seq![
                json_obj(
                    members2(
                        "name"@,
                        json_str("external-secrets"@),
                        "policy"@,
                        json_str(ESO_INLINE_POLICY@),
                    ),
                ),
            ],
        ),
        "tags"@,
        json_obj(state.aws_tags@),
    )
}

/// The pod identity's spec: the base members, with the role prefix and the
/// permissions boundary set when they are not empty.
pub open spec fn spec_pod_identity_spec(state: EffectiveState) -> Seq<(Seq<char>, JsonView)> {
    let base = spec_pod_identity_base(state);
    let with_prefix = if state.aws_role_prefix@.len() > 0 {
        members_insert(base, "rolePrefix"@, json_str(state.aws_role_prefix@))
    } else {
        base
    };
    if state.aws_permissions_boundary_arn@.len() > 0 {
        members_insert(
            with_prefix,
            "permissionsBoundaryArn"@,
            json_str(state.aws_permissions_boundary_arn@),
        )
    } else {
        with_prefix
    }
}

/// The AWS pod identity of the operator's service account.
pub open spec fn spec_pod_identity(state: EffectiveState) -> JsonView {
    json_obj(
        members4(
            "apiVersion"@,
            json_str("aws.hops.ops.com.ai/v1alpha1"@),
            "kind"@,
            json_str("PodIdentity"@),
            "metadata"@,
            spec_metadata(state.pod_identity_name@, "pod-identity"@, state),
            "spec"@,
            json_obj(spec_pod_identity_spec(state)),
        ),
    )
}

/// A Usage: `of` may not be deleted while `by` exists.
pub open spec fn spec_usage(
    state: EffectiveState,
    name: Seq<char>,
    composition_name: Seq<char>,
    spec_members: Seq<(Seq<char>, JsonView)>,
) -> JsonView {
    json_obj(
        members4(
            "apiVersion"@,
            json_str("protection.crossplane.io/v1beta1"@),
            "kind"@,
            json_str("Usage"@),
            "metadata"@,
            spec_metadata(name, composition_name, state),
            "spec"@,
            json_obj(spec_members),
        ),
    )
}

/// The pod identity is kept until the operator's Helm release is gone.
pub open spec fn spec_usage_pod_identity_protects_until_helm_gone(state: EffectiveState) -> JsonView {
    spec_usage(
        state,
        state.name@ + "-delete-helm-eso-before-pod-identity"@,
        "usage-pod-identity"@,
        members3(
            "of"@,
            spec_resource_ref(
                "aws.hops.ops.com.ai/v1alpha1"@,
                "PodIdentity"@,
                state.pod_identity_name@,
            ),
            "by"@,
            spec_resource_ref("helm.m.crossplane.io/v1beta1"@, "Release"@, state.helm_release_name@),
            "replayDeletion"@,
            JsonView::Bool(true),
        ),
    )
}

/// The Vault authentication part of the store's provider.
pub open spec fn spec_vault_auth(state: EffectiveState) -> JsonView {
    let cluster = state.secret_store_scope == SecretStoreScope::Cluster;
    if state.vault_auth_method@ == "kubernetes"@ {
        let sa = members1("name"@, json_str(state.service_account_name@));
        let sa_ref = if cluster {
            members_insert(sa, "namespace"@, json_str(state.service_account_namespace@))
        } else {
            sa
        };
        json_obj1(
            "kubernetes"@,
            json_obj(
                members3(
                    "mountPath"@,
                    json_str(state.vault_auth_mount_path@),
                    "role"@,
                    json_str(state.vault_auth_role@),
                    "serviceAccountRef"@,
                    json_obj(sa_ref),
                ),
            ),
        )
    } else {
        let t = members2(
            "name"@,
            json_str(state.vault_token_secret_name@),
            "key"@,
            json_str(state.vault_token_secret_key@),
        );
        let token_ref = if cluster || state.vault_token_secret_namespace@.len() > 0 {
            members_insert(t, "namespace"@, json_str(state.vault_token_secret_namespace@))
        } else {
            t
        };
        json_obj1("tokenSecretRef"@, json_obj(token_ref))
    }
}

/// The provider part of the secret store: AWS Secrets Manager, or Vault.
pub open spec fn spec_secret_store_provider(state: EffectiveState) -> JsonView {
    if state.aws_enabled {
        json_obj1(
            "aws"@,
            json_obj(
                members2(
                    "service"@,
                    json_str("SecretsManager"@),
                    "region"@,
                    json_str(state.aws_region@),
                ),
            ),
        )
    } else {
        let vault = members3(
            "server"@,
            json_str(state.vault_server@),
            "path"@,
            json_str(state.vault_path@),
            "version"@,
            json_str(state.vault_version@),
        );
        json_obj1("vault"@, json_obj(members_insert(vault, "auth"@, spec_vault_auth(state))))
    }
}

/// The name of the object that holds the secret store.
pub open spec fn spec_secret_store_object_name(state: EffectiveState) -> Seq<char> {
    match state.secret_store_scope {
        SecretStoreScope::Cluster => state.name@ + "-cluster-secret-store"@,
        SecretStoreScope::Namespaced => state.name@ + "-secret-store"@,
    }
}

/// The store's manifest: a ClusterSecretStore, or a SecretStore in the stack's
/// namespace.
pub open spec fn spec_secret_store_manifest(state: EffectiveState) -> JsonView {
    let provider = json_obj1("provider"@, spec_secret_store_provider(state));
    match state.secret_store_scope {
        SecretStoreScope::Cluster => json_obj(
            members4(
                "apiVersion"@,
                json_str("external-secrets.io/v1"@),
                "kind"@,
                json_str("ClusterSecretStore"@),
                "metadata"@,
                json_obj1("name"@, json_str(state.secret_store_name@)),
                "spec"@,
                provider,
            ),
        ),
        SecretStoreScope::Namespaced => json_obj(
            members4(
                "apiVersion"@,
                json_str("external-secrets.io/v1"@),
                "kind"@,
                json_str("SecretStore"@),
                "metadata"@,
                json_obj(
                    members2(
                        "name"@,
                        json_str(state.secret_store_name@),
                        "namespace"@,
                        json_str(state.namespace@),
                    ),
                ),
                "spec"@,
                provider,
            ),
        ),
    }
}

/// The Kubernetes object that holds the secret store.
pub open spec fn spec_secret_store_object(state: EffectiveState) -> JsonView {
    json_obj(
        members4(
            "apiVersion"@,
            json_str("kubernetes.m.crossplane.io/v1alpha1"@),
            "kind"@,
            json_str("Object"@),
            "metadata"@,
            spec_metadata(spec_secret_store_object_name(state), "secret-store"@, state),
            "spec"@,
            json_obj(
                members3(
                    "managementPolicies"@,
                    spec_management_policies(state),
                    "forProvider"@,
                    json_obj1("manifest"@, spec_secret_store_manifest(state)),
                    "providerConfigRef"@,
                    spec_provider_ref(state.k8s_provider),
                ),
            ),
        ),
    )
}

/// A Usage that keeps the Helm release `release` until the store is gone.
pub open spec fn spec_usage_store_before_release(
    state: EffectiveState,
    name: Seq<char>,
    composition_name: Seq<char>,
    release: Seq<char>,
) -> JsonView {
    spec_usage(
        state,
        name,
        composition_name,
        members3(
            "replayDeletion"@,
            JsonView::Bool(true),
            "of"@,
            spec_resource_ref("helm.m.crossplane.io/v1beta1"@, "Release"@, release),
            "by"@,
            spec_resource_ref(
                "kubernetes.m.crossplane.io/v1alpha1"@,
                "Object"@,
                spec_secret_store_object_name(state),
            ),
        ),
    )
}

/// The operator's Helm release is kept until the store is gone.
pub open spec fn spec_usage_secret_store_before_eso_helm(state: EffectiveState) -> JsonView {
    spec_usage_store_before_release(
        state,
        state.name@ + "-delete-secret-store-before-helm"@,
        "usage-secret-store-helm"@,
        state.helm_release_name@,
    )
}

/// The Vault release is kept until the store is gone.
pub open spec fn spec_usage_secret_store_before_vault(state: EffectiveState) -> JsonView {
    spec_usage_store_before_release(
        state,
        state.name@ + "-delete-secret-store-before-vault"@,
        "usage-secret-store-vault"@,
        state.vault_release_name@,
    )
}

// ---------------------------------------------------------------------------
// Builders.
// ---------------------------------------------------------------------------
fn labels(state: &EffectiveState) -> (r: Json)
    ensures
        r@ == spec_labels(*state),
{
    Json::Object(state.labels.clone_map())
}

fn management_policies(state: &EffectiveState) -> (r: Json)
    ensures
        r@ == spec_management_policies(*state),
{
    let mut items: Vec<Json> = Vec::new();
    let n = state.management_policies.len();
    for i in 0..n
        invariant
            n == state.management_policies.len(),
            items.len() == i,
            forall|j: int|
                0 <= j < i ==> #[trigger] items@[j]@ == json_str(state.management_policies@[j]@),
    {
        items.push(Json::Str(state.management_policies[i].clone()));
    }
    let r = Json::array(items);
    assert(crate::json::views(items@) =~= state.management_policies.deep_view().map_values(
        |p: Seq<char>| json_str(p),
    ));
    r
}

fn metadata(name: &str, composition_name: &str, state: &EffectiveState) -> (r: Json)
    ensures
        r@ == spec_metadata(name@, composition_name@, *state),
{
    Json::Object(
        JsonMap::new().with("name", Json::text(name)).with(
            "annotations",
            Json::Object(
                JsonMap::new().with(
                    "crossplane.io/composition-resource-name",
                    Json::text(composition_name),
                ),
            ),
        ).with("labels", labels(state)),
    )
}

fn provider_ref(p: &ProviderConfigRef) -> (r: Json)
    ensures
        r@ == spec_provider_ref(*p),
{
    let r = Json::Object(
        JsonMap::new().with("name", Json::Str(p.name.clone())).with(
            "kind",
            Json::Str(p.kind.clone()),
        ),
    );
    r
}

fn resource_limits(req_cpu: &str, req_mem: &str, lim_cpu: &str, lim_mem: &str) -> (r: Json)
    ensures
        r@ == spec_resource_limits(req_cpu@, req_mem@, lim_cpu@, lim_mem@),
{
    Json::Object(
        JsonMap::new().with(
            "requests",
            Json::Object(
                JsonMap::new().with("cpu", Json::text(req_cpu)).with("memory", Json::text(req_mem)),
            ),
        ).with(
            "limits",
            Json::Object(
                JsonMap::new().with("cpu", Json::text(lim_cpu)).with("memory", Json::text(lim_mem)),
            ),
        ),
    )
}

fn resource_ref(api: &str, kind: &str, name: &str) -> (r: Json)
    ensures
        r@ == spec_resource_ref(api@, kind@, name@),
{
    Json::Object(
        JsonMap::new().with("apiVersion", Json::text(api)).with("kind", Json::text(kind)).with(
            "resourceRef",
            Json::Object(JsonMap::new().with("name", Json::text(name))),
        ),
    )
}

fn helm_release(
    state: &EffectiveState,
    release_name: &str,
    composition_name: &str,
    chart: &str,
    repository: &str,
    version: &str,
    namespace: &str,
    values: Json,
) -> (r: Json)
    ensures
        r@ == spec_helm_release(
            *state,
            release_name@,
            composition_name@,
            chart@,
            repository@,
            version@,
            namespace@,
            values@,
        ),
{
    let chart_obj = Json::Object(
        JsonMap::new().with("name", Json::text(chart)).with(
            "repository",
            Json::text(repository),
        ).with("version", Json::text(version)),
    );
    let for_provider = Json::Object(
        JsonMap::new().with("chart", chart_obj).with("namespace", Json::text(namespace)).with(
            "values",
            values,
        ),
    );
    let spec = Json::Object(
        JsonMap::new().with("managementPolicies", management_policies(state)).with(
            "forProvider",
            for_provider,
        ).with("rollbackLimit", Json::Number("3".to_owned())).with(
            "providerConfigRef",
            provider_ref(&state.helm_provider),
        ),
    );
    Json::Object(
        JsonMap::new().with("apiVersion", Json::text("helm.m.crossplane.io/v1beta1")).with(
            "kind",
            Json::text("Release"),
        ).with("metadata", metadata(release_name, composition_name, state)).with("spec", spec),
    )
}

/// The Helm release of the External Secrets Operator.
pub fn helm_external_secrets(state: &EffectiveState) -> (r: Json)
    ensures
        r@ == spec_helm_external_secrets(*state),
{
    let values = match &state.helm_override_all {
        Some(over) => over.clone_json(),
        None => {
            let limits = resource_limits("15m", "100Mi", "100m", "256Mi");
            let mut defaults = Json::Object(
                JsonMap::new().with(
                    "serviceAccount",
                    Json::Object(
                        JsonMap::new().with("create", Json::Bool(true)).with(
                            "name",
                            Json::Str(state.service_account_name.clone()),
                        ),
                    ),
                ).with("resources", limits.clone_json()).with(
                    "certController",
                    Json::Object(JsonMap::new().with("resources", limits.clone_json())),
                ).with("webhook", Json::Object(JsonMap::new().with("resources", limits))),
            );
            assert(defaults@ == spec_eso_default_values(*state));
            merge_objects(&mut defaults, &state.helm_values);
            defaults
        },
    };
    helm_release(
        state,
        state.helm_release_name.as_str(),
        "helm-external-secrets",
        "external-secrets",
        "https://charts.external-secrets.io",
        ESO_CHART_VERSION,
        state.helm_namespace.as_str(),
        values,
    )
}

/// The Helm release of an in-cluster Vault.
pub fn helm_vault(state: &EffectiveState) -> (r: Json)
    ensures
        r@ == spec_helm_vault(*state),
{
    let values = match &state.vault_override_all {
        Some(over) => over.clone_json(),
        None => {
            let enabled = Json::Object(JsonMap::new().with("enabled", Json::Bool(true)));
            let mut defaults = Json::Object(
                JsonMap::new().with(
                    "global",
                    Json::Object(
                        JsonMap::new().with("enabled", Json::Bool(true)).with(
                            "tlsDisable",
                            Json::Bool(true),
                        ),
                    ),
                ).with(
                    "injector",
                    Json::Object(JsonMap::new().with("enabled", Json::Bool(false))),
                ).with(
                    "server",
                    Json::Object(
                        JsonMap::new().with("dev", enabled.clone_json()).with(
                            "standalone",
                            enabled.clone_json(),
                        ).with(
                            "dataStorage",
                            Json::Object(JsonMap::new().with("enabled", Json::Bool(false))),
                        ).with("resources", resource_limits("50m", "128Mi", "500m", "512Mi")),
                    ),
                ).with("ui", enabled),
            );
            assert(defaults@ == spec_vault_default_values());
            merge_objects(&mut defaults, &state.vault_values);
            defaults
        },
    };
    helm_release(
        state,
        state.vault_release_name.as_str(),
        "helm-vault",
        "vault",
        "https://helm.releases.hashicorp.com",
        VAULT_CHART_VERSION,
        state.vault_namespace.as_str(),
        values,
    )
}

/// The AWS pod identity of the operator's service account.
pub fn pod_identity(state: &EffectiveState) -> (r: Json)
    ensures
        r@ == spec_pod_identity(*state),
{
    let mut policies: Vec<Json> = Vec::new();
    policies.push(
        Json::Object(
            JsonMap::new().with("name", Json::text("external-secrets")).with(
                "policy",
                Json::text(ESO_INLINE_POLICY),
            ),
        ),
    );
    let inline_policy = Json::array(policies);
    assert(crate::json::views(policies@) =~= seq![
        json_obj(
            members2("name"@, json_str("external-secrets"@), "policy"@, json_str(ESO_INLINE_POLICY@)),
        ),
    ]);
    let mut spec = JsonMap::new().with("managementPolicies", management_policies(state)).with(
        "clusterName",
        Json::Str(state.cluster_name.clone()),
    ).with("region", Json::Str(state.aws_region.clone())).with(
        "providerConfigRef",
        provider_ref(&state.aws_provider),
    ).with(
        "serviceAccount",
        Json::Object(
            JsonMap::new().with("name", Json::Str(state.service_account_name.clone())).with(
                "namespace",
                Json::Str(state.service_account_namespace.clone()),
            ),
        ),
    ).with("inlinePolicy", inline_policy).with("tags", Json::Object(state.aws_tags.clone_map()));
    assert(spec@ == spec_pod_identity_base(*state));
    if !state.aws_role_prefix.as_str().is_empty() {
        spec.insert("rolePrefix".to_owned(), Json::Str(state.aws_role_prefix.clone()));
    }
    if !state.aws_permissions_boundary_arn.as_str().is_empty() {
        spec.insert(
            "permissionsBoundaryArn".to_owned(),
            Json::Str(state.aws_permissions_boundary_arn.clone()),
        );
    }
    Json::Object(
        JsonMap::new().with("apiVersion", Json::text("aws.hops.ops.com.ai/v1alpha1")).with(
            "kind",
            Json::text("PodIdentity"),
        ).with("metadata", metadata(state.pod_identity_name.as_str(), "pod-identity", state)).with(
            "spec",
            Json::Object(spec),
        ),
    )
}

fn usage(state: &EffectiveState, name: &str, composition_name: &str, spec: JsonMap) -> (r: Json)
    ensures
        r@ == spec_usage(*state, name@, composition_name@, spec@),
{
    Json::Object(
        JsonMap::new().with("apiVersion", Json::text("protection.crossplane.io/v1beta1")).with(
            "kind",
            Json::text("Usage"),
        ).with("metadata", metadata(name, composition_name, state)).with(
            "spec",
            Json::Object(spec),
        ),
    )
}

/// The pod identity is kept until the operator's Helm release is gone.
pub fn usage_pod_identity_protects_until_helm_gone(state: &EffectiveState) -> (r: Json)
    ensures
        r@ == spec_usage_pod_identity_protects_until_helm_gone(*state),
{
    let name = state.name.clone().concat("-delete-helm-eso-before-pod-identity");
    let spec = JsonMap::new().with(
        "of",
        resource_ref(
            "aws.hops.ops.com.ai/v1alpha1",
            "PodIdentity",
            state.pod_identity_name.as_str(),
        ),
    ).with(
        "by",
        resource_ref("helm.m.crossplane.io/v1beta1", "Release", state.helm_release_name.as_str()),
    ).with("replayDeletion", Json::Bool(true));
    usage(state, name.as_str(), "usage-pod-identity", spec)
}

fn vault_auth(state: &EffectiveState) -> (r: Json)
    ensures
        r@ == spec_vault_auth(*state),
{
    let cluster = match state.secret_store_scope {
        SecretStoreScope::Cluster => true,
        SecretStoreScope::Namespaced => false,
    };
    if state.vault_auth_method == "kubernetes".to_owned() {
        let mut sa_ref = JsonMap::new().with("name", Json::Str(state.service_account_name.clone()));
        if cluster {
            sa_ref.insert("namespace".to_owned(), Json::Str(state.service_account_namespace.clone()));
        }
        Json::Object(
            JsonMap::new().with(
                "kubernetes",
                Json::Object(
                    JsonMap::new().with(
                        "mountPath",
                        Json::Str(state.vault_auth_mount_path.clone()),
                    ).with("role", Json::Str(state.vault_auth_role.clone())).with(
                        "serviceAccountRef",
                        Json::Object(sa_ref),
                    ),
                ),
            ),
        )
    } else {
        let mut token_ref = JsonMap::new().with(
            "name",
            Json::Str(state.vault_token_secret_name.clone()),
        ).with("key", Json::Str(state.vault_token_secret_key.clone()));
        if cluster || !state.vault_token_secret_namespace.as_str().is_empty() {
            token_ref.insert(
                "namespace".to_owned(),
                Json::Str(state.vault_token_secret_namespace.clone()),
            );
        }
        Json::Object(JsonMap::new().with("tokenSecretRef", Json::Object(token_ref)))
    }
}

/// The provider part of the secret store: AWS Secrets Manager, or Vault.
fn secret_store_provider(state: &EffectiveState) -> (r: Json)
    ensures
        r@ == spec_secret_store_provider(*state),
{
    if state.aws_enabled {
        return Json::Object(
            JsonMap::new().with(
                "aws",
                Json::Object(
                    JsonMap::new().with("service", Json::text("SecretsManager")).with(
                        "region",
                        Json::Str(state.aws_region.clone()),
                    ),
                ),
            ),
        );
    }
    let mut vault = JsonMap::new().with("server", Json::Str(state.vault_server.clone())).with(
        "path",
        Json::Str(state.vault_path.clone()),
    ).with("version", Json::Str(state.vault_version.clone()));
    vault.insert("auth".to_owned(), vault_auth(state));
    Json::Object(JsonMap::new().with("vault", Json::Object(vault)))
}

/// The name of the object that holds the secret store.
fn secret_store_object_name(state: &EffectiveState) -> (r: String)
    ensures
        r@ == spec_secret_store_object_name(*state),
{
    match state.secret_store_scope {
        SecretStoreScope::Cluster => state.name.clone().concat("-cluster-secret-store"),
        SecretStoreScope::Namespaced => state.name.clone().concat("-secret-store"),
    }
}

/// The Kubernetes object that holds the SecretStore or ClusterSecretStore.
pub fn secret_store_object(state: &EffectiveState) -> (r: Json)
    ensures
        r@ == spec_secret_store_object(*state),
{
    let provider = Json::Object(JsonMap::new().with("provider", secret_store_provider(state)));
    let manifest = match state.secret_store_scope {
        SecretStoreScope::Cluster => Json::Object(
            JsonMap::new().with("apiVersion", Json::text("external-secrets.io/v1")).with(
                "kind",
                Json::text("ClusterSecretStore"),
            ).with(
                "metadata",
                Json::Object(
                    JsonMap::new().with("name", Json::Str(state.secret_store_name.clone())),
                ),
            ).with("spec", provider),
        ),
        SecretStoreScope::Namespaced => Json::Object(
            JsonMap::new().with("apiVersion", Json::text("external-secrets.io/v1")).with(
                "kind",
                Json::text("SecretStore"),
            ).with(
                "metadata",
                Json::Object(
                    JsonMap::new().with("name", Json::Str(state.secret_store_name.clone())).with(
                        "namespace",
                        Json::Str(state.namespace.clone()),
                    ),
                ),
            ).with("spec", provider),
        ),
    };
    assert(manifest@ == spec_secret_store_manifest(*state));
    let meta_name = secret_store_object_name(state);
    Json::Object(
        JsonMap::new().with("apiVersion", Json::text("kubernetes.m.crossplane.io/v1alpha1")).with(
            "kind",
            Json::text("Object"),
        ).with("metadata", metadata(meta_name.as_str(), "secret-store", state)).with(
            "spec",
            Json::Object(
                JsonMap::new().with("managementPolicies", management_policies(state)).with(
                    "forProvider",
                    Json::Object(JsonMap::new().with("manifest", manifest)),
                ).with("providerConfigRef", provider_ref(&state.k8s_provider)),
            ),
        ),
    )
}

fn usage_store_before_release(
    state: &EffectiveState,
    name: &str,
    composition_name: &str,
    release: &str,
) -> (r: Json)
    ensures
        r@ == spec_usage_store_before_release(*state, name@, composition_name@, release@),
{
    let by_name = secret_store_object_name(state);
    let spec = JsonMap::new().with("replayDeletion", Json::Bool(true)).with(
        "of",
        resource_ref("helm.m.crossplane.io/v1beta1", "Release", release),
    ).with(
        "by",
        resource_ref("kubernetes.m.crossplane.io/v1alpha1", "Object", by_name.as_str()),
    );
    usage(state, name, composition_name, spec)
}

/// The operator's Helm release is kept until the store is gone.
pub fn usage_secret_store_before_eso_helm(state: &EffectiveState) -> (r: Json)
    ensures
        r@ == spec_usage_secret_store_before_eso_helm(*state),
{
    let name = state.name.clone().concat("-delete-secret-store-before-helm");
    usage_store_before_release(
        state,
        name.as_str(),
        "usage-secret-store-helm",
        state.helm_release_name.as_str(),
    )
}

/// The Vault release is kept until the store is gone.
pub fn usage_secret_store_before_vault(state: &EffectiveState) -> (r: Json)
    ensures
        r@ == spec_usage_secret_store_before_vault(*state),
{
    let name = state.name.clone().concat("-delete-secret-store-before-vault");
    usage_store_before_release(
        state,
        name.as_str(),
        "usage-secret-store-vault",
        state.vault_release_name.as_str(),
    )
}

} // verus!

verus! {

// ---------------------------------------------------------------------------
// Laws of the documents: what each one refers to.
// ---------------------------------------------------------------------------
/// The composition resource name a document carries in its annotations.
pub open spec fn composition_name_of(doc: JsonView) -> Option<JsonView> {
    child(
        child(child(Some(doc), "metadata"@), "annotations"@),
        "crossplane.io/composition-resource-name"@,
    )
}

/// A document's `metadata.name`.
pub open spec fn metadata_name_of(doc: JsonView) -> Option<JsonView> {
    child(child(Some(doc), "metadata"@), "name"@)
}

/// The name of the resource a Usage protects (`spec.of.resourceRef.name`).
pub open spec fn usage_of_name(doc: JsonView) -> Option<JsonView> {
    child(child(child(child(Some(doc), "spec"@), "of"@), "resourceRef"@), "name"@)
}

/// The name of the resource a Usage waits on (`spec.by.resourceRef.name`).
pub open spec fn usage_by_name(doc: JsonView) -> Option<JsonView> {
    child(child(child(child(Some(doc), "spec"@), "by"@), "resourceRef"@), "name"@)
}

proof fn lemma_key_literals()
    ensures
        "spec"@ != "apiVersion"@,
        "spec"@ != "kind"@,
        "spec"@ != "metadata"@,
        "metadata"@ != "apiVersion"@,
        "metadata"@ != "kind"@,
        "name"@ != "annotations"@,
        "name"@ != "labels"@,
        "name"@ != "namespace"@,
        "annotations"@ != "labels"@,
        "of"@ != "by"@,
        "of"@ != "replayDeletion"@,
        "by"@ != "replayDeletion"@,
        "resourceRef"@ != "apiVersion"@,
        "resourceRef"@ != "kind"@,
        "forProvider"@ != "managementPolicies"@,
        "forProvider"@ != "rollbackLimit"@,
        "forProvider"@ != "providerConfigRef"@,
        "namespace"@ != "chart"@,
        "namespace"@ != "values"@,
        "manifest"@ != "managementPolicies"@,
        "metadata"@ != "spec"@,
        "tags"@ != "rolePrefix"@,
        "tags"@ != "permissionsBoundaryArn"@,
{
    reveal_strlit("annotations");
    reveal_strlit("apiVersion");
    reveal_strlit("by");
    reveal_strlit("chart");
    reveal_strlit("forProvider");
    reveal_strlit("kind");
    reveal_strlit("labels");
    reveal_strlit("managementPolicies");
    reveal_strlit("manifest");
    reveal_strlit("metadata");
    reveal_strlit("name");
    reveal_strlit("namespace");
    reveal_strlit("of");
    reveal_strlit("permissionsBoundaryArn");
    reveal_strlit("providerConfigRef");
    reveal_strlit("replayDeletion");
    reveal_strlit("resourceRef");
    reveal_strlit("rolePrefix");
    reveal_strlit("rollbackLimit");
    reveal_strlit("spec");
    reveal_strlit("tags");
    reveal_strlit("values");
    assert("spec"@.len() != "apiVersion"@.len());
    assert("spec"@[0] != "kind"@[0]);
    assert("spec"@.len() != "metadata"@.len());
    assert("metadata"@.len() != "apiVersion"@.len());
    assert("metadata"@.len() != "kind"@.len());
    assert("name"@.len() != "annotations"@.len());
    assert("name"@.len() != "labels"@.len());
    assert("name"@.len() != "namespace"@.len());
    assert("annotations"@.len() != "labels"@.len());
    assert("of"@[0] != "by"@[0]);
    assert("of"@.len() != "replayDeletion"@.len());
    assert("by"@.len() != "replayDeletion"@.len());
    assert("resourceRef"@.len() != "apiVersion"@.len());
    assert("resourceRef"@.len() != "kind"@.len());
    assert("forProvider"@.len() != "managementPolicies"@.len());
    assert("forProvider"@.len() != "rollbackLimit"@.len());
    assert("forProvider"@.len() != "providerConfigRef"@.len());
    assert("namespace"@.len() != "chart"@.len());
    assert("namespace"@.len() != "values"@.len());
    assert("manifest"@.len() != "managementPolicies"@.len());
    assert("metadata"@.len() != "spec"@.len());
    assert("tags"@.len() != "rolePrefix"@.len());
    assert("tags"@.len() != "permissionsBoundaryArn"@.len());
}

/// Every Helm release is named and annotated as composed, and installs into
/// its own namespace: the Vault release into the Vault namespace, the
/// operator's into the operator's.
pub proof fn law_helm_releases_targets(state: EffectiveState)
    ensures
        metadata_name_of(spec_helm_vault(state)) == Some(json_str(state.vault_release_name@)),
        composition_name_of(spec_helm_vault(state)) == Some(json_str("helm-vault"@)),
        child(child(child(Some(spec_helm_vault(state)), "spec"@), "forProvider"@), "namespace"@)
            == Some(json_str(state.vault_namespace@)),
        metadata_name_of(spec_helm_external_secrets(state)) == Some(
            json_str(state.helm_release_name@),
        ),
        composition_name_of(spec_helm_external_secrets(state)) == Some(
            json_str("helm-external-secrets"@),
        ),
        child(
            child(child(Some(spec_helm_external_secrets(state)), "spec"@), "forProvider"@),
            "namespace"@,
        ) == Some(json_str(state.helm_namespace@)),
{
    broadcast use crate::json::lemma_lookup_members_insert, crate::json::lemma_lookup_empty;

    lemma_key_literals();
}

/// The pod identity carries the stack's AWS tags, is named by the state and
/// annotated as composed.
pub proof fn law_pod_identity_tags_and_name(state: EffectiveState)
    ensures
        child(child(Some(spec_pod_identity(state)), "spec"@), "tags"@) == Some(
            json_obj(state.aws_tags@),
        ),
        metadata_name_of(spec_pod_identity(state)) == Some(json_str(state.pod_identity_name@)),
        composition_name_of(spec_pod_identity(state)) == Some(json_str("pod-identity"@)),
{
    broadcast use crate::json::lemma_lookup_members_insert, crate::json::lemma_lookup_empty;

    lemma_key_literals();
}

/// Each user AWS tag reaches the pod identity's tags with its given value,
/// for a state whose tags are the labels with the user's tags set on top.
pub proof fn law_user_tags_reach_pod_identity(
    state: EffectiveState,
    labels: Seq<(Seq<char>, JsonView)>,
    user_tags: Seq<(Seq<char>, JsonView)>,
    k: Seq<char>,
)
    requires
        state.aws_tags@ == members_insert_all(labels, user_tags),
        keys_distinct(user_tags),
        has_key(user_tags, k),
    ensures
        child(child(child(Some(spec_pod_identity(state)), "spec"@), "tags"@), k) == lookup(
            user_tags,
            k,
        ),
{
    law_pod_identity_tags_and_name(state);
    law_insert_all_then_lookup(labels, user_tags, k);
}

/// The store's manifest, inside the object that holds it.
pub open spec fn store_manifest_of(doc: JsonView) -> Option<JsonView> {
    child(child(child(Some(doc), "spec"@), "forProvider"@), "manifest"@)
}

/// The store's manifest is named by the state's store name, in both scopes,
/// and the object holding it is annotated as composed.
pub proof fn law_secret_store_named(state: EffectiveState)
    ensures
        metadata_name_of(store_manifest_of(spec_secret_store_object(state))->0) == Some(json_str(state.secret_store_name@)),
        store_manifest_of(spec_secret_store_object(state)) is Some,
        metadata_name_of(spec_secret_store_object(state)) == Some(
            json_str(spec_secret_store_object_name(state)),
        ),
        composition_name_of(spec_secret_store_object(state)) == Some(json_str("secret-store"@)),
{
    broadcast use crate::json::lemma_lookup_members_insert, crate::json::lemma_lookup_empty;

    lemma_key_literals();
}

/// The store's manifest carries the name the status reports.
pub proof fn law_secret_store_named_as_status(
    state: EffectiveState,
    obs: crate::state::Observed,
    status: crate::state::StatusOut,
)
    requires
        crate::state::status_of(status, state, obs),
    ensures
        metadata_name_of(store_manifest_of(spec_secret_store_object(state))->0) == Some(json_str(status.secret_store_name@)),
{
    law_secret_store_named(state);
}

/// The pod identity's Usage protects the pod identity until the operator's
/// release is gone, and is annotated as composed.
pub proof fn law_usage_pod_identity_references(state: EffectiveState)
    ensures
        usage_of_name(spec_usage_pod_identity_protects_until_helm_gone(state)) == metadata_name_of(
            spec_pod_identity(state),
        ),
        usage_by_name(spec_usage_pod_identity_protects_until_helm_gone(state)) == metadata_name_of(
            spec_helm_external_secrets(state),
        ),
        composition_name_of(spec_usage_pod_identity_protects_until_helm_gone(state)) == Some(
            json_str("usage-pod-identity"@),
        ),
{
    broadcast use crate::json::lemma_lookup_members_insert, crate::json::lemma_lookup_empty;

    lemma_key_literals();
    law_helm_releases_targets(state);
    law_pod_identity_tags_and_name(state);
}

/// A store Usage protects the given release until the store's object is gone.
proof fn lemma_store_usage_names(
    state: EffectiveState,
    name: Seq<char>,
    composition_name: Seq<char>,
    release: Seq<char>,
)
    ensures
        usage_of_name(spec_usage_store_before_release(state, name, composition_name, release))
            == Some(json_str(release)),
        usage_by_name(spec_usage_store_before_release(state, name, composition_name, release))
            == Some(json_str(spec_secret_store_object_name(state))),
        composition_name_of(
            spec_usage_store_before_release(state, name, composition_name, release),
        ) == Some(json_str(composition_name)),
{
    broadcast use crate::json::lemma_lookup_members_insert, crate::json::lemma_lookup_empty;

    lemma_key_literals();
}

/// The store's Usage on the operator's release protects that release (by the
/// name it is released under) until the store's object is gone, and is
/// annotated as composed.
pub proof fn law_usage_store_before_eso_helm_references(state: EffectiveState)
    ensures
        usage_of_name(spec_usage_secret_store_before_eso_helm(state)) == metadata_name_of(
            spec_helm_external_secrets(state),
        ),
        usage_of_name(spec_usage_secret_store_before_eso_helm(state)) == Some(
            json_str(state.helm_release_name@),
        ),
        usage_by_name(spec_usage_secret_store_before_eso_helm(state)) == metadata_name_of(
            spec_secret_store_object(state),
        ),
        composition_name_of(spec_usage_secret_store_before_eso_helm(state)) == Some(
            json_str("usage-secret-store-helm"@),
        ),
{
    lemma_store_usage_names(
        state,
        state.name@ + "-delete-secret-store-before-helm"@,
        "usage-secret-store-helm"@,
        state.helm_release_name@,
    );
    law_helm_releases_targets(state);
    law_secret_store_named(state);
}

/// The store's Usage on Vault's release protects that release (by the name it
/// is released under) until the store's object is gone, and is annotated as
/// composed.
pub proof fn law_usage_store_before_vault_references(state: EffectiveState)
    ensures
        usage_of_name(spec_usage_secret_store_before_vault(state)) == metadata_name_of(
            spec_helm_vault(state),
        ),
        usage_of_name(spec_usage_secret_store_before_vault(state)) == Some(
            json_str(state.vault_release_name@),
        ),
        usage_by_name(spec_usage_secret_store_before_vault(state)) == metadata_name_of(
            spec_secret_store_object(state),
        ),
        composition_name_of(spec_usage_secret_store_before_vault(state)) == Some(
            json_str("usage-secret-store-vault"@),
        ),
{
    lemma_store_usage_names(
        state,
        state.name@ + "-delete-secret-store-before-vault"@,
        "usage-secret-store-vault"@,
        state.vault_release_name@,
    );
    law_helm_releases_targets(state);
    law_secret_store_named(state);
}

/// The store's provider, inside the object that holds it.
pub open spec fn store_provider_of(doc: JsonView) -> Option<JsonView> {
    child(child(store_manifest_of(doc), "spec"@), "provider"@)
}

/// The store reads the stack's backend where the state points: AWS Secrets
/// Manager in the stack's region, or the stack's Vault server; a namespaced
/// store lives in the stack's namespace, and the holding object uses the
/// Kubernetes provider configuration.
pub proof fn law_secret_store_points_at_backend(state: EffectiveState)
    ensures
        state.aws_enabled ==> child(
            child(store_provider_of(spec_secret_store_object(state)), "aws"@),
            "region"@,
        ) == Some(json_str(state.aws_region@)),
        !state.aws_enabled ==> child(
            child(store_provider_of(spec_secret_store_object(state)), "vault"@),
            "server"@,
        ) == Some(json_str(state.vault_server@)),
        state.secret_store_scope == SecretStoreScope::Namespaced ==> child(
            child(store_manifest_of(spec_secret_store_object(state)), "metadata"@),
            "namespace"@,
        ) == Some(json_str(state.namespace@)),
        child(
            child(child(Some(spec_secret_store_object(state)), "spec"@), "providerConfigRef"@),
            "name"@,
        ) == Some(json_str(state.k8s_provider.name@)),
{
    broadcast use crate::json::lemma_lookup_members_insert, crate::json::lemma_lookup_empty;

    lemma_key_literals();
    reveal_strlit("region");
    reveal_strlit("service");
    reveal_strlit("server");
    reveal_strlit("auth");
    reveal_strlit("name");
    reveal_strlit("namespace");
    reveal_strlit("providerConfigRef");
    reveal_strlit("managementPolicies");
    reveal_strlit("forProvider");
    assert("region"@.len() != "service"@.len());
    assert("server"@.len() != "auth"@.len());
    reveal_strlit("path");
    reveal_strlit("version");
    reveal_strlit("kind");
    assert("server"@.len() != "path"@.len());
    assert("server"@.len() != "version"@.len());
    assert("name"@[0] != "kind"@[0]);
    assert("namespace"@.len() != "name"@.len());
    assert("providerConfigRef"@.len() != "managementPolicies"@.len());
    assert("providerConfigRef"@.len() != "forProvider"@.len());
}

/// The pod identity binds the operator's service account in the stack's
/// cluster and region.
pub proof fn law_pod_identity_binds_service_account(state: EffectiveState)
    ensures
        child(child(Some(spec_pod_identity(state)), "spec"@), "clusterName"@) == Some(
            json_str(state.cluster_name@),
        ),
        child(child(Some(spec_pod_identity(state)), "spec"@), "region"@) == Some(
            json_str(state.aws_region@),
        ),
        child(child(child(Some(spec_pod_identity(state)), "spec"@), "serviceAccount"@), "name"@)
            == Some(json_str(state.service_account_name@)),
        child(
            child(child(Some(spec_pod_identity(state)), "spec"@), "serviceAccount"@),
            "namespace"@,
        ) == Some(json_str(state.service_account_namespace@)),
{
    broadcast use crate::json::lemma_lookup_members_insert, crate::json::lemma_lookup_empty;

    lemma_key_literals();
    reveal_strlit("managementPolicies");
    reveal_strlit("clusterName");
    reveal_strlit("region");
    reveal_strlit("providerConfigRef");
    reveal_strlit("serviceAccount");
    reveal_strlit("inlinePolicy");
    reveal_strlit("tags");
    reveal_strlit("rolePrefix");
    reveal_strlit("permissionsBoundaryArn");
    reveal_strlit("name");
    reveal_strlit("namespace");
    assert("clusterName"@[0] != "serviceAccount"@[0]);
    assert("clusterName"@[0] != "inlinePolicy"@[0]);
    assert("clusterName"@[0] != "rolePrefix"@[0]);
    assert("region"@[0] != "rolePrefix"@[1]);
    assert("region"@.len() != "rolePrefix"@.len());
    assert("region"@.len() != "clusterName"@.len());
    assert("region"@.len() != "tags"@.len());
    assert("region"@.len() != "inlinePolicy"@.len());
    assert("region"@.len() != "serviceAccount"@.len());
    assert("region"@.len() != "providerConfigRef"@.len());
    assert("region"@.len() != "permissionsBoundaryArn"@.len());
    assert("serviceAccount"@.len() != "inlinePolicy"@.len());
    assert("serviceAccount"@.len() != "tags"@.len());
    assert("serviceAccount"@.len() != "rolePrefix"@.len());
    assert("serviceAccount"@.len() != "permissionsBoundaryArn"@.len());
    assert("clusterName"@.len() != "tags"@.len());
    assert("clusterName"@.len() != "permissionsBoundaryArn"@.len());
}

/// A document's `metadata.labels`.
pub open spec fn labels_of(doc: JsonView) -> Option<JsonView> {
    child(child(Some(doc), "metadata"@), "labels"@)
}

/// Every composed resource carries the stack's labels, and each Helm release
/// uses the Helm provider configuration.
pub proof fn law_bodies_carry_stack_labels(state: EffectiveState)
    ensures
        labels_of(spec_helm_external_secrets(state)) == Some(json_obj(state.labels@)),
        labels_of(spec_helm_vault(state)) == Some(json_obj(state.labels@)),
        labels_of(spec_pod_identity(state)) == Some(json_obj(state.labels@)),
        labels_of(spec_usage_pod_identity_protects_until_helm_gone(state)) == Some(
            json_obj(state.labels@),
        ),
        labels_of(spec_secret_store_object(state)) == Some(json_obj(state.labels@)),
        labels_of(spec_usage_secret_store_before_eso_helm(state)) == Some(json_obj(state.labels@)),
        labels_of(spec_usage_secret_store_before_vault(state)) == Some(json_obj(state.labels@)),
        child(
            child(child(Some(spec_helm_external_secrets(state)), "spec"@), "providerConfigRef"@),
            "name"@,
        ) == Some(json_str(state.helm_provider.name@)),
        child(child(child(Some(spec_helm_vault(state)), "spec"@), "providerConfigRef"@), "name"@)
            == Some(json_str(state.helm_provider.name@)),
{
    broadcast use crate::json::lemma_lookup_members_insert, crate::json::lemma_lookup_empty;

    lemma_key_literals();
    reveal_strlit("providerConfigRef");
    reveal_strlit("rollbackLimit");
    reveal_strlit("name");
    reveal_strlit("kind");
    assert("providerConfigRef"@.len() != "rollbackLimit"@.len());
    assert("name"@[0] != "kind"@[0]);
}

} // verus!
