//! The effective state of a secret stack: the stack's input with every
//! default filled in, the observed signals, and the status written back.
use crate::gate::{ObservedSlice, Ready};
use crate::json::{members2, members_insert_all, Json, JsonMap, JsonView};
use vstd::prelude::*;
use vstd::string::*;

verus! {

/// Which secret backend the store reads from.
#[derive(Debug, Clone, Copy, PartialEq, Eq, Structural)]
pub enum Backend {
    Aws,
    Vault,
}

impl Default for Backend {
    fn default() -> (r: Self)
        ensures
            r == Backend::Aws,
    {
        Backend::Aws
    }
}

/// Whether the store is a namespaced SecretStore or a ClusterSecretStore.
#[derive(Debug, Clone, Copy, PartialEq, Eq, Structural)]
pub enum SecretStoreScope {
    Namespaced,
    Cluster,
}

impl Default for SecretStoreScope {
    fn default() -> (r: Self)
        ensures
            r == SecretStoreScope::Namespaced,
    {
        SecretStoreScope::Namespaced
    }
}

/// A reference to a provider configuration.
#[derive(Debug, Clone, PartialEq, Eq)]
pub struct ProviderConfigRef {
    pub name: String,
    pub kind: String,
}

impl ProviderConfigRef {
    pub fn new(name: &str, kind: &str) -> (r: Self)
        ensures
            r.name@ == name@,
            r.kind@ == kind@,
    {
        ProviderConfigRef { name: name.to_owned(), kind: kind.to_owned() }
    }
}

/// Every setting of a secret stack, with its defaults filled in.
#[derive(Debug, Clone, PartialEq)]
pub struct EffectiveState {
    pub name: String,
    pub cluster_name: String,
    pub namespace: String,
    pub management_policies: Vec<String>,
    pub labels: JsonMap,
    pub backend: Backend,
    pub helm_release_name: String,
    pub helm_namespace: String,
    pub helm_provider: ProviderConfigRef,
    pub helm_values: Json,
    pub helm_override_all: Option<Json>,
    pub k8s_provider: ProviderConfigRef,
    pub aws_enabled: bool,
    pub aws_region: String,
    pub aws_provider: ProviderConfigRef,
    pub aws_permissions_boundary_arn: String,
    pub aws_role_prefix: String,
    pub aws_tags: JsonMap,
    pub vault_enabled: bool,
    pub vault_install: bool,
    pub vault_namespace: String,
    pub vault_release_name: String,
    pub vault_server: String,
    pub vault_path: String,
    pub vault_version: String,
    pub vault_auth_method: String,
    pub vault_auth_mount_path: String,
    pub vault_auth_role: String,
    pub vault_token_secret_name: String,
    pub vault_token_secret_key: String,
    pub vault_token_secret_namespace: String,
    pub vault_values: Json,
    pub vault_override_all: Option<Json>,
    pub secret_store_enabled: bool,
    pub secret_store_scope: SecretStoreScope,
    pub secret_store_name: String,
    pub pod_identity_name: String,
    pub service_account_name: String,
    pub service_account_namespace: String,
}

/// The stack's input: the subset of the resource's fields that the state reads.
#[derive(Debug, Clone)]
pub struct SecretStackSpec {
    pub metadata_name: String,
    pub cluster_name: String,
    pub backend: Backend,
    pub namespace: Option<String>,
    pub release_name: Option<String>,
    pub labels: JsonMap,
    pub management_policies: Option<Vec<String>>,
    pub values: Json,
    pub override_all_values: Option<Json>,
    pub helm_provider_name: Option<String>,
    pub k8s_provider_name: Option<String>,
    pub aws_provider_name: Option<String>,
    pub aws_region: Option<String>,
    pub aws_permissions_boundary_arn: Option<String>,
    pub aws_role_prefix: Option<String>,
    pub aws_tags: JsonMap,
    pub vault_install: bool,
    pub vault_namespace: Option<String>,
    pub vault_release_name: Option<String>,
    pub vault_server: Option<String>,
    pub vault_path: Option<String>,
    pub vault_version: Option<String>,
    pub vault_auth_method: Option<String>,
    pub vault_auth_mount_path: Option<String>,
    pub vault_auth_role: Option<String>,
    pub vault_token_secret_name: Option<String>,
    pub vault_token_secret_key: Option<String>,
    pub vault_token_secret_namespace: Option<String>,
    pub vault_values: Json,
    pub vault_override_all: Option<Json>,
    pub secret_store_enabled: Option<bool>,
    pub secret_store_scope: Option<SecretStoreScope>,
    pub secret_store_name: Option<String>,
}

impl Default for SecretStackSpec {
    fn default() -> (r: Self)
        ensures
            r.metadata_name@.len() == 0,
            r.cluster_name@.len() == 0,
            r.backend == Backend::Aws,
            r.namespace is None,
            r.release_name is None,
            r.labels@.len() == 0,
            r.management_policies is None,
            r.values@ is Null,
            r.override_all_values is None,
            r.helm_provider_name is None,
            r.k8s_provider_name is None,
            r.aws_provider_name is None,
            r.aws_region is None,
            r.aws_permissions_boundary_arn is None,
            r.aws_role_prefix is None,
            r.aws_tags@.len() == 0,
            !r.vault_install,
            r.vault_namespace is None,
            r.vault_release_name is None,
            r.vault_server is None,
            r.vault_path is None,
            r.vault_version is None,
            r.vault_auth_method is None,
            r.vault_auth_mount_path is None,
            r.vault_auth_role is None,
            r.vault_token_secret_name is None,
            r.vault_token_secret_key is None,
            r.vault_token_secret_namespace is None,
            r.vault_values@ is Null,
            r.vault_override_all is None,
            r.secret_store_enabled is None,
            r.secret_store_scope is None,
            r.secret_store_name is None,
    {
        SecretStackSpec {
            metadata_name: String::new(),
            cluster_name: String::new(),
            backend: Backend::Aws,
            namespace: None,
            release_name: None,
            labels: JsonMap::new(),
            management_policies: None,
            values: Json::Null,
            override_all_values: None,
            helm_provider_name: None,
            k8s_provider_name: None,
            aws_provider_name: None,
            aws_region: None,
            aws_permissions_boundary_arn: None,
            aws_role_prefix: None,
            aws_tags: JsonMap::new(),
            vault_install: false,
            vault_namespace: None,
            vault_release_name: None,
            vault_server: None,
            vault_path: None,
            vault_version: None,
            vault_auth_method: None,
            vault_auth_mount_path: None,
            vault_auth_role: None,
            vault_token_secret_name: None,
            vault_token_secret_key: None,
            vault_token_secret_namespace: None,
            vault_values: Json::Null,
            vault_override_all: None,
            secret_store_enabled: None,
            secret_store_scope: None,
            secret_store_name: None,
        }
    }
}

/// The text of an optional string, or `d` when it is absent.
pub open spec fn text_or(o: Option<String>, d: Seq<char>) -> Seq<char> {
    match o {
        Some(s) => s@,
        None => d,
    }
}

/// The view of an optional JSON value.
pub open spec fn opt_json_view(o: Option<Json>) -> Option<JsonView> {
    match o {
        Some(j) => Some(j@),
        None => None,
    }
}

/// A JSON value, with `null` read as an empty object.
pub open spec fn object_if_null(j: JsonView) -> JsonView {
    if j is Null {
        JsonView::Object(Seq::empty())
    } else {
        j
    }
}

/// The stack's name: the resource's name, or `external-secrets` when empty.
pub open spec fn spec_stack_name(spec: SecretStackSpec) -> Seq<char> {
    if spec.metadata_name@.len() == 0 {
        "external-secrets"@
    } else {
        spec.metadata_name@
    }
}

/// The cluster's name: the given one, or the stack's name when empty.
pub open spec fn spec_cluster_name(spec: SecretStackSpec) -> Seq<char> {
    if spec.cluster_name@.len() == 0 {
        spec_stack_name(spec)
    } else {
        spec.cluster_name@
    }
}

/// The namespace: the given one, or `external-secrets`.
pub open spec fn spec_namespace(spec: SecretStackSpec) -> Seq<char> {
    text_or(spec.namespace, "external-secrets"@)
}

/// The two labels every composed resource carries, before the user's labels.
pub open spec fn stack_labels(name: Seq<char>) -> Seq<(Seq<char>, JsonView)> {
    members2(
        "hops.ops.com.ai/managed"@,
        JsonView::Str("true"@),
        "hops.ops.com.ai/secretstack"@,
        JsonView::Str(name),
    )
}

/// The labels: the stack's own two, then the user's, each set in turn.
pub open spec fn spec_labels(spec: SecretStackSpec) -> Seq<(Seq<char>, JsonView)> {
    members_insert_all(stack_labels(spec_stack_name(spec)), spec.labels@)
}

/// Vault is installed in the cluster: only with the vault backend.
pub open spec fn spec_vault_install(spec: SecretStackSpec) -> bool {
    spec.backend == Backend::Vault && spec.vault_install
}

/// The server of an in-cluster Vault release.
pub open spec fn in_cluster_vault_server(release: Seq<char>, namespace: Seq<char>) -> Seq<char> {
    "http://"@ + release + "."@ + namespace + ".svc.cluster.local:8200"@
}

/// The Vault server: a given non-empty one, else the in-cluster one when Vault
/// is installed, else empty.
pub open spec fn spec_vault_server(spec: SecretStackSpec) -> Seq<char> {
    if spec.vault_server is Some && spec.vault_server->0@.len() > 0 {
        spec.vault_server->0@
    } else if spec_vault_install(spec) {
        in_cluster_vault_server(
            text_or(spec.vault_release_name, "vault"@),
            text_or(spec.vault_namespace, "vault"@),
        )
    } else {
        Seq::empty()
    }
}

/// The given text of an optional string, or a copy of `d`.
fn text_or_else(o: &Option<String>, d: &str) -> (r: String)
    ensures
        r@ == text_or(*o, d@),
{
    match o {
        Some(s) => s.clone(),
        None => d.to_owned(),
    }
}

/// A copy of an optional JSON value.
fn clone_opt_json(o: &Option<Json>) -> (r: Option<Json>)
    ensures
        opt_json_view(r) == opt_json_view(*o),
{
    match o {
        Some(j) => Some(j.clone_json()),
        None => None,
    }
}

/// A copy of a JSON value, with `null` read as an empty object.
fn object_or_copy(j: &Json) -> (r: Json)
    ensures
        r@ == object_if_null(j@),
{
    if j.is_null() {
        Json::empty_object()
    } else {
        j.clone_json()
    }
}

/// A copy of a list of strings.
fn clone_strings(v: &Vec<String>) -> (r: Vec<String>)
    ensures
        r@ == v@,
{
    let mut out: Vec<String> = Vec::new();
    let n = v.len();
    for i in 0..n
        invariant
            n == v.len(),
            out@ == v@.subrange(0, i as int),
    {
        out.push(v[i].clone());
        assert(out@ =~= v@.subrange(0, i + 1));
    }
    assert(v@.subrange(0, n as int) =~= v@);
    out
}

impl EffectiveState {
    /// Fills in every default of the stack's input.
    #[verifier::rlimit(40)]
    pub fn from_spec(spec: &SecretStackSpec) -> (r: Self)
        ensures
            r.name@ == spec_stack_name(*spec),
            r.cluster_name@ == spec_cluster_name(*spec),
            r.namespace@ == spec_namespace(*spec),
            r.management_policies.deep_view() == (match spec.management_policies {
                Some(v) => v.deep_view(),
                None => seq!["*"@],
            }),
            r.labels@ == spec_labels(*spec),
            r.backend == spec.backend,
            r.helm_release_name@ == text_or(spec.release_name, "external-secrets"@),
            r.helm_namespace@ == spec_namespace(*spec),
            r.helm_provider.name@ == text_or(spec.helm_provider_name, spec_cluster_name(*spec)),
            r.helm_provider.kind@ == "ProviderConfig"@,
            r.helm_values@ == object_if_null(spec.values@),
            opt_json_view(r.helm_override_all) == opt_json_view(spec.override_all_values),
            r.k8s_provider.name@ == text_or(spec.k8s_provider_name, spec_cluster_name(*spec)),
            r.k8s_provider.kind@ == "ProviderConfig"@,
            r.aws_enabled == (spec.backend == Backend::Aws),
            r.aws_region@ == text_or(spec.aws_region, Seq::empty()),
            r.aws_provider.name@ == text_or(spec.aws_provider_name, "default"@),
            r.aws_provider.kind@ == "ProviderConfig"@,
            r.aws_permissions_boundary_arn@ == text_or(
                spec.aws_permissions_boundary_arn,
                Seq::empty(),
            ),
            r.aws_role_prefix@ == text_or(spec.aws_role_prefix, Seq::empty()),
            r.aws_tags@ == members_insert_all(spec_labels(*spec), spec.aws_tags@),
            r.vault_enabled == (spec.backend == Backend::Vault),
            r.vault_install == spec_vault_install(*spec),
            r.vault_namespace@ == text_or(spec.vault_namespace, "vault"@),
            r.vault_release_name@ == text_or(spec.vault_release_name, "vault"@),
            r.vault_server@ == spec_vault_server(*spec),
            r.vault_path@ == text_or(spec.vault_path, "secret"@),
            r.vault_version@ == text_or(spec.vault_version, "v2"@),
            r.vault_auth_method@ == text_or(
                spec.vault_auth_method,
                if spec_vault_install(*spec) {
                    "kubernetes"@
                } else {
                    "token"@
                },
            ),
            r.vault_auth_mount_path@ == text_or(spec.vault_auth_mount_path, "kubernetes"@),
            r.vault_auth_role@ == text_or(spec.vault_auth_role, "external-secrets"@),
            r.vault_token_secret_name@ == text_or(spec.vault_token_secret_name, "vault-token"@),
            r.vault_token_secret_key@ == text_or(spec.vault_token_secret_key, "token"@),
            r.vault_token_secret_namespace@ == text_or(
                spec.vault_token_secret_namespace,
                spec_namespace(*spec),
            ),
            r.vault_values@ == object_if_null(spec.vault_values@),
            opt_json_view(r.vault_override_all) == opt_json_view(spec.vault_override_all),
            r.secret_store_enabled == (match spec.secret_store_enabled {
                Some(b) => b,
                None => true,
            }),
            r.secret_store_scope == (match spec.secret_store_scope {
                Some(s) => s,
                None => SecretStoreScope::Namespaced,
            }),
            r.secret_store_name@ == text_or(spec.secret_store_name, "default"@),
            r.pod_identity_name@ == spec_stack_name(*spec) + "-external-secrets"@,
            r.service_account_name@ == "external-secrets"@,
            r.service_account_namespace@ == spec_namespace(*spec),
            r.aws_enabled != r.vault_enabled,
            r.vault_install ==> r.vault_enabled,
            r.vault_install ==> r.vault_server@.len() > 0,
    {
        proof {
            reveal_strlit("");
            reveal_strlit("http://");
        }
        let name: String = if spec.metadata_name.as_str().is_empty() {
            "external-secrets".to_owned()
        } else {
            spec.metadata_name.clone()
        };
        let cluster_name: String = if spec.cluster_name.as_str().is_empty() {
            name.clone()
        } else {
            spec.cluster_name.clone()
        };
        let namespace = text_or_else(&spec.namespace, "external-secrets");
        let backend = spec.backend;

        let mut labels = JsonMap::new().with("hops.ops.com.ai/managed", Json::text("true")).with(
            "hops.ops.com.ai/secretstack",
            Json::Str(name.clone()),
        );
        assert(labels@ == stack_labels(name@));
        labels.insert_all(&spec.labels);

        let mut aws_tags = labels.clone_map();
        aws_tags.insert_all(&spec.aws_tags);

        let vault_enabled = match backend {
            Backend::Vault => true,
            Backend::Aws => false,
        };
        let vault_install = vault_enabled && spec.vault_install;
        let vault_namespace = text_or_else(&spec.vault_namespace, "vault");
        let vault_release_name = text_or_else(&spec.vault_release_name, "vault");
        let vault_server: String = match &spec.vault_server {
            Some(s) if !s.as_str().is_empty() => s.clone(),
            _ => {
                if vault_install {
                    "http://".to_owned().concat(vault_release_name.as_str()).concat(".").concat(
                        vault_namespace.as_str(),
                    ).concat(".svc.cluster.local:8200")
                } else {
                    String::new()
                }
            },
        };
        let vault_auth_method = match &spec.vault_auth_method {
            Some(m) => m.clone(),
            None => {
                if vault_install {
                    "kubernetes".to_owned()
                } else {
                    "token".to_owned()
                }
            },
        };
        let management_policies: Vec<String> = match &spec.management_policies {
            Some(v) => clone_strings(v),
            None => {
                let mut v: Vec<String> = Vec::new();
                v.push("*".to_owned());
                v
            },
        };
        proof {
            if spec.management_policies is Some {
                assert(management_policies.deep_view() =~= spec.management_policies->0.deep_view());
            } else {
                assert(management_policies.deep_view() =~= seq!["*"@]);
            }
        }
        let helm_provider_name = text_or_else(&spec.helm_provider_name, cluster_name.as_str());
        let k8s_provider_name = text_or_else(&spec.k8s_provider_name, cluster_name.as_str());
        let aws_provider_name = text_or_else(&spec.aws_provider_name, "default");
        let vault_token_secret_namespace = text_or_else(
            &spec.vault_token_secret_namespace,
            namespace.as_str(),
        );
        let pod_identity_name = name.clone().concat("-external-secrets");

        EffectiveState {
            name: name,
            cluster_name: cluster_name,
            namespace: namespace.clone(),
            management_policies,
            labels,
            backend,
            helm_release_name: text_or_else(&spec.release_name, "external-secrets"),
            helm_namespace: namespace.clone(),
            helm_provider: ProviderConfigRef::new(helm_provider_name.as_str(), "ProviderConfig"),
            helm_values: object_or_copy(&spec.values),
            helm_override_all: clone_opt_json(&spec.override_all_values),
            k8s_provider: ProviderConfigRef::new(k8s_provider_name.as_str(), "ProviderConfig"),
            aws_enabled: match backend {
                Backend::Aws => true,
                Backend::Vault => false,
            },
            aws_region: text_or_else(&spec.aws_region, ""),
            aws_provider: ProviderConfigRef::new(aws_provider_name.as_str(), "ProviderConfig"),
            aws_permissions_boundary_arn: text_or_else(&spec.aws_permissions_boundary_arn, ""),
            aws_role_prefix: text_or_else(&spec.aws_role_prefix, ""),
            aws_tags,
            vault_enabled,
            vault_install,
            vault_namespace,
            vault_release_name,
            vault_server,
            vault_path: text_or_else(&spec.vault_path, "secret"),
            vault_version: text_or_else(&spec.vault_version, "v2"),
            vault_auth_method,
            vault_auth_mount_path: text_or_else(&spec.vault_auth_mount_path, "kubernetes"),
            vault_auth_role: text_or_else(&spec.vault_auth_role, "external-secrets"),
            vault_token_secret_name: text_or_else(&spec.vault_token_secret_name, "vault-token"),
            vault_token_secret_key: text_or_else(&spec.vault_token_secret_key, "token"),
            vault_token_secret_namespace,
            vault_values: object_or_copy(&spec.vault_values),
            vault_override_all: clone_opt_json(&spec.vault_override_all),
            secret_store_enabled: match spec.secret_store_enabled {
                Some(b) => b,
                None => true,
            },
            secret_store_scope: match spec.secret_store_scope {
                Some(s) => s,
                None => SecretStoreScope::Namespaced,
            },
            secret_store_name: text_or_else(&spec.secret_store_name, "default"),
            pod_identity_name,
            service_account_name: "external-secrets".to_owned(),
            service_account_namespace: namespace,
        }
    }
}

/// The observed signals of the four composed resources that gate others.
#[derive(Debug, Clone, PartialEq, Eq)]
pub struct Observed {
    pub helm_external_secrets: ObservedSlice,
    pub helm_vault: ObservedSlice,
    pub pod_identity: ObservedSlice,
    pub secret_store: ObservedSlice,
}

/// Nothing observed yet: every resource missing and not ready.
pub open spec fn nothing_observed(obs: Observed) -> bool {
    &&& !obs.helm_external_secrets.exists.0 && !obs.helm_external_secrets.ready.0
    &&& !obs.helm_vault.exists.0 && !obs.helm_vault.ready.0
    &&& !obs.pod_identity.exists.0 && !obs.pod_identity.ready.0
    &&& !obs.secret_store.exists.0 && !obs.secret_store.ready.0
}

impl Observed {
    /// The first reconcile: nothing observed.
    pub fn bootstrap() -> (r: Self)
        ensures
            nothing_observed(r),
    {
        Observed {
            helm_external_secrets: ObservedSlice::missing(),
            helm_vault: ObservedSlice::missing(),
            pod_identity: ObservedSlice::missing(),
            secret_store: ObservedSlice::missing(),
        }
    }
}

impl Default for Observed {
    fn default() -> (r: Self)
        ensures
            nothing_observed(r),
    {
        Observed::bootstrap()
    }
}

/// The status written back to the stack.
#[derive(Debug, Clone, PartialEq, Eq)]
pub struct StatusOut {
    pub ready: bool,
    pub backend: Backend,
    pub secret_store_name: String,
    pub secret_store_scope: SecretStoreScope,
    pub secret_store_ready: bool,
    pub vault: Option<VaultStatus>,
}

/// The status of an in-cluster Vault release.
#[derive(Debug, Clone, PartialEq, Eq)]
pub struct VaultStatus {
    pub release_name: String,
    pub namespace: String,
    pub ready: bool,
}

/// `status` is what the state and the observed signals give: never ready by
/// itself (overall readiness is decided elsewhere), the store's settings and
/// readiness, and a Vault part exactly when Vault is installed.
pub open spec fn status_of(status: StatusOut, state: EffectiveState, obs: Observed) -> bool {
    &&& !status.ready
    &&& status.backend == state.backend
    &&& status.secret_store_name@ == state.secret_store_name@
    &&& status.secret_store_scope == state.secret_store_scope
    &&& status.secret_store_ready == obs.secret_store.ready.0
    &&& (status.vault is Some <==> state.vault_install)
    &&& (status.vault matches Some(v) ==> {
        &&& v.release_name@ == state.vault_release_name@
        &&& v.namespace@ == state.vault_namespace@
        &&& v.ready == obs.helm_vault.ready.0
    })
}

/// The status of the stack.
pub fn compute_status(state: &EffectiveState, obs: &Observed) -> (r: StatusOut)
    ensures
        status_of(r, *state, *obs),
{
    StatusOut {
        ready: false,
        backend: state.backend,
        secret_store_name: state.secret_store_name.clone(),
        secret_store_scope: state.secret_store_scope,
        secret_store_ready: obs.secret_store.ready.is_set(),
        vault: if state.vault_install {
            Some(
                VaultStatus {
                    release_name: state.vault_release_name.clone(),
                    namespace: state.vault_namespace.clone(),
                    ready: obs.helm_vault.ready.is_set(),
                },
            )
        } else {
            None
        },
    }
}

/// Ready exactly when every one of the given signals is ready.
pub fn all_ready(slices: &[Ready]) -> (r: Ready)
    ensures
        r.0 == (forall|i: int| 0 <= i < slices@.len() ==> #[trigger] slices@[i].0),
{
    let n = slices.len();
    let mut all = true;
    for i in 0..n
        invariant
            n == slices@.len(),
            all == (forall|j: int| 0 <= j < i ==> #[trigger] slices@[j].0),
    {
        all = all && slices[i].is_set();
    }
    Ready(all)
}

} // verus!
