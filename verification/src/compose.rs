//! Layered composition of a secret stack.
//!
//! Gate graph:
//!
//! ```text
//! [root, always]
//!   helm-external-secrets
//!   helm-vault                 if vault.install
//!   pod-identity               if backend=aws
//!   usage-pod-identity         if backend=aws and both ready
//!
//! [under the operator's existence (revision > 0)]
//!   + vault exists if vault.install
//!   + aws.region non-empty if backend=aws
//!   + vault.server non-empty if backend=vault
//!     secret-store
//!     usage-secret-store-helm  if secret-store ready
//!     usage-secret-store-vault if vault.install and both ready
//! ```
//!
//! Existence gates dependents; readiness gates Usages only.
pub mod names;

use crate::desired::Desired;
use crate::gate::{Exists, Ready};
use crate::json::{
    has_key, key_index, keys_distinct, lemma_insert_absent_key, lemma_key_index, lookup,
    JsonView,
};
use crate::resources;
use crate::resources::{
    composition_name_of, json_str, law_helm_releases_targets, law_pod_identity_tags_and_name,
    law_bodies_carry_stack_labels, labels_of, law_secret_store_named,
    law_usage_pod_identity_references,
    law_usage_store_before_eso_helm_references, law_usage_store_before_vault_references,
    metadata_name_of, usage_by_name, usage_of_name, spec_helm_external_secrets, spec_helm_vault, spec_pod_identity, spec_secret_store_object,
    spec_usage_pod_identity_protects_until_helm_gone, spec_usage_secret_store_before_eso_helm,
    spec_usage_secret_store_before_vault,
};
use crate::state::{all_ready, compute_status, status_of, EffectiveState, Observed, StatusOut};
use names::{
    lemma_names_distinct, HELM_ESO, HELM_VAULT, POD_IDENTITY, SECRET_STORE, USAGE_POD_IDENTITY,
    USAGE_SECRET_STORE_HELM, USAGE_SECRET_STORE_VAULT,
};
use vstd::prelude::*;

verus! {

/// The desired resources and the status of one reconcile.
pub struct ComposeResult {
    pub desired: Desired,
    pub status: StatusOut,
}

/// Gate of the secret-store layer: the store is enabled, the operator's
/// release exists, Vault's release exists when it is installed, and the
/// backend's location (Vault server or AWS region) is not empty.
pub open spec fn store_gate(state: EffectiveState, obs: Observed) -> bool {
    &&& state.secret_store_enabled
    &&& obs.helm_external_secrets.exists.0
    &&& (state.vault_install ==> obs.helm_vault.exists.0)
    &&& (state.vault_enabled ==> state.vault_server@.len() > 0)
    &&& (state.aws_enabled ==> state.aws_region@.len() > 0)
}

/// The root layer, in order: the operator's release, Vault's release when it is
/// installed, and with the AWS backend the pod identity and, when the operator
/// and the pod identity are both ready, its Usage.
pub open spec fn spec_root_layer(state: EffectiveState, obs: Observed) -> Seq<
    (Seq<char>, JsonView),
> {
    let eso = seq![(HELM_ESO@, spec_helm_external_secrets(state))];
    let vault = if state.vault_install {
        eso.push((HELM_VAULT@, spec_helm_vault(state)))
    } else {
        eso
    };
    if state.aws_enabled {
        let pi = vault.push((POD_IDENTITY@, spec_pod_identity(state)));
        if obs.helm_external_secrets.ready.0 && obs.pod_identity.ready.0 {
            pi.push((USAGE_POD_IDENTITY@, spec_usage_pod_identity_protects_until_helm_gone(state)))
        } else {
            pi
        }
    } else {
        vault
    }
}

/// The secret-store layer, in order: the store, its Usage on the operator's
/// release when the store is ready, and its Usage on Vault's release when Vault
/// is installed and both are ready.
pub open spec fn spec_store_layer(state: EffectiveState, obs: Observed) -> Seq<
    (Seq<char>, JsonView),
> {
    let store = seq![(SECRET_STORE@, spec_secret_store_object(state))];
    let helm = if obs.secret_store.ready.0 {
        store.push((USAGE_SECRET_STORE_HELM@, spec_usage_secret_store_before_eso_helm(state)))
    } else {
        store
    };
    if state.vault_install && obs.secret_store.ready.0 && obs.helm_vault.ready.0 {
        helm.push((USAGE_SECRET_STORE_VAULT@, spec_usage_secret_store_before_vault(state)))
    } else {
        helm
    }
}

/// The desired resources of one reconcile: the root layer, then the
/// secret-store layer when its gate is set.
pub open spec fn spec_composed(state: EffectiveState, obs: Observed) -> Seq<
    (Seq<char>, JsonView),
> {
    if store_gate(state, obs) {
        spec_root_layer(state, obs) + spec_store_layer(state, obs)
    } else {
        spec_root_layer(state, obs)
    }
}

/// The names of the root layer: the root names only.
proof fn lemma_root_layer_names(state: EffectiveState, obs: Observed)
    ensures
        !has_key(spec_root_layer(state, obs), SECRET_STORE@),
        !has_key(spec_root_layer(state, obs), USAGE_SECRET_STORE_HELM@),
        !has_key(spec_root_layer(state, obs), USAGE_SECRET_STORE_VAULT@),
        has_key(spec_root_layer(state, obs), HELM_ESO@),
        has_key(spec_root_layer(state, obs), HELM_VAULT@) <==> state.vault_install,
        has_key(spec_root_layer(state, obs), POD_IDENTITY@) <==> state.aws_enabled,
        has_key(spec_root_layer(state, obs), USAGE_POD_IDENTITY@) <==> (state.aws_enabled
            && obs.helm_external_secrets.ready.0 && obs.pod_identity.ready.0),
        keys_distinct(spec_root_layer(state, obs)),
{
    lemma_names_distinct();
    let e = Seq::<(Seq<char>, JsonView)>::empty();
    let eso = seq![(HELM_ESO@, spec_helm_external_secrets(state))];
    lemma_insert_absent_key(e, HELM_ESO@, spec_helm_external_secrets(state));
    assert(eso == e.push((HELM_ESO@, spec_helm_external_secrets(state))));
    let vault = if state.vault_install {
        eso.push((HELM_VAULT@, spec_helm_vault(state)))
    } else {
        eso
    };
    if state.vault_install {
        lemma_insert_absent_key(eso, HELM_VAULT@, spec_helm_vault(state));
    }
    if state.aws_enabled {
        lemma_insert_absent_key(vault, POD_IDENTITY@, spec_pod_identity(state));
        let pi = vault.push((POD_IDENTITY@, spec_pod_identity(state)));
        lemma_insert_absent_key(
            pi,
            USAGE_POD_IDENTITY@,
            spec_usage_pod_identity_protects_until_helm_gone(state),
        );
    }
}

/// The names of the store layer: the store names only.
proof fn lemma_store_layer_names(state: EffectiveState, obs: Observed)
    ensures
        has_key(spec_store_layer(state, obs), SECRET_STORE@),
        has_key(spec_store_layer(state, obs), USAGE_SECRET_STORE_HELM@) <==> obs.secret_store.ready.0,
        has_key(spec_store_layer(state, obs), USAGE_SECRET_STORE_VAULT@) <==> (state.vault_install
            && obs.secret_store.ready.0 && obs.helm_vault.ready.0),
        !has_key(spec_store_layer(state, obs), HELM_ESO@),
        !has_key(spec_store_layer(state, obs), HELM_VAULT@),
        !has_key(spec_store_layer(state, obs), POD_IDENTITY@),
        !has_key(spec_store_layer(state, obs), USAGE_POD_IDENTITY@),
        keys_distinct(spec_store_layer(state, obs)),
{
    lemma_names_distinct();
    let e = Seq::<(Seq<char>, JsonView)>::empty();
    let store = seq![(SECRET_STORE@, spec_secret_store_object(state))];
    lemma_insert_absent_key(e, SECRET_STORE@, spec_secret_store_object(state));
    assert(store == e.push((SECRET_STORE@, spec_secret_store_object(state))));
    let helm = if obs.secret_store.ready.0 {
        store.push((USAGE_SECRET_STORE_HELM@, spec_usage_secret_store_before_eso_helm(state)))
    } else {
        store
    };
    if obs.secret_store.ready.0 {
        lemma_insert_absent_key(
            store,
            USAGE_SECRET_STORE_HELM@,
            spec_usage_secret_store_before_eso_helm(state),
        );
    }
    if state.vault_install && obs.secret_store.ready.0 && obs.helm_vault.ready.0 {
        lemma_insert_absent_key(
            helm,
            USAGE_SECRET_STORE_VAULT@,
            spec_usage_secret_store_before_vault(state),
        );
    }
}

/// A key of a concatenation is a key of one of its parts.
proof fn lemma_has_key_concat(a: Seq<(Seq<char>, JsonView)>, b: Seq<(Seq<char>, JsonView)>)
    ensures
        forall|k: Seq<char>| #[trigger] has_key(a + b, k) <==> (has_key(a, k) || has_key(b, k)),
{
    assert forall|k: Seq<char>| #[trigger] has_key(a + b, k) <==> (has_key(a, k) || has_key(b, k)) by {
        let c = a + b;
        if has_key(c, k) {
            let j = choose|j: int| 0 <= j < c.len() && c[j].0 == k;
            if j < a.len() {
                assert(a[j].0 == k);
            } else {
                assert(b[j - a.len()].0 == k);
            }
        }
        if has_key(a, k) {
            let j = choose|j: int| 0 <= j < a.len() && a[j].0 == k;
            assert(c[j].0 == k);
        }
        if has_key(b, k) {
            let j = choose|j: int| 0 <= j < b.len() && b[j].0 == k;
            assert(c[j + a.len()].0 == k);
        }
    }
}

/// The names in the composed resources: which resource is present under which
/// signals.
pub proof fn law_composed_names(state: EffectiveState, obs: Observed)
    ensures
        has_key(spec_composed(state, obs), HELM_ESO@),
        has_key(spec_composed(state, obs), HELM_VAULT@) <==> state.vault_install,
        has_key(spec_composed(state, obs), POD_IDENTITY@) <==> state.aws_enabled,
        has_key(spec_composed(state, obs), USAGE_POD_IDENTITY@) <==> (state.aws_enabled
            && obs.helm_external_secrets.ready.0 && obs.pod_identity.ready.0),
        has_key(spec_composed(state, obs), SECRET_STORE@) <==> store_gate(state, obs),
        has_key(spec_composed(state, obs), USAGE_SECRET_STORE_HELM@) <==> (store_gate(state, obs)
            && obs.secret_store.ready.0),
        has_key(spec_composed(state, obs), USAGE_SECRET_STORE_VAULT@) <==> (store_gate(state, obs)
            && state.vault_install && obs.secret_store.ready.0 && obs.helm_vault.ready.0),
        keys_distinct(spec_composed(state, obs)),
{
    lemma_root_layer_names(state, obs);
    lemma_store_layer_names(state, obs);
    let a = spec_root_layer(state, obs);
    let b = spec_store_layer(state, obs);
    lemma_has_key_concat(a, b);
    if store_gate(state, obs) {
        let c = a + b;
        assert forall|i: int, j: int|
            0 <= i < c.len() && 0 <= j < c.len() && i != j implies c[i].0 != c[j].0 by {
            if i < a.len() && j >= a.len() {
                assert(has_key(b, c[j].0));
                assert(has_key(a, c[i].0));
                lemma_names_in_layers(state, obs, c[i].0);
            } else if j < a.len() && i >= a.len() {
                assert(has_key(b, c[i].0));
                assert(has_key(a, c[j].0));
                lemma_names_in_layers(state, obs, c[j].0);
            } else if i >= a.len() && j >= a.len() {
                assert(c[i] == b[i - a.len()]);
                assert(c[j] == b[j - a.len()]);
            }
        }
    }
}

/// No name is in both layers.
proof fn lemma_names_in_layers(state: EffectiveState, obs: Observed, k: Seq<char>)
    ensures
        !(has_key(spec_root_layer(state, obs), k) && has_key(spec_store_layer(state, obs), k)),
{
    let a = spec_root_layer(state, obs);
    let b = spec_store_layer(state, obs);
    lemma_root_layer_names(state, obs);
    lemma_store_layer_names(state, obs);
    lemma_names_distinct();
    if has_key(a, k) && has_key(b, k) {
        let j = choose|j: int| 0 <= j < b.len() && b[j].0 == k;
        assert(k == SECRET_STORE@ || k == USAGE_SECRET_STORE_HELM@ || k
            == USAGE_SECRET_STORE_VAULT@) by {
            let store = seq![(SECRET_STORE@, spec_secret_store_object(state))];
            assert(store[0].0 == SECRET_STORE@);
        }
    }
}

/// Composes the desired resources and the status of one reconcile.
pub fn compose(state: &EffectiveState, obs: &Observed) -> (r: ComposeResult)
    ensures
        r.desired@ == spec_composed(*state, *obs),
        status_of(r.status, *state, *obs),
{
    proof {
        lemma_names_distinct();
        lemma_root_layer_names(*state, *obs);
        lemma_store_layer_names(*state, *obs);
    }
    let mut d = Desired::new();

    // The root layer: no existence gate.
    proof {
        lemma_insert_absent_key(d@, HELM_ESO@, spec_helm_external_secrets(*state));
    }
    d.emit(HELM_ESO, resources::helm_external_secrets(state));
    assert(d@ =~= seq![(HELM_ESO@, spec_helm_external_secrets(*state))]);

    if state.vault_install {
        proof {
            lemma_insert_absent_key(d@, HELM_VAULT@, spec_helm_vault(*state));
        }
        d.emit(HELM_VAULT, resources::helm_vault(state));
    }
    if state.aws_enabled {
        proof {
            lemma_insert_absent_key(d@, POD_IDENTITY@, spec_pod_identity(*state));
        }
        d.emit(POD_IDENTITY, resources::pod_identity(state));
        proof {
            lemma_insert_absent_key(
                d@,
                USAGE_POD_IDENTITY@,
                spec_usage_pod_identity_protects_until_helm_gone(*state),
            );
        }
        // The Usage is gated on readiness: the operator's release is deleted
        // before the pod identity.
        d.usage_when_ready(
            obs.helm_external_secrets.ready & obs.pod_identity.ready,
            USAGE_POD_IDENTITY,
            resources::usage_pod_identity_protects_until_helm_gone(state),
        );
    }
    assert(d@ == spec_root_layer(*state, *obs));

    // The secret-store layer: the operator's sticky existence, and Vault's when
    // it is installed.
    let eso_exists = obs.helm_external_secrets.exists;
    let vault_exists_if_needed = if state.vault_install {
        obs.helm_vault.exists
    } else {
        Exists::yes()
    };
    let mut store_gate_set = state.secret_store_enabled && eso_exists.is_set()
        && vault_exists_if_needed.is_set();
    if store_gate_set && state.vault_enabled {
        store_gate_set = store_gate_set && !state.vault_server.as_str().is_empty();
    }
    if store_gate_set && state.aws_enabled {
        store_gate_set = store_gate_set && !state.aws_region.as_str().is_empty();
    }
    assert(store_gate_set == store_gate(*state, *obs));

    let store_layer = |layer: Desired| -> (out: Desired)
        requires
            layer@ == spec_root_layer(*state, *obs),
        ensures
            out@ == spec_root_layer(*state, *obs) + spec_store_layer(*state, *obs),
        {
            let mut layer = layer;
            let ghost root = layer@;
            proof {
                lemma_names_distinct();
                lemma_root_layer_names(*state, *obs);
                lemma_insert_absent_key(layer@, SECRET_STORE@, spec_secret_store_object(*state));
            }
            layer.emit(SECRET_STORE, resources::secret_store_object(state));
            proof {
                lemma_insert_absent_key(
                    layer@,
                    USAGE_SECRET_STORE_HELM@,
                    spec_usage_secret_store_before_eso_helm(*state),
                );
            }
            // Usages: readiness only.
            layer.usage_when_ready(
                obs.secret_store.ready,
                USAGE_SECRET_STORE_HELM,
                resources::usage_secret_store_before_eso_helm(state),
            );
            if state.vault_install {
                let pair: [Ready; 2] = [obs.secret_store.ready, obs.helm_vault.ready];
                let ready = all_ready(&pair);
                proof {
                    lemma_insert_absent_key(
                        layer@,
                        USAGE_SECRET_STORE_VAULT@,
                        spec_usage_secret_store_before_vault(*state),
                    );
                }
                layer.usage_when_ready(
                    ready,
                    USAGE_SECRET_STORE_VAULT,
                    resources::usage_secret_store_before_vault(state),
                );
            }
            assert(layer@ =~= root + spec_store_layer(*state, *obs));
            layer
        };
    d.under_exists(Exists(store_gate_set), store_layer);

    let status = compute_status(state, obs);
    ComposeResult { desired: d, status }
}

// ---------------------------------------------------------------------------
// Laws of composition.
// ---------------------------------------------------------------------------
/// The secret store is rendered exactly when its gate is set.
pub proof fn law_store_rendered_iff_gate(state: EffectiveState, obs: Observed)
    ensures
        has_key(spec_composed(state, obs), SECRET_STORE@) <==> store_gate(state, obs),
{
    law_composed_names(state, obs);
}

/// Readiness never gates a dependent resource: two observations that agree on
/// existence render the secret store alike, whatever their readiness.
pub proof fn law_readiness_never_gates_store(state: EffectiveState, obs1: Observed, obs2: Observed)
    requires
        obs1.helm_external_secrets.exists == obs2.helm_external_secrets.exists,
        obs1.helm_vault.exists == obs2.helm_vault.exists,
    ensures
        has_key(spec_composed(state, obs1), SECRET_STORE@) == has_key(
            spec_composed(state, obs2),
            SECRET_STORE@,
        ),
{
    law_composed_names(state, obs1);
    law_composed_names(state, obs2);
}

/// Every Usage is rendered only when all the signals it waits on are ready,
/// and the store's Usages only together with the store.
pub proof fn law_usages_wait_for_ready(state: EffectiveState, obs: Observed)
    ensures
        has_key(spec_composed(state, obs), USAGE_POD_IDENTITY@) ==> obs.helm_external_secrets.ready.0
            && obs.pod_identity.ready.0,
        has_key(spec_composed(state, obs), USAGE_SECRET_STORE_HELM@) ==> obs.secret_store.ready.0
            && has_key(spec_composed(state, obs), SECRET_STORE@),
        has_key(spec_composed(state, obs), USAGE_SECRET_STORE_VAULT@) ==> obs.secret_store.ready.0
            && obs.helm_vault.ready.0 && has_key(spec_composed(state, obs), SECRET_STORE@)
            && has_key(spec_composed(state, obs), HELM_VAULT@),
{
    law_composed_names(state, obs);
}

/// Composition is monotone in the signals: when every signal set in `obs1` is
/// also set in `obs2`, every resource rendered under `obs1` is rendered under
/// `obs2`.
pub proof fn law_more_signals_render_more(
    state: EffectiveState,
    obs1: Observed,
    obs2: Observed,
    name: Seq<char>,
)
    requires
        obs1.helm_external_secrets.exists.0 ==> obs2.helm_external_secrets.exists.0,
        obs1.helm_external_secrets.ready.0 ==> obs2.helm_external_secrets.ready.0,
        obs1.helm_vault.exists.0 ==> obs2.helm_vault.exists.0,
        obs1.helm_vault.ready.0 ==> obs2.helm_vault.ready.0,
        obs1.pod_identity.ready.0 ==> obs2.pod_identity.ready.0,
        obs1.secret_store.ready.0 ==> obs2.secret_store.ready.0,
        has_key(spec_composed(state, obs1), name),
    ensures
        has_key(spec_composed(state, obs2), name),
{
    law_composed_names(state, obs1);
    law_composed_names(state, obs2);
    law_every_name_is_known(state, obs1, name);
}

/// Every rendered name is one of the seven composition resource names.
pub proof fn law_every_name_is_known(state: EffectiveState, obs: Observed, name: Seq<char>)
    requires
        has_key(spec_composed(state, obs), name),
    ensures
        name == HELM_ESO@ || name == HELM_VAULT@ || name == POD_IDENTITY@ || name
            == USAGE_POD_IDENTITY@ || name == SECRET_STORE@ || name == USAGE_SECRET_STORE_HELM@
            || name == USAGE_SECRET_STORE_VAULT@,
{
    let c = spec_composed(state, obs);
    let j = choose|j: int| 0 <= j < c.len() && c[j].0 == name;
    let eso = seq![(HELM_ESO@, spec_helm_external_secrets(state))];
    let store = seq![(SECRET_STORE@, spec_secret_store_object(state))];
    assert(eso[0].0 == HELM_ESO@);
    assert(store[0].0 == SECRET_STORE@);
    let a = spec_root_layer(state, obs);
    if j >= a.len() {
        assert(c[j] == spec_store_layer(state, obs)[j - a.len()]);
    }
}

// ---------------------------------------------------------------------------
// Laws of the composed bodies.
// ---------------------------------------------------------------------------
/// The body that composition places under each name.
spec fn body_for(state: EffectiveState, name: Seq<char>) -> JsonView {
    if name == HELM_ESO@ {
        spec_helm_external_secrets(state)
    } else if name == HELM_VAULT@ {
        spec_helm_vault(state)
    } else if name == POD_IDENTITY@ {
        spec_pod_identity(state)
    } else if name == USAGE_POD_IDENTITY@ {
        spec_usage_pod_identity_protects_until_helm_gone(state)
    } else if name == SECRET_STORE@ {
        spec_secret_store_object(state)
    } else if name == USAGE_SECRET_STORE_HELM@ {
        spec_usage_secret_store_before_eso_helm(state)
    } else {
        spec_usage_secret_store_before_vault(state)
    }
}

/// Every entry's body is the one composed under its name.
spec fn entries_have_their_bodies(state: EffectiveState, c: Seq<(Seq<char>, JsonView)>) -> bool {
    forall|i: int| 0 <= i < c.len() ==> (#[trigger] c[i]).1 == body_for(state, c[i].0)
}

proof fn lemma_push_body(
    state: EffectiveState,
    c: Seq<(Seq<char>, JsonView)>,
    name: Seq<char>,
    body: JsonView,
)
    requires
        entries_have_their_bodies(state, c),
        body == body_for(state, name),
    ensures
        entries_have_their_bodies(state, c.push((name, body))),
{
    let d = c.push((name, body));
    assert forall|i: int| 0 <= i < d.len() implies (#[trigger] d[i]).1 == body_for(state, d[i].0) by {
        if i < c.len() {
            assert(d[i] == c[i]);
        }
    }
}

proof fn lemma_concat_bodies(
    state: EffectiveState,
    a: Seq<(Seq<char>, JsonView)>,
    b: Seq<(Seq<char>, JsonView)>,
)
    requires
        entries_have_their_bodies(state, a),
        entries_have_their_bodies(state, b),
    ensures
        entries_have_their_bodies(state, a + b),
{
    let d = a + b;
    assert forall|i: int| 0 <= i < d.len() implies (#[trigger] d[i]).1 == body_for(state, d[i].0) by {
        if i < a.len() {
            assert(d[i] == a[i]);
        } else {
            assert(d[i] == b[i - a.len()]);
        }
    }
}

proof fn lemma_composed_bodies(state: EffectiveState, obs: Observed)
    ensures
        entries_have_their_bodies(state, spec_composed(state, obs)),
{
    lemma_names_distinct();
    let e = Seq::<(Seq<char>, JsonView)>::empty();
    let eso = seq![(HELM_ESO@, spec_helm_external_secrets(state))];
    assert(eso == e.push((HELM_ESO@, spec_helm_external_secrets(state))));
    lemma_push_body(state, e, HELM_ESO@, spec_helm_external_secrets(state));
    let vault = if state.vault_install {
        eso.push((HELM_VAULT@, spec_helm_vault(state)))
    } else {
        eso
    };
    if state.vault_install {
        lemma_push_body(state, eso, HELM_VAULT@, spec_helm_vault(state));
    }
    if state.aws_enabled {
        lemma_push_body(state, vault, POD_IDENTITY@, spec_pod_identity(state));
        let pi = vault.push((POD_IDENTITY@, spec_pod_identity(state)));
        lemma_push_body(
            state,
            pi,
            USAGE_POD_IDENTITY@,
            spec_usage_pod_identity_protects_until_helm_gone(state),
        );
    }
    let root = spec_root_layer(state, obs);
    assert(entries_have_their_bodies(state, root));
    let store = seq![(SECRET_STORE@, spec_secret_store_object(state))];
    assert(store == e.push((SECRET_STORE@, spec_secret_store_object(state))));
    lemma_push_body(state, e, SECRET_STORE@, spec_secret_store_object(state));
    let helm = if obs.secret_store.ready.0 {
        store.push((USAGE_SECRET_STORE_HELM@, spec_usage_secret_store_before_eso_helm(state)))
    } else {
        store
    };
    if obs.secret_store.ready.0 {
        lemma_push_body(
            state,
            store,
            USAGE_SECRET_STORE_HELM@,
            spec_usage_secret_store_before_eso_helm(state),
        );
    }
    if state.vault_install && obs.secret_store.ready.0 && obs.helm_vault.ready.0 {
        lemma_push_body(
            state,
            helm,
            USAGE_SECRET_STORE_VAULT@,
            spec_usage_secret_store_before_vault(state),
        );
    }
    let layer = spec_store_layer(state, obs);
    assert(entries_have_their_bodies(state, layer));
    if store_gate(state, obs) {
        lemma_concat_bodies(state, root, layer);
    }
}

/// What a present name finds in the composed resources is its body.
proof fn lemma_lookup_composed(state: EffectiveState, obs: Observed, name: Seq<char>)
    ensures
        lookup(spec_composed(state, obs), name) is Some <==> has_key(spec_composed(state, obs), name),
        lookup(spec_composed(state, obs), name) is Some ==> lookup(spec_composed(state, obs), name)->0
            == body_for(state, name),
{
    let c = spec_composed(state, obs);
    lemma_composed_bodies(state, obs);
    lemma_key_index(c, name);
    if key_index(c, name) >= 0 {
        assert(c[key_index(c, name)].1 == body_for(state, c[key_index(c, name)].0));
    }
}

/// The composition resource name each composed body carries.
proof fn lemma_body_for_named(state: EffectiveState, name: Seq<char>)
    requires
        name == HELM_ESO@ || name == HELM_VAULT@ || name == POD_IDENTITY@ || name
            == USAGE_POD_IDENTITY@ || name == SECRET_STORE@ || name == USAGE_SECRET_STORE_HELM@
            || name == USAGE_SECRET_STORE_VAULT@,
    ensures
        composition_name_of(body_for(state, name)) == Some(json_str(name)),
{
    lemma_names_distinct();
    law_helm_releases_targets(state);
    law_pod_identity_tags_and_name(state);
    law_secret_store_named(state);
    law_usage_pod_identity_references(state);
    law_usage_store_before_eso_helm_references(state);
    law_usage_store_before_vault_references(state);
}

/// Every composed body carries, as its composition resource name, the name it
/// is composed under.
pub proof fn law_composed_bodies_carry_their_names(state: EffectiveState, obs: Observed)
    ensures
        forall|i: int|
            0 <= i < spec_composed(state, obs).len() ==> composition_name_of(
                (#[trigger] spec_composed(state, obs)[i]).1,
            ) == Some(json_str(spec_composed(state, obs)[i].0)),
{
    let c = spec_composed(state, obs);
    lemma_composed_bodies(state, obs);
    assert forall|i: int| 0 <= i < c.len() implies composition_name_of((#[trigger] c[i]).1) == Some(
        json_str(c[i].0),
    ) by {
        assert(has_key(c, c[i].0));
        law_every_name_is_known(state, obs, c[i].0);
        lemma_body_for_named(state, c[i].0);
    }
}

/// Each composed Usage protects, and waits on, resources composed beside it,
/// by their names: the pod identity's Usage protects the pod identity until
/// the operator's release is gone; the store's Usages protect the operator's
/// release, and Vault's release, until the store's object is gone.
pub proof fn law_composed_usages_reference_composed_resources(state: EffectiveState, obs: Observed)
    ensures
        ({
            let c = spec_composed(state, obs);
            lookup(c, USAGE_POD_IDENTITY@) is Some ==> {
                &&& lookup(c, POD_IDENTITY@) is Some
                &&& lookup(c, HELM_ESO@) is Some
                &&& usage_of_name(lookup(c, USAGE_POD_IDENTITY@)->0) == metadata_name_of(
                    lookup(c, POD_IDENTITY@)->0,
                )
                &&& usage_by_name(lookup(c, USAGE_POD_IDENTITY@)->0) == metadata_name_of(
                    lookup(c, HELM_ESO@)->0,
                )
            }
        }),
        ({
            let c = spec_composed(state, obs);
            lookup(c, USAGE_SECRET_STORE_HELM@) is Some ==> {
                &&& lookup(c, HELM_ESO@) is Some
                &&& lookup(c, SECRET_STORE@) is Some
                &&& usage_of_name(lookup(c, USAGE_SECRET_STORE_HELM@)->0) == metadata_name_of(
                    lookup(c, HELM_ESO@)->0,
                )
                &&& usage_of_name(lookup(c, USAGE_SECRET_STORE_HELM@)->0) == Some(
                    json_str(state.helm_release_name@),
                )
                &&& usage_by_name(lookup(c, USAGE_SECRET_STORE_HELM@)->0) == metadata_name_of(
                    lookup(c, SECRET_STORE@)->0,
                )
            }
        }),
        ({
            let c = spec_composed(state, obs);
            lookup(c, USAGE_SECRET_STORE_VAULT@) is Some ==> {
                &&& lookup(c, HELM_VAULT@) is Some
                &&& lookup(c, SECRET_STORE@) is Some
                &&& usage_of_name(lookup(c, USAGE_SECRET_STORE_VAULT@)->0) == metadata_name_of(
                    lookup(c, HELM_VAULT@)->0,
                )
                &&& usage_of_name(lookup(c, USAGE_SECRET_STORE_VAULT@)->0) == Some(
                    json_str(state.vault_release_name@),
                )
                &&& usage_by_name(lookup(c, USAGE_SECRET_STORE_VAULT@)->0) == metadata_name_of(
                    lookup(c, SECRET_STORE@)->0,
                )
            }
        }),
{
    lemma_names_distinct();
    law_composed_names(state, obs);
    lemma_lookup_composed(state, obs, USAGE_POD_IDENTITY@);
    lemma_lookup_composed(state, obs, POD_IDENTITY@);
    lemma_lookup_composed(state, obs, HELM_ESO@);
    lemma_lookup_composed(state, obs, HELM_VAULT@);
    lemma_lookup_composed(state, obs, SECRET_STORE@);
    lemma_lookup_composed(state, obs, USAGE_SECRET_STORE_HELM@);
    lemma_lookup_composed(state, obs, USAGE_SECRET_STORE_VAULT@);
    law_usage_pod_identity_references(state);
    law_usage_store_before_eso_helm_references(state);
    law_usage_store_before_vault_references(state);
}

/// Every composed body carries the stack's labels.
pub proof fn law_composed_bodies_carry_stack_labels(state: EffectiveState, obs: Observed)
    ensures
        forall|i: int|
            0 <= i < spec_composed(state, obs).len() ==> labels_of(
                (#[trigger] spec_composed(state, obs)[i]).1,
            ) == Some(JsonView::Object(state.labels@)),
{
    let c = spec_composed(state, obs);
    lemma_composed_bodies(state, obs);
    law_bodies_carry_stack_labels(state);
    assert forall|i: int| 0 <= i < c.len() implies labels_of((#[trigger] c[i]).1) == Some(
        JsonView::Object(state.labels@),
    ) by {
        assert(c[i].1 == body_for(state, c[i].0));
    }
}

} // verus!
