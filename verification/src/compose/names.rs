//! The composition resource names: stable across reconciles.
use vstd::prelude::*;

verus! {

pub const HELM_ESO: &'static str = "helm-external-secrets";

pub const HELM_VAULT: &'static str = "helm-vault";

pub const POD_IDENTITY: &'static str = "pod-identity";

pub const USAGE_POD_IDENTITY: &'static str = "usage-pod-identity";

pub const SECRET_STORE: &'static str = "secret-store";

pub const USAGE_SECRET_STORE_HELM: &'static str = "usage-secret-store-helm";

pub const USAGE_SECRET_STORE_VAULT: &'static str = "usage-secret-store-vault";

/// The seven names are pairwise distinct.
pub proof fn lemma_names_distinct()
    ensures
        HELM_ESO@ != HELM_VAULT@,
        HELM_ESO@ != POD_IDENTITY@,
        HELM_ESO@ != USAGE_POD_IDENTITY@,
        HELM_ESO@ != SECRET_STORE@,
        HELM_ESO@ != USAGE_SECRET_STORE_HELM@,
        HELM_ESO@ != USAGE_SECRET_STORE_VAULT@,
        HELM_VAULT@ != POD_IDENTITY@,
        HELM_VAULT@ != USAGE_POD_IDENTITY@,
        HELM_VAULT@ != SECRET_STORE@,
        HELM_VAULT@ != USAGE_SECRET_STORE_HELM@,
        HELM_VAULT@ != USAGE_SECRET_STORE_VAULT@,
        POD_IDENTITY@ != USAGE_POD_IDENTITY@,
        POD_IDENTITY@ != SECRET_STORE@,
        POD_IDENTITY@ != USAGE_SECRET_STORE_HELM@,
        POD_IDENTITY@ != USAGE_SECRET_STORE_VAULT@,
        USAGE_POD_IDENTITY@ != SECRET_STORE@,
        USAGE_POD_IDENTITY@ != USAGE_SECRET_STORE_HELM@,
        USAGE_POD_IDENTITY@ != USAGE_SECRET_STORE_VAULT@,
        SECRET_STORE@ != USAGE_SECRET_STORE_HELM@,
        SECRET_STORE@ != USAGE_SECRET_STORE_VAULT@,
        USAGE_SECRET_STORE_HELM@ != USAGE_SECRET_STORE_VAULT@,
{
    reveal_strlit("helm-external-secrets");
    reveal_strlit("helm-vault");
    reveal_strlit("pod-identity");
    reveal_strlit("usage-pod-identity");
    reveal_strlit("secret-store");
    reveal_strlit("usage-secret-store-helm");
    reveal_strlit("usage-secret-store-vault");
    assert(HELM_ESO@.len() != HELM_VAULT@.len());
    assert(POD_IDENTITY@[0] != SECRET_STORE@[0]);
    assert(USAGE_SECRET_STORE_HELM@.len() != USAGE_SECRET_STORE_VAULT@.len());
}

} // verus!
