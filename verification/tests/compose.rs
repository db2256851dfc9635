use rust_compose::compose::{compose, names};
use rust_compose::gate::{Exists, ObservedSlice, Ready};
use rust_compose::state::{Backend, EffectiveState, Observed, SecretStackSpec, SecretStoreScope};

fn aws_spec() -> SecretStackSpec {
    SecretStackSpec {
        metadata_name: "external-secrets".into(),
        cluster_name: "production-cluster".into(),
        backend: Backend::Aws,
        aws_region: Some("us-west-2".into()),
        aws_role_prefix: Some("prod-".into()),
        ..Default::default()
    }
}

fn vault_install_spec() -> SecretStackSpec {
    SecretStackSpec {
        metadata_name: "external-secrets".into(),
        cluster_name: "dory".into(),
        backend: Backend::Vault,
        vault_install: true,
        secret_store_scope: Some(SecretStoreScope::Cluster),
        secret_store_name: Some("vault".into()),
        ..Default::default()
    }
}

#[test]
fn aws_bootstrap_no_secret_store_yet() {
    let state = EffectiveState::from_spec(&aws_spec());
    let obs = Observed::bootstrap();
    let r = compose(&state, &obs);

    assert!(r.desired.contains(names::HELM_ESO));
    assert!(r.desired.contains(names::POD_IDENTITY));
    assert!(!r.desired.contains(names::HELM_VAULT));
    assert!(
        !r.desired.contains(names::SECRET_STORE),
        "SecretStore must wait for ESO Helm exists (revision>0)"
    );
    assert!(!r.desired.contains(names::USAGE_POD_IDENTITY));
    assert!(!r.desired.contains(names::USAGE_SECRET_STORE_HELM));
}

#[test]
fn aws_eso_exists_unlocks_secret_store_even_if_not_ready() {
    let state = EffectiveState::from_spec(&aws_spec());
    let obs = Observed {
        helm_external_secrets: ObservedSlice::helm(2, false),
        ..Observed::bootstrap()
    };
    let r = compose(&state, &obs);

    assert!(r.desired.contains(names::SECRET_STORE));
    assert!(
        !r.desired.contains(names::USAGE_SECRET_STORE_HELM),
        "Usage still waits for secret-store Ready"
    );
}

#[test]
fn aws_full_ready_emits_usages() {
    let state = EffectiveState::from_spec(&aws_spec());
    let obs = Observed {
        helm_external_secrets: ObservedSlice::helm(1, true),
        pod_identity: ObservedSlice::new(Exists::yes(), Ready::yes()),
        secret_store: ObservedSlice::new(Exists::yes(), Ready::yes()),
        ..Observed::bootstrap()
    };
    let r = compose(&state, &obs);

    let mut names = r.desired.names();
    names.sort();
    assert_eq!(
        names,
        vec![
            names::HELM_ESO,
            names::POD_IDENTITY,
            names::SECRET_STORE,
            names::USAGE_POD_IDENTITY,
            names::USAGE_SECRET_STORE_HELM,
        ]
    );
}

#[test]
fn vault_install_bootstrap_no_store_until_both_helms_exist() {
    let state = EffectiveState::from_spec(&vault_install_spec());
    let obs = Observed {
        helm_external_secrets: ObservedSlice::helm(1, true),
        helm_vault: ObservedSlice::missing(),
        ..Observed::bootstrap()
    };
    let r = compose(&state, &obs);

    assert!(r.desired.contains(names::HELM_ESO));
    assert!(r.desired.contains(names::HELM_VAULT));
    assert!(!r.desired.contains(names::POD_IDENTITY));
    assert!(
        !r.desired.contains(names::SECRET_STORE),
        "vault.install requires helm-vault exists before SecretStore"
    );
}

#[test]
fn vault_install_both_exist_unlocks_store() {
    let state = EffectiveState::from_spec(&vault_install_spec());
    let obs = Observed {
        helm_external_secrets: ObservedSlice::helm(1, true),
        helm_vault: ObservedSlice::helm(1, false),
        ..Observed::bootstrap()
    };
    let r = compose(&state, &obs);

    assert!(r.desired.contains(names::SECRET_STORE));
    assert!(!r.desired.contains(names::USAGE_SECRET_STORE_VAULT));
}

#[test]
fn vault_install_usages_when_ready() {
    let state = EffectiveState::from_spec(&vault_install_spec());
    let obs = Observed {
        helm_external_secrets: ObservedSlice::helm(1, true),
        helm_vault: ObservedSlice::helm(1, true),
        secret_store: ObservedSlice::new(Exists::yes(), Ready::yes()),
        ..Observed::bootstrap()
    };
    let r = compose(&state, &obs);

    assert!(r.desired.contains(names::USAGE_SECRET_STORE_HELM));
    assert!(r.desired.contains(names::USAGE_SECRET_STORE_VAULT));
}

#[test]
fn aws_missing_region_blocks_secret_store() {
    let mut spec = aws_spec();
    spec.aws_region = Some("".into());
    let state = EffectiveState::from_spec(&spec);
    let obs = Observed {
        helm_external_secrets: ObservedSlice::helm(1, true),
        ..Observed::bootstrap()
    };
    let r = compose(&state, &obs);
    assert!(!r.desired.contains(names::SECRET_STORE));
}

#[test]
fn secret_store_disabled() {
    let mut spec = aws_spec();
    spec.secret_store_enabled = Some(false);
    let state = EffectiveState::from_spec(&spec);
    let obs = Observed {
        helm_external_secrets: ObservedSlice::helm(1, true),
        ..Observed::bootstrap()
    };
    let r = compose(&state, &obs);
    assert!(!r.desired.contains(names::SECRET_STORE));
}

#[test]
fn emission_order_follows_layers() {
    let state = EffectiveState::from_spec(&vault_install_spec());
    let obs = Observed {
        helm_external_secrets: ObservedSlice::helm(1, true),
        helm_vault: ObservedSlice::helm(1, true),
        secret_store: ObservedSlice::new(Exists::yes(), Ready::yes()),
        ..Observed::bootstrap()
    };
    let r = compose(&state, &obs);
    assert_eq!(
        r.desired.names(),
        vec![
            names::HELM_ESO,
            names::HELM_VAULT,
            names::SECRET_STORE,
            names::USAGE_SECRET_STORE_HELM,
            names::USAGE_SECRET_STORE_VAULT,
        ]
    );
    assert_eq!(r.desired.len(), 5);
}

#[test]
fn readiness_alone_never_renders_the_store() {
    let state = EffectiveState::from_spec(&aws_spec());
    let obs = Observed {
        helm_external_secrets: ObservedSlice::new(Exists::no(), Ready::yes()),
        pod_identity: ObservedSlice::new(Exists::yes(), Ready::yes()),
        secret_store: ObservedSlice::new(Exists::no(), Ready::yes()),
        ..Observed::bootstrap()
    };
    let r = compose(&state, &obs);
    assert!(!r.desired.contains(names::SECRET_STORE));
    assert!(!r.desired.contains(names::USAGE_SECRET_STORE_HELM));
    assert!(r.desired.contains(names::USAGE_POD_IDENTITY));
}

#[test]
fn more_signals_render_a_superset() {
    let state = EffectiveState::from_spec(&vault_install_spec());
    let few = Observed {
        helm_external_secrets: ObservedSlice::helm(1, false),
        ..Observed::bootstrap()
    };
    let many = Observed {
        helm_external_secrets: ObservedSlice::helm(1, true),
        helm_vault: ObservedSlice::helm(2, true),
        secret_store: ObservedSlice::new(Exists::yes(), Ready::yes()),
        ..Observed::bootstrap()
    };
    let a = compose(&state, &few);
    let b = compose(&state, &many);
    for n in a.desired.names() {
        assert!(b.desired.contains(n));
    }
    assert!(b.desired.len() > a.desired.len());
}

#[test]
fn vault_external_server_unlocks_store_without_vault_release() {
    let spec = SecretStackSpec {
        backend: Backend::Vault,
        vault_server: Some("https://vault.example.com:8200".into()),
        ..Default::default()
    };
    let state = EffectiveState::from_spec(&spec);
    let obs = Observed {
        helm_external_secrets: ObservedSlice::helm(1, false),
        ..Observed::bootstrap()
    };
    let r = compose(&state, &obs);
    assert!(!r.desired.contains(names::HELM_VAULT));
    assert!(r.desired.contains(names::SECRET_STORE));
}

#[test]
fn vault_without_server_blocks_store() {
    let spec = SecretStackSpec { backend: Backend::Vault, ..Default::default() };
    let state = EffectiveState::from_spec(&spec);
    let obs = Observed {
        helm_external_secrets: ObservedSlice::helm(1, true),
        ..Observed::bootstrap()
    };
    let r = compose(&state, &obs);
    assert!(!r.desired.contains(names::SECRET_STORE));
}

#[test]
fn status_reports_store_and_vault() {
    let state = EffectiveState::from_spec(&vault_install_spec());
    let obs = Observed {
        helm_vault: ObservedSlice::helm(1, true),
        secret_store: ObservedSlice::new(Exists::yes(), Ready::yes()),
        ..Observed::bootstrap()
    };
    let r = compose(&state, &obs);
    assert!(!r.status.ready);
    assert_eq!(r.status.backend, Backend::Vault);
    assert_eq!(r.status.secret_store_name, "vault");
    assert_eq!(r.status.secret_store_scope, SecretStoreScope::Cluster);
    assert!(r.status.secret_store_ready);
    let v = r.status.vault.unwrap();
    assert_eq!(v.release_name, "vault");
    assert_eq!(v.namespace, "vault");
    assert!(v.ready);

    let aws = compose(&EffectiveState::from_spec(&aws_spec()), &Observed::bootstrap());
    assert!(aws.status.vault.is_none());
    assert!(!aws.status.secret_store_ready);
}
