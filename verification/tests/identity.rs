use polykit::error::PolykitError;
use polykit::identity::{
    create_app_context, derive_identity, format_global_topic, format_user_topic,
};

#[test]
fn app_context_carries_its_fields() {
    let ctx = create_app_context("polydata", "poly-data-v1", "polylabs.data");
    assert_eq!(ctx.app_id, "polydata");
    assert_eq!(ctx.hkdf_context, "poly-data-v1");
    assert_eq!(ctx.lex_namespace, "polylabs.data");
}

#[test]
fn short_seed_is_rejected() {
    let ctx = create_app_context("a", "b", "c");
    let err = derive_identity(&[0u8; 31], &ctx).unwrap_err();
    assert_eq!(
        err,
        PolykitError::IdentityDerivation("master_seed must be at least 32 bytes".to_string())
    );
}

#[test]
fn derived_identity_has_the_documented_key_sizes() {
    let ctx = create_app_context("a", "b", "c");
    let id = derive_identity(&[7u8; 32], &ctx).unwrap();
    assert_eq!(id.signing_public_key.len(), 2592);
    assert_eq!(id.signing_secret_key.len(), 4896);
    assert_eq!(id.encryption_public_key.len(), 1568);
    assert_eq!(id.encryption_secret_key.len(), 3168);
    assert_eq!(id.user_id, [0u8; 16]);
}

#[test]
fn user_topic_embeds_the_user_hex() {
    let ctx = create_app_context("polydata", "poly-data-v1", "polylabs.data");
    let topic = format_user_topic(&ctx, &[0u8; 16], "upload");
    assert_eq!(
        topic,
        "polylabs.data.00000000000000000000000000000000.upload"
    );
}

#[test]
fn global_topic_is_framed() {
    let ctx = create_app_context("polydata", "poly-data-v1", "polylabs.data");
    assert_eq!(
        format_global_topic(&ctx, "telemetry"),
        "lex://estream/apps/polylabs.data/telemetry"
    );
}
