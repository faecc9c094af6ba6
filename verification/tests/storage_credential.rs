use std::cell::Cell;
use std::sync::Arc;
use std::time::Duration;

use object_store::gcp::GcpCredential;
use object_store::StaticCredentialProvider;
use url::Url;

use storage_credentials::credentials::{CredentialSource, StorageCredential};
use storage_credentials::storage::StoreBuilder;
use storage_credentials::storage_credential::{
    missing_field, store_from_credential_callback, take_string, CStorageCredential,
    CStorageCredentialKind, FfiCredentialProvider,
};

type Callback = fn(CStorageCredential) -> CStorageCredential;

fn provider(callback: Callback) -> FfiCredentialProvider<Callback> {
    FfiCredentialProvider::new(callback)
}

fn fill_gcp_bearer(mut out: CStorageCredential) -> CStorageCredential {
    out.kind = CStorageCredentialKind::GcpBearerToken;
    out.token = Some("ya29.example".to_string());
    out.ttl_ms = 60_000;
    out
}

fn fill_nothing(out: CStorageCredential) -> CStorageCredential {
    out
}

fn fill_gcp_without_token(mut out: CStorageCredential) -> CStorageCredential {
    out.kind = CStorageCredentialKind::GcpBearerToken;
    out
}

fn written(
    kind: CStorageCredentialKind,
    key_id: Option<&str>,
    secret: Option<&str>,
    token: Option<&str>,
) -> CStorageCredential {
    CStorageCredential {
        kind,
        key_id: key_id.map(Into::into),
        secret: secret.map(Into::into),
        token: token.map(Into::into),
        ttl_ms: 1,
    }
}

fn rejection(mut slot: CStorageCredential) -> String {
    let error = slot.take_credential().err().expect("must be rejected");
    assert!(slot.key_id.is_none() && slot.secret.is_none() && slot.token.is_none());
    error.message()
}

#[test]
fn a_callback_backed_gcs_store_is_built_from_its_url() {
    let url = Url::parse("gs://some-bucket/some-table").expect("parse url");
    let (builder, mut source) =
        store_from_credential_callback(&url, &vec![], provider(fill_gcp_bearer))
            .expect("build store");
    let credential = source.current().expect("credential");
    let store = match (builder, credential) {
        (StoreBuilder::GoogleCloudStorage(builder), StorageCredential::GcpBearer(bearer)) => {
            let given = Arc::new(StaticCredentialProvider::new(GcpCredential { bearer }));
            builder.with_credentials(given).build().expect("build store")
        }
        _ => panic!("another cloud"),
    };

    assert!(store.to_string().contains("GoogleCloudStorage"), "{store}");
}

#[test]
fn a_callback_producing_the_wrong_cloud_fails_at_construction() {
    let url = Url::parse("s3://some-bucket/some-table").expect("parse url");
    let error = store_from_credential_callback(
        &url,
        &vec![("region".to_string(), "us-east-1".to_string())],
        provider(fill_gcp_bearer),
    )
    .err()
    .expect("a GCP credential must not build an S3 store");
    assert_eq!(
        error.message(),
        "storage credential is for GCP, but the table URL scheme `s3` needs a AWS credential"
    );
}

#[test]
fn callback_supplies_a_gcp_bearer_token_and_its_ttl() {
    let (credential, ttl) = provider(fill_gcp_bearer).collect().expect("collect");

    assert!(matches!(
        credential,
        StorageCredential::GcpBearer(ref token) if token == "ya29.example"
    ));
    assert_eq!(ttl, Some(Duration::from_millis(60_000)));
}

#[test]
fn a_callback_that_produces_nothing_is_an_error() {
    let error = provider(fill_nothing)
        .collect()
        .err()
        .expect("a callback that sets no kind must not yield a credential");
    assert_eq!(
        error.message(),
        "storage credential callback produced no credential"
    );
}

#[test]
fn a_kind_missing_its_required_field_is_an_error() {
    let error = provider(fill_gcp_without_token)
        .collect()
        .err()
        .expect("a bearer kind with no token must be rejected");
    assert_eq!(
        error.message(),
        "storage credential of kind GcpBearerToken has no token"
    );
}

#[test]
fn every_kind_yields_its_credential() {
    let (aws, ttl) = written(CStorageCredentialKind::AwsAccessKey, Some("id"), Some("key"), Some("session"))
        .take_credential()
        .expect("aws");
    assert_eq!(ttl, Some(Duration::from_millis(1)));
    match aws {
        StorageCredential::Aws { key_id, secret, session_token } => {
            assert_eq!((key_id.as_str(), secret.as_str()), ("id", "key"));
            assert_eq!(session_token.as_deref(), Some("session"));
        }
        _ => panic!("another shape"),
    }
    let (lasting, _) = written(CStorageCredentialKind::AwsAccessKey, Some("id"), Some("key"), None)
        .take_credential()
        .expect("aws without a session");
    assert!(matches!(
        lasting,
        StorageCredential::Aws { session_token: None, .. }
    ));
    let (sas, _) = written(CStorageCredentialKind::AzureSasToken, None, None, Some("sv=1"))
        .take_credential()
        .expect("sas");
    assert!(matches!(sas, StorageCredential::AzureSas(ref token) if token == "sv=1"));
    let (entra, _) = written(CStorageCredentialKind::AzureBearerToken, None, None, Some("entra"))
        .take_credential()
        .expect("bearer");
    assert!(matches!(entra, StorageCredential::AzureBearer(ref token) if token == "entra"));
    let (key, _) = written(CStorageCredentialKind::AzureAccessKey, None, Some("a2V5"), None)
        .take_credential()
        .expect("key");
    assert!(matches!(key, StorageCredential::AzureAccessKey(ref key) if key == "a2V5"));
}

#[test]
fn a_missing_field_is_named_and_nothing_is_left_behind() {
    assert_eq!(
        rejection(written(CStorageCredentialKind::AwsAccessKey, None, None, Some("session"))),
        "storage credential of kind AwsAccessKey has no key_id"
    );
    assert_eq!(
        rejection(written(CStorageCredentialKind::AwsAccessKey, Some("id"), None, Some("session"))),
        "storage credential of kind AwsAccessKey has no secret"
    );
    assert_eq!(
        rejection(written(CStorageCredentialKind::AzureSasToken, Some("id"), Some("key"), None)),
        "storage credential of kind AzureSasToken has no token"
    );
    assert_eq!(
        rejection(written(CStorageCredentialKind::AzureBearerToken, Some("id"), Some("key"), None)),
        "storage credential of kind AzureBearerToken has no token"
    );
    assert_eq!(
        rejection(written(CStorageCredentialKind::AzureAccessKey, Some("id"), None, Some("t"))),
        "storage credential of kind AzureAccessKey has no secret"
    );
    assert_eq!(
        rejection(written(CStorageCredentialKind::NoCredential, Some("id"), Some("key"), Some("t"))),
        "storage credential callback produced no credential"
    );
    assert_eq!(
        missing_field("token", "GcpBearerToken").message(),
        "storage credential of kind GcpBearerToken has no token"
    );
}

#[test]
fn no_lifetime_means_that_the_lifetime_is_unknown() {
    let mut slot = written(CStorageCredentialKind::GcpBearerToken, None, None, Some("t"));
    slot.ttl_ms = 0;
    let (_, ttl) = slot.take_credential().expect("credential");
    assert_eq!(ttl, None);
    assert!(slot.token.is_none());

    let mut slot = written(CStorageCredentialKind::GcpBearerToken, None, None, Some("t"));
    slot.ttl_ms = u64::MAX;
    let (_, ttl) = slot.take_credential().expect("credential");
    assert_eq!(ttl, Some(Duration::from_millis(u64::MAX)));
}

#[test]
fn a_callback_without_a_lifetime_runs_for_every_request() {
    let calls = Cell::new(0);
    let provider = FfiCredentialProvider::new(|mut out: CStorageCredential| {
        calls.set(calls.get() + 1);
        out.kind = CStorageCredentialKind::AzureBearerToken;
        out.token = Some("entra".to_string());
        out
    });
    let mut source = CredentialSource::new(|| provider.collect());
    source.current().expect("first");
    source.current().expect("second");
    assert_eq!(calls.get(), 2);
}

#[test]
fn fields_that_a_kind_does_not_document_are_not_read() {
    let bare = written(CStorageCredentialKind::AzureAccessKey, None, Some("a2V5"), None);
    let full = written(CStorageCredentialKind::AzureAccessKey, Some("x"), Some("a2V5"), Some("y"));
    for mut slot in [bare, full] {
        let (key, ttl) = slot.take_credential().expect("key");
        assert!(matches!(key, StorageCredential::AzureAccessKey(ref key) if key == "a2V5"));
        assert_eq!(ttl, Some(Duration::from_millis(1)));
        assert!(slot.key_id.is_none() && slot.secret.is_none() && slot.token.is_none());
    }
}

#[test]
fn a_string_is_taken_once() {
    let mut field = Some("once".to_string());
    assert_eq!(take_string(&mut field).as_deref(), Some("once"));
    assert_eq!(take_string(&mut field), None);
}

#[test]
fn a_slot_starts_out_unset() {
    let slot = CStorageCredential::unset();
    assert_eq!(slot.kind, CStorageCredentialKind::NoCredential);
    assert!(slot.key_id.is_none() && slot.secret.is_none() && slot.token.is_none());
    assert_eq!(slot.ttl_ms, 0);
}
