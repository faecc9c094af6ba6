use std::sync::atomic::{AtomicUsize, Ordering};
use std::sync::Arc;
use std::time::{Duration, Instant};

use storage_credentials::credentials::{
    cloud_changed, credential_error, wrong_cloud, CredentialSource, Produced, StorageCredential,
};
use storage_credentials::error::DeltaError;
use storage_credentials::providers::{
    AwsCredentials, AzureCredentials, AzureSecret, GcpCredentials,
};

/// A source whose closure records how many times it ran, so tests can assert on caching.
fn counting_source(
    ttl: Option<Duration>,
) -> (CredentialSource<impl Fn() -> Produced>, Arc<AtomicUsize>) {
    let calls = Arc::new(AtomicUsize::new(0));
    let counter = calls.clone();
    let source = CredentialSource::new(move || {
        let n = counter.fetch_add(1, Ordering::SeqCst);
        Ok((StorageCredential::GcpBearer(format!("token-{n}")), ttl))
    });
    (source, calls)
}

fn bearer(credential: StorageCredential) -> String {
    match credential {
        StorageCredential::GcpBearer(token) => token,
        _ => panic!("not a bearer token"),
    }
}

fn aws(token: Option<&str>) -> StorageCredential {
    StorageCredential::Aws {
        key_id: "AKIAEXAMPLE".into(),
        secret: "s3-secret".into(),
        session_token: token.map(Into::into),
    }
}

#[test]
fn credential_is_produced_once_and_reused_while_valid() {
    let (mut source, calls) = counting_source(Some(Duration::from_secs(3600)));

    source.current().expect("first credential");
    source.current().expect("second credential");

    assert_eq!(calls.load(Ordering::SeqCst), 1);
}

#[test]
fn the_reused_credential_is_the_one_that_was_produced() {
    let (mut source, _) = counting_source(Some(Duration::from_secs(31)));
    assert_eq!(bearer(source.current().expect("first")), "token-0");
    assert_eq!(bearer(source.current().expect("second")), "token-0");
}

#[test]
fn a_credential_of_unknown_lifetime_is_produced_every_time() {
    let (mut source, calls) = counting_source(None);
    assert_eq!(bearer(source.current().expect("first")), "token-0");
    assert_eq!(bearer(source.current().expect("second")), "token-1");
    assert_eq!(calls.load(Ordering::SeqCst), 2);
}

#[test]
fn a_credential_within_the_refresh_buffer_is_produced_afresh() {
    let (mut source, calls) = counting_source(Some(Duration::from_secs(30)));
    source.current().expect("first");
    source.current().expect("second");
    assert_eq!(calls.load(Ordering::SeqCst), 2);
}

#[test]
fn an_absurd_lifetime_is_not_cached() {
    let (mut source, calls) = counting_source(Some(Duration::MAX));
    source.current().expect("first");
    source.current().expect("second");
    assert_eq!(calls.load(Ordering::SeqCst), 2);
}

#[test]
fn a_failing_closure_fails_the_request() {
    let mut source = CredentialSource::new(|| Err(DeltaError::generic("catalog is down")));
    let error = source.current().err().expect("must fail");
    assert_eq!(error.message(), "catalog is down");
}

#[test]
fn a_cached_credential_is_handed_out_until_thirty_seconds_before_its_expiry() {
    let (mut source, calls) = counting_source(None);
    let issued = Instant::now();
    let ttl = Duration::from_secs(1000);
    let expiry = issued + ttl;
    assert!(source.cached_at(issued).is_none());
    let kept = StorageCredential::GcpBearer("kept".into());
    let answer = source.renew(Ok((kept, Some(ttl))), issued).expect("renew");
    assert_eq!(bearer(answer), "kept");

    let buffer = Duration::from_secs(30);
    let tick = Duration::from_nanos(1);
    assert!(source.cached_at(expiry - buffer).is_none());
    assert!(source.cached_at(expiry).is_none());
    assert!(source.cached_at(expiry + buffer).is_none());
    let kept = source.cached_at(expiry - buffer - tick).expect("still good");
    assert_eq!(bearer(kept), "kept");
    let kept = source.current_at(expiry - buffer - tick).expect("still good");
    assert_eq!(bearer(kept), "kept");
    assert_eq!(calls.load(Ordering::SeqCst), 0);

    let fresh = source.current_at(expiry - buffer).expect("afresh");
    assert_eq!(bearer(fresh), "token-0");
    assert!(source.cached_at(issued).is_none());
    assert_eq!(calls.load(Ordering::SeqCst), 1);
}

#[test]
fn a_request_that_the_cache_answers_does_not_renew_it() {
    let (mut source, calls) = counting_source(None);
    let issued = Instant::now();
    let kept = StorageCredential::GcpBearer("kept".into());
    source
        .renew(Ok((kept, Some(Duration::from_secs(1000)))), issued)
        .expect("renew");
    for second in [0, 969, 500] {
        let asked = issued + Duration::from_secs(second);
        assert_eq!(bearer(source.current_at(asked).expect("still good")), "kept");
    }
    assert_eq!(calls.load(Ordering::SeqCst), 0);
    assert!(source.cached_at(issued + Duration::from_secs(969)).is_some());
    assert!(source.cached_at(issued + Duration::from_secs(970)).is_none());
}

#[test]
fn a_failed_refresh_leaves_the_cache_as_it_was() {
    let (mut source, _) = counting_source(None);
    let issued = Instant::now();
    let kept = StorageCredential::GcpBearer("kept".into());
    source
        .renew(Ok((kept, Some(Duration::from_secs(1000)))), issued)
        .expect("renew");
    let error = source
        .renew(Err(DeltaError::generic("catalog is down")), issued)
        .err()
        .expect("must fail");
    assert_eq!(error.message(), "catalog is down");
    assert_eq!(bearer(source.cached_at(issued).expect("still good")), "kept");
    let unknown = StorageCredential::GcpBearer("unknown".into());
    source.renew(Ok((unknown, None)), issued).expect("renew");
    assert!(source.cached_at(issued).is_none());
}

#[test]
fn every_credential_names_its_cloud() {
    assert_eq!(aws(None).cloud(), "AWS");
    assert_eq!(StorageCredential::GcpBearer("t".into()).cloud(), "GCP");
    assert_eq!(StorageCredential::AzureSas("s".into()).cloud(), "Azure");
    assert_eq!(StorageCredential::AzureBearer("t".into()).cloud(), "Azure");
    assert_eq!(StorageCredential::AzureAccessKey("k".into()).cloud(), "Azure");
}

#[test]
fn mismatches_are_worded_for_their_reader() {
    assert_eq!(
        wrong_cloud(&aws(None), "gs", "GCP").message(),
        "storage credential is for AWS, but the table URL scheme `gs` needs a GCP credential"
    );
    let failure = cloud_changed(&StorageCredential::AzureBearer("t".into()), "AWS");
    assert_eq!(failure.store, "StorageCredential");
    assert_eq!(
        failure.message,
        "refreshed storage credential is for Azure, but this store needs a AWS credential"
    );
    let failure = credential_error("no luck".to_string());
    assert_eq!(failure.store, "StorageCredential");
    assert_eq!(failure.message, "no luck");
}

#[test]
fn a_clone_is_the_same_credential() {
    match aws(Some("s3-session")).clone() {
        StorageCredential::Aws { key_id, secret, session_token } => {
            assert_eq!(key_id, "AKIAEXAMPLE");
            assert_eq!(secret, "s3-secret");
            assert_eq!(session_token.as_deref(), Some("s3-session"));
        }
        _ => panic!("another shape"),
    }
}

#[test]
fn the_s3_store_is_given_a_key_pair() {
    let mut source = CredentialSource::new(|| Ok((aws(Some("s3-session")), None)));
    let pair = AwsCredentials::get_credential(&mut source).expect("key pair");
    assert_eq!(pair.key_id, "AKIAEXAMPLE");
    assert_eq!(pair.secret_key, "s3-secret");
    assert_eq!(pair.token.as_deref(), Some("s3-session"));

    let failure = AwsCredentials::supply(Ok(StorageCredential::GcpBearer("t".into())))
        .err()
        .expect("another cloud");
    assert_eq!(
        failure.message,
        "refreshed storage credential is for GCP, but this store needs a AWS credential"
    );
}

#[test]
fn the_gcs_store_is_given_a_bearer_token() {
    let (mut source, _) = counting_source(None);
    let token = GcpCredentials::get_credential(&mut source).expect("token");
    assert_eq!(token.bearer, "token-0");

    let failure = GcpCredentials::supply(Ok(aws(None))).err().expect("another cloud");
    assert_eq!(failure.store, "StorageCredential");
    assert_eq!(
        failure.message,
        "refreshed storage credential is for AWS, but this store needs a GCP credential"
    );
}

#[test]
fn the_azure_store_is_given_each_of_its_shapes() {
    let mut source = CredentialSource::new(|| {
        Ok((StorageCredential::AzureSas("sv=2021-01-01&sig=ex%2Bample".into()), None))
    });
    match AzureCredentials::get_credential(&mut source) {
        Ok(AzureSecret::SasToken(pairs)) => assert_eq!(
            pairs,
            vec![
                ("sv".to_string(), "2021-01-01".to_string()),
                ("sig".to_string(), "ex+ample".to_string()),
            ]
        ),
        _ => panic!("not a signature"),
    }
    match AzureCredentials::supply(Ok(StorageCredential::AzureBearer("entra".into()))) {
        Ok(AzureSecret::BearerToken(token)) => assert_eq!(token, "entra"),
        _ => panic!("not a token"),
    }
    match AzureCredentials::supply(Ok(StorageCredential::AzureAccessKey("a2V5".into()))) {
        Ok(AzureSecret::AccessKey(key)) => {
            let again = object_store::azure::AzureAccessKey::try_new("a2V5").expect("base64");
            assert_eq!(key, again);
        }
        _ => panic!("not a key"),
    }
}

#[test]
fn the_azure_store_is_told_what_is_wrong() {
    let failure = AzureCredentials::supply(Ok(StorageCredential::AzureSas("sig".into())))
        .err()
        .expect("no value");
    assert_eq!(failure.store, "StorageCredential");
    assert_eq!(
        failure.message,
        "shared access signature has a component without a value"
    );

    let failure = AzureCredentials::supply(Ok(StorageCredential::AzureAccessKey("?".into())))
        .err()
        .expect("not base64");
    assert_eq!(
        failure.message,
        object_store::azure::AzureAccessKey::try_new("?")
            .expect_err("not base64")
            .to_string()
    );

    let failure = AzureCredentials::supply(Ok(aws(None))).err().expect("another cloud");
    assert_eq!(
        failure.message,
        "refreshed storage credential is for AWS, but this store needs a Azure credential"
    );
}

#[test]
fn a_failed_refresh_reaches_the_store() {
    let mut source = CredentialSource::new(|| Err(DeltaError::generic("catalog is down")));
    let failure = AwsCredentials::get_credential(&mut source).err().expect("must fail");
    assert_eq!(failure.store, "StorageCredential");
    assert_eq!(failure.message, "catalog is down");
    let failure = GcpCredentials::get_credential(&mut source).err().expect("must fail");
    assert_eq!(failure.message, "catalog is down");
    let failure = AzureCredentials::get_credential(&mut source).err().expect("must fail");
    assert_eq!(failure.message, "catalog is down");

    let error = object_store::Error::NotImplemented;
    let rendered = error.to_string();
    let failure = AwsCredentials::supply(Err(DeltaError::ObjectStore(error))).err();
    assert_eq!(failure.expect("must fail").message, rendered);
}
