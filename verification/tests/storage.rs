use std::sync::atomic::{AtomicUsize, Ordering};
use std::sync::Arc;
use std::time::Duration;

use hdfs_native_object_store::HdfsObjectStoreBuilder;
use object_store::aws::{AmazonS3ConfigKey, AwsCredential, AwsCredentialProvider};
use object_store::azure::{AzureConfigKey, AzureCredential};
use object_store::gcp::{GcpCredential, GoogleConfigKey};
use object_store::path::Path;
use object_store::{ObjectStore, StaticCredentialProvider};
use url::Url;

use storage_credentials::credentials::{CredentialSource, Produced, StorageCredential};
use storage_credentials::error::DeltaError;
use storage_credentials::providers::{AwsCredentials, AzureCredentials, GcpCredentials};
use storage_credentials::storage::{
    configure_store, insert_url_handler, store_from_url, store_from_url_opts,
    store_from_url_with_credentials, Handlers, Opened, StoreBuilder, StoreScheme,
};
use storage_credentials::string_map::StringMap;

type Reply = Opened<Box<dyn ObjectStore>, Path>;
type Handler = fn(&Url, StringMap<String>) -> Reply;

fn fixed(credential: StorageCredential) -> CredentialSource<impl Fn() -> Produced> {
    CredentialSource::new(move || Ok((credential.clone(), None)))
}

fn options(pairs: &[(&str, &str)]) -> Vec<(String, String)> {
    pairs
        .iter()
        .map(|(key, value)| (key.to_string(), value.to_string()))
        .collect()
}

fn aws() -> StorageCredential {
    StorageCredential::Aws {
        key_id: "AKIAEXAMPLE".into(),
        secret: "s3-secret".into(),
        session_token: Some("s3-session".into()),
    }
}

fn open(url: &Url, options: Vec<(String, String)>) -> Reply {
    object_store::parse_url_opts(url, options)
}

/// The store that a builder makes, given the credential that it was configured for.
fn build(builder: StoreBuilder, credential: StorageCredential) -> Box<dyn ObjectStore> {
    match (builder, credential) {
        (
            StoreBuilder::AmazonS3(builder),
            StorageCredential::Aws { key_id, secret, session_token },
        ) => {
            let credential = AwsCredential { key_id, secret_key: secret, token: session_token };
            let given = Arc::new(StaticCredentialProvider::new(credential));
            Box::new(builder.with_credentials(given).build().expect("build store"))
        }
        (StoreBuilder::GoogleCloudStorage(builder), StorageCredential::GcpBearer(bearer)) => {
            let given = Arc::new(StaticCredentialProvider::new(GcpCredential { bearer }));
            Box::new(builder.with_credentials(given).build().expect("build store"))
        }
        (StoreBuilder::MicrosoftAzure(builder), StorageCredential::AzureSas(sas)) => {
            let pairs = storage_credentials::sas::split_sas(&sas).expect("split sas");
            let credential = AzureCredential::SASToken(pairs);
            let given = Arc::new(StaticCredentialProvider::new(credential));
            Box::new(builder.with_credentials(given).build().expect("build store"))
        }
        _ => panic!("another cloud"),
    }
}

fn store_for(url: &str, pairs: &[(&str, &str)], credential: StorageCredential) -> String {
    let url = Url::parse(url).expect("parse url");
    let builder = store_from_url_with_credentials(
        &url,
        &options(pairs),
        &mut fixed(credential.clone()),
    )
    .expect("build store");
    build(builder, credential).to_string()
}

fn refusal(url: &str, credential: StorageCredential) -> DeltaError {
    let url = Url::parse(url).expect("parse url");
    store_from_url_with_credentials(&url, &vec![], &mut fixed(credential))
        .err()
        .expect("must be refused")
}

#[test]
fn gcs_url_builds_a_google_store_from_a_bearer_token() {
    let store = store_for(
        "gs://some-bucket/some-table",
        &[],
        StorageCredential::GcpBearer("ya29.example".into()),
    );

    assert!(store.contains("GoogleCloudStorage"), "{store}");
    assert!(store.contains("some-bucket"), "{store}");
}

#[test]
fn s3_url_builds_an_amazon_store_from_an_access_key() {
    let store = store_for(
        "s3://some-bucket/some-table",
        &[("region", "us-east-1")],
        StorageCredential::Aws {
            key_id: "AKIAEXAMPLE".into(),
            secret: "s3-secret".into(),
            session_token: Some("s3-session".into()),
        },
    );

    assert!(store.contains("AmazonS3"), "{store}");
    assert!(store.contains("some-bucket"), "{store}");
}

#[test]
fn azure_url_builds_a_microsoft_store_from_a_sas_token() {
    let store = store_for(
        "abfss://container@account.dfs.core.windows.net/some-table",
        &[],
        StorageCredential::AzureSas("sv=2021-01-01&sig=example".into()),
    );

    assert!(store.contains("MicrosoftAzure"), "{store}");
    assert!(store.contains("container"), "{store}");
}

#[test]
fn a_credential_from_another_cloud_is_rejected_at_construction() {
    let error = refusal(
        "gs://some-bucket/some-table",
        StorageCredential::AzureSas("sv=2021-01-01&sig=example".into()),
    );

    let message = error.message();
    assert!(message.contains("Azure"), "{message}");
    assert!(message.contains("gs"), "{message}");
    assert_eq!(
        message,
        "storage credential is for Azure, but the table URL scheme `gs` needs a GCP credential"
    );
}

#[test]
fn every_mismatch_names_the_cloud_that_is_wanted() {
    assert_eq!(
        refusal("s3a://b/t", StorageCredential::GcpBearer("t".into())).message(),
        "storage credential is for GCP, but the table URL scheme `s3a` needs a AWS credential"
    );
    assert_eq!(
        refusal("az://account/container/t", aws()).message(),
        "storage credential is for AWS, but the table URL scheme `az` needs a Azure credential"
    );
    assert_eq!(
        refusal("https://bucket.s3.us-east-1.amazonaws.com/t", StorageCredential::AzureBearer("t".into()))
            .message(),
        "storage credential is for Azure, but the table URL scheme `https` needs a AWS credential"
    );
}

#[test]
fn a_url_whose_store_takes_no_credentials_is_refused() {
    assert_eq!(
        refusal("file:///some/table", aws()).message(),
        "supplying storage credentials is not supported for Local urls"
    );
    assert_eq!(
        refusal("memory:///", aws()).message(),
        "supplying storage credentials is not supported for Memory urls"
    );
    assert_eq!(
        refusal("https://example.com/t", aws()).message(),
        "supplying storage credentials is not supported for Http urls"
    );
}

#[test]
fn a_url_that_no_store_knows_is_refused() {
    match refusal("ftp://example.com/t", aws()) {
        DeltaError::ObjectStore(object_store::Error::Generic { store, source }) => {
            assert_eq!(store, "URL");
            assert_eq!(
                source.to_string(),
                "Unable to recognise URL \"ftp://example.com/t\""
            );
        }
        other => panic!("{}", other.message()),
    }
}

#[test]
fn a_source_that_fails_is_reported_before_the_url_is_looked_at() {
    let url = Url::parse("ftp://example.com/t").expect("parse url");
    let mut source = CredentialSource::new(|| Err(DeltaError::generic("catalog is down")));
    let error = store_from_url_with_credentials(&url, &vec![], &mut source)
        .err()
        .expect("must fail");
    assert_eq!(error.message(), "catalog is down");
}

#[test]
fn a_store_starts_with_a_warm_cache() {
    let calls = Arc::new(AtomicUsize::new(0));
    let counter = calls.clone();
    let mut source = CredentialSource::new(move || {
        let n = counter.fetch_add(1, Ordering::SeqCst);
        let credential = StorageCredential::GcpBearer(format!("token-{n}"));
        Ok((credential, Some(Duration::from_secs(3600))))
    });
    let url = Url::parse("gs://some-bucket/some-table").expect("parse url");
    store_from_url_with_credentials(&url, &vec![], &mut source).expect("configure store");
    assert_eq!(calls.load(Ordering::SeqCst), 1);
    for _ in 0..2 {
        let token = GcpCredentials::get_credential(&mut source).expect("token");
        assert_eq!(token.bearer, "token-0");
    }
    assert_eq!(calls.load(Ordering::SeqCst), 1);
}

#[test]
fn options_are_applied_in_order_and_unknown_ones_skipped() {
    let url = Url::parse("s3://some-bucket/some-table").expect("parse url");
    let given = options(&[
        ("region", "eu-west-1"),
        ("no_such_option", "x"),
        ("google_bucket", "y"),
        ("REGION", "z"),
        ("aws_region", "us-east-1"),
        ("endpoint", "http://localhost"),
    ]);
    let builder = configure_store(StoreScheme::AmazonS3, &url, &given, &aws());
    match builder {
        Ok(StoreBuilder::AmazonS3(builder)) => {
            assert_eq!(
                builder.get_config_value(&AmazonS3ConfigKey::Region).as_deref(),
                Some("us-east-1")
            );
            assert_eq!(
                builder.get_config_value(&AmazonS3ConfigKey::Endpoint).as_deref(),
                Some("http://localhost")
            );
            assert_eq!(builder.get_config_value(&AmazonS3ConfigKey::Bucket), None);
        }
        _ => panic!("not an S3 builder"),
    }

    let url = Url::parse("gs://some-bucket/some-table").expect("parse url");
    let given = options(&[("service_account", "/a"), ("region", "x"), ("bucket", "b")]);
    let bearer = StorageCredential::GcpBearer("t".into());
    match configure_store(StoreScheme::GoogleCloudStorage, &url, &given, &bearer) {
        Ok(StoreBuilder::GoogleCloudStorage(builder)) => {
            assert_eq!(
                builder.get_config_value(&GoogleConfigKey::ServiceAccount).as_deref(),
                Some("/a")
            );
            assert_eq!(
                builder.get_config_value(&GoogleConfigKey::Bucket).as_deref(),
                Some("b")
            );
        }
        _ => panic!("not a GCS builder"),
    }

    let url = Url::parse("az://account/container").expect("parse url");
    let given = options(&[("account_name", "a"), ("region", "x"), ("container_name", "c")]);
    let key = StorageCredential::AzureAccessKey("a2V5".into());
    match configure_store(StoreScheme::MicrosoftAzure, &url, &given, &key) {
        Ok(StoreBuilder::MicrosoftAzure(builder)) => {
            assert_eq!(
                builder.get_config_value(&AzureConfigKey::AccountName).as_deref(),
                Some("a")
            );
            assert_eq!(
                builder.get_config_value(&AzureConfigKey::ContainerName).as_deref(),
                Some("c")
            );
        }
        _ => panic!("not an Azure builder"),
    }
}

#[test]
fn a_credential_in_the_options_is_ignored_in_favor_of_the_source() {
    let url = Url::parse("s3://some-bucket/some-table").expect("parse url");
    let given = options(&[
        ("region", "us-east-1"),
        ("access_key_id", "AKIAOTHER"),
        ("secret_access_key", "other"),
    ]);
    let builder = store_from_url_with_credentials(&url, &given, &mut fixed(aws()));
    let supplied: AwsCredentialProvider = Arc::new(StaticCredentialProvider::new(AwsCredential {
        key_id: "AKIAEXAMPLE".into(),
        secret_key: "s3-secret".into(),
        token: None,
    }));
    match builder {
        Ok(StoreBuilder::AmazonS3(builder)) => {
            let store = builder
                .with_credentials(supplied.clone())
                .build()
                .expect("build store");
            assert!(Arc::ptr_eq(store.credentials(), &supplied));
        }
        _ => panic!("not an S3 builder"),
    }
}

#[test]
fn a_store_of_another_name_is_refused_by_that_name() {
    let url = Url::parse("s3://some-bucket/some-table").expect("parse url");
    let error = configure_store(StoreScheme::Other("Tape".into()), &url, &vec![], &aws())
        .err()
        .expect("must be refused");
    assert_eq!(
        error.message(),
        "supplying storage credentials is not supported for Tape urls"
    );
}

#[test]
fn a_credential_fits_one_cloud() {
    let url = Url::parse("https://example.com/t").expect("parse url");
    let credentials = [
        (aws(), [true, false, false]),
        (StorageCredential::GcpBearer("t".into()), [false, true, false]),
        (StorageCredential::AzureSas("sv=1".into()), [false, false, true]),
        (StorageCredential::AzureBearer("t".into()), [false, false, true]),
        (StorageCredential::AzureAccessKey("a2V5".into()), [false, false, true]),
    ];
    for (credential, expected) in credentials {
        let fits = [
            StoreScheme::AmazonS3,
            StoreScheme::GoogleCloudStorage,
            StoreScheme::MicrosoftAzure,
        ]
        .map(|store| configure_store(store, &url, &vec![], &credential).is_ok());
        assert_eq!(fits, expected);
        // What a store can be configured for, a later refresh can bring.
        assert_eq!(AwsCredentials::supply(Ok(credential.clone())).is_ok(), expected[0]);
        assert_eq!(GcpCredentials::supply(Ok(credential.clone())).is_ok(), expected[1]);
        assert_eq!(AzureCredentials::supply(Ok(credential)).is_ok(), expected[2]);
    }
}

/// Example function of doing testing of a custom HDFS store construction
fn parse_url_opts_hdfs_native(url: &Url, options: StringMap<String>) -> Reply {
    let store = HdfsObjectStoreBuilder::new()
        .with_url(url.as_str())
        .with_config(options.into_entries())
        .build()?;
    let path = Path::parse(url.path())?;
    Ok((Box::new(store), path))
}

#[test]
fn test_add_hdfs_scheme() {
    let scheme = "hdfs";
    let mut handlers: Handlers<Handler> = StringMap::new();
    assert!(handlers.get(scheme).is_none());
    insert_url_handler(Some(&mut handlers), scheme, parse_url_opts_hdfs_native as Handler)
        .expect("Failed to add new URL scheme handler");
    assert!(handlers.get(scheme).is_some());

    let url: Url = Url::parse("hdfs://example").expect("Failed to parse URL");
    // Currently constructing an HDFS store won't work if there isn't an actual HDFS to connect
    // to, so the only way to really verify that we got the object store we expected is to inspect
    // the `store` on the error.
    match store_from_url_opts(Some(&handlers), &url, vec![], &open) {
        Err(DeltaError::ObjectStore(object_store::Error::Generic { store, source: _ })) => {
            assert_eq!(store, "HdfsObjectStore");
        }
        Err(unexpected) => panic!("Unexpected error happened: {}", unexpected.message()),
        Ok(_) => {
            panic!("Expected to get an error when constructing an HdfsObjectStore");
        }
    }
}

fn memory_with_one_option(_url: &Url, options: StringMap<String>) -> Reply {
    assert_eq!(options.get("key").map(String::as_str), Some("last"));
    assert_eq!(options.into_entries().len(), 2);
    Ok((Box::new(object_store::memory::InMemory::new()), Path::default()))
}

fn never(_url: &Url, _options: StringMap<String>) -> Reply {
    panic!("this handler must not be called")
}

#[test]
fn a_registered_handler_is_given_the_options_as_a_map() {
    let mut handlers: Handlers<Handler> = StringMap::new();
    insert_url_handler(Some(&mut handlers), "custom", never as Handler)
        .expect("register");
    insert_url_handler(Some(&mut handlers), "custom", memory_with_one_option as Handler)
        .expect("register again");
    insert_url_handler(Some(&mut handlers), "other", never as Handler)
        .expect("register another");
    let url = Url::parse("custom://example/x").expect("parse url");
    let given = options(&[("key", "first"), ("more", "1"), ("key", "last")]);
    let store = store_from_url_opts(Some(&handlers), &url, given, &open)
        .expect("open");
    assert_eq!(store.to_string(), "InMemory");
}

#[test]
fn an_unregistered_scheme_falls_back() {
    let mut handlers: Handlers<Handler> = StringMap::new();
    insert_url_handler(Some(&mut handlers), "other", never as Handler)
        .expect("register");
    let url = Url::parse("file:///path/to/table").expect("parse url");
    let store = store_from_url(Some(&handlers), &url, &open).expect("open");
    assert!(store.to_string().contains("LocalFileSystem"), "{store}");

    let url = Url::parse("s3://my-bucket/path/to/table").expect("parse url");
    let given = options(&[("region", "us-west-2")]);
    let store = store_from_url_opts(Some(&handlers), &url, given, &open)
        .expect("open");
    assert_eq!(store.to_string(), "AmazonS3(my-bucket)");
}

#[test]
fn a_registry_that_cannot_be_had_falls_back_and_takes_no_handler() {
    let url = Url::parse("memory:///").expect("parse url");
    let none: Option<&Handlers<Handler>> = None;
    let store = store_from_url(none, &url, &open).expect("open");
    assert_eq!(store.to_string(), "InMemory");

    let none: Option<&mut Handlers<Handler>> = None;
    let error = insert_url_handler(none, "memory", never as Handler)
        .err()
        .expect("must be refused");
    assert_eq!(
        error.message(),
        "failed to acquire lock for adding a URL handler!"
    );
}

#[test]
fn an_error_of_a_handler_is_passed_on() {
    let url = Url::parse("ftp://example.com/t").expect("parse url");
    let none: Option<&Handlers<Handler>> = None;
    match store_from_url(none, &url, &open) {
        Err(DeltaError::ObjectStore(object_store::Error::Generic { store, .. })) => {
            assert_eq!(store, "URL");
        }
        _ => panic!("must be refused"),
    }
}

#[test]
fn a_map_keeps_one_value_for_each_key() {
    let mut map: StringMap<u8> = StringMap::new();
    map.insert("a".to_string(), 1);
    map.insert("b".to_string(), 2);
    map.insert("a".to_string(), 3);
    assert_eq!(map.get("a"), Some(&3));
    assert_eq!(map.get("b"), Some(&2));
    assert_eq!(map.get("c"), None);
    assert_eq!(
        map.into_entries(),
        vec![("a".to_string(), 3), ("b".to_string(), 2)]
    );
}
