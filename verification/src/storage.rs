//! Choosing and configuring the object store for a URL.

use object_store::aws::AmazonS3Builder;
use object_store::azure::MicrosoftAzureBuilder;
use object_store::gcp::GoogleCloudStorageBuilder;
use object_store::ObjectStoreScheme;
use url::Url;
use vstd::prelude::*;
use vstd::string::*;

use crate::builders;
use crate::credentials;
use crate::credentials::{wrong_cloud, CredentialSource, Produced, StorageCredential};
use crate::error::{DeltaError, DeltaResult, ErrorView};
use crate::string_map;
use crate::string_map::StringMap;
use crate::text;

verus! {

/// A URL. What is modelled of it is its serialization.
#[verifier::external_type_specification]
#[verifier::external_body]
pub struct ExUrl(Url);

/// The serialization of `url`.
pub uninterp spec fn url_text(url: Url) -> Seq<char>;

/// The scheme of `url`: what stands before the first `:` of its serialization.
pub open spec fn url_scheme(url: Url) -> Seq<char> {
    url_text(url).take(text::position(url_text(url), ':'))
}

/// `Url::as_str` of url is the serialization of a URL.
pub assume_specification[ Url::as_str ](url: &Url) -> (r: &str)
    ensures
        r@ == url_text(*url),
;

/// `Url::scheme` of url is the scheme of a URL, without the `:` that ends it.
pub assume_specification[ Url::scheme ](url: &Url) -> (r: &str)
    ensures
        r@ == url_scheme(*url),
;

/// The kind of store that a URL is for. Stores that take no supplied credentials are told apart
/// by name only.
pub enum StoreScheme {
    AmazonS3,
    GoogleCloudStorage,
    MicrosoftAzure,
    Other(String),
}

/// The model of a [`StoreScheme`].
pub enum StoreSchemeView {
    AmazonS3,
    GoogleCloudStorage,
    MicrosoftAzure,
    Other(Seq<char>),
}

impl View for StoreScheme {
    type V = StoreSchemeView;

    open spec fn view(&self) -> StoreSchemeView {
        match *self {
            StoreScheme::AmazonS3 => StoreSchemeView::AmazonS3,
            StoreScheme::GoogleCloudStorage => StoreSchemeView::GoogleCloudStorage,
            StoreScheme::MicrosoftAzure => StoreSchemeView::MicrosoftAzure,
            StoreScheme::Other(name) => StoreSchemeView::Other(name@),
        }
    }
}

/// The kind of store that `url` is for, or the error that it is for none.
pub uninterp spec fn store_scheme_of(url: Url) -> Result<StoreSchemeView, object_store::Error>;

/// Whether a URL of this scheme can be for this kind of store. All schemes but `https` are for one
/// kind of store.
pub open spec fn scheme_fits(scheme: Seq<char>, store: StoreSchemeView) -> bool {
    if scheme == "s3"@ || scheme == "s3a"@ {
        store is AmazonS3
    } else if scheme == "gs"@ {
        store is GoogleCloudStorage
    } else if scheme == "az"@ || scheme == "adl"@ || scheme == "azure"@ || scheme == "abfs"@
        || scheme == "abfss"@ {
        store is MicrosoftAzure
    } else if scheme == "file"@ {
        store == StoreSchemeView::Other("Local"@)
    } else if scheme == "memory"@ {
        store == StoreSchemeView::Other("Memory"@)
    } else if scheme == "http"@ {
        store == StoreSchemeView::Other("Http"@)
    } else {
        scheme == "https"@ && (store is AmazonS3 || store is MicrosoftAzure || store
            == StoreSchemeView::Other("Http"@))
    }
}

/// `ObjectStoreScheme::parse` of object_store tells which kind of store a URL is for, and fails on
/// a URL that is for none or whose path no store can hold. The answer rests on the URL alone. It
/// fits the scheme of the URL; by which hosts `https` URLs are told apart is not stated.
#[verifier::external_body]
fn parse_scheme(url: &Url) -> (r: Result<StoreScheme, object_store::Error>)
    ensures
        match r {
            Ok(store) => store_scheme_of(*url) == Ok::<_, object_store::Error>(store@)
                && scheme_fits(url_scheme(*url), store@),
            Err(error) => store_scheme_of(*url) == Err::<StoreSchemeView, _>(error),
        },
{
    match ObjectStoreScheme::parse(url) {
        Ok((ObjectStoreScheme::AmazonS3, _)) => Ok(StoreScheme::AmazonS3),
        Ok((ObjectStoreScheme::GoogleCloudStorage, _)) => Ok(StoreScheme::GoogleCloudStorage),
        Ok((ObjectStoreScheme::MicrosoftAzure, _)) => Ok(StoreScheme::MicrosoftAzure),
        Ok((other, _)) => Ok(StoreScheme::Other(format!("{other:?}"))),
        Err(error) => Err(object_store::Error::from(error)),
    }
}

/// The builder of a cloud store, with the URL and the options set. What is missing is the
/// credential, which the store asks its source for.
pub enum StoreBuilder {
    AmazonS3(AmazonS3Builder),
    GoogleCloudStorage(GoogleCloudStorageBuilder),
    MicrosoftAzure(MicrosoftAzureBuilder),
}

/// How a URL whose store takes no supplied credentials is reported.
pub open spec fn unsupported_message(store: Seq<char>) -> Seq<char> {
    "supplying storage credentials is not supported for "@ + store + " urls"@
}

/// What configuring the store of kind `store` for `url` gives, for the credential `credential`:
/// the builder, or the message that reports why there is none.
pub open spec fn configured_store(
    store: StoreSchemeView,
    url: Url,
    options: Seq<(String, String)>,
    credential: StorageCredential,
) -> Result<StoreBuilder, Seq<char>> {
    match store {
        StoreSchemeView::AmazonS3 => if credential.cloud_name() == "AWS"@ {
            Ok(
                StoreBuilder::AmazonS3(
                    builders::s3_configured(builders::s3_builder(url_text(url)), options),
                ),
            )
        } else {
            Err(credentials::wrong_cloud_message(credential, url_scheme(url), "AWS"@))
        },
        StoreSchemeView::GoogleCloudStorage => if credential.cloud_name() == "GCP"@ {
            Ok(
                StoreBuilder::GoogleCloudStorage(
                    builders::gcs_configured(builders::gcs_builder(url_text(url)), options),
                ),
            )
        } else {
            Err(credentials::wrong_cloud_message(credential, url_scheme(url), "GCP"@))
        },
        StoreSchemeView::MicrosoftAzure => if credential.cloud_name() == "Azure"@ {
            Ok(
                StoreBuilder::MicrosoftAzure(
                    builders::azure_configured(builders::azure_builder(url_text(url)), options),
                ),
            )
        } else {
            Err(credentials::wrong_cloud_message(credential, url_scheme(url), "Azure"@))
        },
        StoreSchemeView::Other(name) => Err(unsupported_message(name)),
    }
}

/// Whether `r` is the result that `model` describes.
pub open spec fn is_builder_result(
    r: DeltaResult<StoreBuilder>,
    model: Result<StoreBuilder, Seq<char>>,
) -> bool {
    match model {
        Ok(builder) => r == Ok::<_, DeltaError>(builder),
        Err(message) => r matches Err(error) && error@ == ErrorView::Generic(message),
    }
}

/// Configure the store of kind `store` for `url`, for a source whose current credential is
/// `credential`.
pub fn configure_store(
    store: StoreScheme,
    url: &Url,
    options: &Vec<(String, String)>,
    credential: &StorageCredential,
) -> (r: DeltaResult<StoreBuilder>)
    ensures
        is_builder_result(r, configured_store(store@, *url, options@, *credential)),
{
    proof {
        reveal_strlit("AWS");
        reveal_strlit("GCP");
        reveal_strlit("Azure");
        assert("AWS"@[0] == 'A' && "GCP"@[0] == 'G' && "AWS"@.len() != "Azure"@.len());
    }
    match store {
        StoreScheme::AmazonS3 => match credential {
            StorageCredential::Aws { .. } => {
                let builder = builders::s3_builder_for(url.as_str());
                Ok(StoreBuilder::AmazonS3(builders::apply_s3_options(builder, options)))
            },
            _ => Err(wrong_cloud(credential, url.scheme(), "AWS")),
        },
        StoreScheme::GoogleCloudStorage => match credential {
            StorageCredential::GcpBearer(_) => {
                let builder = builders::gcs_builder_for(url.as_str());
                Ok(StoreBuilder::GoogleCloudStorage(builders::apply_gcs_options(builder, options)))
            },
            _ => Err(wrong_cloud(credential, url.scheme(), "GCP")),
        },
        StoreScheme::MicrosoftAzure => match credential {
            StorageCredential::AzureSas(_)
            | StorageCredential::AzureBearer(_)
            | StorageCredential::AzureAccessKey(_) => {
                let builder = builders::azure_builder_for(url.as_str());
                Ok(StoreBuilder::MicrosoftAzure(builders::apply_azure_options(builder, options)))
            },
            _ => Err(wrong_cloud(credential, url.scheme(), "Azure")),
        },
        StoreScheme::Other(name) => {
            let message = "supplying storage credentials is not supported for ".to_string().concat(
                name.as_str(),
            ).concat(" urls");
            Err(DeltaError::Generic(message))
        },
    }
}

/// Whether `r` is what configuring the store for `url` gives where the source of the credential
/// answered `current`.
pub open spec fn is_store_for(
    url: Url,
    options: Seq<(String, String)>,
    current: DeltaResult<StorageCredential>,
    r: DeltaResult<StoreBuilder>,
) -> bool {
    match current {
        Err(error) => r == Err::<StoreBuilder, _>(error),
        Ok(credential) => match store_scheme_of(url) {
            Err(error) => r == Err::<StoreBuilder, _>(DeltaError::ObjectStore(error)),
            Ok(store) => scheme_fits(url_scheme(url), store) && is_builder_result(
                r,
                configured_store(store, url, options, credential),
            ),
        },
    }
}

/// Configure an object store for a URL whose credential is supplied by `credentials` and refreshed
/// as it expires, rather than fixed in `options`.
///
/// The credential is produced once here so a credential that does not match the URL's cloud is
/// reported at construction rather than on the first request, and so the store starts with a warm
/// cache.
pub fn store_from_url_with_credentials<F: Fn() -> Produced>(
    url: &Url,
    options: &Vec<(String, String)>,
    credentials: &mut CredentialSource<F>,
) -> (r: DeltaResult<StoreBuilder>)
    requires
        old(credentials).can_answer(),
    ensures
        exists|current: DeltaResult<StorageCredential>| #[trigger]
            CredentialSource::answers(*old(credentials), *final(credentials), current)
                && is_store_for(*url, options@, current, r),
{
    let current = credentials.current();
    let ghost answer = current;
    let credential = match current {
        Ok(credential) => credential,
        Err(error) => {
            assert(CredentialSource::answers(*old(credentials), *credentials, answer));
            return Err(error);
        },
    };
    assert(CredentialSource::answers(*old(credentials), *credentials, answer));
    match parse_scheme(url) {
        Ok(store) => configure_store(store, url, options, &credential),
        Err(error) => Err(DeltaError::ObjectStore(error)),
    }
}

/// The handlers of custom URL schemes, by scheme.
pub type Handlers<H> = StringMap<H>;

/// Register `handler` for the URLs of `scheme`, in place of any earlier one. The registry is
/// `None` where it cannot be had.
pub fn insert_url_handler<H>(
    registry: Option<&mut Handlers<H>>,
    scheme: &str,
    handler: H,
) -> (r: DeltaResult<()>)
    ensures
        match registry {
            Some(handlers) => r is Ok && final(handlers)@ == handlers@.insert(scheme@, handler),
            None => r matches Err(error) && error@ == ErrorView::Generic(
                "failed to acquire lock for adding a URL handler!"@,
            ),
        },
{
    match registry {
        Some(handlers) => {
            handlers.insert(scheme.to_string(), handler);
            Ok(())
        },
        None => Err(DeltaError::generic("failed to acquire lock for adding a URL handler!")),
    }
}

/// What a handler of URLs returns: a store and the path into it.
pub type Opened<S, P> = Result<(S, P), object_store::Error>;

/// Whether `r` is what the caller is given where the handler replied `reply`: the store without
/// the path, or the handler's error.
pub open spec fn is_opened<S, P>(reply: Opened<S, P>, r: DeltaResult<S>) -> bool {
    match reply {
        Ok((store, _)) => r == Ok::<_, DeltaError>(store),
        Err(error) => r == Err::<S, _>(DeltaError::ObjectStore(error)),
    }
}

/// Whether `registry` can be had and holds a handler for the scheme of `url`.
pub open spec fn is_handled<H>(registry: Option<&Handlers<H>>, url: Url) -> bool {
    registry matches Some(handlers) && handlers@.contains_key(url_scheme(url))
}

/// Create an object store from a URL with custom options.
///
/// The handler that `registry` holds for the scheme of the URL opens it, given the options as a
/// map. `fallback` opens the URL where there is no such handler, or where the registry cannot be
/// had.
pub fn store_from_url_opts<
    S,
    P,
    H: Fn(&Url, StringMap<String>) -> Opened<S, P>,
    D: Fn(&Url, Vec<(String, String)>) -> Opened<S, P>,
>(
    registry: Option<&Handlers<H>>,
    url: &Url,
    options: Vec<(String, String)>,
    fallback: &D,
) -> (r: DeltaResult<S>)
    requires
        is_handled(registry, *url) ==> forall|map: StringMap<String>|
            map@ == string_map::inserted(options@) ==> #[trigger] call_requires(
                registry->0@[url_scheme(*url)],
                (url, map),
            ),
        !is_handled(registry, *url) ==> call_requires(fallback, (url, options)),
    ensures
        is_handled(registry, *url) ==> exists|map: StringMap<String>, reply: Opened<S, P>|
            {
                &&& map@ == string_map::inserted(options@)
                &&& #[trigger] call_ensures(registry->0@[url_scheme(*url)], (url, map), reply)
                &&& is_opened(reply, r)
            },
        !is_handled(registry, *url) ==> exists|reply: Opened<S, P>|
            {
                &&& #[trigger] call_ensures(fallback, (url, options), reply)
                &&& is_opened(reply, r)
            },
{
    let handler = match registry {
        Some(handlers) => handlers.get(url.scheme()),
        None => None,
    };
    let reply = match handler {
        Some(handler) => handler(url, StringMap::from_entries(options)),
        None => fallback(url, options),
    };
    match reply {
        Ok((store, _path)) => Ok(store),
        Err(error) => Err(DeltaError::ObjectStore(error)),
    }
}

/// Create an object store from a URL, with no options.
pub fn store_from_url<
    S,
    P,
    H: Fn(&Url, StringMap<String>) -> Opened<S, P>,
    D: Fn(&Url, Vec<(String, String)>) -> Opened<S, P>,
>(registry: Option<&Handlers<H>>, url: &Url, fallback: &D) -> (r: DeltaResult<S>)
    requires
        is_handled(registry, *url) ==> forall|map: StringMap<String>|
            map@ == Map::<Seq<char>, String>::empty() ==> #[trigger] call_requires(
                registry->0@[url_scheme(*url)],
                (url, map),
            ),
        !is_handled(registry, *url) ==> forall|options: Vec<(String, String)>|
            options@.len() == 0 ==> #[trigger] call_requires(fallback, (url, options)),
    ensures
        is_handled(registry, *url) ==> exists|map: StringMap<String>, reply: Opened<S, P>|
            {
                &&& map@ == Map::<Seq<char>, String>::empty()
                &&& #[trigger] call_ensures(registry->0@[url_scheme(*url)], (url, map), reply)
                &&& is_opened(reply, r)
            },
        !is_handled(registry, *url) ==> exists|options: Vec<(String, String)>, reply: Opened<S, P>|
            {
                &&& options@.len() == 0
                &&& #[trigger] call_ensures(fallback, (url, options), reply)
                &&& is_opened(reply, r)
            },
{
    store_from_url_opts(registry, url, Vec::new(), fallback)
}

} // verus!
