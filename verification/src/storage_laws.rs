//! What holds of configuring stores and choosing handlers, whatever the URL and the options.

use std::time::Instant;

use object_store::aws::AmazonS3Builder;
use object_store::azure::MicrosoftAzureBuilder;
use object_store::gcp::GoogleCloudStorageBuilder;
use url::Url;
use vstd::prelude::*;

use crate::builders;
use crate::clock;
use crate::credentials;
use crate::credentials::{CredentialSource, Produced, StorageCredential, StoreFailure};
use crate::credentials_laws;
use crate::error::{DeltaError, DeltaResult};
use crate::providers;
use crate::providers::{
    AwsCredentials, AwsKeyPair, AzureCredentials, AzureSecret, GcpCredentials, GcpToken,
};
use crate::sas;
use crate::storage;
use crate::storage::{Handlers, Opened, StoreBuilder, StoreScheme, StoreSchemeView};
use crate::string_map::StringMap;
use crate::string_map_laws;

verus! {

proof fn lemma_cloud_names()
    ensures
        "AWS"@ != "GCP"@,
        "AWS"@ != "Azure"@,
        "GCP"@ != "Azure"@,
{
    reveal_strlit("AWS");
    reveal_strlit("GCP");
    reveal_strlit("Azure");
    assert("AWS"@[0] == 'A' && "GCP"@[0] == 'G');
    assert("AWS"@.len() == 3 && "Azure"@.len() == 5);
}

/// No two clouds have the same name, so a credential's cloud tells its shape.
pub proof fn law_cloud_tells_the_shape(credential: StorageCredential)
    ensures
        credential.cloud_name() == "AWS"@ <==> credential is Aws,
        credential.cloud_name() == "GCP"@ <==> credential is GcpBearer,
        credential.cloud_name() == "Azure"@ <==> (credential is AzureSas || credential
            is AzureBearer || credential is AzureAccessKey),
{
    lemma_cloud_names();
}

/// An S3 store can be configured for a credential exactly where a refresh that brings this
/// credential later succeeds, and a refresh that brings another reports the change of cloud.
pub proof fn law_s3_store_takes_what_it_was_configured_for(
    url: Url,
    options: Seq<(String, String)>,
    credential: StorageCredential,
    r: Result<AwsKeyPair, StoreFailure>,
)
    requires
        AwsCredentials::supplies(Ok(credential), r),
    ensures
        r is Ok <==> storage::configured_store(StoreSchemeView::AmazonS3, url, options, credential)
            is Ok,
        r matches Err(failure) ==> providers::fails_with(
            failure,
            credentials::cloud_changed_message(credential, "AWS"@),
        ),
{
    lemma_cloud_names();
}

/// A GCS store can be configured for a credential exactly where a refresh that brings this
/// credential later succeeds, and a refresh that brings another reports the change of cloud.
pub proof fn law_gcs_store_takes_what_it_was_configured_for(
    url: Url,
    options: Seq<(String, String)>,
    credential: StorageCredential,
    r: Result<GcpToken, StoreFailure>,
)
    requires
        GcpCredentials::supplies(Ok(credential), r),
    ensures
        r is Ok <==> storage::configured_store(
            StoreSchemeView::GoogleCloudStorage,
            url,
            options,
            credential,
        ) is Ok,
        r matches Err(failure) ==> providers::fails_with(
            failure,
            credentials::cloud_changed_message(credential, "GCP"@),
        ),
{
    lemma_cloud_names();
}

/// An Azure store that was configured for a credential is never told by a refresh that brings this
/// credential that the cloud has changed: the refresh succeeds, or the signature or the key is not
/// well formed. A refresh that brings a credential that it could not be configured for reports the
/// change of cloud.
pub proof fn law_azure_store_takes_what_it_was_configured_for(
    url: Url,
    options: Seq<(String, String)>,
    credential: StorageCredential,
    r: Result<AzureSecret, StoreFailure>,
)
    requires
        AzureCredentials::supplies(Ok(credential), r),
    ensures
        storage::configured_store(StoreSchemeView::MicrosoftAzure, url, options, credential) is Ok
            ==> match r {
            Ok(_) => true,
            Err(failure) => match credential {
                StorageCredential::AzureSas(signature) => sas::sas_result(signature@)
                    == Err::<Seq<(Seq<char>, Seq<char>)>, _>(failure.message@),
                StorageCredential::AzureAccessKey(key) => providers::access_key_of(key@) == Err::<
                    object_store::azure::AzureAccessKey,
                    _,
                >(failure.message@),
                _ => false,
            },
        },
        storage::configured_store(StoreSchemeView::MicrosoftAzure, url, options, credential) is Err
            ==> (r matches Err(failure) && providers::fails_with(
            failure,
            credentials::cloud_changed_message(credential, "Azure"@),
        )),
{
    lemma_cloud_names();
}

/// A credential is good for at most one of the three clouds.
pub proof fn law_credential_fits_one_cloud(
    first: StoreSchemeView,
    second: StoreSchemeView,
    url: Url,
    options: Seq<(String, String)>,
    credential: StorageCredential,
)
    requires
        storage::configured_store(first, url, options, credential) is Ok,
        storage::configured_store(second, url, options, credential) is Ok,
    ensures
        first == second,
{
    lemma_cloud_names();
}

/// A credential for another cloud than the one that the URL's scheme names is rejected when the
/// store is configured, and so is every credential for a URL that names no cloud.
pub proof fn law_mismatch_is_rejected_at_construction(
    url: Url,
    options: Seq<(String, String)>,
    credential: StorageCredential,
    r: DeltaResult<StoreBuilder>,
)
    requires
        storage::is_store_for(url, options, Ok(credential), r),
        r is Ok,
    ensures
        storage::url_scheme(url) == "s3"@ || storage::url_scheme(url) == "s3a"@ ==> credential is Aws,
        storage::url_scheme(url) == "gs"@ ==> credential is GcpBearer,
        storage::url_scheme(url) == "az"@ || storage::url_scheme(url) == "adl"@
            || storage::url_scheme(url) == "azure"@ || storage::url_scheme(url) == "abfs"@
            || storage::url_scheme(url) == "abfss"@ ==> credential.cloud_name() == "Azure"@,
        storage::url_scheme(url) != "file"@,
        storage::url_scheme(url) != "memory"@,
        storage::url_scheme(url) != "http"@,
{
    law_cloud_tells_the_shape(credential);
    reveal_strlit("s3");
    reveal_strlit("s3a");
    reveal_strlit("gs");
    reveal_strlit("az");
    reveal_strlit("adl");
    reveal_strlit("azure");
    reveal_strlit("abfs");
    reveal_strlit("abfss");
    reveal_strlit("file");
    reveal_strlit("memory");
    reveal_strlit("http");
    assert("s3"@[0] == 's' && "s3a"@[0] == 's' && "gs"@[0] == 'g');
    assert("az"@[0] == 'a' && "adl"@[0] == 'a' && "azure"@[0] == 'a');
    assert("abfs"@[0] == 'a' && "abfss"@[0] == 'a');
    assert("file"@[0] == 'f' && "memory"@[0] == 'm' && "http"@[0] == 'h');
}

/// A store starts with a warm cache: while the credential that it was configured for is good, a
/// request is answered with that credential. It can be made even where the closure of the source
/// cannot be called.
pub proof fn law_store_starts_warm<F: Fn() -> Produced>(
    url: Url,
    options: Seq<(String, String)>,
    before: CredentialSource<F>,
    warm: CredentialSource<F>,
    after: CredentialSource<F>,
    current: DeltaResult<StorageCredential>,
    r: DeltaResult<StoreBuilder>,
    again: DeltaResult<StorageCredential>,
    asked: Instant,
)
    requires
        CredentialSource::answers(before, warm, current),
        storage::is_store_for(url, options, current, r),
        r is Ok,
        warm.reusable_at(asked),
        CredentialSource::answers_at(warm, after, again, asked),
    ensures
        warm.can_answer_at(asked),
        again == current,
        after.cached() == warm.cached(),
{
}

/// Options that the S3 store does not know make no difference.
pub proof fn law_unknown_s3_options_are_skipped(
    builder: AmazonS3Builder,
    options: Seq<(String, String)>,
)
    ensures
        builders::s3_configured(builder, options) == builders::s3_configured(
            builder,
            options.filter(|option: (String, String)| builders::s3_option(option.0@) is Some),
        ),
    decreases options.len(),
{
    let known = |option: (String, String)| builders::s3_option(option.0@) is Some;
    if options.len() > 0 {
        let init = options.drop_last();
        law_unknown_s3_options_are_skipped(builder, init);
        init.lemma_filter_push(options.last(), known);
        assert(init.push(options.last()) =~= options);
        assert(init.filter(known).push(options.last()).drop_last() =~= init.filter(known));
    } else {
        assert(options.filter(known) =~= options);
    }
}

/// Options that the GCS store does not know make no difference.
pub proof fn law_unknown_gcs_options_are_skipped(
    builder: GoogleCloudStorageBuilder,
    options: Seq<(String, String)>,
)
    ensures
        builders::gcs_configured(builder, options) == builders::gcs_configured(
            builder,
            options.filter(|option: (String, String)| builders::gcs_option(option.0@) is Some),
        ),
    decreases options.len(),
{
    let known = |option: (String, String)| builders::gcs_option(option.0@) is Some;
    if options.len() > 0 {
        let init = options.drop_last();
        law_unknown_gcs_options_are_skipped(builder, init);
        init.lemma_filter_push(options.last(), known);
        assert(init.push(options.last()) =~= options);
        assert(init.filter(known).push(options.last()).drop_last() =~= init.filter(known));
    } else {
        assert(options.filter(known) =~= options);
    }
}

/// Options that the Azure store does not know make no difference.
pub proof fn law_unknown_azure_options_are_skipped(
    builder: MicrosoftAzureBuilder,
    options: Seq<(String, String)>,
)
    ensures
        builders::azure_configured(builder, options) == builders::azure_configured(
            builder,
            options.filter(|option: (String, String)| builders::azure_option(option.0@) is Some),
        ),
    decreases options.len(),
{
    let known = |option: (String, String)| builders::azure_option(option.0@) is Some;
    if options.len() > 0 {
        let init = options.drop_last();
        law_unknown_azure_options_are_skipped(builder, init);
        init.lemma_filter_push(options.last(), known);
        assert(init.push(options.last()) =~= options);
        assert(init.filter(known).push(options.last()).drop_last() =~= init.filter(known));
    } else {
        assert(options.filter(known) =~= options);
    }
}

/// Registering a handler for a scheme makes it open the URLs of that scheme, and changes nothing
/// for the URLs of any other.
pub proof fn law_handler_opens_its_scheme_alone<H>(
    before: Handlers<H>,
    after: Handlers<H>,
    scheme: Seq<char>,
    handler: H,
    url: Url,
)
    requires
        after@ == before@.insert(scheme, handler),
    ensures
        storage::url_scheme(url) == scheme ==> storage::is_handled(Some(&after), url)
            && after@[storage::url_scheme(url)] == handler,
        storage::url_scheme(url) != scheme ==> {
            &&& storage::is_handled(Some(&after), url) == storage::is_handled(Some(&before), url)
            &&& storage::is_handled(Some(&before), url) ==> after@[storage::url_scheme(url)]
                == before@[storage::url_scheme(url)]
        },
{
}

/// Applying no option to an S3 builder changes nothing, and one more option at the end is applied
/// last: it is set where the store knows it, and makes no difference otherwise.
pub proof fn law_s3_options_are_applied_one_by_one(
    builder: AmazonS3Builder,
    options: &Vec<(String, String)>,
    longer: &Vec<(String, String)>,
    key: String,
    value: String,
    shorter_result: AmazonS3Builder,
    longer_result: AmazonS3Builder,
)
    requires
        longer@ == options@.push((key, value)),
        call_ensures(builders::apply_s3_options, (builder, options), shorter_result),
        call_ensures(builders::apply_s3_options, (builder, longer), longer_result),
    ensures
        options@.len() == 0 ==> shorter_result == builder,
        longer_result == match builders::s3_option(key@) {
            Some(option) => builders::s3_with(shorter_result, option, value@),
            None => shorter_result,
        },
{
    assert(longer@.drop_last() =~= options@);
}

/// Applying no option to a GCS builder changes nothing, and one more option at the end is applied
/// last: it is set where the store knows it, and makes no difference otherwise.
pub proof fn law_gcs_options_are_applied_one_by_one(
    builder: GoogleCloudStorageBuilder,
    options: &Vec<(String, String)>,
    longer: &Vec<(String, String)>,
    key: String,
    value: String,
    shorter_result: GoogleCloudStorageBuilder,
    longer_result: GoogleCloudStorageBuilder,
)
    requires
        longer@ == options@.push((key, value)),
        call_ensures(builders::apply_gcs_options, (builder, options), shorter_result),
        call_ensures(builders::apply_gcs_options, (builder, longer), longer_result),
    ensures
        options@.len() == 0 ==> shorter_result == builder,
        longer_result == match builders::gcs_option(key@) {
            Some(option) => builders::gcs_with(shorter_result, option, value@),
            None => shorter_result,
        },
{
    assert(longer@.drop_last() =~= options@);
}

/// Applying no option to an Azure builder changes nothing, and one more option at the end is applied
/// last: it is set where the store knows it, and makes no difference otherwise.
pub proof fn law_azure_options_are_applied_one_by_one(
    builder: MicrosoftAzureBuilder,
    options: &Vec<(String, String)>,
    longer: &Vec<(String, String)>,
    key: String,
    value: String,
    shorter_result: MicrosoftAzureBuilder,
    longer_result: MicrosoftAzureBuilder,
)
    requires
        longer@ == options@.push((key, value)),
        call_ensures(builders::apply_azure_options, (builder, options), shorter_result),
        call_ensures(builders::apply_azure_options, (builder, longer), longer_result),
    ensures
        options@.len() == 0 ==> shorter_result == builder,
        longer_result == match builders::azure_option(key@) {
            Some(option) => builders::azure_with(shorter_result, option, value@),
            None => shorter_result,
        },
{
    assert(longer@.drop_last() =~= options@);
}

/// The kind of store that `store` stands for.
pub open spec fn kind_of(store: StoreScheme) -> StoreSchemeView {
    match store {
        StoreScheme::AmazonS3 => StoreSchemeView::AmazonS3,
        StoreScheme::GoogleCloudStorage => StoreSchemeView::GoogleCloudStorage,
        StoreScheme::MicrosoftAzure => StoreSchemeView::MicrosoftAzure,
        StoreScheme::Other(name) => StoreSchemeView::Other(name@),
    }
}

/// Whether a credential is for the cloud of a store of this kind.
pub open spec fn suits(credential: StorageCredential, store: StoreSchemeView) -> bool {
    match store {
        StoreSchemeView::AmazonS3 => credential is Aws,
        StoreSchemeView::GoogleCloudStorage => credential is GcpBearer,
        StoreSchemeView::MicrosoftAzure => credential is AzureSas || credential is AzureBearer
            || credential is AzureAccessKey,
        StoreSchemeView::Other(_) => false,
    }
}

/// `builder` with the option that `key` names set to `value`, or as it is where `key` names no
/// option of its store.
pub open spec fn with_option(builder: StoreBuilder, key: Seq<char>, value: Seq<char>) -> StoreBuilder {
    match builder {
        StoreBuilder::AmazonS3(builder) => StoreBuilder::AmazonS3(
            match builders::s3_option(key) {
                Some(option) => builders::s3_with(builder, option, value),
                None => builder,
            },
        ),
        StoreBuilder::GoogleCloudStorage(builder) => StoreBuilder::GoogleCloudStorage(
            match builders::gcs_option(key) {
                Some(option) => builders::gcs_with(builder, option, value),
                None => builder,
            },
        ),
        StoreBuilder::MicrosoftAzure(builder) => StoreBuilder::MicrosoftAzure(
            match builders::azure_option(key) {
                Some(option) => builders::azure_with(builder, option, value),
                None => builder,
            },
        ),
    }
}

/// Whether `builder` is the one for a URL with the text `url` and no options, for a store of this
/// kind.
pub open spec fn is_bare(builder: StoreBuilder, store: StoreSchemeView, url: Seq<char>) -> bool {
    match store {
        StoreSchemeView::AmazonS3 => builder == StoreBuilder::AmazonS3(builders::s3_builder(url)),
        StoreSchemeView::GoogleCloudStorage => builder == StoreBuilder::GoogleCloudStorage(
            builders::gcs_builder(url),
        ),
        StoreSchemeView::MicrosoftAzure => builder == StoreBuilder::MicrosoftAzure(
            builders::azure_builder(url),
        ),
        StoreSchemeView::Other(_) => false,
    }
}

/// Whether the steps from one builder of `steps` to the next are the options, one after the other.
pub open spec fn steps_through(
    steps: Seq<StoreBuilder>,
    options: Seq<(String, String)>,
) -> bool {
    &&& steps.len() == options.len() + 1
    &&& forall|i: int|
        0 <= i < options.len() ==> steps[i + 1] == with_option(
            steps[i],
            (#[trigger] options[i]).0@,
            options[i].1@,
        )
}

/// Whether `builder` is the bare builder for this kind of store and URL with the options set on it
/// one after the other.
pub open spec fn is_built(
    builder: StoreBuilder,
    store: StoreSchemeView,
    url: Seq<char>,
    options: Seq<(String, String)>,
) -> bool {
    exists|steps: Seq<StoreBuilder>|
        {
            &&& #[trigger] steps_through(steps, options)
            &&& is_bare(steps[0], store, url)
            &&& steps.last() == builder
        }
}

/// How a credential that does not suit a store of this kind is reported.
pub open spec fn refusal(
    store: StoreSchemeView,
    scheme: Seq<char>,
    credential: StorageCredential,
) -> Seq<char> {
    let mismatch = "storage credential is for "@ + credentials_laws::name_of_cloud(credential)
        + ", but the table URL scheme `"@ + scheme + "` needs a "@;
    match store {
        StoreSchemeView::AmazonS3 => mismatch + "AWS"@ + " credential"@,
        StoreSchemeView::GoogleCloudStorage => mismatch + "GCP"@ + " credential"@,
        StoreSchemeView::MicrosoftAzure => mismatch + "Azure"@ + " credential"@,
        StoreSchemeView::Other(name) => "supplying storage credentials is not supported for "@ + name
            + " urls"@,
    }
}

/// Whether `r` is right for a store of this kind: the builder with the URL and every option set
/// where the credential suits the store, whichever of its cloud it is, and the refusal otherwise.
pub open spec fn is_right_store(
    store: StoreSchemeView,
    url: Url,
    options: Seq<(String, String)>,
    credential: StorageCredential,
    r: DeltaResult<StoreBuilder>,
) -> bool {
    match r {
        Ok(builder) => suits(credential, store) && is_built(
            builder,
            store,
            storage::url_text(url),
            options,
        ),
        Err(error) => {
            &&& !suits(credential, store)
            &&& error matches DeltaError::Generic(message) && message@ == refusal(
                store,
                storage::url_scheme(url),
                credential,
            )
        },
    }
}

/// The builder of the store of this kind with the options set, as the contracts have it.
spec fn modelled(
    store: StoreSchemeView,
    url: Seq<char>,
    options: Seq<(String, String)>,
) -> StoreBuilder {
    match store {
        StoreSchemeView::AmazonS3 => StoreBuilder::AmazonS3(
            builders::s3_configured(builders::s3_builder(url), options),
        ),
        StoreSchemeView::GoogleCloudStorage => StoreBuilder::GoogleCloudStorage(
            builders::gcs_configured(builders::gcs_builder(url), options),
        ),
        _ => StoreBuilder::MicrosoftAzure(
            builders::azure_configured(builders::azure_builder(url), options),
        ),
    }
}

proof fn lemma_built(store: StoreSchemeView, url: Seq<char>, options: Seq<(String, String)>)
    requires
        !(store is Other),
    ensures
        is_built(modelled(store, url, options), store, url, options),
    decreases options.len(),
{
    if options.len() == 0 {
        let steps = seq![modelled(store, url, options)];
        assert(steps_through(steps, options));
        assert(steps.last() == steps[0]);
    } else {
        let init = options.drop_last();
        lemma_built(store, url, init);
        let earlier = choose|steps: Seq<StoreBuilder>|
            {
                &&& #[trigger] steps_through(steps, init)
                &&& is_bare(steps[0], store, url)
                &&& steps.last() == modelled(store, url, init)
            };
        let steps = earlier.push(modelled(store, url, options));
        assert forall|i: int| 0 <= i < options.len() implies steps[i + 1] == with_option(
            steps[i],
            (#[trigger] options[i]).0@,
            options[i].1@,
        ) by {
            if i < init.len() {
                assert(init[i] == options[i]);
                assert(steps[i] == earlier[i] && steps[i + 1] == earlier[i + 1]);
            } else {
                assert(steps[i] == earlier.last());
            }
        }
        assert(steps_through(steps, options));
        assert(steps[0] == earlier[0]);
    }
}

proof fn lemma_right_store(
    store: StoreSchemeView,
    url: Url,
    options: Seq<(String, String)>,
    credential: StorageCredential,
    r: DeltaResult<StoreBuilder>,
)
    requires
        storage::is_builder_result(
            r,
            storage::configured_store(store, url, options, credential),
        ),
    ensures
        is_right_store(store, url, options, credential, r),
{
    law_cloud_tells_the_shape(credential);
    lemma_cloud_names();
    if !(store is Other) {
        lemma_built(store, storage::url_text(url), options);
    }
}

/// Configuring a store gives the builder for the URL with every option that the store knows set, in
/// their order, for each credential of its cloud alike, and refuses every other credential.
pub proof fn law_store_is_configured_rightly(
    store: StoreScheme,
    url: &Url,
    options: &Vec<(String, String)>,
    credential: &StorageCredential,
    r: DeltaResult<StoreBuilder>,
)
    requires
        call_ensures(storage::configure_store, (store, url, options, credential), r),
    ensures
        is_right_store(kind_of(store), *url, options@, *credential, r),
{
    lemma_right_store(kind_of(store), *url, options@, *credential, r);
}

/// Which credential of its cloud a store is configured for makes no difference to the builder.
pub proof fn law_builder_does_not_depend_on_the_credential(
    store: StoreScheme,
    url: &Url,
    options: &Vec<(String, String)>,
    first: &StorageCredential,
    second: &StorageCredential,
    left: DeltaResult<StoreBuilder>,
    right: DeltaResult<StoreBuilder>,
)
    requires
        suits(*first, kind_of(store)),
        suits(*second, kind_of(store)),
        call_ensures(storage::configure_store, (store, url, options, first), left),
        call_ensures(storage::configure_store, (store, url, options, second), right),
    ensures
        left is Ok,
        left == right,
{
    law_cloud_tells_the_shape(*first);
    law_cloud_tells_the_shape(*second);
}

/// One more option at the end of the options is set on the builder that is configured without it,
/// for each kind of store and each credential of its cloud. With no options the builder has the URL
/// alone.
pub proof fn law_one_more_option_is_set(
    store: StoreScheme,
    url: &Url,
    options: &Vec<(String, String)>,
    longer: &Vec<(String, String)>,
    key: String,
    value: String,
    credential: &StorageCredential,
    without: DeltaResult<StoreBuilder>,
    with: DeltaResult<StoreBuilder>,
)
    requires
        suits(*credential, kind_of(store)),
        longer@ == options@.push((key, value)),
        call_ensures(storage::configure_store, (store, url, options, credential), without),
        call_ensures(storage::configure_store, (store, url, longer, credential), with),
    ensures
        without matches Ok(builder) && (options@.len() == 0 ==> is_bare(
            builder,
            kind_of(store),
            storage::url_text(*url),
        )) && with == Ok::<_, DeltaError>(with_option(builder, key@, value@)),
{
    law_cloud_tells_the_shape(*credential);
    assert(longer@.drop_last() =~= options@);
}

/// Whether `r` is right for `url` where the source of the credential answered `current`: the error
/// of the source, else the error of a URL that is for no store, else what is right for the kind of
/// store that the URL is for.
pub open spec fn is_right_store_for(
    url: Url,
    options: Seq<(String, String)>,
    current: DeltaResult<StorageCredential>,
    r: DeltaResult<StoreBuilder>,
) -> bool {
    match (current, storage::store_scheme_of(url)) {
        (Err(failure), _) => r matches Err(error) && error == failure,
        (Ok(_), Err(failure)) => r matches Err(DeltaError::ObjectStore(error)) && error == failure,
        (Ok(credential), Ok(store)) => is_right_store(store, url, options, credential, r),
    }
}

/// Whatever the URL, the options and the source, the store is configured for the credential that
/// the source answers rightly when it is asked.
pub proof fn law_store_is_configured_for_the_current_credential<F: Fn() -> Produced>(
    url: &Url,
    options: &Vec<(String, String)>,
    source: &mut CredentialSource<F>,
    r: DeltaResult<StoreBuilder>,
)
    requires
        call_ensures(storage::store_from_url_with_credentials::<F>, (url, options, source), r),
    ensures
        exists|current: DeltaResult<StorageCredential>| #[trigger]
            credentials_laws::is_right_answer_now(*old(source), *final(source), current)
                && is_right_store_for(*url, options@, current, r),
{
    let current = choose|current: DeltaResult<StorageCredential>| #[trigger]
        CredentialSource::answers(*old(source), *final(source), current) && storage::is_store_for(
            *url,
            options@,
            current,
            r,
        );
    credentials_laws::law_answers_are_right(*old(source), *final(source), current);
    law_store_for_an_answer_is_right(*url, options@, current, r);
    assert(credentials_laws::is_right_answer_now(*old(source), *final(source), current));
}

/// What the contracts allow where the source answered `current` is right.
pub proof fn law_store_for_an_answer_is_right(
    url: Url,
    options: Seq<(String, String)>,
    current: DeltaResult<StorageCredential>,
    r: DeltaResult<StoreBuilder>,
)
    requires
        storage::is_store_for(url, options, current, r),
    ensures
        is_right_store_for(url, options, current, r),
{
    if let (Ok(credential), Ok(store)) = (current, storage::store_scheme_of(url)) {
        lemma_right_store(store, url, options, credential, r);
    }
}

/// While the cached credential is good, configuring a store asks nothing of the closure of its
/// source.
pub proof fn law_good_credential_spares_the_closure_of_a_new_store<F: Fn() -> Produced>(
    url: &Url,
    options: &Vec<(String, String)>,
    source: &mut CredentialSource<F>,
)
    requires
        forall|asked: Instant| #[trigger]
            clock::was_read(asked) ==> credentials_laws::is_good_at(old(source).cached(), asked),
    ensures
        call_requires(storage::store_from_url_with_credentials::<F>, (url, options, source)),
{
}

/// Whether `r` gives the caller what a handler replied: its store, or its error.
pub open spec fn gives_reply<S, P>(reply: Opened<S, P>, r: DeltaResult<S>) -> bool {
    match (reply, r) {
        (Ok((store, _)), Ok(given)) => given == store,
        (Err(error), Err(DeltaError::ObjectStore(given))) => given == error,
        _ => false,
    }
}

/// Whether `r` comes of the handler, called with the URL and a map that holds what the options say
/// last of each key.
pub open spec fn comes_of_handler<S, P, H: Fn(&Url, StringMap<String>) -> Opened<S, P>>(
    handler: H,
    url: &Url,
    options: Seq<(String, String)>,
    r: DeltaResult<S>,
) -> bool {
    exists|map: StringMap<String>, reply: Opened<S, P>|
        {
            &&& #[trigger] call_ensures(handler, (url, map), reply)
            &&& string_map_laws::holds_last_values(map@, options)
            &&& gives_reply(reply, r)
        }
}

/// A URL is opened by the handler of its scheme where the registry can be had and holds one, and
/// by the fallback, with the options as they are, in every other case.
pub proof fn law_url_is_opened_by_its_handler<
    S,
    P,
    H: Fn(&Url, StringMap<String>) -> Opened<S, P>,
    D: Fn(&Url, Vec<(String, String)>) -> Opened<S, P>,
>(
    registry: Option<&Handlers<H>>,
    url: &Url,
    options: Vec<(String, String)>,
    fallback: &D,
    r: DeltaResult<S>,
)
    requires
        call_ensures(
            storage::store_from_url_opts::<S, P, H, D>,
            (registry, url, options, fallback),
            r,
        ),
    ensures
        match registry {
            Some(handlers) if handlers@.contains_key(storage::url_scheme(*url)) => comes_of_handler(
                handlers@[storage::url_scheme(*url)],
                url,
                options@,
                r,
            ),
            _ => exists|reply: Opened<S, P>| #[trigger]
                call_ensures(fallback, (url, options), reply) && gives_reply(reply, r),
        },
{
    string_map_laws::lemma_inserted_last(options@);
}

/// Without options a URL is opened by the same handler or the fallback, with none.
pub proof fn law_url_without_options_is_opened_by_its_handler<
    S,
    P,
    H: Fn(&Url, StringMap<String>) -> Opened<S, P>,
    D: Fn(&Url, Vec<(String, String)>) -> Opened<S, P>,
>(registry: Option<&Handlers<H>>, url: &Url, fallback: &D, r: DeltaResult<S>)
    requires
        call_ensures(storage::store_from_url::<S, P, H, D>, (registry, url, fallback), r),
    ensures
        match registry {
            Some(handlers) if handlers@.contains_key(storage::url_scheme(*url)) => comes_of_handler(
                handlers@[storage::url_scheme(*url)],
                url,
                Seq::empty(),
                r,
            ),
            _ => exists|options: Vec<(String, String)>, reply: Opened<S, P>| #[trigger]
                call_ensures(fallback, (url, options), reply) && options@.len() == 0 && gives_reply(
                    reply,
                    r,
                ),
        },
{
    string_map_laws::lemma_inserted_last(Seq::<(String, String)>::empty());
}

/// A handler that is registered for a scheme opens the URLs of this scheme from then on, in place
/// of any earlier one.
pub proof fn law_registered_handler_opens_its_urls<
    S,
    P,
    H: Fn(&Url, StringMap<String>) -> Opened<S, P>,
    D: Fn(&Url, Vec<(String, String)>) -> Opened<S, P>,
>(
    handlers: &mut Handlers<H>,
    scheme: &str,
    handler: H,
    registered: DeltaResult<()>,
    url: &Url,
    options: Vec<(String, String)>,
    fallback: &D,
    r: DeltaResult<S>,
)
    requires
        call_ensures(
            storage::insert_url_handler::<H>,
            (Some(handlers), scheme, handler),
            registered,
        ),
        storage::url_scheme(*url) == scheme@,
        call_ensures(
            storage::store_from_url_opts::<S, P, H, D>,
            (Some(&*final(handlers)), url, options, fallback),
            r,
        ),
    ensures
        registered is Ok,
        comes_of_handler(handler, url, options@, r),
{
    law_url_is_opened_by_its_handler(Some(&*final(handlers)), url, options, fallback, r);
}

/// Registering a handler changes nothing for the other schemes.
pub proof fn law_registration_leaves_other_schemes_alone<H>(
    handlers: &mut Handlers<H>,
    scheme: &str,
    handler: H,
    registered: DeltaResult<()>,
    other: Seq<char>,
)
    requires
        call_ensures(
            storage::insert_url_handler::<H>,
            (Some(handlers), scheme, handler),
            registered,
        ),
        other != scheme@,
    ensures
        final(handlers)@.contains_key(other) == old(handlers)@.contains_key(other),
        old(handlers)@.contains_key(other) ==> final(handlers)@[other] == old(handlers)@[other],
{
}

/// No handler can be registered where the registry cannot be had, and the error says so.
pub proof fn law_registration_needs_the_registry<H>(
    registry: Option<&mut Handlers<H>>,
    scheme: &str,
    handler: H,
    r: DeltaResult<()>,
)
    requires
        registry is None,
        call_ensures(storage::insert_url_handler::<H>, (registry, scheme, handler), r),
    ensures
        r matches Err(DeltaError::Generic(message)) && message@
            == "failed to acquire lock for adding a URL handler!"@,
{
}

/// A store can be configured for every URL and all options where the closure of the source can be
/// called.
pub proof fn law_callable_closure_suffices_for_a_new_store<F: Fn() -> Produced>(
    url: &Url,
    options: &Vec<(String, String)>,
    source: &mut CredentialSource<F>,
)
    requires
        call_requires(old(source).producer(), ()),
    ensures
        call_requires(storage::store_from_url_with_credentials::<F>, (url, options, source)),
{
}

/// Only the handler of a URL's scheme is asked where there is one, and only the fallback where there
/// is none: the URL can be opened even where the other cannot be called.
pub proof fn law_one_of_handler_and_fallback_is_asked<
    S,
    P,
    H: Fn(&Url, StringMap<String>) -> Opened<S, P>,
    D: Fn(&Url, Vec<(String, String)>) -> Opened<S, P>,
>(registry: Option<&Handlers<H>>, url: &Url, options: Vec<(String, String)>, fallback: &D)
    requires
        match registry {
            Some(handlers) if handlers@.contains_key(storage::url_scheme(*url)) => forall|
                map: StringMap<String>,
            | #[trigger] call_requires(handlers@[storage::url_scheme(*url)], (url, map)),
            _ => call_requires(fallback, (url, options)),
        },
    ensures
        call_requires(
            storage::store_from_url_opts::<S, P, H, D>,
            (registry, url, options, fallback),
        ),
{
}

} // verus!
