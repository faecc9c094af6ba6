//! The builders of the cloud stores, and the options that are applied to them.

use object_store::aws::{AmazonS3Builder, AmazonS3ConfigKey};
use object_store::azure::{AzureConfigKey, MicrosoftAzureBuilder};
use object_store::gcp::{GoogleCloudStorageBuilder, GoogleConfigKey};
use vstd::prelude::*;

verus! {

/// The builder of the S3 store. Its contents are not modelled.
#[verifier::external_type_specification]
#[verifier::external_body]
pub struct ExAmazonS3Builder(AmazonS3Builder);

/// An option of the S3 store.
#[verifier::external_type_specification]
#[verifier::external_body]
pub struct ExAmazonS3ConfigKey(AmazonS3ConfigKey);

/// The S3 builder for a URL, with nothing else set.
pub uninterp spec fn s3_builder(url: Seq<char>) -> AmazonS3Builder;

/// The S3 option that `name` names, if it names one.
pub uninterp spec fn s3_option(name: Seq<char>) -> Option<AmazonS3ConfigKey>;

/// A S3 builder with one option set to `value`.
pub uninterp spec fn s3_with(builder: AmazonS3Builder, option: AmazonS3ConfigKey, value: Seq<char>) -> AmazonS3Builder;

/// `AmazonS3Builder::new` and `AmazonS3Builder::with_url` of object_store make a builder with default
/// settings and this URL. They read nothing but the text of the URL.
#[verifier::external_body]
pub(crate) fn s3_builder_for(url: &str) -> (r: AmazonS3Builder)
    ensures
        r == s3_builder(url@),
{
    AmazonS3Builder::new().with_url(url)
}

/// `str::parse` into `AmazonS3ConfigKey` of object_store looks up the name of an option. Which option a
/// name stands for, and whether it stands for one, rests on the name alone.
#[verifier::external_body]
fn parse_s3_option(name: &str) -> (r: Option<AmazonS3ConfigKey>)
    ensures
        r == s3_option(name@),
{
    name.parse::<AmazonS3ConfigKey>().ok()
}

/// `AmazonS3Builder::with_config` of object_store sets one option of a builder. The builder that
/// comes out rests on the builder that went in, the option and the text of the value alone.
#[verifier::external_body]
fn set_s3_option(builder: AmazonS3Builder, option: AmazonS3ConfigKey, value: &str) -> (r: AmazonS3Builder)
    ensures
        r == s3_with(builder, option, value@),
{
    builder.with_config(option, value)
}

/// `builder` with the options that the S3 store knows applied in their order. The others are
/// passed over.
pub open spec fn s3_configured(
    builder: AmazonS3Builder,
    options: Seq<(String, String)>,
) -> AmazonS3Builder
    decreases options.len(),
{
    if options.len() == 0 {
        builder
    } else {
        let earlier = s3_configured(builder, options.drop_last());
        match s3_option(options.last().0@) {
            Some(option) => s3_with(earlier, option, options.last().1@),
            None => earlier,
        }
    }
}

/// Apply options to a S3 builder, skipping any that it does not recognize.
pub fn apply_s3_options(
    builder: AmazonS3Builder,
    options: &Vec<(String, String)>,
) -> (r: AmazonS3Builder)
    ensures
        r == s3_configured(builder, options@),
{
    let mut configured = builder;
    let mut i: usize = 0;
    assert(options@.take(0) =~= Seq::<(String, String)>::empty());
    while i < options.len()
        invariant
            i <= options@.len(),
            configured == s3_configured(builder, options@.take(i as int)),
        decreases options@.len() - i,
    {
        assert(options@.take(i + 1).drop_last() =~= options@.take(i as int));
        if let Some(option) = parse_s3_option(options[i].0.as_str()) {
            configured = set_s3_option(configured, option, options[i].1.as_str());
        }
        i += 1;
    }
    assert(options@.take(i as int) =~= options@);
    configured
}

/// The builder of the GCS store. Its contents are not modelled.
#[verifier::external_type_specification]
#[verifier::external_body]
pub struct ExGoogleCloudStorageBuilder(GoogleCloudStorageBuilder);

/// An option of the GCS store.
#[verifier::external_type_specification]
#[verifier::external_body]
pub struct ExGoogleConfigKey(GoogleConfigKey);

/// The GCS builder for a URL, with nothing else set.
pub uninterp spec fn gcs_builder(url: Seq<char>) -> GoogleCloudStorageBuilder;

/// The GCS option that `name` names, if it names one.
pub uninterp spec fn gcs_option(name: Seq<char>) -> Option<GoogleConfigKey>;

/// A GCS builder with one option set to `value`.
pub uninterp spec fn gcs_with(builder: GoogleCloudStorageBuilder, option: GoogleConfigKey, value: Seq<char>) -> GoogleCloudStorageBuilder;

/// `GoogleCloudStorageBuilder::new` and `GoogleCloudStorageBuilder::with_url` of object_store make a builder with default
/// settings and this URL. They read nothing but the text of the URL.
#[verifier::external_body]
pub(crate) fn gcs_builder_for(url: &str) -> (r: GoogleCloudStorageBuilder)
    ensures
        r == gcs_builder(url@),
{
    GoogleCloudStorageBuilder::new().with_url(url)
}

/// `str::parse` into `GoogleConfigKey` of object_store looks up the name of an option. Which option a
/// name stands for, and whether it stands for one, rests on the name alone.
#[verifier::external_body]
fn parse_gcs_option(name: &str) -> (r: Option<GoogleConfigKey>)
    ensures
        r == gcs_option(name@),
{
    name.parse::<GoogleConfigKey>().ok()
}

/// `GoogleCloudStorageBuilder::with_config` of object_store sets one option of a builder. The builder that
/// comes out rests on the builder that went in, the option and the text of the value alone.
#[verifier::external_body]
fn set_gcs_option(builder: GoogleCloudStorageBuilder, option: GoogleConfigKey, value: &str) -> (r: GoogleCloudStorageBuilder)
    ensures
        r == gcs_with(builder, option, value@),
{
    builder.with_config(option, value)
}

/// `builder` with the options that the GCS store knows applied in their order. The others are
/// passed over.
pub open spec fn gcs_configured(
    builder: GoogleCloudStorageBuilder,
    options: Seq<(String, String)>,
) -> GoogleCloudStorageBuilder
    decreases options.len(),
{
    if options.len() == 0 {
        builder
    } else {
        let earlier = gcs_configured(builder, options.drop_last());
        match gcs_option(options.last().0@) {
            Some(option) => gcs_with(earlier, option, options.last().1@),
            None => earlier,
        }
    }
}

/// Apply options to a GCS builder, skipping any that it does not recognize.
pub fn apply_gcs_options(
    builder: GoogleCloudStorageBuilder,
    options: &Vec<(String, String)>,
) -> (r: GoogleCloudStorageBuilder)
    ensures
        r == gcs_configured(builder, options@),
{
    let mut configured = builder;
    let mut i: usize = 0;
    assert(options@.take(0) =~= Seq::<(String, String)>::empty());
    while i < options.len()
        invariant
            i <= options@.len(),
            configured == gcs_configured(builder, options@.take(i as int)),
        decreases options@.len() - i,
    {
        assert(options@.take(i + 1).drop_last() =~= options@.take(i as int));
        if let Some(option) = parse_gcs_option(options[i].0.as_str()) {
            configured = set_gcs_option(configured, option, options[i].1.as_str());
        }
        i += 1;
    }
    assert(options@.take(i as int) =~= options@);
    configured
}

/// The builder of the Azure store. Its contents are not modelled.
#[verifier::external_type_specification]
#[verifier::external_body]
pub struct ExMicrosoftAzureBuilder(MicrosoftAzureBuilder);

/// An option of the Azure store.
#[verifier::external_type_specification]
#[verifier::external_body]
pub struct ExAzureConfigKey(AzureConfigKey);

/// The Azure builder for a URL, with nothing else set.
pub uninterp spec fn azure_builder(url: Seq<char>) -> MicrosoftAzureBuilder;

/// The Azure option that `name` names, if it names one.
pub uninterp spec fn azure_option(name: Seq<char>) -> Option<AzureConfigKey>;

/// A Azure builder with one option set to `value`.
pub uninterp spec fn azure_with(builder: MicrosoftAzureBuilder, option: AzureConfigKey, value: Seq<char>) -> MicrosoftAzureBuilder;

/// `MicrosoftAzureBuilder::new` and `MicrosoftAzureBuilder::with_url` of object_store make a builder with default
/// settings and this URL. They read nothing but the text of the URL.
#[verifier::external_body]
pub(crate) fn azure_builder_for(url: &str) -> (r: MicrosoftAzureBuilder)
    ensures
        r == azure_builder(url@),
{
    MicrosoftAzureBuilder::new().with_url(url)
}

/// `str::parse` into `AzureConfigKey` of object_store looks up the name of an option. Which option a
/// name stands for, and whether it stands for one, rests on the name alone.
#[verifier::external_body]
fn parse_azure_option(name: &str) -> (r: Option<AzureConfigKey>)
    ensures
        r == azure_option(name@),
{
    name.parse::<AzureConfigKey>().ok()
}

/// `MicrosoftAzureBuilder::with_config` of object_store sets one option of a builder. The builder that
/// comes out rests on the builder that went in, the option and the text of the value alone.
#[verifier::external_body]
fn set_azure_option(builder: MicrosoftAzureBuilder, option: AzureConfigKey, value: &str) -> (r: MicrosoftAzureBuilder)
    ensures
        r == azure_with(builder, option, value@),
{
    builder.with_config(option, value)
}

/// `builder` with the options that the Azure store knows applied in their order. The others are
/// passed over.
pub open spec fn azure_configured(
    builder: MicrosoftAzureBuilder,
    options: Seq<(String, String)>,
) -> MicrosoftAzureBuilder
    decreases options.len(),
{
    if options.len() == 0 {
        builder
    } else {
        let earlier = azure_configured(builder, options.drop_last());
        match azure_option(options.last().0@) {
            Some(option) => azure_with(earlier, option, options.last().1@),
            None => earlier,
        }
    }
}

/// Apply options to a Azure builder, skipping any that it does not recognize.
pub fn apply_azure_options(
    builder: MicrosoftAzureBuilder,
    options: &Vec<(String, String)>,
) -> (r: MicrosoftAzureBuilder)
    ensures
        r == azure_configured(builder, options@),
{
    let mut configured = builder;
    let mut i: usize = 0;
    assert(options@.take(0) =~= Seq::<(String, String)>::empty());
    while i < options.len()
        invariant
            i <= options@.len(),
            configured == azure_configured(builder, options@.take(i as int)),
        decreases options@.len() - i,
    {
        assert(options@.take(i + 1).drop_last() =~= options@.take(i as int));
        if let Some(option) = parse_azure_option(options[i].0.as_str()) {
            configured = set_azure_option(configured, option, options[i].1.as_str());
        }
        i += 1;
    }
    assert(options@.take(i as int) =~= options@);
    configured
}

} // verus!
