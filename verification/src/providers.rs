//! The current credential of a source, in the shape that the store of each cloud expects.

use object_store::azure::AzureAccessKey;
use vstd::prelude::*;

use crate::credentials::{
    cloud_changed, credential_error, CredentialSource, Produced, StorageCredential, StoreFailure,
};
use crate::credentials;
use crate::error::{DeltaError, DeltaResult};
use crate::sas;

verus! {

/// An Azure shared key, decoded. Its contents are not modelled.
#[verifier::external_type_specification]
#[verifier::external_body]
pub struct ExAzureAccessKey(AzureAccessKey);

/// The shared key that `key` encodes, or how the store words that it encodes none.
pub uninterp spec fn access_key_of(key: Seq<char>) -> Result<AzureAccessKey, Seq<char>>;

/// `AzureAccessKey::try_new` of object_store decodes a base64 shared key. What it returns, and how
/// it words a failure, rests on the text of the key alone.
#[verifier::external_body]
fn try_access_key(key: &str) -> (r: Result<AzureAccessKey, String>)
    ensures
        match r {
            Ok(decoded) => access_key_of(key@) == Ok::<_, Seq<char>>(decoded),
            Err(reason) => access_key_of(key@) == Err::<AzureAccessKey, _>(reason@),
        },
{
    match AzureAccessKey::try_new(key) {
        Ok(decoded) => Ok(decoded),
        Err(error) => Err(error.to_string()),
    }
}

/// An AWS credential, in the shape that the S3 store expects.
pub struct AwsKeyPair {
    pub key_id: String,
    pub secret_key: String,
    pub token: Option<String>,
}

/// A Google credential, in the shape that the GCS store expects.
pub struct GcpToken {
    pub bearer: String,
}

/// An Azure credential, in the shape that the Azure store expects.
pub enum AzureSecret {
    AccessKey(AzureAccessKey),
    SasToken(Vec<(String, String)>),
    BearerToken(String),
}

/// Whether `failure` is a credential failure with the message `message`.
pub open spec fn fails_with(failure: StoreFailure, message: Seq<char>) -> bool {
    failure.store@ == "StorageCredential"@ && failure.message@ == message
}

/// Whether `failure` reports that the source failed with `error`.
pub open spec fn reports(failure: StoreFailure, error: DeltaError) -> bool {
    failure.store@ == "StorageCredential"@ && error.reads_as(failure.message)
}

/// Adapts a [`CredentialSource`] to the credential type the S3 store expects.
pub struct AwsCredentials;

impl AwsCredentials {
    /// What the S3 store is given where the source answered `current`.
    pub open spec fn supplies(
        current: DeltaResult<StorageCredential>,
        r: Result<AwsKeyPair, StoreFailure>,
    ) -> bool {
        match current {
            Err(error) => r matches Err(failure) && reports(failure, error),
            Ok(StorageCredential::Aws { key_id, secret, session_token }) => r matches Ok(pair)
                && pair == (AwsKeyPair { key_id, secret_key: secret, token: session_token }),
            Ok(other) => r matches Err(failure) && fails_with(
                failure,
                credentials::cloud_changed_message(other, "AWS"@),
            ),
        }
    }

    /// Shape the answer of a source for the S3 store.
    pub fn supply(current: DeltaResult<StorageCredential>) -> (r: Result<AwsKeyPair, StoreFailure>)
        ensures
            Self::supplies(current, r),
    {
        match current {
            Err(error) => Err(credential_error(error.message())),
            Ok(StorageCredential::Aws { key_id, secret, session_token }) => Ok(
                AwsKeyPair { key_id, secret_key: secret, token: session_token },
            ),
            Ok(other) => Err(cloud_changed(&other, "AWS")),
        }
    }

    /// The current credential of `source`, for the S3 store.
    pub fn get_credential<F: Fn() -> Produced>(source: &mut CredentialSource<F>) -> (r: Result<
        AwsKeyPair,
        StoreFailure,
    >)
        requires
            old(source).can_answer(),
        ensures
            exists|current: DeltaResult<StorageCredential>| #[trigger]
                CredentialSource::answers(*old(source), *final(source), current)
                    && Self::supplies(current, r),
    {
        let current = source.current();
        Self::supply(current)
    }
}

/// Adapts a [`CredentialSource`] to the credential type the GCS store expects.
pub struct GcpCredentials;

impl GcpCredentials {
    /// What the GCS store is given where the source answered `current`.
    pub open spec fn supplies(
        current: DeltaResult<StorageCredential>,
        r: Result<GcpToken, StoreFailure>,
    ) -> bool {
        match current {
            Err(error) => r matches Err(failure) && reports(failure, error),
            Ok(StorageCredential::GcpBearer(bearer)) => r matches Ok(token) && token == (GcpToken {
                bearer,
            }),
            Ok(other) => r matches Err(failure) && fails_with(
                failure,
                credentials::cloud_changed_message(other, "GCP"@),
            ),
        }
    }

    /// Shape the answer of a source for the GCS store.
    pub fn supply(current: DeltaResult<StorageCredential>) -> (r: Result<GcpToken, StoreFailure>)
        ensures
            Self::supplies(current, r),
    {
        match current {
            Err(error) => Err(credential_error(error.message())),
            Ok(StorageCredential::GcpBearer(bearer)) => Ok(GcpToken { bearer }),
            Ok(other) => Err(cloud_changed(&other, "GCP")),
        }
    }

    /// The current credential of `source`, for the GCS store.
    pub fn get_credential<F: Fn() -> Produced>(source: &mut CredentialSource<F>) -> (r: Result<
        GcpToken,
        StoreFailure,
    >)
        requires
            old(source).can_answer(),
        ensures
            exists|current: DeltaResult<StorageCredential>| #[trigger]
                CredentialSource::answers(*old(source), *final(source), current)
                    && Self::supplies(current, r),
    {
        let current = source.current();
        Self::supply(current)
    }
}

/// Adapts a [`CredentialSource`] to the credential type the Azure store expects.
pub struct AzureCredentials;

impl AzureCredentials {
    /// What the Azure store is given where the source answered `current`.
    pub open spec fn supplies(
        current: DeltaResult<StorageCredential>,
        r: Result<AzureSecret, StoreFailure>,
    ) -> bool {
        match current {
            Err(error) => r matches Err(failure) && reports(failure, error),
            Ok(StorageCredential::AzureSas(signature)) => match sas::sas_result(signature@) {
                Ok(expected) => r matches Ok(AzureSecret::SasToken(pairs)) && sas::pairs_view(
                    pairs@,
                ) == expected,
                Err(message) => r matches Err(failure) && fails_with(failure, message),
            },
            Ok(StorageCredential::AzureBearer(token)) => r == Ok::<_, StoreFailure>(
                AzureSecret::BearerToken(token),
            ),
            Ok(StorageCredential::AzureAccessKey(key)) => match access_key_of(key@) {
                Ok(decoded) => r == Ok::<_, StoreFailure>(AzureSecret::AccessKey(decoded)),
                Err(message) => r matches Err(failure) && fails_with(failure, message),
            },
            Ok(other) => r matches Err(failure) && fails_with(
                failure,
                credentials::cloud_changed_message(other, "Azure"@),
            ),
        }
    }

    /// Shape the answer of a source for the Azure store.
    pub fn supply(current: DeltaResult<StorageCredential>) -> (r: Result<AzureSecret, StoreFailure>)
        ensures
            Self::supplies(current, r),
    {
        match current {
            Err(error) => Err(credential_error(error.message())),
            Ok(StorageCredential::AzureSas(signature)) => match sas::split_sas(
                signature.as_str(),
            ) {
                Ok(pairs) => Ok(AzureSecret::SasToken(pairs)),
                Err(error) => Err(credential_error(error.message())),
            },
            Ok(StorageCredential::AzureBearer(token)) => Ok(AzureSecret::BearerToken(token)),
            Ok(StorageCredential::AzureAccessKey(key)) => match try_access_key(key.as_str()) {
                Ok(decoded) => Ok(AzureSecret::AccessKey(decoded)),
                Err(reason) => Err(credential_error(reason)),
            },
            Ok(other) => Err(cloud_changed(&other, "Azure")),
        }
    }

    /// The current credential of `source`, for the Azure store.
    pub fn get_credential<F: Fn() -> Produced>(source: &mut CredentialSource<F>) -> (r: Result<
        AzureSecret,
        StoreFailure,
    >)
        requires
            old(source).can_answer(),
        ensures
            exists|current: DeltaResult<StorageCredential>| #[trigger]
                CredentialSource::answers(*old(source), *final(source), current)
                    && Self::supplies(current, r),
    {
        let current = source.current();
        Self::supply(current)
    }
}

} // verus!
