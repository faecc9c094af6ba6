//! Storage credentials that a foreign callback supplies.
//!
//! A connector that holds its own credentials registers a callback rather than a value, because
//! those credentials are short-lived and a store built from a fixed one stops working partway
//! through a long read. The callback is invoked when a credential is needed and its result is
//! cached for the reported lifetime.

use std::time::{Duration, Instant};

use url::Url;
use vstd::prelude::*;
use vstd::string::*;

use crate::clock;
use crate::credentials::{CredentialSource, Produced, StorageCredential};
use crate::error::{DeltaError, DeltaResult, ErrorView};
use crate::storage;
use crate::storage::{store_from_url_with_credentials, StoreBuilder};

verus! {

/// Which credential a [`CStorageCredential`] carries, and therefore which of its fields are read.
#[derive(Clone, Copy, Debug, PartialEq, Eq, Structural)]
pub enum CStorageCredentialKind {
    /// No credential was produced. Report this when the callback cannot obtain one; the read that
    /// triggered the refresh fails rather than retrying with a stale credential.
    NoCredential,
    /// AWS access key pair in `key_id` and `secret`, with a session token in `token` when the
    /// credential is temporary.
    AwsAccessKey,
    /// Google Cloud Storage OAuth bearer token in `token`.
    GcpBearerToken,
    /// Azure shared access signature in `token`, as the raw query string.
    AzureSasToken,
    /// Azure Entra ID bearer token in `token`.
    AzureBearerToken,
    /// Azure storage account shared key in `secret`, base64 encoded.
    AzureAccessKey,
}

/// What a callback writes its credential into.
///
/// Every field is set before the callback runs: `kind` to [`CStorageCredentialKind::NoCredential`], each
/// string to nothing, and `ttl_ms` to `0`. The callback sets `kind`, then the fields that kind
/// documents. Fields that the kind does not document are not read.
pub struct CStorageCredential {
    pub kind: CStorageCredentialKind,
    pub key_id: Option<String>,
    pub secret: Option<String>,
    pub token: Option<String>,
    /// How long (in milliseconds) the credential stays valid. `0` means unknown, which makes the
    /// callback run again for every request.
    pub ttl_ms: u64,
}

/// How a credential that lacks a field is reported.
pub open spec fn missing_field_message(field: Seq<char>, kind: Seq<char>) -> Seq<char> {
    "storage credential of kind "@ + kind + " has no "@ + field
}

/// A credential whose kind requires a field the callback left unset.
pub fn missing_field(field: &str, kind: &str) -> (r: DeltaError)
    ensures
        r@ == ErrorView::Generic(missing_field_message(field@, kind@)),
{
    let message = "storage credential of kind ".to_string().concat(kind).concat(" has no ").concat(
        field,
    );
    DeltaError::Generic(message)
}

/// Take an optional string that a callback wrote, leaving nothing.
pub fn take_string(field: &mut Option<String>) -> (r: Option<String>)
    ensures
        r == *old(field),
        *final(field) is None,
{
    field.take()
}

/// A required field, or the message that reports that it is missing.
pub open spec fn required(field: Option<String>, name: Seq<char>, kind: Seq<char>) -> Result<
    String,
    Seq<char>,
> {
    match field {
        Some(value) => Ok(value),
        None => Err(missing_field_message(name, kind)),
    }
}

fn require(field: Option<String>, name: &str, kind: &str) -> (r: Result<String, DeltaError>)
    ensures
        match required(field, name@, kind@) {
            Ok(value) => r == Ok::<_, DeltaError>(value),
            Err(message) => r matches Err(error) && error@ == ErrorView::Generic(message),
        },
{
    match field {
        Some(value) => Ok(value),
        None => Err(missing_field(name, kind)),
    }
}

impl CStorageCredential {
    /// What a callback is given to write into.
    pub open spec fn unset_model() -> CStorageCredential {
        CStorageCredential {
            kind: CStorageCredentialKind::NoCredential,
            key_id: None,
            secret: None,
            token: None,
            ttl_ms: 0,
        }
    }

    /// What a callback is given to write into: no credential, no string, no lifetime.
    pub fn unset() -> (r: CStorageCredential)
        ensures
            r == CStorageCredential::unset_model(),
    {
        CStorageCredential {
            kind: CStorageCredentialKind::NoCredential,
            key_id: None,
            secret: None,
            token: None,
            ttl_ms: 0,
        }
    }

    /// The credential that was written, or the message that reports why there is none.
    pub open spec fn credential(self) -> Result<StorageCredential, Seq<char>> {
        match self.kind {
            CStorageCredentialKind::NoCredential => Err(
                "storage credential callback produced no credential"@,
            ),
            CStorageCredentialKind::AwsAccessKey => match required(
                self.key_id,
                "key_id"@,
                "AwsAccessKey"@,
            ) {
                Ok(key_id) => match required(self.secret, "secret"@, "AwsAccessKey"@) {
                    Ok(secret) => Ok(
                        StorageCredential::Aws { key_id, secret, session_token: self.token },
                    ),
                    Err(message) => Err(message),
                },
                Err(message) => Err(message),
            },
            CStorageCredentialKind::GcpBearerToken => match required(
                self.token,
                "token"@,
                "GcpBearerToken"@,
            ) {
                Ok(token) => Ok(StorageCredential::GcpBearer(token)),
                Err(message) => Err(message),
            },
            CStorageCredentialKind::AzureSasToken => match required(
                self.token,
                "token"@,
                "AzureSasToken"@,
            ) {
                Ok(token) => Ok(StorageCredential::AzureSas(token)),
                Err(message) => Err(message),
            },
            CStorageCredentialKind::AzureBearerToken => match required(
                self.token,
                "token"@,
                "AzureBearerToken"@,
            ) {
                Ok(token) => Ok(StorageCredential::AzureBearer(token)),
                Err(message) => Err(message),
            },
            CStorageCredentialKind::AzureAccessKey => match required(
                self.secret,
                "secret"@,
                "AzureAccessKey"@,
            ) {
                Ok(secret) => Ok(StorageCredential::AzureAccessKey(secret)),
                Err(message) => Err(message),
            },
        }
    }

    /// Whether `ttl` is the lifetime that was written.
    pub open spec fn lives_for(self, ttl: Option<Duration>) -> bool {
        match ttl {
            Some(duration) => self.ttl_ms != 0 && clock::duration_nanos(duration) == self.ttl_ms
                * 1_000_000,
            None => self.ttl_ms == 0,
        }
    }

    /// Whether `r` is the credential that was written and its lifetime, or the report that there
    /// is none.
    pub open spec fn produces(self, r: Produced) -> bool {
        match self.credential() {
            Ok(credential) => r matches Ok((supplied, ttl)) && supplied == credential
                && self.lives_for(ttl),
            Err(message) => r matches Err(error) && error@ == ErrorView::Generic(message),
        }
    }

    /// Convert what a callback wrote into a credential and its lifetime.
    ///
    /// Every string is taken, also where the credential is rejected, so none is left behind.
    pub fn take_credential(&mut self) -> (r: Produced)
        ensures
            old(self).produces(r),
            final(self).kind == old(self).kind,
            final(self).ttl_ms == old(self).ttl_ms,
            final(self).key_id is None,
            final(self).secret is None,
            final(self).token is None,
    {
        let ttl = if self.ttl_ms != 0 {
            Some(Duration::from_millis(self.ttl_ms))
        } else {
            None
        };
        let key_id = take_string(&mut self.key_id);
        let secret = take_string(&mut self.secret);
        let token = take_string(&mut self.token);
        let credential = match self.kind {
            CStorageCredentialKind::NoCredential => {
                return Err(
                    DeltaError::generic("storage credential callback produced no credential"),
                );
            },
            CStorageCredentialKind::AwsAccessKey => {
                let key_id = match require(key_id, "key_id", "AwsAccessKey") {
                    Ok(key_id) => key_id,
                    Err(error) => return Err(error),
                };
                let secret = match require(secret, "secret", "AwsAccessKey") {
                    Ok(secret) => secret,
                    Err(error) => return Err(error),
                };
                StorageCredential::Aws { key_id, secret, session_token: token }
            },
            CStorageCredentialKind::GcpBearerToken => match require(
                token,
                "token",
                "GcpBearerToken",
            ) {
                Ok(token) => StorageCredential::GcpBearer(token),
                Err(error) => return Err(error),
            },
            CStorageCredentialKind::AzureSasToken => match require(
                token,
                "token",
                "AzureSasToken",
            ) {
                Ok(token) => StorageCredential::AzureSas(token),
                Err(error) => return Err(error),
            },
            CStorageCredentialKind::AzureBearerToken => match require(
                token,
                "token",
                "AzureBearerToken",
            ) {
                Ok(token) => StorageCredential::AzureBearer(token),
                Err(error) => return Err(error),
            },
            CStorageCredentialKind::AzureAccessKey => match require(
                secret,
                "secret",
                "AzureAccessKey",
            ) {
                Ok(secret) => StorageCredential::AzureAccessKey(secret),
                Err(error) => return Err(error),
            },
        };
        Ok((credential, ttl))
    }
}

/// Calls a callback whenever a storage credential is needed. The callback takes what it writes
/// into and hands it back.
pub struct FfiCredentialProvider<C> {
    callback: C,
}

impl<C> FfiCredentialProvider<C> {
    /// The callback that is called.
    pub closed spec fn callback(&self) -> C {
        self.callback
    }
}

impl<C: Fn(CStorageCredential) -> CStorageCredential> FfiCredentialProvider<C> {
    /// A provider that calls `callback`.
    pub fn new(callback: C) -> (r: Self)
        ensures
            r.callback() == callback,
    {
        FfiCredentialProvider { callback }
    }

    /// Whether the callback can be called.
    pub open spec fn callable(&self) -> bool {
        call_requires(self.callback(), (CStorageCredential::unset_model(),))
    }

    /// Whether a call of the callback may lead to `r`.
    pub open spec fn collects(&self, r: Produced) -> bool {
        exists|written: CStorageCredential| #[trigger]
            call_ensures(self.callback(), (CStorageCredential::unset_model(),), written)
                && written.produces(r)
    }

    /// Invoke the callback and convert what it wrote into a credential and its lifetime.
    pub fn collect(&self) -> (r: Produced)
        requires
            self.callable(),
        ensures
            self.collects(r),
    {
        let mut written = (self.callback)(CStorageCredential::unset());
        let ghost slot = written;
        let r = written.take_credential();
        assert(call_ensures(self.callback(), (CStorageCredential::unset_model(),), slot));
        r
    }
}

/// The answer of a source whose closure returned `produced`.
pub open spec fn answer_of(produced: Produced) -> DeltaResult<StorageCredential> {
    match produced {
        Ok((credential, _)) => Ok(credential),
        Err(error) => Err(error),
    }
}

/// The builder of a store that is handed back with the source of its credential, or the error.
pub open spec fn builder_of<F>(
    r: DeltaResult<(StoreBuilder, CredentialSource<F>)>,
) -> DeltaResult<StoreBuilder> {
    match r {
        Ok((builder, _)) => Ok(builder),
        Err(error) => Err(error),
    }
}

/// Whether `source` goes on asking `provider`, and comes from an empty source whose first request
/// was answered with `produced`.
pub open spec fn is_source_of<F: Fn() -> Produced, C: Fn(CStorageCredential) -> CStorageCredential>(
    source: CredentialSource<F>,
    provider: FfiCredentialProvider<C>,
    produced: Produced,
) -> bool {
    &&& call_requires(source.producer(), ())
    &&& forall|r: Produced| #[trigger]
        call_ensures(source.producer(), (), r) ==> provider.collects(r)
    &&& exists|fresh: CredentialSource<F>, issued: Instant|
        {
            &&& fresh.cached() is None
            &&& #[trigger] CredentialSource::refreshed(
                fresh,
                source,
                answer_of(produced),
                produced,
                issued,
            )
        }
}

/// Configure a cloud store for `url` whose credential comes from `provider` and is refreshed as it
/// expires. The source of the credential is handed back with the builder of the store.
pub fn store_from_credential_callback<C: Fn(CStorageCredential) -> CStorageCredential>(
    url: &Url,
    options: &Vec<(String, String)>,
    provider: FfiCredentialProvider<C>,
) -> (r: DeltaResult<(StoreBuilder, CredentialSource<impl Fn() -> Produced>)>)
    requires
        provider.callable(),
    ensures
        exists|produced: Produced|
            {
                &&& #[trigger] provider.collects(produced)
                &&& storage::is_store_for(*url, options@, answer_of(produced), builder_of(r))
                &&& r matches Ok((_, source)) ==> is_source_of(source, provider, produced)
            },
{
    let produce = move || -> (r: Produced)
        requires
            provider.callable(),
        ensures
            provider.collects(r),
        { provider.collect() };
    let mut source = CredentialSource::new(produce);
    let ghost fresh = source;
    let configured = store_from_url_with_credentials(url, options, &mut source);
    proof {
        let current = choose|current: DeltaResult<StorageCredential>| #[trigger]
            CredentialSource::answers(fresh, source, current) && storage::is_store_for(
                *url,
                options@,
                current,
                configured,
            );
        let asked = choose|asked: Instant| #[trigger]
            CredentialSource::answers_at(fresh, source, current, asked);
        assert(!fresh.reusable_at(asked));
        let (produced, issued) = choose|produced: Produced, issued: Instant| #[trigger]
            CredentialSource::refreshed(fresh, source, current, produced, issued);
        assert(provider.collects(produced));
        assert(answer_of(produced) == current);
    }
    match configured {
        Ok(builder) => Ok((builder, source)),
        Err(error) => Err(error),
    }
}

} // verus!
