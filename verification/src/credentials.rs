//! Caller-supplied cloud storage credentials that can be refreshed.
//!
//! Credentials vended by a catalog are short-lived, so a store built from a fixed credential
//! stops working partway through a long read. A caller registers a closure here instead of a
//! value; it is called when a credential is needed, and its result is cached until shortly before
//! the reported expiry.

use std::time::{Duration, Instant};

use vstd::prelude::*;
use vstd::string::*;

use crate::clock;
use crate::error::{DeltaError, DeltaResult, ErrorView};

verus! {

/// A cloud storage credential, in whichever shape its cloud uses.
///
/// AWS and Azure shared-key sign each request, so they carry signing material; the remaining
/// variants carry a credential the service issued and the client only presents.
pub enum StorageCredential {
    /// Access key pair, with a session token when the credential is temporary.
    Aws { key_id: String, secret: String, session_token: Option<String> },
    /// OAuth bearer token for Google Cloud Storage.
    GcpBearer(String),
    /// Azure shared access signature, as the raw query string.
    AzureSas(String),
    /// Azure Entra ID bearer token.
    AzureBearer(String),
    /// Azure storage account shared key, base64 encoded.
    AzureAccessKey(String),
}

impl Clone for StorageCredential {
    fn clone(&self) -> (r: Self)
        ensures
            r == *self,
    {
        match self {
            StorageCredential::Aws { key_id, secret, session_token } => StorageCredential::Aws {
                key_id: key_id.clone(),
                secret: secret.clone(),
                session_token: match session_token {
                    Some(token) => Some(token.clone()),
                    None => None,
                },
            },
            StorageCredential::GcpBearer(token) => StorageCredential::GcpBearer(token.clone()),
            StorageCredential::AzureSas(sas) => StorageCredential::AzureSas(sas.clone()),
            StorageCredential::AzureBearer(token) => StorageCredential::AzureBearer(token.clone()),
            StorageCredential::AzureAccessKey(key) => StorageCredential::AzureAccessKey(
                key.clone(),
            ),
        }
    }
}

impl StorageCredential {
    /// The name of the cloud this credential authenticates to.
    pub open spec fn cloud_name(self) -> Seq<char> {
        match self {
            StorageCredential::Aws { .. } => "AWS"@,
            StorageCredential::GcpBearer(_) => "GCP"@,
            StorageCredential::AzureSas(_) => "Azure"@,
            StorageCredential::AzureBearer(_) => "Azure"@,
            StorageCredential::AzureAccessKey(_) => "Azure"@,
        }
    }

    /// The cloud this credential authenticates to, for reporting a mismatch against a URL.
    pub fn cloud(&self) -> (r: &'static str)
        ensures
            r@ == self.cloud_name(),
    {
        match self {
            StorageCredential::Aws { .. } => "AWS",
            StorageCredential::GcpBearer(_) => "GCP",
            StorageCredential::AzureSas(_)
            | StorageCredential::AzureBearer(_)
            | StorageCredential::AzureAccessKey(_) => "Azure",
        }
    }
}

/// How a credential for the wrong cloud is reported when a store is built.
pub open spec fn wrong_cloud_message(
    credential: StorageCredential,
    scheme: Seq<char>,
    wanted: Seq<char>,
) -> Seq<char> {
    "storage credential is for "@ + credential.cloud_name() + ", but the table URL scheme `"@
        + scheme + "` needs a "@ + wanted + " credential"@
}

/// A credential for the wrong cloud, named against the URL scheme that asked for it.
pub fn wrong_cloud(credential: &StorageCredential, scheme: &str, wanted: &str) -> (r: DeltaError)
    ensures
        r@ == ErrorView::Generic(wrong_cloud_message(*credential, scheme@, wanted@)),
{
    let message = "storage credential is for ".to_string().concat(credential.cloud()).concat(
        ", but the table URL scheme `",
    ).concat(scheme).concat("` needs a ").concat(wanted).concat(" credential");
    DeltaError::Generic(message)
}

/// A failure to supply a credential, as the object store that asked for it reports it.
#[derive(Debug)]
pub struct StoreFailure {
    /// The name under which the failure is reported.
    pub store: &'static str,
    /// What went wrong.
    pub message: String,
}

/// Report a credential failure through the object store, which is what the caller sees when a
/// refresh fails partway through a read.
pub fn credential_error(message: String) -> (r: StoreFailure)
    ensures
        r.store@ == "StorageCredential"@,
        r.message == message,
{
    StoreFailure { store: "StorageCredential", message }
}

/// How a refreshed credential that belongs to another cloud than its store is reported.
pub open spec fn cloud_changed_message(
    credential: StorageCredential,
    wanted: Seq<char>,
) -> Seq<char> {
    "refreshed storage credential is for "@ + credential.cloud_name()
        + ", but this store needs a "@ + wanted + " credential"@
}

/// A refreshed credential that no longer matches the store it belongs to. Building a store rejects
/// a mismatched credential up front, so this only arises if a later refresh returns a different
/// cloud.
pub fn cloud_changed(credential: &StorageCredential, wanted: &str) -> (r: StoreFailure)
    ensures
        r.store@ == "StorageCredential"@,
        r.message@ == cloud_changed_message(*credential, wanted@),
{
    let message = "refreshed storage credential is for ".to_string().concat(
        credential.cloud(),
    ).concat(", but this store needs a ").concat(wanted).concat(" credential");
    credential_error(message)
}

/// How long before a credential's reported expiry a fresh one is produced, in nanoseconds, so that
/// a request never signs with a credential that expires in flight.
pub const CREDENTIAL_REFRESH_BUFFER: u128 = 30_000_000_000;

/// Calls a caller-supplied closure for credentials, caching each one until shortly before it
/// expires.
pub struct CredentialSource<F> {
    produce: F,
    cached: Option<(StorageCredential, Instant)>,
}

/// What the closure behind a source returns: a credential and how long it stays valid. `None`
/// means unknown, in which case the credential is never cached.
pub type Produced = DeltaResult<(StorageCredential, Option<Duration>)>;

/// What is cached of a credential that was produced at the instant `issued` with the lifetime
/// `ttl`: the credential and the instant at which it expires. Nothing is cached of one whose
/// lifetime is unknown, or so long that no instant can hold its expiry.
pub open spec fn kept(
    credential: StorageCredential,
    ttl: Option<Duration>,
    issued: Instant,
) -> Option<(StorageCredential, Instant)> {
    match ttl {
        Some(ttl) => match clock::instant_after(issued, ttl) {
            Some(deadline) => Some((credential, deadline)),
            None => None,
        },
        None => None,
    }
}

impl<F> CredentialSource<F> {
    /// The closure that is called for a credential.
    pub closed spec fn producer(self) -> F {
        self.produce
    }

    /// The cached credential and the instant at which it expires.
    pub closed spec fn cached(self) -> Option<(StorageCredential, Instant)> {
        self.cached
    }

    /// Whether the cached credential may be handed out at `now`: its expiry lies further ahead
    /// than the refresh buffer.
    pub open spec fn reusable_at(self, now: Instant) -> bool {
        self.cached() matches Some((_, deadline)) && clock::instant_nanos(deadline)
            - clock::instant_nanos(now) > CREDENTIAL_REFRESH_BUFFER
    }

    /// The cached credential, if it may still be handed out at `now`.
    pub fn cached_at(&self, now: Instant) -> (r: Option<StorageCredential>)
        ensures
            self.reusable_at(now) ==> r == Some((self.cached()->0).0),
            !self.reusable_at(now) ==> r is None,
    {
        match &self.cached {
            Some((credential, deadline)) => {
                if deadline.saturating_duration_since(now).as_nanos() > CREDENTIAL_REFRESH_BUFFER {
                    Some(credential.clone())
                } else {
                    None
                }
            },
            None => None,
        }
    }

    /// Whether taking over what the closure returned, `produced`, at the instant `issued` turns the
    /// source `before` into `after` and answers `r`. An error is passed on and leaves the cache as
    /// it was.
    pub open spec fn renewed(
        before: Self,
        after: Self,
        r: DeltaResult<StorageCredential>,
        produced: Produced,
        issued: Instant,
    ) -> bool {
        &&& after.producer() == before.producer()
        &&& match produced {
            Err(error) => r == Err::<StorageCredential, _>(error) && after.cached()
                == before.cached(),
            Ok((credential, ttl)) => {
                &&& r == Ok::<_, DeltaError>(credential)
                &&& after.cached() == kept(credential, ttl, issued)
                &&& match (ttl, after.cached()) {
                    (Some(ttl), Some((_, deadline))) => clock::instant_nanos(deadline)
                        == clock::instant_nanos(issued) + clock::duration_nanos(ttl),
                    _ => true,
                }
            },
        }
    }

    /// Take over what the closure returned, as of the instant `issued`.
    pub fn renew(&mut self, produced: Produced, issued: Instant) -> (r: DeltaResult<
        StorageCredential,
    >)
        ensures
            Self::renewed(*old(self), *final(self), r, produced, issued),
    {
        match produced {
            Err(error) => Err(error),
            Ok((credential, ttl)) => {
                // A lifetime so long that no instant can hold the expiry is not cached.
                self.cached = match ttl {
                    Some(ttl) => match issued.checked_add(ttl) {
                        Some(deadline) => Some((credential.clone(), deadline)),
                        None => None,
                    },
                    None => None,
                };
                Ok(credential)
            },
        }
    }
}

impl<F: Fn() -> Produced> CredentialSource<F> {
    /// Create a source that calls `produce` when it needs a credential.
    pub fn new(produce: F) -> (r: Self)
        ensures
            r.producer() == produce,
            r.cached() is None,
    {
        CredentialSource { produce, cached: None }
    }

    /// Whether asking the source `before` for a credential may answer `r` and leave `after`,
    /// where the closure returned `produced` and the clock then showed `issued`.
    pub open spec fn refreshed(
        before: Self,
        after: Self,
        r: DeltaResult<StorageCredential>,
        produced: Produced,
        issued: Instant,
    ) -> bool {
        &&& call_ensures(before.producer(), (), produced)
        &&& clock::was_read(issued)
        &&& Self::renewed(before, after, r, produced, issued)
    }

    /// Whether asking the source `before` for a credential at the instant `asked` may answer `r`
    /// and leave `after`: the cached credential is either handed out, and kept, or replaced by one
    /// that the closure produces.
    pub open spec fn answers_at(
        before: Self,
        after: Self,
        r: DeltaResult<StorageCredential>,
        asked: Instant,
    ) -> bool {
        if before.reusable_at(asked) {
            &&& r == Ok::<_, DeltaError>((before.cached()->0).0)
            &&& after.cached() == before.cached()
            &&& after.producer() == before.producer()
        } else {
            exists|produced: Produced, issued: Instant| #[trigger]
                Self::refreshed(before, after, r, produced, issued)
        }
    }

    /// Whether asking the source `before` for a credential, at an instant read off the clock, may
    /// answer `r` and leave `after`.
    pub open spec fn answers(before: Self, after: Self, r: DeltaResult<StorageCredential>) -> bool {
        exists|asked: Instant|
            clock::was_read(asked) && #[trigger] Self::answers_at(before, after, r, asked)
    }

    /// Whether the source can be asked at the instant `asked`: where the cached credential may not
    /// be handed out, the closure can be called. Where it may, nothing is asked of the closure,
    /// which is then not called.
    pub open spec fn can_answer_at(self, asked: Instant) -> bool {
        !self.reusable_at(asked) ==> call_requires(self.producer(), ())
    }

    /// Whether the source can be asked at whatever instant the clock shows.
    pub open spec fn can_answer(self) -> bool {
        forall|asked: Instant| #[trigger] clock::was_read(asked) ==> self.can_answer_at(asked)
    }

    /// The credential that is current at the instant `asked`, produced afresh if the cached one is
    /// absent or near expiry.
    pub fn current_at(&mut self, asked: Instant) -> (r: DeltaResult<StorageCredential>)
        requires
            old(self).can_answer_at(asked),
        ensures
            Self::answers_at(*old(self), *final(self), r, asked),
    {
        if let Some(credential) = self.cached_at(asked) {
            return Ok(credential);
        }
        let produced = (self.produce)();
        let ghost reply = produced;
        let issued = Instant::now();
        let r = self.renew(produced, issued);
        assert(Self::refreshed(*old(self), *self, r, reply, issued));
        r
    }

    /// The current credential, produced afresh if the cached one is absent or near expiry.
    pub fn current(&mut self) -> (r: DeltaResult<StorageCredential>)
        requires
            old(self).can_answer(),
        ensures
            Self::answers(*old(self), *final(self), r),
    {
        let asked = Instant::now();
        self.current_at(asked)
    }
}

} // verus!
