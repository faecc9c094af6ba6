//! What holds of every credential that a callback writes.

use std::time::{Duration, Instant};

use url::Url;
use vstd::prelude::*;

use crate::clock;
use crate::credentials;
use crate::credentials::{CredentialSource, Produced, StorageCredential};
use crate::credentials_laws;
use crate::error::{DeltaError, DeltaResult, ErrorView};
use crate::storage;
use crate::storage_credential;
use crate::storage_credential::{
    CStorageCredential, CStorageCredentialKind, FfiCredentialProvider,
};
use crate::storage_laws;

verus! {

/// The fields that `kind` documents, of what a callback wrote.
pub open spec fn documented(written: CStorageCredential) -> CStorageCredential {
    CStorageCredential {
        kind: written.kind,
        key_id: match written.kind {
            CStorageCredentialKind::AwsAccessKey => written.key_id,
            _ => None,
        },
        secret: match written.kind {
            CStorageCredentialKind::AwsAccessKey => written.secret,
            CStorageCredentialKind::AzureAccessKey => written.secret,
            _ => None,
        },
        token: match written.kind {
            CStorageCredentialKind::AwsAccessKey => written.token,
            CStorageCredentialKind::GcpBearerToken => written.token,
            CStorageCredentialKind::AzureSasToken => written.token,
            CStorageCredentialKind::AzureBearerToken => written.token,
            _ => None,
        },
        ttl_ms: written.ttl_ms,
    }
}

/// Fields that the kind does not document are not read: clearing them makes no difference.
pub proof fn law_undocumented_fields_are_not_read(
    written: CStorageCredential,
    r: DeltaResult<(StorageCredential, Option<Duration>)>,
)
    ensures
        documented(written).produces(r) == written.produces(r),
{
}

/// A callback that writes nothing supplies no credential.
pub proof fn law_nothing_written_is_an_error(r: DeltaResult<(StorageCredential, Option<Duration>)>)
    requires
        CStorageCredential::unset_model().produces(r),
    ensures
        r matches Err(error) && error@ == ErrorView::Generic(
            "storage credential callback produced no credential"@,
        ),
{
}

/// A credential is supplied exactly where the fields that its kind requires are set, and it is for
/// the cloud of its kind.
pub proof fn law_required_fields_suffice(written: CStorageCredential)
    ensures
        written.credential() is Ok <==> match written.kind {
            CStorageCredentialKind::NoCredential => false,
            CStorageCredentialKind::AwsAccessKey => written.key_id is Some && written.secret
                is Some,
            CStorageCredentialKind::GcpBearerToken => written.token is Some,
            CStorageCredentialKind::AzureSasToken => written.token is Some,
            CStorageCredentialKind::AzureBearerToken => written.token is Some,
            CStorageCredentialKind::AzureAccessKey => written.secret is Some,
        },
        written.credential() matches Ok(credential) ==> credential.cloud_name()
            == match written.kind {
            CStorageCredentialKind::AwsAccessKey => "AWS"@,
            CStorageCredentialKind::GcpBearerToken => "GCP"@,
            _ => "Azure"@,
        },
{
}

/// A credential that was written without a lifetime is never cached, so that the callback runs
/// again for every request.
pub proof fn law_no_lifetime_is_never_cached(
    written: CStorageCredential,
    credential: StorageCredential,
    ttl: Option<Duration>,
    issued: Instant,
)
    requires
        written.ttl_ms == 0,
        written.produces(Ok((credential, ttl))),
    ensures
        credentials::kept(credential, ttl, issued) is None,
{
}

/// Whether `given` is the string that was written.
pub open spec fn is_string(given: String, written: Option<String>) -> bool {
    written matches Some(text) && given@ == text@
}

/// Whether a credential carries what was written: it has the shape of the kind, and each of its
/// strings is the one of the field that the kind documents for it.
pub open spec fn carries(credential: StorageCredential, written: CStorageCredential) -> bool {
    match credential {
        StorageCredential::Aws { key_id, secret, session_token } => {
            &&& written.kind is AwsAccessKey
            &&& is_string(key_id, written.key_id)
            &&& is_string(secret, written.secret)
            &&& match session_token {
                Some(token) => is_string(token, written.token),
                None => written.token is None,
            }
        },
        StorageCredential::GcpBearer(token) => written.kind is GcpBearerToken && is_string(
            token,
            written.token,
        ),
        StorageCredential::AzureSas(token) => written.kind is AzureSasToken && is_string(
            token,
            written.token,
        ),
        StorageCredential::AzureBearer(token) => written.kind is AzureBearerToken && is_string(
            token,
            written.token,
        ),
        StorageCredential::AzureAccessKey(key) => written.kind is AzureAccessKey && is_string(
            key,
            written.secret,
        ),
    }
}

/// Whether a field of this name is the first that the kind requires and that was left unset, and
/// the kind has this name.
pub open spec fn is_missing(
    field: Seq<char>,
    kind: Seq<char>,
    written: CStorageCredential,
) -> bool {
    match written.kind {
        CStorageCredentialKind::NoCredential => false,
        CStorageCredentialKind::AwsAccessKey => kind == "AwsAccessKey"@ && if written.key_id
            is None {
            field == "key_id"@
        } else {
            field == "secret"@ && written.secret is None
        },
        CStorageCredentialKind::GcpBearerToken => kind == "GcpBearerToken"@ && field == "token"@
            && written.token is None,
        CStorageCredentialKind::AzureSasToken => kind == "AzureSasToken"@ && field == "token"@
            && written.token is None,
        CStorageCredentialKind::AzureBearerToken => kind == "AzureBearerToken"@ && field
            == "token"@ && written.token is None,
        CStorageCredentialKind::AzureAccessKey => kind == "AzureAccessKey"@ && field == "secret"@
            && written.secret is None,
    }
}

/// Whether `r` is right for what a callback wrote: the credential that carries it and the lifetime
/// in milliseconds, if one was written, or the report that no credential or not every field that
/// its kind requires was written.
pub open spec fn is_right_conversion(written: CStorageCredential, r: Produced) -> bool {
    match r {
        Ok((credential, ttl)) => carries(credential, written) && match ttl {
            Some(duration) => written.ttl_ms > 0 && clock::duration_nanos(duration)
                == written.ttl_ms * 1_000_000,
            None => written.ttl_ms == 0,
        },
        Err(DeltaError::Generic(message)) => {
            ||| written.kind is NoCredential && message@
                == "storage credential callback produced no credential"@
            ||| exists|field: Seq<char>, kind: Seq<char>| #[trigger]
                is_missing(field, kind, written) && message@ == "storage credential of kind "@ + kind
                    + " has no "@ + field
        },
        Err(_) => false,
    }
}

/// Every conversion that the contracts allow is right.
pub proof fn law_conversions_are_right(written: CStorageCredential, r: Produced)
    requires
        written.produces(r),
    ensures
        is_right_conversion(written, r),
{
    assert(is_missing("key_id"@, "AwsAccessKey"@, written) || !(written.kind is AwsAccessKey)
        || written.key_id is Some);
    assert(is_missing("secret"@, "AwsAccessKey"@, written) || !(written.kind is AwsAccessKey)
        || written.key_id is None || written.secret is Some);
    assert(is_missing("token"@, "GcpBearerToken"@, written) || !(written.kind is GcpBearerToken)
        || written.token is Some);
    assert(is_missing("token"@, "AzureSasToken"@, written) || !(written.kind is AzureSasToken)
        || written.token is Some);
    assert(is_missing("token"@, "AzureBearerToken"@, written) || !(written.kind is AzureBearerToken)
        || written.token is Some);
    assert(is_missing("secret"@, "AzureAccessKey"@, written) || !(written.kind is AzureAccessKey)
        || written.secret is Some);
}

/// What a callback wrote is converted rightly, whatever it wrote, and no string of it is left
/// behind.
pub proof fn law_written_slot_is_converted_rightly(slot: &mut CStorageCredential, r: Produced)
    requires
        call_ensures(CStorageCredential::take_credential, (slot,), r),
    ensures
        is_right_conversion(*old(slot), r),
        final(slot).key_id is None,
        final(slot).secret is None,
        final(slot).token is None,
        final(slot).kind == old(slot).kind,
        final(slot).ttl_ms == old(slot).ttl_ms,
{
    law_conversions_are_right(*old(slot), r);
}

/// An access key is converted with its key id, its secret and its session token each in its place,
/// whether or not a token was written.
pub proof fn law_access_key_keeps_its_parts(
    slot: &mut CStorageCredential,
    key: String,
    secret: String,
    r: Produced,
)
    requires
        old(slot).kind is AwsAccessKey,
        old(slot).key_id == Some(key),
        old(slot).secret == Some(secret),
        call_ensures(CStorageCredential::take_credential, (slot,), r),
    ensures
        r matches Ok((credential, _)) && credential == (StorageCredential::Aws {
            key_id: key,
            secret,
            session_token: old(slot).token,
        }),
{
}

/// A callback writes into a slot that says nothing.
pub proof fn law_unset_slot_says_nothing(slot: CStorageCredential)
    requires
        call_ensures(CStorageCredential::unset, (), slot),
    ensures
        slot.kind is NoCredential,
        slot.key_id is None,
        slot.secret is None,
        slot.token is None,
        slot.ttl_ms == 0,
{
}

/// A string that is taken is the one that was there, and none is left.
pub proof fn law_string_is_taken(field: &mut Option<String>, r: Option<String>)
    requires
        call_ensures(storage_credential::take_string, (field,), r),
    ensures
        r == *old(field),
        *final(field) is None,
{
}

/// The report of a missing field names the kind and the field, in this order.
pub proof fn law_missing_field_is_named(field: &str, kind: &str, error: DeltaError)
    requires
        call_ensures(storage_credential::missing_field, (field, kind), error),
    ensures
        error matches DeltaError::Generic(message) && message@ == "storage credential of kind "@
            + kind@ + " has no "@ + field@,
{
}

/// Whether `r` comes of a call of `callback`: it was handed a slot that says nothing, and what it
/// wrote is converted rightly.
pub open spec fn comes_of_callback<C: Fn(CStorageCredential) -> CStorageCredential>(
    callback: C,
    r: Produced,
) -> bool {
    exists|slot: CStorageCredential, written: CStorageCredential|
        {
            &&& #[trigger] call_ensures(callback, (slot,), written)
            &&& slot.kind is NoCredential
            &&& slot.key_id is None && slot.secret is None && slot.token is None
            &&& slot.ttl_ms == 0
            &&& is_right_conversion(written, r)
        }
}

/// What the contracts allow a provider to collect comes of a call of its callback.
pub proof fn law_what_is_collected_comes_of_the_callback<
    C: Fn(CStorageCredential) -> CStorageCredential,
>(provider: FfiCredentialProvider<C>, r: Produced)
    requires
        provider.collects(r),
    ensures
        comes_of_callback(provider.callback(), r),
{
    let slot = CStorageCredential::unset_model();
    let written = choose|written: CStorageCredential| #[trigger]
        call_ensures(provider.callback(), (slot,), written) && written.produces(r);
    law_conversions_are_right(written, r);
}

/// A provider collects what the callback that it was made with wrote, converted rightly.
pub proof fn law_provider_collects_from_its_callback<
    C: Fn(CStorageCredential) -> CStorageCredential,
>(callback: C, provider: FfiCredentialProvider<C>, r: Produced)
    requires
        call_ensures(FfiCredentialProvider::<C>::new, (callback,), provider),
        call_ensures(FfiCredentialProvider::<C>::collect, (&provider,), r),
    ensures
        comes_of_callback(callback, r),
{
    law_what_is_collected_comes_of_the_callback(provider, r);
}

/// The credential that was produced, without its lifetime, or the error.
pub open spec fn without_lifetime(produced: Produced) -> DeltaResult<StorageCredential> {
    match produced {
        Ok((credential, _)) => Ok(credential),
        Err(error) => Err(error),
    }
}

/// Whether `source` holds what `produced` brought, for its lifetime, and goes on asking `callback`.
pub open spec fn goes_on_asking<
    F: Fn() -> Produced,
    C: Fn(CStorageCredential) -> CStorageCredential,
>(source: CredentialSource<F>, callback: C, produced: Produced) -> bool {
    &&& call_requires(source.producer(), ())
    &&& forall|later: Produced| #[trigger]
        call_ensures(source.producer(), (), later) ==> comes_of_callback(callback, later)
    &&& exists|issued: Instant| #[trigger]
        clock::was_read(issued) && credentials_laws::comes_of_a_call(
            None,
            source.cached(),
            without_lifetime(produced),
            produced,
            issued,
        )
}

proof fn lemma_goes_on_asking<
    F: Fn() -> Produced,
    C: Fn(CStorageCredential) -> CStorageCredential,
>(source: CredentialSource<F>, provider: FfiCredentialProvider<C>, produced: Produced)
    requires
        storage_credential::is_source_of(source, provider, produced),
    ensures
        goes_on_asking(source, provider.callback(), produced),
{
    assert forall|later: Produced| #[trigger]
        call_ensures(source.producer(), (), later) implies comes_of_callback(
        provider.callback(),
        later,
    ) by {
        law_what_is_collected_comes_of_the_callback(provider, later);
    }
    let (fresh, issued) = choose|fresh: CredentialSource<F>, issued: Instant|
        {
            &&& fresh.cached() is None
            &&& #[trigger] CredentialSource::refreshed(
                fresh,
                source,
                storage_credential::answer_of(produced),
                produced,
                issued,
            )
        };
    assert(clock::was_read(issued));
}

/// A store for a callback is configured for what the callback wrote first, and an error of the
/// callback or the URL is passed on. The source of the store keeps that credential for its lifetime
/// and goes on asking the same callback.
pub proof fn law_store_for_a_callback_goes_on_asking_it<
    C: Fn(CStorageCredential) -> CStorageCredential,
>(url: &Url, options: &Vec<(String, String)>, provider: FfiCredentialProvider<C>)
    ensures
        forall|r| #[trigger]
            call_ensures(
                storage_credential::store_from_credential_callback::<C>,
                (url, options, provider),
                r,
            ) ==> exists|produced: Produced|
                {
                    &&& #[trigger] comes_of_callback(provider.callback(), produced)
                    &&& storage_laws::is_right_store_for(
                        *url,
                        options@,
                        without_lifetime(produced),
                        match r {
                            Ok((builder, _)) => Ok(builder),
                            Err(error) => Err(error),
                        },
                    )
                    &&& r matches Ok((_, source)) ==> goes_on_asking(
                        source,
                        provider.callback(),
                        produced,
                    )
                },
{
    assert forall|r| #[trigger]
        call_ensures(
            storage_credential::store_from_credential_callback::<C>,
            (url, options, provider),
            r,
        ) implies exists|produced: Produced|
        {
            &&& #[trigger] comes_of_callback(provider.callback(), produced)
            &&& storage_laws::is_right_store_for(
                *url,
                options@,
                without_lifetime(produced),
                match r {
                    Ok((builder, _)) => Ok(builder),
                    Err(error) => Err(error),
                },
            )
            &&& r matches Ok((_, source)) ==> goes_on_asking(
                source,
                provider.callback(),
                produced,
            )
        } by {
        let produced = choose|produced: Produced|
            {
                &&& #[trigger] provider.collects(produced)
                &&& storage::is_store_for(
                    *url,
                    options@,
                    storage_credential::answer_of(produced),
                    storage_credential::builder_of(r),
                )
                &&& r matches Ok((_, source)) ==> storage_credential::is_source_of(
                    source,
                    provider,
                    produced,
                )
            };
        law_what_is_collected_comes_of_the_callback(provider, produced);
        storage_laws::law_store_for_an_answer_is_right(
            *url,
            options@,
            storage_credential::answer_of(produced),
            storage_credential::builder_of(r),
        );
        if let Ok((_, source)) = r {
            lemma_goes_on_asking(source, provider, produced);
        }
    }
}

/// A provider can collect, and a store can be configured for it, where its callback takes a slot
/// that says nothing.
pub proof fn law_callable_callback_suffices<C: Fn(CStorageCredential) -> CStorageCredential>(
    url: &Url,
    options: &Vec<(String, String)>,
    provider: FfiCredentialProvider<C>,
)
    requires
        forall|slot: CStorageCredential|
            slot.kind is NoCredential && slot.key_id is None && slot.secret is None && slot.token
                is None && slot.ttl_ms == 0 ==> #[trigger] call_requires(
                provider.callback(),
                (slot,),
            ),
    ensures
        call_requires(FfiCredentialProvider::<C>::collect, (&provider,)),
        call_requires(
            storage_credential::store_from_credential_callback::<C>,
            (url, options, provider),
        ),
{
}

} // verus!
