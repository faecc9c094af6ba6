//! What holds of every credential source, whatever its closure produces and whenever it is asked.

use std::time::{Duration, Instant};

use vstd::prelude::*;
use vstd::string::*;

use crate::clock;
use crate::credentials;
use crate::credentials::{CredentialSource, Produced, StorageCredential, StoreFailure};
use crate::error::{DeltaError, DeltaResult};

verus! {

/// A credential that was cached is handed out again exactly while its expiry lies more than the
/// refresh buffer ahead.
pub proof fn law_reused_until_near_expiry<F: Fn() -> Produced>(
    before: CredentialSource<F>,
    after: CredentialSource<F>,
    r: DeltaResult<StorageCredential>,
    credential: StorageCredential,
    ttl: Duration,
    issued: Instant,
    now: Instant,
)
    requires
        CredentialSource::refreshed(before, after, r, Ok((credential, Some(ttl))), issued),
        clock::instant_after(issued, ttl) is Some,
    ensures
        after.reusable_at(now) <==> clock::instant_nanos(now)
            + credentials::CREDENTIAL_REFRESH_BUFFER < clock::instant_nanos(issued)
            + clock::duration_nanos(ttl),
{
}

/// A source that is asked again while its credential is still good answers with the credential that
/// it answered before, and keeps it. It can be asked so even where its closure cannot be called.
pub proof fn law_produced_once_while_valid<F: Fn() -> Produced>(
    before: CredentialSource<F>,
    between: CredentialSource<F>,
    after: CredentialSource<F>,
    first: DeltaResult<StorageCredential>,
    second: DeltaResult<StorageCredential>,
    produced: Produced,
    issued: Instant,
    asked: Instant,
)
    requires
        CredentialSource::refreshed(before, between, first, produced, issued),
        produced is Ok,
        between.reusable_at(asked),
        CredentialSource::answers_at(between, after, second, asked),
    ensures
        between.can_answer_at(asked),
        second == first,
        after.cached() == between.cached(),
{
}

/// A credential that lives no longer than the refresh buffer is never handed out again.
pub proof fn law_short_lifetime_is_not_reused<F: Fn() -> Produced>(
    before: CredentialSource<F>,
    after: CredentialSource<F>,
    r: DeltaResult<StorageCredential>,
    credential: StorageCredential,
    ttl: Duration,
    issued: Instant,
    now: Instant,
)
    requires
        CredentialSource::refreshed(before, after, r, Ok((credential, Some(ttl))), issued),
        clock::duration_nanos(ttl) <= credentials::CREDENTIAL_REFRESH_BUFFER,
        clock::instant_nanos(issued) <= clock::instant_nanos(now),
    ensures
        !after.reusable_at(now),
{
}

/// A credential whose lifetime is unknown is never handed out again.
pub proof fn law_unknown_lifetime_is_not_cached<F: Fn() -> Produced>(
    before: CredentialSource<F>,
    after: CredentialSource<F>,
    r: DeltaResult<StorageCredential>,
    credential: StorageCredential,
    issued: Instant,
    now: Instant,
)
    requires
        CredentialSource::refreshed(before, after, r, Ok((credential, None)), issued),
    ensures
        after.cached() is None,
        !after.reusable_at(now),
{
}

/// Where the closure fails, its error is the answer and the cache stays as it was.
pub proof fn law_failure_is_passed_on<F: Fn() -> Produced>(
    before: CredentialSource<F>,
    after: CredentialSource<F>,
    r: DeltaResult<StorageCredential>,
    error: DeltaError,
    issued: Instant,
)
    requires
        CredentialSource::refreshed(before, after, r, Err(error), issued),
    ensures
        r == Err::<StorageCredential, _>(error),
        after.cached() == before.cached(),
{
}

/// A credential that is cached is given up for good once its expiry is near: at no later instant
/// is it handed out again.
pub proof fn law_expiry_is_final<F: Fn() -> Produced>(
    source: CredentialSource<F>,
    now: Instant,
    later: Instant,
)
    requires
        !source.reusable_at(now),
        clock::instant_nanos(now) <= clock::instant_nanos(later),
    ensures
        !source.reusable_at(later),
{
}

/// A request that the cache answers leaves the source as it was: later it hands out its credential
/// at the same instants as before, and asks as much of its closure as before.
pub proof fn law_hit_leaves_the_source_as_it_was<F: Fn() -> Produced>(
    before: CredentialSource<F>,
    after: CredentialSource<F>,
    r: DeltaResult<StorageCredential>,
    asked: Instant,
    later: Instant,
)
    requires
        before.reusable_at(asked),
        CredentialSource::answers_at(before, after, r, asked),
    ensures
        after.reusable_at(later) == before.reusable_at(later),
        after.can_answer_at(later) == before.can_answer_at(later),
{
}

/// Whether what is cached is good at `now`: it expires more than thirty seconds later.
pub open spec fn is_good_at(cached: Option<(StorageCredential, Instant)>, now: Instant) -> bool {
    cached matches Some((_, deadline)) && clock::instant_nanos(deadline) > clock::instant_nanos(now)
        + 30_000_000_000
}

/// Whether a call of the closure that returned `produced` explains the answer `r` and the change
/// of the cache from `before` to `after`, the clock having shown `issued` after the call. The
/// answer is what the closure returned. An error leaves the cache alone. A credential is cached
/// with the instant that lies its lifetime after `issued`, where it has a lifetime and there is
/// such an instant, and the cache is empty otherwise.
pub open spec fn comes_of_a_call(
    before: Option<(StorageCredential, Instant)>,
    after: Option<(StorageCredential, Instant)>,
    r: DeltaResult<StorageCredential>,
    produced: Produced,
    issued: Instant,
) -> bool {
    match (r, produced) {
        (Err(answer), Err(error)) => answer == error && after == before,
        (Ok(answer), Ok((credential, None))) => answer == credential && after is None,
        (Ok(answer), Ok((credential, Some(ttl)))) => answer == credential && match after {
            Some((held, deadline)) => held == credential && clock::instant_after(issued, ttl)
                == Some(deadline) && clock::instant_nanos(deadline) == clock::instant_nanos(issued)
                + clock::duration_nanos(ttl),
            None => clock::instant_after(issued, ttl) is None,
        },
        _ => false,
    }
}

/// Whether `r` is a right answer of the source `before` to a request at `asked` that leaves the
/// source `after`: the cached credential while it is good, and otherwise what a call of the closure
/// returned.
pub open spec fn is_right_answer<F: Fn() -> Produced>(
    before: CredentialSource<F>,
    after: CredentialSource<F>,
    r: DeltaResult<StorageCredential>,
    asked: Instant,
) -> bool {
    &&& after.producer() == before.producer()
    &&& is_good_at(before.cached(), asked) ==> after.cached() == before.cached() && r == Ok::<
        _,
        DeltaError,
    >((before.cached()->0).0)
    &&& !is_good_at(before.cached(), asked) ==> exists|produced: Produced, issued: Instant|
        {
            &&& #[trigger] call_ensures(before.producer(), (), produced)
            &&& #[trigger] clock::was_read(issued)
            &&& comes_of_a_call(before.cached(), after.cached(), r, produced, issued)
        }
}

/// Whether `r` is a right answer of the source `before` to a request at some instant that the clock
/// showed.
pub open spec fn is_right_answer_now<F: Fn() -> Produced>(
    before: CredentialSource<F>,
    after: CredentialSource<F>,
    r: DeltaResult<StorageCredential>,
) -> bool {
    exists|asked: Instant| #[trigger]
        clock::was_read(asked) && is_right_answer(before, after, r, asked)
}

/// Every answer that the contract of a source allows is a right one.
pub proof fn law_answers_are_right<F: Fn() -> Produced>(
    before: CredentialSource<F>,
    after: CredentialSource<F>,
    r: DeltaResult<StorageCredential>,
)
    ensures
        forall|asked: Instant| #[trigger]
            CredentialSource::answers_at(before, after, r, asked) ==> is_right_answer(
                before,
                after,
                r,
                asked,
            ),
        CredentialSource::answers(before, after, r) ==> is_right_answer_now(before, after, r),
{
    assert forall|asked: Instant| #[trigger]
        CredentialSource::answers_at(before, after, r, asked) implies is_right_answer(
        before,
        after,
        r,
        asked,
    ) by {
        if !is_good_at(before.cached(), asked) {
            let (produced, issued) = choose|produced: Produced, issued: Instant| #[trigger]
                CredentialSource::refreshed(before, after, r, produced, issued);
            assert(call_ensures(before.producer(), (), produced));
            assert(clock::was_read(issued));
            assert(comes_of_a_call(before.cached(), after.cached(), r, produced, issued));
        }
    }
}

/// A request at an instant is answered rightly, whatever is cached and whenever it is made.
pub proof fn law_request_is_answered_rightly<F: Fn() -> Produced>(
    source: &mut CredentialSource<F>,
    asked: Instant,
    r: DeltaResult<StorageCredential>,
)
    requires
        call_ensures(CredentialSource::<F>::current_at, (source, asked), r),
    ensures
        is_right_answer(*old(source), *final(source), r, asked),
{
    law_answers_are_right(*old(source), *final(source), r);
}

/// A request now is answered rightly for some instant that the clock showed.
pub proof fn law_current_is_answered_rightly<F: Fn() -> Produced>(
    source: &mut CredentialSource<F>,
    r: DeltaResult<StorageCredential>,
)
    requires
        call_ensures(CredentialSource::<F>::current, (source,), r),
    ensures
        is_right_answer_now(*old(source), *final(source), r),
{
    law_answers_are_right(*old(source), *final(source), r);
}

/// A credential that expires within thirty seconds of a request, or has expired already, is not
/// handed out: the answer is the credential or the error that a call of the closure returned.
pub proof fn law_expiring_credential_is_replaced<F: Fn() -> Produced>(
    source: &mut CredentialSource<F>,
    credential: StorageCredential,
    deadline: Instant,
    asked: Instant,
    r: DeltaResult<StorageCredential>,
)
    requires
        old(source).cached() == Some((credential, deadline)),
        clock::instant_nanos(deadline) <= clock::instant_nanos(asked) + 30_000_000_000,
        call_ensures(CredentialSource::<F>::current_at, (source, asked), r),
    ensures
        exists|produced: Produced| #[trigger]
            call_ensures(old(source).producer(), (), produced) && match produced {
                Ok((fresh, _)) => r == Ok::<_, DeltaError>(fresh),
                Err(error) => r == Err::<StorageCredential, _>(error),
            },
{
    law_answers_are_right(*old(source), *final(source), r);
}

/// A new source has nothing to hand out: its first request, whenever it is made, is answered with
/// what a call of the closure that it was made with returned.
pub proof fn law_new_source_asks_its_closure<F: Fn() -> Produced>(
    produce: F,
    fresh: CredentialSource<F>,
    source: &mut CredentialSource<F>,
    asked: Instant,
    r: DeltaResult<StorageCredential>,
)
    requires
        call_ensures(CredentialSource::<F>::new, (produce,), fresh),
        *old(source) == fresh,
        call_ensures(CredentialSource::<F>::current_at, (source, asked), r),
    ensures
        final(source).producer() == produce,
        exists|produced: Produced, issued: Instant|
            {
                &&& #[trigger] call_ensures(produce, (), produced)
                &&& #[trigger] clock::was_read(issued)
                &&& comes_of_a_call(None, final(source).cached(), r, produced, issued)
            },
{
    law_answers_are_right(*old(source), *final(source), r);
}

/// After a request that the closure answered with a credential and a lifetime, the next request is
/// answered with the same credential while more than thirty seconds of the lifetime are left, and
/// with what another call of the closure returned from then on.
pub proof fn law_lifetime_decides_the_next_request<F: Fn() -> Produced>(
    source: &mut CredentialSource<F>,
    credential: StorageCredential,
    ttl: Duration,
    issued: Instant,
    first: DeltaResult<StorageCredential>,
    later: &mut CredentialSource<F>,
    asked: Instant,
    second: DeltaResult<StorageCredential>,
)
    requires
        call_ensures(
            CredentialSource::<F>::renew,
            (source, Ok((credential, Some(ttl))), issued),
            first,
        ),
        clock::instant_after(issued, ttl) is Some,
        *old(later) == *final(source),
        call_ensures(CredentialSource::<F>::current_at, (later, asked), second),
    ensures
        first == Ok::<_, DeltaError>(credential),
        clock::instant_nanos(asked) + 30_000_000_000 < clock::instant_nanos(issued)
            + clock::duration_nanos(ttl) ==> second == first && final(later).cached() == old(
            later,
        ).cached(),
        clock::instant_nanos(asked) + 30_000_000_000 >= clock::instant_nanos(issued)
            + clock::duration_nanos(ttl) ==> exists|produced: Produced| #[trigger]
            call_ensures(old(source).producer(), (), produced) && match produced {
                Ok((fresh, _)) => second == Ok::<_, DeltaError>(fresh),
                Err(error) => second == Err::<StorageCredential, _>(error),
            },
{
    law_answers_are_right(*old(later), *final(later), second);
}

/// Nothing is asked of the closure where the cached credential is good: the request can be made
/// even where the closure cannot be called.
pub proof fn law_good_credential_spares_the_closure<F: Fn() -> Produced>(
    source: &mut CredentialSource<F>,
    asked: Instant,
)
    requires
        is_good_at(old(source).cached(), asked),
    ensures
        call_requires(CredentialSource::<F>::current_at, (source, asked)),
{
}

/// The same of a request now, where the cached credential is good whatever the clock shows.
pub proof fn law_good_credential_spares_the_closure_now<F: Fn() -> Produced>(
    source: &mut CredentialSource<F>,
)
    requires
        forall|asked: Instant| #[trigger]
            clock::was_read(asked) ==> is_good_at(old(source).cached(), asked),
    ensures
        call_requires(CredentialSource::<F>::current, (source,)),
{
}

/// Taking over what the closure returned answers with it, and caches a credential for its lifetime
/// from the given instant on.
pub proof fn law_renewal_takes_over_what_was_produced<F>(
    source: &mut CredentialSource<F>,
    produced: Produced,
    issued: Instant,
    r: DeltaResult<StorageCredential>,
)
    requires
        call_ensures(CredentialSource::<F>::renew, (source, produced, issued), r),
    ensures
        final(source).producer() == old(source).producer(),
        comes_of_a_call(old(source).cached(), final(source).cached(), r, produced, issued),
{
}

/// The cached credential can be looked at exactly while it is good.
pub proof fn law_cache_shows_what_is_good<F>(
    source: &CredentialSource<F>,
    now: Instant,
    r: Option<StorageCredential>,
)
    requires
        call_ensures(CredentialSource::<F>::cached_at, (source, now), r),
    ensures
        r is Some <==> is_good_at(source.cached(), now),
        r matches Some(credential) ==> credential == (source.cached()->0).0,
{
}

/// A clone is the credential that was cloned.
pub proof fn law_clone_is_the_same(credential: &StorageCredential, copy: StorageCredential)
    requires
        call_ensures(StorageCredential::clone, (credential,), copy),
    ensures
        copy == *credential,
{
}

/// The name of the cloud that a credential of this shape is for.
pub open spec fn name_of_cloud(credential: StorageCredential) -> Seq<char> {
    if credential is Aws {
        "AWS"@
    } else if credential is GcpBearer {
        "GCP"@
    } else {
        "Azure"@
    }
}

/// A credential names the cloud of its shape.
pub proof fn law_cloud_is_named(credential: &StorageCredential, r: &str)
    requires
        call_ensures(StorageCredential::cloud, (credential,), r),
    ensures
        r@ == name_of_cloud(*credential),
{
}

/// A mismatch names the cloud that the credential is for, the scheme of the URL and the cloud that
/// the scheme needs, in this order.
pub proof fn law_mismatch_names_both_clouds_and_the_scheme(
    credential: &StorageCredential,
    scheme: &str,
    wanted: &str,
    error: DeltaError,
)
    requires
        call_ensures(credentials::wrong_cloud, (credential, scheme, wanted), error),
    ensures
        error matches DeltaError::Generic(message) && message@ == "storage credential is for "@
            + name_of_cloud(*credential) + ", but the table URL scheme `"@ + scheme@ + "` needs a "@
            + wanted@ + " credential"@,
{
}

/// A change of cloud is reported to the store under the name of the storage credential, and names
/// the cloud that the credential is for and the one that the store needs, in this order.
pub proof fn law_change_of_cloud_names_both_clouds(
    credential: &StorageCredential,
    wanted: &str,
    failure: StoreFailure,
)
    requires
        call_ensures(credentials::cloud_changed, (credential, wanted), failure),
    ensures
        failure.store@ == "StorageCredential"@,
        failure.message@ == "refreshed storage credential is for "@ + name_of_cloud(*credential)
            + ", but this store needs a "@ + wanted@ + " credential"@,
{
}

/// A failure is reported to the store under the name of the storage credential, with its message
/// as it is.
pub proof fn law_failure_keeps_its_message(message: String, failure: StoreFailure)
    requires
        call_ensures(credentials::credential_error, (message,), failure),
    ensures
        failure.store@ == "StorageCredential"@,
        failure.message@ == message@,
{
}

/// A generic error is made of its message and reads as it.
pub proof fn law_generic_error_reads_as_its_message(text: &str, error: DeltaError, r: String)
    requires
        call_ensures(DeltaError::generic, (text,), error),
        call_ensures(DeltaError::message, (&error,), r),
    ensures
        error matches DeltaError::Generic(message) && message@ == text@,
        r@ == text@,
{
}

/// Whether `text` is how `error` reads: the message of a generic error, and the rendering that the
/// object store gives of its own.
pub open spec fn is_wording(error: DeltaError, text: String) -> bool {
    match error {
        DeltaError::Generic(message) => text@ == message@,
        DeltaError::ObjectStore(failure) => to_string_from_display_ensures::<object_store::Error>(
            &failure,
            text,
        ),
    }
}

/// Every error is worded as it reads.
pub proof fn law_error_is_worded_as_it_reads(error: &DeltaError, r: String)
    requires
        call_ensures(DeltaError::message, (error,), r),
    ensures
        is_wording(*error, r),
{
}

/// A source can always be asked where its closure can be called.
pub proof fn law_callable_closure_suffices<F: Fn() -> Produced>(
    source: &mut CredentialSource<F>,
    asked: Instant,
)
    requires
        call_requires(old(source).producer(), ()),
    ensures
        call_requires(CredentialSource::<F>::current_at, (source, asked)),
        call_requires(CredentialSource::<F>::current, (source,)),
{
}

} // verus!
