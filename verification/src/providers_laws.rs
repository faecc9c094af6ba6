//! What holds of the credentials that the stores are given, whatever their source answers.

use std::time::Instant;

use vstd::prelude::*;
use vstd::utf8::*;

use crate::clock;
use crate::credentials::{CredentialSource, Produced, StorageCredential, StoreFailure};
use crate::credentials_laws;
use crate::error::{DeltaError, DeltaResult};
use crate::providers;
use crate::providers::{
    AwsCredentials, AwsKeyPair, AzureCredentials, AzureSecret, GcpCredentials, GcpToken,
};
use crate::sas;
use crate::sas_laws;

verus! {

/// Whether `failure` is reported under the name of the storage credential and reads `message`.
pub open spec fn is_failure(failure: StoreFailure, message: Seq<char>) -> bool {
    failure.store@ == "StorageCredential"@ && failure.message@ == message
}

/// Whether `failure` reports to a store that needs a credential for `wanted` that it was brought
/// one for another cloud.
pub open spec fn is_change_of_cloud(
    failure: StoreFailure,
    credential: StorageCredential,
    wanted: Seq<char>,
) -> bool {
    is_failure(
        failure,
        "refreshed storage credential is for "@ + credentials_laws::name_of_cloud(credential)
            + ", but this store needs a "@ + wanted + " credential"@,
    )
}

/// Whether `r` reports that the source failed with `error`: under the name of the storage
/// credential, and worded as the error reads.
pub open spec fn is_report_of<T>(r: Result<T, StoreFailure>, error: DeltaError) -> bool {
    r matches Err(failure) && failure.store@ == "StorageCredential"@ && credentials_laws::is_wording(
        error,
        failure.message,
    )
}

/// Whether `r` is the key pair of an AWS answer, field by field, or reports why there is none.
pub open spec fn is_key_pair_of(
    current: DeltaResult<StorageCredential>,
    r: Result<AwsKeyPair, StoreFailure>,
) -> bool {
    match (current, r) {
        (Ok(StorageCredential::Aws { key_id, secret, session_token }), Ok(pair)) => {
            &&& pair.key_id@ == key_id@
            &&& pair.secret_key@ == secret@
            &&& match (pair.token, session_token) {
                (Some(given), Some(token)) => given@ == token@,
                (None, None) => true,
                _ => false,
            }
        },
        (Ok(StorageCredential::Aws { .. }), Err(_)) => false,
        (Ok(other), Err(failure)) => is_change_of_cloud(failure, other, "AWS"@),
        (Ok(_), Ok(_)) => false,
        (Err(error), _) => is_report_of(r, error),
    }
}

/// Whether `r` is the bearer token of a Google answer, or reports why there is none.
pub open spec fn is_token_of(
    current: DeltaResult<StorageCredential>,
    r: Result<GcpToken, StoreFailure>,
) -> bool {
    match (current, r) {
        (Ok(StorageCredential::GcpBearer(bearer)), Ok(token)) => token.bearer@ == bearer@,
        (Ok(StorageCredential::GcpBearer(_)), Err(_)) => false,
        (Ok(other), Err(failure)) => is_change_of_cloud(failure, other, "GCP"@),
        (Ok(_), Ok(_)) => false,
        (Err(error), _) => is_report_of(r, error),
    }
}

/// Whether `r` is the secret of an Azure answer, or reports why there is none: a bearer token as it
/// is, a shared key as the store decodes it, a signature as the pairs that its components hold.
pub open spec fn is_secret_of(
    current: DeltaResult<StorageCredential>,
    r: Result<AzureSecret, StoreFailure>,
) -> bool {
    match (current, r) {
        (Ok(StorageCredential::AzureBearer(token)), _) => r matches Ok(
            AzureSecret::BearerToken(given),
        ) && given@ == token@,
        (Ok(StorageCredential::AzureAccessKey(key)), _) => match providers::access_key_of(key@) {
            Ok(decoded) => r matches Ok(AzureSecret::AccessKey(given)) && given == decoded,
            Err(message) => r matches Err(failure) && is_failure(failure, message),
        },
        (Ok(StorageCredential::AzureSas(signature)), _) => match r {
            Ok(AzureSecret::SasToken(given)) => is_split_of(signature@, Ok(given)),
            Ok(_) => false,
            Err(failure) => failure.store@ == "StorageCredential"@ && is_split_of(
                signature@,
                Err(DeltaError::Generic(failure.message)),
            ),
        },
        (Ok(other), Err(failure)) => is_change_of_cloud(failure, other, "Azure"@),
        (Ok(_), Ok(_)) => false,
        (Err(error), _) => is_report_of(r, error),
    }
}

/// Whether `split` is what `signature` splits into: where its percent-decoded bytes are text, the
/// pair of each component of that text that is not blank, or the error that one has no value, and
/// where they are not, the error that they are none.
pub open spec fn is_split_of(
    signature: Seq<char>,
    split: DeltaResult<Vec<(String, String)>>,
) -> bool {
    let bytes = sas::percent_decoded(encode_utf8(signature));
    if valid_utf8(bytes) {
        forall|marks: nat, pieces: Seq<Seq<char>>| #[trigger]
            sas_laws::is_made_of(decode_utf8(bytes), marks, pieces) ==> sas_laws::reads_pieces(
                split,
                pieces,
            )
    } else {
        split matches Err(DeltaError::Generic(message)) && message@
            == "shared access signature is not utf-8: "@ + sas::utf8_error_text(bytes)
    }
}

proof fn lemma_secret(current: DeltaResult<StorageCredential>, r: Result<AzureSecret, StoreFailure>)
    requires
        AzureCredentials::supplies(current, r),
    ensures
        is_secret_of(current, r),
{
    if let Ok(StorageCredential::AzureSas(signature)) = current {
        let split: DeltaResult<Vec<(String, String)>> = match r {
            Ok(AzureSecret::SasToken(given)) => Ok(given),
            Ok(_) => arbitrary(),
            Err(failure) => Err(DeltaError::Generic(failure.message)),
        };
        let bytes = sas::percent_decoded(encode_utf8(signature@));
        if valid_utf8(bytes) {
            assert forall|marks: nat, pieces: Seq<Seq<char>>| #[trigger]
                sas_laws::is_made_of(decode_utf8(bytes), marks, pieces) implies sas_laws::reads_pieces(
                split,
                pieces,
            ) by {
                sas_laws::lemma_reads_pieces(decode_utf8(bytes), marks, pieces, split);
            }
        }
    }
}

/// The S3 store is given the key id, the secret and the session token of an AWS answer, each in its
/// place and with or without a session token, and an error for every other answer.
pub proof fn law_s3_store_is_given_the_credential(
    current: DeltaResult<StorageCredential>,
    r: Result<AwsKeyPair, StoreFailure>,
)
    requires
        call_ensures(AwsCredentials::supply, (current,), r),
    ensures
        is_key_pair_of(current, r),
{
}

/// The S3 store is given what its source answers rightly when it is asked.
pub proof fn law_s3_store_is_given_the_current_credential<F: Fn() -> Produced>(
    source: &mut CredentialSource<F>,
    r: Result<AwsKeyPair, StoreFailure>,
)
    requires
        call_ensures(AwsCredentials::get_credential::<F>, (source,), r),
    ensures
        exists|current: DeltaResult<StorageCredential>| #[trigger]
            credentials_laws::is_right_answer_now(*old(source), *final(source), current)
                && is_key_pair_of(current, r),
{
    let current = choose|current: DeltaResult<StorageCredential>| #[trigger]
        CredentialSource::answers(*old(source), *final(source), current)
            && AwsCredentials::supplies(current, r);
    credentials_laws::law_answers_are_right(*old(source), *final(source), current);
    assert(credentials_laws::is_right_answer_now(*old(source), *final(source), current));
}

/// The GCS store is given the bearer token of a Google answer, and an error for every other answer.
pub proof fn law_gcs_store_is_given_the_credential(
    current: DeltaResult<StorageCredential>,
    r: Result<GcpToken, StoreFailure>,
)
    requires
        call_ensures(GcpCredentials::supply, (current,), r),
    ensures
        is_token_of(current, r),
{
}

/// The GCS store is given what its source answers rightly when it is asked.
pub proof fn law_gcs_store_is_given_the_current_credential<F: Fn() -> Produced>(
    source: &mut CredentialSource<F>,
    r: Result<GcpToken, StoreFailure>,
)
    requires
        call_ensures(GcpCredentials::get_credential::<F>, (source,), r),
    ensures
        exists|current: DeltaResult<StorageCredential>| #[trigger]
            credentials_laws::is_right_answer_now(*old(source), *final(source), current)
                && is_token_of(current, r),
{
    let current = choose|current: DeltaResult<StorageCredential>| #[trigger]
        CredentialSource::answers(*old(source), *final(source), current)
            && GcpCredentials::supplies(current, r);
    credentials_laws::law_answers_are_right(*old(source), *final(source), current);
    assert(credentials_laws::is_right_answer_now(*old(source), *final(source), current));
}

/// The Azure store is given the secret of an Azure answer in its own shape, and an error for every
/// other answer.
pub proof fn law_azure_store_is_given_the_credential(
    current: DeltaResult<StorageCredential>,
    r: Result<AzureSecret, StoreFailure>,
)
    requires
        call_ensures(AzureCredentials::supply, (current,), r),
    ensures
        is_secret_of(current, r),
{
    lemma_secret(current, r);
}

/// The Azure store is given what its source answers rightly when it is asked.
pub proof fn law_azure_store_is_given_the_current_credential<F: Fn() -> Produced>(
    source: &mut CredentialSource<F>,
    r: Result<AzureSecret, StoreFailure>,
)
    requires
        call_ensures(AzureCredentials::get_credential::<F>, (source,), r),
    ensures
        exists|current: DeltaResult<StorageCredential>| #[trigger]
            credentials_laws::is_right_answer_now(*old(source), *final(source), current)
                && is_secret_of(current, r),
{
    let current = choose|current: DeltaResult<StorageCredential>| #[trigger]
        CredentialSource::answers(*old(source), *final(source), current)
            && AzureCredentials::supplies(current, r);
    credentials_laws::law_answers_are_right(*old(source), *final(source), current);
    lemma_secret(current, r);
    assert(credentials_laws::is_right_answer_now(*old(source), *final(source), current));
}

/// While the cached credential is good, no store asks anything of the closure of its source.
pub proof fn law_good_credential_spares_the_closure_of_a_store<F: Fn() -> Produced>(
    source: &mut CredentialSource<F>,
)
    requires
        forall|asked: Instant| #[trigger]
            clock::was_read(asked) ==> credentials_laws::is_good_at(old(source).cached(), asked),
    ensures
        call_requires(AwsCredentials::get_credential::<F>, (source,)),
        call_requires(GcpCredentials::get_credential::<F>, (source,)),
        call_requires(AzureCredentials::get_credential::<F>, (source,)),
{
}

/// Every store can ask a source whose closure can be called.
pub proof fn law_callable_closure_suffices_for_a_store<F: Fn() -> Produced>(
    source: &mut CredentialSource<F>,
)
    requires
        call_requires(old(source).producer(), ()),
    ensures
        call_requires(AwsCredentials::get_credential::<F>, (source,)),
        call_requires(GcpCredentials::get_credential::<F>, (source,)),
        call_requires(AzureCredentials::get_credential::<F>, (source,)),
{
}

/// The Azure store is given exactly the pairs that a signature spells, whatever escapes it uses.
pub proof fn law_azure_store_is_given_the_pairs_that_are_spelled(
    signature: String,
    pairs: Seq<(Seq<char>, Seq<char>)>,
    r: Result<AzureSecret, StoreFailure>,
)
    requires
        encode_utf8(sas_laws::signature_of(pairs)) == sas::percent_decoded(
            encode_utf8(signature@),
        ),
        forall|i: int| 0 <= i < pairs.len() ==> sas_laws::is_spellable(#[trigger] pairs[i]),
        pairs.len() > 0 ==> sas_laws::component_of(pairs[0])[0] != '?',
        call_ensures(AzureCredentials::supply, (Ok(StorageCredential::AzureSas(signature)),), r),
    ensures
        r matches Ok(AzureSecret::SasToken(given)) && sas_laws::holds_pairs(given@, pairs),
{
    let decoded = sas_laws::signature_of(pairs);
    encode_utf8_valid_utf8(decoded);
    encode_utf8_decode_utf8(decoded);
    sas_laws::lemma_spelled_text(pairs);
    if let Ok(AzureSecret::SasToken(given)) = r {
        assert(sas::pairs_view(given@).len() == given@.len());
        assert forall|i: int| 0 <= i < pairs.len() implies (#[trigger] given@[i]).0@ == pairs[i].0
            && given@[i].1@ == pairs[i].1 by {
            assert(sas::pairs_view(given@)[i] == (given@[i].0@, given@[i].1@));
        }
    }
}

} // verus!
