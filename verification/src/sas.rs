//! Splitting an Azure shared access signature into its query pairs.

use percent_encoding::percent_decode_str;
use vstd::prelude::*;
use vstd::string::*;
use vstd::utf8::*;

use crate::error::{DeltaError, DeltaResult, ErrorView};
use crate::text;

verus! {

/// Whether `b` is the code of a hexadecimal digit, of either case.
pub open spec fn is_hex_digit(b: u8) -> bool {
    ||| 0x30 <= b <= 0x39
    ||| 0x41 <= b <= 0x46
    ||| 0x61 <= b <= 0x66
}

/// The value of the hexadecimal digit whose code is `b`.
pub open spec fn hex_value(b: u8) -> int
    recommends
        is_hex_digit(b),
{
    if b <= 0x39 {
        b - 0x30
    } else if b <= 0x46 {
        b - 0x41 + 10
    } else {
        b - 0x61 + 10
    }
}

/// `bytes` with every `%` that two hexadecimal digits follow, and those digits, replaced by the
/// byte that the digits spell. Every other byte stays as it is.
pub open spec fn percent_decoded(bytes: Seq<u8>) -> Seq<u8>
    decreases bytes.len(),
{
    if bytes.len() == 0 {
        Seq::empty()
    } else if bytes[0] == 0x25 && bytes.len() >= 3 && is_hex_digit(bytes[1]) && is_hex_digit(
        bytes[2],
    ) {
        seq![(hex_value(bytes[1]) * 16 + hex_value(bytes[2])) as u8] + percent_decoded(
            bytes.skip(3),
        )
    } else {
        seq![bytes[0]] + percent_decoded(bytes.skip(1))
    }
}

/// The bytes of `sas` once percent-decoded.
pub open spec fn sas_bytes(sas: Seq<char>) -> Seq<u8> {
    percent_decoded(encode_utf8(sas))
}

/// How std words the error that bytes which are not UTF-8 give.
pub uninterp spec fn utf8_error_text(bytes: Seq<u8>) -> Seq<char>;

/// `percent_decode_str` and `PercentDecode::decode_utf8` of percent_encoding: the UTF-8 bytes of
/// the input are percent-decoded and read as UTF-8 again. This fails exactly where the decoded
/// bytes are not UTF-8, and the wording of the failure rests on those bytes alone.
#[verifier::external_body]
fn percent_decode_utf8(sas: &str) -> (r: Result<String, String>)
    ensures
        match r {
            Ok(text) => encode_utf8(text@) == sas_bytes(sas@),
            Err(reason) => !valid_utf8(sas_bytes(sas@)) && reason@ == utf8_error_text(
                sas_bytes(sas@),
            ),
        },
{
    match percent_decode_str(sas).decode_utf8() {
        Ok(text) => Ok(text.into_owned()),
        Err(error) => Err(error.to_string()),
    }
}

/// The components of a decoded signature: what stands between the `&`s once the leading `?`s are
/// gone, without the components that are blank.
pub open spec fn sas_components(text: Seq<char>) -> Seq<Seq<char>> {
    text::split_on(text::without_leading(text, '?'), '&').filter(
        |component: Seq<char>| !text::is_blank(component),
    )
}

/// The key and the value of a component: what stands before and after its first `=`, the white
/// space at the ends of the component left out. A component without `=` has none.
pub open spec fn sas_pair(component: Seq<char>) -> Option<(Seq<char>, Seq<char>)> {
    let pair = text::trimmed(component);
    let i = text::position(pair, '=');
    if i < pair.len() {
        Some((pair.take(i), pair.skip(i + 1)))
    } else {
        None
    }
}

/// Whether every component of a decoded signature has a value.
pub open spec fn sas_well_formed(text: Seq<char>) -> bool {
    forall|i: int|
        0 <= i < sas_components(text).len() ==> sas_pair(#[trigger] sas_components(text)[i]) is Some
}

/// The pairs of a decoded signature, in its order.
pub open spec fn sas_pairs(text: Seq<char>) -> Seq<(Seq<char>, Seq<char>)>
    recommends
        sas_well_formed(text),
{
    sas_components(text).map_values(|component: Seq<char>| sas_pair(component)->0)
}

/// The model of a list of pairs.
pub open spec fn pairs_view(pairs: Seq<(String, String)>) -> Seq<(Seq<char>, Seq<char>)> {
    pairs.map_values(|pair: (String, String)| (pair.0@, pair.1@))
}

/// What splitting the decoded signature `text` gives: its pairs, or what is wrong with it.
pub open spec fn decoded_sas_result(text: Seq<char>) -> Result<
    Seq<(Seq<char>, Seq<char>)>,
    Seq<char>,
> {
    if sas_well_formed(text) {
        Ok(sas_pairs(text))
    } else {
        Err("shared access signature has a component without a value"@)
    }
}

/// What splitting the signature `sas` gives: its pairs, or what is wrong with it.
pub open spec fn sas_result(sas: Seq<char>) -> Result<Seq<(Seq<char>, Seq<char>)>, Seq<char>> {
    if valid_utf8(sas_bytes(sas)) {
        decoded_sas_result(decode_utf8(sas_bytes(sas)))
    } else {
        Err("shared access signature is not utf-8: "@ + utf8_error_text(sas_bytes(sas)))
    }
}

/// Whether `r` is the result that `model` describes.
pub open spec fn is_result(
    r: DeltaResult<Vec<(String, String)>>,
    model: Result<Seq<(Seq<char>, Seq<char>)>, Seq<char>>,
) -> bool {
    match (r, model) {
        (Ok(pairs), Ok(expected)) => pairs_view(pairs@) == expected,
        (Err(error), Err(message)) => error@ == ErrorView::Generic(message),
        _ => false,
    }
}

/// Split a shared access signature that is percent-decoded already into its query pairs.
pub fn split_decoded_sas(text: &str) -> (r: DeltaResult<Vec<(String, String)>>)
    ensures
        is_result(r, decoded_sas_result(text@)),
{
    let chars = text::chars_of(text);
    let len = chars.len();
    let mut start: usize = text::skip_leading(&chars, '?');
    let mut pairs: Vec<(String, String)> = Vec::new();
    let mut more = true;
    let ghost keep = |component: Seq<char>| !text::is_blank(component);
    let ghost value = |component: Seq<char>| sas_pair(component)->0;
    let ghost all = text::split_on(text::without_leading(text@, '?'), '&');
    let ghost mut done: Seq<Seq<char>> = Seq::empty();
    assert(chars@.subrange(start as int, len as int) =~= chars@.skip(start as int));
    assert(all =~= done + all);
    assert(pairs_view(pairs@) =~= done.filter(keep).map_values(value));
    while more
        invariant
            len == chars@.len(),
            chars@ == text@,
            start <= len,
            keep == (|component: Seq<char>| !text::is_blank(component)),
            value == (|component: Seq<char>| sas_pair(component)->0),
            sas_components(text@) == all.filter(keep),
            more ==> all == done + text::split_on(
                chars@.subrange(start as int, len as int),
                '&',
            ),
            !more ==> all == done,
            pairs_view(pairs@) == done.filter(keep).map_values(value),
            forall|i: int|
                0 <= i < done.filter(keep).len() ==> sas_pair(#[trigger] done.filter(keep)[i])
                    is Some,
        decreases len - start, if more { 1int } else { 0int },
    {
        let end = text::find_char(&chars, start, len, '&');
        let ghost rest = chars@.subrange(start as int, len as int);
        let ghost component = chars@.subrange(start as int, end as int);
        let ghost before = done;
        proof {
            text::lemma_position(rest, '&');
            assert(component =~= rest.take(end - start));
            done = before.push(component);
            before.lemma_filter_push(component, keep);
            if end < len {
                let after = text::split_on(rest.skip(end - start + 1), '&');
                assert(rest.skip(end - start + 1) =~= chars@.subrange(end + 1, len as int));
                assert(before + (seq![component] + after) =~= done + after);
            } else {
                assert(component =~= rest);
                assert(before + seq![component] =~= done);
            }
        }
        if !text::blank(&chars, start, end) {
            let (from, to) = text::trim(&chars, start, end);
            let eq = text::find_char(&chars, from, to, '=');
            let ghost pair = chars@.subrange(from as int, to as int);
            proof {
                text::lemma_position(pair, '=');
            }
            if eq == to {
                proof {
                    assert(all[done.len() - 1] == component);
                    all.lemma_filter_contains(keep, done.len() - 1);
                    let i = choose|i: int| 0 <= i < all.filter(keep).len() && all.filter(keep)[i]
                        == component;
                    assert(sas_pair(sas_components(text@)[i]) is None);
                }
                return Err(
                    DeltaError::generic("shared access signature has a component without a value"),
                );
            }
            let key = text.substring_char(from, eq).to_string();
            let val = text.substring_char(eq + 1, to).to_string();
            proof {
                assert(key@ =~= pair.take(eq - from));
                assert(val@ =~= pair.skip(eq - from + 1));
                assert(sas_pair(component) == Some((key@, val@)));
            }
            let ghost earlier = pairs@;
            pairs.push((key, val));
            proof {
                assert(pairs_view(pairs@) =~= pairs_view(earlier).push((key@, val@)));
                assert(before.filter(keep).push(component).map_values(value) =~= before.filter(
                    keep,
                ).map_values(value).push((key@, val@)));
            }
        }
        if end < len {
            start = end + 1;
        } else {
            more = false;
        }
    }
    Ok(pairs)
}

/// Split a shared access signature into the query pairs that the Azure store signs with.
///
/// The whole signature is percent-decoded first, so a `+` in it stays a `+`.
pub fn split_sas(sas: &str) -> (r: DeltaResult<Vec<(String, String)>>)
    ensures
        is_result(r, sas_result(sas@)),
{
    match percent_decode_utf8(sas) {
        Ok(text) => {
            proof {
                encode_utf8_valid_utf8(text@);
                encode_utf8_decode_utf8(text@);
            }
            split_decoded_sas(text.as_str())
        },
        Err(reason) => {
            let message = "shared access signature is not utf-8: ".to_string().concat(
                reason.as_str(),
            );
            Err(DeltaError::Generic(message))
        },
    }
}

} // verus!
