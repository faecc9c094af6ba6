//! What holds of splitting a shared access signature, whatever the signature.

use vstd::prelude::*;
use vstd::utf8::*;

use crate::error::{DeltaError, DeltaResult};
use crate::sas;
use crate::text;

verus! {

proof fn lemma_percent_decoded_append(a: Seq<u8>, b: Seq<u8>)
    requires
        b.len() > 0 ==> !sas::is_hex_digit(b[0]),
    ensures
        sas::percent_decoded(a + b) == sas::percent_decoded(a) + sas::percent_decoded(b),
    decreases a.len(),
{
    let whole = a + b;
    if a.len() == 0 {
        assert(whole =~= b);
        assert(sas::percent_decoded(a) + sas::percent_decoded(b) =~= sas::percent_decoded(b));
    } else if a[0] == 0x25 && a.len() >= 3 && sas::is_hex_digit(a[1]) && sas::is_hex_digit(a[2]) {
        lemma_percent_decoded_append(a.skip(3), b);
        assert(whole.skip(3) =~= a.skip(3) + b);
        assert(sas::percent_decoded(whole) =~= sas::percent_decoded(a) + sas::percent_decoded(b));
    } else {
        lemma_percent_decoded_append(a.skip(1), b);
        assert(whole.skip(1) =~= a.skip(1) + b);
        assert(whole[0] == a[0]);
        if a.len() == 1 && b.len() > 0 {
            assert(whole[1] == b[0]);
        }
        if a.len() == 2 && b.len() > 0 {
            assert(whole[2] == b[0]);
        }
        assert(sas::percent_decoded(whole) =~= sas::percent_decoded(a) + sas::percent_decoded(b));
    }
}

proof fn lemma_percent_decoded_plain(bytes: Seq<u8>)
    requires
        forall|i: int| 0 <= i < bytes.len() ==> bytes[i] != 0x25,
    ensures
        sas::percent_decoded(bytes) == bytes,
    decreases bytes.len(),
{
    if bytes.len() > 0 {
        lemma_percent_decoded_plain(bytes.skip(1));
        assert(seq![bytes[0]] + bytes.skip(1) =~= bytes);
    }
}

proof fn lemma_encode_utf8_append(a: Seq<char>, b: Seq<char>)
    ensures
        encode_utf8(a + b) == encode_utf8(a) + encode_utf8(b),
    decreases a.len(),
{
    if a.len() == 0 {
        assert(a + b =~= b);
        assert(encode_utf8(a) + encode_utf8(b) =~= encode_utf8(b));
    } else {
        lemma_encode_utf8_append(a.drop_first(), b);
        assert((a + b).drop_first() =~= a.drop_first() + b);
        assert(encode_utf8(a + b) =~= encode_utf8(a) + encode_utf8(b));
    }
}

proof fn lemma_encode_ascii(c: char)
    requires
        (c as u32) < 0x80,
    ensures
        encode_utf8(seq![c]) == seq![c as u8],
{
    is_ascii_chars_encode_utf8(seq![c]);
    assert(encode_utf8(seq![c])[0] == seq![c][0] as u8);
    assert(encode_utf8(seq![c]) =~= seq![c as u8]);
}

proof fn lemma_scalar_bytes(code: u32)
    by (bit_vector)
    requires
        code > 0x7f,
    ensures
        code <= 0x7ff ==> leading_byte_width_2(code) != 0x25,
        code <= 0xffff ==> leading_byte_width_3(code) != 0x25,
        leading_byte_width_4(code) != 0x25,
        last_continuation_byte(code) != 0x25,
        second_last_continuation_byte(code) != 0x25,
        third_last_continuation_byte(code) != 0x25,
{
}

proof fn lemma_encode_without_percent(chars: Seq<char>)
    requires
        !chars.contains('%'),
    ensures
        forall|i: int| 0 <= i < encode_utf8(chars).len() ==> encode_utf8(chars)[i] != 0x25,
    decreases chars.len(),
{
    if chars.len() > 0 {
        let rest = chars.drop_first();
        assert forall|c: char| rest.contains(c) implies chars.contains(c) by {
            let i = choose|i: int| 0 <= i < rest.len() && rest[i] == c;
            assert(chars[i + 1] == c);
        }
        lemma_encode_without_percent(rest);
        assert(chars.contains(chars[0]));
        let code = chars[0] as u32;
        char_is_scalar(chars[0]);
        char_u32_cast(chars[0], code);
        let head = encode_scalar(code);
        if code <= 0x7f {
            lemma_encode_ascii(chars[0]);
            assert(seq![chars[0]].drop_first() =~= Seq::<char>::empty());
            assert(encode_utf8(seq![chars[0]]) =~= head);
            assert(chars[0] != '%');
            assert(head[0] == chars[0] as u8);
            assert(chars[0] as u8 == code);
            assert(head[0] != 0x25);
        } else {
            lemma_scalar_bytes(code);
        }
        assert(forall|i: int| 0 <= i < head.len() ==> head[i] != 0x25);
        assert forall|i: int| 0 <= i < encode_utf8(chars).len() implies encode_utf8(chars)[i]
            != 0x25 by {
            if i >= head.len() {
                assert(encode_utf8(chars)[i] == encode_utf8(rest)[i - head.len()]);
            }
        }
    }
}

/// A signature without `%` is what it decodes to.
pub proof fn law_plain_text_is_kept(signature: Seq<char>)
    requires
        !signature.contains('%'),
    ensures
        valid_utf8(sas::sas_bytes(signature)),
        decode_utf8(sas::sas_bytes(signature)) == signature,
{
    lemma_encode_without_percent(signature);
    lemma_percent_decoded_plain(encode_utf8(signature));
    encode_utf8_valid_utf8(signature);
    encode_utf8_decode_utf8(signature);
}

/// A `+` anywhere in a signature stays a `+`, whatever stands around it.
pub proof fn law_plus_is_kept(before: Seq<char>, after: Seq<char>)
    ensures
        sas::sas_bytes(before.push('+') + after) == sas::sas_bytes(before).push(0x2b)
            + sas::sas_bytes(after),
{
    let plus = seq!['+'];
    lemma_encode_ascii('+');
    assert(before.push('+') + after =~= before + (plus + after));
    lemma_encode_utf8_append(before, plus + after);
    lemma_encode_utf8_append(plus, after);
    let tail = seq![0x2bu8] + encode_utf8(after);
    lemma_percent_decoded_append(encode_utf8(before), tail);
    assert(tail.skip(1) =~= encode_utf8(after));
    assert(sas::sas_bytes(before) + (seq![0x2bu8] + sas::sas_bytes(after)) =~= sas::sas_bytes(
        before,
    ).push(0x2b) + sas::sas_bytes(after));
}

/// A `%2B` anywhere in a signature becomes a `+`, whatever stands around it.
pub proof fn law_encoded_plus_is_decoded(before: Seq<char>, after: Seq<char>)
    ensures
        sas::sas_bytes(before + seq!['%', '2', 'B'] + after) == sas::sas_bytes(before).push(0x2b)
            + sas::sas_bytes(after),
{
    let code = seq!['%', '2', 'B'];
    is_ascii_chars_encode_utf8(code);
    assert(encode_utf8(code)[0] == code[0] as u8);
    assert(encode_utf8(code)[1] == code[1] as u8);
    assert(encode_utf8(code)[2] == code[2] as u8);
    assert(encode_utf8(code) =~= seq![0x25u8, 0x32u8, 0x42u8]);
    assert(before + code + after =~= before + (code + after));
    lemma_encode_utf8_append(before, code + after);
    lemma_encode_utf8_append(code, after);
    let tail = encode_utf8(code) + encode_utf8(after);
    lemma_percent_decoded_append(encode_utf8(before), tail);
    assert(tail.skip(3) =~= encode_utf8(after));
    assert(sas::percent_decoded(tail) =~= seq![0x2bu8] + sas::sas_bytes(after));
    assert(sas::sas_bytes(before) + (seq![0x2bu8] + sas::sas_bytes(after)) =~= sas::sas_bytes(
        before,
    ).push(0x2b) + sas::sas_bytes(after));
}

proof fn lemma_filter_keeps_all(pieces: Seq<Seq<char>>, keep: spec_fn(Seq<char>) -> bool)
    requires
        forall|i: int| 0 <= i < pieces.len() ==> keep(#[trigger] pieces[i]),
    ensures
        pieces.filter(keep) == pieces,
    decreases pieces.len(),
{
    reveal(Seq::filter);
    if pieces.len() > 0 {
        let init = pieces.drop_last();
        assert forall|i: int| 0 <= i < init.len() implies keep(#[trigger] init[i]) by {
            assert(init[i] == pieces[i]);
        }
        lemma_filter_keeps_all(init, keep);
        assert(keep(pieces[pieces.len() - 1]));
        assert(init.push(pieces.last()) =~= pieces);
    }
}

proof fn lemma_split_push_sep(s: Seq<char>, sep: char)
    ensures
        text::split_on(s.push(sep), sep) == text::split_on(s, sep).push(Seq::empty()),
    decreases s.len(),
{
    text::lemma_position(s, sep);
    let i = text::position(s, sep);
    let longer = s.push(sep);
    text::lemma_position_is(longer, sep, i);
    assert(longer.take(i) =~= s.take(i));
    if i < s.len() {
        lemma_split_push_sep(s.skip(i + 1), sep);
        assert(longer.skip(i + 1) =~= s.skip(i + 1).push(sep));
        assert(text::split_on(longer, sep) =~= text::split_on(s, sep).push(Seq::empty()));
    } else {
        assert(s.take(i) =~= s);
        assert(longer.skip(i + 1) =~= Seq::<char>::empty());
        assert(text::split_on(Seq::empty(), sep) =~= seq![Seq::<char>::empty()]);
        assert(text::split_on(longer, sep) =~= text::split_on(s, sep).push(Seq::empty()));
    }
}

proof fn lemma_without_leading_push(s: Seq<char>, c: char, last: char)
    requires
        c != last,
    ensures
        text::without_leading(s.push(last), c) == text::without_leading(s, c).push(last),
    decreases s.len(),
{
    if s.len() > 0 && s[0] == c {
        lemma_without_leading_push(s.drop_first(), c, last);
        assert(s.push(last).drop_first() =~= s.drop_first().push(last));
    }
}

/// A `?` in front of a signature makes no difference.
pub proof fn law_leading_question_mark_is_dropped(decoded: Seq<char>)
    ensures
        sas::decoded_sas_result(seq!['?'] + decoded) == sas::decoded_sas_result(decoded),
{
    assert((seq!['?'] + decoded).drop_first() =~= decoded);
}

/// A `&` behind a signature makes no difference: the empty component after it is passed over.
pub proof fn law_trailing_separator_is_dropped(decoded: Seq<char>)
    ensures
        sas::decoded_sas_result(decoded.push('&')) == sas::decoded_sas_result(decoded),
{
    let body = text::without_leading(decoded, '?');
    let keep = |component: Seq<char>| !text::is_blank(component);
    lemma_without_leading_push(decoded, '?', '&');
    lemma_split_push_sep(body, '&');
    text::split_on(body, '&').lemma_filter_push(Seq::empty(), keep);
}

/// The key of a component holds no `=`, and key, `=` and value together are the component, the
/// white space at its ends left out.
pub proof fn law_pair_is_its_component(component: Seq<char>)
    ensures
        sas::sas_pair(component) matches Some(pair) ==> !pair.0.contains('=') && pair.0.push('=')
            + pair.1 == text::trimmed(component),
        sas::sas_pair(component) is None <==> !text::trimmed(component).contains('='),
{
    let whole = text::trimmed(component);
    let i = text::position(whole, '=');
    text::lemma_position(whole, '=');
    if i < whole.len() {
        assert(whole.contains(whole[i]));
        assert(whole.take(i).push('=') + whole.skip(i + 1) =~= whole);
    } else {
        assert forall|j: int| 0 <= j < whole.len() implies whole[j] != '=' by {}
    }
}

/// A pair as a component of a signature.
pub open spec fn component_of(pair: (Seq<char>, Seq<char>)) -> Seq<char> {
    pair.0.push('=') + pair.1
}

/// The signature that spells `pairs`.
pub open spec fn signature_of(pairs: Seq<(Seq<char>, Seq<char>)>) -> Seq<char> {
    text::join(pairs.map_values(|pair: (Seq<char>, Seq<char>)| component_of(pair)), '&')
}

/// Whether a pair can stand in a signature as it is: it holds nothing that separates or encodes,
/// its key holds no `=`, and its component neither starts nor ends with white space.
pub open spec fn is_plain(pair: (Seq<char>, Seq<char>)) -> bool {
    &&& !pair.0.contains('=')
    &&& !component_of(pair).contains('&')
    &&& !component_of(pair).contains('%')
    &&& !text::is_white_space(component_of(pair)[0])
    &&& !text::is_white_space(component_of(pair).last())
}

proof fn lemma_join_contains(pieces: Seq<Seq<char>>, sep: char, c: char)
    requires
        c != sep,
        forall|k: int| 0 <= k < pieces.len() ==> !(#[trigger] pieces[k]).contains(c),
    ensures
        !text::join(pieces, sep).contains(c),
    decreases pieces.len(),
{
    if pieces.len() >= 2 {
        let rest = pieces.drop_first();
        assert forall|k: int| 0 <= k < rest.len() implies !(#[trigger] rest[k]).contains(c) by {
            assert(rest[k] == pieces[k + 1]);
        }
        lemma_join_contains(rest, sep, c);
        let whole = text::join(pieces, sep);
        let first = pieces[0].push(sep);
        assert forall|j: int| 0 <= j < whole.len() implies whole[j] != c by {
            if j < pieces[0].len() {
                assert(pieces[0].contains(pieces[0][j]));
            } else if j >= first.len() {
                assert(whole[j] == text::join(rest, sep)[j - first.len()]);
                assert(text::join(rest, sep).contains(whole[j]));
            }
        }
    } else if pieces.len() == 1 {
        assert(!pieces[0].contains(c));
    }
}

pub(crate) proof fn lemma_spelled_text(pairs: Seq<(Seq<char>, Seq<char>)>)
    requires
        forall|i: int| 0 <= i < pairs.len() ==> is_spellable(#[trigger] pairs[i]),
        pairs.len() > 0 ==> component_of(pairs[0])[0] != '?',
    ensures
        sas::decoded_sas_result(signature_of(pairs)) == Ok::<_, Seq<char>>(pairs),
{
    let spell = |pair: (Seq<char>, Seq<char>)| component_of(pair);
    let keep = |component: Seq<char>| !text::is_blank(component);
    let pieces = pairs.map_values(spell);
    let whole = signature_of(pairs);
    assert forall|k: int| 0 <= k < pieces.len() implies {
        &&& !(#[trigger] pieces[k]).contains('&')
        &&& keep(pieces[k])
        &&& sas::sas_pair(pieces[k]) == Some(pairs[k])
    } by {
        let pair = pairs[k];
        assert(is_spellable(pair));
        let piece = component_of(pair);
        assert(pieces[k] == piece);
        assert(text::trimmed(piece) == piece);
        assert forall|j: int| 0 <= j < pair.0.len() implies piece[j] != '=' by {
            assert(pair.0.contains(pair.0[j]));
        }
        text::lemma_position_is(piece, '=', pair.0.len() as int);
        assert(piece.take(pair.0.len() as int) =~= pair.0);
        assert(piece.skip(pair.0.len() as int + 1) =~= pair.1);
    }
    if pieces.len() == 0 {
        let none = Seq::<char>::empty();
        assert(text::split_on(whole, '&') =~= Seq::<Seq<char>>::empty().push(none));
        Seq::<Seq<char>>::empty().lemma_filter_push(none, keep);
        assert(sas::sas_components(whole) =~= pieces);
    } else {
        text::lemma_split_of_join(pieces, '&');
        assert(whole[0] == pieces[0][0]);
        assert(text::without_leading(whole, '?') == whole);
        lemma_filter_keeps_all(pieces, keep);
        assert(sas::sas_components(whole) == pieces);
    }
    assert(sas::sas_pairs(whole) =~= pairs);
}

/// Splitting undoes spelling: a signature spelled from plain pairs splits into those pairs, in
/// their order.
pub proof fn law_split_undoes_spelling(pairs: Seq<(Seq<char>, Seq<char>)>)
    requires
        forall|i: int| 0 <= i < pairs.len() ==> is_plain(#[trigger] pairs[i]),
        pairs.len() > 0 ==> component_of(pairs[0])[0] != '?',
    ensures
        sas::sas_result(signature_of(pairs)) == Ok::<_, Seq<char>>(pairs),
{
    let pieces = pairs.map_values(|pair: (Seq<char>, Seq<char>)| component_of(pair));
    assert forall|k: int| 0 <= k < pieces.len() implies !(#[trigger] pieces[k]).contains('%') by {
        assert(is_plain(pairs[k]));
    }
    assert forall|i: int| 0 <= i < pairs.len() implies is_spellable(#[trigger] pairs[i]) by {
        assert(is_plain(pairs[i]));
    }
    lemma_join_contains(pieces, '&', '%');
    law_plain_text_is_kept(signature_of(pairs));
    lemma_spelled_text(pairs);
}

/// Whether `split` holds exactly `pairs`, in their order.
pub open spec fn holds_pairs(
    split: Seq<(String, String)>,
    pairs: Seq<(Seq<char>, Seq<char>)>,
) -> bool {
    &&& split.len() == pairs.len()
    &&& forall|i: int|
        0 <= i < pairs.len() ==> (#[trigger] split[i]).0@ == pairs[i].0 && split[i].1@ == pairs[i].1
}

/// Whether a pair can stand in the text of a signature: its key holds no `=`, its component no
/// `&`, and the component neither starts nor ends with white space.
pub open spec fn is_spellable(pair: (Seq<char>, Seq<char>)) -> bool {
    &&& !pair.0.contains('=')
    &&& !component_of(pair).contains('&')
    &&& !text::is_white_space(component_of(pair)[0])
    &&& !text::is_white_space(component_of(pair).last())
}

/// Whether `key` and `value` are what `component` holds: the component is the key, an `=` and the
/// value, with nothing but white space around them, and the `=` is its first.
pub open spec fn is_pair_of(key: Seq<char>, value: Seq<char>, component: Seq<char>) -> bool {
    &&& !key.contains('=')
    &&& !text::is_white_space(component_of((key, value))[0])
    &&& !text::is_white_space(component_of((key, value)).last())
    &&& exists|left: Seq<char>, right: Seq<char>|
        text::is_blank(left) && text::is_blank(right) && component == #[trigger] (left
            + component_of((key, value)) + right)
}

/// As many `?`s as `count` says.
pub open spec fn question_marks(count: nat) -> Seq<char> {
    Seq::new(count, |i: int| '?')
}

/// Whether the text of a signature is `marks` many `?`s and then `pieces` with a `&` between each
/// and the next.
pub open spec fn is_made_of(decoded: Seq<char>, marks: nat, pieces: Seq<Seq<char>>) -> bool {
    &&& decoded == question_marks(marks) + text::join(pieces, '&')
    &&& pieces.len() >= 1
    &&& forall|k: int| 0 <= k < pieces.len() ==> !(#[trigger] pieces[k]).contains('&')
    &&& pieces[0].len() > 0 ==> pieces[0][0] != '?'
}

/// Whether `r` is what a signature made of `pieces` splits into: the pair of each piece that is
/// not blank, in their order, or the error that one of them has no value.
pub open spec fn reads_pieces(
    r: DeltaResult<Vec<(String, String)>>,
    pieces: Seq<Seq<char>>,
) -> bool {
    let kept = pieces.filter(|piece: Seq<char>| !text::is_blank(piece));
    match r {
        Ok(split) => {
            &&& split@.len() == kept.len()
            &&& forall|i: int|
                0 <= i < kept.len() ==> is_pair_of(
                    (#[trigger] split@[i]).0@,
                    split@[i].1@,
                    kept[i],
                )
        },
        Err(error) => {
            &&& exists|k: int|
                0 <= k < pieces.len() && !text::is_blank(#[trigger] pieces[k])
                    && !pieces[k].contains('=')
            &&& error matches DeltaError::Generic(message) && message@
                == "shared access signature has a component without a value"@
        },
    }
}

proof fn lemma_trim_front(s: Seq<char>) -> (left: Seq<char>)
    ensures
        text::is_blank(left),
        s == left + text::trim_front(s),
        text::trim_front(s).len() > 0 ==> !text::is_white_space(text::trim_front(s)[0]),
    decreases s.len(),
{
    if s.len() > 0 && text::is_white_space(s[0]) {
        let rest = lemma_trim_front(s.drop_first());
        let left = seq![s[0]] + rest;
        assert(s =~= seq![s[0]] + s.drop_first());
        assert(s =~= left + text::trim_front(s));
        left
    } else {
        assert(s =~= Seq::empty() + s);
        Seq::empty()
    }
}

proof fn lemma_trim_back(s: Seq<char>) -> (right: Seq<char>)
    ensures
        text::is_blank(right),
        s == text::trim_back(s) + right,
        text::trim_back(s).len() > 0 ==> !text::is_white_space(text::trim_back(s).last()),
    decreases s.len(),
{
    if s.len() > 0 && text::is_white_space(s.last()) {
        let rest = lemma_trim_back(s.drop_last());
        let right = rest.push(s.last());
        assert(s =~= s.drop_last().push(s.last()));
        assert(s =~= text::trim_back(s) + right);
        right
    } else {
        assert(s =~= s + Seq::empty());
        Seq::empty()
    }
}

/// Trimming a piece takes white space off its two ends and nothing else.
pub proof fn law_trimming_takes_white_space_alone(s: Seq<char>)
    ensures
        exists|left: Seq<char>, right: Seq<char>|
            text::is_blank(left) && text::is_blank(right) && s == #[trigger] (left + text::trimmed(
                s,
            ) + right),
        text::trimmed(s).len() > 0 ==> !text::is_white_space(text::trimmed(s)[0])
            && !text::is_white_space(text::trimmed(s).last()),
        text::trimmed(s).len() == 0 <==> text::is_blank(s),
{
    let left = lemma_trim_front(s);
    let front = text::trim_front(s);
    let right = lemma_trim_back(front);
    let middle = text::trimmed(s);
    assert(s =~= left + middle + right);
    if middle.len() > 0 {
        assert(front[0] == middle[0]);
        assert(s[left.len() as int] == middle[0]);
    } else {
        assert forall|i: int| 0 <= i < s.len() implies text::is_white_space(#[trigger] s[i]) by {
            if i < left.len() {
                assert(s[i] == left[i]);
            } else {
                assert(s[i] == right[i - left.len()]);
            }
        }
    }
}

proof fn lemma_pair_of_component(component: Seq<char>)
    requires
        !text::is_blank(component),
    ensures
        sas::sas_pair(component) matches Some(pair) ==> is_pair_of(pair.0, pair.1, component),
        sas::sas_pair(component) is Some <==> component.contains('='),
{
    law_trimming_takes_white_space_alone(component);
    law_pair_is_its_component(component);
    let middle = text::trimmed(component);
    let (left, right) = choose|left: Seq<char>, right: Seq<char>|
        text::is_blank(left) && text::is_blank(right) && component == #[trigger] (left + middle
            + right);
    if middle.contains('=') {
        let i = choose|i: int| 0 <= i < middle.len() && middle[i] == '=';
        assert(component[left.len() + i] == '=');
    }
    if component.contains('=') {
        let i = choose|i: int| 0 <= i < component.len() && component[i] == '=';
        if i < left.len() {
            assert(component[i] == left[i]);
        } else if i < left.len() + middle.len() {
            assert(component[i] == middle[i - left.len()]);
            assert(middle.contains('='));
        } else {
            assert(component[i] == right[i - left.len() - middle.len()]);
        }
    }
    if let Some(pair) = sas::sas_pair(component) {
        assert(component_of(pair) == middle);
        assert(component == left + component_of((pair.0, pair.1)) + right);
    }
}

proof fn lemma_without_question_marks(marks: nat, body: Seq<char>)
    requires
        body.len() > 0 ==> body[0] != '?',
    ensures
        text::without_leading(question_marks(marks) + body, '?') == body,
    decreases marks,
{
    let whole = question_marks(marks) + body;
    if marks > 0 {
        lemma_without_question_marks((marks - 1) as nat, body);
        assert(whole[0] == '?');
        assert(whole.drop_first() =~= question_marks((marks - 1) as nat) + body);
    } else {
        assert(whole =~= body);
    }
}

pub(crate) proof fn lemma_reads_pieces(
    decoded: Seq<char>,
    marks: nat,
    pieces: Seq<Seq<char>>,
    r: DeltaResult<Vec<(String, String)>>,
)
    requires
        is_made_of(decoded, marks, pieces),
        sas::is_result(r, sas::decoded_sas_result(decoded)),
    ensures
        reads_pieces(r, pieces),
{
    let body = text::join(pieces, '&');
    let keep = |piece: Seq<char>| !text::is_blank(piece);
    let kept = pieces.filter(keep);
    if body.len() > 0 && pieces[0].len() > 0 {
        assert(body[0] == pieces[0][0]);
    }
    lemma_without_question_marks(marks, body);
    text::lemma_split_of_join(pieces, '&');
    assert(sas::sas_components(decoded) == kept);
    assert forall|i: int| 0 <= i < kept.len() implies {
        &&& sas::sas_pair(#[trigger] kept[i]) matches Some(pair) ==> is_pair_of(
            pair.0,
            pair.1,
            kept[i],
        )
        &&& sas::sas_pair(kept[i]) is Some <==> kept[i].contains('=')
        &&& !text::is_blank(kept[i])
        &&& pieces.contains(kept[i])
    } by {
        pieces.lemma_filter_pred(keep, i);
        pieces.lemma_filter_contains_rev(keep, kept[i]);
        lemma_pair_of_component(kept[i]);
    }
    match r {
        Ok(split) => {
            assert(sas::sas_well_formed(decoded));
            assert(sas::pairs_view(split@).len() == kept.len());
            assert forall|i: int| 0 <= i < kept.len() implies is_pair_of(
                (#[trigger] split@[i]).0@,
                split@[i].1@,
                kept[i],
            ) by {
                assert(sas::sas_pair(sas::sas_components(decoded)[i]) is Some);
                assert(sas::pairs_view(split@)[i] == (split@[i].0@, split@[i].1@));
            }
        },
        Err(_) => {
            assert(!sas::sas_well_formed(decoded));
            let i = choose|i: int|
                0 <= i < kept.len() && sas::sas_pair(#[trigger] sas::sas_components(decoded)[i])
                    is None;
            assert(pieces.contains(kept[i]));
            let k = choose|k: int| 0 <= k < pieces.len() && pieces[k] == kept[i];
            assert(!text::is_blank(pieces[k]) && !pieces[k].contains('='));
        },
    }
}

/// Whatever it is made of, a signature that is decoded already splits into the pair of each of its
/// components that is not blank, in their order, and is refused exactly where one of them has no
/// `=`.
pub proof fn law_decoded_signature_is_read_by_component(
    decoded: &str,
    marks: nat,
    pieces: Seq<Seq<char>>,
    r: DeltaResult<Vec<(String, String)>>,
)
    requires
        is_made_of(decoded@, marks, pieces),
        call_ensures(sas::split_decoded_sas, (decoded,), r),
    ensures
        reads_pieces(r, pieces),
        r is Ok <==> forall|k: int|
            0 <= k < pieces.len() ==> text::is_blank(#[trigger] pieces[k]) || pieces[k].contains(
                '=',
            ),
{
    lemma_reads_pieces(decoded@, marks, pieces, r);
    lemma_kept_pieces_have_pairs(pieces, r);
}

proof fn lemma_kept_pieces_have_pairs(
    pieces: Seq<Seq<char>>,
    r: DeltaResult<Vec<(String, String)>>,
)
    requires
        reads_pieces(r, pieces),
    ensures
        r is Ok <==> forall|k: int|
            0 <= k < pieces.len() ==> text::is_blank(#[trigger] pieces[k]) || pieces[k].contains(
                '=',
            ),
{
    let keep = |piece: Seq<char>| !text::is_blank(piece);
    let kept = pieces.filter(keep);
    if let Ok(split) = r {
        assert forall|k: int| 0 <= k < pieces.len() implies text::is_blank(#[trigger] pieces[k])
            || pieces[k].contains('=') by {
            if keep(pieces[k]) {
                pieces.lemma_filter_contains(keep, k);
                let i = choose|i: int| 0 <= i < kept.len() && kept[i] == pieces[k];
                let key = split@[i].0@;
                let value = split@[i].1@;
                assert(is_pair_of(key, value, kept[i]));
                let (left, right) = choose|left: Seq<char>, right: Seq<char>|
                    text::is_blank(left) && text::is_blank(right) && kept[i] == #[trigger] (left
                        + component_of((key, value)) + right);
                assert(kept[i][left.len() as int + key.len()] == '=');
            }
        }
    }
}

/// Whatever its escapes are, a signature is read by its percent-decoded text: it splits into the
/// pair of each component of that text that is not blank, in their order, and is refused exactly
/// where one of them has no `=`.
pub proof fn law_signature_is_read_by_component(
    signature: &str,
    decoded: Seq<char>,
    marks: nat,
    pieces: Seq<Seq<char>>,
    r: DeltaResult<Vec<(String, String)>>,
)
    requires
        encode_utf8(decoded) == sas::percent_decoded(encode_utf8(signature@)),
        is_made_of(decoded, marks, pieces),
        call_ensures(sas::split_sas, (signature,), r),
    ensures
        reads_pieces(r, pieces),
        r is Ok <==> forall|k: int|
            0 <= k < pieces.len() ==> text::is_blank(#[trigger] pieces[k]) || pieces[k].contains(
                '=',
            ),
{
    encode_utf8_valid_utf8(decoded);
    encode_utf8_decode_utf8(decoded);
    lemma_reads_pieces(decoded, marks, pieces, r);
    lemma_kept_pieces_have_pairs(pieces, r);
}

proof fn lemma_split_pieces(s: Seq<char>, sep: char)
    ensures
        forall|k: int|
            0 <= k < text::split_on(s, sep).len() ==> !(#[trigger] text::split_on(
                s,
                sep,
            )[k]).contains(sep),
    decreases s.len(),
{
    text::lemma_position(s, sep);
    let i = text::position(s, sep);
    let pieces = text::split_on(s, sep);
    if i < s.len() {
        let rest = s.skip(i + 1);
        lemma_split_pieces(rest, sep);
        assert forall|k: int| 0 <= k < pieces.len() implies !(#[trigger] pieces[k]).contains(
            sep,
        ) by {
            if k > 0 {
                assert(pieces[k] == text::split_on(rest, sep)[k - 1]);
            } else {
                assert(pieces[0] == s.take(i));
            }
        }
    } else {
        assert(pieces[0] == s);
    }
}

proof fn lemma_leading(s: Seq<char>) -> (marks: nat)
    ensures
        s == question_marks(marks) + text::without_leading(s, '?'),
        text::without_leading(s, '?').len() > 0 ==> text::without_leading(s, '?')[0] != '?',
    decreases s.len(),
{
    if s.len() > 0 && s[0] == '?' {
        let fewer = lemma_leading(s.drop_first());
        let marks = fewer + 1;
        assert(s =~= seq!['?'] + s.drop_first());
        assert(question_marks(marks) =~= seq!['?'] + question_marks(fewer));
        assert(s =~= question_marks(marks) + text::without_leading(s, '?'));
        marks
    } else {
        assert(s =~= question_marks(0) + s);
        0
    }
}

/// Every text is made of some `?`s and components.
pub proof fn law_every_text_has_components(decoded: Seq<char>)
    ensures
        exists|marks: nat, pieces: Seq<Seq<char>>| #[trigger] is_made_of(decoded, marks, pieces),
{
    let marks = lemma_leading(decoded);
    let body = text::without_leading(decoded, '?');
    let pieces = text::split_on(body, '&');
    text::law_join_undoes_split(body, '&');
    lemma_split_pieces(body, '&');
    if pieces[0].len() > 0 {
        assert(body[0] == pieces[0][0]) by {
            if pieces.len() == 1 {
                assert(body == pieces[0]);
            }
        }
    }
    assert(is_made_of(decoded, marks, pieces));
}

/// Splitting undoes spelling, whatever escapes the signature uses: where its percent-decoded text
/// spells `pairs`, it splits into exactly these pairs, in their order.
pub proof fn law_split_gives_the_pairs_that_are_spelled(
    signature: &str,
    pairs: Seq<(Seq<char>, Seq<char>)>,
    r: DeltaResult<Vec<(String, String)>>,
)
    requires
        encode_utf8(signature_of(pairs)) == sas::percent_decoded(encode_utf8(signature@)),
        forall|i: int| 0 <= i < pairs.len() ==> is_spellable(#[trigger] pairs[i]),
        pairs.len() > 0 ==> component_of(pairs[0])[0] != '?',
        call_ensures(sas::split_sas, (signature,), r),
    ensures
        r matches Ok(split) && holds_pairs(split@, pairs),
{
    let decoded = signature_of(pairs);
    encode_utf8_valid_utf8(decoded);
    encode_utf8_decode_utf8(decoded);
    lemma_spelled_text(pairs);
    if let Ok(split) = r {
        assert forall|i: int| 0 <= i < pairs.len() implies (#[trigger] split@[i]).0@ == pairs[i].0
            && split@[i].1@ == pairs[i].1 by {
            assert(sas::pairs_view(split@)[i] == (split@[i].0@, split@[i].1@));
        }
        assert(sas::pairs_view(split@).len() == split@.len());
    }
}

/// Whether two results of splitting are the same: the same pairs, or errors that read the same.
pub open spec fn is_same_split(
    first: DeltaResult<Vec<(String, String)>>,
    second: DeltaResult<Vec<(String, String)>>,
) -> bool {
    match (first, second) {
        (Ok(left), Ok(right)) => {
            &&& left@.len() == right@.len()
            &&& forall|i: int|
                0 <= i < left@.len() ==> (#[trigger] left@[i]).0@ == right@[i].0@ && left@[i].1@
                    == right@[i].1@
        },
        (Err(DeltaError::Generic(left)), Err(DeltaError::Generic(right))) => left@ == right@,
        _ => false,
    }
}

/// A signature is read through its percent-decoded bytes alone: two signatures that decode to the
/// same bytes split alike.
pub proof fn law_equal_bytes_split_alike(
    first: &str,
    second: &str,
    left: DeltaResult<Vec<(String, String)>>,
    right: DeltaResult<Vec<(String, String)>>,
)
    requires
        sas::percent_decoded(encode_utf8(first@)) == sas::percent_decoded(encode_utf8(second@)),
        call_ensures(sas::split_sas, (first,), left),
        call_ensures(sas::split_sas, (second,), right),
    ensures
        is_same_split(left, right),
{
    if let (Ok(a), Ok(b)) = (left, right) {
        assert(sas::pairs_view(a@).len() == a@.len());
        assert(sas::pairs_view(b@).len() == b@.len());
        assert forall|i: int| 0 <= i < a@.len() implies (#[trigger] a@[i]).0@ == b@[i].0@
            && a@[i].1@ == b@[i].1@ by {
            assert(sas::pairs_view(a@)[i] == (a@[i].0@, a@[i].1@));
            assert(sas::pairs_view(b@)[i] == (b@[i].0@, b@[i].1@));
        }
    }
}

/// Splitting a signature is splitting the text that it decodes to.
pub proof fn law_signature_splits_as_its_decoded_text(
    signature: &str,
    decoded: &str,
    whole: DeltaResult<Vec<(String, String)>>,
    r: DeltaResult<Vec<(String, String)>>,
)
    requires
        encode_utf8(decoded@) == sas::percent_decoded(encode_utf8(signature@)),
        call_ensures(sas::split_sas, (signature,), whole),
        call_ensures(sas::split_decoded_sas, (decoded,), r),
    ensures
        is_same_split(whole, r),
{
    encode_utf8_valid_utf8(decoded@);
    encode_utf8_decode_utf8(decoded@);
    if let (Ok(a), Ok(b)) = (whole, r) {
        assert(sas::pairs_view(a@).len() == a@.len());
        assert(sas::pairs_view(b@).len() == b@.len());
        assert forall|i: int| 0 <= i < a@.len() implies (#[trigger] a@[i]).0@ == b@[i].0@
            && a@[i].1@ == b@[i].1@ by {
            assert(sas::pairs_view(a@)[i] == (a@[i].0@, a@[i].1@));
            assert(sas::pairs_view(b@)[i] == (b@[i].0@, b@[i].1@));
        }
    }
}

/// A signature whose percent-decoded bytes are not UTF-8 is refused, and the error says so and why.
pub proof fn law_bytes_that_are_no_text_are_refused(
    signature: &str,
    r: DeltaResult<Vec<(String, String)>>,
)
    requires
        !valid_utf8(sas::percent_decoded(encode_utf8(signature@))),
        call_ensures(sas::split_sas, (signature,), r),
    ensures
        r matches Err(DeltaError::Generic(message)) && message@
            == "shared access signature is not utf-8: "@ + sas::utf8_error_text(
            sas::percent_decoded(encode_utf8(signature@)),
        ),
{
}

/// The code of the hexadecimal digit of `value`, as a capital or a small letter where it is one.
pub open spec fn hex_code(value: int, capital: bool) -> u8 {
    if value < 10 {
        (0x30 + value) as u8
    } else if capital {
        (0x41 + value - 10) as u8
    } else {
        (0x61 + value - 10) as u8
    }
}

/// The escape of `byte`: a `%` and its two hexadecimal digits.
pub open spec fn escape_of(byte: u8, capital: bool) -> Seq<u8> {
    seq![0x25u8, hex_code(byte as int / 16, capital), hex_code(byte as int % 16, capital)]
}

proof fn lemma_escape(byte: u8, capital: bool, after: Seq<u8>)
    ensures
        sas::percent_decoded(escape_of(byte, capital) + after) == seq![byte]
            + sas::percent_decoded(after),
{
    let code = escape_of(byte, capital);
    let tail = code + after;
    let high = byte as int / 16;
    let low = byte as int % 16;
    assert(0 <= high < 16 && 0 <= low < 16 && high * 16 + low == byte);
    assert(tail[0] == code[0] && tail[1] == code[1] && tail[2] == code[2]);
    assert(sas::hex_value(code[1]) == high && sas::hex_value(code[2]) == low);
    assert(tail.skip(3) =~= after);
}

/// The escape of a byte, with digits of either case, becomes that byte wherever it stands.
pub proof fn law_escape_is_decoded(before: Seq<u8>, byte: u8, capital: bool, after: Seq<u8>)
    ensures
        sas::percent_decoded(before + escape_of(byte, capital) + after) == sas::percent_decoded(
            before,
        ).push(byte) + sas::percent_decoded(after),
{
    let code = escape_of(byte, capital);
    assert(before + code + after =~= before + (code + after));
    lemma_percent_decoded_append(before, code + after);
    lemma_escape(byte, capital, after);
    assert(sas::percent_decoded(before) + (seq![byte] + sas::percent_decoded(after))
        =~= sas::percent_decoded(before).push(byte) + sas::percent_decoded(after));
}

/// `bytes` with the bytes that are `chosen` replaced by their escapes.
pub open spec fn escaped(bytes: Seq<u8>, chosen: spec_fn(u8) -> bool, capital: bool) -> Seq<u8>
    decreases bytes.len(),
{
    if bytes.len() == 0 {
        Seq::empty()
    } else if chosen(bytes[0]) {
        escape_of(bytes[0], capital) + escaped(bytes.drop_first(), chosen, capital)
    } else {
        seq![bytes[0]] + escaped(bytes.drop_first(), chosen, capital)
    }
}

/// Percent-decoding undoes escaping, whichever bytes are escaped, if `%` is among them.
pub proof fn law_decoding_undoes_escaping(
    bytes: Seq<u8>,
    chosen: spec_fn(u8) -> bool,
    capital: bool,
)
    requires
        chosen(0x25),
    ensures
        sas::percent_decoded(escaped(bytes, chosen, capital)) == bytes,
    decreases bytes.len(),
{
    if bytes.len() > 0 {
        let rest = escaped(bytes.drop_first(), chosen, capital);
        law_decoding_undoes_escaping(bytes.drop_first(), chosen, capital);
        assert(bytes =~= seq![bytes[0]] + bytes.drop_first());
        if chosen(bytes[0]) {
            lemma_escape(bytes[0], capital, rest);
        } else {
            let whole = seq![bytes[0]] + rest;
            assert(whole.skip(1) =~= rest);
        }
    }
}

/// Escaping costs a signature nothing: where `pairs` are spelled and whichever bytes then escaped,
/// `%` among them, splitting gives exactly these pairs, in their order.
pub proof fn law_escaped_signature_splits_into_its_pairs(
    signature: &str,
    pairs: Seq<(Seq<char>, Seq<char>)>,
    chosen: spec_fn(u8) -> bool,
    capital: bool,
    r: DeltaResult<Vec<(String, String)>>,
)
    requires
        chosen(0x25),
        encode_utf8(signature@) == escaped(encode_utf8(signature_of(pairs)), chosen, capital),
        forall|i: int| 0 <= i < pairs.len() ==> is_spellable(#[trigger] pairs[i]),
        pairs.len() > 0 ==> component_of(pairs[0])[0] != '?',
        call_ensures(sas::split_sas, (signature,), r),
    ensures
        r matches Ok(split) && holds_pairs(split@, pairs),
{
    law_decoding_undoes_escaping(encode_utf8(signature_of(pairs)), chosen, capital);
    law_split_gives_the_pairs_that_are_spelled(signature, pairs, r);
}

/// Whether `byte` is the code of a hexadecimal digit.
pub open spec fn is_hex_code(byte: u8) -> bool {
    exists|value: int, capital: bool| 0 <= value < 16 && #[trigger] hex_code(value, capital) == byte
}

/// A `%` that two hexadecimal digits do not follow stays, wherever it stands.
pub proof fn law_lone_percent_is_kept(before: Seq<u8>, after: Seq<u8>)
    requires
        after.len() < 2 || !is_hex_code(after[0]) || !is_hex_code(after[1]),
    ensures
        sas::percent_decoded(before.push(0x25) + after) == sas::percent_decoded(before).push(0x25)
            + sas::percent_decoded(after),
{
    let tail = seq![0x25u8] + after;
    assert forall|byte: u8| sas::is_hex_digit(byte) implies #[trigger] is_hex_code(byte) by {
        if byte <= 0x39 {
            assert(hex_code(byte - 0x30, true) == byte);
        } else if byte <= 0x46 {
            assert(hex_code(byte - 0x41 + 10, true) == byte);
        } else {
            assert(hex_code(byte - 0x61 + 10, false) == byte);
        }
    }
    assert(before.push(0x25) + after =~= before + tail);
    lemma_percent_decoded_append(before, tail);
    assert(tail.skip(1) =~= after);
    if after.len() >= 2 {
        assert(tail[1] == after[0] && tail[2] == after[1]);
    }
    assert(sas::percent_decoded(before) + (seq![0x25u8] + sas::percent_decoded(after))
        =~= sas::percent_decoded(before).push(0x25) + sas::percent_decoded(after));
}

/// A byte in front that is not a `%` stays as it is.
pub proof fn law_plain_byte_is_kept(byte: u8, after: Seq<u8>)
    requires
        byte != 0x25,
    ensures
        sas::percent_decoded(seq![byte] + after) == seq![byte] + sas::percent_decoded(after),
{
    assert((seq![byte] + after).skip(1) =~= after);
}

/// Blank is what holds white space alone.
pub proof fn law_blank_is_white_space_alone(s: Seq<char>)
    ensures
        text::is_blank(s) <==> !exists|i: int|
            0 <= i < s.len() && !text::is_white_space(#[trigger] s[i]),
{
}

/// Joining puts the separator between each piece and the next, and nothing else anywhere.
pub proof fn law_join_puts_the_separator_between(
    pieces: Seq<Seq<char>>,
    piece: Seq<char>,
    sep: char,
)
    ensures
        text::join(pieces.push(piece), sep) == if pieces.len() == 0 {
            piece
        } else {
            text::join(pieces, sep).push(sep) + piece
        },
    decreases pieces.len(),
{
    let longer = pieces.push(piece);
    if pieces.len() > 0 {
        let rest = pieces.drop_first();
        law_join_puts_the_separator_between(rest, piece, sep);
        assert(longer.drop_first() =~= rest.push(piece));
        assert(longer[0] == pieces[0]);
        if pieces.len() == 1 {
            assert(rest.push(piece) =~= seq![piece]);
            assert(text::join(seq![piece], sep) == piece);
        } else {
            assert(text::join(longer, sep) =~= text::join(pieces, sep).push(sep) + piece);
        }
    }
}

} // verus!
