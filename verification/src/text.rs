use vstd::prelude::*;
use vstd::utf8::{valid_utf8, decode_utf8, encode_utf8};

verus! {

/// The outcome of one decode call: textual when every recovered payload is
/// valid UTF-8, binary otherwise.
#[derive(Debug, Clone, PartialEq, Eq)]
pub enum QrOutput {
    Text { text: String },
    Binary { bytes: Vec<u8> },
}

/// The parts joined with the separator between consecutive parts, with no
/// leading or trailing separator.
pub open spec fn join_sep(parts: Seq<Seq<char>>, sep: Seq<char>) -> Seq<char>
    decreases parts.len(),
{
    if parts.len() == 0 {
        Seq::empty()
    } else if parts.len() == 1 {
        parts[0]
    } else {
        join_sep(parts.drop_last(), sep) + sep + parts.last()
    }
}

/// Whether every payload in the sequence is valid UTF-8.
pub open spec fn all_utf8(payloads: Seq<Seq<u8>>) -> bool {
    forall|i: int| 0 <= i < payloads.len() ==> valid_utf8(#[trigger] payloads[i])
}

/// The text an all-UTF-8 sequence of payloads aggregates to: each payload
/// decoded, the pieces joined with a single newline.
pub open spec fn joined_text(payloads: Seq<Seq<u8>>) -> Seq<char> {
    join_sep(payloads.map_values(|p: Seq<u8>| decode_utf8(p)), "\n"@)
}

/// The raw concatenation of the payloads in order, with no delimiter.
pub open spec fn concat_payloads(payloads: Seq<Seq<u8>>) -> Seq<u8>
    decreases payloads.len(),
{
    if payloads.len() == 0 {
        Seq::empty()
    } else {
        concat_payloads(payloads.drop_last()) + payloads.last()
    }
}

/// Relies on `String::from_utf8`: it returns the string holding exactly the
/// given bytes when they are valid UTF-8, and an error otherwise.
#[verifier::external_body]
fn utf8_to_string(bytes: &Vec<u8>) -> (r: Option<String>)
    ensures
        r is Some <==> valid_utf8(bytes@),
        r is Some ==> r->0@ == decode_utf8(bytes@),
{
    match String::from_utf8(bytes.clone()) {
        Ok(s) => Some(s),
        Err(_) => None,
    }
}

/// Joins the strings with the separator between consecutive entries.
pub fn join_with(parts: &Vec<String>, sep: &str) -> (r: String)
    ensures
        r@ == join_sep(parts.deep_view(), sep@),
{
    let mut out = String::new();
    let n = parts.len();
    for i in 0..n
        invariant
            n == parts@.len(),
            out@ == join_sep(parts.deep_view().take(i as int), sep@),
    {
        if i > 0 {
            out.append(sep);
        }
        out.append(parts[i].as_str());
        proof {
            let dv = parts.deep_view();
            assert(dv.take(i + 1).drop_last() =~= dv.take(i as int));
            assert(dv.take(i + 1).last() == dv[i as int]);
            if i == 0 {
                assert(join_sep(dv.take(1), sep@) == dv[0]);
            }
        }
    }
    proof {
        assert(parts.deep_view().take(n as int) =~= parts.deep_view());
    }
    out
}

/// Concatenates the payload byte sequences in order.
fn concat_bytes(payloads: &Vec<Vec<u8>>) -> (r: Vec<u8>)
    ensures
        r@ == concat_payloads(payloads.deep_view()),
{
    let mut out: Vec<u8> = Vec::new();
    let n = payloads.len();
    for i in 0..n
        invariant
            n == payloads@.len(),
            out@ == concat_payloads(payloads.deep_view().take(i as int)),
    {
        let p = &payloads[i];
        let m = p.len();
        for j in 0..m
            invariant
                n == payloads@.len(),
                i < n,
                m == p@.len(),
                p == payloads@[i as int],
                out@ == concat_payloads(payloads.deep_view().take(i as int)) + p@.take(j as int),
        {
            out.push(p[j]);
            assert(p@.take(j + 1) =~= p@.take(j as int).push(p@[j as int]));
        }
        proof {
            let dv = payloads.deep_view();
            assert(dv.take(i + 1).drop_last() =~= dv.take(i as int));
            assert(dv.take(i + 1).last() == dv[i as int]);
            assert(dv[i as int] == p@);
            assert(p@.take(m as int) =~= p@);
        }
    }
    proof {
        assert(payloads.deep_view().take(n as int) =~= payloads.deep_view());
    }
    out
}

/// Classifies and aggregates the successfully decoded payloads of one call:
/// if and only if every payload is valid UTF-8, the result is the decoded
/// strings joined with single newlines; otherwise it is the raw
/// concatenation of all payloads in order. No payloads at all therefore
/// aggregate to empty text.
pub fn aggregate(payloads: &Vec<Vec<u8>>) -> (r: QrOutput)
    ensures
        all_utf8(payloads.deep_view()) ==> (r matches QrOutput::Text { text }
            && text@ == joined_text(payloads.deep_view())),
        !all_utf8(payloads.deep_view()) ==> (r matches QrOutput::Binary { bytes }
            && bytes@ == concat_payloads(payloads.deep_view())),
{
    let mut strings: Vec<String> = Vec::new();
    let mut all_ok = true;
    let n = payloads.len();
    for i in 0..n
        invariant
            n == payloads@.len(),
            all_ok ==> {
                &&& strings@.len() == i
                &&& forall|j: int| 0 <= j < i ==> valid_utf8(#[trigger] payloads.deep_view()[j])
                &&& forall|j: int| 0 <= j < i ==> strings@[j]@ == decode_utf8(
                    payloads.deep_view()[j],
                )
            },
            !all_ok ==> !all_utf8(payloads.deep_view()),
    {
        if all_ok {
            proof {
                assert(payloads.deep_view()[i as int] =~= payloads@[i as int]@);
            }
            match utf8_to_string(&payloads[i]) {
                Option::Some(s) => {
                    strings.push(s);
                },
                Option::None => {
                    all_ok = false;
                    assert(!valid_utf8(payloads.deep_view()[i as int]));
                },
            }
        }
    }
    if all_ok {
        proof {
            assert forall|j: int| 0 <= j < strings@.len() implies strings.deep_view()[j]
                == strings@[j]@ by {
                assert(strings@[j].deep_view() == strings@[j]@);
            }
            assert(strings.deep_view() =~= payloads.deep_view().map_values(
                |p: Seq<u8>| decode_utf8(p),
            ));
        }
        QrOutput::Text { text: join_with(&strings, "\n") }
    } else {
        QrOutput::Binary { bytes: concat_bytes(payloads) }
    }
}

/// Decoding one symbol whose payload is the UTF-8 encoding of `chars`
/// aggregates to exactly that text: the payload is valid UTF-8 and the
/// single-entry join is the decoded character sequence itself.
pub proof fn lemma_round_trip_single(chars: Seq<char>)
    ensures
        valid_utf8(encode_utf8(chars)),
        all_utf8(seq![encode_utf8(chars)]),
        joined_text(seq![encode_utf8(chars)]) == chars,
{
    broadcast use vstd::utf8::encode_utf8_valid_utf8;
    broadcast use vstd::utf8::encode_utf8_decode_utf8;

    let ps = seq![encode_utf8(chars)];
    assert(ps.map_values(|p: Seq<u8>| decode_utf8(p)).len() == 1);
    assert(joined_text(ps) == decode_utf8(encode_utf8(chars)));
}

/// Two UTF-8 payloads aggregate to the first text, one newline, then the
/// second text, in candidate order.
pub proof fn lemma_two_payload_join(a: Seq<u8>, b: Seq<u8>)
    requires
        valid_utf8(a),
        valid_utf8(b),
    ensures
        all_utf8(seq![a, b]),
        joined_text(seq![a, b]) == decode_utf8(a) + "\n"@ + decode_utf8(b),
{
    let mapped = seq![a, b].map_values(|p: Seq<u8>| decode_utf8(p));
    assert(mapped.len() == 2);
    assert(mapped.drop_last() =~= seq![decode_utf8(a)]);
    assert(mapped.last() == decode_utf8(b));
    assert(join_sep(mapped.drop_last(), "\n"@) == mapped.drop_last()[0]);
    assert(mapped.drop_last()[0] == decode_utf8(a));
}

/// When any payload is not valid UTF-8, the pair aggregates to the raw
/// concatenation of both payloads in order, with no delimiter.
pub proof fn lemma_mixed_pair_concat(a: Seq<u8>, b: Seq<u8>)
    requires
        !valid_utf8(a) || !valid_utf8(b),
    ensures
        !all_utf8(seq![a, b]),
        concat_payloads(seq![a, b]) == a + b,
{
    let ps = seq![a, b];
    if !valid_utf8(a) {
        assert(!valid_utf8(ps[0]));
    } else {
        assert(!valid_utf8(ps[1]));
    }
    assert(ps.last() == b);
    assert(concat_payloads(ps) == concat_payloads(ps.drop_last()) + b);
    assert(ps.drop_last() =~= seq![a]);
    assert(seq![a].drop_last() =~= Seq::<Seq<u8>>::empty());
    assert(concat_payloads(Seq::<Seq<u8>>::empty()) == Seq::<u8>::empty());
    assert(seq![a].last() == a);
    assert(concat_payloads(seq![a]) == Seq::<u8>::empty() + a);
    assert(Seq::<u8>::empty() + a =~= a);
    assert(concat_payloads(ps) == a + b);
}

/// An empty sequence of payloads aggregates to empty text: every entry of
/// the empty sequence is vacuously valid UTF-8, and the empty join is the
/// empty character sequence.
pub proof fn lemma_empty_aggregate()
    ensures
        all_utf8(Seq::<Seq<u8>>::empty()),
        joined_text(Seq::<Seq<u8>>::empty()) == Seq::<char>::empty(),
{
    assert(Seq::<Seq<u8>>::empty().map_values(|p: Seq<u8>| decode_utf8(p)).len() == 0);
}

} // verus!
