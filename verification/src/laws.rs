use crate::catalog::lemma_rule_of_wf;
use crate::catalog::rule_of;
use crate::catalog::rule_wf;
use crate::catalog::spec_id_from_byte;
use crate::catalog::DecodeRule;
use crate::decode::lemma_decode_consumed;
use crate::decode::spec_decode_value;
use crate::decode::ObjectModel;
use crate::parse::spec_parse;
use crate::parse::spec_parse_objects;
use crate::parse::ServiceDataModel;
use crate::types::Error;
use vstd::prelude::*;

verus! {

/// A value decode reads nothing past the bytes it consumes: another byte
/// string with the same consumed prefix, and at least that many bytes,
/// decodes to the same value.
proof fn lemma_decode_value_prefix(rule: DecodeRule, rest1: Seq<u8>, rest2: Seq<u8>)
    requires
        spec_decode_value(rule, rest1) is Ok,
        spec_decode_value(rule, rest1)->Ok_0.1 <= rest2.len(),
        rest2.take(spec_decode_value(rule, rest1)->Ok_0.1 as int) == rest1.take(
            spec_decode_value(rule, rest1)->Ok_0.1 as int,
        ),
    ensures
        spec_decode_value(rule, rest2) == spec_decode_value(rule, rest1),
{
    let n = spec_decode_value(rule, rest1)->Ok_0.1 as int;
    assert forall|i: int| 0 <= i < n implies rest2[i] == rest1[i] by {
        assert(rest2.take(n)[i] == rest1.take(n)[i]);
    }
    match rule {
        DecodeRule::Unsigned(w) => {
            assert(rest2.take(w as int) =~= rest1.take(w as int));
        },
        DecodeRule::Signed(w) => {
            assert(rest2.take(w as int) =~= rest1.take(w as int));
        },
        DecodeRule::ScaledUnsigned(w, _f) => {
            assert(rest2.take(w as int) =~= rest1.take(w as int));
        },
        DecodeRule::ScaledSigned(w, _f) => {
            assert(rest2.take(w as int) =~= rest1.take(w as int));
        },
        DecodeRule::Flag => {},
        DecodeRule::RawBytes => {
            assert(rest2.subrange(1, 1 + rest2[0] as int) =~= rest1.subrange(
                1,
                1 + rest1[0] as int,
            ));
        },
        DecodeRule::Utf8Text => {
            assert(rest2.subrange(1, 1 + rest2[0] as int) =~= rest1.subrange(
                1,
                1 + rest1[0] as int,
            ));
        },
        DecodeRule::Button => {},
        DecodeRule::Dimmer => {},
    }
}

/// A value that decoded by consuming every byte it was given no longer
/// decodes when its last byte is cut off: it is a truncation error.
proof fn lemma_decode_value_truncated(rule: DecodeRule, rest: Seq<u8>)
    requires
        rule_wf(rule),
        spec_decode_value(rule, rest) is Ok,
        spec_decode_value(rule, rest)->Ok_0.1 == rest.len(),
    ensures
        spec_decode_value(rule, rest.take(rest.len() - 1)) == Err::<(
            crate::types::ValueModel,
            nat,
        ), Error>(Error::Truncation),
{
    lemma_decode_consumed(rule, rest);
    let t = rest.take(rest.len() - 1);
    match rule {
        DecodeRule::RawBytes => {
            if t.len() > 0 {
                assert(t[0] == rest[0]);
            }
        },
        DecodeRule::Utf8Text => {
            if t.len() > 0 {
                assert(t[0] == rest[0]);
            }
        },
        _ => {},
    }
}

/// Truncating an object stream that decodes by one byte from the end
/// always turns it into a truncation error, never into a successful parse
/// of a shorter stream: earlier objects are unchanged, and the last loses
/// a byte it needs.
proof fn lemma_parse_objects_truncated(bytes: Seq<u8>)
    requires
        spec_parse_objects(bytes) is Ok,
        bytes.len() > 0,
    ensures
        spec_parse_objects(bytes.take(bytes.len() - 1)) == Err::<Seq<ObjectModel>, Error>(
            Error::Truncation,
        ),
    decreases bytes.len(),
{
    let id = spec_id_from_byte(bytes[0])->0;
    let rule = rule_of(id);
    lemma_rule_of_wf(id);
    let rest = bytes.skip(1);
    let p = spec_decode_value(rule, rest)->Ok_0;
    lemma_decode_consumed(rule, rest);
    let t = bytes.take(bytes.len() - 1);
    assert(t.len() == bytes.len() - 1);
    assert(t[0] == bytes[0]);
    let trest = t.skip(1);
    assert(trest =~= rest.take(rest.len() - 1));
    if 1 + p.1 == bytes.len() {
        lemma_decode_value_truncated(rule, rest);
    } else {
        assert(p.1 < rest.len());
        assert(trest.take(p.1 as int) =~= rest.take(p.1 as int));
        lemma_decode_value_prefix(rule, rest, trest);
        let tailbytes = bytes.skip(1 + p.1 as int);
        assert(spec_parse_objects(tailbytes) is Ok);
        assert(tailbytes.len() > 0);
        lemma_parse_objects_truncated(tailbytes);
        assert(t.skip(1 + p.1 as int) =~= tailbytes.take(tailbytes.len() - 1));
    }
}

/// A payload of a header byte and exactly one object -- an identifier byte
/// of the catalog followed by value bytes of exactly the width its rule
/// consumes, which decode -- parses to that one object under that header.
pub proof fn lemma_single_object_payload(header: u8, id_byte: u8, value: Seq<u8>)
    requires
        spec_id_from_byte(id_byte) is Some,
        spec_decode_value(rule_of(spec_id_from_byte(id_byte)->0), value) is Ok,
        spec_decode_value(rule_of(spec_id_from_byte(id_byte)->0), value)->Ok_0.1 == value.len(),
    ensures
        spec_parse(seq![header, id_byte] + value) == Ok::<ServiceDataModel, Error>(
            ServiceDataModel {
                encrypted: header & 0x01 == 1,
                trigger_based: header & 0x04 == 0x04,
                version: header >> 5,
                objects: seq![
                    ObjectModel {
                        object_id: spec_id_from_byte(id_byte)->0,
                        value: spec_decode_value(
                            rule_of(spec_id_from_byte(id_byte)->0),
                            value,
                        )->Ok_0.0,
                    },
                ],
            },
        ),
{
    let id = spec_id_from_byte(id_byte)->0;
    let p = spec_decode_value(rule_of(id), value)->Ok_0;
    let b = seq![header, id_byte] + value;
    assert(b.len() == 2 + value.len());
    assert(b[0] == header);
    let objs = b.skip(1);
    assert(objs[0] == id_byte);
    assert(objs.skip(1) =~= value);
    assert(objs.skip(1 + p.1 as int) =~= Seq::<u8>::empty());
    assert(spec_parse_objects(Seq::<u8>::empty()) == Ok::<Seq<ObjectModel>, Error>(Seq::empty()));
    assert(spec_decode_value(rule_of(id), objs.skip(1)) == spec_decode_value(rule_of(id), value));
    let om = ObjectModel { object_id: id, value: p.0 };
    assert(seq![om] + Seq::<ObjectModel>::empty() =~= seq![om]);
    assert(spec_parse_objects(objs) == Ok::<Seq<ObjectModel>, Error>(seq![om]));
}

/// Truncating any payload that parses by one byte from the end always
/// yields a truncation error, never a successful parse of a shorter
/// payload.
pub proof fn lemma_truncated_payload(bytes: Seq<u8>)
    requires
        spec_parse(bytes) is Ok,
    ensures
        spec_parse(bytes.take(bytes.len() - 1)) == Err::<ServiceDataModel, Error>(
            Error::Truncation,
        ),
{
    let t = bytes.take(bytes.len() - 1);
    if bytes.len() == 1 {
        assert(t.len() == 0);
    } else {
        assert(t[0] == bytes[0]);
        let rest = bytes.skip(1);
        assert(rest.len() > 0);
        lemma_parse_objects_truncated(rest);
        assert(t.skip(1) =~= rest.take(rest.len() - 1));
    }
}

/// An identifier byte outside the catalog always aborts the parse with
/// `UnknownIdentifier`, naming that byte, even if enough trailing bytes
/// would exist to look like further records.
pub proof fn lemma_unknown_identifier(bytes: Seq<u8>)
    requires
        bytes.len() >= 2,
        spec_id_from_byte(bytes[1]) is None,
    ensures
        spec_parse(bytes) == Err::<ServiceDataModel, Error>(Error::UnknownIdentifier(bytes[1])),
{
    assert(bytes.skip(1)[0] == bytes[1]);
}

/// Decoding is deterministic and side-effect-free: the result of
/// `parse_service_data` is pinned by its contract to `spec_parse` of the
/// input bytes alone, so identical bytes always decode to equal results.
pub proof fn lemma_parse_deterministic(b1: Seq<u8>, b2: Seq<u8>)
    requires
        b1 == b2,
    ensures
        spec_parse(b1) == spec_parse(b2),
{
}

/// Empty input lacks the mandatory header byte and is a truncation error.
pub proof fn lemma_empty_input()
    ensures
        spec_parse(Seq::<u8>::empty()) == Err::<ServiceDataModel, Error>(Error::Truncation),
{
}

/// A payload of only a header byte is valid and carries no objects.
pub proof fn lemma_header_only(header: u8)
    ensures
        spec_parse(seq![header]) == Ok::<ServiceDataModel, Error>(
            ServiceDataModel {
                encrypted: header & 0x01 == 1,
                trigger_based: header & 0x04 == 0x04,
                version: header >> 5,
                objects: Seq::empty(),
            },
        ),
{
    assert(seq![header].skip(1) =~= Seq::<u8>::empty());
    assert(seq![header][0] == header);
}

} // verus!
