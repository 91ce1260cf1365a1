use crate::catalog::DecodeRule;
use crate::catalog::ObjectId;
use crate::types::spec_button_from_byte;
use crate::types::spec_dimmer_from_byte;
use crate::types::ButtonEvent;
use crate::types::DimmerEvent;
use crate::types::Error;
use crate::types::ObjectValue;
use crate::types::ScaledValue;
use crate::types::ValueModel;
use crate::wire::le_signed;
use crate::wire::le_value;
use crate::wire::lemma_le_value_bound;
use crate::wire::lemma_pow256_mono;
use crate::wire::lemma_pow256_values;
use crate::wire::lemma_subrange_is_skip_take;
use crate::wire::read_le_signed;
use crate::wire::read_le_unsigned;
use vstd::prelude::*;
use vstd::utf8::decode_utf8;
use vstd::utf8::valid_utf8;

verus! {

/// One decoded `[identifier, value]` record of a payload.
#[derive(Debug)]
pub struct Object {
    pub object_id: ObjectId,
    pub value: ObjectValue,
}

/// The mathematical model of an `Object`.
#[verifier::ext_equal]
pub struct ObjectModel {
    pub object_id: ObjectId,
    pub value: ValueModel,
}

impl View for Object {
    type V = ObjectModel;

    open spec fn view(&self) -> ObjectModel {
        ObjectModel { object_id: self.object_id, value: self.value@ }
    }
}

/// What one identifier's value decodes to, and how many bytes it consumes,
/// given the bytes that follow the identifier.
///
/// This is the wire contract of one object: fixed-width integers are read
/// little-endian and sign-extended per the declared signedness; scaled
/// readings keep the raw integer next to the catalog's factor; a flag byte
/// decodes zero to `true`; length-prefixed values read one length byte and
/// exactly that many bytes, text additionally requiring valid UTF-8; event
/// bytes are checked against their enumerations. A shortfall of bytes is
/// always `Truncation`.
pub open spec fn spec_decode_value(rule: DecodeRule, rest: Seq<u8>) -> Result<
    (ValueModel, nat),
    Error,
> {
    match rule {
        DecodeRule::Unsigned(w) => if rest.len() < w as int {
            Err(Error::Truncation)
        } else {
            Ok((ValueModel::Int(le_value(rest.take(w as int)) as int), w as nat))
        },
        DecodeRule::Signed(w) => if rest.len() < w as int {
            Err(Error::Truncation)
        } else {
            Ok((ValueModel::Int(le_signed(rest.take(w as int))), w as nat))
        },
        DecodeRule::ScaledUnsigned(w, f) => if rest.len() < w as int {
            Err(Error::Truncation)
        } else {
            Ok(
                (
                    ValueModel::Float {
                        raw: le_value(rest.take(w as int)) as int,
                        factor_thousandths: f,
                    },
                    w as nat,
                ),
            )
        },
        DecodeRule::ScaledSigned(w, f) => if rest.len() < w as int {
            Err(Error::Truncation)
        } else {
            Ok(
                (
                    ValueModel::Float {
                        raw: le_signed(rest.take(w as int)),
                        factor_thousandths: f,
                    },
                    w as nat,
                ),
            )
        },
        DecodeRule::Flag => if rest.len() < 1 {
            Err(Error::Truncation)
        } else {
            Ok((ValueModel::Bool(rest[0] == 0), 1))
        },
        DecodeRule::RawBytes => if rest.len() < 1 {
            Err(Error::Truncation)
        } else if rest.len() < 1 + rest[0] as int {
            Err(Error::Truncation)
        } else {
            Ok(
                (
                    ValueModel::Raw(rest.subrange(1, 1 + rest[0] as int)),
                    (1 + rest[0] as int) as nat,
                ),
            )
        },
        DecodeRule::Utf8Text => if rest.len() < 1 {
            Err(Error::Truncation)
        } else if rest.len() < 1 + rest[0] as int {
            Err(Error::Truncation)
        } else if !valid_utf8(rest.subrange(1, 1 + rest[0] as int)) {
            Err(Error::InvalidTextEncoding)
        } else {
            Ok(
                (
                    ValueModel::Text(decode_utf8(rest.subrange(1, 1 + rest[0] as int))),
                    (1 + rest[0] as int) as nat,
                ),
            )
        },
        DecodeRule::Button => if rest.len() < 1 {
            Err(Error::Truncation)
        } else {
            match spec_button_from_byte(rest[0]) {
                Some(e) => Ok((ValueModel::ButtonEvent(e), 1)),
                None => Err(Error::InvalidEnumCode(rest[0])),
            }
        },
        DecodeRule::Dimmer => if rest.len() < 2 {
            Err(Error::Truncation)
        } else {
            match spec_dimmer_from_byte(rest[0]) {
                Some(e) => Ok((ValueModel::DimmerEvent(e, rest[1]), 2)),
                None => Err(Error::InvalidEnumCode(rest[0])),
            }
        },
    }
}

/// A successful value decode consumes at least one byte and at most what it
/// was given.
pub proof fn lemma_decode_consumed(rule: DecodeRule, rest: Seq<u8>)
    requires
        crate::catalog::rule_wf(rule),
        spec_decode_value(rule, rest) is Ok,
    ensures
        1 <= spec_decode_value(rule, rest)->Ok_0.1 <= rest.len(),
{
}

/// `r` is exactly what `spec_decode_value` says for the bytes of `data`
/// from `pos` on: the same error, or the same value with the cursor moved
/// past exactly the consumed bytes.
pub open spec fn decodes_to(
    r: Result<(ObjectValue, usize), Error>,
    rule: DecodeRule,
    data: Seq<u8>,
    pos: int,
) -> bool {
    match spec_decode_value(rule, data.skip(pos)) {
        Ok(p) => match r {
            Ok(q) => q.0@ == p.0 && q.1 == pos + p.1 && pos <= q.1 <= data.len(),
            Err(_) => false,
        },
        Err(e) => r == Err::<(ObjectValue, usize), Error>(e),
    }
}

/// Read one little-endian unsigned integer value.
fn read_unsigned(data: &[u8], pos: usize, width: u8) -> (r: Result<(i64, usize), Error>)
    requires
        pos <= data@.len(),
        1 <= width <= 6,
    ensures
        match r {
            Ok(q) => {
                &&& data@.len() >= pos + width
                &&& q.0 == le_value(data@.skip(pos as int).take(width as int))
                &&& q.1 == pos + width
            },
            Err(e) => e == Error::Truncation && data@.len() < pos + width,
        },
{
    let dlen = data.len();
    if dlen - pos < width as usize {
        return Err(Error::Truncation);
    }
    let m = read_le_unsigned(data, pos, width as usize);
    proof {
        lemma_le_value_bound(data@.subrange(pos as int, pos as int + width as int));
        lemma_pow256_mono(width as nat, 6);
        lemma_pow256_values();
        lemma_subrange_is_skip_take(data@, pos as int, width as int);
    }
    Ok((m as i64, pos + width as usize))
}

/// Read one little-endian sign-extended integer value.
fn read_signed(data: &[u8], pos: usize, width: u8) -> (r: Result<(i64, usize), Error>)
    requires
        pos <= data@.len(),
        1 <= width <= 4,
    ensures
        match r {
            Ok(q) => {
                &&& data@.len() >= pos + width
                &&& q.0 == le_signed(data@.skip(pos as int).take(width as int))
                &&& q.1 == pos + width
            },
            Err(e) => e == Error::Truncation && data@.len() < pos + width,
        },
{
    let dlen = data.len();
    if dlen - pos < width as usize {
        return Err(Error::Truncation);
    }
    let m = read_le_signed(data, pos, width as usize);
    proof {
        lemma_subrange_is_skip_take(data@, pos as int, width as int);
    }
    Ok((m, pos + width as usize))
}

/// Read one flag byte; on the wire zero means active, so the byte zero
/// decodes to `true`.
fn read_bool(data: &[u8], pos: usize) -> (r: Result<(ObjectValue, usize), Error>)
    requires
        pos <= data@.len(),
    ensures
        decodes_to(r, DecodeRule::Flag, data@, pos as int),
{
    let dlen = data.len();
    if dlen - pos < 1 {
        return Err(Error::Truncation);
    }
    let b = data[pos];
    proof {
        assert(data@.skip(pos as int)[0] == data@[pos as int]);
    }
    Ok((ObjectValue::Bool(b == 0), pos + 1))
}

/// Read one length byte and exactly that many following bytes.
fn read_prefixed_bytes(data: &[u8], pos: usize) -> (r: Result<(Vec<u8>, usize), Error>)
    requires
        pos <= data@.len(),
    ensures
        match r {
            Ok(q) => {
                &&& data@.len() >= pos + 1
                &&& data@.len() >= pos + 1 + data@[pos as int] as int
                &&& q.0@ == data@.skip(pos as int).subrange(1, 1 + data@[pos as int] as int)
                &&& q.1 == pos + 1 + data@[pos as int] as int
            },
            Err(e) => {
                &&& e == Error::Truncation
                &&& (data@.len() < pos + 1 || data@.len() < pos + 1 + data@[pos as int] as int)
            },
        },
{
    let dlen = data.len();
    if dlen - pos < 1 {
        return Err(Error::Truncation);
    }
    let n = data[pos] as usize;
    if dlen - (pos + 1) < n {
        return Err(Error::Truncation);
    }
    let mut out: Vec<u8> = Vec::new();
    let mut i: usize = 0;
    proof {
        assert(out@ =~= data@.subrange(pos + 1, pos + 1));
    }
    while i < n
        invariant
            i <= n,
            n == data@[pos as int] as int,
            pos + 1 + n <= dlen,
            dlen == data@.len(),
            out@ == data@.subrange(pos as int + 1, pos as int + 1 + i as int),
        decreases n - i,
    {
        let b = data[pos + 1 + i];
        out.push(b);
        proof {
            assert(out@ =~= data@.subrange(pos as int + 1, pos as int + 1 + (i + 1)));
        }
        i = i + 1;
    }
    proof {
        assert(data@.subrange(pos as int + 1, pos as int + 1 + n as int) =~= data@.skip(
            pos as int,
        ).subrange(1, 1 + data@[pos as int] as int));
    }
    Ok((out, pos + 1 + n))
}

/// Relies on `String::from_utf8`: it returns `Ok` exactly when the bytes
/// are valid UTF-8, and then the string holds their decoding; otherwise the
/// bytes are rejected.
#[verifier::external_body]
fn string_from_utf8(bytes: Vec<u8>) -> (r: Option<String>)
    ensures
        r is Some <==> valid_utf8(bytes@),
        r matches Some(s) ==> s@ == decode_utf8(bytes@),
{
    String::from_utf8(bytes).ok()
}

/// Read one length-prefixed byte string as UTF-8 text; invalid sequences
/// fail the parse rather than being replaced.
fn read_text(data: &[u8], pos: usize) -> (r: Result<(ObjectValue, usize), Error>)
    requires
        pos <= data@.len(),
    ensures
        decodes_to(r, DecodeRule::Utf8Text, data@, pos as int),
{
    let (bytes, newpos) = match read_prefixed_bytes(data, pos) {
        Ok(q) => q,
        Err(e) => {
            return Err(e);
        },
    };
    match string_from_utf8(bytes) {
        Some(s) => Ok((ObjectValue::Text(s), newpos)),
        None => Err(Error::InvalidTextEncoding),
    }
}

/// Read one length-prefixed opaque byte string.
fn read_bytes(data: &[u8], pos: usize) -> (r: Result<(ObjectValue, usize), Error>)
    requires
        pos <= data@.len(),
    ensures
        decodes_to(r, DecodeRule::RawBytes, data@, pos as int),
{
    match read_prefixed_bytes(data, pos) {
        Ok((bytes, newpos)) => Ok((ObjectValue::Raw(bytes), newpos)),
        Err(e) => Err(e),
    }
}

/// Read one button event byte and check it against its enumeration.
fn read_button_event(data: &[u8], pos: usize) -> (r: Result<(ObjectValue, usize), Error>)
    requires
        pos <= data@.len(),
    ensures
        decodes_to(r, DecodeRule::Button, data@, pos as int),
{
    let dlen = data.len();
    if dlen - pos < 1 {
        return Err(Error::Truncation);
    }
    let b = data[pos];
    proof {
        assert(data@.skip(pos as int)[0] == data@[pos as int]);
    }
    match ButtonEvent::try_from(b) {
        Ok(e) => Ok((ObjectValue::ButtonEvent(e), pos + 1)),
        Err(e) => Err(e),
    }
}

/// Read one dimmer event byte and its raw step-count byte, checking the
/// event byte against its enumeration.
fn read_dimmer_event(data: &[u8], pos: usize) -> (r: Result<(ObjectValue, usize), Error>)
    requires
        pos <= data@.len(),
    ensures
        decodes_to(r, DecodeRule::Dimmer, data@, pos as int),
{
    let dlen = data.len();
    if dlen - pos < 2 {
        return Err(Error::Truncation);
    }
    let b = data[pos];
    let steps = data[pos + 1];
    proof {
        assert(data@.skip(pos as int)[0] == data@[pos as int]);
        assert(data@.skip(pos as int)[1] == data@[pos as int + 1]);
    }
    match DimmerEvent::try_from(b) {
        Ok(e) => Ok((ObjectValue::DimmerEvent(e, steps), pos + 2)),
        Err(e) => Err(e),
    }
}

/// Decode the value bytes of one object at `pos`, per its identifier's
/// rule, returning the value and the cursor just past it.
pub fn decode_value(rule: DecodeRule, data: &[u8], pos: usize) -> (r: Result<
    (ObjectValue, usize),
    Error,
>)
    requires
        crate::catalog::rule_wf(rule),
        pos <= data@.len(),
    ensures
        decodes_to(r, rule, data@, pos as int),
{
    match rule {
        DecodeRule::Unsigned(w) => match read_unsigned(data, pos, w) {
            Ok((v, newpos)) => Ok((ObjectValue::Int(v), newpos)),
            Err(e) => Err(e),
        },
        DecodeRule::Signed(w) => match read_signed(data, pos, w) {
            Ok((v, newpos)) => Ok((ObjectValue::Int(v), newpos)),
            Err(e) => Err(e),
        },
        DecodeRule::ScaledUnsigned(w, f) => match read_unsigned(data, pos, w) {
            Ok((v, newpos)) => Ok(
                (ObjectValue::Float(ScaledValue { raw: v, factor_thousandths: f }), newpos),
            ),
            Err(e) => Err(e),
        },
        DecodeRule::ScaledSigned(w, f) => match read_signed(data, pos, w) {
            Ok((v, newpos)) => Ok(
                (ObjectValue::Float(ScaledValue { raw: v, factor_thousandths: f }), newpos),
            ),
            Err(e) => Err(e),
        },
        DecodeRule::Flag => read_bool(data, pos),
        DecodeRule::RawBytes => read_bytes(data, pos),
        DecodeRule::Utf8Text => read_text(data, pos),
        DecodeRule::Button => read_button_event(data, pos),
        DecodeRule::Dimmer => read_dimmer_event(data, pos),
    }
}

} // verus!
