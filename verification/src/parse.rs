use crate::catalog::rule_of;
use crate::catalog::spec_id_from_byte;
use crate::catalog::ObjectId;
use crate::decode::decode_value;
use crate::decode::spec_decode_value;
use crate::decode::Object;
use crate::decode::ObjectModel;
use crate::types::Error;
use vstd::prelude::*;

verus! {

/// The decoded form of one whole payload: the header flags and the objects
/// in wire order, duplicates preserved.
#[derive(Debug)]
pub struct ServiceData {
    /// Bit 0 of the header byte.
    pub encrypted: bool,
    /// Bit 2 of the header byte.
    pub trigger_based: bool,
    /// The top three bits of the header byte.
    pub version: u8,
    /// The objects fully present in the buffer, in wire order.
    pub objects: Vec<Object>,
}

/// The mathematical model of a `ServiceData`.
#[verifier::ext_equal]
pub struct ServiceDataModel {
    pub encrypted: bool,
    pub trigger_based: bool,
    pub version: u8,
    pub objects: Seq<ObjectModel>,
}

/// The models of a sequence of decoded objects.
pub open spec fn objects_model(s: Seq<Object>) -> Seq<ObjectModel> {
    s.map_values(|o: Object| o@)
}

impl View for ServiceData {
    type V = ServiceDataModel;

    open spec fn view(&self) -> ServiceDataModel {
        ServiceDataModel {
            encrypted: self.encrypted,
            trigger_based: self.trigger_based,
            version: self.version,
            objects: objects_model(self.objects@),
        }
    }
}

/// The object stream that a byte string after the header decodes to: each
/// record is one identifier byte resolved against the catalog, then the
/// value bytes its rule consumes. The exact end of the buffer between
/// records ends the stream; an unknown identifier, a shortfall of bytes, an
/// invalid event byte or invalid text ends the whole decode with that
/// error, never with a partial result.
pub open spec fn spec_parse_objects(bytes: Seq<u8>) -> Result<Seq<ObjectModel>, Error>
    decreases bytes.len(),
{
    if bytes.len() == 0 {
        Ok(Seq::empty())
    } else {
        match spec_id_from_byte(bytes[0]) {
            None => Err(Error::UnknownIdentifier(bytes[0])),
            Some(id) => match spec_decode_value(rule_of(id), bytes.skip(1)) {
                Err(e) => Err(e),
                Ok(p) => if 1 + p.1 <= bytes.len() {
                    match spec_parse_objects(bytes.skip(1 + p.1 as int)) {
                        Err(e) => Err(e),
                        Ok(tail) => Ok(
                            seq![ObjectModel { object_id: id, value: p.0 }] + tail,
                        ),
                    }
                } else {
                    // A decoder never consumes more than it was given, so
                    // this arm is unreachable; see `lemma_decode_consumed`.
                    Err(Error::Truncation)
                },
            },
        }
    }
}

/// What a whole payload decodes to: the header byte's flag bits and
/// version, and the object stream after it. An empty buffer lacks its
/// mandatory header byte; a buffer holding only the header byte is a valid
/// payload with no objects.
pub open spec fn spec_parse(bytes: Seq<u8>) -> Result<ServiceDataModel, Error> {
    if bytes.len() == 0 {
        Err(Error::Truncation)
    } else {
        match spec_parse_objects(bytes.skip(1)) {
            Err(e) => Err(e),
            Ok(objs) => Ok(
                ServiceDataModel {
                    encrypted: bytes[0] & 0x01 == 1,
                    trigger_based: bytes[0] & 0x04 == 0x04,
                    version: bytes[0] >> 5,
                    objects: objs,
                },
            ),
        }
    }
}

/// The loop below has decoded `done` out of the buffer's object stream and
/// stands at `pos`: whatever the remaining bytes decode to combines with
/// `done` into the whole stream's answer -- the same error, or `done`
/// followed by the remaining objects.
pub open spec fn parse_progress(data: Seq<u8>, pos: int, done: Seq<ObjectModel>) -> bool {
    match spec_parse_objects(data.skip(pos)) {
        Ok(tail) => spec_parse_objects(data.skip(1)) == Ok::<Seq<ObjectModel>, Error>(done + tail),
        Err(e) => spec_parse_objects(data.skip(1)) == Err::<Seq<ObjectModel>, Error>(e),
    }
}

/// Decode one BTHome v2 payload: the service-data bytes of service UUID
/// `0xFCD2`, already extracted by the caller. The result is exactly what
/// `spec_parse` says of the bytes: a payload either fully decodes or
/// produces a single terminal error.
pub fn parse_service_data(data: &[u8]) -> (r: Result<ServiceData, Error>)
    ensures
        match spec_parse(data@) {
            Ok(m) => r matches Ok(sd) && sd@ == m,
            Err(e) => r matches Err(e2) && e2 == e,
        },
{
    let dlen = data.len();
    if dlen == 0 {
        return Err(Error::Truncation);
    }
    let head = data[0];
    let mut objects: Vec<Object> = Vec::new();
    let mut pos: usize = 1;
    proof {
        assert(objects_model(objects@) + spec_parse_objects(data@.skip(1))->Ok_0 =~= spec_parse_objects(
            data@.skip(1),
        )->Ok_0);
    }
    while pos < dlen
        invariant
            1 <= pos <= dlen,
            dlen == data@.len(),
            parse_progress(data@, pos as int, objects_model(objects@)),
        decreases dlen - pos,
    {
        let ghost rest = data@.skip(pos as int);
        let ghost done = objects_model(objects@);
        proof {
            assert(rest.len() == dlen - pos);
            assert(rest[0] == data@[pos as int]);
        }
        let id_byte = data[pos];
        let id = match ObjectId::try_from(id_byte) {
            Ok(id) => id,
            Err(e) => {
                proof {
                    assert(spec_parse_objects(rest) == Err::<Seq<ObjectModel>, Error>(
                        Error::UnknownIdentifier(id_byte),
                    ));
                }
                return Err(e);
            },
        };
        let rule = id.decode_rule();
        proof {
            assert(rest.skip(1) =~= data@.skip(pos as int + 1));
        }
        match decode_value(rule, data, pos + 1) {
            Err(e) => {
                proof {
                    assert(spec_decode_value(rule_of(id), rest.skip(1)) == Err::<
                        (crate::types::ValueModel, nat),
                        Error,
                    >(e));
                    assert(spec_parse_objects(rest) == Err::<Seq<ObjectModel>, Error>(e));
                }
                return Err(e);
            },
            Ok((value, newpos)) => {
                proof {
                    let p = spec_decode_value(rule_of(id), rest.skip(1))->Ok_0;
                    assert(p.0 == value@ && newpos == pos + 1 + p.1);
                    assert(rest.skip(1 + p.1 as int) =~= data@.skip(newpos as int));
                    let om = ObjectModel { object_id: id, value: p.0 };
                    assert(spec_parse_objects(rest) == match spec_parse_objects(
                        data@.skip(newpos as int),
                    ) {
                        Err(e) => Err::<Seq<ObjectModel>, Error>(e),
                        Ok(tail) => Ok(seq![om] + tail),
                    });
                    assert(objects_model(objects@.push(Object { object_id: id, value: value }))
                        =~= done.push(om));
                    if spec_parse_objects(data@.skip(newpos as int)) is Ok {
                        let tail = spec_parse_objects(data@.skip(newpos as int))->Ok_0;
                        assert(done + (seq![om] + tail) =~= done.push(om) + tail);
                    }
                }
                objects.push(Object { object_id: id, value });
                pos = newpos;
            },
        }
    }
    proof {
        assert(data@.skip(pos as int) =~= Seq::<u8>::empty());
        assert(objects_model(objects@) + Seq::<ObjectModel>::empty() =~= objects_model(objects@));
    }
    let sd = ServiceData {
        encrypted: head & 0x01 == 1,
        trigger_based: head & 0x04 == 0x04,
        version: head >> 5,
        objects,
    };
    proof {
        assert(sd@ =~= spec_parse(data@)->Ok_0);
    }
    Ok(sd)
}

} // verus!
