//! The identity token of a client: a record of a public key and an expiry
//! time, packed with a signature over the record and wrapped in a versioned
//! envelope.
//!
//! The record's byte form, the signature and its verification belong to the
//! caller, who passes them in as functions.

use crate::buffer::bytes_as_slice;
use crate::buffer::bytes_view;
use crate::encoder::decode_chunks;
use crate::encoder::encode_chunks;
use crate::encoder::lemma_unpack_pack;
use crate::encoder::pack;
use crate::encoder::unpack;
use crate::encoder::INSUFFICIENT_DATA;
use crate::light_string::LightString;
use crate::shared_string::SharedString;
use crate::version_data;
use crate::version_data::envelope_parts;
use crate::version_data::envelope_text;
use crate::version_data::lemma_envelope_round_trip;
use bytes::Bytes;
use vstd::prelude::*;
use vstd::utf8::encode_utf8;

verus! {

/// The message of the error for a record that cannot be read.
pub const RECORD_UNREADABLE: &'static str = "反序列化客户端身份数据失败!";

/// The message of the error for a record that cannot be written.
pub const RECORD_UNWRITABLE: &'static str = "序列化客户端身份数据失败!";

/// The message of the error for a token whose time has passed.
pub const EXPIRED: &'static str = "客户端身份数据已过期!";

/// The message of the error for a signature that does not fit the record.
pub const SIGNATURE_INVALID: &'static str = "客户端身份数据签名不正确！";

/// The message of the error for an envelope of a version that is not known.
pub const UNKNOWN_VERSION: &'static str = "未知的客户端身份数据版本!";

/// The record of the first version: the public key that names the client,
/// and the time, in seconds since the epoch, from which on the token is no
/// longer good.
pub struct ClientIdV1 {
    pub rsa_pub_key: LightString,
    pub expire_time: i64,
}

pub enum ClientId {
    V1(ClientIdV1),
}

/// The error with the same message, as the other string type.
pub open spec fn as_light(err: SharedString) -> LightString {
    match err {
        SharedString::Static(val) => LightString::Static(val),
        SharedString::Arc(val) => LightString::Arc(val),
    }
}

/// The text of the token of the given version for a record and the
/// signature over it.
pub open spec fn token_text(version: u64, record: Seq<u8>, signature: Seq<u8>) -> Seq<u8> {
    envelope_text(version, pack(seq![record, signature]))
}

/// The record and the signature that a token holds. It holds none where
/// the text is no envelope, where the envelope's version is not one, or
/// where its payload is not two fields.
pub open spec fn token_parts(text: Seq<u8>) -> Result<(Seq<u8>, Seq<u8>), LightString> {
    match envelope_parts(text) {
        Err(err) => Err(as_light(err)),
        Ok((version, packed)) => if version != 1 {
            Err(LightString::Static(UNKNOWN_VERSION))
        } else {
            match unpack(packed, 2) {
                None => Err(LightString::Static(INSUFFICIENT_DATA)),
                Some(fields) => Ok((fields[0], fields[1])),
            }
        },
    }
}

/// What becomes of a record that was read and has not expired, given what
/// the check of its signature said.
pub open spec fn verdict_result(client_id: ClientIdV1, verdict: Result<bool, LightString>) -> Result<
    ClientId,
    LightString,
> {
    match verdict {
        Ok(true) => Ok(ClientId::V1(client_id)),
        Ok(false) => Err(LightString::Static(SIGNATURE_INVALID)),
        Err(err) => Err(err),
    }
}

/// Whether the time `now` is the time `expire_time` or a later one.
pub open spec fn at_or_after(now: i64, expire_time: i64) -> bool {
    now >= expire_time
}

/// Whether `r` can be what reading the token `text` at the time `now` gives,
/// with `parse` to read the record and `check_signature` to check the
/// signature. A text that is no token gives its error and neither function
/// is called. Else `parse` is given the bytes of the record; where it reads
/// none, or the record has expired, that is the error, and the signature
/// is not checked. Else `check_signature` is given the public key, the
/// bytes of the record and the signature, and decides.
pub open spec fn read_as<P, C>(
    text: Seq<u8>,
    now: i64,
    parse: P,
    check_signature: C,
    r: Result<ClientId, LightString>,
) -> bool where
    P: FnOnce(&[u8]) -> Option<ClientIdV1>,
    C: FnOnce(&str, &[u8], &[u8]) -> Result<bool, LightString>,
{
    match token_parts(text) {
        Err(err) => r == Err::<ClientId, LightString>(err),
        Ok((record, signature)) => exists|bytes: &[u8], parsed: Option<ClientIdV1>|
            bytes@ == record && #[trigger] call_ensures(parse, (bytes,), parsed) && (match parsed {
                None => r == Err::<ClientId, LightString>(LightString::Static(RECORD_UNREADABLE)),
                Some(client_id) => if now >= client_id.expire_time {
                    r == Err::<ClientId, LightString>(LightString::Static(EXPIRED))
                } else {
                    exists|
                        key: &str,
                        signed: &[u8],
                        mark: &[u8],
                        verdict: Result<bool, LightString>,
                    |
                        key@ == client_id.rsa_pub_key@ && signed@ == record && mark@ == signature
                            && #[trigger] call_ensures(
                            check_signature,
                            (key, signed, mark),
                            verdict,
                        ) && r == verdict_result(client_id, verdict)
                },
            }),
    }
}

/// `Utc::now().timestamp()` of `chrono`: the time at the moment of the
/// call, in whole seconds since the epoch. Nothing is claimed of it. The
/// call panics where the clock of the machine stands before the epoch.
#[verifier::external_body]
fn unix_now() -> i64 {
    chrono::Utc::now().timestamp()
}

impl ClientIdV1 {
    /// Whether the token is no longer good at the time `now`, in seconds
    /// since the epoch.
    pub fn expired_at(&self, now: i64) -> (r: bool)
        ensures
            r == (now >= self.expire_time),
    {
        now >= self.expire_time
    }

    /// Whether the token is no longer good at the moment of the call,
    /// whenever that is.
    pub fn expired(&self) -> (r: bool)
        ensures
            exists|now: i64| r == (#[trigger] at_or_after(now, self.expire_time)),
    {
        let now = unix_now();
        let r = self.expired_at(now);
        assert(r == at_or_after(now, self.expire_time));
        r
    }
}

impl ClientId {
    pub fn new(rsa_pub_key: LightString, expire_time: i64) -> (r: ClientId)
        ensures
            r == ClientId::V1(ClientIdV1 { rsa_pub_key, expire_time }),
    {
        ClientId::V1(ClientIdV1 { rsa_pub_key, expire_time })
    }

    /// The version of the envelope that holds this token.
    pub fn version(&self) -> (r: u64)
        ensures
            r == 1,
    {
        match self {
            ClientId::V1(_) => 1,
        }
    }

    pub fn rsa_pub_key(&self) -> (r: &LightString)
        ensures
            *r == self->V1_0.rsa_pub_key,
    {
        match self {
            ClientId::V1(client_id) => &client_id.rsa_pub_key,
        }
    }

    pub fn expire_time(&self) -> (r: i64)
        ensures
            r == self->V1_0.expire_time,
    {
        match self {
            ClientId::V1(client_id) => client_id.expire_time,
        }
    }

    /// Whether the token is no longer good at the time `now`, in seconds
    /// since the epoch.
    pub fn expired_at(&self, now: i64) -> (r: bool)
        ensures
            r == (now >= self->V1_0.expire_time),
    {
        match self {
            ClientId::V1(client_id) => client_id.expired_at(now),
        }
    }

    /// Whether the token is no longer good at the moment of the call,
    /// whenever that is.
    pub fn expired(&self) -> (r: bool)
        ensures
            exists|now: i64| r == (#[trigger] at_or_after(now, self->V1_0.expire_time)),
    {
        match self {
            ClientId::V1(client_id) => client_id.expired(),
        }
    }

    /// Takes a token apart: the bytes of its record and the signature.
    pub fn open(client_id_data: &str) -> (r: Result<(Bytes, Bytes), LightString>)
        ensures
            match token_parts(encode_utf8(client_id_data@)) {
                Ok((record, signature)) => r is Ok && bytes_view(r->Ok_0.0) == record
                    && bytes_view(r->Ok_0.1) == signature,
                Err(err) => r == Err::<(Bytes, Bytes), LightString>(err),
            },
    {
        let (version, chunk) = match version_data::try_decode(client_id_data) {
            Ok(parts) => parts,
            Err(err) => {
                return Err(LightString::from(err));
            },
        };
        if version == 1 {
            proof {
                reveal_with_fuel(unpack, 3);
            }
            match decode_chunks::<2>(chunk) {
                Ok(fields) => {
                    proof {
                        let parts = unpack(bytes_view(chunk), 2)->Some_0;
                        let views = crate::encoder::bytes_views(seq![fields.0, fields.1]);
                        assert(views[0] == bytes_view(fields.0));
                        assert(views[1] == bytes_view(fields.1));
                    }
                    Ok(fields)
                },
                Err(err) => Err(LightString::from(err)),
            }
        } else {
            Err(LightString::from_static(UNKNOWN_VERSION))
        }
    }

    /// Decides on a record that was read and has not expired, by what the
    /// check of its signature said.
    pub fn conclude(client_id: ClientIdV1, verdict: Result<bool, LightString>) -> (r: Result<
        ClientId,
        LightString,
    >)
        ensures
            r == verdict_result(client_id, verdict),
    {
        match verdict {
            Ok(true) => Ok(ClientId::V1(client_id)),
            Ok(false) => Err(LightString::from_static(SIGNATURE_INVALID)),
            Err(err) => Err(err),
        }
    }

    /// Reads a token at the time `now`, in seconds since the epoch. `parse`
    /// reads the record from its bytes; `check_signature` is given the
    /// public key, the bytes of the record and the signature. A token that
    /// has expired is refused before its signature is looked at.
    pub fn try_decode_at(
        client_id_data: &str,
        now: i64,
        parse: impl FnOnce(&[u8]) -> Option<ClientIdV1>,
        check_signature: impl FnOnce(&str, &[u8], &[u8]) -> Result<bool, LightString>,
    ) -> (r: Result<ClientId, LightString>)
        requires
            forall|bytes: &[u8]| call_requires(parse, (bytes,)),
            forall|key: &str, bytes: &[u8], signature: &[u8]|
                call_requires(check_signature, (key, bytes, signature)),
        ensures
            read_as(encode_utf8(client_id_data@), now, parse, check_signature, r),
    {
        let (record, signature) = match ClientId::open(client_id_data) {
            Ok(parts) => parts,
            Err(err) => {
                return Err(err);
            },
        };
        let bytes = bytes_as_slice(&record);
        let parsed = parse(bytes);
        let client_id = match parsed {
            Some(client_id) => client_id,
            None => {
                return Err(LightString::from_static(RECORD_UNREADABLE));
            },
        };
        if client_id.expired_at(now) {
            return Err(LightString::from_static(EXPIRED));
        }
        let key = client_id.rsa_pub_key.as_str();
        let mark = bytes_as_slice(&signature);
        let verdict = check_signature(key, bytes, mark);
        assert(call_ensures(check_signature, (key, bytes, mark), verdict));
        ClientId::conclude(client_id, verdict)
    }

    /// Reads a token at the moment of the call.
    pub fn try_decode(
        client_id_data: &str,
        parse: impl FnOnce(&[u8]) -> Option<ClientIdV1>,
        check_signature: impl FnOnce(&str, &[u8], &[u8]) -> Result<bool, LightString>,
    ) -> (r: Result<ClientId, LightString>)
        requires
            forall|bytes: &[u8]| call_requires(parse, (bytes,)),
            forall|key: &str, bytes: &[u8], signature: &[u8]|
                call_requires(check_signature, (key, bytes, signature)),
        ensures
            exists|now: i64|
                #[trigger] read_as(encode_utf8(client_id_data@), now, parse, check_signature, r),
    {
        let now = unix_now();
        let r = ClientId::try_decode_at(client_id_data, now, parse, check_signature);
        assert(read_as(encode_utf8(client_id_data@), now, parse, check_signature, r));
        r
    }

    /// Writes the token for a record, given as its bytes, and the signature
    /// over it.
    pub fn seal(&self, record: &[u8], signature: &[u8]) -> (r: String)
        ensures
            encode_utf8(r@) == token_text(1, record@, signature@),
    {
        let mut fields: Vec<&[u8]> = Vec::new();
        fields.push(record);
        fields.push(signature);
        let packed = encode_chunks(fields.as_slice(), None);
        assert(crate::encoder::chunk_seqs(fields@) =~= seq![record@, signature@]);
        assert(Seq::<u8>::empty() + pack(seq![record@, signature@]) =~= pack(
            seq![record@, signature@],
        ));
        match version_data::encode(self.version(), packed.as_slice()) {
            Ok(token) => token,
            Err(_) => String::new(),
        }
    }

    /// Writes the token. `serialize` gives the bytes of the record; `sign`
    /// is given those bytes and returns the signature over them.
    pub fn encode(
        &self,
        serialize: impl FnOnce(&ClientIdV1) -> Option<Vec<u8>>,
        sign: impl FnOnce(&[u8]) -> Result<Vec<u8>, LightString>,
    ) -> (r: Result<String, LightString>)
        requires
            forall|client_id: &ClientIdV1| call_requires(serialize, (client_id,)),
            forall|bytes: &[u8]| call_requires(sign, (bytes,)),
        ensures
            exists|client_id: &ClientIdV1, written: Option<Vec<u8>>|
                *client_id == self->V1_0 && #[trigger] call_ensures(
                    serialize,
                    (client_id,),
                    written,
                ) && (match written {
                    None => r == Err::<String, LightString>(
                        LightString::Static(RECORD_UNWRITABLE),
                    ),
                    Some(record) => exists|bytes: &[u8], signed: Result<Vec<u8>, LightString>|
                        bytes@ == record@ && #[trigger] call_ensures(sign, (bytes,), signed) && (
                        match signed {
                            Err(err) => r == Err::<String, LightString>(err),
                            Ok(signature) => r is Ok && encode_utf8(r->Ok_0@) == token_text(
                                1,
                                record@,
                                signature@,
                            ),
                        }),
                }),
    {
        let written = match self {
            ClientId::V1(client_id) => {
                let written = serialize(client_id);
                assert(call_ensures(serialize, (client_id,), written));
                written
            },
        };
        let record = match written {
            Some(record) => record,
            None => {
                return Err(LightString::from_static(RECORD_UNWRITABLE));
            },
        };
        let bytes = record.as_slice();
        let signed = sign(bytes);
        assert(call_ensures(sign, (bytes,), signed));
        match signed {
            Ok(signature) => Ok(self.seal(bytes, signature.as_slice())),
            Err(err) => Err(err),
        }
    }
}

/// Taking a token apart undoes sealing it: the token for a record and a
/// signature holds that record and that signature.
pub proof fn lemma_token_round_trip(record: Seq<u8>, signature: Seq<u8>)
    requires
        record.len() <= usize::MAX,
        signature.len() <= usize::MAX,
    ensures
        token_parts(token_text(1, record, signature)) == Ok::<(Seq<u8>, Seq<u8>), LightString>(
            (record, signature),
        ),
{
    let fields = seq![record, signature];
    lemma_envelope_round_trip(1, pack(fields));
    lemma_unpack_pack(fields);
}

} // verus!
