//! The Cast channel wire message and its binary encoding.
//!
//! A `CastMessage` is serialized as a protocol-buffer record with seven
//! fields: the protocol version (tag 1, varint), the source, destination
//! and namespace identifiers (tags 2 to 4, length-delimited UTF-8), the
//! payload type (tag 5, varint), and the optional text or binary payload
//! (tags 6 and 7, length-delimited).  `spec_message_bytes` states the
//! encoding exactly; the executable encoder and parser are proved against
//! it, and the parser accepts precisely the canonical encodings.

use vstd::prelude::*;
use vstd::string::*;
use vstd::utf8::*;

verus! {

/// Payload kind marker: text payloads use 0, binary payloads use 1.
pub const PAYLOAD_TYPE_STRING: u32 = 0;

/// Payload kind marker for binary payloads.
pub const PAYLOAD_TYPE_BINARY: u32 = 1;

/// One message of the Cast wire protocol.
pub struct CastMessage {
    pub protocol_version: u32,
    pub source_id: String,
    pub destination_id: String,
    pub namespace: String,
    pub payload_type: u32,
    pub payload_utf8: Option<String>,
    pub payload_binary: Option<Vec<u8>>,
}

/// The mathematical model of a `CastMessage`.
pub struct CastMessageModel {
    pub protocol_version: u32,
    pub source_id: Seq<char>,
    pub destination_id: Seq<char>,
    pub namespace: Seq<char>,
    pub payload_type: u32,
    pub payload_utf8: Option<Seq<char>>,
    pub payload_binary: Option<Seq<u8>>,
}

impl View for CastMessage {
    type V = CastMessageModel;

    open spec fn view(&self) -> CastMessageModel {
        CastMessageModel {
            protocol_version: self.protocol_version,
            source_id: self.source_id@,
            destination_id: self.destination_id@,
            namespace: self.namespace@,
            payload_type: self.payload_type,
            payload_utf8: match self.payload_utf8 {
                Some(s) => Some(s@),
                None => None,
            },
            payload_binary: match self.payload_binary {
                Some(b) => Some(b@),
                None => None,
            },
        }
    }
}

impl Clone for CastMessage {
    fn clone(&self) -> (r: Self)
        ensures
            r@ == self@,
    {
        CastMessage {
            protocol_version: self.protocol_version,
            source_id: self.source_id.clone(),
            destination_id: self.destination_id.clone(),
            namespace: self.namespace.clone(),
            payload_type: self.payload_type,
            payload_utf8: match &self.payload_utf8 {
                Some(s) => Some(s.clone()),
                None => None,
            },
            payload_binary: match &self.payload_binary {
                Some(b) => Some(b.clone()),
                None => None,
            },
        }
    }
}

impl Default for CastMessage {
    /// The all-empty message: version 0, empty identifiers, text payload
    /// kind, no payload.
    fn default() -> (r: Self)
        ensures
            r@.protocol_version == 0,
            r@.source_id == Seq::<char>::empty(),
            r@.destination_id == Seq::<char>::empty(),
            r@.namespace == Seq::<char>::empty(),
            r@.payload_type == 0,
            r@.payload_utf8 is None,
            r@.payload_binary is None,
    {
        CastMessage {
            protocol_version: 0,
            source_id: String::new(),
            destination_id: String::new(),
            namespace: String::new(),
            payload_type: 0,
            payload_utf8: None,
            payload_binary: None,
        }
    }
}

/// Base-128 varint encoding, least significant group first; every byte but
/// the last carries the continuation bit.
pub open spec fn spec_varint(n: nat) -> Seq<u8>
    decreases n,
{
    if n < 128 {
        seq![n as u8]
    } else {
        seq![(128 + n % 128) as u8] + spec_varint(n / 128)
    }
}

/// A varint-valued field: key byte (tag, wire type 0), then the value.
pub open spec fn spec_varint_field(tag: nat, value: nat) -> Seq<u8>
    recommends
        1 <= tag <= 15,
{
    seq![(tag * 8) as u8] + spec_varint(value)
}

/// A length-delimited field: key byte (tag, wire type 2), byte length as a
/// varint, then the bytes.
pub open spec fn spec_len_field(tag: nat, data: Seq<u8>) -> Seq<u8>
    recommends
        1 <= tag <= 15,
{
    seq![(tag * 8 + 2) as u8] + spec_varint(data.len()) + data
}

/// The canonical encoding of a message: fields in tag order, optional
/// fields present exactly when set.
pub open spec fn spec_message_bytes(m: CastMessageModel) -> Seq<u8> {
    spec_varint_field(1, m.protocol_version as nat) + spec_len_field(
        2,
        encode_utf8(m.source_id),
    ) + spec_len_field(3, encode_utf8(m.destination_id)) + spec_len_field(
        4,
        encode_utf8(m.namespace),
    ) + spec_varint_field(5, m.payload_type as nat) + (match m.payload_utf8 {
        Some(s) => spec_len_field(6, encode_utf8(s)),
        None => Seq::<u8>::empty(),
    }) + (match m.payload_binary {
        Some(b) => spec_len_field(7, b),
        None => Seq::<u8>::empty(),
    })
}

/// Appends the varint encoding of `n`.
fn push_varint(out: &mut Vec<u8>, n: u64)
    ensures
        final(out)@ == old(out)@ + spec_varint(n as nat),
{
    let mut cur: u64 = n;
    while cur >= 128
        invariant
            old(out)@ + spec_varint(n as nat) == out@ + spec_varint(cur as nat),
        decreases cur,
    {
        let low: u64 = cur % 128;
        let b: u8 = (128 + low) as u8;
        let ghost pre = out@;
        let ghost cur_pre = cur;
        out.push(b);
        cur = cur / 128;
        proof {
            assert(spec_varint(cur_pre as nat) == seq![b] + spec_varint(cur as nat));
            assert(pre + spec_varint(cur_pre as nat) =~= out@ + spec_varint(cur as nat));
        }
    }
    let ghost pre = out@;
    out.push(cur as u8);
    proof {
        assert(spec_varint(cur as nat) =~= seq![cur as u8]);
        assert(out@ =~= pre + spec_varint(cur as nat));
        assert(final(out)@ =~= old(out)@ + spec_varint(n as nat));
    }
}

/// Appends a copy of `data`.
pub(crate) fn push_bytes(out: &mut Vec<u8>, data: &Vec<u8>)
    ensures
        final(out)@ == old(out)@ + data@,
{
    let mut i: usize = 0;
    while i < data.len()
        invariant
            i <= data@.len(),
            out@ == old(out)@ + data@.subrange(0, i as int),
        decreases data@.len() - i,
    {
        out.push(data[i]);
        i = i + 1;
        proof {
            assert(out@ =~= old(out)@ + data@.subrange(0, i as int));
        }
    }
    proof {
        assert(data@.subrange(0, data@.len() as int) =~= data@);
    }
}

/// Appends a length-delimited field.
fn push_len_field(out: &mut Vec<u8>, tag: u8, data: &Vec<u8>)
    requires
        1 <= tag <= 15,
    ensures
        final(out)@ == old(out)@ + spec_len_field(tag as nat, data@),
{
    out.push(tag * 8 + 2);
    push_varint(out, data.len() as u64);
    push_bytes(out, data);
    proof {
        assert(final(out)@ =~= old(out)@ + spec_len_field(tag as nat, data@));
    }
}

/// The canonical binary encoding of `m`.
pub fn message_to_bytes(m: &CastMessage) -> (r: Vec<u8>)
    ensures
        r@ == spec_message_bytes(m@),
{
    let mut out: Vec<u8> = Vec::new();
    out.push(8u8);
    push_varint(&mut out, m.protocol_version as u64);
    proof {
        assert(out@ =~= spec_varint_field(1, m@.protocol_version as nat));
    }
    let sid = m.source_id.as_str().as_bytes_vec();
    push_len_field(&mut out, 2, &sid);
    let did = m.destination_id.as_str().as_bytes_vec();
    push_len_field(&mut out, 3, &did);
    let ns = m.namespace.as_str().as_bytes_vec();
    push_len_field(&mut out, 4, &ns);
    let ghost mid = out@;
    out.push(40u8);
    push_varint(&mut out, m.payload_type as u64);
    proof {
        assert(out@ =~= mid + spec_varint_field(5, m@.payload_type as nat));
    }
    match &m.payload_utf8 {
        Some(s) => {
            let b = s.as_str().as_bytes_vec();
            push_len_field(&mut out, 6, &b);
        },
        None => {},
    }
    match &m.payload_binary {
        Some(b) => {
            push_len_field(&mut out, 7, b);
        },
        None => {},
    }
    proof {
        assert(out@ =~= spec_message_bytes(m@));
    }
    out
}

/// Parses a minimal varint starting at `pos`: `None` on a truncated or
/// non-minimal encoding.
pub open spec fn parse_varint(b: Seq<u8>, pos: int) -> Option<(nat, int)>
    decreases b.len() - pos,
{
    if !(0 <= pos < b.len()) {
        None
    } else if b[pos] < 128 {
        Some((b[pos] as nat, pos + 1))
    } else {
        match parse_varint(b, pos + 1) {
            Some((v, end)) => if v >= 1 {
                Some(((b[pos] - 128) as nat + v * 128, end))
            } else {
                None
            },
            None => None,
        }
    }
}

/// Parses a varint-valued field with the given tag.
pub open spec fn parse_varint_field(b: Seq<u8>, pos: int, tag: nat) -> Option<(nat, int)> {
    if 0 <= pos < b.len() && b[pos] == (tag * 8) as u8 {
        parse_varint(b, pos + 1)
    } else {
        None
    }
}

/// Parses a length-delimited field with the given tag.
pub open spec fn parse_len_field(b: Seq<u8>, pos: int, tag: nat) -> Option<(Seq<u8>, int)> {
    if 0 <= pos < b.len() && b[pos] == (tag * 8 + 2) as u8 {
        match parse_varint(b, pos + 1) {
            Some((l, p)) => if p + l <= b.len() {
                Some((b.subrange(p, p + l), p + l))
            } else {
                None
            },
            None => None,
        }
    } else {
        None
    }
}

/// Parses a length-delimited field holding UTF-8 text.
pub open spec fn parse_str_field(b: Seq<u8>, pos: int, tag: nat) -> Option<(Seq<char>, int)> {
    match parse_len_field(b, pos, tag) {
        Some((data, end)) => if valid_utf8(data) {
            Some((decode_utf8(data), end))
        } else {
            None
        },
        None => None,
    }
}

/// Parses an optional text field: absent when the key byte does not match.
pub open spec fn parse_opt_str_field(b: Seq<u8>, pos: int, tag: nat) -> Option<
    (Option<Seq<char>>, int),
> {
    if 0 <= pos < b.len() && b[pos] == (tag * 8 + 2) as u8 {
        match parse_str_field(b, pos, tag) {
            Some((s, end)) => Some((Some(s), end)),
            None => None,
        }
    } else {
        Some((None, pos))
    }
}

/// Parses an optional bytes field: absent when the key byte does not match.
pub open spec fn parse_opt_bytes_field(b: Seq<u8>, pos: int, tag: nat) -> Option<
    (Option<Seq<u8>>, int),
> {
    if 0 <= pos < b.len() && b[pos] == (tag * 8 + 2) as u8 {
        match parse_len_field(b, pos, tag) {
            Some((data, end)) => Some((Some(data), end)),
            None => None,
        }
    } else {
        Some((None, pos))
    }
}

/// Parses a whole message: the five required fields in tag order, then the
/// optional payloads, consuming the buffer exactly.
pub open spec fn spec_parse_message(b: Seq<u8>) -> Option<CastMessageModel> {
    match parse_varint_field(b, 0, 1) {
        None => None,
        Some((pv, p1)) => if pv >= 0x1_0000_0000 {
            None
        } else {
            match parse_str_field(b, p1, 2) {
                None => None,
                Some((sid, p2)) => match parse_str_field(b, p2, 3) {
                    None => None,
                    Some((did, p3)) => match parse_str_field(b, p3, 4) {
                        None => None,
                        Some((ns, p4)) => match parse_varint_field(b, p4, 5) {
                            None => None,
                            Some((pt, p5)) => if pt >= 0x1_0000_0000 {
                                None
                            } else {
                                match parse_opt_str_field(b, p5, 6) {
                                    None => None,
                                    Some((pu, p6)) => match parse_opt_bytes_field(b, p6, 7) {
                                        None => None,
                                        Some((pb, p7)) => if p7 == b.len() {
                                            Some(
                                                CastMessageModel {
                                                    protocol_version: pv as u32,
                                                    source_id: sid,
                                                    destination_id: did,
                                                    namespace: ns,
                                                    payload_type: pt as u32,
                                                    payload_utf8: pu,
                                                    payload_binary: pb,
                                                },
                                            )
                                        } else {
                                            None
                                        },
                                    },
                                }
                            },
                        },
                    },
                },
            }
        },
    }
}

/// The parser recovers a canonical varint wherever it stands in a buffer.
proof fn lemma_parse_varint_canonical(b: Seq<u8>, pos: int, n: nat)
    requires
        0 <= pos,
        pos + spec_varint(n).len() <= b.len(),
        b.subrange(pos, pos + spec_varint(n).len() as int) == spec_varint(n),
    ensures
        parse_varint(b, pos) == Some((n, pos + spec_varint(n).len() as int)),
    decreases n,
{
    let sv = spec_varint(n);
    assert(b.subrange(pos, pos + sv.len() as int)[0] == sv[0]);
    if n < 128 {
        assert(b[pos] == n as u8);
    } else {
        let tail = spec_varint(n / 128);
        assert(b[pos] == (128 + n % 128) as u8);
        assert(b[pos] >= 128);
        assert(b.subrange(pos + 1, pos + 1 + tail.len() as int) =~= tail) by {
            assert forall|i: int| 0 <= i < tail.len() implies b.subrange(
                pos + 1,
                pos + 1 + tail.len() as int,
            )[i] == tail[i] by {
                assert(b.subrange(pos, pos + sv.len() as int)[i + 1] == sv[i + 1]);
            }
        };
        lemma_parse_varint_canonical(b, pos + 1, n / 128);
        vstd::arithmetic::div_mod::lemma_fundamental_div_mod(n as int, 128);
        assert((b[pos] - 128) as nat + (n / 128) * 128 == n);
    }
}

/// The parser recovers a canonical varint field wherever it stands.
proof fn lemma_parse_varint_field_canonical(b: Seq<u8>, pos: int, tag: nat, value: nat)
    requires
        1 <= tag <= 15,
        0 <= pos,
        pos + spec_varint_field(tag, value).len() <= b.len(),
        b.subrange(pos, pos + spec_varint_field(tag, value).len() as int) == spec_varint_field(
            tag,
            value,
        ),
    ensures
        parse_varint_field(b, pos, tag) == Some(
            (value, pos + spec_varint_field(tag, value).len() as int),
        ),
{
    let f = spec_varint_field(tag, value);
    let lv = spec_varint(value);
    assert(b.subrange(pos, pos + f.len() as int)[0] == f[0]);
    assert(b[pos] == (tag * 8) as u8);
    assert(b.subrange(pos + 1, pos + 1 + lv.len() as int) =~= lv) by {
        assert forall|i: int| 0 <= i < lv.len() implies b.subrange(
            pos + 1,
            pos + 1 + lv.len() as int,
        )[i] == lv[i] by {
            assert(b.subrange(pos, pos + f.len() as int)[i + 1] == f[i + 1]);
        }
    };
    lemma_parse_varint_canonical(b, pos + 1, value);
}

/// The parser recovers a canonical length-delimited field wherever it
/// stands.
proof fn lemma_parse_len_field_canonical(b: Seq<u8>, pos: int, tag: nat, data: Seq<u8>)
    requires
        1 <= tag <= 15,
        0 <= pos,
        pos + spec_len_field(tag, data).len() <= b.len(),
        b.subrange(pos, pos + spec_len_field(tag, data).len() as int) == spec_len_field(tag, data),
    ensures
        parse_len_field(b, pos, tag) == Some(
            (data, pos + spec_len_field(tag, data).len() as int),
        ),
{
    let f = spec_len_field(tag, data);
    let lv = spec_varint(data.len());
    assert(b.subrange(pos, pos + f.len() as int)[0] == f[0]);
    assert(b[pos] == (tag * 8 + 2) as u8);
    assert(b.subrange(pos + 1, pos + 1 + lv.len() as int) =~= lv) by {
        assert forall|i: int| 0 <= i < lv.len() implies b.subrange(
            pos + 1,
            pos + 1 + lv.len() as int,
        )[i] == lv[i] by {
            assert(b.subrange(pos, pos + f.len() as int)[i + 1] == f[i + 1]);
        }
    };
    lemma_parse_varint_canonical(b, pos + 1, data.len());
    let p = pos + 1 + lv.len() as int;
    assert(b.subrange(p, p + data.len() as int) =~= data) by {
        assert forall|i: int| 0 <= i < data.len() implies b.subrange(
            p,
            p + data.len() as int,
        )[i] == data[i] by {
            assert(b.subrange(pos, pos + f.len() as int)[1 + lv.len() + i] == f[1 + lv.len() + i]);
        }
    };
}

proof fn lemma_split_concat(x: Seq<u8>, y: Seq<u8>)
    ensures
        (x + y).len() == x.len() + y.len(),
        (x + y).subrange(0, x.len() as int) == x,
        (x + y).subrange(x.len() as int, x.len() as int + y.len() as int) == y,
{
    assert((x + y).subrange(0, x.len() as int) =~= x);
    assert((x + y).subrange(x.len() as int, x.len() as int + y.len() as int) =~= y);
}

proof fn lemma_sub_subrange(b: Seq<u8>, n: int, lo: int, hi: int)
    requires
        0 <= lo <= hi <= n <= b.len(),
    ensures
        b.subrange(0, n).subrange(lo, hi) == b.subrange(lo, hi),
{
    assert(b.subrange(0, n).subrange(lo, hi) =~= b.subrange(lo, hi));
}

/// Slices of a seven-piece concatenation, piece by piece.
proof fn lemma_concat7_slices(
    f1: Seq<u8>,
    f2: Seq<u8>,
    f3: Seq<u8>,
    f4: Seq<u8>,
    f5: Seq<u8>,
    f6: Seq<u8>,
    f7: Seq<u8>,
)
    ensures
        ({
            let b = f1 + f2 + f3 + f4 + f5 + f6 + f7;
            let p1 = f1.len() as int;
            let p2 = p1 + f2.len() as int;
            let p3 = p2 + f3.len() as int;
            let p4 = p3 + f4.len() as int;
            let p5 = p4 + f5.len() as int;
            let p6 = p5 + f6.len() as int;
            let p7 = p6 + f7.len() as int;
            b.len() == p7 && b.subrange(0, p1) == f1 && b.subrange(p1, p2) == f2 && b.subrange(
                p2,
                p3,
            ) == f3 && b.subrange(p3, p4) == f4 && b.subrange(p4, p5) == f5 && b.subrange(p5, p6)
                == f6 && b.subrange(p6, p7) == f7
        }),
{
    let c2 = f1 + f2;
    let c3 = c2 + f3;
    let c4 = c3 + f4;
    let c5 = c4 + f5;
    let c6 = c5 + f6;
    let b = c6 + f7;
    let p1 = f1.len() as int;
    let p2 = p1 + f2.len() as int;
    let p3 = p2 + f3.len() as int;
    let p4 = p3 + f4.len() as int;
    let p5 = p4 + f5.len() as int;
    let p6 = p5 + f6.len() as int;
    let p7 = p6 + f7.len() as int;
    lemma_split_concat(c6, f7);
    lemma_split_concat(c5, f6);
    lemma_split_concat(c4, f5);
    lemma_split_concat(c3, f4);
    lemma_split_concat(c2, f3);
    lemma_split_concat(f1, f2);
    lemma_sub_subrange(b, p6, p5, p6);
    lemma_sub_subrange(b, p6, 0, p5);
    assert(b.subrange(0, p5) == c5);
    lemma_sub_subrange(b, p5, p4, p5);
    lemma_sub_subrange(b, p5, 0, p4);
    assert(b.subrange(0, p4) == c4);
    lemma_sub_subrange(b, p4, p3, p4);
    lemma_sub_subrange(b, p4, 0, p3);
    assert(b.subrange(0, p3) == c3);
    lemma_sub_subrange(b, p3, p2, p3);
    lemma_sub_subrange(b, p3, 0, p2);
    assert(b.subrange(0, p2) == c2);
    lemma_sub_subrange(b, p2, p1, p2);
    lemma_sub_subrange(b, p2, 0, p1);
}

/// Round trip: the parser recovers every message from its canonical
/// encoding.  This is the decoding half of the framing law.
#[verifier::rlimit(100)]
pub proof fn lemma_parse_message_canonical(mm: CastMessageModel)
    ensures
        spec_parse_message(spec_message_bytes(mm)) == Some(mm),
{
    broadcast use vstd::utf8::encode_utf8_valid_utf8, vstd::utf8::encode_utf8_decode_utf8;

    let b = spec_message_bytes(mm);
    let f1 = spec_varint_field(1, mm.protocol_version as nat);
    let f2 = spec_len_field(2, encode_utf8(mm.source_id));
    let f3 = spec_len_field(3, encode_utf8(mm.destination_id));
    let f4 = spec_len_field(4, encode_utf8(mm.namespace));
    let f5 = spec_varint_field(5, mm.payload_type as nat);
    let f6 = match mm.payload_utf8 {
        Some(s) => spec_len_field(6, encode_utf8(s)),
        None => Seq::<u8>::empty(),
    };
    let f7 = match mm.payload_binary {
        Some(d) => spec_len_field(7, d),
        None => Seq::<u8>::empty(),
    };
    let p1 = f1.len() as int;
    let p2 = p1 + f2.len() as int;
    let p3 = p2 + f3.len() as int;
    let p4 = p3 + f4.len() as int;
    let p5 = p4 + f5.len() as int;
    let p6 = p5 + f6.len() as int;
    let p7 = p6 + f7.len() as int;
    assert(b == f1 + f2 + f3 + f4 + f5 + f6 + f7);
    lemma_concat7_slices(f1, f2, f3, f4, f5, f6, f7);
    lemma_parse_varint_field_canonical(b, 0, 1, mm.protocol_version as nat);
    lemma_parse_len_field_canonical(b, p1, 2, encode_utf8(mm.source_id));
    lemma_parse_len_field_canonical(b, p2, 3, encode_utf8(mm.destination_id));
    lemma_parse_len_field_canonical(b, p3, 4, encode_utf8(mm.namespace));
    lemma_parse_varint_field_canonical(b, p4, 5, mm.payload_type as nat);
    assert(parse_str_field(b, p1, 2) == Some((mm.source_id, p2)));
    assert(parse_str_field(b, p2, 3) == Some((mm.destination_id, p3)));
    assert(parse_str_field(b, p3, 4) == Some((mm.namespace, p4)));
    match mm.payload_utf8 {
        Some(s) => {
            assert(b[p5] == f6[0]);
            assert(b[p5] == 50);
            lemma_parse_len_field_canonical(b, p5, 6, encode_utf8(s));
            assert(parse_opt_str_field(b, p5, 6) == Some((Some(s), p6)));
        },
        None => {
            if p5 < b.len() {
                assert(b[p5] == b.subrange(p6, p7)[0]);
                assert(b[p5] == 58);
            }
            assert(parse_opt_str_field(b, p5, 6) == Some((None::<Seq<char>>, p5)));
        },
    }
    match mm.payload_binary {
        Some(d) => {
            assert(b[p6] == f7[0]);
            assert(b[p6] == 58);
            lemma_parse_len_field_canonical(b, p6, 7, d);
            assert(parse_opt_bytes_field(b, p6, 7) == Some((Some(d), p7)));
        },
        None => {
            assert(parse_opt_bytes_field(b, p6, 7) == Some((None::<Seq<u8>>, p6)));
        },
    }
    assert(spec_parse_message(b) == Some(mm));
}

/// Reads a varint; `None` when the spec parser rejects it or its value
/// does not fit a `u64`.
fn read_varint(b: &Vec<u8>, pos: usize) -> (r: Option<(u64, usize)>)
    ensures
        match parse_varint(b@, pos as int) {
            Some((v, end)) => if v < 0x1_0000_0000_0000_0000 {
                r matches Some(p) && p.0 == v && p.1 == end
            } else {
                r is None
            },
            None => r is None,
        },
    decreases b@.len() - pos,
{
    if pos >= b.len() {
        return None;
    }
    let byte = b[pos];
    if byte < 128 {
        Some((byte as u64, pos + 1))
    } else {
        match read_varint(b, pos + 1) {
            None => None,
            Some((v, end)) => {
                if v == 0 {
                    None
                } else if v > 144115188075855871u64 {
                    None
                } else {
                    Some(((byte - 128) as u64 + v * 128, end))
                }
            },
        }
    }
}

/// A successful varint parse ends after its start and within the buffer.
proof fn lemma_parse_varint_bounds(b: Seq<u8>, pos: int)
    requires
        parse_varint(b, pos) is Some,
    ensures
        pos < parse_varint(b, pos).unwrap().1 <= b.len(),
    decreases b.len() - pos,
{
    if b[pos] >= 128 {
        lemma_parse_varint_bounds(b, pos + 1);
    }
}

/// A copy of `b[from..to]`.
pub(crate) fn sub_bytes(b: &Vec<u8>, from: usize, to: usize) -> (r: Vec<u8>)
    requires
        from <= to <= b@.len(),
    ensures
        r@ == b@.subrange(from as int, to as int),
{
    let mut r: Vec<u8> = Vec::new();
    let mut i: usize = from;
    while i < to
        invariant
            from <= i <= to <= b@.len(),
            r@ == b@.subrange(from as int, i as int),
        decreases to - i,
    {
        r.push(b[i]);
        i = i + 1;
        proof {
            assert(r@ =~= b@.subrange(from as int, i as int));
        }
    }
    r
}

/// Reads a length-delimited field with the given tag.
fn read_len_field(b: &Vec<u8>, pos: usize, tag: u8) -> (r: Option<(Vec<u8>, usize)>)
    requires
        1 <= tag <= 15,
    ensures
        match parse_len_field(b@, pos as int, tag as nat) {
            Some((data, end)) => r matches Some(p) && p.0@ == data && p.1 == end,
            None => r is None,
        },
{
    let blen = b.len();
    if pos >= blen {
        return None;
    }
    if b[pos] != tag * 8 + 2 {
        return None;
    }
    proof {
        assert(b@[pos as int] == (tag as nat * 8 + 2) as u8);
    }
    match read_varint(b, pos + 1) {
        None => {
            proof {
                if parse_varint(b@, pos as int + 1) is Some {
                    lemma_parse_varint_bounds(b@, pos as int + 1);
                }
                assert(parse_len_field(b@, pos as int, tag as nat) is None);
            }
            None
        },
        Some((l, p)) => {
            proof {
                lemma_parse_varint_bounds(b@, pos as int + 1);
            }
            if l > (blen - p) as u64 {
                proof {
                    assert(parse_len_field(b@, pos as int, tag as nat) is None);
                }
                None
            } else {
                let lu: usize = l as usize;
                let data = sub_bytes(b, p, p + lu);
                proof {
                    assert(parse_len_field(b@, pos as int, tag as nat) matches Some(q)
                        && q.0 == data@ && q.1 == p + lu);
                }
                Some((data, p + lu))
            }
        },
    }
}

/// Reads a UTF-8 text field with the given tag.
fn read_str_field(b: &Vec<u8>, pos: usize, tag: u8) -> (r: Option<(String, usize)>)
    requires
        1 <= tag <= 15,
    ensures
        match parse_str_field(b@, pos as int, tag as nat) {
            Some((s, end)) => r matches Some(p) && p.0@ == s && p.1 == end,
            None => r is None,
        },
{
    match read_len_field(b, pos, tag) {
        None => None,
        Some((data, end)) => match crate::text::string_from_utf8(data) {
            Some(s) => Some((s, end)),
            None => None,
        },
    }
}

/// Decodes the canonical encoding of a message; `None` exactly when the
/// spec parser rejects the bytes.
pub fn message_from_bytes(b: &Vec<u8>) -> (r: Option<CastMessage>)
    ensures
        match spec_parse_message(b@) {
            Some(mm) => r matches Some(m) && m@ == mm,
            None => r is None,
        },
{
    if b.len() == 0 {
        return None;
    }
    if b[0] != 8 {
        return None;
    }
    let (pv, p1) = match read_varint(b, 1) {
        None => {
            return None;
        },
        Some(p) => p,
    };
    if pv > 0xFFFF_FFFFu64 {
        return None;
    }
    let (sid, p2) = match read_str_field(b, p1, 2) {
        None => {
            return None;
        },
        Some(p) => p,
    };
    let (did, p3) = match read_str_field(b, p2, 3) {
        None => {
            return None;
        },
        Some(p) => p,
    };
    let (ns, p4) = match read_str_field(b, p3, 4) {
        None => {
            return None;
        },
        Some(p) => p,
    };
    if p4 >= b.len() || b[p4] != 40 {
        return None;
    }
    let (pt, p5) = match read_varint(b, p4 + 1) {
        None => {
            return None;
        },
        Some(p) => p,
    };
    if pt > 0xFFFF_FFFFu64 {
        return None;
    }
    let (pu, p6) = if p5 < b.len() && b[p5] == 50 {
        match read_str_field(b, p5, 6) {
            None => {
                return None;
            },
            Some((s, end)) => (Some(s), end),
        }
    } else {
        (None, p5)
    };
    let (pb, p7) = if p6 < b.len() && b[p6] == 58 {
        match read_len_field(b, p6, 7) {
            None => {
                return None;
            },
            Some((d, end)) => (Some(d), end),
        }
    } else {
        (None, p6)
    };
    if p7 != b.len() {
        return None;
    }
    Some(
        CastMessage {
            protocol_version: pv as u32,
            source_id: sid,
            destination_id: did,
            namespace: ns,
            payload_type: pt as u32,
            payload_utf8: pu,
            payload_binary: pb,
        },
    )
}

} // verus!
