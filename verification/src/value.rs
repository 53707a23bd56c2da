//! The stable binary codec. Every persisted entity is first rendered into a
//! self-describing [`Value`] tree (numbers, text, raw bytes, pairs), and one
//! byte codec serves every entity kind. Encoding is deterministic; decoding
//! recovers exactly what was encoded, which is stated as the decoder's
//! contract and gives every entity its round-trip law.

use vstd::prelude::*;
use vstd::bytes::{lemma_auto_spec_u64_to_from_le_bytes, spec_u64_to_le_bytes, u64_from_le_bytes,
    u64_to_le_bytes};
use vstd::slice::{slice_subrange, slice_to_vec};
use vstd::string::StrSliceExecFns;
use vstd::string::StringSliceAdditionalSpecFns;
use vstd::utf8::{encode_utf8, encode_utf8_decode_utf8, encode_utf8_valid_utf8, valid_utf8};

verus! {

/// A self-describing value tree: the wire shape shared by every entity codec.
/// Sequences and records are built from nested pairs ending in `Unit`.
#[derive(Debug)]
pub enum Value {
    Num(u64),
    Txt(String),
    Bin(Vec<u8>),
    Pair(Box<Value>, Box<Value>),
    Unit,
}

/// The mathematical shape of a `Value`.
pub ghost enum ValueModel {
    Num(u64),
    Txt(Seq<char>),
    Bin(Seq<u8>),
    Pair(Box<ValueModel>, Box<ValueModel>),
    Unit,
}

/// The shape that a `Value` holds.
pub open spec fn value_model(v: Value) -> ValueModel
    decreases v,
{
    match v {
        Value::Num(x) => ValueModel::Num(x),
        Value::Txt(s) => ValueModel::Txt(s@),
        Value::Bin(bs) => ValueModel::Bin(bs.deep_view()),
        Value::Pair(a, b) => ValueModel::Pair(
            Box::new(value_model(*a)),
            Box::new(value_model(*b)),
        ),
        Value::Unit => ValueModel::Unit,
    }
}

impl DeepView for Value {
    type V = ValueModel;

    open spec fn deep_view(&self) -> ValueModel {
        value_model(*self)
    }
}

impl Value {
    /// Builds a pair value.
    pub fn pair(a: Value, b: Value) -> (r: Value)
        ensures
            r.deep_view() == ValueModel::Pair(Box::new(a.deep_view()), Box::new(b.deep_view())),
    {
        Value::Pair(Box::new(a), Box::new(b))
    }

    /// Builds the unit value.
    pub fn unit() -> (r: Value)
        ensures
            r.deep_view() == ValueModel::Unit,
    {
        Value::Unit
    }

    /// Whether this value is the unit value.
    pub fn is_unit(&self) -> (r: bool)
        ensures
            r == (self.deep_view() is Unit),
    {
        match self {
            Value::Unit => true,
            _ => false,
        }
    }

    /// Takes a pair apart; fails on any other shape.
    pub fn into_pair(self) -> (r: Option<(Value, Value)>)
        ensures
            r matches Some(p) ==> self.deep_view() == ValueModel::Pair(
                Box::new(p.0.deep_view()),
                Box::new(p.1.deep_view()),
            ),
            r is None ==> !(self.deep_view() is Pair),
    {
        match self {
            Value::Pair(a, b) => Some((*a, *b)),
            _ => None,
        }
    }

    /// Takes the text out of a text value; fails on any other shape.
    pub fn into_txt(self) -> (r: Option<String>)
        ensures
            r matches Some(s) ==> self.deep_view() == ValueModel::Txt(s@),
            r is None ==> !(self.deep_view() is Txt),
    {
        match self {
            Value::Txt(s) => Some(s),
            _ => None,
        }
    }

    /// Takes the number out of a numeric value; fails on any other shape.
    pub fn into_num(self) -> (r: Option<u64>)
        ensures
            r matches Some(x) ==> self.deep_view() == ValueModel::Num(x),
            r is None ==> !(self.deep_view() is Num),
    {
        match self {
            Value::Num(x) => Some(x),
            _ => None,
        }
    }

    /// Takes the bytes out of a byte-string value; fails on any other shape.
    pub fn into_bin(self) -> (r: Option<Vec<u8>>)
        ensures
            r matches Some(bs) ==> self.deep_view() == ValueModel::Bin(bs.deep_view()),
            r is None ==> !(self.deep_view() is Bin),
    {
        match self {
            Value::Bin(bs) => Some(bs),
            _ => None,
        }
    }
}

/// The byte encoding of a value shape: a tag byte and an 8-byte little-endian
/// number, then the payload bytes, if any.
pub open spec fn enc(m: ValueModel) -> Seq<u8>
    decreases m,
{
    match m {
        ValueModel::Num(x) => seq![0u8] + spec_u64_to_le_bytes(x),
        ValueModel::Txt(s) => seq![1u8] + spec_u64_to_le_bytes(encode_utf8(s).len() as u64)
            + encode_utf8(s),
        ValueModel::Bin(bs) => seq![2u8] + spec_u64_to_le_bytes(bs.len() as u64) + bs,
        ValueModel::Pair(a, b) => seq![3u8] + spec_u64_to_le_bytes(0) + enc(*a) + enc(*b),
        ValueModel::Unit => seq![4u8] + spec_u64_to_le_bytes(0),
    }
}

/// Every encoding carries at least its tag and one 8-byte number.
pub proof fn lemma_enc_min_len(m: ValueModel)
    ensures
        enc(m).len() >= 9,
{
    lemma_auto_spec_u64_to_from_le_bytes();
}

/// Splitting a subrange that equals a concatenation into its two halves.
pub proof fn lemma_subrange_concat(s: Seq<u8>, a: int, x: Seq<u8>, y: Seq<u8>)
    requires
        0 <= a,
        a + x.len() + y.len() <= s.len(),
        s.subrange(a, a + x.len() + y.len()) == x + y,
    ensures
        s.subrange(a, a + x.len()) == x,
        s.subrange(a + x.len(), a + x.len() + y.len()) == y,
{
    let xy = x + y;
    assert forall|k: int| 0 <= k < x.len() implies #[trigger] s.subrange(a, a + x.len())[k]
        == x[k] by {
        assert(xy[k] == s.subrange(a, a + x.len() + y.len())[k]);
    }
    assert(s.subrange(a, a + x.len()) =~= x);
    assert forall|k: int| 0 <= k < y.len() implies #[trigger] s.subrange(
        a + x.len(),
        a + x.len() + y.len(),
    )[k] == y[k] by {
        assert(xy[x.len() + k] == s.subrange(a, a + x.len() + y.len())[x.len() + k]);
    }
    assert(s.subrange(a + x.len(), a + x.len() + y.len()) =~= y);
}

/// Appends the encoding of `v` to `out`.
pub fn encode_value(v: &Value, out: &mut Vec<u8>)
    ensures
        final(out)@ == old(out)@ + enc(v.deep_view()),
    decreases v,
{
    proof {
        lemma_auto_spec_u64_to_from_le_bytes();
    }
    match v {
        Value::Num(x) => {
            out.push(0u8);
            let mut tail = u64_to_le_bytes(*x);
            out.append(&mut tail);
            assert(out@ =~= old(out)@ + enc(v.deep_view()));
        },
        Value::Txt(s) => {
            out.push(1u8);
            let mut bs = s.as_str().as_bytes_vec();
            let mut lenb = u64_to_le_bytes(bs.len() as u64);
            out.append(&mut lenb);
            out.append(&mut bs);
            assert(out@ =~= old(out)@ + enc(v.deep_view()));
        },
        Value::Bin(payload) => {
            out.push(2u8);
            let mut lenb = u64_to_le_bytes(payload.len() as u64);
            out.append(&mut lenb);
            out.extend_from_slice(payload.as_slice());
            assert(out@ =~= old(out)@ + enc(v.deep_view()));
        },
        Value::Pair(a, b) => {
            out.push(3u8);
            let mut lenb = u64_to_le_bytes(0);
            out.append(&mut lenb);
            encode_value(a, out);
            encode_value(b, out);
            assert(out@ =~= old(out)@ + enc(v.deep_view()));
        },
        Value::Unit => {
            out.push(4u8);
            let mut lenb = u64_to_le_bytes(0);
            out.append(&mut lenb);
            assert(out@ =~= old(out)@ + enc(v.deep_view()));
        },
    }
}

/// Encodes a value into a fresh byte vector.
pub fn encode_to_vec(v: &Value) -> (r: Vec<u8>)
    ensures
        r@ == enc(v.deep_view()),
{
    let mut out: Vec<u8> = Vec::new();
    encode_value(v, &mut out);
    proof {
        assert(Seq::<u8>::empty() + enc(v.deep_view()) =~= enc(v.deep_view()));
    }
    out
}

/// Decodes one value starting at `pos`. Whatever value shape is encoded
/// there is returned exactly, together with the position just past it.
pub fn decode_value(b: &Vec<u8>, pos: usize) -> (r: Option<(Value, usize)>)
    requires
        pos <= b@.len(),
    ensures
        forall|m: ValueModel|
            (pos + enc(m).len() <= b@.len() && b@.subrange(
                pos as int,
                pos + enc(m).len(),
            ) == #[trigger] enc(m)) ==> (r matches Some(p) && p.0.deep_view() == m && p.1 == pos
                + enc(m).len()),
        r matches Some(p) ==> pos < p.1 <= b@.len(),
    decreases b@.len() - pos,
{
    proof {
        lemma_auto_spec_u64_to_from_le_bytes();
    }
    let len = b.len();
    assert(b@.len() <= u64::MAX);
    if len - pos < 9 {
        proof {
            assert forall|m: ValueModel| pos + enc(m).len() <= b@.len() implies false by {
                lemma_enc_min_len(m);
            }
        }
        return None;
    }
    let tag = b[pos];
    let n = u64_from_le_bytes(slice_subrange(b.as_slice(), pos + 1, pos + 9));
    let rem = len - (pos + 9);
    match tag {
        0u8 => {
            let r = Some((Value::Num(n), pos + 9));
            proof {
                assert forall|m: ValueModel|
                    (pos + enc(m).len() <= b@.len() && b@.subrange(pos as int, pos + enc(m).len())
                        == enc(m)) implies (r matches Some(p) && p.0.deep_view() == m && p.1 == pos
                    + enc(m).len()) by {
                    lemma_decode_head(b@, pos as int, m);
                    if let ValueModel::Num(x) = m {
                        lemma_subrange_concat(b@, pos as int, seq![0u8], spec_u64_to_le_bytes(x));
                    }
                }
            }
            r
        },
        1u8 => {
            if n > rem as u64 {
                proof {
                    assert forall|m: ValueModel|
                        (pos + enc(m).len() <= b@.len() && b@.subrange(
                            pos as int,
                            pos + enc(m).len(),
                        ) == enc(m)) implies false by {
                        lemma_decode_head(b@, pos as int, m);
                    }
                }
                return None;
            }
            let end = pos + 9 + (n as usize);
            let sl = slice_subrange(b.as_slice(), pos + 9, end);
            match core::str::from_utf8(sl) {
                Ok(s) => {
                    let owned = s.to_owned();
                    let r = Some((Value::Txt(owned), end));
                    proof {
                        assert forall|m: ValueModel|
                            (pos + enc(m).len() <= b@.len() && b@.subrange(
                                pos as int,
                                pos + enc(m).len(),
                            ) == enc(m)) implies (r matches Some(p) && p.0.deep_view() == m && p.1
                            == pos + enc(m).len()) by {
                            lemma_decode_head(b@, pos as int, m);
                            if let ValueModel::Txt(t) = m {
                                assert(sl@ == encode_utf8(t));
                                encode_utf8_decode_utf8(t);
                                encode_utf8_decode_utf8(owned@);
                            }
                        }
                    }
                    r
                },
                Err(_) => {
                    proof {
                        assert forall|m: ValueModel|
                            (pos + enc(m).len() <= b@.len() && b@.subrange(
                                pos as int,
                                pos + enc(m).len(),
                            ) == enc(m)) implies false by {
                            lemma_decode_head(b@, pos as int, m);
                            if let ValueModel::Txt(t) = m {
                                assert(sl@ == encode_utf8(t));
                                encode_utf8_valid_utf8(t);
                            }
                        }
                    }
                    None
                },
            }
        },
        2u8 => {
            if n > rem as u64 {
                proof {
                    assert forall|m: ValueModel|
                        (pos + enc(m).len() <= b@.len() && b@.subrange(
                            pos as int,
                            pos + enc(m).len(),
                        ) == enc(m)) implies false by {
                        lemma_decode_head(b@, pos as int, m);
                    }
                }
                return None;
            }
            let end = pos + 9 + (n as usize);
            let payload = slice_to_vec(slice_subrange(b.as_slice(), pos + 9, end));
            let r = Some((Value::Bin(payload), end));
            proof {
                assert(payload.deep_view() =~= payload@);
                assert forall|m: ValueModel|
                    (pos + enc(m).len() <= b@.len() && b@.subrange(pos as int, pos + enc(m).len())
                        == enc(m)) implies (r matches Some(p) && p.0.deep_view() == m && p.1 == pos
                    + enc(m).len()) by {
                    lemma_decode_head(b@, pos as int, m);
                }
            }
            r
        },
        3u8 => {
            let first = decode_value(b, pos + 9);
            match first {
                Some((va, p1)) => {
                    let second = decode_value(b, p1);
                    match second {
                        Some((vb, p2)) => {
                            let r = Some((Value::Pair(Box::new(va), Box::new(vb)), p2));
                            proof {
                                assert forall|m: ValueModel|
                                    (pos + enc(m).len() <= b@.len() && b@.subrange(
                                        pos as int,
                                        pos + enc(m).len(),
                                    ) == enc(m)) implies (r matches Some(p) && p.0.deep_view() == m
                                    && p.1 == pos + enc(m).len()) by {
                                    lemma_decode_head(b@, pos as int, m);
                                }
                            }
                            r
                        },
                        None => {
                            proof {
                                assert forall|m: ValueModel|
                                    (pos + enc(m).len() <= b@.len() && b@.subrange(
                                        pos as int,
                                        pos + enc(m).len(),
                                    ) == enc(m)) implies false by {
                                    lemma_decode_head(b@, pos as int, m);
                                }
                            }
                            None
                        },
                    }
                },
                None => {
                    proof {
                        assert forall|m: ValueModel|
                            (pos + enc(m).len() <= b@.len() && b@.subrange(
                                pos as int,
                                pos + enc(m).len(),
                            ) == enc(m)) implies false by {
                            lemma_decode_head(b@, pos as int, m);
                        }
                    }
                    None
                },
            }
        },
        4u8 => {
            let r = Some((Value::Unit, pos + 9));
            proof {
                assert forall|m: ValueModel|
                    (pos + enc(m).len() <= b@.len() && b@.subrange(pos as int, pos + enc(m).len())
                        == enc(m)) implies (r matches Some(p) && p.0.deep_view() == m && p.1 == pos
                    + enc(m).len()) by {
                    lemma_decode_head(b@, pos as int, m);
                }
            }
            r
        },
        _ => {
            proof {
                assert forall|m: ValueModel|
                    (pos + enc(m).len() <= b@.len() && b@.subrange(pos as int, pos + enc(m).len())
                        == enc(m)) implies false by {
                    lemma_decode_head(b@, pos as int, m);
                }
            }
            None
        },
    }
}

/// Decodes a byte vector that holds exactly one value.
pub fn decode_from_bytes(b: &Vec<u8>) -> (r: Option<Value>)
    ensures
        forall|m: ValueModel|
            b@ == #[trigger] enc(m) ==> (r matches Some(v) && v.deep_view() == m),
{
    proof {
        assert forall|m: ValueModel| b@ == #[trigger] enc(m) implies b@.subrange(
            0,
            enc(m).len() as int,
        ) == enc(m) by {
            assert(b@.subrange(0, b@.len() as int) =~= b@);
        }
    }
    match decode_value(b, 0) {
        Some((v, p)) => {
            if p == b.len() {
                Some(v)
            } else {
                None
            }
        },
        None => None,
    }
}

/// If the encoding of `m` sits at `pos` in `b`, then the tag byte at `pos`
/// and the 8 bytes after it identify the variant of `m`, and the payload of
/// `m` follows.
proof fn lemma_decode_head(b: Seq<u8>, pos: int, m: ValueModel)
    requires
        0 <= pos,
        b.len() <= u64::MAX,
        pos + enc(m).len() <= b.len(),
        b.subrange(pos, pos + enc(m).len()) == enc(m),
        pos + 9 <= b.len(),
    ensures
        b[pos] == match m {
            ValueModel::Num(_) => 0u8,
            ValueModel::Txt(_) => 1u8,
            ValueModel::Bin(_) => 2u8,
            ValueModel::Pair(_, _) => 3u8,
            ValueModel::Unit => 4u8,
        },
        b.subrange(pos + 1, pos + 9) == match m {
            ValueModel::Num(x) => spec_u64_to_le_bytes(x),
            ValueModel::Txt(s) => spec_u64_to_le_bytes(encode_utf8(s).len() as u64),
            ValueModel::Bin(bs) => spec_u64_to_le_bytes(bs.len() as u64),
            ValueModel::Pair(_, _) => spec_u64_to_le_bytes(0),
            ValueModel::Unit => spec_u64_to_le_bytes(0),
        },
        m matches ValueModel::Txt(s) ==> {
            &&& pos + 9 + encode_utf8(s).len() <= b.len()
            &&& encode_utf8(s).len() as u64 == encode_utf8(s).len()
            &&& b.subrange(pos + 9, pos + 9 + encode_utf8(s).len()) == encode_utf8(s)
        },
        m matches ValueModel::Bin(bs) ==> {
            &&& pos + 9 + bs.len() <= b.len()
            &&& bs.len() as u64 == bs.len()
            &&& b.subrange(pos + 9, pos + 9 + bs.len()) == bs
        },
        m matches ValueModel::Pair(x, y) ==> {
            &&& pos + 9 + enc(*x).len() + enc(*y).len() <= b.len()
            &&& b.subrange(pos + 9, pos + 9 + enc(*x).len()) == enc(*x)
            &&& b.subrange(pos + 9 + enc(*x).len(), pos + 9 + enc(*x).len() + enc(*y).len())
                == enc(*y)
        },
{
    lemma_auto_spec_u64_to_from_le_bytes();
    lemma_enc_min_len(m);
    let e = enc(m);
    assert(b[pos] == e[0]) by {
        assert(b.subrange(pos, pos + e.len() as int)[0] == b[pos]);
    }
    assert forall|k: int| 0 <= k < 8 implies #[trigger] b.subrange(pos + 1, pos + 9)[k] == e[1
        + k] by {
        assert(b.subrange(pos, pos + e.len() as int)[1 + k] == b[pos + 1 + k]);
    }
    match m {
        ValueModel::Num(x) => {
            assert(b.subrange(pos + 1, pos + 9) =~= spec_u64_to_le_bytes(x));
        },
        ValueModel::Txt(s) => {
            assert(encode_utf8(s).len() <= u64::MAX);
            let hdr = seq![1u8] + spec_u64_to_le_bytes(encode_utf8(s).len() as u64);
            lemma_subrange_concat(b, pos, hdr, encode_utf8(s));
            assert(b.subrange(pos + 1, pos + 9) =~= spec_u64_to_le_bytes(
                encode_utf8(s).len() as u64,
            ));
        },
        ValueModel::Bin(bs) => {
            assert(bs.len() <= u64::MAX);
            let hdr = seq![2u8] + spec_u64_to_le_bytes(bs.len() as u64);
            lemma_subrange_concat(b, pos, hdr, bs);
            assert(b.subrange(pos + 1, pos + 9) =~= spec_u64_to_le_bytes(bs.len() as u64));
        },
        ValueModel::Pair(x, y) => {
            let hdr = seq![3u8] + spec_u64_to_le_bytes(0);
            assert(enc(m) =~= hdr + (enc(*x) + enc(*y)));
            lemma_subrange_concat(b, pos, hdr, enc(*x) + enc(*y));
            assert(b.subrange(pos + 1, pos + 9) =~= spec_u64_to_le_bytes(0));
            lemma_subrange_concat(b, pos + 9, enc(*x), enc(*y));
        },
        ValueModel::Unit => {
            assert(b.subrange(pos + 1, pos + 9) =~= spec_u64_to_le_bytes(0));
        },
    }
}

} // verus!
