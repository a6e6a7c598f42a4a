use vstd::prelude::*;

verus! {

/// Whether `v` is a Unicode scalar value: a code point below 0x110000 that
/// is not a surrogate. Text that crosses the native string bridge — device
/// names, location descriptions, mount points — is a sequence of these.
pub open spec fn is_scalar_value(v: u32) -> bool {
    v < 0xD800 || (0xE000 <= v && v < 0x110000)
}

/// Whether every element of `s` is a Unicode scalar value.
pub open spec fn all_scalar_values(s: Seq<u32>) -> bool {
    forall|i: int| 0 <= i < s.len() ==> is_scalar_value(#[trigger] s[i])
}

/// Whether `b` is a UTF-8 continuation byte.
pub open spec fn is_continuation(b: u8) -> bool {
    0x80 <= b < 0xC0
}

/// The UTF-8 bytes that encode the single scalar value `v`.
pub open spec fn encode_one_spec(v: u32) -> Seq<u8>
    recommends
        is_scalar_value(v),
{
    if v < 0x80 {
        seq![v as u8]
    } else if v < 0x800 {
        seq![(0xC0 | (v >> 6)) as u8, (0x80 | (v & 0x3F)) as u8]
    } else if v < 0x10000 {
        seq![
            (0xE0 | (v >> 12)) as u8,
            (0x80 | ((v >> 6) & 0x3F)) as u8,
            (0x80 | (v & 0x3F)) as u8,
        ]
    } else {
        seq![
            (0xF0 | (v >> 18)) as u8,
            (0x80 | ((v >> 12) & 0x3F)) as u8,
            (0x80 | ((v >> 6) & 0x3F)) as u8,
            (0x80 | (v & 0x3F)) as u8,
        ]
    }
}

/// The UTF-8 encoding of the scalar-value sequence `s`.
pub open spec fn encode_spec(s: Seq<u32>) -> Seq<u8>
    decreases s.len(),
{
    if s.len() == 0 {
        Seq::empty()
    } else {
        encode_one_spec(s[0]) + encode_spec(s.drop_first())
    }
}

/// `rest` with `v` prepended, if `rest` decoded at all.
pub open spec fn prepend(v: u32, rest: Option<Seq<u32>>) -> Option<Seq<u32>> {
    match rest {
        Some(t) => Some(seq![v] + t),
        None => None,
    }
}

/// The scalar values that the byte sequence `b` decodes to, or `None` if
/// `b` is not a well-formed UTF-8 encoding. The decoder is strict: stray
/// continuation bytes, truncated sequences, overlong forms, surrogates and
/// values past 0x10FFFF are all rejected.
pub open spec fn decode_spec(b: Seq<u8>) -> Option<Seq<u32>>
    decreases b.len(),
{
    if b.len() == 0 {
        Some(Seq::empty())
    } else {
        let b0 = b[0];
        if b0 < 0x80 {
            prepend(b0 as u32, decode_spec(b.drop_first()))
        } else if 0xC0 <= b0 && b0 < 0xE0 {
            if b.len() >= 2 && is_continuation(b[1]) {
                let w = (((b0 & 0x1F) as u32) << 6) | ((b[1] & 0x3F) as u32);
                if 0x80 <= w {
                    prepend(w, decode_spec(b.skip(2)))
                } else {
                    None
                }
            } else {
                None
            }
        } else if 0xE0 <= b0 && b0 < 0xF0 {
            if b.len() >= 3 && is_continuation(b[1]) && is_continuation(b[2]) {
                let w = (((b0 & 0x0F) as u32) << 12) | (((b[1] & 0x3F) as u32) << 6) | ((b[2]
                    & 0x3F) as u32);
                if 0x800 <= w && is_scalar_value(w) {
                    prepend(w, decode_spec(b.skip(3)))
                } else {
                    None
                }
            } else {
                None
            }
        } else if 0xF0 <= b0 && b0 < 0xF8 {
            if b.len() >= 4 && is_continuation(b[1]) && is_continuation(b[2]) && is_continuation(
                b[3],
            ) {
                let w = (((b0 & 0x07) as u32) << 18) | (((b[1] & 0x3F) as u32) << 12) | (((b[2]
                    & 0x3F) as u32) << 6) | ((b[3] & 0x3F) as u32);
                if 0x10000 <= w && w < 0x110000 {
                    prepend(w, decode_spec(b.skip(4)))
                } else {
                    None
                }
            } else {
                None
            }
        } else {
            None
        }
    }
}

/// Decoding undoes encoding for a single scalar value placed in front of
/// any remaining bytes.
proof fn lemma_decode_one(v: u32, rest: Seq<u8>)
    requires
        is_scalar_value(v),
    ensures
        decode_spec(encode_one_spec(v) + rest) == prepend(v, decode_spec(rest)),
{
    let e = encode_one_spec(v);
    let b = e + rest;
    if v < 0x80 {
        assert((v as u8) < 0x80 && (v as u8) as u32 == v) by (bit_vector)
            requires
                v < 0x80,
        ;
        assert(b[0] == e[0]);
        assert(b.drop_first() =~= rest);
    } else if v < 0x800 {
        let x0 = (0xC0 | (v >> 6)) as u8;
        let x1 = (0x80 | (v & 0x3F)) as u8;
        assert(0xC0 <= x0 && x0 < 0xE0 && 0x80 <= x1 && x1 < 0xC0 && ((((x0 & 0x1F) as u32) << 6)
            | ((x1 & 0x3F) as u32)) == v) by (bit_vector)
            requires
                0x80 <= v && v < 0x800,
                x0 == (0xC0 | (v >> 6)) as u8,
                x1 == (0x80 | (v & 0x3F)) as u8,
        ;
        assert(b[0] == e[0] && b[1] == e[1]);
        assert(b.skip(2) =~= rest);
    } else if v < 0x10000 {
        let x0 = (0xE0 | (v >> 12)) as u8;
        let x1 = (0x80 | ((v >> 6) & 0x3F)) as u8;
        let x2 = (0x80 | (v & 0x3F)) as u8;
        assert(0xE0 <= x0 && x0 < 0xF0 && 0x80 <= x1 && x1 < 0xC0 && 0x80 <= x2 && x2 < 0xC0 && ((((
        x0 & 0x0F) as u32) << 12) | (((x1 & 0x3F) as u32) << 6) | ((x2 & 0x3F) as u32)) == v)
            by (bit_vector)
            requires
                0x800 <= v && v < 0x10000,
                x0 == (0xE0 | (v >> 12)) as u8,
                x1 == (0x80 | ((v >> 6) & 0x3F)) as u8,
                x2 == (0x80 | (v & 0x3F)) as u8,
        ;
        assert(b[0] == e[0] && b[1] == e[1] && b[2] == e[2]);
        assert(b.skip(3) =~= rest);
    } else {
        let x0 = (0xF0 | (v >> 18)) as u8;
        let x1 = (0x80 | ((v >> 12) & 0x3F)) as u8;
        let x2 = (0x80 | ((v >> 6) & 0x3F)) as u8;
        let x3 = (0x80 | (v & 0x3F)) as u8;
        assert(0xF0 <= x0 && x0 < 0xF8 && 0x80 <= x1 && x1 < 0xC0 && 0x80 <= x2 && x2 < 0xC0 && 0x80
            <= x3 && x3 < 0xC0 && ((((x0 & 0x07) as u32) << 18) | (((x1 & 0x3F) as u32) << 12) | (((
        x2 & 0x3F) as u32) << 6) | ((x3 & 0x3F) as u32)) == v) by (bit_vector)
            requires
                0x10000 <= v && v < 0x110000,
                x0 == (0xF0 | (v >> 18)) as u8,
                x1 == (0x80 | ((v >> 12) & 0x3F)) as u8,
                x2 == (0x80 | ((v >> 6) & 0x3F)) as u8,
                x3 == (0x80 | (v & 0x3F)) as u8,
        ;
        assert(b[0] == e[0] && b[1] == e[1] && b[2] == e[2] && b[3] == e[3]);
        assert(b.skip(4) =~= rest);
    }
}

/// Encoding distributes over concatenation.
pub proof fn lemma_encode_append(a: Seq<u32>, b: Seq<u32>)
    ensures
        encode_spec(a + b) == encode_spec(a) + encode_spec(b),
    decreases a.len(),
{
    if a.len() == 0 {
        assert(a + b =~= b);
        assert(encode_spec(a) + encode_spec(b) =~= encode_spec(b));
    } else {
        assert((a + b)[0] == a[0]);
        assert((a + b).drop_first() =~= a.drop_first() + b);
        lemma_encode_append(a.drop_first(), b);
        assert(encode_spec(a + b) =~= encode_spec(a) + encode_spec(b));
    }
}

/// Round trip of the string bridge: decoding the encoding of any sequence
/// of Unicode scalar values yields exactly the original sequence.
pub proof fn lemma_encode_decode_round_trip(s: Seq<u32>)
    requires
        all_scalar_values(s),
    ensures
        decode_spec(encode_spec(s)) == Some(s),
    decreases s.len(),
{
    if s.len() == 0 {
        assert(encode_spec(s) =~= Seq::<u8>::empty());
    } else {
        lemma_decode_one(s[0], encode_spec(s.drop_first()));
        assert(all_scalar_values(s.drop_first())) by {
            assert(forall|i: int|
                0 <= i < s.drop_first().len() ==> #[trigger] s.drop_first()[i] == s[i + 1]);
        }
        lemma_encode_decode_round_trip(s.drop_first());
        assert(seq![s[0]] + s.drop_first() =~= s);
    }
}

/// One encoding step at index `i`: encoding `i + 1` elements is encoding
/// `i` elements followed by the bytes of element `i`.
proof fn lemma_encode_take_step(s: Seq<u32>, i: int)
    requires
        0 <= i < s.len(),
    ensures
        encode_spec(s.take(i + 1)) == encode_spec(s.take(i)) + encode_one_spec(s[i]),
{
    assert(s.take(i + 1) =~= s.take(i) + seq![s[i]]);
    lemma_encode_append(s.take(i), seq![s[i]]);
    assert(seq![s[i]].drop_first() =~= Seq::<u32>::empty());
    assert(encode_spec(Seq::<u32>::empty()) =~= Seq::<u8>::empty());
    assert(encode_spec(seq![s[i]]) =~= encode_one_spec(s[i]));
}

/// Encode a sequence of Unicode scalar values as UTF-8 bytes, the form in
/// which text is handed to the native string bridge.
pub fn encode_utf8(s: &Vec<u32>) -> (r: Vec<u8>)
    requires
        all_scalar_values(s@),
    ensures
        r@ == encode_spec(s@),
{
    let mut out: Vec<u8> = Vec::new();
    let mut i: usize = 0;
    while i < s.len()
        invariant
            i <= s@.len(),
            all_scalar_values(s@),
            out@ == encode_spec(s@.take(i as int)),
        decreases s@.len() - i,
    {
        let v = s[i];
        assert(is_scalar_value(v));
        if v < 0x80 {
            out.push(v as u8);
        } else if v < 0x800 {
            out.push((0xC0 | (v >> 6)) as u8);
            out.push((0x80 | (v & 0x3F)) as u8);
        } else if v < 0x10000 {
            out.push((0xE0 | (v >> 12)) as u8);
            out.push((0x80 | ((v >> 6) & 0x3F)) as u8);
            out.push((0x80 | (v & 0x3F)) as u8);
        } else {
            out.push((0xF0 | (v >> 18)) as u8);
            out.push((0x80 | ((v >> 12) & 0x3F)) as u8);
            out.push((0x80 | ((v >> 6) & 0x3F)) as u8);
            out.push((0x80 | (v & 0x3F)) as u8);
        }
        proof {
            lemma_encode_take_step(s@, i as int);
            assert(out@ =~= encode_spec(s@.take(i as int + 1)));
        }
        i = i + 1;
    }
    proof {
        assert(s@.take(s@.len() as int) =~= s@);
    }
    out
}

/// Whether `x` is a UTF-8 continuation byte.
fn is_continuation_byte(x: u8) -> (r: bool)
    ensures
        r == is_continuation(x),
{
    0x80 <= x && x < 0xC0
}

/// Decode the bytes of `b` from position `i` on.
fn decode_from(b: &Vec<u8>, i: usize) -> (r: Option<Vec<u32>>)
    requires
        i <= b@.len(),
    ensures
        match r {
            Some(v) => decode_spec(b@.skip(i as int)) == Some(v@),
            None => decode_spec(b@.skip(i as int)) is None,
        },
    decreases b@.len() - i,
{
    let ghost t = b@.skip(i as int);
    if i == b.len() {
        proof {
            assert(t =~= Seq::<u8>::empty());
        }
        return Some(Vec::new());
    }
    let n = b.len();
    let b0 = b[i];
    proof {
        assert(t[0] == b@[i as int]);
        assert(t.len() == b@.len() - i);
    }
    if b0 < 0x80 {
        proof {
            assert(t.drop_first() =~= b@.skip(i as int + 1));
        }
        match decode_from(b, i + 1) {
            Some(mut v) => {
                let ghost u = v@;
                v.insert(0, b0 as u32);
                proof {
                    assert(v@ =~= seq![b0 as u32] + u);
                }
                Some(v)
            },
            None => None,
        }
    } else if 0xC0 <= b0 && b0 < 0xE0 {
        if n - i >= 2 && is_continuation_byte(b[i + 1]) {
            proof {
                assert(t[1] == b@[i as int + 1]);
            }
            let w = (((b0 & 0x1F) as u32) << 6) | ((b[i + 1] & 0x3F) as u32);
            if 0x80 <= w {
                proof {
                    assert(t.skip(2) =~= b@.skip(i as int + 2));
                }
                match decode_from(b, i + 2) {
                    Some(mut v) => {
                        let ghost u = v@;
                        v.insert(0, w);
                        proof {
                            assert(v@ =~= seq![w] + u);
                        }
                        Some(v)
                    },
                    None => None,
                }
            } else {
                None
            }
        } else {
            None
        }
    } else if 0xE0 <= b0 && b0 < 0xF0 {
        if n - i >= 3 && is_continuation_byte(b[i + 1]) && is_continuation_byte(b[i + 2]) {
            proof {
                assert(t[1] == b@[i as int + 1] && t[2] == b@[i as int + 2]);
            }
            let w = (((b0 & 0x0F) as u32) << 12) | (((b[i + 1] & 0x3F) as u32) << 6) | ((b[i + 2]
                & 0x3F) as u32);
            if 0x800 <= w && (w < 0xD800 || (0xE000 <= w && w < 0x110000)) {
                proof {
                    assert(t.skip(3) =~= b@.skip(i as int + 3));
                }
                match decode_from(b, i + 3) {
                    Some(mut v) => {
                        let ghost u = v@;
                        v.insert(0, w);
                        proof {
                            assert(v@ =~= seq![w] + u);
                        }
                        Some(v)
                    },
                    None => None,
                }
            } else {
                None
            }
        } else {
            None
        }
    } else if 0xF0 <= b0 && b0 < 0xF8 {
        if n - i >= 4 && is_continuation_byte(b[i + 1]) && is_continuation_byte(b[i + 2])
            && is_continuation_byte(b[i + 3]) {
            proof {
                assert(t[1] == b@[i as int + 1] && t[2] == b@[i as int + 2] && t[3] == b@[i as int
                    + 3]);
            }
            let w = (((b0 & 0x07) as u32) << 18) | (((b[i + 1] & 0x3F) as u32) << 12) | (((b[i + 2]
                & 0x3F) as u32) << 6) | ((b[i + 3] & 0x3F) as u32);
            if 0x10000 <= w && w < 0x110000 {
                proof {
                    assert(t.skip(4) =~= b@.skip(i as int + 4));
                }
                match decode_from(b, i + 4) {
                    Some(mut v) => {
                        let ghost u = v@;
                        v.insert(0, w);
                        proof {
                            assert(v@ =~= seq![w] + u);
                        }
                        Some(v)
                    },
                    None => None,
                }
            } else {
                None
            }
        } else {
            None
        }
    } else {
        None
    }
}

/// Decode UTF-8 bytes coming back over the native string bridge into the
/// sequence of Unicode scalar values they encode, or `None` if the bytes
/// are not well-formed UTF-8.
pub fn decode_utf8(b: &Vec<u8>) -> (r: Option<Vec<u32>>)
    ensures
        match r {
            Some(v) => decode_spec(b@) == Some(v@),
            None => decode_spec(b@) is None,
        },
{
    let r = decode_from(b, 0);
    proof {
        assert(b@.skip(0) =~= b@);
    }
    r
}

} // verus!
