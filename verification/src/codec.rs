//! The byte record a configuration is persisted as.
//!
//! The record is a fixed framing of the three strings and the colour code:
//! each string as an 8-byte little-endian length followed by its UTF-8
//! bytes, then the colour code as 4 little-endian bytes. Decoding accepts
//! exactly the records encoding produces; anything else — short input,
//! lengths past the end, bytes that are not UTF-8, a colour past 24 bits,
//! trailing garbage — is rejected, and the store treats it as absence.

use vstd::prelude::*;
use vstd::string::StrSliceExecFns;
use vstd::utf8::{
    decode_utf8, encode_utf8, encode_utf8_decode_utf8, encode_utf8_valid_utf8, valid_utf8,
};

use crate::config::{InternalConfig, InternalView};

verus! {

/// 256 to the `k`th power.
pub open spec fn pow256(k: nat) -> int
    decreases k,
{
    if k == 0 {
        1
    } else {
        256 * pow256((k - 1) as nat)
    }
}

/// `pow256` at the two widths the record uses.
pub proof fn lemma_pow256_values()
    ensures
        pow256(4) == 0x100000000,
        pow256(8) == 0x10000000000000000,
{
    assert(pow256(0) == 1);
    assert(pow256(1) == 256);
    assert(pow256(2) == 0x10000);
    assert(pow256(3) == 0x1000000);
    assert(pow256(4) == 0x100000000);
    assert(pow256(5) == 0x10000000000);
    assert(pow256(6) == 0x1000000000000);
    assert(pow256(7) == 0x100000000000000);
    assert(pow256(8) == 0x10000000000000000);
}

/// The `k` little-endian base-256 digits of `n`, least significant first.
pub open spec fn le_bytes(n: int, k: nat) -> Seq<u8>
    recommends
        n >= 0,
    decreases k,
{
    if k == 0 {
        Seq::empty()
    } else {
        seq![(n % 256) as u8] + le_bytes(n / 256, (k - 1) as nat)
    }
}

/// The value a little-endian byte sequence stands for.
pub open spec fn le_value(s: Seq<u8>) -> int
    decreases s.len(),
{
    if s.len() == 0 {
        0
    } else {
        s[0] + 256 * le_value(s.drop_first())
    }
}

/// `pow256` grows with its exponent and is never below 1.
pub proof fn lemma_pow256_increases(a: nat, b: nat)
    requires
        a <= b,
    ensures
        1 <= pow256(a) <= pow256(b),
    decreases b,
{
    if a == b {
        if a > 0 {
            lemma_pow256_increases((a - 1) as nat, (a - 1) as nat);
        }
    } else {
        lemma_pow256_increases(a, (b - 1) as nat);
    }
}

pub proof fn lemma_le_bytes_len(n: int, k: nat)
    ensures
        le_bytes(n, k).len() == k,
    decreases k,
{
    if k > 0 {
        lemma_le_bytes_len(n / 256, (k - 1) as nat);
    }
}

/// A little-endian byte sequence stands for a value below 256^length.
pub proof fn lemma_le_value_bound(s: Seq<u8>)
    ensures
        0 <= le_value(s) < pow256(s.len()),
    decreases s.len(),
{
    if s.len() > 0 {
        lemma_le_value_bound(s.drop_first());
    }
}

/// Reading back the little-endian digits of `n` gives `n`.
pub proof fn lemma_le_roundtrip(n: int, k: nat)
    requires
        0 <= n < pow256(k),
    ensures
        le_value(le_bytes(n, k)) == n,
    decreases k,
{
    if k > 0 {
        assert(0 <= n / 256 < pow256((k - 1) as nat)) by {
            assert(n / 256 >= 0);
            assert(n < 256 * pow256((k - 1) as nat));
            assert(n / 256 < pow256((k - 1) as nat)) by (nonlinear_arith)
                requires
                    n >= 0,
                    n < 256 * pow256((k - 1) as nat),
            ;
        }
        lemma_le_roundtrip(n / 256, (k - 1) as nat);
        assert(le_bytes(n, k).drop_first() =~= le_bytes(n / 256, (k - 1) as nat));
        assert(le_value(le_bytes(n, k)) == n % 256 + 256 * (n / 256));
        assert(n % 256 + 256 * (n / 256) == n);
    }
}

/// Append the `k` little-endian digits of `n` to `out`.
fn push_le_bytes(out: &mut Vec<u8>, n: u64, k: usize)
    ensures
        final(out)@ == old(out)@ + le_bytes(n as int, k as nat),
{
    let mut x: u64 = n;
    let mut j: usize = 0;
    while j < k
        invariant
            j <= k,
            le_bytes(n as int, k as nat) =~= out@.subrange(old(out)@.len() as int, out@.len() as int)
                + le_bytes(x as int, (k - j) as nat),
            out@.len() == old(out)@.len() + j,
            out@.subrange(0, old(out)@.len() as int) =~= old(out)@,
        decreases k - j,
    {
        let b = (x % 256) as u8;
        out.push(b);
        proof {
            assert(le_bytes(x as int, (k - j) as nat) =~= seq![(x as int % 256) as u8] + le_bytes(
                x as int / 256,
                (k - j - 1) as nat,
            ));
        }
        x = x / 256;
        j = j + 1;
        proof {
            assert(le_bytes(n as int, k as nat) =~= out@.subrange(
                old(out)@.len() as int,
                out@.len() as int,
            ) + le_bytes(x as int, (k - j) as nat));
        }
    }
    proof {
        assert(out@ =~= old(out)@ + le_bytes(n as int, k as nat));
    }
}

/// Read the value of `k` little-endian bytes at `offset`.
fn read_le(bytes: &[u8], offset: usize, k: usize) -> (r: u64)
    requires
        k <= 8,
        offset + k <= bytes@.len(),
    ensures
        r as int == le_value(bytes@.subrange(offset as int, offset + k)),
{
    proof {
        lemma_pow256_values();
        lemma_le_value_bound(bytes@.subrange(offset as int, offset + k));
    }
    let len = bytes.len();
    let mut v: u64 = 0;
    let mut j: usize = k;
    while j > 0
        invariant
            j <= k,
            k <= 8,
            offset + k <= len,
            len == bytes@.len(),
            v as int == le_value(bytes@.subrange(offset + j, offset + k)),
            (v as int) < pow256((k - j) as nat),
            pow256(8) == 0x10000000000000000,
        decreases j,
    {
        j = j - 1;
        let b = *vstd::slice::slice_index_get(bytes, offset + j);
        proof {
            let s = bytes@.subrange(offset + j, offset + k);
            assert(s.drop_first() =~= bytes@.subrange(offset + j + 1, offset + k));
            assert(le_value(s) == b + 256 * le_value(s.drop_first()));
            lemma_le_value_bound(s);
            assert(pow256((k - j) as nat) == 256 * pow256((k - j - 1) as nat));
            lemma_pow256_increases((k - j) as nat, 8);
        }
        v = v * 256 + (b as u64);
    }
    proof {
        assert(bytes@.subrange(offset as int, offset + k) =~= bytes@.subrange(
            offset + 0,
            offset + k,
        ));
    }
    v
}

/// The persisted record of a configuration: each string as an 8-byte
/// little-endian length followed by its UTF-8 bytes, then the colour code
/// as 4 little-endian bytes.
pub open spec fn encode_view(m: InternalView) -> Seq<u8> {
    let ssid = encode_utf8(m.wifi_ssid);
    let pass = encode_utf8(m.wifi_pass);
    let tz = encode_utf8(m.tz);
    le_bytes(ssid.len() as int, 8) + ssid + le_bytes(pass.len() as int, 8) + pass + le_bytes(
        tz.len() as int,
        8,
    ) + tz + le_bytes(m.led_color as int, 4)
}

/// One string field read at `offset`: its characters and the offset after
/// it, or nothing when the length runs past the end or the bytes are not
/// UTF-8.
pub open spec fn field_at(bytes: Seq<u8>, offset: int) -> Option<(Seq<char>, int)> {
    if offset + 8 <= bytes.len() {
        let n = le_value(bytes.subrange(offset, offset + 8));
        if offset + 8 + n <= bytes.len() && valid_utf8(
            bytes.subrange(offset + 8, offset + 8 + n),
        ) {
            Some((decode_utf8(bytes.subrange(offset + 8, offset + 8 + n)), offset + 8 + n))
        } else {
            None
        }
    } else {
        None
    }
}

/// The configuration a record decodes to: the three string fields in
/// order, then exactly 4 colour bytes holding a 24-bit code, and nothing
/// after them.
pub open spec fn decode_view(bytes: Seq<u8>) -> Option<InternalView> {
    match field_at(bytes, 0) {
        None => None,
        Some((wifi_ssid, o1)) => match field_at(bytes, o1) {
            None => None,
            Some((wifi_pass, o2)) => match field_at(bytes, o2) {
                None => None,
                Some((tz, o3)) => {
                    if o3 + 4 == bytes.len() {
                        let color = le_value(bytes.subrange(o3, o3 + 4));
                        if color <= 0xFFFFFF {
                            Some(
                                InternalView {
                                    wifi_ssid,
                                    wifi_pass,
                                    tz,
                                    led_color: color as u32,
                                },
                            )
                        } else {
                            None
                        }
                    } else {
                        None
                    }
                },
            },
        },
    }
}

/// Relies on String::from_utf8: it succeeds exactly on valid UTF-8 input,
/// and the returned string holds exactly the given bytes.
#[verifier::external_body]
fn utf8_to_string(bytes: &[u8]) -> (r: Option<String>)
    ensures
        r is Some <==> valid_utf8(bytes@),
        r is Some ==> encode_utf8(r->0@) == bytes@,
{
    String::from_utf8(bytes.to_vec()).ok()
}

/// Read one string field at `offset`, as [`field_at`] describes.
fn read_field(bytes: &[u8], offset: usize) -> (r: Option<(String, usize)>)
    requires
        offset <= bytes@.len(),
    ensures
        match field_at(bytes@, offset as int) {
            Option::None => r is None,
            Option::Some((cs, o)) => {
                &&& r is Some
                &&& (r->0).0@ == cs
                &&& (r->0).1 == o
                &&& offset < (r->0).1 <= bytes@.len()
            },
        },
{
    let len = bytes.len();
    if len - offset < 8 {
        return None;
    }
    let n64 = read_le(bytes, offset, 8);
    proof {
        lemma_le_value_bound(bytes@.subrange(offset as int, offset + 8));
    }
    if n64 > (len - offset - 8) as u64 {
        return None;
    }
    let n = n64 as usize;
    let field_bytes = vstd::slice::slice_subrange(bytes, offset + 8, offset + 8 + n);
    match utf8_to_string(field_bytes) {
        Some(s) => {
            proof {
                broadcast use encode_utf8_decode_utf8;
            }
            Some((s, offset + 8 + n))
        },
        None => None,
    }
}

/// Encode a configuration as its persisted record.
pub fn encode_config(config: &InternalConfig) -> (r: Vec<u8>)
    ensures
        r@ == encode_view(config@),
{
    let mut out: Vec<u8> = Vec::new();
    let mut ssid = config.wifi_ssid().as_bytes_vec();
    push_le_bytes(&mut out, ssid.len() as u64, 8);
    out.append(&mut ssid);
    let mut pass = config.wifi_pass().as_bytes_vec();
    push_le_bytes(&mut out, pass.len() as u64, 8);
    out.append(&mut pass);
    let mut tz = config.tz().as_bytes_vec();
    push_le_bytes(&mut out, tz.len() as u64, 8);
    out.append(&mut tz);
    push_le_bytes(&mut out, config.led_color() as u64, 4);
    proof {
        assert(out@ =~= encode_view(config@));
    }
    out
}

/// Decode a persisted record, as [`decode_view`] describes: any malformed
/// record is rejected rather than repaired.
pub fn decode_config(bytes: &[u8]) -> (r: Option<InternalConfig>)
    ensures
        match decode_view(bytes@) {
            Option::None => r is None,
            Option::Some(m) => r is Some && r->0@ == m && m.wf(),
        },
{
    let (ssid, o1) = match read_field(bytes, 0) {
        Some(p) => p,
        None => {
            return None;
        },
    };
    let (pass, o2) = match read_field(bytes, o1) {
        Some(p) => p,
        None => {
            return None;
        },
    };
    let (tz, o3) = match read_field(bytes, o2) {
        Some(p) => p,
        None => {
            return None;
        },
    };
    let len = bytes.len();
    if len - o3 != 4 {
        return None;
    }
    let color64 = read_le(bytes, o3, 4);
    if color64 > 0xFFFFFF {
        return None;
    }
    let color = color64 as u32;
    Some(InternalConfig::new(ssid.as_str(), pass.as_str(), tz.as_str(), color))
}

/// Decoding the record a configuration encodes to gives the configuration
/// back exactly: nothing is lost on the way through persistence.
pub proof fn lemma_codec_roundtrip(m: InternalView)
    requires
        m.wf(),
        encode_utf8(m.wifi_ssid).len() < pow256(8),
        encode_utf8(m.wifi_pass).len() < pow256(8),
        encode_utf8(m.tz).len() < pow256(8),
    ensures
        decode_view(encode_view(m)) == Some(m),
{
    broadcast use encode_utf8_valid_utf8, encode_utf8_decode_utf8;

    lemma_pow256_values();
    let s1 = encode_utf8(m.wifi_ssid);
    let l1 = s1.len() as int;
    let s2 = encode_utf8(m.wifi_pass);
    let l2 = s2.len() as int;
    let s3 = encode_utf8(m.tz);
    let l3 = s3.len() as int;
    let bytes = encode_view(m);
    lemma_le_bytes_len(l1, 8);
    lemma_le_bytes_len(l2, 8);
    lemma_le_bytes_len(l3, 8);
    lemma_le_bytes_len(m.led_color as int, 4);
    let o1 = 8 + l1;
    let o2 = o1 + 8 + l2;
    let o3 = o2 + 8 + l3;
    assert(bytes.len() == o3 + 4);
    assert(bytes.subrange(0, 8) =~= le_bytes(l1, 8));
    lemma_le_roundtrip(l1, 8);
    assert(bytes.subrange(8, 8 + l1) =~= s1);
    assert(field_at(bytes, 0) == Some((m.wifi_ssid, o1)));
    assert(bytes.subrange(o1, o1 + 8) =~= le_bytes(l2, 8));
    lemma_le_roundtrip(l2, 8);
    assert(bytes.subrange(o1 + 8, o1 + 8 + l2) =~= s2);
    assert(field_at(bytes, o1) == Some((m.wifi_pass, o2)));
    assert(bytes.subrange(o2, o2 + 8) =~= le_bytes(l3, 8));
    lemma_le_roundtrip(l3, 8);
    assert(bytes.subrange(o2 + 8, o2 + 8 + l3) =~= s3);
    assert(field_at(bytes, o2) == Some((m.tz, o3)));
    assert(bytes.subrange(o3, o3 + 4) =~= le_bytes(m.led_color as int, 4));
    lemma_le_roundtrip(m.led_color as int, 4);
    assert(decode_view(bytes) == Some(m));
}

} // verus!
