use vstd::prelude::*;
use crate::dsp::SR;

verus! {

/// `x` as four little-endian bytes.
pub open spec fn le32(x: nat) -> Seq<u8> {
    seq![
        (x % 256) as u8,
        ((x / 256) % 256) as u8,
        ((x / 65536) % 256) as u8,
        ((x / 16777216) % 256) as u8,
    ]
}

/// `x` as two little-endian bytes.
pub open spec fn le16(x: nat) -> Seq<u8> {
    seq![(x % 256) as u8, ((x / 256) % 256) as u8]
}

/// The ASCII bytes of a four-letter chunk tag.
pub open spec fn tag(a: char, b: char, c: char, d: char) -> Seq<u8> {
    seq![a as u8, b as u8, c as u8, d as u8]
}

pub const U32_MODULUS: u64 = 0x1_0000_0000;

/// The 44-byte header of a mono file of `n` 32-bit IEEE-float samples at
/// `SR` samples per second. Sizes wrap at 2^32, as the fields are 32 bits wide.
pub open spec fn wav_header_spec(n: nat) -> Seq<u8> {
    tag('R', 'I', 'F', 'F') + le32(((36 + 4 * n) % 0x1_0000_0000) as nat) + tag('W', 'A', 'V', 'E')
        + tag('f', 'm', 't', ' ') + le32(16) + le16(3) + le16(1) + le32(SR as nat) + le32(
        (SR * 4 / 8) as nat,
    ) + le16(0) + le16(32) + tag('d', 'a', 't', 'a') + le32(((4 * n) % 0x1_0000_0000) as nat)
}

fn push_le32(out: &mut Vec<u8>, x: u32)
    ensures
        final(out)@ == old(out)@ + le32(x as nat),
{
    out.push((x % 256) as u8);
    out.push(((x / 256) % 256) as u8);
    out.push(((x / 65536) % 256) as u8);
    out.push(((x / 16777216) % 256) as u8);
    assert(final(out)@ =~= old(out)@ + le32(x as nat));
}

fn push_le16(out: &mut Vec<u8>, x: u16)
    ensures
        final(out)@ == old(out)@ + le16(x as nat),
{
    out.push((x % 256) as u8);
    out.push(((x / 256) % 256) as u8);
    assert(final(out)@ =~= old(out)@ + le16(x as nat));
}

fn push_tag(out: &mut Vec<u8>, a: u8, b: u8, c: u8, d: u8)
    ensures
        final(out)@ == old(out)@ + seq![a, b, c, d],
{
    out.push(a);
    out.push(b);
    out.push(c);
    out.push(d);
    assert(final(out)@ =~= old(out)@ + seq![a, b, c, d]);
}

proof fn lemma_wrap(k: int, n: int, m: int)
    requires
        n >= 0,
        m == n % 0x1_0000_0000,
    ensures
        (k + 4 * n) % 0x1_0000_0000 == (k + 4 * m) % 0x1_0000_0000,
{
    let q = n / 0x1_0000_0000;
    assert(n == q * 0x1_0000_0000 + m) by (nonlinear_arith)
        requires
            q == n / 0x1_0000_0000,
            m == n % 0x1_0000_0000,
    ;
    assert(k + 4 * n == (k + 4 * m) + (4 * q) * 0x1_0000_0000) by (nonlinear_arith)
        requires
            n == q * 0x1_0000_0000 + m,
    ;
    vstd::arithmetic::div_mod::lemma_mod_multiples_vanish(4 * q, k + 4 * m, 0x1_0000_0000);
}

/// `(k + 4 * n) mod 2^32`, computed without overflow.
fn wrapped_size(k: u64, n: usize) -> (r: u32)
    requires
        k < U32_MODULUS,
    ensures
        r == (k as int + 4 * (n as int)) % 0x1_0000_0000,
{
    let m = (n as u64) % U32_MODULUS;
    let r = (k + 4 * m) % U32_MODULUS;
    proof {
        lemma_wrap(k as int, n as int, m as int);
    }
    r as u32
}

/// The header of a WAV file that holds `num_samples` 32-bit float samples,
/// mono, at `SR` samples per second.
pub fn wav_header(num_samples: usize) -> (r: Vec<u8>)
    ensures
        r@ == wav_header_spec(num_samples as nat),
        r@.len() == 44,
{
    let mut out: Vec<u8> = Vec::new();
    push_tag(&mut out, 82, 73, 70, 70);
    push_le32(&mut out, wrapped_size(36, num_samples));
    push_tag(&mut out, 87, 65, 86, 69);
    push_tag(&mut out, 102, 109, 116, 32);
    push_le32(&mut out, 16);
    push_le16(&mut out, 3);
    push_le16(&mut out, 1);
    push_le32(&mut out, SR as u32);
    push_le32(&mut out, (SR * 4 / 8) as u32);
    push_le16(&mut out, 0);
    push_le16(&mut out, 32);
    push_tag(&mut out, 100, 97, 116, 97);
    push_le32(&mut out, wrapped_size(0, num_samples));
    assert(out@ =~= wav_header_spec(num_samples as nat));
    out
}

} // verus!
