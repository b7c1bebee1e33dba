//! USB wire protocol: outbound report framing, image-upload chunking and
//! inbound keypress parsing.
//!
//! Every outbound report is either a framed command (5-byte `CRT` prefix,
//! zero-padded to 517 bytes) or a raw continuation chunk (exactly 512
//! bytes, zero-padded).

use vstd::prelude::*;

verus! {

/// The 5-byte prefix of every framed command: `CRT\0\0`.
pub open spec fn crt_prefix() -> Seq<u8> {
    seq![0x43u8, 0x52u8, 0x54u8, 0x00u8, 0x00u8]
}

/// A framed report: prefix, then the payload, then zeros up to 517 bytes.
pub open spec fn spec_framed(payload: Seq<u8>) -> Seq<u8> {
    crt_prefix() + payload + Seq::new((512 - payload.len()) as nat, |i: int| 0u8)
}

/// Builds a framed command report: `CRT\0\0` + payload, zero-padded to 517 bytes.
pub fn build_framed_packet(payload: &[u8]) -> (r: Vec<u8>)
    requires
        payload@.len() <= 512,
    ensures
        r@ == spec_framed(payload@),
        r@.len() == 517,
{
    let mut r: Vec<u8> = Vec::new();
    r.push(0x43);
    r.push(0x52);
    r.push(0x54);
    r.push(0x00);
    r.push(0x00);
    let mut i: usize = 0;
    while i < payload.len()
        invariant
            i <= payload@.len() <= 512,
            r@.len() == 5 + i,
            r@ == crt_prefix() + payload@.subrange(0, i as int),
        decreases payload@.len() - i,
    {
        r.push(payload[i]);
        i += 1;
        proof {
            assert(r@ == crt_prefix() + payload@.subrange(0, i as int));
        }
    }
    while r.len() < 517
        invariant
            5 + payload@.len() <= r@.len() <= 517,
            payload@.len() <= 512,
            r@.subrange(0, 5 + payload@.len() as int) == crt_prefix() + payload@,
            forall|j: int| 5 + payload@.len() <= j < r@.len() ==> r@[j] == 0u8,
        decreases 517 - r@.len(),
    {
        r.push(0x00);
        proof {
            assert(r@.subrange(0, 5 + payload@.len() as int) == crt_prefix() + payload@);
        }
    }
    proof {
        assert(r@ =~= spec_framed(payload@));
    }
    r
}

/// Number of 512-byte chunks needed to carry `n` bytes.
pub open spec fn chunk_count(n: nat) -> nat {
    (n + 511) / 512
}

/// The byte at position `c * 512 + j` of the chunked stream: data, or zero padding.
pub open spec fn spec_chunk_byte(data: Seq<u8>, c: int, j: int) -> u8 {
    if c * 512 + j < data.len() {
        data[c * 512 + j]
    } else {
        0u8
    }
}

/// Splits raw bytes into 512-byte chunks; the final chunk is zero-padded.
pub fn build_raw_chunks(data: &[u8]) -> (r: Vec<Vec<u8>>)
    ensures
        r@.len() == chunk_count(data@.len()),
        forall|c: int| 0 <= c < r@.len() ==> (#[trigger] r@[c])@.len() == 512,
        forall|c: int, j: int|
            0 <= c < r@.len() && 0 <= j < 512 ==> #[trigger] r@[c]@[j] == spec_chunk_byte(
                data@,
                c,
                j,
            ),
{
    let mut r: Vec<Vec<u8>> = Vec::new();
    let mut offset: usize = 0;
    while offset < data.len()
        invariant
            offset <= data@.len(),
            offset < data@.len() ==> r@.len() * 512 == offset,
            offset == data@.len() ==> r@.len() == chunk_count(data@.len()),
            forall|c: int| 0 <= c < r@.len() ==> (#[trigger] r@[c])@.len() == 512,
            forall|c: int, j: int|
                0 <= c < r@.len() && 0 <= j < 512 ==> #[trigger] r@[c]@[j] == spec_chunk_byte(
                    data@,
                    c,
                    j,
                ),
        decreases data@.len() - offset,
    {
        let mut chunk: Vec<u8> = Vec::new();
        let mut j: usize = 0;
        while j < 512
            invariant
                j <= 512,
                offset < data@.len(),
                r@.len() * 512 == offset,
                chunk@.len() == j,
                forall|k: int| 0 <= k < j ==> chunk@[k] == spec_chunk_byte(data@, r@.len() as int, k),
            decreases 512 - j,
        {
            if offset + j < data.len() {
                chunk.push(data[offset + j]);
            } else {
                chunk.push(0x00);
            }
            j += 1;
        }
        r.push(chunk);
        if data.len() - offset <= 512 {
            offset = data.len();
            proof {
                assert(chunk_count(data@.len()) == (r@.len() - 1) + 1) by {
                    let n = data@.len() as int;
                    let done = (r@.len() - 1) * 512;
                    assert(done < n <= done + 512);
                    assert((n + 511) / 512 == r@.len()) by (nonlinear_arith)
                        requires
                            done == (r@.len() - 1) * 512,
                            done < n <= done + 512,
                            r@.len() >= 1,
                    ;
                }
            }
        } else {
            offset += 512;
        }
    }
    proof {
        if data@.len() == 0 {
            assert(chunk_count(0) == 0);
        }
    }
    r
}

/// Big-endian value of four bytes.
pub open spec fn be32_value(b: Seq<u8>) -> nat
    recommends
        b.len() == 4,
{
    (b[0] as nat) * 0x1000000 + (b[1] as nat) * 0x10000 + (b[2] as nat) * 0x100 + (b[3] as nat)
}

/// Encodes a size as four big-endian bytes (the low 32 bits of `size`).
/// Law: decoding the four bytes as a big-endian value gives the size back
/// whenever it is below 2^32.
pub fn size_to_bytes(size: usize) -> (r: [u8; 4])
    ensures
        r@.len() == 4,
        be32_value(r@) == (size as u32) as nat,
        size < 0x100000000 ==> be32_value(r@) == size,
{
    let sz = #[verifier::truncate] (size as u32);
    let b0 = (sz >> 24) as u8;
    let b1 = #[verifier::truncate] ((sz >> 16) as u8);
    let b2 = #[verifier::truncate] ((sz >> 8) as u8);
    let b3 = #[verifier::truncate] (sz as u8);
    proof {
        assert(b0 as u64 * 0x1000000 + b1 as u64 * 0x10000 + b2 as u64 * 0x100 + b3 as u64
            == sz as u64) by (bit_vector)
            requires
                b0 == (sz >> 24) as u8,
                b1 == (sz >> 16) as u8,
                b2 == (sz >> 8) as u8,
                b3 == sz as u8,
        ;
        assert(be32_value(seq![b0, b1, b2, b3]) == sz as nat);
    }
    let r = [b0, b1, b2, b3];
    proof {
        assert(r@ =~= seq![b0, b1, b2, b3]);
    }
    r
}

/// Brightness byte for the `LIG` command: the device takes 0..=64, derived
/// from a 0..=100 percentage as floor(percent * 0.64).
pub fn brightness_level(percent: u8) -> (r: u8)
    requires
        percent <= 100,
    ensures
        r == percent * 64 / 100,
        r <= 64,
{
    (percent as u16 * 64 / 100) as u8
}

/// Payload of the brightness command: `LIG\0\0` + level.
pub fn build_lig_payload(level: u8) -> (r: Vec<u8>)
    ensures
        r@ == seq![0x4Cu8, 0x49u8, 0x47u8, 0x00u8, 0x00u8, level],
{
    let mut r: Vec<u8> = Vec::new();
    r.push(0x4C);
    r.push(0x49);
    r.push(0x47);
    r.push(0x00);
    r.push(0x00);
    r.push(level);
    proof {
        assert(r@ =~= seq![0x4Cu8, 0x49u8, 0x47u8, 0x00u8, 0x00u8, level]);
    }
    r
}

/// Payload of the clear-screen command: `CLE\0\0\0` + `FF` (clear all keys).
pub fn build_cle_payload() -> (r: Vec<u8>)
    ensures
        r@ == seq![0x43u8, 0x4Cu8, 0x45u8, 0x00u8, 0x00u8, 0x00u8, 0xFFu8],
{
    let mut r: Vec<u8> = Vec::new();
    r.push(0x43);
    r.push(0x4C);
    r.push(0x45);
    r.push(0x00);
    r.push(0x00);
    r.push(0x00);
    r.push(0xFF);
    proof {
        assert(r@ =~= seq![0x43u8, 0x4Cu8, 0x45u8, 0x00u8, 0x00u8, 0x00u8, 0xFFu8]);
    }
    r
}

/// Payload of the wake-display command: `DIS\0\0`.
pub fn build_dis_payload() -> (r: Vec<u8>)
    ensures
        r@ == seq![0x44u8, 0x49u8, 0x53u8, 0x00u8, 0x00u8],
{
    let mut r: Vec<u8> = Vec::new();
    r.push(0x44);
    r.push(0x49);
    r.push(0x53);
    r.push(0x00);
    r.push(0x00);
    proof {
        assert(r@ =~= seq![0x44u8, 0x49u8, 0x53u8, 0x00u8, 0x00u8]);
    }
    r
}

/// Payload of the commit/refresh command: `STP\0\0`.
pub fn build_stp_payload() -> (r: Vec<u8>)
    ensures
        r@ == seq![0x53u8, 0x54u8, 0x50u8, 0x00u8, 0x00u8],
{
    let mut r: Vec<u8> = Vec::new();
    r.push(0x53);
    r.push(0x54);
    r.push(0x50);
    r.push(0x00);
    r.push(0x00);
    proof {
        assert(r@ =~= seq![0x53u8, 0x54u8, 0x50u8, 0x00u8, 0x00u8]);
    }
    r
}

/// Payload announcing an image upload: `BAT` + 4-byte big-endian size + key id.
pub fn build_bat_payload(size: usize, key_id: u8) -> (r: Vec<u8>)
    ensures
        r@.len() == 8,
        r@[0] == 0x42u8 && r@[1] == 0x41u8 && r@[2] == 0x54u8,
        be32_value(r@.subrange(3, 7)) == (size as u32) as nat,
        size < 0x100000000 ==> be32_value(r@.subrange(3, 7)) == size,
        r@[7] == key_id,
{
    let size_bytes = size_to_bytes(size);
    let mut r: Vec<u8> = Vec::new();
    r.push(0x42);
    r.push(0x41);
    r.push(0x54);
    r.push(size_bytes[0]);
    r.push(size_bytes[1]);
    r.push(size_bytes[2]);
    r.push(size_bytes[3]);
    r.push(key_id);
    proof {
        assert(r@.subrange(3, 7) =~= size_bytes@);
    }
    r
}

/// The fixed physical-to-logical key mapping of the device firmware.
/// Unknown codes pass through unchanged.
pub open spec fn spec_physical_to_logical(physical: u8) -> u8 {
    if physical == 0x0B {
        1u8
    } else if physical == 0x0C {
        2u8
    } else if physical == 0x0D {
        3u8
    } else if physical == 0x0E {
        4u8
    } else if physical == 0x0F {
        5u8
    } else if physical == 0x06 {
        6u8
    } else if physical == 0x07 {
        7u8
    } else if physical == 0x08 {
        8u8
    } else if physical == 0x09 {
        9u8
    } else if physical == 0x0A {
        10u8
    } else if physical == 0x01 {
        11u8
    } else if physical == 0x02 {
        12u8
    } else if physical == 0x03 {
        13u8
    } else if physical == 0x04 {
        14u8
    } else if physical == 0x05 {
        15u8
    } else {
        physical
    }
}

/// Maps a physical key code reported by the device to the logical key id 1..=15.
pub fn map_physical_to_logical(physical: u8) -> (r: u8)
    ensures
        r == spec_physical_to_logical(physical),
{
    match physical {
        0x0B => 1,
        0x0C => 2,
        0x0D => 3,
        0x0E => 4,
        0x0F => 5,
        0x06 => 6,
        0x07 => 7,
        0x08 => 8,
        0x09 => 9,
        0x0A => 10,
        0x01 => 11,
        0x02 => 12,
        0x03 => 13,
        0x04 => 14,
        0x05 => 15,
        _ => physical,
    }
}

/// The inverse of the physical-to-logical mapping on the logical keys 1..=15.
pub open spec fn spec_logical_to_physical(l: u8) -> u8 {
    if 1 <= l <= 5 {
        (l + 10) as u8
    } else if 6 <= l <= 10 {
        l
    } else if 11 <= l <= 15 {
        (l - 10) as u8
    } else {
        l
    }
}

/// Law: the physical-to-logical mapping is a bijection between the 15 defined
/// physical codes `0x01..=0x0F` and the logical keys `1..=15`: it maps into
/// `1..=15` exactly when the code lies in the defined set, it is injective
/// there, and `spec_logical_to_physical` is its two-sided inverse.
pub proof fn lemma_physical_logical_bijection()
    ensures
        forall|p: u8| (1 <= #[trigger] spec_physical_to_logical(p) <= 15) <==> (0x01 <= p <= 0x0F),
        forall|p1: u8, p2: u8|
            0x01 <= p1 <= 0x0F && 0x01 <= p2 <= 0x0F && spec_physical_to_logical(p1)
                == spec_physical_to_logical(p2) ==> p1 == p2,
        forall|p: u8|
            0x01 <= p <= 0x0F ==> spec_logical_to_physical(#[trigger] spec_physical_to_logical(p))
                == p,
        forall|l: u8|
            1 <= l <= 15 ==> {
                &&& 0x01 <= #[trigger] spec_logical_to_physical(l) <= 0x0F
                &&& spec_physical_to_logical(spec_logical_to_physical(l)) == l
            },
{
}

/// Parses an inbound keypress report: byte 9 is the physical key, byte 10 is
/// the state (1 = press, 0 = release). Reports shorter than 11 bytes carry
/// no event.
pub fn parse_key_report(buf: &[u8], len: usize) -> (r: Option<(u8, u8)>)
    requires
        len <= buf@.len(),
    ensures
        len >= 11 ==> r == Some((spec_physical_to_logical(buf@[9]), buf@[10])),
        len < 11 ==> r is None,
{
    if len >= 11 {
        let physical = buf[9];
        let state = buf[10];
        Some((map_physical_to_logical(physical), state))
    } else {
        None
    }
}

} // verus!

verus! {

/// A framed `BAT` announcement: the CRT prefix, the `BAT` marker, the
/// image size as four big-endian bytes, the key id, and zero padding to
/// 517 bytes.
pub open spec fn is_bat_frame(frame: Seq<u8>, size: nat, key_id: u8) -> bool {
    &&& frame.len() == 517
    &&& frame.subrange(0, 5) == crt_prefix()
    &&& frame[5] == 0x42u8 && frame[6] == 0x41u8 && frame[7] == 0x54u8
    &&& be32_value(frame.subrange(8, 12)) == (size as u32) as nat
    &&& (size < 0x100000000 ==> be32_value(frame.subrange(8, 12)) == size)
    &&& frame[12] == key_id
    &&& forall|i: int| 13 <= i < 517 ==> frame[i] == 0u8
}

/// The whole wire plan of one image upload to a key: a framed `BAT`
/// announcement carrying the image size and key id, the image bytes in
/// 512-byte chunks (the last zero-padded), and a framed `STP` commit.
/// Framed packets are 517 bytes, chunks 512; the chunks carry
/// ceil(len / 512) * 512 bytes in all.
pub fn image_upload_packets(jpeg: &[u8], key_id: u8) -> (r: Vec<Vec<u8>>)
    ensures
        r@.len() == 2 + chunk_count(jpeg@.len()),
        is_bat_frame(r@.first()@, jpeg@.len(), key_id),
        forall|c: int| 1 <= c < r@.len() - 1 ==> (#[trigger] r@[c])@.len() == 512,
        forall|c: int, j: int|
            1 <= c < r@.len() - 1 && 0 <= j < 512 ==> #[trigger] r@[c]@[j] == spec_chunk_byte(
                jpeg@,
                c - 1,
                j,
            ),
        r@.last()@ == spec_framed(seq![0x53u8, 0x54u8, 0x50u8, 0x00u8, 0x00u8]),
        r@.last()@.len() == 517,
{
    let bat = build_bat_payload(jpeg.len(), key_id);
    let ghost bat_view = bat@;
    let mut r: Vec<Vec<u8>> = Vec::new();
    let frame = build_framed_packet(bat.as_slice());
    proof {
        let f = frame@;
        assert(f.subrange(0, 5) =~= crt_prefix());
        assert(f.subrange(8, 12) =~= bat_view.subrange(3, 7));
        assert(f[5] == bat_view[0] && f[6] == bat_view[1] && f[7] == bat_view[2]);
        assert(f[12] == bat_view[7]);
        assert(is_bat_frame(f, jpeg@.len(), key_id));
    }
    r.push(frame);
    let chunks = build_raw_chunks(jpeg);
    let ghost chunk_views = chunks@;
    let mut i: usize = 0;
    while i < chunks.len()
        invariant
            i <= chunks@.len(),
            chunks@ == chunk_views,
            r@.len() == 1 + i,
            is_bat_frame(r@[0]@, jpeg@.len(), key_id),
            forall|c: int| 1 <= c < r@.len() ==> #[trigger] r@[c]@ == chunk_views[c - 1]@,
        decreases chunks@.len() - i,
    {
        let chunk = chunks[i].clone();
        proof {
            assert(chunk@ =~= chunk_views[i as int]@);
        }
        r.push(chunk);
        i += 1;
    }
    let stp = build_stp_payload();
    r.push(build_framed_packet(stp.as_slice()));
    r
}

} // verus!
