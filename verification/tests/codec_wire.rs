//! The wire protocol: framing, brightness, image upload chunking and
//! keypress parsing, against the byte values the device expects.

use macropad::codec::{
    brightness_level, build_bat_payload, build_cle_payload, build_dis_payload, build_framed_packet,
    build_lig_payload, build_raw_chunks, build_stp_payload, image_upload_packets,
    map_physical_to_logical, parse_key_report, size_to_bytes,
};

#[test]
fn framed_packets_are_517_bytes() {
    let payload = build_lig_payload(48);
    let packet = build_framed_packet(payload.as_slice());
    assert_eq!(packet.len(), 517);
    assert_eq!(&packet[0..5], &[0x43, 0x52, 0x54, 0x00, 0x00]);
}

#[test]
fn brightness_75_gives_level_48() {
    // floor(75 * 0.64) = 48
    assert_eq!(brightness_level(75), 48);
    let payload = build_lig_payload(brightness_level(75));
    let packet = build_framed_packet(payload.as_slice());
    assert_eq!(&packet[0..5], &[0x43, 0x52, 0x54, 0x00, 0x00]);
    assert_eq!(&packet[5..11], &[0x4C, 0x49, 0x47, 0x00, 0x00, 0x30]);
    for &b in &packet[11..] {
        assert_eq!(b, 0x00);
    }
}

#[test]
fn brightness_edge_levels() {
    assert_eq!(brightness_level(0), 0);
    assert_eq!(brightness_level(100), 64);
    assert_eq!(brightness_level(25), 16);
    assert_eq!(brightness_level(1), 0);
}

#[test]
fn command_payloads() {
    assert_eq!(build_cle_payload(), vec![0x43, 0x4C, 0x45, 0x00, 0x00, 0x00, 0xFF]);
    assert_eq!(build_dis_payload(), vec![0x44, 0x49, 0x53, 0x00, 0x00]);
    assert_eq!(build_stp_payload(), vec![0x53, 0x54, 0x50, 0x00, 0x00]);
}

#[test]
fn size_to_bytes_is_big_endian() {
    assert_eq!(size_to_bytes(0x04B0), [0x00, 0x00, 0x04, 0xB0]);
    assert_eq!(size_to_bytes(0), [0, 0, 0, 0]);
    assert_eq!(size_to_bytes(0xFFFF_FFFF), [0xFF, 0xFF, 0xFF, 0xFF]);
    assert_eq!(size_to_bytes(0x0102_0304), [1, 2, 3, 4]);
}

#[test]
fn size_to_bytes_roundtrips_below_two_to_32() {
    for &n in &[0usize, 1, 255, 256, 65535, 1_200, 0x12345678, 0xFFFF_FFFF] {
        let b = size_to_bytes(n);
        let decoded = ((b[0] as u64) << 24) | ((b[1] as u64) << 16) | ((b[2] as u64) << 8)
            | (b[3] as u64);
        assert_eq!(decoded, n as u64);
    }
}

#[test]
fn bat_payload_for_1200_bytes_key_7() {
    let payload = build_bat_payload(1200, 7);
    assert_eq!(payload, vec![0x42, 0x41, 0x54, 0x00, 0x00, 0x04, 0xB0, 0x07]);
}

#[test]
fn chunking_1200_bytes() {
    let data: Vec<u8> = (0..1200u32).map(|i| (i % 251) as u8).collect();
    let chunks = build_raw_chunks(data.as_slice());
    assert_eq!(chunks.len(), 3);
    for chunk in &chunks {
        assert_eq!(chunk.len(), 512);
    }
    assert_eq!(&chunks[0][..], &data[0..512]);
    assert_eq!(&chunks[1][..], &data[512..1024]);
    assert_eq!(&chunks[2][0..176], &data[1024..1200]);
    for &b in &chunks[2][176..] {
        assert_eq!(b, 0x00);
    }
}

#[test]
fn chunking_exact_multiple_and_empty() {
    let data = vec![7u8; 1024];
    let chunks = build_raw_chunks(data.as_slice());
    assert_eq!(chunks.len(), 2);
    let empty: Vec<u8> = Vec::new();
    assert_eq!(build_raw_chunks(empty.as_slice()).len(), 0);
}

#[test]
fn upload_of_1200_bytes_to_key_7() {
    // 1200 bytes need ceil(1200 / 512) = 3 chunks; the last is zero-padded
    // after offset 176.
    let data: Vec<u8> = (0..1200u32).map(|i| (i % 251) as u8).collect();
    let packets = image_upload_packets(data.as_slice(), 7);
    assert_eq!(packets.len(), 2 + 3);
    assert_eq!(packets[0].len(), 517);
    assert_eq!(&packets[0][0..5], &[0x43, 0x52, 0x54, 0x00, 0x00]);
    assert_eq!(&packets[0][5..13], &[0x42, 0x41, 0x54, 0x00, 0x00, 0x04, 0xB0, 0x07]);
    assert_eq!(&packets[1][..], &data[0..512]);
    assert_eq!(&packets[2][..], &data[512..1024]);
    assert_eq!(&packets[3][0..176], &data[1024..1200]);
    for &b in &packets[3][176..] {
        assert_eq!(b, 0x00);
    }
    let total_raw: usize = packets[1..4].iter().map(|c| c.len()).sum();
    assert_eq!(total_raw, ((1200 + 511) / 512) * 512);
    assert_eq!(packets[4].len(), 517);
    assert_eq!(&packets[4][0..5], &[0x43, 0x52, 0x54, 0x00, 0x00]);
    assert_eq!(&packets[4][5..10], &[0x53, 0x54, 0x50, 0x00, 0x00]);
}

#[test]
fn physical_to_logical_is_a_bijection_on_the_pad() {
    let expected: [(u8, u8); 15] = [
        (0x0B, 1),
        (0x0C, 2),
        (0x0D, 3),
        (0x0E, 4),
        (0x0F, 5),
        (0x06, 6),
        (0x07, 7),
        (0x08, 8),
        (0x09, 9),
        (0x0A, 10),
        (0x01, 11),
        (0x02, 12),
        (0x03, 13),
        (0x04, 14),
        (0x05, 15),
    ];
    let mut seen = [false; 16];
    for &(physical, logical) in &expected {
        let got = map_physical_to_logical(physical);
        assert_eq!(got, logical);
        assert!(!seen[got as usize]);
        seen[got as usize] = true;
    }
    // codes outside the defined set pass through unchanged
    assert_eq!(map_physical_to_logical(0x00), 0x00);
    assert_eq!(map_physical_to_logical(0x10), 0x10);
    assert_eq!(map_physical_to_logical(0xFF), 0xFF);
}

#[test]
fn keypress_report_decodes_offsets_9_and_10() {
    let mut buf = [0u8; 512];
    buf[9] = 0x0A;
    buf[10] = 0x01;
    let r = parse_key_report(&buf, 512);
    assert_eq!(r, Some((10, 1)));
}

#[test]
fn keypress_release_and_short_reports() {
    let mut buf = [0u8; 512];
    buf[9] = 0x0B;
    buf[10] = 0x00;
    assert_eq!(parse_key_report(&buf, 512), Some((1, 0)));
    assert_eq!(parse_key_report(&buf, 10), None);
    assert_eq!(parse_key_report(&buf, 0), None);
}
