use ebidownload::checksum::{md5_hex_of, Checksum};

#[test]
fn digest_of_known_texts() {
    assert_eq!(md5_hex_of(b""), "d41d8cd98f00b204e9800998ecf8427e");
    assert_eq!(md5_hex_of(b"abcdefghijklmnopqrstuvwxyz"), "c3fcd3d76192e4007dfb496cca67e13b");
    assert_eq!(md5_hex_of(b"The quick brown fox jumps over the lazy dog"), "9e107d9d372bb6826bd81d3542a419d6");
}

#[test]
fn digest_is_matched_in_either_case() {
    let digest = |data: &[u8]| {
        let mut checksum = Checksum::new();
        checksum.update(data);
        checksum
    };
    assert!(digest(b"").matches("d41d8cd98f00b204e9800998ecf8427e"));
    assert!(digest(b"").matches("D41D8CD98F00B204E9800998ECF8427E"));
    assert!(!digest(b"a").matches("d41d8cd98f00b204e9800998ecf8427e"));
    assert!(!digest(b"").matches("d41d8cd98f00b204e9800998ecf8427"));
    assert!(!digest(b"").matches(""));
}

#[test]
fn digest_does_not_depend_on_how_the_blocks_are_cut() {
    let data: Vec<u8> = (0..200_000u32).map(|i| (i % 251) as u8).collect();
    let whole = md5_hex_of(&data);
    let mut streamed = Checksum::new();
    for block in data.chunks(4096) {
        streamed.update(block);
    }
    assert_eq!(streamed.hex_digest(), whole);
    let mut bytewise = Checksum::new();
    for b in b"abcdefghijklmnopqrstuvwxyz" {
        bytewise.update(&[*b]);
    }
    assert_eq!(bytewise.hex_digest(), "c3fcd3d76192e4007dfb496cca67e13b");
}
