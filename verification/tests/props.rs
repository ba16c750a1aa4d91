use areion::compress::{areion512_dm, haifa_compress};
use areion::md::Core;
use areion::mmo::MmoCore;
use areion::haifa::HaifaCore;
use areion::sponge::SpongeCore;

fn md_of(data: &[u8]) -> Vec<u8> {
    let mut h = Core::new();
    h.update(data);
    h.finalize()
}

fn haifa_of(data: &[u8]) -> Vec<u8> {
    let mut h = HaifaCore::new();
    h.update(data);
    h.finalize()
}

fn sponge_of(data: &[u8]) -> Vec<u8> {
    let mut h = SpongeCore::new();
    h.update(data);
    h.finalize()
}

/// The strengthening pad appended after a message of `len` bytes, as the
/// serial modes define it: marker, zeros to a block boundary, big-endian
/// 64-bit bit length.
fn pad_tail(len: u64) -> Vec<u8> {
    let rem = (len % 32) as usize;
    let zeros = if rem < 24 { 23 - rem } else { 55 - rem };
    let mut t = vec![0x80u8];
    t.extend(std::iter::repeat(0u8).take(zeros));
    t.extend((8 * len).to_be_bytes());
    t
}

fn lane(bytes: &[u8]) -> [u8; 16] {
    let mut l = [0u8; 16];
    l.copy_from_slice(bytes);
    l
}

#[test]
fn repeated_hashing_is_deterministic() {
    let m = b"the same bytes, hashed twice, give the same digest";
    assert_eq!(md_of(m), md_of(m));
    assert_eq!(haifa_of(m), haifa_of(m));
    assert_eq!(sponge_of(m), sponge_of(m));
    let mut a = MmoCore::new();
    a.update(m);
    let mut b = MmoCore::new();
    b.update(m);
    assert_eq!(a.finalize(), b.finalize());
}

#[test]
fn chunking_does_not_change_the_digest() {
    let m: Vec<u8> = (0u8..=99).collect();
    let whole = md_of(&m);
    for chunk in [1usize, 3, 7, 31, 32, 33, 99] {
        let mut h = Core::new();
        for piece in m.chunks(chunk) {
            h.update(piece);
        }
        assert_eq!(h.finalize(), whole, "chunk size {}", chunk);
    }
    let whole = sponge_of(&m);
    let mut h = SpongeCore::new();
    for piece in m.chunks(5) {
        h.update(piece);
    }
    assert_eq!(h.finalize(), whole);
    let whole = haifa_of(&m);
    let mut h = HaifaCore::new();
    for piece in m.chunks(11) {
        h.update(piece);
    }
    assert_eq!(h.finalize(), whole);
}

#[test]
fn digest_size_is_fixed_for_every_length() {
    for n in 0..=100usize {
        let m = vec![0xa5u8; n];
        assert_eq!(md_of(&m).len(), areion::buffer::DIGEST_LEN);
    }
    assert_eq!(haifa_of(&[7u8; 77]).len(), 32);
    assert_eq!(sponge_of(&[7u8; 77]).len(), 32);
    let mut h = MmoCore::new();
    h.update(&[7u8; 77]);
    assert_eq!(h.finalize().len(), 32);
}

#[test]
fn one_mebibyte_streams_in_bounded_memory() {
    let chunk = vec![0u8; 4096];
    let mut h = Core::new();
    for _ in 0..256 {
        h.update(&chunk);
    }
    let d = h.finalize();
    assert_eq!(d.len(), 32);
    let mut s = String::new();
    for b in &d {
        s.push_str(&format!("{:02x}", b));
    }
    assert_eq!(
        s,
        "866cd9dca550ae94df50589ce3bae9df0579b9312650e665b66a9493fe7c796e"
    );
}

#[test]
fn single_bit_flips_change_about_half_the_output() {
    let base: Vec<u8> = (0u8..32).collect();
    let d0 = md_of(&base);
    let mut total: u32 = 0;
    for bit in 0..256 {
        let mut m = base.clone();
        m[bit / 8] ^= 1 << (bit % 8);
        let d = md_of(&m);
        for (a, b) in d0.iter().zip(d.iter()) {
            total += (a ^ b).count_ones();
        }
    }
    // 256 trials over a 256-bit digest: the mean Hamming distance must sit
    // near 128 bits; accept 112..=144.
    assert!(total >= 112 * 256, "mean distance too small: {}", total);
    assert!(total <= 144 * 256, "mean distance too large: {}", total);
}

#[test]
fn md_mode_admits_length_extension() {
    // From the digest of `m` and len(m) alone, the digest of
    // m || pad || suffix is computable with one extra compression per new
    // block.
    let m = b"abc";
    let suffix = b"extension suffix bytes";
    let mut glue: Vec<u8> = m.to_vec();
    glue.extend(pad_tail(m.len() as u64));
    let mut ext = glue.clone();
    ext.extend(suffix);
    let true_digest = md_of(&ext);

    let d = md_of(m);
    let mut h0 = lane(&d[..16]);
    let mut h1 = lane(&d[16..]);
    let mut rest: Vec<u8> = suffix.to_vec();
    rest.extend(pad_tail(ext.len() as u64));
    assert_eq!(rest.len() % 32, 0);
    for block in rest.chunks(32) {
        let (g0, g1) = areion512_dm(lane(&block[..16]), lane(&block[16..]), h0, h1);
        h0 = g0;
        h1 = g1;
    }
    let mut rebuilt = h0.to_vec();
    rebuilt.extend(h1);
    assert_eq!(rebuilt, true_digest);
}

#[test]
fn haifa_mode_defeats_length_extension() {
    // The same continuation applied to the HAIFA digest, even with the
    // natural counter values, misses the true digest: the finalization
    // blocks of `m` were bound to m's exact bit length.
    let m = b"abc";
    let suffix = b"extension suffix bytes";
    let mut glue: Vec<u8> = m.to_vec();
    glue.extend(pad_tail(m.len() as u64));
    let mut ext = glue.clone();
    ext.extend(suffix);
    let true_digest = haifa_of(&ext);

    let d = haifa_of(m);
    let mut h0 = lane(&d[..16]);
    let mut h1 = lane(&d[16..]);
    let mut rest: Vec<u8> = suffix.to_vec();
    rest.extend(pad_tail(ext.len() as u64));
    for (i, block) in rest.chunks(32).enumerate() {
        let counter = 8 * (glue.len() as u64 + 32 * (i as u64 + 1));
        let (g0, g1) = haifa_compress(lane(&block[..16]), lane(&block[16..]), h0, h1, counter);
        h0 = g0;
        h1 = g1;
    }
    let mut rebuilt = h0.to_vec();
    rebuilt.extend(h1);
    assert_ne!(rebuilt, true_digest);
}

#[test]
fn sponge_mode_defeats_length_extension() {
    // The digest reveals only the rate; continuing with a guessed (zero)
    // capacity misses the true digest of the extended message.
    let m = b"abc";
    let suffix = b"extension suffix bytes";
    let rem = m.len() % 32;
    let mut glue: Vec<u8> = m.to_vec();
    glue.push(0x80);
    glue.extend(std::iter::repeat(0u8).take(31 - rem));
    let mut ext = glue.clone();
    ext.extend(suffix);
    let true_digest = sponge_of(&ext);

    let d = sponge_of(m);
    let mut s0 = lane(&d[..16]);
    let mut s1 = lane(&d[16..]);
    let mut s2 = [0u8; 16];
    let mut s3 = [0u8; 16];
    let mut rest: Vec<u8> = suffix.to_vec();
    rest.push(0x80);
    rest.extend(std::iter::repeat(0u8).take(31 - suffix.len() % 32));
    for block in rest.chunks(32) {
        for k in 0..16 {
            s0[k] ^= block[k];
            s1[k] ^= block[16 + k];
        }
        let (t0, t1, t2, t3) = areion::perm::areion512(s0, s1, s2, s3);
        s0 = t0;
        s1 = t1;
        s2 = t2;
        s3 = t3;
    }
    let mut rebuilt = s0.to_vec();
    rebuilt.extend(s1);
    assert_ne!(rebuilt, true_digest);
}

#[test]
fn finalize_reset_restarts_the_stream() {
    let mut h = Core::new();
    h.update(b"first message");
    let d1 = h.finalize_reset();
    assert_eq!(d1, md_of(b"first message"));
    h.update(b"second message");
    assert_eq!(h.finalize_reset(), md_of(b"second message"));
}

#[test]
fn reset_discards_buffered_bytes() {
    let mut h = HaifaCore::new();
    h.update(b"to be discarded");
    h.reset();
    h.update(b"kept");
    assert_eq!(h.finalize(), haifa_of(b"kept"));
}

#[test]
fn message_len_counts_streamed_bytes() {
    let mut h = Core::new();
    assert_eq!(h.message_len(), 0);
    h.update(&[0u8; 40]);
    h.update(&[0u8; 3]);
    assert_eq!(h.message_len(), 43);
}
