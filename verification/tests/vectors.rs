use areion::compress::areion256_dm;
use areion::perm::{areion256, areion512};
use areion::md::Core;
use areion::mmo::MmoCore;
use areion::haifa::HaifaCore;
use areion::sponge::SpongeCore;

fn hex(bytes: &[u8]) -> String {
    let mut s = String::new();
    for b in bytes {
        s.push_str(&format!("{:02x}", b));
    }
    s
}

fn counting_lanes() -> [[u8; 16]; 4] {
    let mut lanes = [[0u8; 16]; 4];
    for (i, lane) in lanes.iter_mut().enumerate() {
        for (j, b) in lane.iter_mut().enumerate() {
            *b = (16 * i + j) as u8;
        }
    }
    lanes
}

#[test]
fn permutation_256_zero_vector() {
    let (y0, y1) = areion256([0u8; 16], [0u8; 16]);
    assert_eq!(hex(&y0), "e2a7f4801b30b2ec13f95866eef3a596");
    assert_eq!(hex(&y1), "93e332c4627268f467b6275ced5b74f9");
}

#[test]
fn permutation_256_counting_vector() {
    let lanes = counting_lanes();
    let (y0, y1) = areion256(lanes[0], lanes[1]);
    assert_eq!(hex(&y0), "17eed60d8e2c1049e14e535e0d5fa27a");
    assert_eq!(hex(&y1), "c7adbfed11f54922d9df53a43d206bae");
}

#[test]
fn davies_meyer_256_feeds_the_input_forward() {
    // The single-block compression is the permutation with the whole input
    // xored back in; on a counting input the two agree lane by lane.
    let lanes = counting_lanes();
    let (p0, p1) = areion256(lanes[0], lanes[1]);
    let (c0, c1) = areion256_dm(lanes[0], lanes[1]);
    for k in 0..16 {
        assert_eq!(c0[k], p0[k] ^ lanes[0][k]);
        assert_eq!(c1[k], p1[k] ^ lanes[1][k]);
    }
}

#[test]
fn permutation_512_zero_vector() {
    let (y0, y1, y2, y3) = areion512([0u8; 16], [0u8; 16], [0u8; 16], [0u8; 16]);
    assert_eq!(hex(&y0), "7f525f59b90c58bbcaf34807179fe2a9");
    assert_eq!(hex(&y1), "cf80bfd21ebe6a8a5939dc221c1476cc");
    assert_eq!(hex(&y2), "2083e8b70b00963b13a09ab4a5e269fc");
    assert_eq!(hex(&y3), "45af79936308851b1b5f30317c882d1a");
}

#[test]
fn permutation_512_counting_vector() {
    let lanes = counting_lanes();
    let (y0, y1, y2, y3) = areion512(lanes[0], lanes[1], lanes[2], lanes[3]);
    assert_eq!(hex(&y0), "25aa28b795bfd54f58eb7e5e8bb3209f");
    assert_eq!(hex(&y1), "4209267b1de0f527241a6ab68b9884ab");
    assert_eq!(hex(&y2), "e4d6b8b54cb9b1dc41299d253d062e1a");
    assert_eq!(hex(&y3), "a8844e62de33f7335feb7f82d8219f4c");
}

#[test]
fn md_empty_message_vector() {
    // A zero-length message plus the marker byte and the length field fit
    // in a single padded block, so exactly one compression runs.
    let d = Core::new().finalize();
    assert_eq!(d.len(), 32);
    assert_eq!(
        hex(&d),
        "12ef4705fc8bc0cdb441f09574b8b1a06bba4b40aa94dc01c1cdfcd26976dfc1"
    );
}

#[test]
fn md_zero_block_vector() {
    let mut h = Core::new();
    h.update(&[0u8; 32]);
    let d = h.finalize();
    assert_eq!(
        hex(&d),
        "b7203d4c6cf258610a15c4d99a6df025468de6658ca05e72d2b3be951c32a0ea"
    );
}

#[test]
fn md_abc_vector() {
    let mut h = Core::new();
    h.update(b"abc");
    let d = h.finalize();
    assert_eq!(
        hex(&d),
        "b857baddcd8dccd0049072a1ae3150911276dc42ab7bec3d0490669db03bcdcc"
    );
}

#[test]
fn mmo_empty_message_vector() {
    let d = MmoCore::new().finalize();
    assert_eq!(
        hex(&d),
        "40afd8a30da50c1e0c19eb634d6eed13e2b776ff8202f5d7c2dc007c95b64a95"
    );
}

#[test]
fn mmo_zero_block_vector() {
    let mut h = MmoCore::new();
    h.update(&[0u8; 32]);
    let d = h.finalize();
    assert_eq!(
        hex(&d),
        "323d76c167d82a3ba1f35f60e9819180ca3c2a413432229472a99365a6b958ca"
    );
}

#[test]
fn haifa_empty_message_vector() {
    let d = HaifaCore::new().finalize();
    assert_eq!(
        hex(&d),
        "84e1294dce82ada414a12558abf3fd549db401a644ab890e8d3cff48ae147d72"
    );
}

#[test]
fn haifa_zero_block_vector() {
    let mut h = HaifaCore::new();
    h.update(&[0u8; 32]);
    let d = h.finalize();
    assert_eq!(
        hex(&d),
        "ba40bb97963172b19af00c43673945ec50e835d9f0fa9e2f34772b47d1f9a92e"
    );
}

#[test]
fn sponge_empty_message_vector() {
    let d = SpongeCore::new().finalize();
    assert_eq!(
        hex(&d),
        "5f3ffafb7f4de10177921ec6ee50ec5cfd656fbee3ab6e113f91427cc8d97570"
    );
}

#[test]
fn sponge_zero_block_vector() {
    let mut h = SpongeCore::new();
    h.update(&[0u8; 32]);
    let d = h.finalize();
    assert_eq!(
        hex(&d),
        "77bbbdc26f27e6ad78b0fc1c8016a7aeac925ecd6f973532463b9db7fa98579a"
    );
}

#[test]
fn sponge_extended_output_vector() {
    // More output than one rate width: the permutation runs between reads,
    // and the first rate width agrees with the plain digest.
    let d = SpongeCore::new().finalize_xof(64);
    assert_eq!(d.len(), 64);
    assert_eq!(
        hex(&d),
        "5f3ffafb7f4de10177921ec6ee50ec5cfd656fbee3ab6e113f91427cc8d97570\
         2d731e1ff392187d28d407ab395f7e1dc3628874d0e7db19119d67d400ed8ba3"
    );
}
