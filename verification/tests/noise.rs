use rabbit_hole::noise::{noise_texture, NOISE_SEED, NOISE_TEX_HEIGHT, NOISE_TEX_WIDTH};

/// The fill as the viewer writes it, into an array of texels.
fn reference_fill() -> Vec<[u8; 3]> {
    let mut buf = vec![[[0u8; 3]; NOISE_TEX_WIDTH]; NOISE_TEX_HEIGHT];
    let mut seed = NOISE_SEED;
    for i in 0..NOISE_TEX_HEIGHT {
        for j in 0..NOISE_TEX_WIDTH {
            for _ in 0..(i + j) % 17 {
                seed = (seed * 1103515245 + 12345) & 0x7fffffff;
            }
            seed = (seed * 1103515245 + 12345) & 0x7fffffff;
            buf[i][j][0] = ((seed >> 16) & 0xff) as u8;
            seed = (seed * 1103515245 + 12345) & 0x7fffffff;
            buf[i][j][1] = ((seed >> 16) & 0xff) as u8;
        }
    }
    buf.into_iter().flatten().collect()
}

#[test]
fn full_noise_texture_matches_row_major_fill() {
    let tex = noise_texture(NOISE_TEX_WIDTH, NOISE_TEX_HEIGHT);
    assert_eq!(tex.len(), NOISE_TEX_WIDTH * NOISE_TEX_HEIGHT * 3);
    let reference: Vec<u8> = reference_fill().into_iter().flatten().collect();
    assert_eq!(tex, reference);
}

#[test]
fn noise_texture_known_texels() {
    let tex = noise_texture(NOISE_TEX_WIDTH, NOISE_TEX_HEIGHT);
    assert_eq!(&tex[..12], &[244, 97, 0, 232, 112, 0, 184, 43, 0, 242, 44, 0]);
    // first texel of the second row
    assert_eq!(&tex[3 * NOISE_TEX_WIDTH..3 * NOISE_TEX_WIDTH + 3], &[177, 45, 0]);
    // last texel
    assert_eq!(&tex[tex.len() - 3..], &[29, 167, 0]);
}

#[test]
fn noise_blue_channel_is_zero() {
    let tex = noise_texture(NOISE_TEX_WIDTH, NOISE_TEX_HEIGHT);
    assert!(tex.chunks(3).all(|t| t[2] == 0));
}

#[test]
fn narrow_noise_texture_skips_by_row_and_column() {
    let tex = noise_texture(3, 2);
    assert_eq!(
        tex,
        vec![244, 97, 0, 232, 112, 0, 184, 43, 0, 160, 214, 0, 70, 65, 0, 174, 122, 0]
    );
}

#[test]
fn empty_noise_texture() {
    assert!(noise_texture(4, 0).is_empty());
}

#[test]
fn zero_width_noise_texture() {
    assert!(noise_texture(0, 5).is_empty());
    assert!(noise_texture(0, 0).is_empty());
}
