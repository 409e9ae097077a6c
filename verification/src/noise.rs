use vstd::prelude::*;

verus! {

/// Width in texels of the noise texture used by the frosted-glass filter.
pub const NOISE_TEX_WIDTH: usize = 512;

/// Height in texels of the noise texture used by the frosted-glass filter.
pub const NOISE_TEX_HEIGHT: usize = 288;

/// Seed of the linear congruential generator that fills the noise texture.
pub const NOISE_SEED: u64 = 20211020;

/// Bytes per texel (RGB).
pub const TEXEL_BYTES: usize = 3;

/// One step of the generator: `(s * 1103515245 + 12345) mod 2^31`.
pub open spec fn lcg_next(s: int) -> int {
    (s * 1103515245 + 12345) % 0x8000_0000
}

/// The generator applied `n` times to `s`.
pub open spec fn lcg_iter(s: int, n: nat) -> int
    decreases n,
{
    if n == 0 {
        s
    } else {
        lcg_next(lcg_iter(s, (n - 1) as nat))
    }
}

/// How many outputs are thrown away before texel `k` (row `k / w`, column
/// `k % w`): the row plus the column, modulo 17.
pub open spec fn skip_count(w: nat, k: nat) -> nat {
    ((k / w + k % w) % 17) as nat
}

/// The generator state when the fill reaches texel `k` of a texture `w`
/// texels wide, in row-major order.
pub open spec fn seed_before(w: nat, k: nat) -> int
    decreases k,
{
    if k == 0 {
        NOISE_SEED as int
    } else {
        let p = (k - 1) as nat;
        lcg_next(lcg_next(lcg_iter(seed_before(w, p), skip_count(w, p))))
    }
}

/// The generator output from which texel `k` takes its red byte.
pub open spec fn red_seed(w: nat, k: nat) -> int {
    lcg_next(lcg_iter(seed_before(w, k), skip_count(w, k)))
}

/// The generator output from which texel `k` takes its green byte.
pub open spec fn green_seed(w: nat, k: nat) -> int {
    lcg_next(red_seed(w, k))
}

/// The byte a generator output contributes: its bits 16 to 23.
pub open spec fn noise_byte(s: int) -> u8 {
    ((s / 0x1_0000) % 0x100) as u8
}

/// The first `n` texels of the noise texture, three bytes each: red and green
/// from the generator, blue zero.
pub open spec fn noise_bytes(w: nat, n: nat) -> Seq<u8>
    decreases n,
{
    if n == 0 {
        Seq::empty()
    } else {
        let k = (n - 1) as nat;
        noise_bytes(w, k) + seq![noise_byte(red_seed(w, k)), noise_byte(green_seed(w, k)), 0u8]
    }
}

/// Law of the noise texture: every texel takes three bytes, and texel `k`
/// holds its red byte, its green byte and a zero blue byte, for a texture of
/// any width.
pub proof fn law_noise_texel_layout(w: nat, n: nat, k: nat)
    requires
        k < n,
    ensures
        noise_bytes(w, n).len() == 3 * n,
        noise_bytes(w, n)[3 * k as int] == noise_byte(red_seed(w, k)),
        noise_bytes(w, n)[3 * k + 1 as int] == noise_byte(green_seed(w, k)),
        noise_bytes(w, n)[3 * k + 2 as int] == 0,
    decreases n,
{
    lemma_noise_bytes_len(w, n);
    if k + 1 < n {
        law_noise_texel_layout(w, (n - 1) as nat, k);
        lemma_noise_bytes_len(w, (n - 1) as nat);
    } else {
        lemma_noise_bytes_len(w, (n - 1) as nat);
    }
}

proof fn lemma_noise_bytes_len(w: nat, n: nat)
    ensures
        noise_bytes(w, n).len() == 3 * n,
    decreases n,
{
    if n > 0 {
        lemma_noise_bytes_len(w, (n - 1) as nat);
    }
}

/// One generator step on a state below 2^31.
fn lcg_step(seed: u64) -> (next: u64)
    requires
        seed < 0x8000_0000,
    ensures
        next as int == lcg_next(seed as int),
        next < 0x8000_0000,
{
    assert(seed * 1103515245 <= 0x7fff_ffff * 1103515245) by (nonlinear_arith)
        requires
            seed < 0x8000_0000,
    ;
    let x: u64 = seed * 1103515245 + 12345;
    let r: u64 = x & 0x7fff_ffff;
    assert(x & 0x7fff_ffff == x % 0x8000_0000) by (bit_vector);
    r
}

/// The byte taken from a generator output.
fn output_byte(seed: u64) -> (b: u8)
    ensures
        b == noise_byte(seed as int),
{
    let r: u64 = (seed >> 16) & 0xff;
    assert((seed >> 16) & 0xff == (seed / 0x1_0000) % 0x100) by (bit_vector);
    r as u8
}

/// Appends texel `k` to a buffer holding the texels before it, and returns
/// the generator state for texel `k + 1`.
fn push_texel(buf: &mut Vec<u8>, seed: u64, skip: usize, Ghost(w): Ghost<nat>, Ghost(k): Ghost<nat>) -> (next: u64)
    requires
        old(buf)@ == noise_bytes(w, k),
        old(buf)@.len() == 3 * k,
        old(buf)@.len() + 3 <= usize::MAX,
        seed < 0x8000_0000,
        seed as int == seed_before(w, k),
        skip == skip_count(w, k),
    ensures
        final(buf)@ == noise_bytes(w, k + 1),
        next < 0x8000_0000,
        next as int == seed_before(w, k + 1),
{
    let mut s: u64 = seed;
    let mut t: usize = 0;
    while t < skip
        invariant
            t <= skip,
            s < 0x8000_0000,
            s as int == lcg_iter(seed_before(w, k), t as nat),
        decreases skip - t,
    {
        s = lcg_step(s);
        t = t + 1;
    }
    s = lcg_step(s);
    assert(s as int == red_seed(w, k));
    let red: u8 = output_byte(s);
    s = lcg_step(s);
    assert(s as int == green_seed(w, k));
    let green: u8 = output_byte(s);
    buf.push(red);
    buf.push(green);
    buf.push(0u8);
    assert(buf@ =~= noise_bytes(w, k + 1));
    s
}

/// Fills the frosted-glass noise texture, `width` by `height` RGB texels in
/// row-major order: before texel (i, j) the generator skips `(i + j) % 17`
/// outputs, then red and green are bits 16..23 of the next two outputs and
/// blue is zero.
pub fn noise_texture(width: usize, height: usize) -> (buf: Vec<u8>)
    requires
        width * height * 3 <= usize::MAX,
    ensures
        buf@ == noise_bytes(width as nat, (width * height) as nat),
        buf@.len() == width * height * 3,
{
    proof {
        lemma_grid_size(width as int, height as int);
    }
    let total: usize = width * height;
    let mut buf: Vec<u8> = Vec::new();
    let mut seed: u64 = NOISE_SEED;
    let ghost w = width as nat;
    let mut k: usize = 0;
    let mut i: usize = 0;
    while i < height
        invariant
            total == width * height,
            3 * total <= usize::MAX,
            w == width as nat,
            i <= height,
            k == i * width,
            k <= total,
            seed < 0x8000_0000,
            seed as int == seed_before(w, k as nat),
            buf@ == noise_bytes(w, k as nat),
        decreases height - i,
    {
        proof {
            lemma_row_end(i as int, width as int, height as int);
        }
        let mut j: usize = 0;
        while j < width
            invariant
                total == width * height,
                3 * total <= usize::MAX,
                w == width as nat,
                i < height,
                j <= width,
                k == i * width + j,
                i * width + width <= total,
                seed < 0x8000_0000,
                seed as int == seed_before(w, k as nat),
                buf@ == noise_bytes(w, k as nat),
            decreases width - j,
        {
            proof {
                vstd::arithmetic::div_mod::lemma_fundamental_div_mod_converse(
                    k as int,
                    width as int,
                    i as int,
                    j as int,
                );
                lemma_noise_bytes_len(w, k as nat);
            }
            let skip: usize = (i + j) % 17;
            seed = push_texel(&mut buf, seed, skip, Ghost(w), Ghost(k as nat));
            k = k + 1;
            j = j + 1;
        }
        i = i + 1;
    }
    proof {
        lemma_grid_size(width as int, height as int);
        lemma_noise_bytes_len(w, k as nat);
    }
    buf
}

/// Size facts of a `width` by `height` grid.
proof fn lemma_grid_size(width: int, height: int)
    by (nonlinear_arith)
    requires
        0 <= width,
        0 <= height,
    ensures
        width * height <= width * height * 3,
        3 * (width * height) == width * height * 3,
        height * width == width * height,
        0 * width == 0,
{
}

/// Row `i` of a `width` by `height` grid ends inside the grid.
proof fn lemma_row_end(i: int, width: int, height: int)
    by (nonlinear_arith)
    requires
        0 <= i < height,
        0 <= width,
    ensures
        i * width + width <= width * height,
        i * width + width == (i + 1) * width,
{
}

} // verus!
