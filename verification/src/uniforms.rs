//! Names and texture units of the scene shader's texture samplers.

use vstd::prelude::*;

verus! {

/// Number of entries of the scene shader's `textures` sampler array.
pub const SCENE_TEXTURE_SLOTS: u32 = 16;

/// `GL_TEXTURE0`, the first texture unit; unit `i` is `GL_TEXTURE0 + i`.
pub const GL_TEXTURE0: u32 = 0x84C0;

/// The decimal digits of `n`, most significant first, as ASCII bytes (`0` is 48).
pub open spec fn decimal(n: nat) -> Seq<u8>
    decreases n,
{
    if n < 10 {
        seq![(48 + n) as u8]
    } else {
        decimal(n / 10).push((48 + n % 10) as u8)
    }
}

/// `textures[` in ASCII.
pub open spec fn sampler_prefix() -> Seq<u8> {
    seq![116u8, 101, 120, 116, 117, 114, 101, 115, 91]
}

/// The NUL-terminated name of entry `i` of the sampler array:
/// `textures[i]` (`]` is 93).
pub open spec fn sampler_name(i: nat) -> Seq<u8> {
    sampler_prefix() + decimal(i) + seq![93u8, 0u8]
}

fn push_decimal(out: &mut Vec<u8>, n: u32)
    ensures
        final(out)@ == old(out)@ + decimal(n as nat),
    decreases n,
{
    if n < 10 {
        out.push(48u8 + n as u8);
        assert(decimal(n as nat) =~= seq![(48 + n) as u8]);
    } else {
        push_decimal(out, n / 10);
        out.push(48u8 + (n % 10) as u8);
    }
}

/// The NUL-terminated name under which the scene shader declares entry `i`
/// of its `textures` sampler array.
pub fn texture_uniform_name(i: u32) -> (name: Vec<u8>)
    ensures
        name@ == sampler_name(i as nat),
{
    let mut name: Vec<u8> = vec![116u8, 101, 120, 116, 117, 114, 101, 115, 91];
    push_decimal(&mut name, i);
    name.push(93u8);
    name.push(0u8);
    assert(name@ =~= sampler_name(i as nat));
    name
}

/// The texture unit and texture of each scene texture, in order: texture `i`
/// goes to unit `GL_TEXTURE0 + i`.
pub fn texture_bindings(textures: &Vec<u32>) -> (bindings: Vec<(u32, u32)>)
    requires
        GL_TEXTURE0 + textures.len() <= u32::MAX + 1,
    ensures
        bindings.len() == textures.len(),
        forall|i: int|
            0 <= i < textures.len() ==> #[trigger] bindings[i] == (
            (GL_TEXTURE0 + i) as u32,
            textures[i],
        ),
{
    let mut bindings: Vec<(u32, u32)> = Vec::new();
    let mut i: usize = 0;
    while i < textures.len()
        invariant
            GL_TEXTURE0 + textures.len() <= u32::MAX + 1,
            i <= textures.len(),
            bindings.len() == i,
            forall|k: int|
                0 <= k < i ==> #[trigger] bindings[k] == ((GL_TEXTURE0 + k) as u32, textures[k]),
        decreases textures.len() - i,
    {
        bindings.push((GL_TEXTURE0 + i as u32, textures[i]));
        i = i + 1;
    }
    bindings
}

/// The number the ASCII decimal digits `s` spell, most significant first.
pub open spec fn digits_value(s: Seq<u8>) -> int
    decreases s.len(),
{
    if s.len() == 0 {
        0
    } else {
        digits_value(s.drop_last()) * 10 + (s.last() - 48)
    }
}

/// Law of decimal writing: the digits of `n` are at least one ASCII digit
/// (`0` is 48, `9` is 57), they spell `n`, and they start with `0` only when
/// `n` is zero, as `format!` writes an integer.
pub proof fn law_decimal_spells_value(n: nat)
    ensures
        decimal(n).len() >= 1,
        forall|k: int| 0 <= k < decimal(n).len() ==> 48 <= #[trigger] decimal(n)[k] <= 57,
        digits_value(decimal(n)) == n,
        decimal(n)[0] == 48 <==> n == 0,
    decreases n,
{
    if n < 10 {
        assert(decimal(n).drop_last() =~= Seq::<u8>::empty());
        assert(decimal(n).last() == 48 + n);
        assert(digits_value(decimal(n)) == digits_value(decimal(n).drop_last()) * 10 + (decimal(
            n,
        ).last() - 48));
        assert(digits_value(Seq::<u8>::empty()) == 0);
    } else {
        law_decimal_spells_value(n / 10);
        let d = decimal(n / 10);
        assert(decimal(n) == d.push((48 + n % 10) as u8));
        assert(decimal(n).drop_last() =~= d);
        assert(decimal(n).last() == 48 + n % 10);
        assert((n / 10) * 10 + n % 10 == n);
        assert(digits_value(decimal(n)) == digits_value(d) * 10 + (decimal(n).last() - 48));
        assert(digits_value(d) * 10 == (n / 10) * 10);
        assert forall|k: int| 0 <= k < decimal(n).len() implies 48 <= #[trigger] decimal(n)[k]
            <= 57 by {
            if k < d.len() {
                assert(decimal(n)[k] == d[k]);
            }
        }
        assert(decimal(n)[0] == d[0]);
    }
}

/// Law of the sampler names: the name of entry `i` is the bytes of
/// `textures[`, then ASCII digits that spell `i` with no leading zero, then
/// `]` and a NUL byte.
pub proof fn law_sampler_name_layout(i: nat)
    ensures
        ({
            let name = sampler_name(i);
            let digits = name.subrange(9, name.len() - 2);
            &&& name.len() >= 12
            &&& name.take(9) == seq![116u8, 101, 120, 116, 117, 114, 101, 115, 91]
            &&& name[name.len() - 2] == 93u8
            &&& name[name.len() - 1] == 0u8
            &&& forall|k: int| 0 <= k < digits.len() ==> 48 <= #[trigger] digits[k] <= 57
            &&& digits_value(digits) == i
            &&& (digits[0] == 48 <==> i == 0)
        }),
{
    law_decimal_spells_value(i);
    let name = sampler_name(i);
    assert(name.take(9) =~= seq![116u8, 101, 120, 116, 117, 114, 101, 115, 91]);
    assert(name.subrange(9, name.len() - 2) =~= decimal(i));
}

} // verus!
