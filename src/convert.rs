//! Conversion of ink-based CMYK samples to additive RGB samples.
use vstd::prelude::*;

verus! {

/// One additive channel from an ink coverage value and the black coverage:
/// `(255 - black) * (255 - ink) / 255`, truncated.
pub open spec fn light(ink: u8, black: u8) -> u8 {
    (((255 - black) * (255 - ink)) / 255) as u8
}

/// The output byte at index `j`: channel `j % 3` of pixel `j / 3`.
pub open spec fn rgb_byte(input: Seq<u8>, j: int) -> u8 {
    light(input[4 * (j / 3) + j % 3], input[4 * (j / 3) + 3])
}

/// The RGB bytes for CMYK bytes: three per complete group of four, any
/// trailing partial group dropped.
pub open spec fn cmyk_to_rgb_spec(input: Seq<u8>) -> Seq<u8> {
    Seq::new((3 * (input.len() / 4)) as nat, |j: int| rgb_byte(input, j))
}

fn light_exec(ink: u8, black: u8) -> (r: u8)
    ensures
        r == light(ink, black),
{
    let i: u16 = 255 - ink as u16;
    let k: u16 = 255 - black as u16;
    assert(k * i <= 255 * 255) by (nonlinear_arith)
        requires
            k <= 255,
            i <= 255,
    ;
    let v: u16 = (k * i) / 255;
    v as u8
}

/// Converts CMYK samples (four bytes per pixel) into RGB samples (three bytes
/// per pixel). Trailing bytes that do not make up a whole pixel are ignored.
pub fn cmyk_to_rgb(input: &[u8]) -> (r: Vec<u8>)
    ensures
        r@ == cmyk_to_rgb_spec(input@),
        r@.len() == 3 * (input@.len() / 4),
{
    let len: usize = input.len();
    let count: usize = len / 4;
    let mut output: Vec<u8> = Vec::with_capacity(3 * count);
    let mut p: usize = 0;
    while p < count
        invariant
            count == input@.len() / 4,
            len == input@.len(),
            4 * count <= len,
            p <= count,
            output@.len() == 3 * p,
            forall|j: int| 0 <= j < 3 * p ==> output@[j] == rgb_byte(input@, j),
        decreases count - p,
    {
        let base: usize = 4 * p;
        let k: u8 = input[base + 3];
        output.push(light_exec(input[base], k));
        output.push(light_exec(input[base + 1], k));
        output.push(light_exec(input[base + 2], k));
        assert forall|j: int| 3 * p <= j < 3 * p + 3 implies output@[j] == rgb_byte(input@, j) by {
            assert(j / 3 == p as int);
        }
        p = p + 1;
    }
    assert(output@ =~= cmyk_to_rgb_spec(input@));
    output
}

/// Each channel follows `floor((255 - ink) * (255 - black) / 255)` for every
/// ink and black value, whichever of the three ink positions holds the ink.
pub proof fn lemma_channel_formula(ink: u8, black: u8)
    ensures
        cmyk_to_rgb_spec(seq![ink, 0, 0, black])[0] == ((255 - ink) * (255 - black)) / 255,
        cmyk_to_rgb_spec(seq![0, ink, 0, black])[1] == ((255 - ink) * (255 - black)) / 255,
        cmyk_to_rgb_spec(seq![0, 0, ink, black])[2] == ((255 - ink) * (255 - black)) / 255,
{
    assert((255 - ink) * (255 - black) <= 255 * 255) by (nonlinear_arith)
        requires
            ink <= 255,
            black <= 255,
    ;
    assert((255 - black) * (255 - ink) == (255 - ink) * (255 - black)) by (nonlinear_arith);
}

/// No ink gives white, and full black gives black whatever the other inks are.
pub proof fn lemma_extremes(c: u8, m: u8, y: u8)
    ensures
        cmyk_to_rgb_spec(seq![0u8, 0u8, 0u8, 0u8]) == seq![255u8, 255u8, 255u8],
        cmyk_to_rgb_spec(seq![c, m, y, 255u8]) == seq![0u8, 0u8, 0u8],
{
    let white = seq![0u8, 0u8, 0u8, 0u8];
    let black = seq![c, m, y, 255u8];
    assert(white[0] == 0 && white[1] == 0 && white[2] == 0 && white[3] == 0);
    assert(black[0] == c && black[1] == m && black[2] == y && black[3] == 255);
    assert(light(0u8, 0u8) == 255) by (nonlinear_arith);
    assert(rgb_byte(white, 0) == 255 && rgb_byte(white, 1) == 255 && rgb_byte(white, 2) == 255);
    assert(rgb_byte(black, 0) == 0 && rgb_byte(black, 1) == 0 && rgb_byte(black, 2) == 0);
    assert(cmyk_to_rgb_spec(white) =~= seq![255u8, 255u8, 255u8]);
    assert(cmyk_to_rgb_spec(black) =~= seq![0u8, 0u8, 0u8]);
}

/// `n` whole pixels give exactly `3 * n` bytes, and a trailing partial pixel
/// is dropped: the result is that of the input cut to its whole pixels.
pub proof fn lemma_length(input: Seq<u8>)
    ensures
        cmyk_to_rgb_spec(input).len() == 3 * (input.len() / 4),
        input.len() % 4 == 0 ==> cmyk_to_rgb_spec(input).len() * 4 == input.len() * 3,
        cmyk_to_rgb_spec(input) == cmyk_to_rgb_spec(input.subrange(0, 4 * (input.len() / 4) as int)),
{
    let whole = input.subrange(0, 4 * (input.len() / 4) as int);
    assert(whole.len() / 4 == input.len() / 4);
    assert forall|j: int| 0 <= j < 3 * (input.len() / 4) implies rgb_byte(input, j) == rgb_byte(
        whole,
        j,
    ) by {
        assert(4 * (j / 3) + 3 < 4 * (input.len() / 4));
    }
    assert(cmyk_to_rgb_spec(input) =~= cmyk_to_rgb_spec(whole));
}

} // verus!
