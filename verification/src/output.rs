//! What leaves the renderer, byte by byte: the image file and the progress
//! line.
//!
//! The image is a binary PPM: the header `P6`, a line feed, width and height
//! in decimal with a space between them, a line feed, `255`, a line feed, and
//! then red, green and blue of each pixel, one byte each, row by row from the
//! top.

use vstd::prelude::*;
use crate::render::{radiance, HitPayload, Radiance};
use crate::scene::{Scene, SceneView};
use crate::vector::Vec3;

verus! {

/// ASCII `0`.
pub const DIGIT_ZERO: u8 = 48;

/// ASCII `2`.
pub const DIGIT_TWO: u8 = 50;

/// ASCII `5`.
pub const DIGIT_FIVE: u8 = 53;

/// ASCII `6`.
pub const DIGIT_SIX: u8 = 54;

/// ASCII `9`.
pub const DIGIT_NINE: u8 = 57;

/// ASCII `P`.
pub const LETTER_P: u8 = 80;

/// ASCII minus sign.
pub const MINUS: u8 = 45;

/// ASCII space.
pub const SPACE: u8 = 32;

/// ASCII line feed.
pub const LINE_FEED: u8 = 10;

/// ASCII carriage return.
pub const CARRIAGE_RETURN: u8 = 13;

/// ASCII percent sign.
pub const PERCENT: u8 = 37;

/// ASCII `[`, which opens the progress bar.
pub const OPEN: u8 = 91;

/// ASCII `]`, which closes the progress bar.
pub const CLOSE: u8 = 93;

/// ASCII `=`, a place of the progress bar that is done.
pub const DONE: u8 = 61;

/// ASCII `>`, the head of the progress bar.
pub const HEAD: u8 = 62;

/// A pixel as the image file holds it.
#[derive(Debug, Clone, Copy, PartialEq, Eq, Structural)]
pub struct Rgb {
    pub r: u8,
    pub g: u8,
    pub b: u8,
}

/// The decimal digits of `n` in ASCII, most significant first, without
/// leading zeros.
pub open spec fn digits(n: nat) -> Seq<u8>
    decreases n,
{
    if n < 10 {
        seq![(DIGIT_ZERO + n) as u8]
    } else {
        digits(n / 10).push((DIGIT_ZERO + n % 10) as u8)
    }
}

/// `v` in decimal, in ASCII, with a minus sign in front of a negative number.
pub open spec fn decimal(v: int) -> Seq<u8> {
    if v < 0 {
        seq![MINUS] + digits((-v) as nat)
    } else {
        digits(v as nat)
    }
}

/// The header of an image of the given size.
pub open spec fn header(width: int, height: int) -> Seq<u8> {
    seq![LETTER_P, DIGIT_SIX, LINE_FEED] + decimal(width) + seq![SPACE] + decimal(height) + seq![
        LINE_FEED,
        DIGIT_TWO,
        DIGIT_FIVE,
        DIGIT_FIVE,
        LINE_FEED,
    ]
}

/// The bytes of the pixels: red, green, blue of the first pixel, then of the
/// second, and so on.
pub open spec fn raster(pixels: Seq<Rgb>) -> Seq<u8> {
    Seq::new(
        3 * pixels.len(),
        |k: int|
            if k % 3 == 0 {
                pixels[k / 3].r
            } else if k % 3 == 1 {
                pixels[k / 3].g
            } else {
                pixels[k / 3].b
            },
    )
}

/// The image file: the header, then the pixels.
pub open spec fn ppm(width: int, height: int, pixels: Seq<Rgb>) -> Seq<u8> {
    header(width, height) + raster(pixels)
}

fn push_digits(out: &mut Vec<u8>, n: u32)
    ensures
        final(out)@ == old(out)@ + digits(n as nat),
    decreases n,
{
    if n >= 10 {
        push_digits(out, n / 10);
    }
    let digit: u8 = (n % 10) as u8;
    out.push(DIGIT_ZERO + digit);
    assert(final(out)@ =~= old(out)@ + digits(n as nat));
}

/// Appends `v` in decimal to `out`.
pub fn push_decimal(out: &mut Vec<u8>, v: i32)
    ensures
        final(out)@ == old(out)@ + decimal(v as int),
{
    if v < 0 {
        out.push(MINUS);
        let magnitude: u32 = (-(v as i64)) as u32;
        push_digits(out, magnitude);
        assert(final(out)@ =~= old(out)@ + decimal(v as int));
    } else {
        push_digits(out, v as u32);
    }
}

/// The header of an image of the given size.
pub fn ppm_header(width: i32, height: i32) -> (r: Vec<u8>)
    ensures
        r@ == header(width as int, height as int),
{
    let mut out: Vec<u8> = Vec::new();
    out.push(LETTER_P);
    out.push(DIGIT_SIX);
    out.push(LINE_FEED);
    push_decimal(&mut out, width);
    out.push(SPACE);
    push_decimal(&mut out, height);
    out.push(LINE_FEED);
    out.push(DIGIT_TWO);
    out.push(DIGIT_FIVE);
    out.push(DIGIT_FIVE);
    out.push(LINE_FEED);
    assert(out@ =~= header(width as int, height as int));
    out
}

/// The image file of a rendered scene.
///
/// `pixels` holds the image row by row from the top, one entry for each of
/// the scene's `width * height` positions. With any other number of pixels
/// there is no image, and the result is `None`.
pub fn render(scene: &Scene, pixels: &Vec<Rgb>) -> (r: Option<Vec<u8>>)
    ensures
        r is Some <==> scene@.width >= 0 && scene@.height >= 0 && pixels@.len() == scene@.width
            * scene@.height,
        r matches Some(bytes) ==> bytes@ == ppm(
            scene@.width as int,
            scene@.height as int,
            pixels@,
        ),
{
    let given: usize = pixels.len();
    match scene.pixel_count() {
        Some(count) => {
            if count != given {
                return None;
            }
        },
        None => {
            return None;
        },
    }
    let mut out = ppm_header(scene.get_width(), scene.get_height());
    let ghost head = out@;
    let mut i: usize = 0;
    while i < pixels.len()
        invariant
            i <= pixels.len(),
            out@ == head + raster(pixels@.take(i as int)),
        decreases pixels.len() - i,
    {
        let p = pixels[i];
        out.push(p.r);
        out.push(p.g);
        out.push(p.b);
        i += 1;
        assert(out@ =~= head + raster(pixels@.take(i as int)));
    }
    assert(pixels@.take(i as int) =~= pixels@);
    Some(out)
}

/// The progress line: an opening bracket, a bar of fifty places, a closing
/// bracket, `percent` in decimal, a percent sign and a carriage return.
///
/// The places before `pos` show `=`, place `pos` shows `>`, the places after
/// it are blank.
pub fn update_progress(pos: i32, percent: i32) -> (r: Vec<u8>)
    ensures
        r@ == progress_line(pos as int, percent as int),
{
    let mut out: Vec<u8> = Vec::new();
    out.push(OPEN);
    let mut i: i32 = 0;
    while i < 50
        invariant
            0 <= i <= 50,
            out@ == seq![OPEN] + bar(pos as int).take(i as int),
        decreases 50 - i,
    {
        if i < pos {
            out.push(DONE);
        } else if i == pos {
            out.push(HEAD);
        } else {
            out.push(SPACE);
        }
        i += 1;
        assert(out@ =~= seq![OPEN] + bar(pos as int).take(i as int));
    }
    assert(bar(pos as int).take(50) =~= bar(pos as int));
    out.push(CLOSE);
    push_decimal(&mut out, percent);
    out.push(PERCENT);
    out.push(CARRIAGE_RETURN);
    assert(out@ =~= progress_line(pos as int, percent as int));
    out
}

/// The fifty places of the progress bar with the head at place `pos`.
pub open spec fn bar(pos: int) -> Seq<u8> {
    Seq::new(
        50,
        |i: int|
            if i < pos {
                DONE
            } else if i == pos {
                HEAD
            } else {
                SPACE
            },
    )
}

/// The progress line: see [`update_progress`].
pub open spec fn progress_line(pos: int, percent: int) -> Seq<u8> {
    seq![OPEN] + bar(pos) + seq![CLOSE] + decimal(percent) + seq![PERCENT, CARRIAGE_RETURN]
}

/// The number that a run of ASCII digits stands for.
pub open spec fn value(s: Seq<u8>) -> nat
    decreases s.len(),
{
    if s.len() == 0 {
        0
    } else {
        (value(s.drop_last()) * 10 + (s.last() - DIGIT_ZERO)) as nat
    }
}

/// `digits(n)` is at least one byte long, holds ASCII digits only, and stands
/// for `n`.
pub proof fn lemma_digits_stand_for_their_number(n: nat)
    ensures
        digits(n).len() >= 1,
        forall|i: int| 0 <= i < digits(n).len() ==> DIGIT_ZERO <= #[trigger] digits(n)[i] <= DIGIT_NINE,
        value(digits(n)) == n,
    decreases n,
{
    if n < 10 {
        assert(digits(n).drop_last() =~= Seq::<u8>::empty());
        assert(value(digits(n).drop_last()) == 0);
    } else {
        lemma_digits_stand_for_their_number(n / 10);
        assert(digits(n).drop_last() =~= digits(n / 10));
    }
}

/// Two numbers with the same decimal form are the same number.
pub proof fn lemma_decimal_is_injective(x: int, y: int)
    requires
        decimal(x) == decimal(y),
    ensures
        x == y,
{
    let a: nat = if x < 0 { (-x) as nat } else { x as nat };
    let b: nat = if y < 0 { (-y) as nat } else { y as nat };
    lemma_digits_stand_for_their_number(a);
    lemma_digits_stand_for_their_number(b);
    assert(digits(a)[0] != MINUS && digits(b)[0] != MINUS);
    if x < 0 {
        assert(decimal(x)[0] == MINUS);
        assert(y < 0);
        assert(digits(a) =~= decimal(x).subrange(1, decimal(x).len() as int));
        assert(digits(b) =~= decimal(y).subrange(1, decimal(y).len() as int));
    } else {
        assert(decimal(x)[0] != MINUS);
        assert(y >= 0);
    }
}

/// No byte of a decimal form is a space or a line feed.
proof fn lemma_decimal_holds_no_separator(x: int)
    ensures
        forall|i: int|
            0 <= i < decimal(x).len() ==> (#[trigger] decimal(x)[i]) != SPACE && decimal(x)[i] != LINE_FEED,
{
    let a: nat = if x < 0 { (-x) as nat } else { x as nat };
    lemma_digits_stand_for_their_number(a);
}

/// Two byte strings that are each a run free of the byte `mark`, then
/// `mark`, then a rest, and that are equal, have the same run and the same
/// rest.
proof fn lemma_split_at_mark(a: Seq<u8>, r: Seq<u8>, b: Seq<u8>, q: Seq<u8>, mark: u8)
    requires
        a + seq![mark] + r == b + seq![mark] + q,
        forall|i: int| 0 <= i < a.len() ==> (#[trigger] a[i]) != mark,
        forall|i: int| 0 <= i < b.len() ==> (#[trigger] b[i]) != mark,
    ensures
        a == b,
        r == q,
{
    let left = a + seq![mark] + r;
    let right = b + seq![mark] + q;
    if a.len() < b.len() {
        assert(left[a.len() as int] == mark);
        assert(right[a.len() as int] == b[a.len() as int]);
    } else if b.len() < a.len() {
        assert(right[b.len() as int] == mark);
        assert(left[b.len() as int] == a[b.len() as int]);
    }
    assert(a.len() == b.len());
    assert(a =~= left.subrange(0, a.len() as int));
    assert(b =~= right.subrange(0, a.len() as int));
    assert(r =~= left.subrange(a.len() as int + 1, left.len() as int));
    assert(q =~= right.subrange(a.len() as int + 1, right.len() as int));
}

/// Pixel `i` stands in the raster at the bytes `3 i`, `3 i + 1` and
/// `3 i + 2`, red first.
proof fn lemma_raster_at(pixels: Seq<Rgb>, i: int)
    requires
        0 <= i < pixels.len(),
    ensures
        raster(pixels).len() == 3 * pixels.len(),
        raster(pixels)[3 * i] == pixels[i].r,
        raster(pixels)[3 * i + 1] == pixels[i].g,
        raster(pixels)[3 * i + 2] == pixels[i].b,
{
    assert((3 * i) % 3 == 0 && (3 * i) / 3 == i);
    assert((3 * i + 1) % 3 == 1 && (3 * i + 1) / 3 == i);
    assert((3 * i + 2) % 3 == 2 && (3 * i + 2) / 3 == i);
}

/// Two runs of pixels with the same bytes are the same pixels.
proof fn lemma_raster_is_injective(p: Seq<Rgb>, q: Seq<Rgb>)
    requires
        raster(p) == raster(q),
    ensures
        p == q,
{
    assert(raster(p).len() == 3 * p.len());
    assert(raster(q).len() == 3 * q.len());
    assert forall|i: int| 0 <= i < p.len() implies p[i] == q[i] by {
        lemma_raster_at(p, i);
        lemma_raster_at(q, i);
    }
    assert(p =~= q);
}

/// An image of one colour is its header followed by that colour, pixel
/// after pixel.
pub proof fn lemma_uniform_image(width: int, height: int, pixels: Seq<Rgb>, color: Rgb)
    requires
        forall|i: int| 0 <= i < pixels.len() ==> pixels[i] == color,
    ensures
        ppm(width, height, pixels).len() == header(width, height).len() + 3 * pixels.len(),
        ppm(width, height, pixels).subrange(0, header(width, height).len() as int) == header(
            width,
            height,
        ),
        forall|i: int|
            #![trigger pixels[i]]
            0 <= i < pixels.len() ==> {
                &&& ppm(width, height, pixels)[header(width, height).len() + 3 * i] == color.r
                &&& ppm(width, height, pixels)[header(width, height).len() + 3 * i + 1] == color.g
                &&& ppm(width, height, pixels)[header(width, height).len() + 3 * i + 2] == color.b
            },
{
    let head = header(width, height);
    let body = raster(pixels);
    let file = ppm(width, height, pixels);
    assert(body.len() == 3 * pixels.len());
    assert(file.len() == head.len() + body.len());
    assert(file.subrange(0, head.len() as int) =~= head);
    assert forall|i: int| #![trigger pixels[i]] 0 <= i < pixels.len() implies {
        &&& file[head.len() + 3 * i] == color.r
        &&& file[head.len() + 3 * i + 1] == color.g
        &&& file[head.len() + 3 * i + 2] == color.b
    } by {
        lemma_raster_at(pixels, i);
        assert(file[head.len() + 3 * i] == body[3 * i]);
        assert(file[head.len() + 3 * i + 1] == body[3 * i + 1]);
        assert(file[head.len() + 3 * i + 2] == body[3 * i + 2]);
    }
}

/// A scene without primitives renders as its background.
///
/// `hits` holds for each pixel the nearest hit of its primary ray, `frame`
/// the colour that the ray contributes, and `pixels` what `quantize` makes of
/// that colour for the image file. Whatever `quantize` is, as long as the
/// pixel depends on the colour alone: with a depth limit that is not below
/// zero every colour of the frame is the background colour, and the image
/// file is its header followed by the one pixel that the background colour
/// gives, pixel after pixel.
pub proof fn lemma_empty_scene_renders_as_its_background(
    scene: SceneView,
    hits: Seq<Option<HitPayload>>,
    frame: Seq<Vec3>,
    quantize: spec_fn(Vec3) -> Rgb,
    pixels: Seq<Rgb>,
)
    requires
        scene.objects.len() == 0,
        scene.max_depth >= 0,
        hits.len() == frame.len(),
        pixels.len() == frame.len(),
        forall|k: int|
            0 <= k < hits.len() ==> ((#[trigger] hits[k]) matches Some(p) ==> p.hit_obj
                < scene.objects.len()),
        forall|k: int|
            0 <= k < frame.len() ==> radiance(scene, 0, hits[k]) == Radiance::Color(
                #[trigger] frame[k],
            ),
        forall|k: int| 0 <= k < pixels.len() ==> #[trigger] pixels[k] == quantize(frame[k]),
    ensures
        forall|k: int| 0 <= k < frame.len() ==> #[trigger] frame[k] == scene.background_color,
        ppm(scene.width as int, scene.height as int, pixels) == header(
            scene.width as int,
            scene.height as int,
        ) + raster(Seq::new(pixels.len(), |k: int| quantize(scene.background_color))),
        forall|k: int|
            #![trigger pixels[k]]
            0 <= k < pixels.len() ==> {
                let file = ppm(scene.width as int, scene.height as int, pixels);
                let at = header(scene.width as int, scene.height as int).len() + 3 * k;
                &&& file[at] == quantize(scene.background_color).r
                &&& file[at + 1] == quantize(scene.background_color).g
                &&& file[at + 2] == quantize(scene.background_color).b
            },
{
    let color = quantize(scene.background_color);
    assert forall|k: int| 0 <= k < frame.len() implies #[trigger] frame[k]
        == scene.background_color by {
        assert(hits[k] is None);
        assert(radiance(scene, 0, hits[k]) == Radiance::Color(scene.background_color));
    }
    assert forall|k: int| 0 <= k < pixels.len() implies pixels[k] == color by {
        assert(frame[k] == scene.background_color);
    }
    assert(pixels =~= Seq::new(pixels.len(), |k: int| quantize(scene.background_color)));
    lemma_uniform_image(scene.width as int, scene.height as int, pixels, color);
}

/// The image file loses nothing: two images with the same bytes have the
/// same width, the same height and the same pixels.
pub proof fn lemma_ppm_is_lossless(
    width: int,
    height: int,
    pixels: Seq<Rgb>,
    width2: int,
    height2: int,
    pixels2: Seq<Rgb>,
)
    requires
        ppm(width, height, pixels) == ppm(width2, height2, pixels2),
    ensures
        width == width2,
        height == height2,
        pixels == pixels2,
{
    let magic = seq![LETTER_P, DIGIT_SIX, LINE_FEED];
    let tail = seq![DIGIT_TWO, DIGIT_FIVE, DIGIT_FIVE, LINE_FEED];
    let rest = decimal(height) + seq![LINE_FEED] + (tail + raster(pixels));
    let rest2 = decimal(height2) + seq![LINE_FEED] + (tail + raster(pixels2));
    let body = decimal(width) + seq![SPACE] + rest;
    let body2 = decimal(width2) + seq![SPACE] + rest2;
    assert(ppm(width, height, pixels) =~= magic + body);
    assert(ppm(width2, height2, pixels2) =~= magic + body2);
    assert(body =~= (magic + body).subrange(3, (magic + body).len() as int));
    assert(body2 =~= (magic + body2).subrange(3, (magic + body2).len() as int));
    lemma_decimal_holds_no_separator(width);
    lemma_decimal_holds_no_separator(width2);
    lemma_split_at_mark(decimal(width), rest, decimal(width2), rest2, SPACE);
    lemma_decimal_is_injective(width, width2);
    lemma_decimal_holds_no_separator(height);
    lemma_decimal_holds_no_separator(height2);
    lemma_split_at_mark(
        decimal(height),
        tail + raster(pixels),
        decimal(height2),
        tail + raster(pixels2),
        LINE_FEED,
    );
    lemma_decimal_is_injective(height, height2);
    assert(raster(pixels) =~= (tail + raster(pixels)).subrange(
        4,
        (tail + raster(pixels)).len() as int,
    ));
    assert(raster(pixels2) =~= (tail + raster(pixels2)).subrange(
        4,
        (tail + raster(pixels2)).len() as int,
    ));
    lemma_raster_is_injective(pixels, pixels2);
}

} // verus!
