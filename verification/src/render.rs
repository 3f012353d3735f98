//! The path of a ray through the scene, the order in which pixels are shaded
//! and written, and the text that their colours become.

use crate::hit::Hittable;
use crate::materials::{Material, ScatterResult};
use crate::ppm::{header, header_text, pixel_line, pixel_text, push_pixel};
use crate::ray::Ray;
use crate::scalar::{Scalar, INFINITY_BITS, SHADOW_BIAS_BITS};
use crate::vec::Color;
use vstd::prelude::*;

verus! {

/// How the path of a ray ended.
#[derive(Clone, Copy, Debug, PartialEq, Eq, Structural)]
pub enum PathEnd {
    /// The bounces allowed were used up: the path gathers no light.
    Exhausted,
    /// A surface absorbed the ray: the path gathers no light.
    Absorbed,
    /// The ray left the scene: the path gathers the light of the sky in the
    /// direction of this ray.
    Escaped(Ray),
}

/// One bounce of a path: the colour by which the surface multiplies the
/// light, and the ray that it sent on.
#[derive(Clone, Copy, Debug, PartialEq, Eq, Structural)]
pub struct Bounce {
    pub attenuation: Color,
    pub scattered: Ray,
}

impl ScatterResult {
    /// The bounce that this result stands for, where the ray went on.
    pub open spec fn as_bounce(self) -> Option<Bounce> {
        if self.happened {
            Some(Bounce { attenuation: self.attenuation->0, scattered: self.scattered->0 })
        } else {
            None
        }
    }

    /// The bounce of a ray that went on, and none for an absorbed ray.
    pub fn bounce(&self) -> (r: Option<Bounce>)
        requires
            self.complete(),
        ensures
            r == self.as_bounce(),
    {
        match (self.happened, self.attenuation, self.scattered) {
            (true, Some(attenuation), Some(scattered)) => Some(Bounce { attenuation, scattered }),
            _ => None,
        }
    }
}

/// The path of a ray: how it ended, and its bounces, the last one first. The
/// light of the path is the light at its end multiplied by the attenuation of
/// each bounce in this order.
#[derive(Debug)]
pub struct Path {
    pub end: PathEnd,
    pub bounces: Vec<Bounce>,
}

/// Whether a path of `ray` through `world` with at most `depth` bounces can
/// end in `end` after `bounces`, the last one first.
///
/// Without a bounce left the path is exhausted. Otherwise the ray is followed
/// to its nearest hit beyond the shadow bias. Without a hit it escapes. At a
/// hit the surface gives one of its answers: it absorbs the ray, or it names
/// an attenuation and a ray that goes on with one bounce less.
pub open spec fn follows<M: Material, W: Hittable<M>>(
    world: W,
    ray: Ray,
    depth: nat,
    end: PathEnd,
    bounces: Seq<Bounce>,
) -> bool
    decreases depth,
{
    if depth == 0 {
        end == PathEnd::Exhausted && bounces.len() == 0
    } else {
        let bias = Scalar { bits: SHADOW_BIAS_BITS };
        let far = Scalar { bits: INFINITY_BITS };
        match world.nearest(ray, bias, far) {
            None => end == PathEnd::Escaped(ray) && bounces.len() == 0,
            Some(record) => exists|answer: ScatterResult|
                {
                    &&& #[trigger] record.material.answers(ray, record, answer)
                    &&& answer.complete()
                    &&& match answer.as_bounce() {
                        None => end == PathEnd::Absorbed && bounces.len() == 0,
                        Some(bounce) => {
                            &&& bounces.len() > 0
                            &&& bounces.last() == bounce
                            &&& follows(
                                world,
                                bounce.scattered,
                                (depth - 1) as nat,
                                end,
                                bounces.drop_last(),
                            )
                        },
                    }
                },
        }
    }
}

/// Follows `ray` through `world` for at most `depth` bounces.
///
/// At each step the nearest hit between the shadow bias of 0.001 and
/// infinity is taken. Nearer hits do not count, so that a scattered ray does
/// not meet the surface that it leaves.
pub fn trace<M: Material, W: Hittable<M>>(ray: &Ray, world: &W, depth: usize) -> (path: Path)
    ensures
        follows(*world, *ray, depth as nat, path.end, path.bounces@),
        path.bounces@.len() <= depth,
        path.end == PathEnd::Exhausted <==> path.bounces@.len() == depth,
    decreases depth,
{
    if depth == 0 {
        return Path { end: PathEnd::Exhausted, bounces: Vec::new() };
    }
    match world.hit(ray, Scalar::from_bits(SHADOW_BIAS_BITS), Scalar::infinity()) {
        None => Path { end: PathEnd::Escaped(*ray), bounces: Vec::new() },
        Some(record) => {
            let scatter = record.material.scatter(ray, &record);
            assert(record.material.answers(*ray, record, scatter));
            match scatter.bounce() {
                Some(bounce) => {
                    let mut path = trace(&bounce.scattered, world, depth - 1);
                    let ghost inner = path.bounces@;
                    path.bounces.push(bounce);
                    proof {
                        assert(path.bounces@.drop_last() =~= inner);
                    }
                    path
                },
                None => Path { end: PathEnd::Absorbed, bounces: Vec::new() },
            }
        },
    }
}

/// The row, counted from the bottom, and the column, counted from the left,
/// of the pixel that is written at `position`: the top row is written first,
/// and each row from left to right.
pub open spec fn pixel_of(width: usize, height: usize, position: int) -> (usize, usize) {
    ((height - 1 - position / (width as int)) as usize, (position % (width as int)) as usize)
}

/// The place in the stream of the pixel in `row` and `column`.
pub open spec fn stream_position(width: nat, height: nat, row: nat, column: nat) -> nat {
    ((height - 1 - row) * width + column) as nat
}

/// The row and column of the pixel that is written at `position`.
pub fn pixel_at(width: usize, height: usize, position: usize) -> (r: (usize, usize))
    requires
        position < width * height,
    ensures
        r == pixel_of(width, height, position as int),
        r.0 < height,
        r.1 < width,
{
    let down = position / width;
    let column = position % width;
    proof {
        lemma_stream_order(width as nat, height as nat, position as nat);
    }
    (height - 1 - down, column)
}

/// The stream visits every pixel once: a position below `width * height`
/// names a pixel of the picture, and that pixel's place is the position.
pub proof fn lemma_stream_order(width: nat, height: nat, position: nat)
    by (nonlinear_arith)
    requires
        position < width * height,
    ensures
        0 < width,
        position / width < height,
        position % width < width,
        stream_position(
            width,
            height,
            (height - 1 - position / width) as nat,
            position % width,
        ) == position,
{
}

/// Every pixel has its own place in the stream: the place of a pixel lies
/// below `width * height`, and two pixels with one place are the same pixel.
pub proof fn lemma_stream_order_is_one_to_one(
    width: nat,
    height: nat,
    row: nat,
    column: nat,
    other_row: nat,
    other_column: nat,
)
    by (nonlinear_arith)
    requires
        row < height,
        column < width,
        other_row < height,
        other_column < width,
    ensures
        stream_position(width, height, row, column) < width * height,
        stream_position(width, height, row, column) == stream_position(
            width,
            height,
            other_row,
            other_column,
        ) ==> row == other_row && column == other_column,
{
}

/// The colour of every pixel, in the order of the stream. `shade` gives the
/// colour of the pixel in a row and a column; it is asked once for each
/// pixel, in the order in which the pixels are written.
pub fn shade_pixels<F: Fn(usize, usize) -> Color>(width: usize, height: usize, shade: F) -> (colors:
    Vec<Color>)
    requires
        width * height <= usize::MAX,
        forall|row: usize, column: usize|
            row < height && column < width ==> call_requires(shade, (row, column)),
    ensures
        colors@.len() == width * height,
        forall|k: int|
            0 <= k < colors@.len() ==> call_ensures(
                shade,
                pixel_of(width, height, k),
                #[trigger] colors@[k],
            ),
{
    let total = width * height;
    let mut colors: Vec<Color> = Vec::new();
    let mut position: usize = 0;
    while position < total
        invariant
            total == width * height,
            position <= total,
            colors@.len() == position,
            forall|row: usize, column: usize|
                row < height && column < width ==> call_requires(shade, (row, column)),
            forall|k: int|
                0 <= k < position ==> call_ensures(
                    shade,
                    pixel_of(width, height, k),
                    #[trigger] colors@[k],
                ),
        decreases total - position,
    {
        let (row, column) = pixel_at(width, height, position);
        let color = shade(row, column);
        colors.push(color);
        position += 1;
    }
    colors
}

/// The line of the stream for a pixel of colour `color`.
pub open spec fn color_text(color: Color) -> Seq<u8> {
    pixel_text(color.x.channel(), color.y.channel(), color.z.channel())
}

/// The lines of the stream for `colors`, one after the other.
pub open spec fn lines_text(colors: Seq<Color>) -> Seq<u8>
    decreases colors.len(),
{
    if colors.len() == 0 {
        Seq::empty()
    } else {
        lines_text(colors.drop_last()) + color_text(colors.last())
    }
}

/// The line of the stream for a pixel whose colour is `color` after the
/// samples were averaged and the gamma was corrected: each channel held
/// between 0 and 0.999, scaled to 0..=255 and cut down to a whole number.
pub fn write_color(color: &Color) -> (r: Vec<u8>)
    ensures
        r@ == color_text(*color),
{
    pixel_line(color.x.to_channel(), color.y.to_channel(), color.z.to_channel())
}

/// The text of a picture of `width` by `height` pixels: the header, then the
/// line of each colour. `colors` holds the gamma-corrected colours in the
/// order of the stream, one for each pixel.
pub fn picture(width: usize, height: usize, colors: &Vec<Color>) -> (r: Vec<u8>)
    requires
        colors@.len() == width * height,
    ensures
        r@ == header_text(width as nat, height as nat) + lines_text(colors@),
{
    let mut out = header(width, height);
    let mut index: usize = 0;
    while index < colors.len()
        invariant
            index <= colors@.len(),
            out@ == header_text(width as nat, height as nat) + lines_text(
                colors@.take(index as int),
            ),
        decreases colors@.len() - index,
    {
        let color = colors[index];
        push_pixel(&mut out, color.x.to_channel(), color.y.to_channel(), color.z.to_channel());
        proof {
            assert(colors@.take(index + 1).drop_last() =~= colors@.take(index as int));
        }
        index += 1;
    }
    proof {
        assert(colors@.take(index as int) =~= colors@);
    }
    out
}

} // verus!
