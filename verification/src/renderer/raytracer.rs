//! The renderer that runs on the processor: the frame it fills, and what
//! the colour of a ray is made of.

use vstd::prelude::*;
use crate::math::color::Color;
use crate::math::scalar::Scalar;
use crate::renderer::select::{nearest, nearest_upto, Trial};

verus! {

/// Bits of `0.001`: a hit nearer than this is the surface that the ray
/// just left.
pub const SELF_HIT_BITS: u32 = 0x3a83_126f;

/// Configuration of the ray tracer.
#[derive(Clone, Copy, Debug, PartialEq, Eq, Structural)]
pub struct RaytracerConfig {
    pub max_depth: u32,
    pub samples_per_pixel: u32,
    pub width: u32,
    pub height: u32,
    pub background_color: Color,
}

impl Default for RaytracerConfig {
    /// 50 bounces, 100 samples, 800 by 600, a sky blue `(0.5, 0.7, 1.0)`.
    fn default() -> (c: RaytracerConfig)
        ensures
            c == (RaytracerConfig {
                max_depth: 50,
                samples_per_pixel: 100,
                width: 800,
                height: 600,
                background_color: Color::of_bits(0x3f00_0000, 0x3f33_3333, 0x3f80_0000, 0x3f80_0000),
            }),
    {
        RaytracerConfig {
            max_depth: 50,
            samples_per_pixel: 100,
            width: 800,
            height: 600,
            background_color: Color::from_bits(0x3f00_0000, 0x3f33_3333, 0x3f80_0000, 0x3f80_0000),
        }
    }
}

/// One pixel of a frame: four bytes.
#[derive(Clone, Copy, Debug, PartialEq, Eq, Structural)]
pub struct Rgba8 {
    pub r: u8,
    pub g: u8,
    pub b: u8,
    pub a: u8,
}

/// What a ray found in the scene.
#[derive(Clone, Copy, Debug, PartialEq, Eq, Structural)]
pub enum Found {
    /// No object in range.
    Nothing,
    /// An object that has no material.
    Bare,
    /// An object with a material.
    Surface,
}

/// What the colour of a ray is.
#[derive(Clone, Copy, Debug, PartialEq, Eq, Structural)]
pub enum Radiance {
    /// Black.
    Black,
    /// The colour behind the scene.
    Background(Color),
    /// The light of the surface that was hit: a tenth of the material's
    /// ambient colour, then each light's colour times its attenuation, and,
    /// where the material scatters the ray, the material's albedo times the
    /// colour of the scattered ray, channel by channel. The scattered ray
    /// is traced at `depth`.
    Shaded { depth: u32 },
}

/// The hits of the objects of a scene as trials: an object that is hit is
/// admitted at the distance of the hit.
pub open spec fn as_trials(hits: Seq<Option<Scalar>>) -> Seq<Trial> {
    hits.map_values(
        |hit: Option<Scalar>|
            match hit {
                Some(t) => Trial { admitted: true, t },
                None => Trial { admitted: false, t: Scalar { bits: 0 } },
            },
    )
}

/// What one ray of a path found, and whether the surface sent it on.
#[derive(Clone, Copy, Debug, PartialEq, Eq, Structural)]
pub struct Bounce {
    pub found: Found,
    pub scattered: bool,
}

/// The pixel at column `x` of row `y` in a frame of rows of `width`
/// pixels.
pub open spec fn pixel_at(frame: Seq<u8>, width: int, x: int, y: int) -> Rgba8 {
    let k = 4 * (y * width + x);
    Rgba8 { r: frame[k], g: frame[k + 1], b: frame[k + 2], a: frame[k + 3] }
}

/// The ray tracer.
#[derive(Clone, Copy, Debug, PartialEq, Eq, Structural)]
pub struct Raytracer {
    pub config: RaytracerConfig,
}

impl Raytracer {
    /// The bytes of a frame: four for each pixel.
    pub open spec fn frame_len(self) -> int {
        self.config.width * self.config.height * 4
    }

    /// The colour of a ray at `depth` that found `found`.
    pub open spec fn radiance(self, depth: u32, found: Found) -> Radiance {
        if depth == 0 {
            Radiance::Black
        } else {
            match found {
                Found::Nothing => Radiance::Background(self.config.background_color),
                Found::Bare => Radiance::Black,
                Found::Surface => Radiance::Shaded { depth: (depth - 1) as u32 },
            }
        }
    }

    /// The number of rays whose colour is shaded along a path that starts
    /// at `depth`, where `bounces` tells what each ray of the path finds.
    /// The path goes on from a ray only where the ray is shaded and
    /// scattered.
    pub open spec fn shaded_rays(self, depth: u32, bounces: Seq<Bounce>) -> nat
        decreases depth,
    {
        if bounces.len() == 0 {
            0
        } else {
            match self.radiance(depth, bounces[0].found) {
                Radiance::Shaded { depth: below } => if bounces[0].scattered && below < depth {
                    1 + self.shaded_rays(below, bounces.drop_first())
                } else {
                    1
                },
                _ => 0,
            }
        }
    }

    pub fn new(config: RaytracerConfig) -> (r: Raytracer)
        ensures
            r.config == config,
    {
        Raytracer { config }
    }

    /// Replaces the configuration. The next frame is rendered with it.
    pub fn update_config(&mut self, new_config: RaytracerConfig)
        ensures
            final(self).config == new_config,
    {
        self.config = new_config;
    }

    pub fn config(&self) -> (c: &RaytracerConfig)
        ensures
            *c == self.config,
    {
        &self.config
    }

    /// The range of distances in which a hit counts: from `0.001` to
    /// infinity.
    pub fn hit_range() -> (range: (Scalar, Scalar))
        ensures
            range.0.bits == SELF_HIT_BITS,
            range.1.bits == crate::math::scalar::INFINITY_BITS,
    {
        (Scalar::from_bits(SELF_HIT_BITS), Scalar::infinity())
    }

    /// The object that a ray hits first. `hits` holds, for each object of
    /// the scene in order, the distance at which the ray meets it, if it
    /// does. The nearest wins, and of two equally near the earlier.
    pub fn closest_hit(hits: &Vec<Option<Scalar>>) -> (object: Option<usize>)
        ensures
            object.is_some() == nearest_upto(as_trials(hits@), None, hits@.len() as int).is_some(),
            object.is_some() ==> object.unwrap() as int == nearest_upto(
                as_trials(hits@),
                None,
                hits@.len() as int,
            ).unwrap(),
            object.is_some() ==> object.unwrap() < hits@.len() && hits@[object.unwrap() as int].is_some(),
            object.is_none() <==> forall|k: int| 0 <= k < hits@.len() ==> hits@[k].is_none(),
            (forall|k: int| 0 <= k < hits@.len() && (#[trigger] hits@[k]).is_some() ==> !hits@[k].unwrap().nan())
                ==> match object {
                Some(i) => {
                    &&& forall|k: int|
                        0 <= k < hits@.len() && (#[trigger] hits@[k]).is_some()
                            ==> !hits@[k].unwrap().less(hits@[i as int].unwrap())
                    &&& forall|k: int|
                        0 <= k < i && (#[trigger] hits@[k]).is_some() ==> hits@[i as int].unwrap().less(
                            hits@[k].unwrap(),
                        )
                },
                None => true,
            },
    {
        let mut trials: Vec<Trial> = Vec::new();
        let mut i: usize = 0;
        while i < hits.len()
            invariant
                i <= hits@.len(),
                trials@.len() == i,
                forall|k: int|
                    0 <= k < i ==> (#[trigger] trials@[k]).admitted == hits@[k].is_some() && (
                    hits@[k].is_some() ==> trials@[k].t == hits@[k].unwrap()) && (
                    hits@[k].is_none() ==> trials@[k].t.bits == 0),
            decreases hits@.len() - i,
        {
            let trial = match hits[i] {
                Some(t) => Trial { admitted: true, t },
                None => Trial { admitted: false, t: Scalar::zero() },
            };
            trials.push(trial);
            i = i + 1;
        }
        let chosen = nearest(&trials, None);
        proof {
            assert(trials@ =~= as_trials(hits@));
            lemma_first_admitted_is_chosen(trials@, trials@.len() as int);
            assert forall|k: int| 0 <= k < hits@.len() implies (#[trigger] hits@[k]).is_some()
                == trials@[k].admitted by {
                assert(trials@[k].admitted == hits@[k].is_some());
            }
            if forall|k: int|
                0 <= k < hits@.len() && (#[trigger] hits@[k]).is_some() ==> !hits@[k].unwrap().nan() {
                assert forall|k: int| 0 <= k < trials@.len() implies !(#[trigger] trials@[k]).t.nan() by {
                    if hits@[k].is_some() {
                    }
                }
                crate::renderer::select::lemma_nearest_is_first_minimum(
                    trials@,
                    None,
                    trials@.len() as int,
                );
                if chosen.is_some() {
                    let i = chosen.unwrap() as int;
                    assert forall|k: int| 0 <= k < hits@.len() && (#[trigger] hits@[k]).is_some()
                        implies !hits@[k].unwrap().less(hits@[i].unwrap()) by {
                        assert(trials@[k].admitted);
                    }
                    assert forall|k: int| 0 <= k < i && (#[trigger] hits@[k]).is_some()
                        implies hits@[i].unwrap().less(hits@[k].unwrap()) by {
                        assert(trials@[k].admitted);
                    }
                }
            }
        }
        chosen
    }

    /// The colour of a ray.
    ///
    /// At depth 0 it is black, whatever the ray found. Otherwise a ray
    /// that found nothing has the background colour, one that found an
    /// object without a material is black, and one that found a surface is
    /// shaded, with its scattered ray one level further down.
    pub fn ray_color(&self, depth: u32, found: Found) -> (color: Radiance)
        ensures
            color == self.radiance(depth, found),
            depth == 0 ==> color == Radiance::Black,
            depth > 0 && found == Found::Nothing ==> color == Radiance::Background(
                self.config.background_color,
            ),
            color matches Radiance::Shaded { depth: below } ==> below < depth,
    {
        if depth == 0 {
            return Radiance::Black;
        }
        match found {
            Found::Nothing => Radiance::Background(self.config.background_color),
            Found::Bare => Radiance::Black,
            Found::Surface => Radiance::Shaded { depth: depth - 1 },
        }
    }

    /// The number of bytes in a frame, or `None` where that number does
    /// not fit the machine.
    pub fn frame_bytes(&self) -> (len: Option<usize>)
        ensures
            len.is_some() <==> self.frame_len() <= usize::MAX,
            len.is_some() ==> len.unwrap() == self.frame_len(),
    {
        let w: u64 = self.config.width as u64;
        let h: u64 = self.config.height as u64;
        assert(w * h <= 0xffff_ffff * 0xffff_ffff) by (nonlinear_arith)
            requires
                0 <= w <= 0xffff_ffff,
                0 <= h <= 0xffff_ffff,
        ;
        let pixels: u64 = w * h;
        assert(self.config.width * self.config.height * 4 == pixels * 4);
        if pixels > (usize::MAX / 4) as u64 {
            None
        } else {
            Some((pixels * 4) as usize)
        }
    }

    /// The column and row of the pixel that stands at place `index` of a
    /// frame: pixels run row by row from the top, each row from the left.
    pub fn pixel_position(&self, index: usize) -> (at: (u32, u32))
        requires
            self.config.width > 0,
            index < self.config.width * self.config.height,
        ensures
            at.0 == index % (self.config.width as usize),
            at.1 == index / (self.config.width as usize),
            at.0 < self.config.width,
            at.1 < self.config.height,
            index == at.1 * self.config.width + at.0,
    {
        let w: usize = self.config.width as usize;
        let x: usize = index % w;
        let y: usize = index / w;
        proof {
            let wi = self.config.width as int;
            let hi = self.config.height as int;
            let ii = index as int;
            assert(ii == wi * (ii / wi) + ii % wi) by (nonlinear_arith)
                requires
                    wi > 0,
            ;
            assert(ii / wi < hi) by (nonlinear_arith)
                requires
                    wi > 0,
                    0 <= ii < wi * hi,
            ;
            assert(wi * (ii / wi) == (ii / wi) * wi) by (nonlinear_arith);
        }
        (x as u32, y as u32)
    }

    /// Renders a frame: `shade(x, y)` gives the pixel at column `x` of row
    /// `y`, and the frame holds the pixels row by row from the top, four
    /// bytes each, red first.
    pub fn render<F: Fn(u32, u32) -> Rgba8>(&self, shade: F) -> (frame: Vec<u8>)
        requires
            self.frame_len() <= usize::MAX,
            forall|x: u32, y: u32|
                x < self.config.width && y < self.config.height ==> call_requires(shade, (x, y)),
        ensures
            frame@.len() == self.config.width * self.config.height * 4,
            forall|x: u32, y: u32|
                x < self.config.width && y < self.config.height ==> call_ensures(
                    shade,
                    (x, y),
                    #[trigger] pixel_at(frame@, self.config.width as int, x as int, y as int),
                ),
    {
        let width: u32 = self.config.width;
        let height: u32 = self.config.height;
        let mut frame: Vec<u8> = Vec::new();
        let mut y: u32 = 0;
        while y < height
            invariant
                y <= height,
                width == self.config.width,
                height == self.config.height,
                frame@.len() == 4 * (y * width),
                forall|x: u32, y: u32|
                    x < self.config.width && y < self.config.height ==> call_requires(shade, (x, y)),
                forall|px: u32, py: u32|
                    px < width && py < y ==> call_ensures(
                        shade,
                        (px, py),
                        #[trigger] pixel_at(frame@, width as int, px as int, py as int),
                    ),
            decreases height - y,
        {
            let mut x: u32 = 0;
            while x < width
                invariant
                    x <= width,
                    y < height,
                    width == self.config.width,
                    height == self.config.height,
                    frame@.len() == 4 * (y * width + x),
                    forall|x: u32, y: u32|
                        x < self.config.width && y < self.config.height ==> call_requires(
                            shade,
                            (x, y),
                        ),
                    forall|px: u32, py: u32|
                        px < width && (py < y || (py == y && px < x)) ==> call_ensures(
                            shade,
                            (px, py),
                            #[trigger] pixel_at(frame@, width as int, px as int, py as int),
                        ),
                decreases width - x,
            {
                let pixel = shade(x, y);
                let ghost before = frame@;
                frame.push(pixel.r);
                frame.push(pixel.g);
                frame.push(pixel.b);
                frame.push(pixel.a);
                proof {
                    let w = width as int;
                    assert forall|px: u32, py: u32|
                        px < width && (py < y || (py == y && px < x + 1)) implies call_ensures(
                        shade,
                        (px, py),
                        #[trigger] pixel_at(frame@, w, px as int, py as int),
                    ) by {
                        if py == y && px == x {
                            assert(pixel_at(frame@, w, px as int, py as int) == pixel);
                        } else {
                            assert(py * w + px < y * w + x) by (nonlinear_arith)
                                requires
                                    0 <= px < w,
                                    0 <= x < w,
                                    0 <= py,
                                    py < y || (py == y && px < x),
                            ;
                            assert(pixel_at(frame@, w, px as int, py as int) == pixel_at(
                                before,
                                w,
                                px as int,
                                py as int,
                            ));
                        }
                    }
                }
                x = x + 1;
            }
            proof {
                assert(y * width + width == (y + 1) * width) by (nonlinear_arith);
            }
            y = y + 1;
        }
        proof {
            assert(4 * (height * width) == width * height * 4) by (nonlinear_arith);
        }
        frame
    }
}

/// With no bound to beat, a trial is chosen exactly when one is admitted.
pub proof fn lemma_first_admitted_is_chosen(trials: Seq<Trial>, n: int)
    requires
        0 <= n <= trials.len(),
    ensures
        nearest_upto(trials, None, n).is_none() <==> forall|k: int|
            0 <= k < n ==> !(#[trigger] trials[k]).admitted,
        nearest_upto(trials, None, n).is_none() <==> crate::renderer::select::best_distance(
            trials,
            None,
            n,
        ).is_none(),
        nearest_upto(trials, None, n).is_some() ==> 0 <= nearest_upto(trials, None, n).unwrap() < n
            && trials[nearest_upto(trials, None, n).unwrap()].admitted,
    decreases n,
{
    if n > 0 {
        lemma_first_admitted_is_chosen(trials, n - 1);
    }
}

/// However long the surfaces go on scattering, no path shades more rays
/// than its depth.
pub proof fn lemma_path_is_bounded(tracer: Raytracer, depth: u32, bounces: Seq<Bounce>)
    ensures
        tracer.shaded_rays(depth, bounces) <= depth,
        tracer.shaded_rays(depth, bounces) <= bounces.len(),
    decreases depth,
{
    if bounces.len() > 0 {
        match tracer.radiance(depth, bounces[0].found) {
            Radiance::Shaded { depth: below } => {
                if bounces[0].scattered && below < depth {
                    lemma_path_is_bounded(tracer, below, bounces.drop_first());
                }
            },
            _ => {},
        }
    }
}

/// A path ends: the depth of a shaded ray's scattered ray is below its
/// own, and at depth 0 nothing is traced.
pub proof fn lemma_depth_decreases(tracer: Raytracer, depth: u32, found: Found)
    ensures
        tracer.radiance(0, found) == Radiance::Black,
        tracer.radiance(depth, found) matches Radiance::Shaded { depth: below } ==> below + 1
            == depth,
{
}

} // verus!
