//! The integrator's path of a ray through the scene, and the renderer's
//! frame: what a render is asked for, which seed each pixel draws from,
//! how finished pixels are laid out in the buffer, and how the buffer
//! becomes a TGA file.

use crate::hit::{nearest_among, Nearest};
use crate::material::Scatter;
use crate::scalar::Scalar;
use vstd::prelude::*;

verus! {

/// Where a path stands: what is to be done with its ray next, or how it
/// ended.
///
/// The radiance of a path is the product of the attenuations of its
/// bounces, times the sky's colour along the last ray where it ends in
/// `Sky`, and zero where it ends in `Black`. Cutting a path off when its
/// depth is used up loses light: it is an approximation made on purpose,
/// so that every path ends.
#[derive(Clone, Copy, Debug, PartialEq, Eq, Structural)]
pub enum Path {
    /// The ray is to be intersected with the scene; `depth` bounces are
    /// left to it.
    Cast { depth: u32 },
    /// The ray hit a surface and is to be scattered there; `depth` bounces
    /// are left after this one.
    Shade { depth: u32 },
    /// The ray left the scene.
    Sky,
    /// The ray was absorbed, or hit a surface with no bounce left.
    Black,
}

/// What happened to the ray of a path.
#[derive(Clone, Copy, Debug, PartialEq, Eq, Structural)]
pub enum Event {
    /// The ray hit nothing.
    Miss,
    /// The ray hit a surface.
    Hit,
    /// The surface sent a new ray on.
    Scattered,
    /// The surface sent nothing on.
    Absorbed,
}

/// What the end of a path contributes, before the attenuations of its
/// bounces are applied.
#[derive(Clone, Copy, Debug, PartialEq, Eq, Structural)]
pub enum Radiance {
    /// The sky's gradient, white blended into blue.
    Gradient,
    /// Nothing.
    Zero,
}

impl Event {
    /// The event that the outcome of an intersection is.
    pub open spec fn spec_of_hit(found: Option<Nearest>) -> Event {
        if found is Some {
            Event::Hit
        } else {
            Event::Miss
        }
    }

    /// The event that the outcome of a scattering is. `normal_square` is
    /// the dot product of the surface normal with itself: a surface whose
    /// normal is not a proper vector sends nothing on.
    pub open spec fn spec_of_scatter(outcome: Scatter, normal_square: Scalar) -> Event {
        if outcome != Scatter::Absorb && normal_square.spec_is_finite() {
            Event::Scattered
        } else {
            Event::Absorbed
        }
    }

    /// The event that the outcome of a scattering is: scattered exactly
    /// where the material did not absorb the ray and the surface normal,
    /// by its square, is a proper vector; absorbed otherwise.
    pub fn of_scatter(outcome: Scatter, normal_square: Scalar) -> (event: Event)
        ensures
            event == Event::spec_of_scatter(outcome, normal_square),
            event == Event::Scattered || event == Event::Absorbed,
    {
        match outcome {
            Scatter::Absorb => Event::Absorbed,
            _ => {
                if normal_square.is_finite() {
                    Event::Scattered
                } else {
                    Event::Absorbed
                }
            },
        }
    }

    /// The event that the outcome of an intersection is: a hit or a miss.
    pub fn of_hit(found: &Option<Nearest>) -> (event: Event)
        ensures
            event == Event::spec_of_hit(*found),
    {
        match found {
            Some(_) => Event::Hit,
            None => Event::Miss,
        }
    }
}

impl Path {
    /// The path after an event, or `None` where the event cannot happen
    /// at this stage.
    ///
    /// A cast ray that misses ends in the sky, whatever its depth. One
    /// that hits is shaded if a bounce is left, and ends black if none
    /// is. A shaded ray that is scattered is cast again with one bounce
    /// fewer; one that is absorbed ends black.
    pub open spec fn spec_step(self, event: Event) -> Option<Path> {
        match (self, event) {
            (Path::Cast { depth }, Event::Miss) => Some(Path::Sky),
            (Path::Cast { depth }, Event::Hit) => if depth > 0 {
                Some(Path::Shade { depth: (depth - 1) as u32 })
            } else {
                Some(Path::Black)
            },
            (Path::Shade { depth }, Event::Scattered) => Some(Path::Cast { depth }),
            (Path::Shade { depth }, Event::Absorbed) => Some(Path::Black),
            _ => None,
        }
    }

    /// The largest number of events that can still happen to the path.
    pub open spec fn events_left(self) -> nat {
        match self {
            Path::Cast { depth } => 2 * depth as nat + 1,
            Path::Shade { depth } => 2 * depth as nat + 2,
            _ => 0,
        }
    }

    /// The path after a sequence of events, or `None` where one of them
    /// cannot happen at its stage.
    pub open spec fn run(self, events: Seq<Event>) -> Option<Path>
        decreases events.len(),
    {
        if events.len() == 0 {
            Some(self)
        } else {
            match self.spec_step(events[0]) {
                Some(next) => next.run(events.drop_first()),
                None => None,
            }
        }
    }

    /// What a finished path contributes, or `None` while it is not
    /// finished. `blend` is the parameter of the sky's gradient along the
    /// last ray: a path that ends in the sky contributes the gradient
    /// where the blend is a finite number, and nothing where it is not,
    /// as for a ray without a direction. A path that ends black
    /// contributes nothing.
    pub open spec fn spec_radiance(self, blend: Scalar) -> Option<Radiance> {
        match self {
            Path::Sky => if blend.spec_is_finite() {
                Some(Radiance::Gradient)
            } else {
                Some(Radiance::Zero)
            },
            Path::Black => Some(Radiance::Zero),
            _ => None,
        }
    }

    /// The path of a fresh ray that may bounce `max_depth` times.
    pub fn start(max_depth: u32) -> (path: Path)
        ensures
            path == (Path::Cast { depth: max_depth }),
    {
        Path::Cast { depth: max_depth }
    }

    /// Advances the path by one event. Every step brings the end nearer.
    pub fn step(self, event: Event) -> (next: Option<Path>)
        ensures
            next == self.spec_step(event),
            next matches Some(path) ==> path.events_left() < self.events_left(),
    {
        match self {
            Path::Cast { depth } => match event {
                Event::Miss => Some(Path::Sky),
                Event::Hit => {
                    if depth > 0 {
                        Some(Path::Shade { depth: depth - 1 })
                    } else {
                        Some(Path::Black)
                    }
                },
                _ => None,
            },
            Path::Shade { depth } => match event {
                Event::Scattered => Some(Path::Cast { depth }),
                Event::Absorbed => Some(Path::Black),
                _ => None,
            },
            _ => None,
        }
    }

    /// What a finished path contributes, given the blend of the sky's
    /// gradient along its last ray; `None` while the path is not finished.
    pub fn radiance(self, blend: Scalar) -> (light: Option<Radiance>)
        ensures
            light == self.spec_radiance(blend),
    {
        match self {
            Path::Sky => {
                if blend.is_finite() {
                    Some(Radiance::Gradient)
                } else {
                    Some(Radiance::Zero)
                }
            },
            Path::Black => Some(Radiance::Zero),
            _ => None,
        }
    }
}

/// Every path ends: no sequence of events is longer than the number of
/// events left to the path it starts from, which for a fresh ray is
/// twice its depth and one.
pub proof fn lemma_path_ends(path: Path, events: Seq<Event>)
    requires
        path.run(events) is Some,
    ensures
        events.len() + path.run(events).unwrap().events_left() <= path.events_left(),
    decreases events.len(),
{
    if events.len() > 0 {
        let next = path.spec_step(events[0]).unwrap();
        lemma_path_ends(next, events.drop_first());
    }
}

/// In a scene without spheres no ray hits anything: a cast ray ends in the
/// sky at once, whatever its range and its depth, and contributes the
/// sky's gradient wherever the gradient's blend is a finite number.
pub proof fn lemma_empty_scene_is_sky(lo: Scalar, hi: Scalar, depth: u32, blend: Scalar)
    ensures
        nearest_among(Seq::empty(), lo, hi, 0) is None,
        (Path::Cast { depth }).spec_step(
            Event::spec_of_hit(nearest_among(Seq::empty(), lo, hi, 0)),
        ) == Some(Path::Sky),
        blend.spec_is_finite() ==> Path::Sky.spec_radiance(blend) == Some(Radiance::Gradient),
{
}

/// A finished pixel: three quantised channels.
#[derive(Clone, Copy, Debug, PartialEq, Eq, Structural)]
pub struct Rgb {
    pub r: u8,
    pub g: u8,
    pub b: u8,
}

/// Why a render is refused before any buffer exists.
#[derive(Clone, Copy, Debug, PartialEq, Eq, Structural)]
pub enum ConfigError {
    /// The image has no columns.
    ZeroWidth,
    /// The image has no rows.
    ZeroHeight,
    /// No sample would be taken per pixel.
    ZeroSamples,
    /// Four bytes per pixel do not fit in the address space.
    TooLarge,
    /// The pixels handed in are not one per image position.
    PixelCount,
}

impl ConfigError {
    /// The error in words, as a sequence of characters.
    pub open spec fn spec_describe(&self) -> Seq<char> {
        match self {
            ConfigError::ZeroWidth => "image width must be positive"@,
            ConfigError::ZeroHeight => "image height must be positive"@,
            ConfigError::ZeroSamples => "samples per pixel must be positive"@,
            ConfigError::TooLarge => "image does not fit in memory"@,
            ConfigError::PixelCount => "pixel count must be width times height"@,
        }
    }

    /// The error in words.
    pub fn describe(&self) -> (text: &'static str)
        ensures
            text@ == self.spec_describe(),
    {
        match self {
            ConfigError::ZeroWidth => "image width must be positive",
            ConfigError::ZeroHeight => "image height must be positive",
            ConfigError::ZeroSamples => "samples per pixel must be positive",
            ConfigError::TooLarge => "image does not fit in memory",
            ConfigError::PixelCount => "pixel count must be width times height",
        }
    }
}

/// What a render is asked for.
#[derive(Clone, Copy, Debug)]
pub struct Settings {
    /// Columns of the image.
    pub width: usize,
    /// Rows of the image.
    pub height: usize,
    /// Samples averaged into each pixel.
    pub samples: u32,
    /// Bounces a path may take before it is cut off.
    pub max_depth: u32,
}

impl Settings {
    /// The number of pixels of the image.
    pub open spec fn pixel_count(&self) -> int {
        self.width * self.height
    }

    /// The first thing wrong with the settings, if anything is.
    pub open spec fn defect(&self) -> Option<ConfigError> {
        if self.width == 0 {
            Some(ConfigError::ZeroWidth)
        } else if self.height == 0 {
            Some(ConfigError::ZeroHeight)
        } else if self.samples == 0 {
            Some(ConfigError::ZeroSamples)
        } else if 4 * self.pixel_count() > usize::MAX {
            Some(ConfigError::TooLarge)
        } else {
            None
        }
    }

    /// Where the four bytes of the pixel in column `x` of row `y` start.
    pub open spec fn spec_offset(&self, x: int, y: int) -> int {
        4 * (y * self.width + x)
    }

    /// The seed of the random stream of the pixel in column `x` of row
    /// `y`: the render's seed plus the pixel's place in the image, counted
    /// row by row, wrapping round at 64 bits.
    pub open spec fn spec_pixel_seed(&self, seed: u64, x: int, y: int) -> int {
        (seed + y * self.width + x) % 0x1_0000_0000_0000_0000
    }

    /// Accepts the settings and gives the number of pixels, or names the
    /// first defect.
    pub fn check(&self) -> (res: Result<usize, ConfigError>)
        ensures
            match res {
                Ok(count) => self.defect() is None && count == self.pixel_count(),
                Err(e) => self.defect() == Some(e),
            },
    {
        if self.width == 0 {
            return Err(ConfigError::ZeroWidth);
        }
        if self.height == 0 {
            return Err(ConfigError::ZeroHeight);
        }
        if self.samples == 0 {
            return Err(ConfigError::ZeroSamples);
        }
        match self.width.checked_mul(self.height) {
            None => Err(ConfigError::TooLarge),
            Some(count) => match count.checked_mul(4) {
                None => Err(ConfigError::TooLarge),
                Some(_) => Ok(count),
            },
        }
    }

    /// The offset in the buffer of the pixel in column `x` of row `y`:
    /// rows follow one another, four bytes to the pixel.
    pub fn offset(&self, x: usize, y: usize) -> (at: usize)
        requires
            self.defect() is None,
            x < self.width,
            y < self.height,
        ensures
            at == self.spec_offset(x as int, y as int),
            at + 4 <= 4 * self.pixel_count(),
    {
        proof {
            lemma_row_major_in_bounds(self.width as int, self.height as int, x as int, y as int);
        }
        4 * (y * self.width + x)
    }

    /// The seed of the random stream of the pixel in column `x` of row
    /// `y`. It depends on the render's seed and the pixel's place alone,
    /// so a pixel draws the same stream whichever worker renders it and
    /// whenever.
    pub fn pixel_seed(&self, seed: u64, x: usize, y: usize) -> (pixel_seed: u64)
        requires
            self.defect() is None,
            x < self.width,
            y < self.height,
        ensures
            pixel_seed == self.spec_pixel_seed(seed, x as int, y as int),
    {
        proof {
            lemma_row_major_in_bounds(self.width as int, self.height as int, x as int, y as int);
        }
        let index: usize = y * self.width + x;
        seed.wrapping_add(index as u64)
    }
}

/// The pixels of an image draw from different streams: two different
/// positions of one image never get the same seed.
pub proof fn lemma_pixel_seeds_differ(
    settings: Settings,
    seed: u64,
    x1: int,
    y1: int,
    x2: int,
    y2: int,
)
    requires
        settings.defect() is None,
        0 <= x1 < settings.width,
        0 <= y1 < settings.height,
        0 <= x2 < settings.width,
        0 <= y2 < settings.height,
        x1 != x2 || y1 != y2,
    ensures
        settings.spec_pixel_seed(seed, x1, y1) != settings.spec_pixel_seed(seed, x2, y2),
{
    let width = settings.width as int;
    lemma_row_major_in_bounds(width, settings.height as int, x1, y1);
    lemma_row_major_in_bounds(width, settings.height as int, x2, y2);
    if y1 < y2 {
        assert((y1 + 1) * width <= y2 * width) by (nonlinear_arith)
            requires
                y1 + 1 <= y2,
                width >= 0,
        ;
        assert((y1 + 1) * width == y1 * width + width) by (nonlinear_arith);
    } else if y2 < y1 {
        assert((y2 + 1) * width <= y1 * width) by (nonlinear_arith)
            requires
                y2 + 1 <= y1,
                width >= 0,
        ;
        assert((y2 + 1) * width == y2 * width + width) by (nonlinear_arith);
    }
    assert(y1 * width + x1 != y2 * width + x2);
}

/// In a grid of `width` by `height`, position `(x, y)` has a row-major
/// index below `width * height`.
pub proof fn lemma_row_major_in_bounds(width: int, height: int, x: int, y: int)
    requires
        0 <= x < width,
        0 <= y < height,
    ensures
        0 <= y * width <= y * width + x < width * height,
{
    assert(y * width >= 0) by (nonlinear_arith)
        requires
            y >= 0,
            width >= 0,
    ;
    assert((y + 1) * width <= height * width) by (nonlinear_arith)
        requires
            0 <= y + 1 <= height,
            width >= 0,
    ;
    assert((y + 1) * width == y * width + width) by (nonlinear_arith);
    assert(height * width == width * height) by (nonlinear_arith);
}

/// Byte `c` of a pixel in the buffer: blue, green, red, then an alpha
/// that is always 255. This is the order of a 32-bit TGA pixel.
pub open spec fn channel(pixel: Rgb, c: int) -> u8 {
    if c == 0 {
        pixel.b
    } else if c == 1 {
        pixel.g
    } else if c == 2 {
        pixel.r
    } else {
        255u8
    }
}

/// The buffer of a sequence of pixels: four bytes each, in order.
pub open spec fn bgra_bytes(pixels: Seq<Rgb>) -> Seq<u8> {
    Seq::new(4 * pixels.len(), |i: int| channel(pixels[i / 4], i % 4))
}

/// Lays the finished pixels of an image out as its buffer: four bytes to
/// the pixel, blue, green, red and an alpha of 255.
///
/// `pixels` holds the image row by row, and the rows stay in the order in
/// which they are handed in. The settings are checked first, and no
/// buffer is returned for settings that are refused or for a pixel count
/// that is not `width * height`.
pub fn image(settings: &Settings, pixels: &Vec<Rgb>) -> (res: Result<Vec<u8>, ConfigError>)
    ensures
        match res {
            Ok(buffer) => {
                &&& settings.defect() is None
                &&& pixels@.len() == settings.pixel_count()
                &&& buffer@ == bgra_bytes(pixels@)
                &&& buffer@.len() == 4 * settings.pixel_count()
            },
            Err(e) => match settings.defect() {
                Some(defect) => e == defect,
                None => e == ConfigError::PixelCount && pixels@.len() != settings.pixel_count(),
            },
        },
{
    let count: usize = match settings.check() {
        Ok(count) => count,
        Err(e) => {
            return Err(e);
        },
    };
    if pixels.len() != count {
        return Err(ConfigError::PixelCount);
    }
    let mut buffer: Vec<u8> = Vec::new();
    let mut i: usize = 0;
    while i < count
        invariant
            i <= count,
            count == pixels@.len(),
            buffer@.len() == 4 * i,
            forall|k: int| 0 <= k < 4 * i ==> buffer@[k] == channel(pixels@[k / 4], k % 4),
        decreases count - i,
    {
        let pixel: Rgb = pixels[i];
        buffer.push(pixel.b);
        buffer.push(pixel.g);
        buffer.push(pixel.r);
        buffer.push(255);
        i += 1;
    }
    assert(buffer@ =~= bgra_bytes(pixels@));
    Ok(buffer)
}

/// The pixel in column `x` of row `y` stands at its offset in the buffer,
/// channel by channel.
pub proof fn lemma_pixel_at(settings: Settings, pixels: Seq<Rgb>, x: int, y: int, c: int)
    requires
        pixels.len() == settings.pixel_count(),
        0 <= x < settings.width,
        0 <= y < settings.height,
        0 <= c < 4,
    ensures
        0 <= settings.spec_offset(x, y) + c < bgra_bytes(pixels).len(),
        bgra_bytes(pixels)[settings.spec_offset(x, y) + c] == channel(
            pixels[y * settings.width + x],
            c,
        ),
{
    lemma_row_major_in_bounds(settings.width as int, settings.height as int, x, y);
}

/// The eighteen bytes that open an uncompressed true-colour TGA file:
/// no image ID, no colour map, image type 2, an unused colour-map block,
/// the origin at zero, then width and height as 16-bit little-endian
/// numbers (higher bits are dropped), 32 bits per pixel, descriptor 0.
pub open spec fn tga_header(dimensions: (usize, usize)) -> Seq<u8> {
    seq![
        0u8,
        0u8,
        2u8,
        0u8,
        0u8,
        0u8,
        0u8,
        0u8,
        0u8,
        0u8,
        0u8,
        0u8,
        (dimensions.0 % 256) as u8,
        (dimensions.0 / 256 % 256) as u8,
        (dimensions.1 % 256) as u8,
        (dimensions.1 / 256 % 256) as u8,
        32u8,
        0u8,
    ]
}

/// The bytes of a TGA file that holds a pixel buffer: the header, then the
/// buffer as it is.
///
/// The buffer is taken to hold blue, green, red and alpha for each pixel,
/// as `image` lays it out. With descriptor 0 the first row of the buffer
/// is the bottom row of the picture. The dimensions are written as they
/// are given: they are not held against the length of the buffer.
pub fn write_to_tga(dimensions: (usize, usize), buffer: &Vec<u8>) -> (file: Vec<u8>)
    ensures
        file@ == tga_header(dimensions) + buffer@,
{
    let mut file: Vec<u8> = Vec::new();
    let mut k: usize = 0;
    while k < 12
        invariant
            k <= 12,
            file@.len() == k,
            forall|j: int| 0 <= j < k ==> file@[j] == tga_header(dimensions)[j],
        decreases 12 - k,
    {
        file.push(if k == 2 { 2 } else { 0 });
        k += 1;
    }
    file.push((dimensions.0 % 256) as u8);
    file.push((dimensions.0 / 256 % 256) as u8);
    file.push((dimensions.1 % 256) as u8);
    file.push((dimensions.1 / 256 % 256) as u8);
    file.push(32);
    file.push(0);
    assert(file@ =~= tga_header(dimensions));

    let len: usize = buffer.len();
    let mut i: usize = 0;
    while i < len
        invariant
            i <= len == buffer@.len(),
            file@ == tga_header(dimensions) + buffer@.take(i as int),
        decreases len - i,
    {
        file.push(buffer[i]);
        assert(buffer@.take(i + 1) =~= buffer@.take(i as int).push(buffer@[i as int]));
        assert(file@ =~= tga_header(dimensions) + buffer@.take(i + 1));
        i += 1;
    }
    assert(buffer@.take(len as int) =~= buffer@);
    file
}

} // verus!
