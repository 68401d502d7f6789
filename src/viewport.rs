//! Pixel size and redraw bookkeeping of the viewport.
use vstd::prelude::*;

verus! {

/// A window side as stored by the viewport: a zero side is raised to one
/// pixel, so that no later division by a side can divide by zero.
pub open spec fn at_least_one(v: u32) -> u32 {
    if v == 0 {
        1
    } else {
        v
    }
}

/// Size of the drawing surface in pixels.
#[derive(Clone, Copy, Debug, PartialEq, Eq, Structural)]
pub struct PixelSize {
    pub width: u32,
    pub height: u32,
}

impl PixelSize {
    /// Both sides are at least one pixel.
    pub open spec fn wf(&self) -> bool {
        self.width >= 1 && self.height >= 1
    }

    /// The size of a window whose inner size is `width` by `height`, with a
    /// zero side raised to one pixel.
    pub fn clamped(width: u32, height: u32) -> (r: PixelSize)
        ensures
            r.width == at_least_one(width),
            r.height == at_least_one(height),
            r.wf(),
    {
        let w: u32 = if width == 0 { 1 } else { width };
        let h: u32 = if height == 0 { 1 } else { height };
        PixelSize { width: w, height: h }
    }
}

/// A positive fraction `num / den` of two pixel counts.
#[derive(Clone, Copy, Debug, PartialEq, Eq, Structural)]
pub struct Ratio {
    pub num: u32,
    pub den: u32,
}

/// The divisors of the two half-extents of the visible rectangle: at zoom
/// `z`, half of the real extent is `scale / 2 / (x.num / x.den) / z`, and
/// likewise for the imaginary extent with `y`.
#[derive(Clone, Copy, Debug, PartialEq, Eq, Structural)]
pub struct Aspect {
    pub x: Ratio,
    pub y: Ratio,
}

/// A side with ratio `num / den` spans `den / num` times `scale / zoom`. The
/// pixels are square when the real span over the imaginary span equals the
/// width over the height; this is that equation with the fractions cleared.
pub open spec fn square_pixels(a: Aspect, width: int, height: int) -> bool {
    a.x.den * a.y.num * height == a.y.den * a.x.num * width
}

/// The divisors of the half-extents for a viewport of `width` by `height`:
/// one for the longer side, `long / short` for the other.
pub open spec fn aspect_of(width: u32, height: u32) -> Aspect {
    if width > height {
        Aspect { x: Ratio { num: 1, den: 1 }, y: Ratio { num: width, den: height } }
    } else {
        Aspect { x: Ratio { num: height, den: width }, y: Ratio { num: 1, den: 1 } }
    }
}

/// For every size, the visible rectangle has the shape of the window: the
/// real extent over the imaginary extent is the width over the height, the
/// longer side spans `scale / zoom` (its ratio is one), and the shorter side
/// spans `scale / zoom` times `short / long` (its ratio is `long / short`).
/// Every ratio is positive, so for a positive scale and zoom both spans are
/// positive and the rectangle is never flat.
pub proof fn lemma_aspect_keeps_pixels_square(width: u32, height: u32)
    requires
        width >= 1,
        height >= 1,
    ensures
        square_pixels(aspect_of(width, height), width as int, height as int),
        aspect_of(width, height).x.num >= 1 && aspect_of(width, height).x.den >= 1,
        aspect_of(width, height).y.num >= 1 && aspect_of(width, height).y.den >= 1,
        width >= height ==> aspect_of(width, height).x.num == aspect_of(width, height).x.den,
        width > height ==> aspect_of(width, height).y.num == width
            && aspect_of(width, height).y.den == height,
        height >= width ==> aspect_of(width, height).y.num == aspect_of(width, height).y.den,
        height >= width ==> aspect_of(width, height).x.num == height
            && aspect_of(width, height).x.den == width,
{
    let w = width as int;
    let h = height as int;
    let a = aspect_of(width, height);
    if width > height {
        assert(1 * w * h == h * 1 * w) by (nonlinear_arith);
    } else {
        assert(w * 1 * h == 1 * h * w) by (nonlinear_arith);
    }
    assert(a.x.den * a.y.num * h == a.y.den * a.x.num * w);
}

/// When the window is square, each side spans exactly `scale / zoom`: both
/// ratios are one.
pub proof fn lemma_square_window_spans_scale(width: u32, height: u32)
    requires
        width >= 1,
        width == height,
    ensures
        aspect_of(width, height).x.num == aspect_of(width, height).x.den,
        aspect_of(width, height).y.num == aspect_of(width, height).y.den,
{
}

impl PixelSize {
    /// The divisors of the half-extents for this size. The longer side (both,
    /// when the two are equal) gets the ratio one, so it spans exactly
    /// `scale / zoom`; the other gets `long / short`, so the pixels come out
    /// square.
    pub fn aspect(&self) -> (r: Aspect)
        requires
            self.wf(),
        ensures
            r == aspect_of(self.width, self.height),
            r.x.num >= 1 && r.x.den >= 1 && r.y.num >= 1 && r.y.den >= 1,
            square_pixels(r, self.width as int, self.height as int),
    {
        proof {
            lemma_aspect_keeps_pixels_square(self.width, self.height);
        }
        let one = Ratio { num: 1, den: 1 };
        if self.width > self.height {
            Aspect { x: one, y: Ratio { num: self.width, den: self.height } }
        } else {
            Aspect { x: Ratio { num: self.height, den: self.width }, y: one }
        }
    }
}

/// What a viewport holds, as seen by contracts.
pub struct ViewportModel {
    pub width: int,
    pub height: int,
    /// Something changed since the last upload of the camera to the GPU.
    pub pending: bool,
}

/// The model after a change of any camera field: the flag is raised.
pub open spec fn marked(m: ViewportModel) -> ViewportModel {
    ViewportModel { pending: true, ..m }
}

/// The model after the upload step has taken the flag.
pub open spec fn cleared(m: ViewportModel) -> ViewportModel {
    ViewportModel { pending: false, ..m }
}

/// The model `m` after a resize to a window of `width` by `height`: the new
/// size replaces the old one and the flag is raised.
pub open spec fn resized(m: ViewportModel, width: u32, height: u32) -> ViewportModel {
    ViewportModel {
        width: at_least_one(width) as int,
        height: at_least_one(height) as int,
        pending: true,
    }
}

/// The integer side of the camera: its size in pixels and whether it must be
/// uploaded again.
///
/// Every mutation of the camera raises the redraw flag; only the upload step
/// lowers it.
#[derive(Debug)]
pub struct Viewport {
    size: PixelSize,
    redraw: bool,
}

impl View for Viewport {
    type V = ViewportModel;

    closed spec fn view(&self) -> ViewportModel {
        ViewportModel {
            width: self.size.width as int,
            height: self.size.height as int,
            pending: self.redraw,
        }
    }
}

impl Viewport {
    /// Every viewport keeps both sides at least one pixel.
    #[verifier::type_invariant]
    spec fn inv(&self) -> bool {
        self.size.wf()
    }

    /// Both sides are at least one pixel.
    pub open spec fn wf(&self) -> bool {
        self@.width >= 1 && self@.height >= 1
    }

    /// A viewport for a window of `width` by `height`; a fresh camera has
    /// never been uploaded, so its flag is raised.
    pub fn new(width: u32, height: u32) -> (r: Viewport)
        ensures
            r@.width == at_least_one(width) as int,
            r@.height == at_least_one(height) as int,
            r@.pending,
            r.wf(),
    {
        Viewport { size: PixelSize::clamped(width, height), redraw: true }
    }

    /// Width in pixels.
    pub fn width(&self) -> (r: u32)
        ensures
            r as int == self@.width,
            r >= 1,
    {
        proof {
            use_type_invariant(self);
        }
        self.size.width
    }

    /// Height in pixels.
    pub fn height(&self) -> (r: u32)
        ensures
            r as int == self@.height,
            r >= 1,
    {
        proof {
            use_type_invariant(self);
        }
        self.size.height
    }

    /// Size in pixels.
    pub fn size(&self) -> (r: PixelSize)
        ensures
            r.width as int == self@.width,
            r.height as int == self@.height,
            r.wf(),
            self.wf(),
    {
        proof {
            use_type_invariant(self);
        }
        self.size
    }

    /// Whether the camera changed since its last upload.
    pub fn needs_redraw(&self) -> (r: bool)
        ensures
            r == self@.pending,
    {
        self.redraw
    }

    /// The redraw flag as the 4-byte word of the uniform block: 1 when
    /// raised, 0 when not.
    pub fn redraw_word(&self) -> (r: u32)
        ensures
            r == (if self@.pending { 1u32 } else { 0u32 }),
    {
        if self.redraw { 1 } else { 0 }
    }

    /// Takes new window dimensions, raising a zero side to one pixel, and
    /// raises the flag, also when the size did not change.
    pub fn resize(&mut self, width: u32, height: u32)
        ensures
            final(self)@ == resized(old(self)@, width, height),
            final(self).wf(),
    {
        self.size = PixelSize::clamped(width, height);
        self.redraw = true;
    }

    /// Records that a camera field other than the size changed.
    pub fn mark_changed(&mut self)
        ensures
            final(self)@ == marked(old(self)@),
    {
        proof {
            use_type_invariant(&*self);
        }
        self.redraw = true;
    }

    /// The upload step: reports whether the camera must be written to the
    /// GPU, and lowers the flag.
    pub fn take_redraw(&mut self) -> (r: bool)
        ensures
            r == old(self)@.pending,
            final(self)@ == cleared(old(self)@),
    {
        proof {
            use_type_invariant(&*self);
        }
        let r = self.redraw;
        self.redraw = false;
        r
    }
}

/// Resizing twice to the same dimensions gives the same viewport as resizing
/// once, and each of the two calls leaves the redraw flag raised: the flag
/// does not tell a resize that changed nothing from one that did.
pub proof fn lemma_resize_twice(m: ViewportModel, width: u32, height: u32)
    ensures
        resized(resized(m, width, height), width, height) == resized(m, width, height),
        resized(m, width, height).pending,
        resized(resized(m, width, height), width, height).pending,
{
}

/// Every change raises the redraw flag, the upload step lowers it, and a
/// second upload step with no change in between finds nothing to upload.
pub proof fn lemma_redraw_discipline(m: ViewportModel, width: u32, height: u32)
    ensures
        marked(m).pending,
        resized(m, width, height).pending,
        !cleared(m).pending,
        !cleared(cleared(m)).pending,
        cleared(cleared(m)) == cleared(m),
        cleared(marked(m)) == cleared(m),
{
}

} // verus!
