//! The exact map from pixels to the plane.
//!
//! Plane coordinates are whole numbers of a unit that the caller chooses
//! (a fine one, so that centres and widths of interest are whole). The map
//! divides the plane's width by the pixel width, which leaves the grid of
//! units; a mapped point is therefore a pair of fractions of the unit, with
//! one denominator for the whole viewport. No rounding takes place.

use vstd::prelude::*;

verus! {

/// A point on the grid of plane units.
#[derive(Clone, Copy, Debug, PartialEq, Eq)]
pub struct Point {
    pub x: i64,
    pub y: i64,
}

/// The extent of a drawing surface, in pixels.
#[derive(Clone, Copy, Debug, PartialEq, Eq)]
pub struct ScreenSize {
    pub width: u32,
    pub height: u32,
}

impl ScreenSize {
    /// A surface can be drawn to when neither side is zero.
    pub open spec fn spec_has_area(&self) -> bool {
        self.width > 0 && self.height > 0
    }

    /// Whether the surface has any pixel at all.
    #[verifier::when_used_as_spec(spec_has_area)]
    pub fn has_area(&self) -> (yes: bool)
        ensures
            yes == self.spec_has_area(),
    {
        self.width > 0 && self.height > 0
    }
}

/// A point of the plane: the coordinates are `x / denominator` and
/// `y / denominator` plane units.
#[derive(Clone, Copy, Debug, PartialEq, Eq)]
pub struct PlanePoint {
    pub x: i128,
    pub y: i128,
    pub denominator: u64,
}

/// The mathematical viewport: a rectangle of pixels laid over the plane,
/// centred on `(center_x, center_y)` and `plane_width` units wide. Pixels
/// are square, so the height on the plane follows from the pixel extent.
///
/// The derived quantities below are fractions of the unit; each is given as
/// its numerator over [`Viewport::denominator`].
pub struct Viewport {
    pub pixel_width: nat,
    pub pixel_height: nat,
    pub center_x: int,
    pub center_y: int,
    pub plane_width: nat,
}

impl Viewport {
    /// A viewport has at least one pixel in each direction.
    pub open spec fn valid(self) -> bool {
        self.pixel_width > 0 && self.pixel_height > 0
    }

    /// The denominator shared by all derived quantities and mapped points.
    pub open spec fn denominator(self) -> int {
        2 * (self.pixel_width as int)
    }

    /// The step from one pixel to the next, the same along both axes:
    /// `plane_width / pixel_width`.
    pub open spec fn increment(self) -> int {
        2 * (self.plane_width as int)
    }

    /// The height of the visible region:
    /// `plane_width * pixel_height / pixel_width`.
    pub open spec fn plane_height(self) -> int {
        2 * (self.plane_width as int) * (self.pixel_height as int)
    }

    /// The horizontal coordinate of pixel column 0: `center_x - plane_width / 2`.
    pub open spec fn origin_x(self) -> int {
        self.denominator() * self.center_x - self.pixel_width * self.plane_width
    }

    /// The vertical coordinate of pixel row 0: `center_y - plane_height / 2`.
    pub open spec fn origin_y(self) -> int {
        self.denominator() * self.center_y - self.pixel_height * self.plane_width
    }

    /// The horizontal coordinate of pixel column `px`. Columns outside the
    /// surface continue the same line.
    pub open spec fn plane_x(self, px: int) -> int {
        self.origin_x() + px * self.increment()
    }

    /// The vertical coordinate of pixel row `py`. Rows outside the surface
    /// continue the same line.
    pub open spec fn plane_y(self, py: int) -> int {
        self.origin_y() + py * self.increment()
    }
}

/// A viewport ready for mapping: the surface, the centre, the width on the
/// plane, and the origin and increment worked out once from them.
pub struct FractalPlot {
    center: Point,
    size: ScreenSize,
    width: u64,
    init_x: i128,
    init_y: i128,
    inc: i128,
}

impl View for FractalPlot {
    type V = Viewport;

    closed spec fn view(&self) -> Viewport {
        Viewport {
            pixel_width: self.size.width as nat,
            pixel_height: self.size.height as nat,
            center_x: self.center.x as int,
            center_y: self.center.y as int,
            plane_width: self.width as nat,
        }
    }
}

impl FractalPlot {
    #[verifier::type_invariant]
    spec fn consistent(self) -> bool {
        &&& self@.valid()
        &&& self.init_x == self@.origin_x()
        &&& self.init_y == self@.origin_y()
        &&& self.inc == self@.increment()
    }

    /// Lays a surface of `screen_size` pixels over the plane, centred on
    /// `center` and `width` units wide.
    pub fn new(center: Point, screen_size: ScreenSize, width: u64) -> (plot: Self)
        requires
            screen_size.has_area(),
        ensures
            plot@ == (Viewport {
                pixel_width: screen_size.width as nat,
                pixel_height: screen_size.height as nat,
                center_x: center.x as int,
                center_y: center.y as int,
                plane_width: width as nat,
            }),
            plot@.valid(),
    {
        let columns: i128 = screen_size.width as i128;
        let rows: i128 = screen_size.height as i128;
        let span: i128 = width as i128;
        proof {
            lemma_magnitudes(
                Viewport {
                    pixel_width: screen_size.width as nat,
                    pixel_height: screen_size.height as nat,
                    center_x: center.x as int,
                    center_y: center.y as int,
                    plane_width: width as nat,
                },
            );
        }
        let init_x: i128 = 2 * columns * (center.x as i128) - columns * span;
        let init_y: i128 = 2 * columns * (center.y as i128) - rows * span;
        let inc: i128 = 2 * span;
        FractalPlot { center, size: screen_size, width, init_x, init_y, inc }
    }

    /// The centre of the view.
    pub fn center(&self) -> (center: Point)
        ensures
            center.x == self@.center_x,
            center.y == self@.center_y,
    {
        self.center
    }

    /// The extent of the surface; it always has area.
    pub fn screen_size(&self) -> (size: ScreenSize)
        ensures
            size.width == self@.pixel_width,
            size.height == self@.pixel_height,
            size.has_area(),
    {
        proof {
            use_type_invariant(self);
        }
        self.size
    }

    /// The width of the visible region, in plane units.
    pub fn width(&self) -> (width: u64)
        ensures
            width == self@.plane_width,
    {
        self.width
    }

    /// Maps a pixel to its point of the plane. Coordinates outside the
    /// surface are mapped as well, along the same lines.
    #[allow(non_snake_case)]
    pub fn getPoint(&self, screen_coordinate: (i16, i16)) -> (point: PlanePoint)
        ensures
            point.denominator == self@.denominator(),
            point.x == self@.plane_x(screen_coordinate.0 as int),
            point.y == self@.plane_y(screen_coordinate.1 as int),
    {
        proof {
            use_type_invariant(self);
            lemma_magnitudes(self@);
            lemma_product_bound(screen_coordinate.0 as int, self.inc as int, 0x8000, max_increment());
            lemma_product_bound(screen_coordinate.1 as int, self.inc as int, 0x8000, max_increment());
        }
        PlanePoint {
            x: self.init_x + (screen_coordinate.0 as i128) * self.inc,
            y: self.init_y + (screen_coordinate.1 as i128) * self.inc,
            denominator: 2 * (self.size.width as u64),
        }
    }
}

/// The derived quantities are the fractions that they are named after. With
/// `d` for the denominator: the increment over `d` is the plane's width
/// divided by the pixel width; the plane's height over `d` is its width
/// times the pixel height divided by the pixel width; and the origin over
/// `d` is the centre less half the plane's width and half its height.
pub proof fn lemma_derived_quantities(v: Viewport)
    requires
        v.valid(),
    ensures
        v.denominator() > 0,
        v.increment() * v.pixel_width == v.plane_width * v.denominator(),
        v.plane_height() * v.pixel_width == v.plane_width * v.pixel_height * v.denominator(),
        2 * v.origin_x() == v.denominator() * (2 * v.center_x - v.plane_width),
        2 * v.origin_y() == 2 * v.denominator() * v.center_y - v.plane_height(),
{
    let d = v.denominator();
    let w = v.pixel_width as int;
    let h = v.pixel_height as int;
    let p = v.plane_width as int;
    assert((2 * p) * w == p * (2 * w)) by (nonlinear_arith);
    assert((2 * p * h) * w == p * h * (2 * w)) by (nonlinear_arith);
    assert(2 * (d * v.center_x - w * p) == d * (2 * v.center_x - p)) by (nonlinear_arith)
        requires
            d == 2 * w,
    ;
    assert(2 * (d * v.center_y - h * p) == 2 * d * v.center_y - 2 * p * h) by (nonlinear_arith);
}

/// The first pixel, `(0, 0)`, lies at the origin: at the centre less half
/// the plane's width horizontally, and less half the plane's height, which
/// is `plane_width * pixel_height / pixel_width`, vertically.
pub proof fn lemma_first_pixel_is_origin(v: Viewport)
    requires
        v.valid(),
    ensures
        v.plane_x(0) == v.origin_x(),
        v.plane_y(0) == v.origin_y(),
        2 * v.plane_x(0) == v.denominator() * (2 * v.center_x - v.plane_width),
        2 * v.pixel_width * v.plane_y(0) == v.denominator() * (2 * v.pixel_width * v.center_y
            - v.plane_width * v.pixel_height),
{
    lemma_derived_quantities(v);
    let d = v.denominator();
    let w = v.pixel_width as int;
    let h = v.pixel_height as int;
    let p = v.plane_width as int;
    let cy = v.center_y;
    assert(2 * w * (d * cy - h * p) == d * (2 * w * cy - p * h)) by (nonlinear_arith)
        requires
            d == 2 * w,
    ;
}

/// The map never folds: along each axis a later pixel is mapped no earlier
/// on the plane, and strictly later when the plane has positive width. The
/// horizontal coordinate depends on the column alone and the vertical one
/// on the row alone.
pub proof fn lemma_map_is_monotone(v: Viewport, earlier: int, later: int)
    requires
        v.valid(),
        earlier < later,
    ensures
        v.plane_x(earlier) <= v.plane_x(later),
        v.plane_y(earlier) <= v.plane_y(later),
        v.plane_width > 0 ==> v.plane_x(earlier) < v.plane_x(later),
        v.plane_width > 0 ==> v.plane_y(earlier) < v.plane_y(later),
{
    let step = v.increment();
    assert(earlier * step <= later * step) by (nonlinear_arith)
        requires
            earlier < later,
            step >= 0,
    ;
    if v.plane_width > 0 {
        assert(earlier * step < later * step) by (nonlinear_arith)
            requires
                earlier < later,
                step > 0,
        ;
    }
}

/// Neighbouring pixels are one increment apart, along either axis and
/// anywhere on the plane.
pub proof fn lemma_even_spacing(v: Viewport, pixel: int)
    requires
        v.valid(),
    ensures
        v.plane_x(pixel + 1) - v.plane_x(pixel) == v.increment(),
        v.plane_y(pixel + 1) - v.plane_y(pixel) == v.increment(),
{
    let step = v.increment();
    assert((pixel + 1) * step == pixel * step + step) by (nonlinear_arith);
}

/// The centre is the middle of the mapped surface: the first pixel and the
/// corner past the last one lie at equal distances on either side of it.
pub proof fn lemma_center_is_midpoint(v: Viewport)
    requires
        v.valid(),
    ensures
        v.plane_x(0) + v.plane_x(v.pixel_width as int) == 2 * v.denominator() * v.center_x,
        v.plane_y(0) + v.plane_y(v.pixel_height as int) == 2 * v.denominator() * v.center_y,
{
    let w = v.pixel_width as int;
    let h = v.pixel_height as int;
    let p = v.plane_width as int;
    let d = v.denominator();
    assert(w * (2 * p) == 2 * (w * p)) by (nonlinear_arith);
    assert(h * (2 * p) == 2 * (h * p)) by (nonlinear_arith);
    assert(2 * (d * v.center_x) == 2 * d * v.center_x) by (nonlinear_arith);
    assert(2 * (d * v.center_y) == 2 * d * v.center_y) by (nonlinear_arith);
}

/// The largest increment of a plot: twice the largest width of the plane.
spec fn max_increment() -> int {
    0x2_0000_0000_0000_0000
}

/// The largest size of an origin coordinate of a plot.
spec fn max_origin() -> int {
    0x2_0000_0000_0000_0000_0000_0000
}

/// The quantities derived from the fields of a plot are far from the ends
/// of the 128-bit range, and so are the products on the way to them.
proof fn lemma_magnitudes(v: Viewport)
    requires
        v.pixel_width <= u32::MAX,
        v.pixel_height <= u32::MAX,
        i64::MIN <= v.center_x <= i64::MAX,
        i64::MIN <= v.center_y <= i64::MAX,
        v.plane_width <= u64::MAX,
    ensures
        0 <= v.increment() <= max_increment(),
        -max_origin() <= v.origin_x() <= max_origin(),
        -max_origin() <= v.origin_y() <= max_origin(),
        -max_origin() <= 2 * v.pixel_width * v.center_x <= max_origin(),
        -max_origin() <= 2 * v.pixel_width * v.center_y <= max_origin(),
        0 <= v.pixel_width * v.plane_width <= max_origin(),
        0 <= v.pixel_height * v.plane_width <= max_origin(),
{
    let d = v.denominator();
    lemma_product_bound(d, v.center_x, 0x2_0000_0000, 0x8000_0000_0000_0000);
    lemma_product_bound(d, v.center_y, 0x2_0000_0000, 0x8000_0000_0000_0000);
    lemma_product_bound(v.pixel_width as int, v.plane_width as int, 0x1_0000_0000, 0x1_0000_0000_0000_0000);
    lemma_product_bound(v.pixel_height as int, v.plane_width as int, 0x1_0000_0000, 0x1_0000_0000_0000_0000);
}

/// A product is no larger in size than the product of bounds on its
/// factors.
proof fn lemma_product_bound(a: int, b: int, bound_a: int, bound_b: int)
    requires
        -bound_a <= a <= bound_a,
        -bound_b <= b <= bound_b,
    ensures
        -(bound_a * bound_b) <= a * b <= bound_a * bound_b,
{
    assert(-(bound_a * bound_b) <= a * b <= bound_a * bound_b) by (nonlinear_arith)
        requires
            -bound_a <= a <= bound_a,
            -bound_b <= b <= bound_b,
    ;
}

} // verus!
