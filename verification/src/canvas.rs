//! The virtual canvas: a drawing surface of a declared size that is shown in
//! a window of any size, scaled by one factor in both directions and centred.
//!
//! [`Animation`] keeps the state of the canvas and decides; the caller owns
//! the surface and the window, tells the canvas how large the window is, and
//! carries out what the canvas answers.

use vstd::prelude::*;
use vstd::arithmetic::div_mod::lemma_div_is_ordered;
use vstd::arithmetic::div_mod::lemma_div_multiples_vanish;
use vstd::arithmetic::div_mod::lemma_div_pos_is_pos;
use crate::color::charcoal;
use crate::color::Color;
use crate::geometry::floor_div;
use crate::geometry::lemma_floor_div;
use crate::geometry::Vec2;
use crate::geometry::WorldPoint;

verus! {

/// The longest side that a window, or a canvas when it is made, may have.
pub const MAX_WINDOW_SIDE: u32 = 0xffff;

/// The longest side that a canvas ever has: it is doubled only while it is
/// no more than one and a half times as long as a window can be.
pub const MAX_SIDE: u32 = 196_605;

/// Where drawing calls currently go.
#[derive(Clone, Copy, Debug, PartialEq, Eq)]
pub enum RenderState {
    /// To the canvas: between `set_camera` and `set_default_camera`.
    CameraRendering,
    /// To the window.
    ScreenRendering,
}

/// How the surface is sampled when it is scaled.
#[derive(Clone, Copy, Debug, PartialEq, Eq)]
pub enum FilterMode {
    Linear,
    Nearest,
}

/// A scale factor, as the fraction `num / den`.
#[derive(Clone, Copy, Debug, PartialEq, Eq)]
pub struct Scale {
    pub num: u32,
    pub den: u32,
}

/// A surface that the caller is to allocate for the canvas.
#[derive(Clone, Copy, Debug, PartialEq, Eq)]
pub struct Surface {
    pub width: u32,
    pub height: u32,
    pub filter_mode: FilterMode,
}

/// What the caller does to direct drawing to the canvas: replace the surface
/// if one is named, make it the target, and clear it.
#[derive(Clone, Copy, Debug, PartialEq, Eq)]
pub struct Activation {
    pub surface: Option<Surface>,
    pub clear_color: Color,
}

/// What the caller does to show the canvas in the window: clear the window,
/// and draw the surface `width` by `height` large with its corner at
/// `(x, y)`, through the smoothing effect if a texture size is named.
#[derive(Clone, Copy, Debug, PartialEq, Eq)]
pub struct FrameBlit {
    pub effect_texture_size: Option<(u32, u32)>,
    pub clear_color: Color,
    pub x: u32,
    pub y: u32,
    pub width: u32,
    pub height: u32,
}

/// The largest factor by which a `width` by `height` canvas can be scaled and
/// still fit a window: the smaller of `window_width / width` and
/// `window_height / height`, as a fraction that is not reduced.
pub open spec fn scale_for(width: u32, height: u32, window_width: u16, window_height: u16) -> Scale {
    if window_width * height <= window_height * width {
        Scale { num: window_width as u32, den: width }
    } else {
        Scale { num: window_height as u32, den: height }
    }
}

impl Scale {
    /// `length` scaled, rounded down.
    pub open spec fn apply(self, length: int) -> int {
        length * self.num / (self.den as int)
    }

    /// The world coordinate that is shown at the window coordinate `at`
    /// along an axis on which the window is `window` long. The canvas is
    /// centred in the window and its world space has its origin in the
    /// middle, so this is the distance from the middle of the window, divided
    /// by the scale: `((at - (window - side * scale) / 2) / scale) - side / 2`
    /// for any length `side` of the canvas, computed exactly and rounded down.
    pub open spec fn unproject(self, at: int, window: int) -> int {
        floor_div((2 * at - window) * self.den, 2 * self.num)
    }

    /// The window coordinate at which the world coordinate `at` is shown: the
    /// middle of the window and `at * scale` beyond it, rounded down.
    pub open spec fn project(self, at: int, window: int) -> int {
        floor_div(window * self.den + 2 * at * self.num, 2 * self.den)
    }
}

/// The state of a canvas.
pub struct AnimationView {
    pub bg_color: Color,
    pub render_state: RenderState,
    pub draw_size: (u32, u32),
    pub filter_mode: FilterMode,
    pub fxaa: bool,
    pub width: u32,
    pub height: u32,
    pub scale: Scale,
    pub auto_resize: bool,
}

impl AnimationView {
    /// Whether both sides of the canvas are at least 1 and at most
    /// [`MAX_SIDE`], and so is the divisor of the scale, and the canvas was
    /// last shown no larger than a window can be.
    pub open spec fn valid(self) -> bool {
        &&& 0 < self.width <= MAX_SIDE
        &&& 0 < self.height <= MAX_SIDE
        &&& 0 < self.scale.den <= MAX_SIDE
        &&& self.draw_size.0 <= MAX_WINDOW_SIDE
        &&& self.draw_size.1 <= MAX_WINDOW_SIDE
    }

    /// The surface that the canvas is drawn on.
    pub open spec fn surface(self) -> Surface {
        Surface { width: self.width, height: self.height, filter_mode: self.filter_mode }
    }

    /// Whether the canvas has outgrown the size at which it was last shown:
    /// a side is more than one and a half times as long.
    pub open spec fn grows(self) -> bool {
        self.auto_resize && (2 * self.width > 3 * self.draw_size.0 || 2 * self.height > 3
            * self.draw_size.1)
    }

    /// Whether the canvas has fallen behind the size at which it was last
    /// shown: it has not outgrown it, and a side is at most half as long.
    pub open spec fn shrinks(self) -> bool {
        self.auto_resize && !self.grows() && (2 * self.width <= self.draw_size.0 || 2
            * self.height <= self.draw_size.1)
    }

    /// The size of the canvas after `set_camera`: halved if it has outgrown
    /// the size at which it was last shown, doubled if it has fallen behind
    /// it, and else as before. Half of an odd side is rounded up, so that no
    /// side vanishes.
    pub open spec fn resized(self) -> (int, int) {
        if self.grows() {
            ((self.width + 1) / 2, (self.height + 1) / 2)
        } else if self.shrinks() {
            (self.width * 2, self.height * 2)
        } else {
            (self.width as int, self.height as int)
        }
    }

    /// The state after `set_camera`.
    pub open spec fn activated(self) -> AnimationView {
        AnimationView {
            width: self.resized().0 as u32,
            height: self.resized().1 as u32,
            render_state: RenderState::CameraRendering,
            ..self
        }
    }

    /// What `set_camera` answers: the new surface if the canvas is resized,
    /// and the colour to clear it to.
    pub open spec fn activation(self) -> Activation {
        Activation {
            surface: if self.grows() || self.shrinks() {
                Some(self.activated().surface())
            } else {
                None
            },
            clear_color: self.bg_color,
        }
    }

    /// The state after `set_default_camera`.
    pub open spec fn deactivated(self) -> AnimationView {
        AnimationView { render_state: RenderState::ScreenRendering, ..self }
    }

    /// Whether the canvas may be shown: drawing must have been directed back
    /// to the window.
    pub open spec fn can_draw_frame(self) -> bool {
        self.render_state is ScreenRendering
    }

    /// The size at which the canvas is shown in a window of the given size.
    pub open spec fn blit_size(self, window_width: u16, window_height: u16) -> (int, int) {
        let scale = scale_for(self.width, self.height, window_width, window_height);
        (scale.apply(self.width as int), scale.apply(self.height as int))
    }

    /// The state after `draw_frame` in a window of the given size.
    pub open spec fn shown(self, window_width: u16, window_height: u16) -> AnimationView {
        AnimationView {
            scale: scale_for(self.width, self.height, window_width, window_height),
            draw_size: (
                self.blit_size(window_width, window_height).0 as u32,
                self.blit_size(window_width, window_height).1 as u32,
            ),
            ..self
        }
    }

    /// What `draw_frame` answers in a window of the given size: the canvas
    /// scaled to [`AnimationView::blit_size`] and centred, the bars on either
    /// side being half of what the window has left over, rounded down.
    pub open spec fn frame(self, window_width: u16, window_height: u16) -> FrameBlit {
        let size = self.blit_size(window_width, window_height);
        FrameBlit {
            effect_texture_size: if self.fxaa {
                Some(self.draw_size)
            } else {
                None
            },
            clear_color: self.bg_color,
            x: ((window_width - size.0) / 2) as u32,
            y: ((window_height - size.1) / 2) as u32,
            width: size.0 as u32,
            height: size.1 as u32,
        }
    }

    /// The window position at which the world position `p` is shown: the
    /// middle of the window stands for the origin, and the y axis is flipped.
    pub open spec fn project(self, p: WorldPoint, window_width: u16, window_height: u16) -> (
        int,
        int,
    ) {
        (
            self.scale.project(p.x as int, window_width as int),
            self.scale.project(-p.y, window_height as int),
        )
    }

    /// The world position that is shown at the window position `point`. The
    /// y axis of the world points up, that of the window down.
    pub open spec fn unproject(self, point: Vec2, window_width: u16, window_height: u16)
        -> WorldPoint {
        WorldPoint::at(
            self.scale.unproject(point.x as int, window_width as int),
            self.scale.unproject(-point.y, -window_height),
        )
    }
}

/// A canvas that fits the window is shown no larger than the window, and
/// fills it in one direction.
pub proof fn lemma_blit_fits_window(width: u32, height: u32, window_width: u16, window_height: u16)
    requires
        width > 0,
        height > 0,
    ensures
        ({
            let scale = scale_for(width, height, window_width, window_height);
            &&& scale.den > 0
            &&& 0 <= scale.apply(width as int) <= window_width
            &&& 0 <= scale.apply(height as int) <= window_height
            &&& scale.apply(width as int) == window_width || scale.apply(height as int)
                == window_height
        }),
{
    let scale = scale_for(width, height, window_width, window_height);
    let w = width as int;
    let h = height as int;
    let ww = window_width as int;
    let wh = window_height as int;
    assert(0 <= w * ww && 0 <= h * ww && 0 <= w * wh && 0 <= h * wh) by (nonlinear_arith)
        requires
            0 < w,
            0 < h,
            0 <= ww,
            0 <= wh,
    ;
    assert(h * ww == ww * h && w * wh == wh * w && w * ww == ww * w && h * wh == wh * h)
        by (nonlinear_arith);
    if ww * h <= wh * w {
        lemma_div_multiples_vanish(ww, w);
        lemma_div_multiples_vanish(wh, w);
        lemma_div_is_ordered(h * ww, wh * w, w);
        lemma_div_pos_is_pos(h * ww, w);
    } else {
        lemma_div_multiples_vanish(wh, h);
        lemma_div_multiples_vanish(ww, h);
        lemma_div_is_ordered(w * wh, ww * h, h);
        lemma_div_pos_is_pos(w * wh, h);
    }
}

/// The scale of a canvas in a window is the smaller of the two ratios of
/// window side to canvas side: it is one of them, and no more than either.
pub proof fn lemma_scale_is_smaller_ratio(
    width: u32,
    height: u32,
    window_width: u16,
    window_height: u16,
)
    requires
        width > 0,
        height > 0,
    ensures
        ({
            let scale = scale_for(width, height, window_width, window_height);
            &&& scale == (Scale { num: window_width as u32, den: width }) || scale == (Scale {
                num: window_height as u32,
                den: height,
            })
            &&& scale.num * width <= window_width * scale.den
            &&& scale.num * height <= window_height * scale.den
        }),
{
    assert(window_width * height == height * window_width && window_height * width == width
        * window_height) by (nonlinear_arith);
}

/// A canvas with a side more than one and a half times as long as it was
/// last shown is halved by `set_camera`, half of an odd side rounded up.
pub proof fn lemma_outgrown_canvas_is_halved(canvas: AnimationView)
    requires
        canvas.auto_resize,
        2 * canvas.width > 3 * canvas.draw_size.0 || 2 * canvas.height > 3 * canvas.draw_size.1,
    ensures
        canvas.resized() == ((canvas.width + 1) / 2, (canvas.height + 1) / 2),
        canvas.activation().surface is Some,
{
}

/// A canvas with no side more than one and a half times as long as it was
/// last shown, and a side at most half as long, is doubled by `set_camera`.
pub proof fn lemma_outrun_canvas_is_doubled(canvas: AnimationView)
    requires
        canvas.auto_resize,
        2 * canvas.width <= 3 * canvas.draw_size.0,
        2 * canvas.height <= 3 * canvas.draw_size.1,
        2 * canvas.width <= canvas.draw_size.0 || 2 * canvas.height <= canvas.draw_size.1,
    ensures
        canvas.resized() == (canvas.width * 2, canvas.height * 2),
        canvas.activation().surface is Some,
{
}

/// A canvas whose sides are both more than half as long as it was last shown,
/// and neither more than one and a half times as long, is left as it is by
/// `set_camera`, however often that is called; so is one that does not
/// resize.
pub proof fn lemma_steady_canvas_is_kept(canvas: AnimationView)
    requires
        !canvas.auto_resize || (canvas.draw_size.0 < 2 * canvas.width <= 3 * canvas.draw_size.0
            && canvas.draw_size.1 < 2 * canvas.height <= 3 * canvas.draw_size.1),
    ensures
        canvas.resized() == (canvas.width as int, canvas.height as int),
        canvas.activation().surface is None,
        canvas.activated().width == canvas.width,
        canvas.activated().height == canvas.height,
        canvas.activated().activated() == canvas.activated(),
{
}

/// The canvas may be shown after `set_default_camera`, and may not after
/// `set_camera`; showing it leaves it ready to be shown again.
pub proof fn lemma_frame_protocol(canvas: AnimationView, window_width: u16, window_height: u16)
    ensures
        !canvas.activated().can_draw_frame(),
        canvas.deactivated().can_draw_frame(),
        canvas.activated().deactivated().can_draw_frame(),
        canvas.deactivated().shown(window_width, window_height).can_draw_frame(),
{
}

impl Scale {
    /// Whether the world coordinate `at` is shown at an exact window
    /// coordinate, with nothing rounded off.
    pub open spec fn shows_exactly(self, at: int, window: int) -> bool {
        2 * self.den * self.project(at, window) == window * self.den + 2 * at * self.num
    }
}

/// Showing a world coordinate in the window and reading it back returns it
/// where it is shown at an exact window coordinate. Where that was rounded,
/// the result along the x axis is below the coordinate by at most one over
/// the scale, rounded up; along the y axis, which is flipped, above it by at
/// most as much. At a scale of 1 or more that is at most 1.
pub proof fn lemma_unproject_round_trip(scale: Scale, at: int, window: int)
    requires
        scale.num > 0,
        scale.den > 0,
    ensures
        ({
            let slack = (scale.den + scale.num - 1) / (scale.num as int);
            &&& scale.shows_exactly(at, window) ==> scale.unproject(
                scale.project(at, window),
                window,
            ) == at
            &&& scale.shows_exactly(-at, window) ==> scale.unproject(
                -scale.project(-at, window),
                -window,
            ) == at
            &&& at - slack <= scale.unproject(scale.project(at, window), window) <= at
            &&& at <= scale.unproject(-scale.project(-at, window), -window) <= at + slack
            &&& scale.num >= scale.den ==> slack == 1
        }),
{
    let num = scale.num as int;
    let den = scale.den as int;
    let slack = (den + num - 1) / num;
    vstd::arithmetic::div_mod::lemma_fundamental_div_mod(den + num - 1, num);
    vstd::arithmetic::div_mod::lemma_mod_bound(den + num - 1, num);
    assert(den <= num * slack <= den + num - 1) by (nonlinear_arith)
        requires
            den + num - 1 == num * slack + (den + num - 1) % num,
            0 <= (den + num - 1) % num < num,
    ;
    if num >= den {
        assert(slack == 1) by (nonlinear_arith)
            requires
                den <= num * slack <= den + num - 1,
                1 <= den <= num,
        ;
    }
    // Along x.
    let shown = scale.project(at, window);
    let x1 = window * den + 2 * at * num;
    lemma_floor_div(x1, 2 * den);
    let x2 = (2 * shown - window) * den;
    let back = scale.unproject(shown, window);
    lemma_floor_div(x2, 2 * num);
    assert(at - slack <= back <= at) by (nonlinear_arith)
        requires
            2 * den * shown <= x1 < 2 * den * shown + 2 * den,
            2 * num * back <= x2 < 2 * num * back + 2 * num,
            x1 == window * den + 2 * at * num,
            x2 == (2 * shown - window) * den,
            den <= num * slack,
            num >= 1,
            den >= 1,
    ;
    if scale.shows_exactly(at, window) {
        assert(back == at) by (nonlinear_arith)
            requires
                2 * den * shown == x1,
                2 * num * back <= x2 < 2 * num * back + 2 * num,
                x1 == window * den + 2 * at * num,
                x2 == (2 * shown - window) * den,
                num >= 1,
                den >= 1,
        ;
    }
    // Along y.
    let shown_y = scale.project(-at, window);
    let y1 = window * den + 2 * (-at) * num;
    lemma_floor_div(y1, 2 * den);
    let y2 = (2 * (-shown_y) - (-window)) * den;
    let back_y = scale.unproject(-shown_y, -window);
    lemma_floor_div(y2, 2 * num);
    assert(at <= back_y <= at + slack) by (nonlinear_arith)
        requires
            2 * den * shown_y <= y1 < 2 * den * shown_y + 2 * den,
            2 * num * back_y <= y2 < 2 * num * back_y + 2 * num,
            y1 == window * den + 2 * (-at) * num,
            y2 == (2 * (-shown_y) - (-window)) * den,
            den <= num * slack,
            num >= 1,
            den >= 1,
    ;
    if scale.shows_exactly(-at, window) {
        assert(back_y == at) by (nonlinear_arith)
            requires
                2 * den * shown_y == y1,
                2 * num * back_y <= y2 < 2 * num * back_y + 2 * num,
                y1 == window * den + 2 * (-at) * num,
                y2 == (2 * (-shown_y) - (-window)) * den,
                num >= 1,
                den >= 1,
        ;
    }
}

/// What is read back from a 32-bit window coordinate is at most 2^62 in size.
pub proof fn lemma_unproject_bound(scale: Scale, at: int, window: int)
    requires
        scale.num > 0,
        scale.den <= MAX_SIDE,
        -0x8000_0000 <= at <= 0x8000_0000,
        -0xffff_ffff <= window <= 0xffff_ffff,
    ensures
        -0x4000_0000_0000_0000 <= scale.unproject(at, window) <= 0x4000_0000_0000_0000,
{
    let offset = 2 * at - window;
    let den = scale.den as int;
    let x = offset * den;
    let n = 2 * (scale.num as int);
    assert(-0x8000_0000_0000_0000 <= x <= 0x8000_0000_0000_0000) by (nonlinear_arith)
        requires
            x == offset * den,
            -0x2_0000_0000 <= offset <= 0x2_0000_0000,
            0 <= den <= 0x4000_0000,
    ;
    lemma_floor_div(x, n);
    assert(-0x4000_0000_0000_0000 <= floor_div(x, n) <= 0x4000_0000_0000_0000)
        by (nonlinear_arith)
        requires
            n * floor_div(x, n) <= x < n * floor_div(x, n) + n,
            n >= 2,
            -0x8000_0000_0000_0000 <= x <= 0x8000_0000_0000_0000,
    ;
}

/// A world position that is shown at an exact window position is read back
/// from it. Where the window position was rounded, it is read back to within
/// the rounding: no further to the left than one over the scale, rounded up,
/// and no further up.
pub proof fn lemma_screen_round_trip(
    canvas: AnimationView,
    p: WorldPoint,
    shown: Vec2,
    window_width: u16,
    window_height: u16,
)
    requires
        canvas.valid(),
        canvas.scale.num > 0,
        shown.x == canvas.project(p, window_width, window_height).0,
        shown.y == canvas.project(p, window_width, window_height).1,
    ensures
        ({
            let back = canvas.unproject(shown, window_width, window_height);
            let slack = (canvas.scale.den + canvas.scale.num - 1) / (canvas.scale.num as int);
            &&& canvas.scale.shows_exactly(p.x as int, window_width as int)
                && canvas.scale.shows_exactly(-p.y, window_height as int) ==> back == p
            &&& p.x - slack <= back.x <= p.x
            &&& p.y <= back.y <= p.y + slack
            &&& canvas.scale.num >= canvas.scale.den ==> slack == 1
        }),
{
    lemma_unproject_round_trip(canvas.scale, p.x as int, window_width as int);
    lemma_unproject_round_trip(canvas.scale, p.y as int, window_height as int);
    lemma_unproject_bound(canvas.scale, shown.x as int, window_width as int);
    lemma_unproject_bound(canvas.scale, -shown.y, -window_height);
}

/// The canvas.
pub struct Animation {
    bg_color: Color,
    render_state: RenderState,
    draw_size: (u32, u32),
    filter_mode: FilterMode,
    fxaa: bool,
    width: u32,
    height: u32,
    scale: Scale,
    auto_resize: bool,
}

impl View for Animation {
    type V = AnimationView;

    closed spec fn view(&self) -> AnimationView {
        AnimationView {
            bg_color: self.bg_color,
            render_state: self.render_state,
            draw_size: self.draw_size,
            filter_mode: self.filter_mode,
            fxaa: self.fxaa,
            width: self.width,
            height: self.height,
            scale: self.scale,
            auto_resize: self.auto_resize,
        }
    }
}

impl Animation {
    #[verifier::type_invariant]
    spec fn well_formed(self) -> bool {
        self@.valid()
    }

    /// A canvas `start_width` by `start_height` large, in a window of the
    /// given size. Drawing goes to the window at first; the surface is
    /// sampled linearly, resized as the window asks for it, and cleared to
    /// `bg_color`, or to a dark gray where none is given.
    pub fn new(
        start_width: u16,
        start_height: u16,
        bg_color: Option<Color>,
        window_width: u16,
        window_height: u16,
    ) -> (animation: Self)
        requires
            start_width > 0,
            start_height > 0,
        ensures
            animation@ == (AnimationView {
                bg_color: match bg_color {
                    Some(color) => color,
                    None => charcoal(),
                },
                render_state: RenderState::ScreenRendering,
                draw_size: (start_width as u32, start_height as u32),
                filter_mode: FilterMode::Linear,
                fxaa: false,
                width: start_width as u32,
                height: start_height as u32,
                scale: scale_for(
                    start_width as u32,
                    start_height as u32,
                    window_width,
                    window_height,
                ),
                auto_resize: true,
            }),
    {
        let bg_color = match bg_color {
            Some(color) => color,
            None => charcoal(),
        };
        let width: u32 = start_width as u32;
        let height: u32 = start_height as u32;
        Animation {
            bg_color,
            render_state: RenderState::ScreenRendering,
            draw_size: (width, height),
            filter_mode: FilterMode::Linear,
            fxaa: false,
            width,
            height,
            scale: Self::compute_scale(width, height, window_width, window_height),
            auto_resize: true,
        }
    }

    /// Keeps the surface at its size from now on.
    pub fn disable_auto_resize(&mut self)
        ensures
            final(self)@ == (AnimationView { auto_resize: false, ..old(self)@ }),
    {
        proof {
            use_type_invariant(&*self);
        }
        self.auto_resize = false;
    }

    /// Sets how the surface is sampled: the caller applies it to the surface
    /// it has, and later surfaces are asked for with it.
    pub fn filter_mode(&mut self, filter_mode: FilterMode)
        ensures
            final(self)@ == (AnimationView { filter_mode, ..old(self)@ }),
    {
        proof {
            use_type_invariant(&*self);
        }
        self.filter_mode = filter_mode;
    }

    /// The world position that is shown at the window position `point`, in a
    /// window of the given size and at the scale of the last frame.
    pub fn screen_to_world(&self, point: Vec2, window_width: u16, window_height: u16) -> (p:
        WorldPoint)
        requires
            self@.scale.num > 0,
        ensures
            p == self@.unproject(point, window_width, window_height),
            p.in_reach(),
    {
        proof {
            use_type_invariant(self);
        }
        WorldPoint {
            x: unproject_axis(self.scale, point.x as i64, window_width as i64),
            y: unproject_axis(self.scale, -(point.y as i64), -(window_height as i64)),
        }
    }

    /// The world position under the cursor of the mouse, which is at the
    /// window position `mouse`.
    pub fn get_world_mouse(&self, mouse: Vec2, window_width: u16, window_height: u16) -> (p:
        WorldPoint)
        requires
            self@.scale.num > 0,
        ensures
            p == self@.unproject(mouse, window_width, window_height),
            p.in_reach(),
    {
        self.screen_to_world(mouse, window_width, window_height)
    }

    /// Shows the canvas through the smoothing effect from now on.
    pub fn enable_fxaa(&mut self)
        ensures
            final(self)@ == (AnimationView { fxaa: true, ..old(self)@ }),
    {
        proof {
            use_type_invariant(&*self);
        }
        self.fxaa = true;
    }

    /// Directs drawing to the canvas. Where the canvas has outgrown or fallen
    /// behind the size at which it was last shown, it is resized first, and
    /// the answer names the surface to allocate for it.
    pub fn set_camera(&mut self) -> (activation: Activation)
        ensures
            final(self)@ == old(self)@.activated(),
            activation == old(self)@.activation(),
            !old(self)@.auto_resize ==> activation.surface is None,
    {
        proof {
            use_type_invariant(&*self);
        }
        let mut surface: Option<Surface> = None;
        if self.auto_resize {
            let w: u64 = self.width as u64;
            let h: u64 = self.height as u64;
            if 2 * w > 3 * (self.draw_size.0 as u64) || 2 * h > 3 * (self.draw_size.1 as u64) {
                surface = Some(
                    self.resize_render_target((self.width + 1) / 2, (self.height + 1) / 2),
                );
            } else if 2 * w <= self.draw_size.0 as u64 || 2 * h <= self.draw_size.1 as u64 {
                surface = Some(self.resize_render_target(self.width * 2, self.height * 2));
            }
        }
        self.render_state = RenderState::CameraRendering;
        Activation { surface, clear_color: self.bg_color }
    }

    /// Directs drawing back to the window.
    pub fn set_default_camera(&mut self)
        ensures
            final(self)@ == old(self)@.deactivated(),
    {
        proof {
            use_type_invariant(&*self);
        }
        self.render_state = RenderState::ScreenRendering;
    }

    /// Shows the canvas in a window of the given size: scaled as far as the
    /// window allows, and centred. Drawing must have been directed back to
    /// the window before.
    pub fn draw_frame(&mut self, window_width: u16, window_height: u16) -> (frame: FrameBlit)
        requires
            old(self)@.can_draw_frame(),
        ensures
            final(self)@ == old(self)@.shown(window_width, window_height),
            frame == old(self)@.frame(window_width, window_height),
            frame.width <= window_width,
            frame.height <= window_height,
            frame.width == window_width || frame.height == window_height,
            frame.x + frame.width <= window_width,
            frame.y + frame.height <= window_height,
    {
        proof {
            use_type_invariant(&*self);
            lemma_blit_fits_window(self.width, self.height, window_width, window_height);
        }
        let effect_texture_size = if self.fxaa {
            Some(self.draw_size)
        } else {
            None
        };
        let scale = Self::compute_scale(self.width, self.height, window_width, window_height);
        assert(self.width * scale.num <= 0x4000_0000 * 0xffff_ffff && self.height * scale.num
            <= 0x4000_0000 * 0xffff_ffff) by (nonlinear_arith)
            requires
                self.width <= 0x4000_0000,
                self.height <= 0x4000_0000,
                scale.num <= 0xffff_ffff,
        ;
        let width: u32 = ((self.width as u64 * scale.num as u64) / (scale.den as u64)) as u32;
        let height: u32 = ((self.height as u64 * scale.num as u64) / (scale.den as u64)) as u32;
        self.scale = scale;
        self.draw_size = (width, height);
        FrameBlit {
            effect_texture_size,
            clear_color: self.bg_color,
            x: (window_width as u32 - width) / 2,
            y: (window_height as u32 - height) / 2,
            width,
            height,
        }
    }

    /// [`Animation::draw_frame`] for a caller that cannot tell beforehand
    /// whether drawing was directed back to the window: if it was not, the
    /// canvas is left as it is, and the answer is `None`.
    pub fn try_draw_frame(&mut self, window_width: u16, window_height: u16) -> (frame: Option<
        FrameBlit,
    >)
        ensures
            frame is Some <==> old(self)@.can_draw_frame(),
            frame matches Some(blit) ==> blit == old(self)@.frame(window_width, window_height)
                && final(self)@ == old(self)@.shown(window_width, window_height),
            frame is None ==> final(self)@ == old(self)@,
    {
        match self.render_state {
            RenderState::CameraRendering => None,
            RenderState::ScreenRendering => Some(self.draw_frame(window_width, window_height)),
        }
    }

    /// The scale of the last frame.
    pub fn scale(&self) -> (scale: Scale)
        ensures
            scale == self@.scale,
    {
        self.scale
    }

    /// The size of the canvas.
    pub fn size(&self) -> (size: Vec2)
        ensures
            size.x == self@.width,
            size.y == self@.height,
    {
        proof {
            use_type_invariant(self);
        }
        Vec2 { x: self.width as i32, y: self.height as i32 }
    }

    /// The surface that the canvas is drawn on: as large as the canvas, and
    /// sampled as was last asked for.
    pub fn surface(&self) -> (surface: Surface)
        ensures
            surface == self@.surface(),
    {
        Surface { width: self.width, height: self.height, filter_mode: self.filter_mode }
    }

    /// The size at which the canvas was last shown.
    pub fn draw_size(&self) -> (size: (u32, u32))
        ensures
            size == self@.draw_size,
    {
        self.draw_size
    }

    /// Where drawing calls currently go.
    pub fn render_state(&self) -> (state: RenderState)
        ensures
            state == self@.render_state,
    {
        self.render_state
    }

    /// The largest factor by which a `width` by `height` canvas can be scaled
    /// and still fit the window.
    pub fn compute_scale(width: u32, height: u32, window_width: u16, window_height: u16) -> (scale:
        Scale)
        ensures
            scale == scale_for(width, height, window_width, window_height),
    {
        assert(window_width * height <= 0xffff_ffff * 0xffff_ffff && window_height * width
            <= 0xffff_ffff * 0xffff_ffff) by (nonlinear_arith)
            requires
                window_width <= 0xffff_ffff,
                window_height <= 0xffff_ffff,
                width <= 0xffff_ffff,
                height <= 0xffff_ffff,
        ;
        if window_width as u64 * height as u64 <= window_height as u64 * width as u64 {
            Scale { num: window_width as u32, den: width }
        } else {
            Scale { num: window_height as u32, den: height }
        }
    }

    fn resize_render_target(&mut self, new_width: u32, new_height: u32) -> (surface: Surface)
        requires
            0 < new_width <= MAX_SIDE,
            0 < new_height <= MAX_SIDE,
        ensures
            final(self)@ == (AnimationView { width: new_width, height: new_height, ..old(self)@ }),
            surface == (Surface {
                width: new_width,
                height: new_height,
                filter_mode: old(self)@.filter_mode,
            }),
    {
        proof {
            use_type_invariant(&*self);
        }
        self.width = new_width;
        self.height = new_height;
        Surface { width: new_width, height: new_height, filter_mode: self.filter_mode }
    }
}

/// One axis of [`Animation::screen_to_world`].
fn unproject_axis(scale: Scale, at: i64, window: i64) -> (r: i64)
    requires
        scale.num > 0,
        scale.den <= MAX_SIDE,
        -0x8000_0000 <= at <= 0x8000_0000,
        -0xffff_ffff <= window <= 0xffff_ffff,
    ensures
        r == scale.unproject(at as int, window as int),
        -crate::geometry::REACH <= r <= crate::geometry::REACH,
{
    let offset: i128 = 2 * (at as i128) - window as i128;
    let den: i128 = scale.den as i128;
    assert(-0x2_0000_0000 * 0x4000_0000 <= offset * den <= 0x2_0000_0000 * 0x4000_0000)
        by (nonlinear_arith)
        requires
            -0x2_0000_0000 <= offset <= 0x2_0000_0000,
            0 <= den <= 0x4000_0000,
    ;
    let q: i128 = crate::geometry::div_floor(offset * den, 2 * (scale.num as i128));
    proof {
        lemma_unproject_bound(scale, at as int, window as int);
    }
    q as i64
}

} // verus!
