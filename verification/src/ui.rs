//! Two widgets, a slider and a button, and the placing of centred text.
//!
//! A widget is handed the state of the mouse, changes the value it stands
//! for, and answers with what is to be drawn.

use vstd::prelude::*;
use crate::color::black;
use crate::color::blue;
use crate::color::darkgray;
use crate::color::gray;
use crate::color::white;
use crate::color::Color;
use crate::draw::DrawCommand;
use crate::geometry::box_fits;
use crate::geometry::edges_fit;
use crate::geometry::half;
use crate::geometry::lemma_map_fits;
use crate::geometry::map_value;
use crate::geometry::map_wide;
use crate::geometry::Vec2;
use crate::geometry::WorldPoint;
use crate::geometry::REACH;
use std::ops::Range;

verus! {

/// The mouse as a widget sees it: where the cursor is, in world coordinates,
/// whether the left button went down since the last frame, and whether it is
/// held down.
#[derive(Clone, Copy, Debug, PartialEq, Eq)]
pub struct MouseInput {
    pub position: Vec2,
    pub left_pressed: bool,
    pub left_down: bool,
}

/// Where and how a text is to be drawn.
#[derive(Clone, Copy, Debug, PartialEq, Eq)]
pub struct TextPlacement {
    pub x: i64,
    pub y: i64,
    pub font_size: u16,
    pub font_scale: i32,
    pub font_scale_aspect: i32,
    pub color: Color,
}

/// Places a text so that its middle comes to lie at `(x, y)`. `text_center`
/// is how far the middle of the text lies to the right of and above the point
/// that it is drawn from. The text is mirrored, as the y axis of the canvas
/// points up.
pub fn draw_text_centered(x: i64, y: i64, font_size: u16, color: Color, text_center: Vec2) -> (text:
    TextPlacement)
    requires
        -REACH <= x <= REACH,
        -REACH <= y <= REACH,
    ensures
        text.x == x - text_center.x,
        text.y == y + text_center.y,
        text.font_size == font_size,
        text.font_scale == -1,
        text.font_scale_aspect == -1,
        text.color == color,
{
    TextPlacement {
        x: x - text_center.x as i64,
        y: y + text_center.y as i64,
        font_size,
        font_scale: -1,
        font_scale_aspect: -1,
        color,
    }
}

/// The colours and the bar of a slider.
#[derive(Clone, Copy, Debug, PartialEq, Eq)]
pub struct SliderStyle {
    pub bar_height: i32,
    pub bar_color: Color,
    pub marker_color: Color,
}

impl SliderStyle {
    /// The style of a slider that was given none.
    pub open spec fn plain() -> SliderStyle {
        SliderStyle { bar_height: 5, bar_color: white(), marker_color: gray() }
    }
}

impl Default for SliderStyle {
    fn default() -> (s: Self)
        ensures
            s == SliderStyle::plain(),
    {
        SliderStyle { bar_height: 5, bar_color: white(), marker_color: gray() }
    }
}

/// What a [`Slider`] is made from.
pub struct SliderView {
    pub center_pos: Vec2,
    pub size: Vec2,
    pub style: SliderStyle,
    pub mouse_pos: Option<Vec2>,
    pub range: Range<i32>,
}

/// `value`, but no less than `low` and no more than `high`.
pub open spec fn clamped(value: int, low: int, high: int) -> int {
    if value < low {
        low
    } else if value > high {
        high
    } else {
        value
    }
}

impl SliderView {
    /// The left end of the bar.
    pub open spec fn min_x(self) -> int {
        self.center_pos.x - half(self.size.x as int)
    }

    /// The right end of the bar.
    pub open spec fn max_x(self) -> int {
        self.center_pos.x + half(self.size.x as int)
    }

    /// The lower edge of the slider.
    pub open spec fn min_y(self) -> int {
        self.center_pos.y - half(self.size.y as int)
    }

    /// The upper edge of the slider.
    pub open spec fn max_y(self) -> int {
        self.center_pos.y + half(self.size.y as int)
    }

    /// Whether the range begins below its end, the bar has a length, and the
    /// four edges of the slider are 32-bit coordinates.
    pub open spec fn valid(self) -> bool {
        &&& self.range.start < self.range.end
        &&& half(self.size.x as int) != 0
        &&& edges_fit(self.center_pos.x as int, self.size.x as int)
        &&& edges_fit(self.center_pos.y as int, self.size.y as int)
    }

    /// The slider of the given placement and range in the plain style, that
    /// goes by the mouse.
    pub open spec fn plain(center_pos: Vec2, size: Vec2, range: Range<i32>) -> SliderView {
        SliderView { center_pos, size, style: SliderStyle::plain(), mouse_pos: None, range }
    }

    /// The position of the cursor that the slider goes by: the one it was
    /// given, or else that of the mouse.
    pub open spec fn cursor(self, input: MouseInput) -> Vec2 {
        match self.mouse_pos {
            Some(pos) => pos,
            None => input.position,
        }
    }

    /// Whether the cursor is on the slider: between its lower and upper
    /// edge, and no further beyond an end of the bar than the marker reaches.
    pub open spec fn hit(self, cursor: Vec2) -> bool {
        &&& cursor.x >= self.min_x() - half(self.size.y as int)
        &&& cursor.x <= self.max_x() + half(self.size.y as int)
        &&& cursor.y <= self.max_y()
        &&& cursor.y >= self.min_y()
    }

    /// The value after a frame: where the left button is held down on the
    /// slider, the value that the bar has under the cursor, and at most an
    /// end of the range; else the value as it was.
    pub open spec fn dragged(self, data: i32, input: MouseInput) -> int {
        if input.left_down && self.hit(self.cursor(input)) {
            clamped(
                map_value(
                    self.cursor(input).x as int,
                    self.min_x(),
                    self.max_x(),
                    self.range.start as int,
                    self.range.end as int,
                ),
                self.range.start as int,
                self.range.end as int,
            )
        } else {
            data as int
        }
    }

    /// The bar: as long as the slider, `bar_height` high, and centred.
    pub open spec fn bar(self) -> DrawCommand {
        DrawCommand::Rectangle {
            corner: WorldPoint::at(
                self.min_x(),
                self.center_pos.y - half(self.style.bar_height as int),
            ),
            width: self.size.x as i64,
            height: self.style.bar_height as i64,
            color: self.style.bar_color,
        }
    }

    /// The marker: a disc on the bar where the value `data` lies in the
    /// range, half as wide as the slider is high.
    pub open spec fn marker(self, data: i32) -> DrawCommand {
        DrawCommand::Circle {
            center: WorldPoint::at(
                map_value(
                    data as int,
                    self.range.start as int,
                    self.range.end as int,
                    self.min_x(),
                    self.max_x(),
                ),
                self.center_pos.y as int,
            ),
            radius: half(self.size.y as int) as i64,
            color: self.style.marker_color,
        }
    }
}

/// A slider: a bar with a marker that is dragged along it to choose a value
/// from a range.
pub struct Slider {
    center_pos: Vec2,
    size: Vec2,
    style: SliderStyle,
    mouse_pos: Option<Vec2>,
    range: Range<i32>,
    min_coords: Vec2,
    max_coords: Vec2,
}

impl View for Slider {
    type V = SliderView;

    closed spec fn view(&self) -> SliderView {
        SliderView {
            center_pos: self.center_pos,
            size: self.size,
            style: self.style,
            mouse_pos: self.mouse_pos,
            range: self.range,
        }
    }
}

impl Slider {
    #[verifier::type_invariant]
    spec fn well_formed(self) -> bool {
        &&& self@.valid()
        &&& self.min_coords.x == self@.min_x()
        &&& self.min_coords.y == self@.min_y()
        &&& self.max_coords.x == self@.max_x()
        &&& self.max_coords.y == self@.max_y()
    }

    /// A slider centred on `center_pos` and `size` large, for the values of
    /// `range`, in the plain style, that goes by the mouse.
    pub fn new(center_pos: Vec2, size: Vec2, range: Range<i32>) -> (slider: Self)
        requires
            SliderView::plain(center_pos, size, range).valid(),
        ensures
            slider@ == SliderView::plain(center_pos, size, range),
    {
        let min_coords = Vec2 {
            x: (center_pos.x as i64 - (size.x / 2) as i64) as i32,
            y: (center_pos.y as i64 - (size.y / 2) as i64) as i32,
        };
        let max_coords = Vec2 {
            x: (center_pos.x as i64 + (size.x / 2) as i64) as i32,
            y: (center_pos.y as i64 + (size.y / 2) as i64) as i32,
        };
        Slider {
            center_pos,
            size,
            style: SliderStyle::default(),
            mouse_pos: None,
            range,
            min_coords,
            max_coords,
        }
    }

    /// [`Slider::new`] for a caller that cannot tell beforehand whether the
    /// slider can be built: `None` where the range does not begin below its
    /// end, the bar has no length, or an edge is no 32-bit coordinate.
    pub fn try_new(center_pos: Vec2, size: Vec2, range: Range<i32>) -> (built: Option<Self>)
        ensures
            built is Some <==> SliderView::plain(center_pos, size, range).valid(),
            built matches Some(slider) ==> slider@ == SliderView::plain(center_pos, size, range),
    {
        if range.start < range.end && size.x / 2 != 0 && box_fits(center_pos, size) {
            Some(Slider::new(center_pos, size, range))
        } else {
            None
        }
    }

    /// The same slider in another style.
    pub fn style(self, style: SliderStyle) -> (slider: Self)
        ensures
            slider@ == (SliderView { style, ..self@ }),
    {
        proof {
            use_type_invariant(&self);
        }
        Slider {
            center_pos: self.center_pos,
            size: self.size,
            style,
            mouse_pos: self.mouse_pos,
            range: self.range,
            min_coords: self.min_coords,
            max_coords: self.max_coords,
        }
    }

    /// The same slider, going by the cursor position `mouse_pos` in place of
    /// the mouse.
    pub fn mouse_pos(self, mouse_pos: Vec2) -> (slider: Self)
        ensures
            slider@ == (SliderView { mouse_pos: Some(mouse_pos), ..self@ }),
    {
        proof {
            use_type_invariant(&self);
        }
        Slider {
            center_pos: self.center_pos,
            size: self.size,
            style: self.style,
            mouse_pos: Some(mouse_pos),
            range: self.range,
            min_coords: self.min_coords,
            max_coords: self.max_coords,
        }
    }

    /// One frame of the slider: the bar, and the marker where `data` lay
    /// when the frame began. Where the left button is held down on the
    /// slider, `data` becomes the value under the cursor.
    pub fn draw(&self, data: &mut i32, input: MouseInput) -> (out: Vec<DrawCommand>)
        ensures
            *final(data) == self@.dragged(*old(data), input),
            out@ == seq![self@.bar(), self@.marker(*old(data))],
    {
        proof {
            use_type_invariant(self);
        }
        let mouse_pos = match self.mouse_pos {
            Some(pos) => pos,
            None => input.position,
        };
        let mut out: Vec<DrawCommand> = Vec::new();
        out.push(
            DrawCommand::Rectangle {
                corner: WorldPoint {
                    x: self.min_coords.x as i64,
                    y: self.center_pos.y as i64 - (self.style.bar_height / 2) as i64,
                },
                width: self.size.x as i64,
                height: self.style.bar_height as i64,
                color: self.style.bar_color,
            },
        );
        proof {
            lemma_map_fits(
                *data,
                self.range.start,
                self.range.end,
                self.min_coords.x,
                self.max_coords.x,
            );
        }
        let marker_x = crate::map(
            *data,
            self.range.start,
            self.range.end,
            self.min_coords.x,
            self.max_coords.x,
        );
        let reach: i64 = (self.size.y / 2) as i64;
        let mouse_intersects_bb = mouse_pos.x as i64 >= self.min_coords.x as i64 - reach
            && mouse_pos.x as i64 <= self.max_coords.x as i64 + reach && mouse_pos.y
            <= self.max_coords.y && mouse_pos.y >= self.min_coords.y;
        if input.left_down && mouse_intersects_bb {
            let value = map_wide(
                mouse_pos.x,
                self.min_coords.x,
                self.max_coords.x,
                self.range.start,
                self.range.end,
            );
            *data = if value < self.range.start as i128 {
                self.range.start
            } else if value > self.range.end as i128 {
                self.range.end
            } else {
                value as i32
            };
        }
        out.push(
            DrawCommand::Circle {
                center: WorldPoint { x: marker_x, y: self.center_pos.y as i64 },
                radius: reach,
                color: self.style.marker_color,
            },
        );
        out
    }
}

/// The outline of a button.
#[derive(Clone, Copy, Debug, PartialEq, Eq)]
pub enum ButtonShape {
    Circle { radius: i32 },
    Rectangle { width: i32, height: i32 },
}

impl ButtonShape {
    /// Whether `pt` lies on a button of this shape centred on `center_pos`:
    /// nearer to the centre than the radius of a circle, or within a
    /// rectangle, its edges included.
    pub open spec fn covers(self, center_pos: Vec2, pt: Vec2) -> bool {
        match self {
            ButtonShape::Circle { radius } => (center_pos.x - pt.x) * (center_pos.x - pt.x) + (
            center_pos.y - pt.y) * (center_pos.y - pt.y) < radius * radius,
            ButtonShape::Rectangle { width, height } => {
                &&& pt.x >= center_pos.x - half(width as int)
                &&& pt.x <= center_pos.x + half(width as int)
                &&& pt.y >= center_pos.y - half(height as int)
                &&& pt.y <= center_pos.y + half(height as int)
            },
        }
    }

    /// Whether `pt` lies on a button of this shape centred on `center_pos`.
    pub fn intersects(&self, center_pos: Vec2, pt: Vec2) -> (hit: bool)
        ensures
            hit == self.covers(center_pos, pt),
    {
        match self {
            ButtonShape::Circle { radius } => {
                let dx: i128 = center_pos.x as i128 - pt.x as i128;
                let dy: i128 = center_pos.y as i128 - pt.y as i128;
                let r: i128 = *radius as i128;
                assert(0 <= dx * dx <= 0x1_0000_0000 * 0x1_0000_0000 && 0 <= dy * dy
                    <= 0x1_0000_0000 * 0x1_0000_0000 && 0 <= r * r <= 0x1_0000_0000
                    * 0x1_0000_0000) by (nonlinear_arith)
                    requires
                        -0x1_0000_0000 <= dx <= 0x1_0000_0000,
                        -0x1_0000_0000 <= dy <= 0x1_0000_0000,
                        -0x1_0000_0000 <= r <= 0x1_0000_0000,
                ;
                dx * dx + dy * dy < r * r
            },
            ButtonShape::Rectangle { width, height } => {
                let half_width: i64 = (*width / 2) as i64;
                let half_height: i64 = (*height / 2) as i64;
                pt.x as i64 >= center_pos.x as i64 - half_width && pt.x as i64 <= center_pos.x as i64
                    + half_width && pt.y as i64 >= center_pos.y as i64 - half_height && pt.y as i64
                    <= center_pos.y as i64 + half_height
            },
        }
    }
}

/// The colours of a button in its three states, each with the colour of the
/// face and that of the inset, and how far the inset lies within the face.
#[derive(Clone, Copy, Debug, PartialEq, Eq)]
pub struct ButtonStyle {
    pub color: Color,
    pub inset_color: Color,
    pub hover_color: Color,
    pub hover_inset_color: Color,
    pub pushed_color: Color,
    pub pushed_inset_color: Color,
    pub inset_offset: i32,
}

impl ButtonStyle {
    /// The style of a button that was given none.
    pub open spec fn plain() -> ButtonStyle {
        ButtonStyle {
            color: gray(),
            inset_color: darkgray(),
            hover_color: darkgray(),
            hover_inset_color: black(),
            pushed_color: gray(),
            pushed_inset_color: blue(),
            inset_offset: 4,
        }
    }
}

impl Default for ButtonStyle {
    fn default() -> (s: Self)
        ensures
            s == ButtonStyle::plain(),
    {
        ButtonStyle {
            color: gray(),
            inset_color: darkgray(),
            hover_color: darkgray(),
            hover_inset_color: black(),
            pushed_color: gray(),
            pushed_inset_color: blue(),
            inset_offset: 4,
        }
    }
}

/// What a click does to a button.
#[derive(Clone, Copy, Debug, PartialEq, Eq)]
pub enum ButtonType {
    /// Pushed for as long as the mouse button is held down on it.
    Push,
    /// Pushed by one click and released by the next.
    Toggle,
}

impl Default for ButtonType {
    fn default() -> (t: Self)
        ensures
            t == ButtonType::Toggle,
    {
        ButtonType::Toggle
    }
}

/// A button.
pub struct Button {
    pub style: ButtonStyle,
    pub shape: ButtonShape,
    pub center_pos: Vec2,
    pub button_type: ButtonType,
    /// The cursor position that the button goes by in place of the mouse.
    pub mouse_pos: Option<Vec2>,
}

impl Button {
    /// The position of the cursor that the button goes by: the one it was
    /// given, or else that of the mouse.
    pub open spec fn cursor(self, input: MouseInput) -> Vec2 {
        match self.mouse_pos {
            Some(pos) => pos,
            None => input.position,
        }
    }

    /// Whether the button is acted on in this frame: the cursor is on it, and
    /// the left button of the mouse went down, or, for a push button, is
    /// held down.
    pub open spec fn triggered(self, input: MouseInput) -> bool {
        self.shape.covers(self.center_pos, self.cursor(input)) && (input.left_pressed || (
        self.button_type is Push && input.left_down))
    }

    /// Whether the button is pushed after a frame. A push button is pushed
    /// while it is acted on; a toggle button changes when it is acted on.
    pub open spec fn pushed_after(self, pushed: bool, input: MouseInput) -> bool {
        match self.button_type {
            ButtonType::Push => self.triggered(input),
            ButtonType::Toggle => if self.triggered(input) {
                !pushed
            } else {
                pushed
            },
        }
    }

    /// The colours of the face and of the inset in a frame: those of a pushed
    /// button if it is pushed after the frame; else those of a hovered one if
    /// the cursor is on it and it is not acted on; else the plain ones.
    pub open spec fn colors(self, pushed: bool, input: MouseInput) -> (Color, Color) {
        if self.pushed_after(pushed, input) {
            (self.style.pushed_color, self.style.pushed_inset_color)
        } else if self.shape.covers(self.center_pos, self.cursor(input)) && !self.triggered(
            input,
        ) {
            (self.style.hover_color, self.style.hover_inset_color)
        } else {
            (self.style.color, self.style.inset_color)
        }
    }

    /// The drawing of the button with the given colours: the face, and on
    /// it the inset. The inset of a circle has a radius smaller by the inset
    /// offset; that of a rectangle lies half the inset offset within the face
    /// on every side.
    pub open spec fn drawing(self, face: Color, inset: Color) -> Seq<DrawCommand> {
        match self.shape {
            ButtonShape::Circle { radius } => seq![
                DrawCommand::Circle {
                    center: self.center_pos.widen(),
                    radius: radius as i64,
                    color: face,
                },
                DrawCommand::Circle {
                    center: self.center_pos.widen(),
                    radius: (radius - self.style.inset_offset) as i64,
                    color: inset,
                },
            ],
            ButtonShape::Rectangle { width, height } => {
                let x = self.center_pos.x - half(width as int);
                let y = self.center_pos.y - half(height as int);
                let margin = half(self.style.inset_offset as int);
                seq![
                    DrawCommand::Rectangle {
                        corner: WorldPoint::at(x, y),
                        width: width as i64,
                        height: height as i64,
                        color: face,
                    },
                    DrawCommand::Rectangle {
                        corner: WorldPoint::at(x + margin, y + margin),
                        width: (width - margin * 2) as i64,
                        height: (height - margin * 2) as i64,
                        color: inset,
                    },
                ]
            },
        }
    }

    /// A toggle button of the given shape centred on `center_pos`, in the
    /// plain style, that goes by the mouse.
    pub fn new(center_pos: Vec2, button_shape: ButtonShape) -> (button: Self)
        ensures
            button.center_pos == center_pos,
            button.shape == button_shape,
            button.style == ButtonStyle::plain(),
            button.button_type == ButtonType::Toggle,
            button.mouse_pos is None,
    {
        Button {
            center_pos,
            shape: button_shape,
            style: ButtonStyle::default(),
            button_type: ButtonType::default(),
            mouse_pos: None,
        }
    }

    /// The same button in another style.
    pub fn style(self, style: ButtonStyle) -> (button: Self)
        ensures
            button.style == style,
            button.shape == self.shape,
            button.center_pos == self.center_pos,
            button.button_type == self.button_type,
            button.mouse_pos == self.mouse_pos,
    {
        Button {
            style,
            shape: self.shape,
            center_pos: self.center_pos,
            button_type: self.button_type,
            mouse_pos: self.mouse_pos,
        }
    }

    /// The same button of another type.
    pub fn button_type(self, button_type: ButtonType) -> (button: Self)
        ensures
            button.button_type == button_type,
            button.style == self.style,
            button.shape == self.shape,
            button.center_pos == self.center_pos,
            button.mouse_pos == self.mouse_pos,
    {
        Button {
            style: self.style,
            shape: self.shape,
            center_pos: self.center_pos,
            button_type,
            mouse_pos: self.mouse_pos,
        }
    }

    /// The same button, going by the cursor position `mouse_pos` in place of
    /// the mouse.
    pub fn mouse_pos(self, mouse_pos: Vec2) -> (button: Self)
        ensures
            button.mouse_pos == Some(mouse_pos),
            button.style == self.style,
            button.shape == self.shape,
            button.center_pos == self.center_pos,
            button.button_type == self.button_type,
    {
        Button {
            style: self.style,
            shape: self.shape,
            center_pos: self.center_pos,
            button_type: self.button_type,
            mouse_pos: Some(mouse_pos),
        }
    }

    /// One frame of the button: `pushed` is brought up to date with the
    /// mouse, and the button is drawn in the colours of its new state.
    pub fn draw(&mut self, pushed: &mut bool, input: MouseInput) -> (out: Vec<DrawCommand>)
        ensures
            *final(self) == *old(self),
            *final(pushed) == old(self).pushed_after(*old(pushed), input),
            out@ == old(self).drawing(
                old(self).colors(*old(pushed), input).0,
                old(self).colors(*old(pushed), input).1,
            ),
    {
        let mouse_pos = match self.mouse_pos {
            Some(pos) => pos,
            None => input.position,
        };
        let mut is_hovered = self.shape.intersects(self.center_pos, mouse_pos);
        let is_push = match self.button_type {
            ButtonType::Push => true,
            ButtonType::Toggle => false,
        };
        if is_hovered && (input.left_pressed || (is_push && input.left_down)) {
            is_hovered = false;
            *pushed = match self.button_type {
                ButtonType::Push => true,
                ButtonType::Toggle => !*pushed,
            };
        } else {
            *pushed = match self.button_type {
                ButtonType::Push => false,
                ButtonType::Toggle => *pushed,
            };
        }
        let (inset_color, color) = if *pushed {
            (self.style.pushed_inset_color, self.style.pushed_color)
        } else if is_hovered {
            (self.style.hover_inset_color, self.style.hover_color)
        } else {
            (self.style.inset_color, self.style.color)
        };
        let mut out: Vec<DrawCommand> = Vec::new();
        match self.shape {
            ButtonShape::Circle { radius } => {
                out.push(
                    DrawCommand::Circle {
                        center: self.center_pos.to_world(),
                        radius: radius as i64,
                        color,
                    },
                );
                out.push(
                    DrawCommand::Circle {
                        center: self.center_pos.to_world(),
                        radius: radius as i64 - self.style.inset_offset as i64,
                        color: inset_color,
                    },
                );
            },
            ButtonShape::Rectangle { width, height } => {
                let x: i64 = self.center_pos.x as i64 - (width / 2) as i64;
                let y: i64 = self.center_pos.y as i64 - (height / 2) as i64;
                let margin: i64 = (self.style.inset_offset / 2) as i64;
                out.push(
                    DrawCommand::Rectangle {
                        corner: WorldPoint { x, y },
                        width: width as i64,
                        height: height as i64,
                        color,
                    },
                );
                out.push(
                    DrawCommand::Rectangle {
                        corner: WorldPoint { x: x + margin, y: y + margin },
                        width: width as i64 - margin * 2,
                        height: height as i64 - margin * 2,
                        color: inset_color,
                    },
                );
            },
        }
        out
    }
}

} // verus!
