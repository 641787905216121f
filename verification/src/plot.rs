//! A graph: a rectangle of world space onto which a range of data values is
//! laid, with axes, ticks, and plotted lines and points.
//!
//! Data values are whole numbers of a unit that the caller chooses: with a
//! unit of a tenth, the domain from -3.5 to 3.5 in steps of 0.5 is the range
//! `-35..35` with a tick step of 5. Only the labels need to know the unit; a
//! [`LabelStyle`] names how many units make one.

use vstd::prelude::*;
use crate::color::Color;
use crate::color::white;
use crate::draw::DrawCommand;
use crate::geometry::box_fits;
use crate::geometry::edges_fit;
use crate::geometry::half;
use crate::geometry::lemma_map_bound;
use crate::geometry::lemma_map_fits;
use crate::geometry::lemma_map_in_range;
use crate::geometry::map_value;
use std::ops::Range;
use crate::geometry::Vec2;
use crate::geometry::WorldPoint;

verus! {

/// How far a tick label is moved away from its axis.
pub const LABEL_GAP: i64 = 20;

/// How the number beside a tick is printed. `unit` is how many units of
/// the data make one: the number printed is the value of the tick divided by
/// it.
#[derive(Clone, Copy, Debug, PartialEq, Eq)]
pub struct LabelStyle {
    pub pos_offset: Vec2,
    pub color: Color,
    pub font_size: u16,
    pub decimal_places: usize,
    pub unit: u32,
}

impl Default for LabelStyle {
    fn default() -> (s: Self)
        ensures
            s == (LabelStyle {
                pos_offset: Vec2 { x: 0, y: 0 },
                color: white(),
                font_size: 12,
                decimal_places: 2,
                unit: 1,
            }),
    {
        LabelStyle {
            pos_offset: Vec2 { x: 0, y: 0 },
            color: white(),
            font_size: 12,
            decimal_places: 2,
            unit: 1,
        }
    }
}

/// How the short stroke across the axis at a tick is drawn.
#[derive(Clone, Copy, Debug, PartialEq, Eq)]
pub struct MarkerStyle {
    pub length: i32,
    pub thickness: i32,
    pub color: Color,
}

impl Default for MarkerStyle {
    fn default() -> (s: Self)
        ensures
            s == (MarkerStyle { length: 5, thickness: 2, color: white() }),
    {
        MarkerStyle { length: 5, thickness: 2, color: white() }
    }
}

/// What is drawn at each tick of an axis.
#[derive(Clone, Copy, Debug, PartialEq, Eq)]
#[allow(inconsistent_fields)]
pub enum TickStyle {
    LabelAndMarker { label_style: LabelStyle, marker_style: MarkerStyle },
    Marker { style: MarkerStyle },
    Label { style: LabelStyle },
    Nothing,
}

impl Default for TickStyle {
    fn default() -> (s: Self)
        ensures
            s == TickStyle::Nothing,
    {
        TickStyle::Nothing
    }
}

/// What is drawn at the two ends of an axis.
#[derive(Clone, Copy, Debug, PartialEq, Eq)]
pub enum GraphEndPointStyle {
    Arrow { thickness: i32 },
    Nothing,
}

impl Default for GraphEndPointStyle {
    fn default() -> (s: Self)
        ensures
            s == (GraphEndPointStyle::Arrow { thickness: 7 }),
    {
        GraphEndPointStyle::Arrow { thickness: 7 }
    }
}

/// The appearance of one axis. `tick_step` is in the units of the data.
#[derive(Clone, Copy, Debug, PartialEq, Eq)]
pub struct AxisStyle {
    pub tick_step: i32,
    pub tick_style: TickStyle,
    pub end_point_style: GraphEndPointStyle,
    pub line_thickness: i32,
    pub line_color: Color,
}

impl AxisStyle {
    /// The style of an axis that was given none.
    pub open spec fn plain() -> AxisStyle {
        AxisStyle {
            tick_step: 1,
            tick_style: TickStyle::Nothing,
            end_point_style: GraphEndPointStyle::Arrow { thickness: 7 },
            line_thickness: 3,
            line_color: white(),
        }
    }
}

impl Default for AxisStyle {
    fn default() -> (s: Self)
        ensures
            s == AxisStyle::plain(),
    {
        AxisStyle {
            tick_step: 1,
            tick_style: TickStyle::Nothing,
            end_point_style: GraphEndPointStyle::Arrow { thickness: 7 },
            line_thickness: 3,
            line_color: white(),
        }
    }
}

/// The appearance of both axes.
#[derive(Clone, Copy, Debug, PartialEq, Eq)]
pub struct GraphStyle {
    pub x_style: AxisStyle,
    pub y_style: AxisStyle,
}

impl GraphStyle {
    /// The style of a graph that was given none.
    pub open spec fn plain() -> GraphStyle {
        GraphStyle { x_style: AxisStyle::plain(), y_style: AxisStyle::plain() }
    }
}

impl Default for GraphStyle {
    fn default() -> (s: Self)
        ensures
            s == GraphStyle::plain(),
    {
        GraphStyle { x_style: AxisStyle::default(), y_style: AxisStyle::default() }
    }
}

/// The direction of the axis that a tick sits on.
#[derive(Clone, Copy, Debug, PartialEq, Eq)]
pub enum Orientation {
    Horizontal,
    Vertical,
}

/// The stroke across the axis at `pos`: upright on a horizontal axis, level on
/// a vertical one, and `style.length` long from end to end. Where the length
/// is odd, the end above or to the right of the axis is the further one.
pub open spec fn marker_command(
    pos: WorldPoint,
    orientation: Orientation,
    style: MarkerStyle,
) -> DrawCommand {
    let near = half(style.length as int);
    let far = style.length - near;
    match orientation {
        Orientation::Horizontal => DrawCommand::Line {
            from: WorldPoint::at(pos.x as int, pos.y + far),
            to: WorldPoint::at(pos.x as int, pos.y - near),
            thickness: style.thickness,
            color: style.color,
        },
        Orientation::Vertical => DrawCommand::Line {
            from: WorldPoint::at(pos.x + far, pos.y as int),
            to: WorldPoint::at(pos.x - near, pos.y as int),
            thickness: style.thickness,
            color: style.color,
        },
    }
}

/// The number beside the tick at `pos`: moved by the style's own offset, and
/// then below a horizontal axis by half of [`LABEL_GAP`], or to the left of a
/// vertical one by all of it.
pub open spec fn label_command(
    pos: WorldPoint,
    value: i32,
    orientation: Orientation,
    style: LabelStyle,
) -> DrawCommand {
    let at = match orientation {
        Orientation::Horizontal => WorldPoint::at(
            pos.x + style.pos_offset.x,
            pos.y + style.pos_offset.y - LABEL_GAP / 2,
        ),
        Orientation::Vertical => WorldPoint::at(
            pos.x + style.pos_offset.x - LABEL_GAP,
            pos.y + style.pos_offset.y,
        ),
    };
    DrawCommand::Label {
        value,
        unit: style.unit,
        pos: at,
        font_size: style.font_size,
        decimal_places: style.decimal_places,
        color: style.color,
    }
}

/// Everything drawn for one tick: the marker first, then the label, each only
/// if the style has it.
pub open spec fn tick_commands(
    pos: WorldPoint,
    value: i32,
    orientation: Orientation,
    style: TickStyle,
) -> Seq<DrawCommand> {
    match style {
        TickStyle::LabelAndMarker { label_style, marker_style } => seq![
            marker_command(pos, orientation, marker_style),
            label_command(pos, value, orientation, label_style),
        ],
        TickStyle::Marker { style } => seq![marker_command(pos, orientation, style)],
        TickStyle::Label { style } => seq![label_command(pos, value, orientation, style)],
        TickStyle::Nothing => Seq::empty(),
    }
}

fn draw_marker(pos: WorldPoint, orientation: Orientation, style: MarkerStyle) -> (c: DrawCommand)
    requires
        pos.in_reach(),
    ensures
        c == marker_command(pos, orientation, style),
{
    let near: i64 = (style.length / 2) as i64;
    let far: i64 = style.length as i64 - near;
    match orientation {
        Orientation::Horizontal => DrawCommand::Line {
            from: WorldPoint { x: pos.x, y: pos.y + far },
            to: WorldPoint { x: pos.x, y: pos.y - near },
            thickness: style.thickness,
            color: style.color,
        },
        Orientation::Vertical => DrawCommand::Line {
            from: WorldPoint { x: pos.x + far, y: pos.y },
            to: WorldPoint { x: pos.x - near, y: pos.y },
            thickness: style.thickness,
            color: style.color,
        },
    }
}

fn draw_label(pos: WorldPoint, value: i32, orientation: Orientation, style: LabelStyle) -> (c:
    DrawCommand)
    requires
        pos.in_reach(),
    ensures
        c == label_command(pos, value, orientation, style),
{
    let at = match orientation {
        Orientation::Horizontal => WorldPoint {
            x: pos.x + style.pos_offset.x as i64,
            y: pos.y + style.pos_offset.y as i64 - LABEL_GAP / 2,
        },
        Orientation::Vertical => WorldPoint {
            x: pos.x + style.pos_offset.x as i64 - LABEL_GAP,
            y: pos.y + style.pos_offset.y as i64,
        },
    };
    DrawCommand::Label {
        value,
        unit: style.unit,
        pos: at,
        font_size: style.font_size,
        decimal_places: style.decimal_places,
        color: style.color,
    }
}

/// The drawing of one tick of an axis of the given orientation, at world
/// position `pos`, for the data value `value`.
pub fn draw_tick(pos: WorldPoint, value: i32, orientation: Orientation, style: TickStyle) -> (out:
    Vec<DrawCommand>)
    requires
        pos.in_reach(),
    ensures
        out@ == tick_commands(pos, value, orientation, style),
{
    let mut out: Vec<DrawCommand> = Vec::new();
    match style {
        TickStyle::LabelAndMarker { label_style, marker_style } => {
            out.push(draw_marker(pos, orientation, marker_style));
            out.push(draw_label(pos, value, orientation, label_style));
        },
        TickStyle::Marker { style } => {
            out.push(draw_marker(pos, orientation, style));
        },
        TickStyle::Label { style } => {
            out.push(draw_label(pos, value, orientation, style));
        },
        TickStyle::Nothing => {},
    }
    out
}

/// The character of the decimal digit `d`.
pub open spec fn digit(d: int) -> char {
    (48 + d) as char
}

/// The decimal digits of `n`, the first of them not 0 unless `n` is.
pub open spec fn digits(n: nat) -> Seq<char>
    decreases n,
{
    if n < 10 {
        seq![digit(n as int)]
    } else {
        digits(n / 10).push(digit((n % 10) as int))
    }
}

/// The most decimals that a label can have: with more, a value scaled by
/// their power of ten would not fit 128 bits.
pub const MAX_DECIMAL_PLACES: usize = 27;

/// Ten to the power of `places`.
pub open spec fn pow10(places: nat) -> nat
    decreases places,
{
    if places == 0 {
        1
    } else {
        10 * pow10((places - 1) as nat)
    }
}

/// The last `places` decimal digits of `n`, with zeros in front where `n` has
/// fewer.
pub open spec fn fixed_digits(n: nat, places: nat) -> Seq<char>
    decreases places,
{
    if places == 0 {
        Seq::empty()
    } else {
        fixed_digits(n / 10, (places - 1) as nat).push(digit((n % 10) as int))
    }
}

/// `size / unit` in units of the last of `places` decimals, rounded to the
/// nearest whole number, and to the even one of two that are equally near.
pub open spec fn rounded(size: nat, unit: nat, places: nat) -> nat {
    let scaled = size * pow10(places);
    let whole = scaled / unit;
    let rest = scaled % unit;
    if 2 * rest > unit || (2 * rest == unit && whole % 2 == 1) {
        whole + 1
    } else {
        whole
    }
}

/// The text of a label: the number `value / unit` in decimal notation,
/// rounded to `places` decimals, with a minus sign if `value` is negative,
/// and with a point and the decimals after the whole part if `places` is not
/// 0.
pub open spec fn label_chars(value: int, unit: nat, places: nat) -> Seq<char> {
    let size: nat = if value < 0 {
        (-value) as nat
    } else {
        value as nat
    };
    let number = rounded(size, unit, places);
    (if value < 0 {
        seq!['-']
    } else {
        Seq::empty()
    }) + digits(number / pow10(places)) + (if places == 0 {
        Seq::empty()
    } else {
        seq!['.'] + fixed_digits(number % pow10(places), places)
    })
}

/// A power of ten is at least 1, and no more than a higher one.
pub proof fn lemma_pow10_grows(low: nat, high: nat)
    requires
        low <= high,
    ensures
        1 <= pow10(low) <= pow10(high),
    decreases high,
{
    if low < high {
        lemma_pow10_grows(low, (high - 1) as nat);
    } else if low > 0 {
        lemma_pow10_grows((low - 1) as nat, (high - 1) as nat);
    }
}

fn digit_char(d: u128) -> (c: char)
    requires
        d < 10,
    ensures
        c == digit(d as int),
{
    (48u8 + d as u8) as char
}

fn push_digits(n: u128, out: &mut Vec<char>)
    ensures
        final(out)@ == old(out)@ + digits(n as nat),
    decreases n,
{
    if n >= 10 {
        push_digits(n / 10, out);
    }
    out.push(digit_char(n % 10));
}

fn push_fixed_digits(n: u128, places: usize, out: &mut Vec<char>)
    ensures
        final(out)@ == old(out)@ + fixed_digits(n as nat, places as nat),
    decreases places,
{
    if places > 0 {
        push_fixed_digits(n / 10, places - 1, out);
        out.push(digit_char(n % 10));
    }
}

fn power_of_ten(places: usize) -> (power: u128)
    requires
        places <= MAX_DECIMAL_PLACES,
    ensures
        power == pow10(places as nat),
        1 <= power <= 1_000_000_000_000_000_000_000_000_000,
{
    proof {
        reveal_with_fuel(pow10, 28);
        assert(pow10(27) == 1_000_000_000_000_000_000_000_000_000);
    }
    let mut power: u128 = 1;
    let mut done: usize = 0;
    while done < places
        invariant
            done <= places <= MAX_DECIMAL_PLACES,
            power == pow10(done as nat),
            pow10(27) == 1_000_000_000_000_000_000_000_000_000,
        decreases places - done,
    {
        proof {
            lemma_pow10_grows((done + 1) as nat, 27);
        }
        power = power * 10;
        done = done + 1;
    }
    proof {
        lemma_pow10_grows(places as nat, 27);
    }
    power
}

/// The text of the label of a tick at `value`, where `unit` units of the data
/// make one.
pub fn label_text(value: i32, unit: u32, decimal_places: usize) -> (text: Vec<char>)
    requires
        unit > 0,
        decimal_places <= MAX_DECIMAL_PLACES,
    ensures
        text@ == label_chars(value as int, unit as nat, decimal_places as nat),
{
    let size: u128 = if value < 0 {
        (-(value as i64)) as u128
    } else {
        value as u128
    };
    let power: u128 = power_of_ten(decimal_places);
    assert(size * power <= 0x8000_0000 * 1_000_000_000_000_000_000_000_000_000)
        by (nonlinear_arith)
        requires
            size <= 0x8000_0000,
            power <= 1_000_000_000_000_000_000_000_000_000,
    ;
    let scaled: u128 = size * power;
    let whole: u128 = scaled / (unit as u128);
    let rest: u128 = scaled % (unit as u128);
    let number: u128 = if 2 * rest > unit as u128 || (2 * rest == unit as u128 && whole % 2 == 1) {
        whole + 1
    } else {
        whole
    };
    let mut text: Vec<char> = Vec::new();
    if value < 0 {
        text.push('-');
    }
    push_digits(number / power, &mut text);
    if decimal_places > 0 {
        text.push('.');
        push_fixed_digits(number % power, decimal_places, &mut text);
    }
    text
}

/// Where the ticks of an axis start: at zero if the domain holds it, else at
/// the end of the domain that lies nearer to zero.
pub open spec fn tick_start(start: int, end: int) -> int {
    if start <= 0 < end {
        0
    } else if start < 0 && end < 0 {
        end
    } else {
        start
    }
}

/// How many steps away from the start ticks are looked for: the length of the
/// domain divided by the step and rounded up, and one more if the domain
/// begins or ends at zero. A step that is not positive gives no ticks.
pub open spec fn tick_count(start: int, end: int, step: int) -> int {
    if step <= 0 || end <= start {
        0
    } else {
        (end - start + step - 1) / step + if start == 0 || end == 0 {
            1int
        } else {
            0int
        }
    }
}

/// Whether the tick at `value`, reached by `k` steps down from the start, is
/// kept: it must not lie below the domain, and it must not be the tick at the
/// start over again.
pub open spec fn keeps_below(k: int, value: int, start: int) -> bool {
    k > 0 && value >= start
}

/// The ticks found within the first `n` steps, in the order in which they are
/// drawn: for each step the tick above the start, if it is not beyond the
/// domain, and then the tick below it, if it is kept. No value comes twice.
pub open spec fn ticks_within(start: int, end: int, step: int, n: nat) -> Seq<i32>
    decreases n,
{
    if n == 0 {
        Seq::empty()
    } else {
        let k = n - 1;
        let above = tick_start(start, end) + k * step;
        let below = tick_start(start, end) - k * step;
        ticks_within(start, end, step, k as nat) + (if above <= end {
            seq![above as i32]
        } else {
            Seq::empty()
        }) + (if keeps_below(k, below, start) {
            seq![below as i32]
        } else {
            Seq::empty()
        })
    }
}

/// The ticks of an axis over the domain from `start` to `end`.
pub open spec fn ticks_of(start: int, end: int, step: int) -> Seq<i32> {
    ticks_within(start, end, step, tick_count(start, end, step) as nat)
}

/// Every tick lies within the domain.
pub proof fn lemma_ticks_in_domain(start: int, end: int, step: int, n: nat)
    requires
        i32::MIN <= start < end <= i32::MAX,
        step > 0,
    ensures
        forall|i: int|
            0 <= i < ticks_within(start, end, step, n).len() ==> start <= (#[trigger] ticks_within(
                start,
                end,
                step,
                n,
            )[i]) <= end,
    decreases n,
{
    if n > 0 {
        let k = n - 1;
        lemma_ticks_in_domain(start, end, step, k as nat);
        assert(k * step >= 0) by (nonlinear_arith)
            requires
                k >= 0,
                step > 0,
        ;
        let earlier = ticks_within(start, end, step, k as nat);
        let above = tick_start(start, end) + k * step;
        let below = tick_start(start, end) - k * step;
        let up: Seq<i32> = if above <= end {
            seq![above as i32]
        } else {
            Seq::empty()
        };
        let down: Seq<i32> = if keeps_below(k, below, start) {
            seq![below as i32]
        } else {
            Seq::empty()
        };
        let all = ticks_within(start, end, step, n);
        assert(all == earlier + up + down);
        assert forall|i: int| 0 <= i < all.len() implies start <= (#[trigger] all[i]) <= end by {
            if i < earlier.len() {
                assert(all[i] == earlier[i]);
            } else if i < earlier.len() + up.len() {
                assert(all[i] == up[i - earlier.len()]);
            } else {
                assert(all[i] == down[i - earlier.len() - up.len()]);
            }
        }
    }
}

/// No tick comes twice: the ticks found within `n` steps lie less than `n`
/// steps from the start, and differ from one another.
pub proof fn lemma_ticks_differ(start: int, end: int, step: int, n: nat)
    requires
        i32::MIN <= start < end <= i32::MAX,
        step > 0,
    ensures
        forall|i: int|
            0 <= i < ticks_within(start, end, step, n).len() ==> tick_start(start, end) - n * step
                < (#[trigger] ticks_within(start, end, step, n)[i]) < tick_start(start, end) + n
                * step,
        forall|i: int, j: int|
            0 <= i < j < ticks_within(start, end, step, n).len() ==> ticks_within(
                start,
                end,
                step,
                n,
            )[i] != ticks_within(start, end, step, n)[j],
    decreases n,
{
    if n > 0 {
        let k = n - 1;
        lemma_ticks_differ(start, end, step, k as nat);
        lemma_ticks_in_domain(start, end, step, n);
        assert(k * step >= 0 && n * step == k * step + step && (k > 0 ==> k * step > 0))
            by (nonlinear_arith)
            requires
                k >= 0,
                step > 0,
                n == k + 1,
        ;
        let first = tick_start(start, end);
        let earlier = ticks_within(start, end, step, k as nat);
        let above = first + k * step;
        let below = first - k * step;
        let up: Seq<i32> = if above <= end {
            seq![above as i32]
        } else {
            Seq::empty()
        };
        let down: Seq<i32> = if keeps_below(k, below, start) {
            seq![below as i32]
        } else {
            Seq::empty()
        };
        let all = ticks_within(start, end, step, n);
        assert(all == earlier + up + down);
        assert forall|i: int| 0 <= i < all.len() implies first - n * step < (#[trigger] all[i])
            < first + n * step by {
            if i < earlier.len() {
                assert(all[i] == earlier[i]);
            } else if i < earlier.len() + up.len() {
                assert(all[i] == up[i - earlier.len()]);
            } else {
                assert(all[i] == down[i - earlier.len() - up.len()]);
            }
        }
        assert forall|i: int, j: int| 0 <= i < j < all.len() implies all[i] != all[j] by {
            if j < earlier.len() {
                assert(all[i] == earlier[i] && all[j] == earlier[j]);
            } else if i < earlier.len() {
                assert(all[i] == earlier[i]);
                if j < earlier.len() + up.len() {
                    assert(all[j] == up[j - earlier.len()]);
                } else {
                    assert(all[j] == down[j - earlier.len() - up.len()]);
                }
            } else {
                assert(all[i] == up[i - earlier.len()]);
                assert(all[j] == down[j - earlier.len() - up.len()]);
            }
        }
    }
}

/// The values at which an axis over the domain from `start` to `end` has its
/// ticks, `step` apart.
pub fn tick_values(start: i32, end: i32, step: i32) -> (ticks: Vec<i32>)
    ensures
        ticks@ == ticks_of(start as int, end as int, step as int),
        forall|i: int| 0 <= i < ticks.len() ==> start <= #[trigger] ticks[i] <= end,
        forall|i: int, j: int| 0 <= i < j < ticks.len() ==> ticks[i] != ticks[j],
{
    let mut ticks: Vec<i32> = Vec::new();
    if step <= 0 || end <= start {
        return ticks;
    }
    let first: i128 = if start <= 0 && 0 < end {
        0
    } else if start < 0 && end < 0 {
        end as i128
    } else {
        start as i128
    };
    let span: i128 = end as i128 - start as i128;
    let extra: i128 = if start == 0 || end == 0 {
        1
    } else {
        0
    };
    let count: i128 = (span + step as i128 - 1) / (step as i128) + extra;
    assert(0 <= (span + step - 1) / (step as int) <= span + step - 1) by (nonlinear_arith)
        requires
            span + step - 1 >= 0,
            step >= 1,
    ;
    let mut k: i128 = 0;
    while k < count
        invariant
            0 <= k <= count,
            count <= 0x2_0000_0000,
            step > 0,
            start < end,
            first == tick_start(start as int, end as int),
            count == tick_count(start as int, end as int, step as int),
            ticks@ == ticks_within(start as int, end as int, step as int, k as nat),
        decreases count - k,
    {
        assert(0 <= k * step <= 0x2_0000_0000 * 0x8000_0000) by (nonlinear_arith)
            requires
                0 <= k <= 0x2_0000_0000,
                0 < step <= 0x8000_0000,
        ;
        let above: i128 = first + k * (step as i128);
        let below: i128 = first - k * (step as i128);
        if above <= end as i128 {
            ticks.push(above as i32);
        }
        if k > 0 && below >= start as i128 {
            ticks.push(below as i32);
        }
        k = k + 1;
    }
    proof {
        lemma_ticks_in_domain(start as int, end as int, step as int, count as nat);
        lemma_ticks_differ(start as int, end as int, step as int, count as nat);
    }
    ticks
}

/// What a [`Graph`] is made from: where it lies in world space, which data
/// values it spans, and how it looks.
pub struct GraphView {
    pub world_center_pos: Vec2,
    pub world_size: Vec2,
    pub x_range: Range<i32>,
    pub y_range: Range<i32>,
    pub style: GraphStyle,
}

/// Where the origin of the data lies along one axis whose domain runs from
/// `start` to `end` and is laid onto `[low, high]`: at the image of zero, but
/// at `low` if the domain neither holds zero nor ends at it.
pub open spec fn axis_origin(start: int, end: int, low: int, high: int) -> int {
    if !(start <= 0 < end) && end != 0 {
        low
    } else {
        map_value(0, start, end, low, high)
    }
}

impl GraphView {
    /// The left edge of the graph's box.
    pub open spec fn min_x(self) -> int {
        self.world_center_pos.x - half(self.world_size.x as int)
    }

    /// The right edge of the graph's box.
    pub open spec fn max_x(self) -> int {
        self.world_center_pos.x + half(self.world_size.x as int)
    }

    /// The lower edge of the graph's box.
    pub open spec fn min_y(self) -> int {
        self.world_center_pos.y - half(self.world_size.y as int)
    }

    /// The upper edge of the graph's box.
    pub open spec fn max_y(self) -> int {
        self.world_center_pos.y + half(self.world_size.y as int)
    }

    /// Whether both domains begin below their end and the four edges of the
    /// box are 32-bit coordinates.
    pub open spec fn valid(self) -> bool {
        &&& self.x_range.start < self.x_range.end
        &&& self.y_range.start < self.y_range.end
        &&& edges_fit(self.world_center_pos.x as int, self.world_size.x as int)
        &&& edges_fit(self.world_center_pos.y as int, self.world_size.y as int)
    }

    /// The graph of the given placement and domains in the plain style.
    pub open spec fn plain(
        world_center_pos: Vec2,
        world_size: Vec2,
        x_range: Range<i32>,
        y_range: Range<i32>,
    ) -> GraphView {
        GraphView { world_center_pos, world_size, x_range, y_range, style: GraphStyle::plain() }
    }

    /// The world coordinate of the data value `x`.
    pub open spec fn to_world_x(self, x: int) -> int {
        map_value(x, self.x_range.start as int, self.x_range.end as int, self.min_x(), self.max_x())
    }

    /// The world coordinate of the data value `y`.
    pub open spec fn to_world_y(self, y: int) -> int {
        map_value(y, self.y_range.start as int, self.y_range.end as int, self.min_y(), self.max_y())
    }

    /// The world position of the data point `pt`: each axis is interpolated
    /// on its own, from the domain onto the box.
    pub open spec fn to_world(self, pt: Vec2) -> WorldPoint {
        WorldPoint::at(self.to_world_x(pt.x as int), self.to_world_y(pt.y as int))
    }

    /// Where the two axes cross.
    pub open spec fn axes_origin(self) -> WorldPoint {
        WorldPoint::at(
            axis_origin(
                self.x_range.start as int,
                self.x_range.end as int,
                self.min_x(),
                self.max_x(),
            ),
            axis_origin(
                self.y_range.start as int,
                self.y_range.end as int,
                self.min_y(),
                self.max_y(),
            ),
        )
    }

    /// Whether `p` lies in the graph's box, edges included.
    pub open spec fn in_box(self, p: WorldPoint) -> bool {
        &&& p.x >= self.min_x()
        &&& p.y >= self.min_y()
        &&& p.x <= self.max_x()
        &&& p.y <= self.max_y()
    }

    /// What is drawn for the segment from `a` to `b`: the whole segment if
    /// either end lies in the box, and nothing otherwise. Nothing is cut off
    /// at the edge of the box.
    pub open spec fn segment(self, a: WorldPoint, b: WorldPoint, thickness: i32, color: Color)
        -> Option<DrawCommand> {
        if self.in_box(a) || self.in_box(b) {
            Some(DrawCommand::Line { from: a, to: b, thickness, color })
        } else {
            None
        }
    }

    /// What is drawn for the data point `pt`: a disc at its world position if
    /// that lies in the box, and nothing otherwise.
    pub open spec fn dot(self, pt: Vec2, radius: i32, color: Color) -> Option<DrawCommand> {
        if self.in_box(self.to_world(pt)) {
            Some(DrawCommand::Circle { center: self.to_world(pt), radius: radius as i64, color })
        } else {
            None
        }
    }
}

impl GraphView {
    /// How many segments a line through `len` points has.
    pub open spec fn segments(len: nat) -> nat {
        if len == 0 {
            0
        } else {
            (len - 1) as nat
        }
    }

    /// What is drawn for the first `n` segments of the line through the data
    /// points `pts`, in their order.
    pub open spec fn polyline(self, pts: Seq<Vec2>, n: nat, thickness: i32, color: Color) -> Seq<
        DrawCommand,
    >
        decreases n,
    {
        if n == 0 {
            Seq::empty()
        } else {
            let i = n - 1;
            let earlier = self.polyline(pts, i as nat, thickness, color);
            match self.segment(self.to_world(pts[i]), self.to_world(pts[i + 1]), thickness, color) {
                Some(line) => earlier.push(line),
                None => earlier,
            }
        }
    }

    /// The data point of a tick at `value` on the axis of the given
    /// orientation: on the x axis for a horizontal one, on the y axis for a
    /// vertical one.
    pub open spec fn tick_point(value: i32, orientation: Orientation) -> Vec2 {
        match orientation {
            Orientation::Horizontal => Vec2 { x: value, y: 0 },
            Orientation::Vertical => Vec2 { x: 0, y: value },
        }
    }

    /// The world position of a tick at `value` on the axis of the given
    /// orientation: that of its data point, wherever the axis line is drawn.
    pub open spec fn tick_position(self, value: i32, orientation: Orientation) -> WorldPoint {
        self.to_world(Self::tick_point(value, orientation))
    }

    /// The tick style of the axis of the given orientation.
    pub open spec fn tick_style(self, orientation: Orientation) -> TickStyle {
        match orientation {
            Orientation::Horizontal => self.style.x_style.tick_style,
            Orientation::Vertical => self.style.y_style.tick_style,
        }
    }

    /// What is drawn for the ticks at `values` on one axis, in their order.
    pub open spec fn axis_ticks(self, values: Seq<i32>, orientation: Orientation) -> Seq<
        DrawCommand,
    >
        decreases values.len(),
    {
        if values.len() == 0 {
            Seq::empty()
        } else {
            self.axis_ticks(values.drop_last(), orientation) + tick_commands(
                self.tick_position(values.last(), orientation),
                values.last(),
                orientation,
                self.tick_style(orientation),
            )
        }
    }

    /// The ticks along the x axis.
    pub open spec fn x_ticks(self) -> Seq<i32> {
        ticks_of(
            self.x_range.start as int,
            self.x_range.end as int,
            self.style.x_style.tick_step as int,
        )
    }

    /// The ticks along the y axis.
    pub open spec fn y_ticks(self) -> Seq<i32> {
        ticks_of(
            self.y_range.start as int,
            self.y_range.end as int,
            self.style.y_style.tick_step as int,
        )
    }

    /// What is drawn for the ticks of both axes: those of the x axis first.
    /// Nothing at all where neither axis has a tick style.
    pub open spec fn ticks(self) -> Seq<DrawCommand> {
        if self.style.x_style.tick_style is Nothing && self.style.y_style.tick_style is Nothing {
            Seq::empty()
        } else {
            self.axis_ticks(self.x_ticks(), Orientation::Horizontal) + self.axis_ticks(
                self.y_ticks(),
                Orientation::Vertical,
            )
        }
    }

    /// The world position of the data origin, wherever it falls.
    pub open spec fn zero(self) -> WorldPoint {
        self.to_world(Vec2 { x: 0, y: 0 })
    }

    /// The arrowheads of the x axis: one pointing away from each end of the
    /// axis line, `thickness` long and twice as wide, in the line colour of
    /// the axis. An end at which the data origin lies has none.
    pub open spec fn x_arrows(self) -> Seq<DrawCommand> {
        match self.style.x_style.end_point_style {
            GraphEndPointStyle::Arrow { thickness } => {
                let origin = self.axes_origin();
                let color = self.style.x_style.line_color;
                (if self.min_x() != self.zero().x {
                    seq![
                        DrawCommand::Triangle {
                            v1: WorldPoint::at(self.min_x() - thickness, origin.y as int),
                            v2: WorldPoint::at(self.min_x(), origin.y + thickness),
                            v3: WorldPoint::at(self.min_x(), origin.y - thickness),
                            color,
                        },
                    ]
                } else {
                    Seq::empty()
                }) + (if self.max_x() != self.zero().x {
                    seq![
                        DrawCommand::Triangle {
                            v1: WorldPoint::at(self.max_x() + thickness, origin.y as int),
                            v2: WorldPoint::at(self.max_x(), origin.y + thickness),
                            v3: WorldPoint::at(self.max_x(), origin.y - thickness),
                            color,
                        },
                    ]
                } else {
                    Seq::empty()
                })
            },
            GraphEndPointStyle::Nothing => Seq::empty(),
        }
    }

    /// The arrowheads of the y axis, likewise.
    pub open spec fn y_arrows(self) -> Seq<DrawCommand> {
        match self.style.y_style.end_point_style {
            GraphEndPointStyle::Arrow { thickness } => {
                let origin = self.axes_origin();
                let color = self.style.y_style.line_color;
                (if self.min_y() != self.zero().y {
                    seq![
                        DrawCommand::Triangle {
                            v1: WorldPoint::at(origin.x as int, self.min_y() - thickness),
                            v2: WorldPoint::at(origin.x + thickness, self.min_y()),
                            v3: WorldPoint::at(origin.x - thickness, self.min_y()),
                            color,
                        },
                    ]
                } else {
                    Seq::empty()
                }) + (if self.max_y() != self.zero().y {
                    seq![
                        DrawCommand::Triangle {
                            v1: WorldPoint::at(origin.x as int, self.max_y() + thickness),
                            v2: WorldPoint::at(origin.x + thickness, self.max_y()),
                            v3: WorldPoint::at(origin.x - thickness, self.max_y()),
                            color,
                        },
                    ]
                } else {
                    Seq::empty()
                })
            },
            GraphEndPointStyle::Nothing => Seq::empty(),
        }
    }

    /// The arrowheads of both axes: those of the x axis first.
    pub open spec fn end_points(self) -> Seq<DrawCommand> {
        self.x_arrows() + self.y_arrows()
    }

    /// The two axis lines, each in the line style of its axis: the x axis
    /// through the origin from the left edge of the box to the right, and the
    /// y axis from the lower edge to the upper.
    pub open spec fn axis_lines(self) -> Seq<DrawCommand> {
        let origin = self.axes_origin();
        seq![
            DrawCommand::Line {
                from: WorldPoint::at(self.min_x(), origin.y as int),
                to: WorldPoint::at(self.max_x(), origin.y as int),
                thickness: self.style.x_style.line_thickness,
                color: self.style.x_style.line_color,
            },
            DrawCommand::Line {
                from: WorldPoint::at(origin.x as int, self.min_y()),
                to: WorldPoint::at(origin.x as int, self.max_y()),
                thickness: self.style.y_style.line_thickness,
                color: self.style.y_style.line_color,
            },
        ]
    }

    /// The whole drawing of the axes: the lines, the arrowheads, the ticks.
    pub open spec fn axes(self) -> Seq<DrawCommand> {
        self.axis_lines() + self.end_points() + self.ticks()
    }
}

/// A segment with both ends outside the box is not drawn; one with an end in
/// the box is drawn once, from one end as given to the other, uncut.
pub proof fn lemma_segment_policy(
    graph: GraphView,
    a: WorldPoint,
    b: WorldPoint,
    thickness: i32,
    color: Color,
)
    ensures
        !graph.in_box(a) && !graph.in_box(b) ==> graph.segment(a, b, thickness, color) is None,
        graph.in_box(a) || graph.in_box(b) ==> graph.segment(a, b, thickness, color) == Some(
            DrawCommand::Line { from: a, to: b, thickness, color },
        ),
{
}

/// A line is drawn with at most one stroke for each pair of neighbouring
/// points, and with none where no point falls in the box.
pub proof fn lemma_polyline_policy(
    graph: GraphView,
    pts: Seq<Vec2>,
    n: nat,
    thickness: i32,
    color: Color,
)
    requires
        n < pts.len() || n == 0,
    ensures
        graph.polyline(pts, n, thickness, color).len() <= n,
        (forall|i: int| 0 <= i < pts.len() ==> !graph.in_box(graph.to_world(#[trigger] pts[i])))
            ==> graph.polyline(pts, n, thickness, color).len() == 0,
    decreases n,
{
    if n > 0 {
        lemma_polyline_policy(graph, pts, (n - 1) as nat, thickness, color);
    }
}

/// The data points whose coordinates are listed in `x` and `y`, as many as
/// both lists have.
pub open spec fn zip_points(x: Seq<i32>, y: Seq<i32>) -> Seq<Vec2> {
    Seq::new(
        if x.len() <= y.len() {
            x.len()
        } else {
            y.len()
        },
        |i: int| Vec2 { x: x[i], y: y[i] },
    )
}

/// A graph placed in world space.
pub struct Graph {
    world_center_pos: Vec2,
    world_size: Vec2,
    x_range: Range<i32>,
    y_range: Range<i32>,
    style: GraphStyle,
    world_min_coords: Vec2,
    world_max_coords: Vec2,
    axes_pos: WorldPoint,
}

impl View for Graph {
    type V = GraphView;

    closed spec fn view(&self) -> GraphView {
        GraphView {
            world_center_pos: self.world_center_pos,
            world_size: self.world_size,
            x_range: self.x_range,
            y_range: self.y_range,
            style: self.style,
        }
    }
}

impl Graph {
    #[verifier::type_invariant]
    spec fn well_formed(self) -> bool {
        &&& self@.valid()
        &&& self.world_min_coords.x == self@.min_x()
        &&& self.world_min_coords.y == self@.min_y()
        &&& self.world_max_coords.x == self@.max_x()
        &&& self.world_max_coords.y == self@.max_y()
        &&& self.axes_pos == self@.axes_origin()
    }

    /// A graph centred on `world_center_pos` and `world_size` large, spanning
    /// the data values of `x_range` and `y_range`, in the plain style. Each
    /// range must begin below its end.
    pub fn new(world_center_pos: Vec2, world_size: Vec2, x_range: Range<i32>, y_range: Range<i32>)
        -> (graph: Self)
        requires
            GraphView::plain(world_center_pos, world_size, x_range, y_range).valid(),
        ensures
            graph@ == GraphView::plain(world_center_pos, world_size, x_range, y_range),
    {
        let world_min_coords = Vec2 {
            x: (world_center_pos.x as i64 - (world_size.x / 2) as i64) as i32,
            y: (world_center_pos.y as i64 - (world_size.y / 2) as i64) as i32,
        };
        let world_max_coords = Vec2 {
            x: (world_center_pos.x as i64 + (world_size.x / 2) as i64) as i32,
            y: (world_center_pos.y as i64 + (world_size.y / 2) as i64) as i32,
        };
        let zero_x = project(
            0,
            x_range.start,
            x_range.end,
            world_min_coords.x,
            world_max_coords.x,
        );
        let zero_y = project(
            0,
            y_range.start,
            y_range.end,
            world_min_coords.y,
            world_max_coords.y,
        );
        let mut axes_pos = WorldPoint { x: zero_x, y: zero_y };
        if !(y_range.start <= 0 && 0 < y_range.end) && y_range.end != 0 {
            axes_pos.y = world_min_coords.y as i64;
        }
        if !(x_range.start <= 0 && 0 < x_range.end) && x_range.end != 0 {
            axes_pos.x = world_min_coords.x as i64;
        }
        Graph {
            world_center_pos,
            world_size,
            x_range,
            y_range,
            style: GraphStyle::default(),
            world_min_coords,
            world_max_coords,
            axes_pos,
        }
    }

    /// [`Graph::new`] for a caller that cannot tell beforehand whether the
    /// graph can be built: `None` where a range does not begin below its end,
    /// or an edge of the box is no 32-bit coordinate.
    pub fn try_new(
        world_center_pos: Vec2,
        world_size: Vec2,
        x_range: Range<i32>,
        y_range: Range<i32>,
    ) -> (built: Option<Self>)
        ensures
            built is Some <==> GraphView::plain(
                world_center_pos,
                world_size,
                x_range,
                y_range,
            ).valid(),
            built matches Some(graph) ==> graph@ == GraphView::plain(
                world_center_pos,
                world_size,
                x_range,
                y_range,
            ),
    {
        if x_range.start < x_range.end && y_range.start < y_range.end && box_fits(
            world_center_pos,
            world_size,
        ) {
            Some(Graph::new(world_center_pos, world_size, x_range, y_range))
        } else {
            None
        }
    }

    /// The same graph in another style.
    pub fn style(self, style: GraphStyle) -> (graph: Self)
        ensures
            graph@ == (GraphView { style, ..self@ }),
    {
        proof {
            use_type_invariant(&self);
        }
        Graph {
            world_center_pos: self.world_center_pos,
            world_size: self.world_size,
            x_range: self.x_range,
            y_range: self.y_range,
            style,
            world_min_coords: self.world_min_coords,
            world_max_coords: self.world_max_coords,
            axes_pos: self.axes_pos,
        }
    }

    /// The centre of the graph's box.
    pub fn world_center_pos(&self) -> (center: Vec2)
        ensures
            center == self@.world_center_pos,
    {
        self.world_center_pos
    }

    /// The extent of the graph's box.
    pub fn world_size(&self) -> (size: Vec2)
        ensures
            size == self@.world_size,
    {
        self.world_size
    }

    /// Where the two axes cross.
    pub fn axes_pos(&self) -> (origin: WorldPoint)
        ensures
            origin == self@.axes_origin(),
    {
        proof {
            use_type_invariant(self);
        }
        self.axes_pos
    }

    /// The world position of the data point `pt`.
    pub fn graph_to_world(&self, pt: Vec2) -> (p: WorldPoint)
        ensures
            p == self@.to_world(pt),
            p.x == self@.to_world_x(pt.x as int),
            p.y == self@.to_world_y(pt.y as int),
    {
        proof {
            use_type_invariant(self);
        }
        WorldPoint {
            x: project(
                pt.x,
                self.x_range.start,
                self.x_range.end,
                self.world_min_coords.x,
                self.world_max_coords.x,
            ),
            y: project(
                pt.y,
                self.y_range.start,
                self.y_range.end,
                self.world_min_coords.y,
                self.world_max_coords.y,
            ),
        }
    }

    /// Whether the world position `pt` lies in the graph's box.
    pub fn world_pt_in_world_bb(&self, pt: &WorldPoint) -> (inside: bool)
        ensures
            inside == self@.in_box(*pt),
    {
        proof {
            use_type_invariant(self);
        }
        pt.x >= self.world_min_coords.x as i64 && pt.y >= self.world_min_coords.y as i64 && pt.x
            <= self.world_max_coords.x as i64 && pt.y <= self.world_max_coords.y as i64
    }

    /// The segment between two world positions, drawn whole if either end
    /// lies in the graph's box and left out if neither does.
    pub fn plot_line_world(&self, pt_a: &WorldPoint, pt_b: &WorldPoint, thickness: i32, color: Color)
        -> (drawn: Option<DrawCommand>)
        ensures
            drawn == self@.segment(*pt_a, *pt_b, thickness, color),
    {
        if !self.world_pt_in_world_bb(pt_a) && !self.world_pt_in_world_bb(pt_b) {
            return None;
        }
        Some(DrawCommand::Line { from: *pt_a, to: *pt_b, thickness, color })
    }

    /// A disc at the data point `pt`, left out if it falls outside the box.
    pub fn plot_pt_vec(&self, pt: &Vec2, radius: i32, color: Color) -> (drawn: Option<DrawCommand>)
        ensures
            drawn == self@.dot(*pt, radius, color),
    {
        let center = self.graph_to_world(*pt);
        if !self.world_pt_in_world_bb(&center) {
            return None;
        }
        Some(DrawCommand::Circle { center, radius: radius as i64, color })
    }

    /// A disc at the data point `(x, y)`, left out if it falls outside the box.
    pub fn plot_pt_xy(&self, x: i32, y: i32, radius: i32, color: Color) -> (drawn: Option<
        DrawCommand,
    >)
        ensures
            drawn == self@.dot(Vec2 { x, y }, radius, color),
    {
        let center = self.graph_to_world(Vec2 { x, y });
        if !self.world_pt_in_world_bb(&center) {
            return None;
        }
        Some(DrawCommand::Circle { center, radius: radius as i64, color })
    }

    /// The line through the data points `pts`: each segment between two
    /// neighbours is drawn whole if either of them falls in the box, and left
    /// out if neither does.
    pub fn plot_line_vec(&self, pts: &[Vec2], thickness: i32, color: Color) -> (out: Vec<
        DrawCommand,
    >)
        ensures
            out@ == self@.polyline(pts@, GraphView::segments(pts@.len()), thickness, color),
    {
        let mut out: Vec<DrawCommand> = Vec::new();
        if pts.len() == 0 {
            return out;
        }
        let last: usize = pts.len() - 1;
        let mut i: usize = 0;
        while i < last
            invariant
                last + 1 == pts@.len(),
                i <= last,
                out@ == self@.polyline(pts@, i as nat, thickness, color),
            decreases last - i,
        {
            let pt_a = self.graph_to_world(pts[i]);
            let pt_b = self.graph_to_world(pts[i + 1]);
            match self.plot_line_world(&pt_a, &pt_b, thickness, color) {
                Some(line) => {
                    out.push(line);
                },
                None => {},
            }
            i = i + 1;
        }
        out
    }

    /// The line through the data points whose coordinates are listed in `x`
    /// and `y`, as [`Graph::plot_line_vec`] draws it. Where one list is
    /// longer, what it holds beyond the other is not used.
    pub fn plot_line_xy(&self, x: &[i32], y: &[i32], thickness: i32, color: Color) -> (out: Vec<
        DrawCommand,
    >)
        ensures
            out@ == self@.polyline(
                zip_points(x@, y@),
                GraphView::segments(zip_points(x@, y@).len()),
                thickness,
                color,
            ),
    {
        let ghost pts = zip_points(x@, y@);
        let mut out: Vec<DrawCommand> = Vec::new();
        let len: usize = if x.len() <= y.len() {
            x.len()
        } else {
            y.len()
        };
        if len == 0 {
            return out;
        }
        let last: usize = len - 1;
        let mut i: usize = 0;
        while i < last
            invariant
                pts == zip_points(x@, y@),
                last + 1 == pts.len(),
                last < x@.len(),
                last < y@.len(),
                i <= last,
                out@ == self@.polyline(pts, i as nat, thickness, color),
            decreases last - i,
        {
            let pt_a = self.graph_to_world(Vec2 { x: x[i], y: y[i] });
            let pt_b = self.graph_to_world(Vec2 { x: x[i + 1], y: y[i + 1] });
            match self.plot_line_world(&pt_a, &pt_b, thickness, color) {
                Some(line) => {
                    out.push(line);
                },
                None => {},
            }
            i = i + 1;
        }
        out
    }

    /// The ticks of the axis of the given orientation.
    fn draw_axis_ticks(&self, orientation: Orientation) -> (out: Vec<DrawCommand>)
        ensures
            out@ == self@.axis_ticks(
                match orientation {
                    Orientation::Horizontal => self@.x_ticks(),
                    Orientation::Vertical => self@.y_ticks(),
                },
                orientation,
            ),
    {
        proof {
            use_type_invariant(self);
        }
        let (values, style) = match orientation {
            Orientation::Horizontal => (
                tick_values(self.x_range.start, self.x_range.end, self.style.x_style.tick_step),
                self.style.x_style.tick_style,
            ),
            Orientation::Vertical => (
                tick_values(self.y_range.start, self.y_range.end, self.style.y_style.tick_step),
                self.style.y_style.tick_style,
            ),
        };
        let mut out: Vec<DrawCommand> = Vec::new();
        let mut i: usize = 0;
        while i < values.len()
            invariant
                i <= values.len(),
                style == self@.tick_style(orientation),
                self@.valid(),
                forall|j: int|
                    0 <= j < values.len() ==> match orientation {
                        Orientation::Horizontal => self@.x_range.start <= #[trigger] values[j]
                            <= self@.x_range.end,
                        Orientation::Vertical => self@.y_range.start <= values[j]
                            <= self@.y_range.end,
                    },
                out@ == self@.axis_ticks(values@.subrange(0, i as int), orientation),
            decreases values.len() - i,
        {
            let value = values[i];
            let pt = match orientation {
                Orientation::Horizontal => Vec2 { x: value, y: 0 },
                Orientation::Vertical => Vec2 { x: 0, y: value },
            };
            let pos = self.graph_to_world(pt);
            proof {
                self@.lemma_world_bound(pt);
                assert(values@.subrange(0, i + 1).drop_last() == values@.subrange(0, i as int));
            }
            let mut drawn = draw_tick(pos, value, orientation, style);
            out.append(&mut drawn);
            i = i + 1;
        }
        proof {
            assert(values@.subrange(0, values@.len() as int) == values@);
        }
        out
    }

    /// The ticks of both axes, or nothing where neither has a tick style.
    fn draw_ticks(&self) -> (out: Vec<DrawCommand>)
        ensures
            out@ == self@.ticks(),
    {
        let mut out: Vec<DrawCommand> = Vec::new();
        let x_nothing = match self.style.x_style.tick_style {
            TickStyle::Nothing => true,
            _ => false,
        };
        let y_nothing = match self.style.y_style.tick_style {
            TickStyle::Nothing => true,
            _ => false,
        };
        if x_nothing && y_nothing {
            return out;
        }
        let mut along_x = self.draw_axis_ticks(Orientation::Horizontal);
        let mut along_y = self.draw_axis_ticks(Orientation::Vertical);
        out.append(&mut along_x);
        out.append(&mut along_y);
        out
    }

    /// The arrowheads at the ends of the axes.
    fn draw_axes_end_pts(&self) -> (out: Vec<DrawCommand>)
        ensures
            out@ == self@.end_points(),
    {
        proof {
            use_type_invariant(self);
            self@.lemma_origin_in_box();
        }
        let origin = self.axes_pos;
        let zero = self.graph_to_world(Vec2 { x: 0, y: 0 });
        let min_x = self.world_min_coords.x as i64;
        let max_x = self.world_max_coords.x as i64;
        let min_y = self.world_min_coords.y as i64;
        let max_y = self.world_max_coords.y as i64;
        let mut out: Vec<DrawCommand> = Vec::new();
        match self.style.x_style.end_point_style {
            GraphEndPointStyle::Arrow { thickness } => {
                let t = thickness as i64;
                if min_x != zero.x {
                    out.push(
                        DrawCommand::Triangle {
                            v1: WorldPoint { x: min_x - t, y: origin.y },
                            v2: WorldPoint { x: min_x, y: origin.y + t },
                            v3: WorldPoint { x: min_x, y: origin.y - t },
                            color: self.style.x_style.line_color,
                        },
                    );
                }
                if max_x != zero.x {
                    out.push(
                        DrawCommand::Triangle {
                            v1: WorldPoint { x: max_x + t, y: origin.y },
                            v2: WorldPoint { x: max_x, y: origin.y + t },
                            v3: WorldPoint { x: max_x, y: origin.y - t },
                            color: self.style.x_style.line_color,
                        },
                    );
                }
            },
            GraphEndPointStyle::Nothing => {},
        }
        assert(out@ == self@.x_arrows());
        match self.style.y_style.end_point_style {
            GraphEndPointStyle::Arrow { thickness } => {
                let t = thickness as i64;
                if min_y != zero.y {
                    out.push(
                        DrawCommand::Triangle {
                            v1: WorldPoint { x: origin.x, y: min_y - t },
                            v2: WorldPoint { x: origin.x + t, y: min_y },
                            v3: WorldPoint { x: origin.x - t, y: min_y },
                            color: self.style.y_style.line_color,
                        },
                    );
                }
                if max_y != zero.y {
                    out.push(
                        DrawCommand::Triangle {
                            v1: WorldPoint { x: origin.x, y: max_y + t },
                            v2: WorldPoint { x: origin.x + t, y: max_y },
                            v3: WorldPoint { x: origin.x - t, y: max_y },
                            color: self.style.y_style.line_color,
                        },
                    );
                }
            },
            GraphEndPointStyle::Nothing => {},
        }
        out
    }

    /// The drawing of the axes: the two axis lines, then the arrowheads at
    /// their ends, then the ticks.
    pub fn draw_axes(&self) -> (out: Vec<DrawCommand>)
        ensures
            out@ == self@.axes(),
    {
        proof {
            use_type_invariant(self);
        }
        let mut out: Vec<DrawCommand> = Vec::new();
        out.push(
            DrawCommand::Line {
                from: WorldPoint { x: self.world_min_coords.x as i64, y: self.axes_pos.y },
                to: WorldPoint { x: self.world_max_coords.x as i64, y: self.axes_pos.y },
                thickness: self.style.x_style.line_thickness,
                color: self.style.x_style.line_color,
            },
        );
        out.push(
            DrawCommand::Line {
                from: WorldPoint { x: self.axes_pos.x, y: self.world_min_coords.y as i64 },
                to: WorldPoint { x: self.axes_pos.x, y: self.world_max_coords.y as i64 },
                thickness: self.style.y_style.line_thickness,
                color: self.style.y_style.line_color,
            },
        );
        let mut arrows = self.draw_axes_end_pts();
        let mut ticks = self.draw_ticks();
        out.append(&mut arrows);
        out.append(&mut ticks);
        out
    }
}

impl GraphView {
    /// The world position of a data point keeps within reach if each of its
    /// coordinates is zero or lies in its domain.
    pub proof fn lemma_world_bound(self, pt: Vec2)
        requires
            self.valid(),
            pt.x == 0 || self.x_range.start <= pt.x <= self.x_range.end,
            pt.y == 0 || self.y_range.start <= pt.y <= self.y_range.end,
        ensures
            -0x4000_0000_8000_0000 <= self.to_world_x(pt.x as int) <= 0x4000_0000_8000_0000,
            -0x4000_0000_8000_0000 <= self.to_world_y(pt.y as int) <= 0x4000_0000_8000_0000,
            self.to_world(pt).in_reach(),
    {
        self.lemma_in_domain_in_box(pt);
        if pt.x == 0 {
            lemma_map_bound(
                0,
                self.x_range.start as int,
                self.x_range.end as int,
                self.min_x(),
                self.max_x(),
                0x8000_0000,
                0x8000_0000,
            );
        }
        if pt.y == 0 {
            lemma_map_bound(
                0,
                self.y_range.start as int,
                self.y_range.end as int,
                self.min_y(),
                self.max_y(),
                0x8000_0000,
                0x8000_0000,
            );
        }
    }

    /// A data point within both domains has its world position within the
    /// edges of the box.
    pub proof fn lemma_in_domain_in_box(self, pt: Vec2)
        requires
            self.valid(),
        ensures
            self.x_range.start <= pt.x <= self.x_range.end ==> i32::MIN <= self.to_world_x(
                pt.x as int,
            ) <= i32::MAX,
            self.y_range.start <= pt.y <= self.y_range.end ==> i32::MIN <= self.to_world_y(
                pt.y as int,
            ) <= i32::MAX,
            self.x_range.start <= pt.x <= self.x_range.end && self.y_range.start <= pt.y
                <= self.y_range.end && self.world_size.x >= 0 && self.world_size.y >= 0
                ==> self.in_box(self.to_world(pt)),
    {
        if self.x_range.start <= pt.x <= self.x_range.end {
            lemma_map_in_range(
                pt.x as int,
                self.x_range.start as int,
                self.x_range.end as int,
                self.min_x(),
                self.max_x(),
            );
        }
        if self.y_range.start <= pt.y <= self.y_range.end {
            lemma_map_in_range(
                pt.y as int,
                self.y_range.start as int,
                self.y_range.end as int,
                self.min_y(),
                self.max_y(),
            );
        }
    }

    /// The axes cross between the edges of the box, whichever way it lies.
    pub proof fn lemma_origin_in_box(self)
        requires
            self.valid(),
        ensures
            i32::MIN <= self.axes_origin().x <= i32::MAX,
            i32::MIN <= self.axes_origin().y <= i32::MAX,
            self.world_size.x >= 0 && self.world_size.y >= 0 ==> self.in_box(self.axes_origin()),
    {
        if self.x_range.start <= 0 <= self.x_range.end {
            lemma_map_in_range(
                0,
                self.x_range.start as int,
                self.x_range.end as int,
                self.min_x(),
                self.max_x(),
            );
        }
        if self.y_range.start <= 0 <= self.y_range.end {
            lemma_map_in_range(
                0,
                self.y_range.start as int,
                self.y_range.end as int,
                self.min_y(),
                self.max_y(),
            );
        }
    }
}

/// One axis of [`Graph::graph_to_world`]: `map` from a domain onto an edge
/// pair of a box that is no wider than 2^31.
fn project(val: i32, start: i32, end: i32, low: i32, high: i32) -> (r: i64)
    requires
        start < end,
        -0x8000_0000 <= high - low <= 0x8000_0000,
    ensures
        r == map_value(val as int, start as int, end as int, low as int, high as int),
{
    proof {
        lemma_map_fits(val, start, end, low, high);
    }
    crate::map(val, start, end, low, high)
}

} // verus!
