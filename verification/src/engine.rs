use vstd::prelude::*;
use vstd::string::*;

use crate::rect::{shapes_of, GeneratedLayout, Rectangle, RectShape};

verus! {

/// Coordinates travel in the `i32` fields of a [`Rectangle`], so a
/// usable dimension beyond `i32::MAX` cannot be represented.
pub const MAX_DIMENSION: u32 = 0x7fff_ffff;

/// The width and height picked for the main rectangle: a fixed
/// 1920x1080 on any output at least 4K in both dimensions, a fixed
/// 1280x720 on an exactly 1920x1080 output, and the full usable area
/// otherwise. The tiers are ordered and the first match wins.
pub open spec fn main_size(usable_width: int, usable_height: int) -> (int, int) {
    if usable_width >= 3840 && usable_height >= 2160 {
        (1920int, 1080int)
    } else if usable_width == 1920 && usable_height == 1080 {
        (1280int, 720int)
    } else {
        (usable_width, usable_height)
    }
}

/// The main rectangle: the picked size, centered in the usable area by
/// truncating division, so an odd remainder biases it one unit toward
/// the origin. When the main area is the full usable area the offset is
/// exactly zero.
pub open spec fn main_rect(usable_width: int, usable_height: int) -> RectShape {
    let (w, h) = main_size(usable_width, usable_height);
    RectShape {
        x: (usable_width - w) / 2,
        y: (usable_height - h) / 2,
        width: w,
        height: h,
    }
}

/// How many stack windows go to the left column: half of them, rounded
/// down.
pub open spec fn left_count(view_count: int) -> int {
    (view_count - 1) / 2
}

/// How many stack windows go to the right column: the rest, so the
/// right column absorbs the odd remainder.
pub open spec fn right_count(view_count: int) -> int {
    (view_count - 1) - left_count(view_count)
}

/// The width of the left column: the gap between the left edge of the
/// usable area and the main rectangle, or zero when the main rectangle
/// touches or crosses the left edge.
pub open spec fn left_area_width(main_x: int) -> int {
    if main_x > 0 {
        main_x
    } else {
        0
    }
}

/// The width of the right column: the gap between the main rectangle
/// and the right edge of the usable area, or zero when the main
/// rectangle reaches or crosses that edge.
pub open spec fn right_area_width(usable_width: int, main_x: int, main_width: int) -> int {
    if usable_width > main_x + main_width {
        usable_width - (main_x + main_width)
    } else {
        0
    }
}

/// The rows of one stack column: `count` equal-height rectangles at
/// horizontal offset `x_offset`, stacked from the top of the usable
/// area. A column with no windows or no width places nothing. The row
/// height is the truncating quotient, so a remainder of the division is
/// never distributed: it is left as an unfilled strip at the bottom.
pub open spec fn column(count: int, column_width: int, usable_height: int, x_offset: int) -> Seq<
    RectShape,
> {
    if count <= 0 || column_width <= 0 {
        Seq::empty()
    } else {
        Seq::new(
            count as nat,
            |i: int|
                RectShape {
                    x: x_offset,
                    y: i * (usable_height / count),
                    width: column_width,
                    height: usable_height / count,
                },
        )
    }
}

/// Main Area Selector: pick the main rectangle for a usable area.
///
/// The size comes from the ordered tiers of [`main_size`]; the offset
/// centers the rectangle, biasing an odd remainder toward the origin.
/// Degenerate (zero) dimensions are accepted and give a degenerate
/// rectangle.
pub fn select_main(usable_width: u32, usable_height: u32) -> (r: Rectangle)
    requires
        usable_width <= MAX_DIMENSION,
        usable_height <= MAX_DIMENSION,
    ensures
        r@ == main_rect(usable_width as int, usable_height as int),
{
    let (main_width, main_height): (u32, u32) = if usable_width >= 3840 && usable_height >= 2160 {
        (1920, 1080)
    } else if usable_width == 1920 && usable_height == 1080 {
        (1280, 720)
    } else {
        (usable_width, usable_height)
    };
    let main_x: u32 = (usable_width - main_width) / 2;
    let main_y: u32 = (usable_height - main_height) / 2;
    Rectangle { x: main_x as i32, y: main_y as i32, width: main_width, height: main_height }
}

/// Stack Partitioner: split the non-main windows into the two columns
/// and measure the column widths.
///
/// Returns `(left_count, right_count, left_area_width,
/// right_area_width)`. The right column absorbs an odd remainder of the
/// split, and a column width saturates at zero when the main rectangle
/// reaches the corresponding edge.
pub fn partition(view_count: u32, main_x: i32, main_width: u32, usable_width: u32) -> (r: (
    u32,
    u32,
    u32,
    u32,
))
    requires
        view_count >= 1,
        usable_width - (main_x + main_width) <= u32::MAX,
    ensures
        r.0 == left_count(view_count as int),
        r.1 == right_count(view_count as int),
        r.2 == left_area_width(main_x as int),
        r.3 == right_area_width(usable_width as int, main_x as int, main_width as int),
{
    let stack_count: u32 = view_count - 1;
    let on_left: u32 = stack_count / 2;
    let on_right: u32 = stack_count - on_left;
    let left_width: u32 = if main_x > 0 {
        main_x as u32
    } else {
        0
    };
    let main_end: i64 = main_x as i64 + main_width as i64;
    let right_width: u32 = if (usable_width as i64) > main_end {
        (usable_width as i64 - main_end) as u32
    } else {
        0
    };
    (on_left, on_right, left_width, right_width)
}

/// Every rectangle of one placement request, in order: nothing for a
/// request of zero windows; otherwise the main rectangle first, then
/// the left column top to bottom, then the right column top to bottom.
pub open spec fn layout_views(view_count: int, usable_width: int, usable_height: int) -> Seq<
    RectShape,
> {
    if view_count <= 0 {
        Seq::empty()
    } else {
        let m = main_rect(usable_width, usable_height);
        seq![m] + column(left_count(view_count), left_area_width(m.x), usable_height, 0) + column(
            right_count(view_count),
            right_area_width(usable_width, m.x, m.width),
            usable_height,
            m.x + m.width,
        )
    }
}

/// The name attached to every generated layout: a fixed prefix naming
/// the engine, followed by the output's name.
pub open spec fn layout_name_of(output: Seq<char>) -> Seq<char> {
    "CustomLayout for output "@ + output
}

/// What one placement request must return: a layout determined entirely
/// by the window count, the usable dimensions and the output name.
pub open spec fn layout_matches(
    r: GeneratedLayout,
    view_count: int,
    usable_width: int,
    usable_height: int,
    output: Seq<char>,
) -> bool {
    &&& r.layout_name@ == layout_name_of(output)
    &&& shapes_of(r.views@) == layout_views(view_count, usable_width, usable_height)
}

/// Column Placer: lay one stack column out as equal-height rows.
///
/// The left column is placed with `x_offset = 0`, the right column with
/// `x_offset` at the right edge of the main rectangle. An indivisible
/// height remainder is deliberately left unplaced, matching
/// [`column`].
pub fn place_column(count: u32, column_width: u32, usable_height: u32, x_offset: i32) -> (r: Vec<
    Rectangle,
>)
    requires
        usable_height <= MAX_DIMENSION,
    ensures
        shapes_of(r@) == column(
            count as int,
            column_width as int,
            usable_height as int,
            x_offset as int,
        ),
{
    let ghost goal = column(count as int, column_width as int, usable_height as int, x_offset as int);
    let mut placements: Vec<Rectangle> = Vec::new();
    if count > 0 && column_width > 0 {
        let each_height: u32 = usable_height / count;
        proof {
            vstd::arithmetic::div_mod::lemma_fundamental_div_mod(
                usable_height as int,
                count as int,
            );
            vstd::arithmetic::div_mod::lemma_mod_bound(usable_height as int, count as int);
        }
        let mut i: u32 = 0;
        while i < count
            invariant
                0 < count,
                0 < column_width,
                usable_height <= MAX_DIMENSION,
                each_height == usable_height as int / count as int,
                count as int * each_height as int <= usable_height as int,
                i <= count,
                goal == column(
                    count as int,
                    column_width as int,
                    usable_height as int,
                    x_offset as int,
                ),
                placements@.len() == i as int,
                forall|j: int| 0 <= j < i as int ==> placements@[j]@ == goal[j],
            decreases count - i,
        {
            proof {
                vstd::arithmetic::mul::lemma_mul_inequality(
                    i as int,
                    count as int - 1,
                    each_height as int,
                );
                vstd::arithmetic::mul::lemma_mul_is_distributive_sub_other_way(
                    each_height as int,
                    count as int,
                    1,
                );
            }
            let row_top: u32 = i * each_height;
            placements.push(
                Rectangle {
                    x: x_offset,
                    y: row_top as i32,
                    width: column_width,
                    height: each_height,
                },
            );
            i = i + 1;
        }
    }
    proof {
        assert(shapes_of(placements@) =~= goal);
    }
    placements
}

/// Layout Engine: answer one placement request.
///
/// The Main Area Selector runs unconditionally; the main rectangle is
/// emitted when at least one window is present; with two or more
/// windows the Stack Partitioner runs and the left column, then the
/// right column, are appended after the main rectangle. The result is
/// a pure function of the inputs — no state survives between calls —
/// and `_tags` is accepted but has no effect.
pub fn generate_layout(
    view_count: u32,
    usable_width: u32,
    usable_height: u32,
    _tags: u32,
    output: &str,
) -> (r: GeneratedLayout)
    requires
        usable_width <= MAX_DIMENSION,
        usable_height <= MAX_DIMENSION,
    ensures
        layout_matches(r, view_count as int, usable_width as int, usable_height as int, output@),
{
    let ghost uw = usable_width as int;
    let ghost uh = usable_height as int;
    proof {
        crate::laws::lemma_main_rect_in_area(uw, uh);
    }
    let main = select_main(usable_width, usable_height);
    let mut views: Vec<Rectangle> = Vec::new();
    if view_count > 0 {
        views.push(main);
    }
    if view_count > 1 {
        let (on_left, on_right, left_width, right_width) = partition(
            view_count,
            main.x,
            main.width,
            usable_width,
        );
        let mut left_rows = place_column(on_left, left_width, usable_height, 0);
        let ghost left_shapes = shapes_of(left_rows@);
        let mut right_rows = place_column(
            on_right,
            right_width,
            usable_height,
            main.x + main.width as i32,
        );
        let ghost right_shapes = shapes_of(right_rows@);
        views.append(&mut left_rows);
        views.append(&mut right_rows);
        proof {
            assert(shapes_of(views@) =~= seq![main@] + left_shapes + right_shapes);
        }
    }
    proof {
        if view_count == 0 {
            assert(shapes_of(views@) =~= layout_views(view_count as int, uw, uh));
        } else if view_count == 1 {
            assert(shapes_of(views@) =~= layout_views(view_count as int, uw, uh));
        }
    }
    let layout_name = String::from_str("CustomLayout for output ").concat(output);
    GeneratedLayout { layout_name, views }
}

/// Accept a user command and ignore it.
///
/// Commands are an extension point of the engine: any command string is
/// taken and none has an effect yet, so every call succeeds.
pub fn user_cmd(_cmd: &str, _tags: Option<u32>, _output: &str) -> (r: Result<(), ()>)
    ensures
        r is Ok,
{
    Ok(())
}

} // verus!
