use vstd::prelude::*;

use crate::engine::{layout_matches, layout_views, left_count, main_rect, right_count};
use crate::rect::{shapes_of, GeneratedLayout, RectShape};

verus! {

/// A request for zero windows places nothing, whatever the dimensions.
pub proof fn lemma_no_views_no_rectangles(usable_width: int, usable_height: int)
    ensures
        layout_views(0, usable_width, usable_height) == Seq::<RectShape>::empty(),
{
}

/// A request for a single window places exactly the main rectangle.
pub proof fn lemma_single_view_is_main(usable_width: int, usable_height: int)
    ensures
        layout_views(1, usable_width, usable_height) == seq![
            main_rect(usable_width, usable_height),
        ],
{
    assert(layout_views(1, usable_width, usable_height) =~= seq![
        main_rect(usable_width, usable_height),
    ]);
}

/// A column's rows cover `count * (usable_height / count)` pixels of
/// its height: never more than the usable height, and short of it by
/// less than one pixel per row, because the division remainder is
/// dropped rather than distributed.
pub proof fn lemma_column_height_coverage(count: int, usable_height: int)
    requires
        count >= 1,
        usable_height >= 0,
    ensures
        count * (usable_height / count) <= usable_height,
        usable_height - count * (usable_height / count) < count,
{
    vstd::arithmetic::div_mod::lemma_fundamental_div_mod(usable_height, count);
    vstd::arithmetic::div_mod::lemma_mod_bound(usable_height, count);
}

/// The engine is a pure function of its inputs: any two layouts that
/// answer the same request carry the same name and, rectangle for
/// rectangle, the same views.
pub proof fn lemma_generate_deterministic(
    a: GeneratedLayout,
    b: GeneratedLayout,
    view_count: int,
    usable_width: int,
    usable_height: int,
    output: Seq<char>,
)
    requires
        layout_matches(a, view_count, usable_width, usable_height, output),
        layout_matches(b, view_count, usable_width, usable_height, output),
    ensures
        a.layout_name@ == b.layout_name@,
        a.views@ == b.views@,
{
    let sa = shapes_of(a.views@);
    let sb = shapes_of(b.views@);
    assert(a.views@.len() == sa.len() && b.views@.len() == sb.len());
    assert forall|i: int| 0 <= i < a.views@.len() implies a.views@[i] == b.views@[i] by {
        let ra = a.views@[i];
        let rb = b.views@[i];
        assert(sa[i] == ra@ && sb[i] == rb@);
        assert(ra@.x == rb@.x && ra@.y == rb@.y && ra@.width == rb@.width && ra@.height
            == rb@.height);
        assert(ra.x == rb.x && ra.y == rb.y && ra.width == rb.width && ra.height == rb.height);
    }
    assert(a.views@ =~= b.views@);
}

/// The stack split is exhaustive and right-biased: the two columns
/// together hold every window but the main one, and the right column is
/// never the smaller of the two.
pub proof fn lemma_stack_split(view_count: int)
    requires
        view_count >= 1,
    ensures
        left_count(view_count) + right_count(view_count) == view_count - 1,
        right_count(view_count) >= left_count(view_count),
{
    let stack = view_count - 1;
    vstd::arithmetic::div_mod::lemma_fundamental_div_mod(stack, 2);
}

/// The main rectangle always lies inside the usable area: its offset is
/// non-negative and it reaches at most the far edge in each dimension.
pub proof fn lemma_main_rect_in_area(usable_width: int, usable_height: int)
    requires
        usable_width >= 0,
        usable_height >= 0,
    ensures
        0 <= main_rect(usable_width, usable_height).x,
        0 <= main_rect(usable_width, usable_height).y,
        main_rect(usable_width, usable_height).x + main_rect(usable_width, usable_height).width
            <= usable_width,
        main_rect(usable_width, usable_height).y + main_rect(usable_width, usable_height).height
            <= usable_height,
{
    let m = main_rect(usable_width, usable_height);
    vstd::arithmetic::div_mod::lemma_div_pos_is_pos(usable_width - m.width, 2);
    vstd::arithmetic::div_mod::lemma_div_pos_is_pos(usable_height - m.height, 2);
    vstd::arithmetic::div_mod::lemma_div_nonincreasing(usable_width - m.width, 2);
    vstd::arithmetic::div_mod::lemma_div_nonincreasing(usable_height - m.height, 2);
}

} // verus!
