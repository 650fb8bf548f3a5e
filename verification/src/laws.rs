use vstd::prelude::*;

use crate::data::basics::{spec_renderer_level, ColorScheme, DualColors, RenderingMode};
use crate::renderers::scene::{
    outline_of, paint_style_of, PaintStyle, PathCommand, PathPoint, SceneType, SceneView,
    ShapeType, ShapeView, VShape,
};

verus! {

//―――――――――――――――――――――――――――――――――――――――――――――――――――――――――――――――――――――――――――――
// SCENES
//―――――――――――――――――――――――――――――――――――――――――――――――――――――――――――――――――――――――――――――

/// A new scene has no shapes and needs to be drawn.
pub proof fn lemma_new_scene_needs_redraw()
    ensures
        SceneView::initial().shapes.len() == 0,
        SceneView::initial().needs_redraw(),
{
}

/// A hot scene needs a redraw whatever redraw state was last set.
pub proof fn lemma_hot_scene_always_needs_redraw(v: SceneView, state: bool)
    requires
        v.scene_type is Hot,
    ensures
        v.needs_redraw(),
        v.with_redraw_requested(state).needs_redraw(),
{
}

/// A cold scene needs a redraw exactly when the last redraw state set was
/// `true`.
pub proof fn lemma_cold_scene_follows_redraw_state(v: SceneView, state: bool)
    requires
        v.scene_type is Cold,
    ensures
        v.with_redraw_requested(state).needs_redraw() == state,
{
}

/// Adding a shape or clearing makes the scene need a redraw, until the
/// redraw state is set again.
pub proof fn lemma_changed_scene_needs_redraw(v: SceneView, shape: VShape)
    ensures
        v.with_shape(shape).needs_redraw(),
        v.cleared().needs_redraw(),
{
}

/// Adding a shape keeps the earlier shapes, in order, and puts the new one
/// last.
pub proof fn lemma_add_shape_appends(v: SceneView, shape: VShape)
    ensures
        v.with_shape(shape).shapes.len() == v.shapes.len() + 1,
        v.with_shape(shape).shapes.take(v.shapes.len() as int) == v.shapes,
        v.with_shape(shape).shapes.last() == shape,
        v.with_shape(shape).scene_type == v.scene_type,
{
    assert(v.with_shape(shape).shapes.take(v.shapes.len() as int) =~= v.shapes);
}

/// Clearing forgets every shape added before it, and clearing twice is
/// clearing once.
pub proof fn lemma_clear_forgets_shapes(v: SceneView, shape: VShape)
    ensures
        v.with_shape(shape).cleared() == v.cleared(),
        v.cleared().cleared() == v.cleared(),
        v.cleared().shapes.len() == 0,
        v.cleared().scene_type == v.scene_type,
{
    assert(v.with_shape(shape).cleared().shapes =~= v.cleared().shapes);
}

/// Setting the redraw state, as drawing does, changes only whether a
/// redraw is asked for: the shapes, in their order, and the scene type
/// stay as they were.
pub proof fn lemma_redraw_state_keeps_shapes(v: SceneView, state: bool)
    ensures
        v.with_redraw_requested(state).shapes == v.shapes,
        v.with_redraw_requested(state).redraw_requested == state,
        v.with_redraw_requested(state).scene_type == v.scene_type,
{
}

/// Changing the scene type keeps the shapes and the redraw state.
pub proof fn lemma_scene_type_keeps_content(v: SceneView, t: SceneType)
    ensures
        v.with_scene_type(t).shapes == v.shapes,
        v.with_scene_type(t).redraw_requested == v.redraw_requested,
        v.with_scene_type(t).scene_type == t,
{
}

//―――――――――――――――――――――――――――――――――――――――――――――――――――――――――――――――――――――――――――――
// PAINTING
//―――――――――――――――――――――――――――――――――――――――――――――――――――――――――――――――――――――――――――――

/// Each shape is painted once, in drawing order, with the color of its pair
/// for the scheme, filled if it is a fill and stroked at its own width if
/// it is a stroke.
pub proof fn lemma_paint_plan_follows_shapes(v: SceneView, scheme: ColorScheme)
    ensures
        v.paint_plan(scheme).len() == v.shapes.len(),
        forall|i: int|
            0 <= i < v.shapes.len() ==> match (#[trigger] v.shapes[i])@.shape_type {
                ShapeType::Fill => v.paint_plan(scheme)[i] == PaintStyle::Fill {
                    color: v.shapes[i]@.color.color_for(scheme),
                },
                ShapeType::Stroke { line_width } => v.paint_plan(scheme)[i] == PaintStyle::Stroke {
                    color: v.shapes[i]@.color.color_for(scheme),
                    line_width,
                },
            },
{
}

/// Adding a shape adds its style at the end of the paint plan.
pub proof fn lemma_paint_plan_of_added_shape(v: SceneView, shape: VShape, scheme: ColorScheme)
    ensures
        v.with_shape(shape).paint_plan(scheme) == v.paint_plan(scheme).push(
            paint_style_of(shape@, scheme),
        ),
{
    assert(v.with_shape(shape).paint_plan(scheme) =~= v.paint_plan(scheme).push(
        paint_style_of(shape@, scheme),
    ));
}

/// A shape whose two colors are equal is painted the same under both
/// schemes.
pub proof fn lemma_equal_colors_ignore_scheme(shape: VShape)
    requires
        shape@.color.light_mode == shape@.color.dark_mode,
    ensures
        paint_style_of(shape@, ColorScheme::Dark) == paint_style_of(shape@, ColorScheme::Light),
{
}

/// A dual color shows its dark color under the dark scheme and its light
/// color under the light scheme.
pub proof fn lemma_dual_colors_by_scheme(c: DualColors)
    ensures
        c.color_for(ColorScheme::Dark) == c.dark_mode,
        c.color_for(ColorScheme::Light) == c.light_mode,
{
}

//―――――――――――――――――――――――――――――――――――――――――――――――――――――――――――――――――――――――――――――
// OUTLINES
//―――――――――――――――――――――――――――――――――――――――――――――――――――――――――――――――――――――――――――――

/// The outline through some points is one open contour: it starts at the
/// first point, goes through every point in order, and only the first
/// command starts a contour.
pub proof fn lemma_outline_is_one_contour(points: Seq<PathPoint>)
    ensures
        outline_of(points).len() == points.len(),
        outline_of(points).map_values(|c: PathCommand| c.target()) == points,
        points.len() > 0 ==> outline_of(points)[0] == PathCommand::MoveTo(points[0]),
        forall|i: int|
            1 <= i < points.len() ==> #[trigger] outline_of(points)[i] == PathCommand::LineTo(
                points[i],
            ),
{
    assert(outline_of(points).map_values(|c: PathCommand| c.target()) =~= points);
}

/// Building a shape from points through a map agrees with building it from
/// the mapped points: when every point of the mapped shape's outline is
/// the image `q[i]` of the `i`-th point (as it is for a map that gives the
/// same result for the same input), the two shapes, given the same colors
/// and shape type, are the same.
pub proof fn lemma_mapped_shape_agrees_with_direct_shape(
    mapped: ShapeView,
    direct: ShapeView,
    q: Seq<PathPoint>,
)
    requires
        mapped.path == outline_of(mapped.path.map_values(|c: PathCommand| c.target())),
        mapped.path.len() == q.len(),
        forall|i: int| 0 <= i < q.len() ==> (#[trigger] mapped.path[i]).target() == q[i],
        direct.path == outline_of(q),
        mapped.color == direct.color,
        mapped.shape_type == direct.shape_type,
    ensures
        mapped == direct,
{
    assert(mapped.path.map_values(|c: PathCommand| c.target()) =~= q);
}

//―――――――――――――――――――――――――――――――――――――――――――――――――――――――――――――――――――――――――――――
// RENDERING MODES
//―――――――――――――――――――――――――――――――――――――――――――――――――――――――――――――――――――――――――――――

/// The two rendering modes create backends at different renderer levels,
/// and the default mode asks for the compute (D3D11) level.
pub proof fn lemma_rendering_modes_differ(a: RenderingMode, b: RenderingMode)
    ensures
        (spec_renderer_level(a) == spec_renderer_level(b)) == (a == b),
        spec_renderer_level(RenderingMode::Compute) == crate::data::basics::RendererLevel::D3D11,
{
}

} // verus!
