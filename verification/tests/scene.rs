use vectorizer::{
    ColorScheme, ColorU, DualColors, PaintStyle, PathCommand, PathPoint, SceneType, ShapePath,
    ShapeType, VScene, VShape,
};

fn colors() -> DualColors {
    DualColors { light_mode: ColorU::new(255, 255, 255, 255), dark_mode: ColorU::new(0, 0, 0, 255) }
}

fn pt(x: f32, y: f32) -> PathPoint {
    PathPoint { x: x.to_bits(), y: y.to_bits() }
}

fn square(shape_type: ShapeType) -> VShape {
    VShape::from_iter(
        shape_type,
        colors(),
        vec![pt(0.0, 0.0), pt(1.0, 0.0), pt(1.0, 1.0), pt(0.0, 1.0)],
    )
}

#[test]
fn scene_type_predicates() {
    assert!(SceneType::Hot.is_hot());
    assert!(!SceneType::Hot.is_cold());
    assert!(SceneType::Cold.is_cold());
    assert!(!SceneType::Cold.is_hot());
}

#[test]
fn new_scene_is_empty_and_needs_redraw() {
    let scene = VScene::default();
    assert!(scene.shapes().is_empty());
    assert!(scene.needs_redraw());
}

#[test]
fn hot_scene_always_needs_redraw() {
    let mut scene = VScene::default();
    scene.set_needs_redraw(false);
    assert!(scene.needs_redraw());
    scene.set_scene_type(SceneType::Hot);
    scene.set_needs_redraw(false);
    assert!(scene.needs_redraw());
}

#[test]
fn cold_scene_follows_redraw_state() {
    let mut scene = VScene::default();
    scene.set_scene_type(SceneType::Cold);
    assert!(scene.needs_redraw());
    scene.set_needs_redraw(false);
    assert!(!scene.needs_redraw());
    scene.set_needs_redraw(true);
    assert!(scene.needs_redraw());
}

#[test]
fn add_shape_appends_and_requests_redraw() {
    let mut scene = VScene::default();
    scene.set_scene_type(SceneType::Cold);
    scene.set_needs_redraw(false);
    scene.add_shape(square(ShapeType::Fill));
    assert!(scene.needs_redraw());
    scene.add_shape(square(ShapeType::Stroke { line_width: 2.0f32.to_bits() }));
    assert_eq!(scene.shapes().len(), 2);
    assert_eq!(scene.shapes()[0].shape_type(), ShapeType::Fill);
    assert_eq!(scene.shapes()[1].shape_type(), ShapeType::Stroke { line_width: 2.0f32.to_bits() });
}

#[test]
fn clear_forgets_shapes_and_requests_redraw() {
    let mut scene = VScene::default();
    scene.set_scene_type(SceneType::Cold);
    scene.add_shape(square(ShapeType::Fill));
    scene.set_needs_redraw(false);
    scene.clear();
    assert!(scene.shapes().is_empty());
    assert!(scene.needs_redraw());
    scene.clear();
    assert!(scene.shapes().is_empty());
}

#[test]
fn scene_type_change_keeps_shapes() {
    let mut scene = VScene::default();
    scene.add_shape(square(ShapeType::Fill));
    scene.set_scene_type(SceneType::Cold);
    assert_eq!(scene.shapes().len(), 1);
    assert!(scene.needs_redraw());
}

#[test]
fn paint_plan_follows_shapes_and_scheme() {
    let mut scene = VScene::default();
    scene.add_shape(square(ShapeType::Fill));
    scene.add_shape(square(ShapeType::Stroke { line_width: 3.5f32.to_bits() }));
    let dark = scene.paint_plan(ColorScheme::Dark);
    assert_eq!(
        dark,
        vec![
            PaintStyle::Fill { color: ColorU::new(0, 0, 0, 255) },
            PaintStyle::Stroke { color: ColorU::new(0, 0, 0, 255), line_width: 3.5f32.to_bits() },
        ]
    );
    let light = scene.paint_plan(ColorScheme::Light);
    assert_eq!(
        light,
        vec![
            PaintStyle::Fill { color: ColorU::new(255, 255, 255, 255) },
            PaintStyle::Stroke {
                color: ColorU::new(255, 255, 255, 255),
                line_width: 3.5f32.to_bits(),
            },
        ]
    );
}

#[test]
fn paint_plan_of_added_shape_is_appended() {
    let mut scene = VScene::default();
    scene.add_shape(square(ShapeType::Fill));
    let before = scene.paint_plan(ColorScheme::Light);
    let shape = square(ShapeType::Stroke { line_width: 1.0f32.to_bits() });
    let style = shape.paint_style(ColorScheme::Light);
    scene.add_shape(shape);
    let mut expected = before.clone();
    expected.push(style);
    assert_eq!(scene.paint_plan(ColorScheme::Light), expected);
}

#[test]
fn equal_colors_ignore_scheme() {
    let c = ColorU::new(10, 20, 30, 40);
    let shape = VShape::from_iter(ShapeType::Fill, DualColors { light_mode: c, dark_mode: c }, vec![]);
    assert_eq!(shape.paint_style(ColorScheme::Dark), shape.paint_style(ColorScheme::Light));
}

#[test]
fn empty_scene_has_empty_paint_plan() {
    assert!(VScene::default().paint_plan(ColorScheme::Dark).is_empty());
}

#[test]
fn from_iter_builds_one_contour() {
    let shape = square(ShapeType::Fill);
    assert_eq!(
        shape.path().commands(),
        &[
            PathCommand::MoveTo(pt(0.0, 0.0)),
            PathCommand::LineTo(pt(1.0, 0.0)),
            PathCommand::LineTo(pt(1.0, 1.0)),
            PathCommand::LineTo(pt(0.0, 1.0)),
        ][..]
    );
    assert_eq!(*shape.color(), colors());
}

#[test]
fn from_iter_edge_cases() {
    let empty = VShape::from_iter(ShapeType::Fill, colors(), vec![]);
    assert!(empty.path().commands().is_empty());
    let single = VShape::from_iter(ShapeType::Fill, colors(), vec![pt(2.0, 3.0)]);
    assert_eq!(single.path().commands(), &[PathCommand::MoveTo(pt(2.0, 3.0))][..]);
}

#[test]
fn from_iter_map_applies_the_map() {
    let shape = VShape::from_iter_map(
        ShapeType::Stroke { line_width: 1.0f32.to_bits() },
        colors(),
        vec![(1u32, 2u32), (3, 4), (5, 6)],
        |(x, y): (u32, u32)| PathPoint { x: x * 10, y: y * 10 },
    );
    assert_eq!(
        shape.path().commands(),
        &[
            PathCommand::MoveTo(PathPoint { x: 10, y: 20 }),
            PathCommand::LineTo(PathPoint { x: 30, y: 40 }),
            PathCommand::LineTo(PathPoint { x: 50, y: 60 }),
        ][..]
    );
    assert_eq!(shape.shape_type(), ShapeType::Stroke { line_width: 1.0f32.to_bits() });
}

#[test]
fn shape_path_builder() {
    let mut path = ShapePath::new();
    path.move_to(pt(0.0, 0.0));
    path.line_to(pt(5.0, 5.0));
    path.move_to(pt(1.0, 1.0));
    let shape = VShape::new(path, colors(), ShapeType::Fill);
    assert_eq!(
        shape.path().commands(),
        &[
            PathCommand::MoveTo(pt(0.0, 0.0)),
            PathCommand::LineTo(pt(5.0, 5.0)),
            PathCommand::MoveTo(pt(1.0, 1.0)),
        ][..]
    );
}

#[test]
fn begin_draw_clears_request_and_returns_plan() {
    let mut scene = VScene::default();
    scene.set_scene_type(SceneType::Cold);
    scene.add_shape(square(ShapeType::Fill));
    let expected = scene.paint_plan(ColorScheme::Dark);
    let plan = scene.begin_draw(ColorScheme::Dark);
    assert_eq!(plan, expected);
    assert!(!scene.needs_redraw());
    assert_eq!(scene.shapes().len(), 1);
}

#[test]
fn from_iter_map_keeps_colors_and_matches_from_iter() {
    let c = DualColors {
        light_mode: ColorU::new(255, 255, 255, 255),
        dark_mode: ColorU::new(0, 0, 0, 255),
    };
    let mapped = VShape::from_iter_map(ShapeType::Fill, c, vec![1i32, 2, 3], |x: i32| {
        pt(x as f32, 0.0)
    });
    let direct =
        VShape::from_iter(ShapeType::Fill, c, vec![pt(1.0, 0.0), pt(2.0, 0.0), pt(3.0, 0.0)]);
    assert_eq!(*mapped.color(), c);
    assert_eq!(mapped.shape_type(), ShapeType::Fill);
    assert_eq!(mapped.path().commands(), direct.path().commands());
    assert_eq!(
        mapped.path().commands(),
        &[
            PathCommand::MoveTo(pt(1.0, 0.0)),
            PathCommand::LineTo(pt(2.0, 0.0)),
            PathCommand::LineTo(pt(3.0, 0.0)),
        ][..]
    );
}

#[test]
fn from_iter_stroke_triangle_keeps_colors() {
    let c = DualColors {
        light_mode: ColorU::new(0, 0, 0, 255),
        dark_mode: ColorU::new(255, 255, 255, 255),
    };
    let st = ShapeType::Stroke { line_width: 2.0f32.to_bits() };
    let shape = VShape::from_iter(st, c, vec![pt(0.0, 0.0), pt(1.0, 0.0), pt(1.0, 1.0)]);
    assert_eq!(*shape.color(), c);
    assert_eq!(shape.shape_type(), st);
    assert_eq!(
        shape.path().commands(),
        &[
            PathCommand::MoveTo(pt(0.0, 0.0)),
            PathCommand::LineTo(pt(1.0, 0.0)),
            PathCommand::LineTo(pt(1.0, 1.0)),
        ][..]
    );
}
