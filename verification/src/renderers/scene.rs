use vstd::prelude::*;

use crate::data::basics::{ColorScheme, ColorU, DualColors};

verus! {

//―――――――――――――――――――――――――――――――――――――――――――――――――――――――――――――――――――――――――――――
// PATHS
//―――――――――――――――――――――――――――――――――――――――――――――――――――――――――――――――――――――――――――――

/// A point of a shape's outline.
///
/// Each coordinate is the IEEE-754 bit pattern of an `f32` (as given by
/// `f32::to_bits`), so the exact value is kept while this library itself
/// never computes with floating-point numbers.
#[derive(Debug, Clone, Copy, PartialEq, Eq, Hash, Structural)]
pub struct PathPoint {
    pub x: u32,
    pub y: u32,
}

/// One step of an outline: start a new contour at a point, or draw a
/// straight segment from the current point to a point.
#[derive(Debug, Clone, Copy, PartialEq, Eq, Structural)]
pub enum PathCommand {
    MoveTo(PathPoint),
    LineTo(PathPoint),
}

impl PathCommand {
    /// The point this command goes to.
    pub open spec fn target(self) -> PathPoint {
        match self {
            PathCommand::MoveTo(p) => p,
            PathCommand::LineTo(p) => p,
        }
    }
}

/// The outline of a shape as the list of commands that build it.
#[derive(Debug, Clone)]
pub struct ShapePath {
    commands: Vec<PathCommand>,
}

impl View for ShapePath {
    type V = Seq<PathCommand>;

    closed spec fn view(&self) -> Seq<PathCommand> {
        self.commands@
    }
}

impl ShapePath {
    /// An empty path.
    pub fn new() -> (p: ShapePath)
        ensures
            p@ == Seq::<PathCommand>::empty(),
    {
        ShapePath { commands: Vec::new() }
    }

    /// Starts a new contour at `to`.
    pub fn move_to(&mut self, to: PathPoint)
        ensures
            final(self)@ == old(self)@.push(PathCommand::MoveTo(to)),
    {
        self.commands.push(PathCommand::MoveTo(to));
    }

    /// Adds a straight segment to `to`.
    pub fn line_to(&mut self, to: PathPoint)
        ensures
            final(self)@ == old(self)@.push(PathCommand::LineTo(to)),
    {
        self.commands.push(PathCommand::LineTo(to));
    }

    /// The commands of this path, in order.
    pub fn commands(&self) -> (r: &[PathCommand])
        ensures
            r@ == self@,
    {
        self.commands.as_slice()
    }
}

/// The command that the point at position `i` of a polyline turns into:
/// the first point starts the contour, every later point extends it.
pub open spec fn outline_command(i: int, p: PathPoint) -> PathCommand {
    if i == 0 {
        PathCommand::MoveTo(p)
    } else {
        PathCommand::LineTo(p)
    }
}

/// The outline through `points`, in order.
pub open spec fn outline_of(points: Seq<PathPoint>) -> Seq<PathCommand> {
    Seq::new(points.len(), |i: int| outline_command(i, points[i]))
}

//―――――――――――――――――――――――――――――――――――――――――――――――――――――――――――――――――――――――――――――
// SHAPES
//―――――――――――――――――――――――――――――――――――――――――――――――――――――――――――――――――――――――――――――

/// How a shape's outline is painted.
#[derive(Debug, Clone, Copy, PartialEq, Eq, Structural)]
pub enum ShapeType {
    Fill,
    /// `line_width` is the IEEE-754 bit pattern of the `f32` stroke width.
    Stroke { line_width: u32 },
}

/// A colored outline, filled or stroked.
#[derive(Debug, Clone)]
pub struct VShape {
    pub(crate) path: ShapePath,
    pub(crate) color: DualColors,
    pub(crate) shape_type: ShapeType,
}

/// What a shape is: its outline, its colors and how it is painted.
pub struct ShapeView {
    pub path: Seq<PathCommand>,
    pub color: DualColors,
    pub shape_type: ShapeType,
}

impl View for VShape {
    type V = ShapeView;

    closed spec fn view(&self) -> ShapeView {
        ShapeView { path: self.path@, color: self.color, shape_type: self.shape_type }
    }
}

impl VShape {
    pub fn new(path: ShapePath, color: DualColors, shape_type: ShapeType) -> (s: VShape)
        ensures
            s@ == (ShapeView { path: path@, color, shape_type }),
    {
        VShape { path, color, shape_type }
    }

    pub fn path(&self) -> (r: &ShapePath)
        ensures
            r@ == self@.path,
    {
        &self.path
    }

    pub fn color(&self) -> (r: &DualColors)
        ensures
            *r == self@.color,
    {
        &self.color
    }

    pub fn shape_type(&self) -> (r: ShapeType)
        ensures
            r == self@.shape_type,
    {
        self.shape_type
    }

    /// The shape whose outline goes through `points` in order.
    pub fn from_iter(
        shape_type: ShapeType,
        color: DualColors,
        points: Vec<PathPoint>,
    ) -> (s: VShape)
        ensures
            s@.path == outline_of(points@),
            s@.color == color,
            s@.shape_type == shape_type,
    {
        let mut path = ShapePath::new();
        let n = points.len();
        for ix in 0..n
            invariant
                n == points@.len(),
                path@ == outline_of(points@.take(ix as int)),
        {
            proof {
                assert(points@.take(ix + 1) == points@.take(ix as int).push(points@[ix as int]));
            }
            if ix == 0 {
                path.move_to(points[ix]);
            } else {
                path.line_to(points[ix]);
            }
            assert(path@ =~= outline_of(points@.take(ix + 1)));
        }
        assert(points@.take(n as int) =~= points@);
        VShape { path, color, shape_type }
    }

    /// The shape whose outline goes through the images under `f` of
    /// `points`, in order.
    pub fn from_iter_map<T, F: Fn(T) -> PathPoint>(
        shape_type: ShapeType,
        color: DualColors,
        points: Vec<T>,
        f: F,
    ) -> (s: VShape)
        requires
            forall|i: int| 0 <= i < points@.len() ==> call_requires(f, (#[trigger] points@[i],)),
        ensures
            s@.path.len() == points@.len(),
            s@.path == outline_of(s@.path.map_values(|c: PathCommand| c.target())),
            forall|i: int|
                0 <= i < points@.len() ==> {
                    &&& #[trigger] s@.path[i] == outline_command(i, s@.path[i].target())
                    &&& call_ensures(f, (points@[i],), s@.path[i].target())
                },
            s@.color == color,
            s@.shape_type == shape_type,
    {
        let mut path = ShapePath::new();
        let ghost pts = points@;
        let n = points.len();
        let mut ix: usize = 0;
        for point in it: points
            invariant
                it.seq() == pts,
                n == pts.len(),
                ix == it.index(),
                ix <= n,
                path@.len() == ix,
                forall|i: int| 0 <= i < pts.len() ==> call_requires(f, (#[trigger] pts[i],)),
                forall|i: int|
                    0 <= i < ix ==> {
                        &&& #[trigger] path@[i] == outline_command(i, path@[i].target())
                        &&& call_ensures(f, (pts[i],), path@[i].target())
                    },
        {
            let p = f(point);
            if ix == 0 {
                path.move_to(p);
            } else {
                path.line_to(p);
            }
            ix = ix + 1;
        }
        assert(path@ =~= outline_of(path@.map_values(|c: PathCommand| c.target())));
        VShape { path, color, shape_type }
    }

    /// How this shape is painted under `scheme`.
    pub fn paint_style(&self, scheme: ColorScheme) -> (r: PaintStyle)
        ensures
            r == paint_style_of(self@, scheme),
    {
        let color = *self.color.get(scheme);
        match self.shape_type {
            ShapeType::Fill => PaintStyle::Fill { color },
            ShapeType::Stroke { line_width } => PaintStyle::Stroke { color, line_width },
        }
    }
}

/// The canvas style one shape is painted with: fill color, or stroke color
/// and width (the IEEE-754 bit pattern of the `f32` width).
#[derive(Debug, Clone, Copy, PartialEq, Eq, Structural)]
pub enum PaintStyle {
    Fill { color: ColorU },
    Stroke { color: ColorU, line_width: u32 },
}

/// The style `shape` is painted with under `scheme`: its kind and width as
/// given, in the color of its pair for that scheme.
pub open spec fn paint_style_of(shape: ShapeView, scheme: ColorScheme) -> PaintStyle {
    match shape.shape_type {
        ShapeType::Fill => PaintStyle::Fill { color: shape.color.color_for(scheme) },
        ShapeType::Stroke { line_width } => PaintStyle::Stroke {
            color: shape.color.color_for(scheme),
            line_width,
        },
    }
}

//―――――――――――――――――――――――――――――――――――――――――――――――――――――――――――――――――――――――――――――
// SCENES
//―――――――――――――――――――――――――――――――――――――――――――――――――――――――――――――――――――――――――――――

/// Whether a scene is redrawn on every frame (`Hot`) or only when asked
/// to (`Cold`).
#[derive(Debug, Clone, Copy, PartialEq, Eq, Structural)]
pub enum SceneType {
    Hot,
    Cold,
}

impl SceneType {
    pub fn is_hot(&self) -> (r: bool)
        ensures
            r == (*self is Hot),
    {
        match self {
            SceneType::Hot => true,
            _ => false,
        }
    }

    pub fn is_cold(&self) -> (r: bool)
        ensures
            r == (*self is Cold),
    {
        match self {
            SceneType::Cold => true,
            _ => false,
        }
    }
}

/// A list of shapes that is drawn as one picture.
#[derive(Debug)]
pub struct VScene {
    polygons: Vec<VShape>,
    needs_redraw: bool,
    scene_type: SceneType,
}

/// What a scene is: its shapes in drawing order, whether a redraw was
/// asked for, and its type.
pub struct SceneView {
    pub shapes: Seq<VShape>,
    pub redraw_requested: bool,
    pub scene_type: SceneType,
}

impl SceneView {
    /// A new scene: no shapes, hot, with a redraw asked for.
    pub open spec fn initial() -> SceneView {
        SceneView { shapes: Seq::empty(), redraw_requested: true, scene_type: SceneType::Hot }
    }

    /// A hot scene is always redrawn; a cold one only when asked to.
    pub open spec fn needs_redraw(self) -> bool {
        self.scene_type is Hot || self.redraw_requested
    }

    pub open spec fn with_scene_type(self, scene_type: SceneType) -> SceneView {
        SceneView { shapes: self.shapes, redraw_requested: self.redraw_requested, scene_type }
    }

    pub open spec fn with_redraw_requested(self, state: bool) -> SceneView {
        SceneView { shapes: self.shapes, redraw_requested: state, scene_type: self.scene_type }
    }

    /// The scene with no shapes left, and a redraw asked for.
    pub open spec fn cleared(self) -> SceneView {
        SceneView { shapes: Seq::empty(), redraw_requested: true, scene_type: self.scene_type }
    }

    /// The scene with `shape` drawn last, and a redraw asked for.
    pub open spec fn with_shape(self, shape: VShape) -> SceneView {
        SceneView { shapes: self.shapes.push(shape), redraw_requested: true, scene_type: self.scene_type }
    }

    /// The styles the scene's shapes are painted with under `scheme`, in
    /// drawing order.
    pub open spec fn paint_plan(self, scheme: ColorScheme) -> Seq<PaintStyle> {
        self.shapes.map_values(|s: VShape| paint_style_of(s@, scheme))
    }
}

impl View for VScene {
    type V = SceneView;

    closed spec fn view(&self) -> SceneView {
        SceneView {
            shapes: self.polygons@,
            redraw_requested: self.needs_redraw,
            scene_type: self.scene_type,
        }
    }
}

impl Default for VScene {
    fn default() -> (r: Self)
        ensures
            r@ == SceneView::initial(),
    {
        VScene { polygons: Vec::new(), needs_redraw: true, scene_type: SceneType::Hot }
    }
}

impl VScene {
    pub fn set_scene_type(&mut self, scene_type: SceneType)
        ensures
            final(self)@ == old(self)@.with_scene_type(scene_type),
            final(self)@.shapes == old(self)@.shapes,
            final(self)@.redraw_requested == old(self)@.redraw_requested,
            final(self)@.scene_type == scene_type,
    {
        self.scene_type = scene_type;
    }

    /// Removes every shape; the scene then needs a redraw.
    pub fn clear(&mut self)
        ensures
            final(self)@ == old(self)@.cleared(),
            final(self)@.shapes.len() == 0,
            final(self)@.redraw_requested,
            final(self)@.scene_type == old(self)@.scene_type,
    {
        self.polygons.clear();
        self.set_needs_redraw(true);
    }

    /// Adds a shape on top of the others; the scene then needs a redraw.
    pub fn add_shape<S: Into<VShape>>(&mut self, polygon: S)
        ensures
            final(self)@.shapes.len() == old(self)@.shapes.len() + 1,
            call_ensures(S::into, (polygon,), final(self)@.shapes.last()),
            final(self)@ == old(self)@.with_shape(final(self)@.shapes.last()),
            final(self)@.shapes.take(old(self)@.shapes.len() as int) == old(self)@.shapes,
            final(self)@.redraw_requested,
            final(self)@.scene_type == old(self)@.scene_type,
    {
        self.polygons.push(polygon.into());
        self.set_needs_redraw(true);
    }

    /// The shapes in drawing order.
    pub fn shapes(&self) -> (r: &[VShape])
        ensures
            r@ == self@.shapes,
    {
        self.polygons.as_slice()
    }

    /// Whether the scene must be drawn again: always for a hot scene, and
    /// for a cold one when a redraw was asked for.
    pub fn needs_redraw(&self) -> (r: bool)
        ensures
            r == self@.needs_redraw(),
    {
        if self.scene_type.is_hot() {
            return true;
        }
        self.needs_redraw
    }

    pub fn set_needs_redraw(&mut self, state: bool)
        ensures
            final(self)@ == old(self)@.with_redraw_requested(state),
            final(self)@.shapes == old(self)@.shapes,
            final(self)@.redraw_requested == state,
            final(self)@.scene_type == old(self)@.scene_type,
    {
        self.needs_redraw = state;
    }

    /// Starts drawing the scene under `scheme`: the redraw request is
    /// cleared, and the style of each shape, in drawing order, is returned.
    pub fn begin_draw(&mut self, scheme: ColorScheme) -> (r: Vec<PaintStyle>)
        ensures
            r@ == old(self)@.paint_plan(scheme),
            final(self)@ == old(self)@.with_redraw_requested(false),
            final(self)@.shapes == old(self)@.shapes,
            !final(self)@.redraw_requested,
            final(self)@.scene_type == old(self)@.scene_type,
            r@.len() == old(self)@.shapes.len(),
            forall|i: int|
                0 <= i < r@.len() ==> #[trigger] r@[i] == paint_style_of(
                    old(self)@.shapes[i]@,
                    scheme,
                ),
    {
        self.set_needs_redraw(false);
        self.paint_plan(scheme)
    }

    /// The style each shape is painted with under `scheme`, in drawing
    /// order.
    pub fn paint_plan(&self, scheme: ColorScheme) -> (r: Vec<PaintStyle>)
        ensures
            r@ == self@.paint_plan(scheme),
            r@.len() == self@.shapes.len(),
            forall|i: int|
                0 <= i < r@.len() ==> #[trigger] r@[i] == paint_style_of(self@.shapes[i]@, scheme),
    {
        let mut plan: Vec<PaintStyle> = Vec::new();
        let n = self.polygons.len();
        for ix in 0..n
            invariant
                n == self.polygons@.len(),
                plan@ == self@.paint_plan(scheme).take(ix as int),
        {
            let style = self.polygons[ix].paint_style(scheme);
            plan.push(style);
            assert(plan@ =~= self@.paint_plan(scheme).take(ix + 1));
        }
        assert(plan@ =~= self@.paint_plan(scheme));
        plan
    }
}

} // verus!
