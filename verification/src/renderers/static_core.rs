use vstd::prelude::*;

use crate::data::basics::RenderingMode;
use crate::renderers::scene::{SceneView, VScene};

verus! {

//―――――――――――――――――――――――――――――――――――――――――――――――――――――――――――――――――――――――――――――
// DATA TYPES
//―――――――――――――――――――――――――――――――――――――――――――――――――――――――――――――――――――――――――――――

/// `SN` scenes drawn through `LN` layers of type `L`.
///
/// The const generic arguments should satisfy the following rules:
/// - `∀ SN. 4 >= SN >= 1`
/// - `SN == LN` or `LN == 1`
///
/// Where,
/// - `4 >= SN >= 1 && LN == 1`:
///     * Render all scenes with only a single rendering context.
/// - `4 >= SN >= 1 && SN == LN`:
///     * Multiple layers with their own rendering context.
pub struct Vectorizer<const SN: usize, const LN: usize, L> {
    scenes: [VScene; SN],
    layers: [L; LN],
    /// Use GPU compute-based renderer (default) or a hybrid CPU-GPU renderer.
    rendering_mode: RenderingMode,
}

/// What a vectorizer holds: its scenes, its layers and its rendering mode.
pub struct VectorizerView<L> {
    pub scenes: Seq<VScene>,
    pub layers: Seq<L>,
    pub rendering_mode: RenderingMode,
}

impl<L> VectorizerView<L> {
    pub open spec fn with_scenes(self, scenes: Seq<VScene>) -> VectorizerView<L> {
        VectorizerView { scenes, layers: self.layers, rendering_mode: self.rendering_mode }
    }

    pub open spec fn with_layers(self, layers: Seq<L>) -> VectorizerView<L> {
        VectorizerView { scenes: self.scenes, layers, rendering_mode: self.rendering_mode }
    }
}

impl<L> VectorizerView<L> {
    /// Every scene is new and the rendering mode is the default one.
    pub open spec fn is_fresh(self) -> bool {
        &&& forall|i: int| 0 <= i < self.scenes.len() ==> (#[trigger] self.scenes[i])@ == SceneView::initial()
        &&& self.rendering_mode == RenderingMode::Compute
    }
}

impl<const SN: usize, const LN: usize, L> View for Vectorizer<SN, LN, L> {
    type V = VectorizerView<L>;

    closed spec fn view(&self) -> VectorizerView<L> {
        VectorizerView {
            scenes: self.scenes@,
            layers: self.layers@,
            rendering_mode: self.rendering_mode,
        }
    }
}

pub struct VectorizerRef<'a, 'b, const SN: usize, const LN: usize, L> {
    pub scenes: &'a [VScene; SN],
    pub layers: &'b [L; LN],
}

pub struct VectorizerMut<'a, 'b, const SN: usize, const LN: usize, L> {
    pub scenes: &'a mut [VScene; SN],
    pub layers: &'b mut [L; LN],
}

//―――――――――――――――――――――――――――――――――――――――――――――――――――――――――――――――――――――――――――――
// MISCELLANEOUS
//―――――――――――――――――――――――――――――――――――――――――――――――――――――――――――――――――――――――――――――

impl<const SN: usize, const LN: usize, L> Vectorizer<SN, LN, L> {
    /// A vectorizer holds exactly `SN` scenes and `LN` layers.
    pub proof fn lemma_counts(&self)
        ensures
            self@.scenes.len() == SN,
            self@.layers.len() == LN,
    {
    }

    pub fn head_layer(&self) -> (r: &L)
        requires
            LN > 0,
        ensures
            *r == self@.layers[0],
    {
        &self.layers[0]
    }

    pub fn head_layer_mut(&mut self) -> (r: &mut L)
        requires
            LN > 0,
        ensures
            *r == old(self)@.layers[0],
            final(self)@ == old(self)@.with_layers(old(self)@.layers.update(0, *final(r))),
    {
        &mut self.layers[0]
    }

    pub fn get_layer(&self, ix: usize) -> (r: Option<&L>)
        ensures
            (r is Some) == (ix < LN),
            r matches Some(l) ==> *l == self@.layers[ix as int],
    {
        if ix < LN {
            Some(&self.layers[ix])
        } else {
            None
        }
    }

    pub fn get_scene(&self, ix: usize) -> (r: Option<&VScene>)
        ensures
            (r is Some) == (ix < SN),
            r matches Some(s) ==> *s == self@.scenes[ix as int],
    {
        if ix < SN {
            Some(&self.scenes[ix])
        } else {
            None
        }
    }

    pub fn scenes(&self) -> (r: &[VScene; SN])
        ensures
            r@ == self@.scenes,
    {
        &self.scenes
    }

    pub fn scenes_mut(&mut self) -> (r: &mut [VScene; SN])
        ensures
            r@ == old(self)@.scenes,
            final(self)@ == old(self)@.with_scenes(final(r)@),
    {
        &mut self.scenes
    }

    /// The backend rendering mode the layers are created with.
    pub fn rendering_mode(&self) -> (r: RenderingMode)
        ensures
            r == self@.rendering_mode,
    {
        self.rendering_mode
    }

    pub fn as_vectorizer_ref(&self) -> (r: VectorizerRef<'_, '_, SN, LN, L>)
        ensures
            r.scenes@ == self@.scenes,
            r.layers@ == self@.layers,
    {
        VectorizerRef { scenes: &self.scenes, layers: &self.layers }
    }

    pub fn as_vectorizer_mut(&mut self) -> (r: VectorizerMut<'_, '_, SN, LN, L>)
        ensures
            r.scenes@ == old(self)@.scenes,
            r.layers@ == old(self)@.layers,
            final(self)@ == old(self)@.with_scenes(final(r.scenes)@).with_layers(
                final(r.layers)@,
            ),
    {
        VectorizerMut { scenes: &mut self.scenes, layers: &mut self.layers }
    }
}
impl<const LN: usize, L> Vectorizer<1, LN, L> {
    pub fn scene(&self) -> (r: &VScene)
        ensures
            *r == self@.scenes[0],
    {
        &self.scenes[0]
    }
}

impl<const LN: usize, L> Vectorizer<2, LN, L> {
    pub fn scene1(&self) -> (r: &VScene)
        ensures
            *r == self@.scenes[0],
    {
        &self.scenes[0]
    }

    pub fn scene2(&self) -> (r: &VScene)
        ensures
            *r == self@.scenes[1],
    {
        &self.scenes[1]
    }
}

impl<const LN: usize, L> Vectorizer<3, LN, L> {
    pub fn scene1(&self) -> (r: &VScene)
        ensures
            *r == self@.scenes[0],
    {
        &self.scenes[0]
    }

    pub fn scene2(&self) -> (r: &VScene)
        ensures
            *r == self@.scenes[1],
    {
        &self.scenes[1]
    }

    pub fn scene3(&self) -> (r: &VScene)
        ensures
            *r == self@.scenes[2],
    {
        &self.scenes[2]
    }
}

impl<const LN: usize, L> Vectorizer<4, LN, L> {
    pub fn scene1(&self) -> (r: &VScene)
        ensures
            *r == self@.scenes[0],
    {
        &self.scenes[0]
    }

    pub fn scene2(&self) -> (r: &VScene)
        ensures
            *r == self@.scenes[1],
    {
        &self.scenes[1]
    }

    pub fn scene3(&self) -> (r: &VScene)
        ensures
            *r == self@.scenes[2],
    {
        &self.scenes[2]
    }

    pub fn scene4(&self) -> (r: &VScene)
        ensures
            *r == self@.scenes[3],
    {
        &self.scenes[3]
    }
}

impl<const LN: usize, L> Vectorizer<1, LN, L> {
    pub fn scene_mut(&mut self) -> (r: &mut VScene)
        ensures
            *r == old(self)@.scenes[0],
            final(self)@ == old(self)@.with_scenes(old(self)@.scenes.update(0, *final(r))),
    {
        &mut self.scenes[0]
    }
}

impl<const LN: usize, L> Vectorizer<2, LN, L> {
    pub fn scene1_mut(&mut self) -> (r: &mut VScene)
        ensures
            *r == old(self)@.scenes[0],
            final(self)@ == old(self)@.with_scenes(old(self)@.scenes.update(0, *final(r))),
    {
        &mut self.scenes[0]
    }

    pub fn scene2_mut(&mut self) -> (r: &mut VScene)
        ensures
            *r == old(self)@.scenes[1],
            final(self)@ == old(self)@.with_scenes(old(self)@.scenes.update(1, *final(r))),
    {
        &mut self.scenes[1]
    }
}

impl<const LN: usize, L> Vectorizer<3, LN, L> {
    pub fn scene1_mut(&mut self) -> (r: &mut VScene)
        ensures
            *r == old(self)@.scenes[0],
            final(self)@ == old(self)@.with_scenes(old(self)@.scenes.update(0, *final(r))),
    {
        &mut self.scenes[0]
    }

    pub fn scene2_mut(&mut self) -> (r: &mut VScene)
        ensures
            *r == old(self)@.scenes[1],
            final(self)@ == old(self)@.with_scenes(old(self)@.scenes.update(1, *final(r))),
    {
        &mut self.scenes[1]
    }

    pub fn scene3_mut(&mut self) -> (r: &mut VScene)
        ensures
            *r == old(self)@.scenes[2],
            final(self)@ == old(self)@.with_scenes(old(self)@.scenes.update(2, *final(r))),
    {
        &mut self.scenes[2]
    }
}

impl<const LN: usize, L> Vectorizer<4, LN, L> {
    pub fn scene1_mut(&mut self) -> (r: &mut VScene)
        ensures
            *r == old(self)@.scenes[0],
            final(self)@ == old(self)@.with_scenes(old(self)@.scenes.update(0, *final(r))),
    {
        &mut self.scenes[0]
    }

    pub fn scene2_mut(&mut self) -> (r: &mut VScene)
        ensures
            *r == old(self)@.scenes[1],
            final(self)@ == old(self)@.with_scenes(old(self)@.scenes.update(1, *final(r))),
    {
        &mut self.scenes[1]
    }

    pub fn scene3_mut(&mut self) -> (r: &mut VScene)
        ensures
            *r == old(self)@.scenes[2],
            final(self)@ == old(self)@.with_scenes(old(self)@.scenes.update(2, *final(r))),
    {
        &mut self.scenes[2]
    }

    pub fn scene4_mut(&mut self) -> (r: &mut VScene)
        ensures
            *r == old(self)@.scenes[3],
            final(self)@ == old(self)@.with_scenes(old(self)@.scenes.update(3, *final(r))),
    {
        &mut self.scenes[3]
    }
}

impl<const SN: usize, L> Vectorizer<SN, 1, L> {
    pub fn layer(&self) -> (r: &L)
        ensures
            *r == self@.layers[0],
    {
        &self.layers[0]
    }

    /// Whether all scenes are drawn through one rendering context.
    pub fn is_single_instance() -> (r: bool)
        ensures
            r == (1 == 1),
    {
        true
    }

    /// Whether each scene is drawn through a rendering context of its own.
    pub fn is_multi_instance() -> (r: bool)
        ensures
            r == (1 > 1),
    {
        false
    }
}

impl<const SN: usize, L> Vectorizer<SN, 2, L> {
    pub fn layer1(&self) -> (r: &L)
        ensures
            *r == self@.layers[0],
    {
        &self.layers[0]
    }

    pub fn layer2(&self) -> (r: &L)
        ensures
            *r == self@.layers[1],
    {
        &self.layers[1]
    }

    /// Whether all scenes are drawn through one rendering context.
    pub fn is_single_instance() -> (r: bool)
        ensures
            r == (2 == 1),
    {
        false
    }

    /// Whether each scene is drawn through a rendering context of its own.
    pub fn is_multi_instance() -> (r: bool)
        ensures
            r == (2 > 1),
    {
        true
    }
}

impl<const SN: usize, L> Vectorizer<SN, 3, L> {
    pub fn layer1(&self) -> (r: &L)
        ensures
            *r == self@.layers[0],
    {
        &self.layers[0]
    }

    pub fn layer2(&self) -> (r: &L)
        ensures
            *r == self@.layers[1],
    {
        &self.layers[1]
    }

    pub fn layer3(&self) -> (r: &L)
        ensures
            *r == self@.layers[2],
    {
        &self.layers[2]
    }

    /// Whether all scenes are drawn through one rendering context.
    pub fn is_single_instance() -> (r: bool)
        ensures
            r == (3 == 1),
    {
        false
    }

    /// Whether each scene is drawn through a rendering context of its own.
    pub fn is_multi_instance() -> (r: bool)
        ensures
            r == (3 > 1),
    {
        true
    }
}

impl<const SN: usize, L> Vectorizer<SN, 4, L> {
    pub fn layer1(&self) -> (r: &L)
        ensures
            *r == self@.layers[0],
    {
        &self.layers[0]
    }

    pub fn layer2(&self) -> (r: &L)
        ensures
            *r == self@.layers[1],
    {
        &self.layers[1]
    }

    pub fn layer3(&self) -> (r: &L)
        ensures
            *r == self@.layers[2],
    {
        &self.layers[2]
    }

    pub fn layer4(&self) -> (r: &L)
        ensures
            *r == self@.layers[3],
    {
        &self.layers[3]
    }

    /// Whether all scenes are drawn through one rendering context.
    pub fn is_single_instance() -> (r: bool)
        ensures
            r == (4 == 1),
    {
        false
    }

    /// Whether each scene is drawn through a rendering context of its own.
    pub fn is_multi_instance() -> (r: bool)
        ensures
            r == (4 > 1),
    {
        true
    }
}

impl<const SN: usize, L> Vectorizer<SN, 1, L> {
    pub fn layer_mut(&mut self) -> (r: &mut L)
        ensures
            *r == old(self)@.layers[0],
            final(self)@ == old(self)@.with_layers(old(self)@.layers.update(0, *final(r))),
    {
        &mut self.layers[0]
    }
}

impl<const SN: usize, L> Vectorizer<SN, 2, L> {
    pub fn layer1_mut(&mut self) -> (r: &mut L)
        ensures
            *r == old(self)@.layers[0],
            final(self)@ == old(self)@.with_layers(old(self)@.layers.update(0, *final(r))),
    {
        &mut self.layers[0]
    }

    pub fn layer2_mut(&mut self) -> (r: &mut L)
        ensures
            *r == old(self)@.layers[1],
            final(self)@ == old(self)@.with_layers(old(self)@.layers.update(1, *final(r))),
    {
        &mut self.layers[1]
    }
}

impl<const SN: usize, L> Vectorizer<SN, 3, L> {
    pub fn layer1_mut(&mut self) -> (r: &mut L)
        ensures
            *r == old(self)@.layers[0],
            final(self)@ == old(self)@.with_layers(old(self)@.layers.update(0, *final(r))),
    {
        &mut self.layers[0]
    }

    pub fn layer2_mut(&mut self) -> (r: &mut L)
        ensures
            *r == old(self)@.layers[1],
            final(self)@ == old(self)@.with_layers(old(self)@.layers.update(1, *final(r))),
    {
        &mut self.layers[1]
    }

    pub fn layer3_mut(&mut self) -> (r: &mut L)
        ensures
            *r == old(self)@.layers[2],
            final(self)@ == old(self)@.with_layers(old(self)@.layers.update(2, *final(r))),
    {
        &mut self.layers[2]
    }
}

impl<const SN: usize, L> Vectorizer<SN, 4, L> {
    pub fn layer1_mut(&mut self) -> (r: &mut L)
        ensures
            *r == old(self)@.layers[0],
            final(self)@ == old(self)@.with_layers(old(self)@.layers.update(0, *final(r))),
    {
        &mut self.layers[0]
    }

    pub fn layer2_mut(&mut self) -> (r: &mut L)
        ensures
            *r == old(self)@.layers[1],
            final(self)@ == old(self)@.with_layers(old(self)@.layers.update(1, *final(r))),
    {
        &mut self.layers[1]
    }

    pub fn layer3_mut(&mut self) -> (r: &mut L)
        ensures
            *r == old(self)@.layers[2],
            final(self)@ == old(self)@.with_layers(old(self)@.layers.update(2, *final(r))),
    {
        &mut self.layers[2]
    }

    pub fn layer4_mut(&mut self) -> (r: &mut L)
        ensures
            *r == old(self)@.layers[3],
            final(self)@ == old(self)@.with_layers(old(self)@.layers.update(3, *final(r))),
    {
        &mut self.layers[3]
    }
}

//―――――――――――――――――――――――――――――――――――――――――――――――――――――――――――――――――――――――――――――
// DRAW - PLANNING
//―――――――――――――――――――――――――――――――――――――――――――――――――――――――――――――――――――――――――――――

/// How the scenes of a vectorizer are spread over its layers.
#[derive(Debug, Clone, Copy, PartialEq, Eq, Structural)]
pub enum DrawLayout {
    /// Every scene is drawn by the first layer, into the first drawable.
    Single,
    /// Scene `i` is drawn by layer `i`, into drawable `i`.
    MultiInstance,
}

/// The layout of `sn` scenes over `ln` layers: one to four scenes, drawn
/// either all through a single layer or each through a layer of its own.
/// Other counts have no layout.
pub open spec fn spec_draw_layout(sn: int, ln: int) -> Option<DrawLayout> {
    if 1 <= sn <= 4 && ln == 1 {
        Some(DrawLayout::Single)
    } else if 1 < sn <= 4 && ln == sn {
        Some(DrawLayout::MultiInstance)
    } else {
        None
    }
}

/// The layout of `sn` scenes over `ln` layers, if the counts allow one.
pub fn draw_layout(sn: usize, ln: usize) -> (r: Option<DrawLayout>)
    ensures
        r == spec_draw_layout(sn as int, ln as int),
{
    if 1 <= sn && sn <= 4 && ln == 1 {
        Some(DrawLayout::Single)
    } else if 1 < sn && sn <= 4 && ln == sn {
        Some(DrawLayout::MultiInstance)
    } else {
        None
    }
}

/// One unit of drawing: layer `layer` draws the scenes
/// `first_scene .. first_scene + scene_count`, in order, into drawable
/// `drawable` of the draw command.
#[derive(Debug, Clone, Copy, PartialEq, Eq, Structural)]
pub struct DrawJob {
    pub layer: usize,
    pub drawable: usize,
    pub first_scene: usize,
    pub scene_count: usize,
}

impl DrawJob {
    /// Whether this job draws scene `i`.
    pub open spec fn covers(self, i: int) -> bool {
        self.first_scene <= i < self.first_scene + self.scene_count
    }
}

/// The jobs that draw `sn` scenes in layout `layout`.
pub open spec fn spec_draw_jobs(sn: int, layout: DrawLayout) -> Seq<DrawJob> {
    match layout {
        DrawLayout::Single => seq![
            DrawJob { layer: 0, drawable: 0, first_scene: 0, scene_count: sn as usize },
        ],
        DrawLayout::MultiInstance => Seq::new(
            sn as nat,
            |i: int| DrawJob { layer: i as usize, drawable: i as usize, first_scene: i as usize, scene_count: 1 },
        ),
    }
}

/// Every job names a layer and a drawable below `ln` and scenes below `sn`.
pub open spec fn jobs_within(jobs: Seq<DrawJob>, sn: int, ln: int) -> bool {
    forall|j: int|
        0 <= j < jobs.len() ==> {
            &&& (#[trigger] jobs[j]).layer < ln
            &&& jobs[j].drawable < ln
            &&& jobs[j].first_scene + jobs[j].scene_count <= sn
        }
}

/// Scene `i` is drawn by exactly one of `jobs`.
pub open spec fn scene_drawn_once(jobs: Seq<DrawJob>, i: int) -> bool {
    &&& exists|j: int| 0 <= j < jobs.len() && (#[trigger] jobs[j]).covers(i)
    &&& forall|j1: int, j2: int|
        0 <= j1 < jobs.len() && 0 <= j2 < jobs.len() && (#[trigger] jobs[j1]).covers(i)
            && (#[trigger] jobs[j2]).covers(i) ==> j1 == j2
}

/// Every scene below `sn` is drawn by exactly one job.
pub open spec fn jobs_draw_each_scene_once(jobs: Seq<DrawJob>, sn: int) -> bool {
    forall|i: int| 0 <= i < sn ==> #[trigger] scene_drawn_once(jobs, i)
}

/// Drawing a vectorizer draws each of its scenes exactly once, through one
/// of its layers and into one of the drawables of the draw command.
pub proof fn lemma_draw_jobs_draw_each_scene_once(sn: int, ln: int)
    requires
        spec_draw_layout(sn, ln) is Some,
    ensures
        jobs_within(spec_draw_jobs(sn, spec_draw_layout(sn, ln)->0), sn, ln),
        jobs_draw_each_scene_once(spec_draw_jobs(sn, spec_draw_layout(sn, ln)->0), sn),
{
    let jobs = spec_draw_jobs(sn, spec_draw_layout(sn, ln)->0);
    assert forall|i: int| 0 <= i < sn implies #[trigger] scene_drawn_once(jobs, i) by {
        if ln == 1 {
            assert(jobs[0].covers(i));
        } else {
            assert(jobs[i].covers(i));
        }
    }
}

/// With one layer, every scene is drawn, in order, by the first layer into
/// the first drawable; with one layer per scene, scene `i` is drawn by
/// layer `i` into drawable `i`, and by no other job.
pub proof fn lemma_draw_jobs_pair_scenes_with_layers_and_drawables(sn: int, ln: int)
    requires
        spec_draw_layout(sn, ln) is Some,
    ensures
        ln == 1 ==> spec_draw_jobs(sn, spec_draw_layout(sn, ln)->0).len() == 1,
        ln == 1 ==> spec_draw_jobs(sn, spec_draw_layout(sn, ln)->0)[0].layer == 0,
        ln == 1 ==> spec_draw_jobs(sn, spec_draw_layout(sn, ln)->0)[0].drawable == 0,
        ln == 1 ==> spec_draw_jobs(sn, spec_draw_layout(sn, ln)->0)[0].first_scene == 0,
        ln == 1 ==> spec_draw_jobs(sn, spec_draw_layout(sn, ln)->0)[0].scene_count == sn,
        ln > 1 ==> spec_draw_jobs(sn, spec_draw_layout(sn, ln)->0).len() == sn,
        ln > 1 ==> forall|j: int|
            0 <= j < sn ==> {
                &&& (#[trigger] spec_draw_jobs(sn, spec_draw_layout(sn, ln)->0)[j]).layer == j
                &&& spec_draw_jobs(sn, spec_draw_layout(sn, ln)->0)[j].drawable == j
                &&& spec_draw_jobs(sn, spec_draw_layout(sn, ln)->0)[j].first_scene == j
                &&& spec_draw_jobs(sn, spec_draw_layout(sn, ln)->0)[j].scene_count == 1
            },
{
}

/// A vectorizer with one layer draws in the single layout, one with more
/// layers in the multi-instance layout.
pub proof fn lemma_instance_kind_matches_layout(sn: int, ln: int)
    requires
        spec_draw_layout(sn, ln) is Some,
    ensures
        (spec_draw_layout(sn, ln)->0 == DrawLayout::Single) == (ln == 1),
        (spec_draw_layout(sn, ln)->0 == DrawLayout::MultiInstance) == (ln > 1),
{
}

impl<const SN: usize, const LN: usize, L> Vectorizer<SN, LN, L> {
    /// The jobs that draw this vectorizer's scenes through its layers.
    pub fn draw_jobs(&self) -> (r: Vec<DrawJob>)
        requires
            spec_draw_layout(SN as int, LN as int) is Some,
        ensures
            r@ == spec_draw_jobs(SN as int, spec_draw_layout(SN as int, LN as int)->0),
            LN == 1 ==> r@ == seq![
                DrawJob { layer: 0, drawable: 0, first_scene: 0, scene_count: SN },
            ],
            LN > 1 ==> r@.len() == SN,
            LN > 1 ==> forall|j: int|
                0 <= j < r@.len() ==> {
                    &&& (#[trigger] r@[j]).layer == j
                    &&& r@[j].drawable == j
                    &&& r@[j].first_scene == j
                    &&& r@[j].scene_count == 1
                },
    {
        let mut jobs: Vec<DrawJob> = Vec::new();
        match draw_layout(SN, LN) {
            Some(DrawLayout::Single) => {
                jobs.push(DrawJob { layer: 0, drawable: 0, first_scene: 0, scene_count: SN });
                assert(jobs@ =~= spec_draw_jobs(SN as int, DrawLayout::Single));
            },
            _ => {
                for i in 0..SN
                    invariant
                        jobs@ =~= spec_draw_jobs(SN as int, DrawLayout::MultiInstance).take(i as int),
                {
                    jobs.push(DrawJob { layer: i, drawable: i, first_scene: i, scene_count: 1 });
                }
                assert(jobs@ =~= spec_draw_jobs(SN as int, DrawLayout::MultiInstance));
            },
        }
        jobs
    }
}

//―――――――――――――――――――――――――――――――――――――――――――――――――――――――――――――――――――――――――――――
// INIT
//―――――――――――――――――――――――――――――――――――――――――――――――――――――――――――――――――――――――――――――

impl<L: Default> Default for Vectorizer<1, 1, L> {
    fn default() -> (r: Self)
        ensures
            r@.is_fresh(),
            forall|i: int| 0 <= i < 1 ==> call_ensures(L::default, (), #[trigger] r@.layers[i]),
    {
        let r = Vectorizer {
            scenes: [VScene::default()],
            layers: [L::default()],
            rendering_mode: RenderingMode::default(),
        };
        r
    }
}

impl<L: Default> Default for Vectorizer<2, 1, L> {
    fn default() -> (r: Self)
        ensures
            r@.is_fresh(),
            forall|i: int| 0 <= i < 1 ==> call_ensures(L::default, (), #[trigger] r@.layers[i]),
    {
        let r = Vectorizer {
            scenes: [VScene::default(), VScene::default()],
            layers: [L::default()],
            rendering_mode: RenderingMode::default(),
        };
        r
    }
}

impl<L: Default> Default for Vectorizer<3, 1, L> {
    fn default() -> (r: Self)
        ensures
            r@.is_fresh(),
            forall|i: int| 0 <= i < 1 ==> call_ensures(L::default, (), #[trigger] r@.layers[i]),
    {
        let r = Vectorizer {
            scenes: [VScene::default(), VScene::default(), VScene::default()],
            layers: [L::default()],
            rendering_mode: RenderingMode::default(),
        };
        r
    }
}

impl<L: Default> Default for Vectorizer<4, 1, L> {
    fn default() -> (r: Self)
        ensures
            r@.is_fresh(),
            forall|i: int| 0 <= i < 1 ==> call_ensures(L::default, (), #[trigger] r@.layers[i]),
    {
        let r = Vectorizer {
            scenes: [VScene::default(), VScene::default(), VScene::default(), VScene::default()],
            layers: [L::default()],
            rendering_mode: RenderingMode::default(),
        };
        r
    }
}

impl<L: Default> Default for Vectorizer<2, 2, L> {
    fn default() -> (r: Self)
        ensures
            r@.is_fresh(),
            forall|i: int| 0 <= i < 2 ==> call_ensures(L::default, (), #[trigger] r@.layers[i]),
    {
        let r = Vectorizer {
            scenes: [VScene::default(), VScene::default()],
            layers: [L::default(), L::default()],
            rendering_mode: RenderingMode::default(),
        };
        r
    }
}

impl<L: Default> Default for Vectorizer<3, 3, L> {
    fn default() -> (r: Self)
        ensures
            r@.is_fresh(),
            forall|i: int| 0 <= i < 3 ==> call_ensures(L::default, (), #[trigger] r@.layers[i]),
    {
        let r = Vectorizer {
            scenes: [VScene::default(), VScene::default(), VScene::default()],
            layers: [L::default(), L::default(), L::default()],
            rendering_mode: RenderingMode::default(),
        };
        r
    }
}

impl<L: Default> Default for Vectorizer<4, 4, L> {
    fn default() -> (r: Self)
        ensures
            r@.is_fresh(),
            forall|i: int| 0 <= i < 4 ==> call_ensures(L::default, (), #[trigger] r@.layers[i]),
    {
        let r = Vectorizer {
            scenes: [VScene::default(), VScene::default(), VScene::default(), VScene::default()],
            layers: [L::default(), L::default(), L::default(), L::default()],
            rendering_mode: RenderingMode::default(),
        };
        r
    }
}

} // verus!
