use vstd::prelude::*;

use crate::data::basics::RenderingMode;
use crate::renderers::scene::VScene;
use crate::renderers::static_core::VectorizerView;

verus! {

//―――――――――――――――――――――――――――――――――――――――――――――――――――――――――――――――――――――――――――――
// DATA TYPES
//―――――――――――――――――――――――――――――――――――――――――――――――――――――――――――――――――――――――――――――

/// `SN` scenes with a growable list of layers of type `L`.
pub struct DynVectorizer<const SN: usize, L> {
    scenes: [VScene; SN],
    layers: Vec<L>,
    /// Use GPU compute-based renderer (default) or a hybrid CPU-GPU renderer.
    rendering_mode: RenderingMode,
}

impl<const SN: usize, L> View for DynVectorizer<SN, L> {
    type V = VectorizerView<L>;

    closed spec fn view(&self) -> VectorizerView<L> {
        VectorizerView {
            scenes: self.scenes@,
            layers: self.layers@,
            rendering_mode: self.rendering_mode,
        }
    }
}

pub struct DynVectorizerRef<'a, 'b, const SN: usize, const LN: usize, L> {
    pub scenes: &'a [VScene; SN],
    pub layers: &'b [L; LN],
}

pub struct DynVectorizerMut<'a, 'b, const SN: usize, const LN: usize, L> {
    pub scenes: &'a mut [VScene; SN],
    pub layers: &'b mut [L; LN],
}

//―――――――――――――――――――――――――――――――――――――――――――――――――――――――――――――――――――――――――――――
// MISCELLANEOUS
//―――――――――――――――――――――――――――――――――――――――――――――――――――――――――――――――――――――――――――――

impl<const SN: usize, L> DynVectorizer<SN, L> {
    /// A vectorizer holds exactly `SN` scenes.
    pub proof fn lemma_scene_count(&self)
        ensures
            self@.scenes.len() == SN,
    {
    }

    pub fn get_scene(&self, ix: usize) -> (r: Option<&VScene>)
        ensures
            (r is Some) == (ix < SN),
            r matches Some(s) ==> *s == self@.scenes[ix as int],
    {
        if ix < SN {
            Some(&self.scenes[ix])
        } else {
            None
        }
    }

    pub fn scenes(&self) -> (r: &[VScene; SN])
        ensures
            r@ == self@.scenes,
    {
        &self.scenes
    }

    pub fn scenes_mut(&mut self) -> (r: &mut [VScene; SN])
        ensures
            r@ == old(self)@.scenes,
            final(self)@ == old(self)@.with_scenes(final(r)@),
    {
        &mut self.scenes
    }

    /// The backend rendering mode the layers are created with.
    pub fn rendering_mode(&self) -> (r: RenderingMode)
        ensures
            r == self@.rendering_mode,
    {
        self.rendering_mode
    }
}

impl<L> DynVectorizer<1, L> {
    pub fn scene(&self) -> (r: &VScene)
        ensures
            *r == self@.scenes[0],
    {
        &self.scenes[0]
    }
}

impl<L> DynVectorizer<2, L> {
    pub fn scene1(&self) -> (r: &VScene)
        ensures
            *r == self@.scenes[0],
    {
        &self.scenes[0]
    }

    pub fn scene2(&self) -> (r: &VScene)
        ensures
            *r == self@.scenes[1],
    {
        &self.scenes[1]
    }
}

impl<L> DynVectorizer<3, L> {
    pub fn scene1(&self) -> (r: &VScene)
        ensures
            *r == self@.scenes[0],
    {
        &self.scenes[0]
    }

    pub fn scene2(&self) -> (r: &VScene)
        ensures
            *r == self@.scenes[1],
    {
        &self.scenes[1]
    }

    pub fn scene3(&self) -> (r: &VScene)
        ensures
            *r == self@.scenes[2],
    {
        &self.scenes[2]
    }
}

impl<L> DynVectorizer<4, L> {
    pub fn scene1(&self) -> (r: &VScene)
        ensures
            *r == self@.scenes[0],
    {
        &self.scenes[0]
    }

    pub fn scene2(&self) -> (r: &VScene)
        ensures
            *r == self@.scenes[1],
    {
        &self.scenes[1]
    }

    pub fn scene3(&self) -> (r: &VScene)
        ensures
            *r == self@.scenes[2],
    {
        &self.scenes[2]
    }

    pub fn scene4(&self) -> (r: &VScene)
        ensures
            *r == self@.scenes[3],
    {
        &self.scenes[3]
    }
}

//―――――――――――――――――――――――――――――――――――――――――――――――――――――――――――――――――――――――――――――
// INIT
//―――――――――――――――――――――――――――――――――――――――――――――――――――――――――――――――――――――――――――――

impl<L> Default for DynVectorizer<1, L> {
    fn default() -> (r: Self)
        ensures
            r@.is_fresh(),
            r@.layers.len() == 0,
    {
        DynVectorizer {
            scenes: [VScene::default()],
            layers: Vec::default(),
            rendering_mode: RenderingMode::default(),
        }
    }
}

impl<L> Default for DynVectorizer<2, L> {
    fn default() -> (r: Self)
        ensures
            r@.is_fresh(),
            r@.layers.len() == 0,
    {
        DynVectorizer {
            scenes: [VScene::default(), VScene::default()],
            layers: Vec::default(),
            rendering_mode: RenderingMode::default(),
        }
    }
}

impl<L> Default for DynVectorizer<3, L> {
    fn default() -> (r: Self)
        ensures
            r@.is_fresh(),
            r@.layers.len() == 0,
    {
        DynVectorizer {
            scenes: [VScene::default(), VScene::default(), VScene::default()],
            layers: Vec::default(),
            rendering_mode: RenderingMode::default(),
        }
    }
}

impl<L> Default for DynVectorizer<4, L> {
    fn default() -> (r: Self)
        ensures
            r@.is_fresh(),
            r@.layers.len() == 0,
    {
        DynVectorizer {
            scenes: [VScene::default(), VScene::default(), VScene::default(), VScene::default()],
            layers: Vec::default(),
            rendering_mode: RenderingMode::default(),
        }
    }
}

} // verus!
