use vstd::prelude::*;

verus! {

/// A layer of a vectorizer: it holds the rendering context of type `C`
/// that it draws with, made on its first draw and kept from then on.
pub struct VLayer<C> {
    context: Option<C>,
}

impl<C> View for VLayer<C> {
    type V = Option<C>;

    closed spec fn view(&self) -> Option<C> {
        self.context
    }
}

impl<C> Default for VLayer<C> {
    /// A layer that has not drawn yet, so has no context.
    fn default() -> (r: Self)
        ensures
            r@ is None,
    {
        VLayer { context: None }
    }
}

impl<C> VLayer<C> {
    /// Whether the layer already has its rendering context.
    pub fn has_context(&self) -> (r: bool)
        ensures
            r == (self@ is Some),
    {
        self.context.is_some()
    }

    /// The layer's rendering context, made by `make` if the layer has none
    /// yet; an existing context is kept, and `make` is then not called.
    pub fn prepare<F: FnOnce() -> C>(&mut self, make: F) -> (r: &mut C)
        requires
            old(self)@ is None ==> call_requires(make, ()),
        ensures
            old(self)@ matches Some(c) ==> *r == c,
            old(self)@ is None ==> call_ensures(make, (), *r),
            final(self)@ == Some(*final(r)),
    {
        if self.context.is_none() {
            self.context = Some(make());
        }
        match &mut self.context {
            Some(c) => c,
            None => vstd::pervasive::unreached(),
        }
    }
}

} // verus!
