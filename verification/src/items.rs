use vstd::prelude::*;
use crate::model::BlendParamMapView;
use crate::types::{ItemCollection, ObjectView, ViewRef};

verus! {

/// A run of objects that can be indexed and counted.
pub trait ItemArray<'model, T> {
    /// How many objects the run spans.
    spec fn spec_count(&self) -> nat;

    /// Position `index` can be looked up without overflowing an index.
    spec fn index_fits(&self, index: usize) -> bool;

    /// The view of the `index`-th object, if the run reaches it.
    fn index(&self, index: usize) -> (r: Option<ViewRef<'model, T>>)
        requires
            self.index_fits(index),
        ensures
            r is Some ==> index < self.spec_count(),
    ;

    fn count(&self) -> (r: usize)
        ensures
            r == self.spec_count(),
    ;

    /// True when the run holds no object.
    fn is_empty(&self) -> (r: bool)
        ensures
            r == (self.spec_count() == 0),
    {
        self.count() == 0
    }
}

impl<'model, T: ObjectView<'model>> ItemArray<'model, T> for ItemCollection<'model, T> {
    open spec fn spec_count(&self) -> nat {
        if self.start <= self.limit {
            (self.limit - self.start) as nat
        } else {
            0
        }
    }

    open spec fn index_fits(&self, index: usize) -> bool {
        index <= u32::MAX && self.start + index <= u32::MAX
    }

    fn index(&self, index: usize) -> (r: Option<ViewRef<'model, T>>)
        ensures
            r is Some <==> self.start + index < self.limit && self.start + index < T::class_count(self.model),
            r matches Some(v) ==> v.0.spec_model() == self.model && v.0.spec_idx() == self.start + index,
    {
        ItemCollection::index(self, index)
    }

    fn count(&self) -> (r: usize) {
        if self.start <= self.limit {
            ItemCollection::count(self)
        } else {
            0
        }
    }
}

/// A parameter map that blends forms: the keypoint at which the blend is neutral.
pub trait BlendParamMap<'model> {
    /// The map's object exists.
    spec fn reachable(&self) -> bool;

    fn neutral_index(&self) -> u32
        requires
            self.reachable(),
    ;
}

impl<'model> BlendParamMap<'model> for BlendParamMapView<'model> {
    open spec fn reachable(&self) -> bool {
        self.valid()
    }

    fn neutral_index(&self) -> (r: u32)
        ensures
            r == self.model.blend_param_map.neutral_index@[self.idx as int],
    {
        *self.f_neutral_index()
    }
}

/// Ids that number the objects of a class from zero, one after the other.
#[derive(Debug, Copy, Clone)]
pub struct Sequential;

/// Ids that may leave gaps.
#[derive(Debug, Copy, Clone)]
pub struct Sparse;

} // verus!
