//! Registered light spots under stable identifiers.
use vstd::prelude::*;

verus! {

/// Light spot descriptor type: the spot's insertion index.
pub type SpotId = usize;

/// The spots of a canvas in registration order.
///
/// A spot is never removed, so the identifier that `add` hands out keeps
/// naming the same spot for the registry's whole life.
pub struct SpotRegistry<T> {
    /// Spots in registration order
    spots: Vec<T>,
}

impl<T> View for SpotRegistry<T> {
    type V = Seq<T>;

    closed spec fn view(&self) -> Seq<T> {
        self.spots@
    }
}

impl<T> SpotRegistry<T> {
    /// Creates a registry without spots.
    pub fn new() -> (r: SpotRegistry<T>)
        ensures
            r@ == Seq::<T>::empty(),
    {
        SpotRegistry { spots: Vec::new() }
    }

    /// Number of registered spots.
    pub fn len(&self) -> (r: usize)
        ensures
            r == self@.len(),
    {
        self.spots.len()
    }

    /// Registers a spot and returns its identifier, the number of spots
    /// registered before it.
    pub fn add(&mut self, spot: T) -> (id: SpotId)
        ensures
            id == old(self)@.len(),
            final(self)@ == old(self)@.push(spot),
    {
        let id = self.spots.len();
        self.spots.push(spot);
        id
    }

    /// The spot registered under `id`, if there is one.
    pub fn get(&self, id: SpotId) -> (r: Option<&T>)
        ensures
            r is None <==> id >= self@.len(),
            r matches Some(s) ==> *s == self@[id as int],
    {
        if id < self.spots.len() {
            Some(&self.spots[id])
        } else {
            None
        }
    }

    /// Replaces the spot registered under `id`. An identifier that `add`
    /// never returned changes nothing, and is no error.
    pub fn set(&mut self, id: SpotId, spot: T)
        ensures
            id < old(self)@.len() ==> final(self)@ == old(self)@.update(id as int, spot),
            id >= old(self)@.len() ==> final(self)@ == old(self)@,
    {
        if id < self.spots.len() {
            self.spots.set(id, spot);
        }
    }
}

} // verus!
