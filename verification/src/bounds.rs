//! The bounds store: the last-requested screen rectangle of each surface, in
//! logical units, consulted when a hidden surface is made visible again.

use vstd::prelude::*;
use crate::table::KeyTable;

verus! {

/// A surface rectangle in logical units. A record with a tiny size or a
/// negative position is a "hidden" sentinel, not real geometry.
#[derive(Clone, Copy, Debug, PartialEq, Eq, Structural)]
pub struct WebViewBounds {
    pub x: i64,
    pub y: i64,
    pub width: i64,
    pub height: i64,
}

impl View for WebViewBounds {
    type V = WebViewBounds;

    open spec fn view(&self) -> WebViewBounds {
        *self
    }
}

/// Geometry that may actually be applied to a surface: non-negative position
/// and a size strictly above the hidden-sentinel threshold.
pub open spec fn spec_valid_bounds(b: WebViewBounds) -> bool {
    b.x >= 0 && b.y >= 0 && b.width > 10 && b.height > 10
}

/// Decides whether a stored rectangle is real geometry.
pub fn is_valid_bounds(b: &WebViewBounds) -> (r: bool)
    ensures
        r == spec_valid_bounds(*b),
{
    b.x >= 0 && b.y >= 0 && b.width > 10 && b.height > 10
}

/// The bounds store: the last-requested rectangle per surface id.
pub struct BoundsStore {
    bounds: KeyTable<WebViewBounds>,
}

impl View for BoundsStore {
    type V = Map<Seq<char>, WebViewBounds>;

    closed spec fn view(&self) -> Map<Seq<char>, WebViewBounds> {
        self.bounds@
    }
}

impl BoundsStore {
    pub closed spec fn wf(&self) -> bool {
        self.bounds.wf()
    }

    /// An empty store.
    pub fn new() -> (r: Self)
        ensures
            r.wf(),
            r@ =~= Map::<Seq<char>, WebViewBounds>::empty(),
    {
        BoundsStore { bounds: KeyTable::new() }
    }

    /// Records the rectangle last requested for `id`, overwriting any prior
    /// record.
    pub fn set(&mut self, id: String, b: WebViewBounds)
        requires
            old(self).wf(),
        ensures
            final(self).wf(),
            final(self)@ =~= old(self)@.insert(id@, b),
    {
        self.bounds.insert(id, b);
    }

    /// The stored rectangle for `id`, if any.
    pub fn get(&self, id: &str) -> (r: Option<WebViewBounds>)
        requires
            self.wf(),
        ensures
            match r {
                Some(b) => self@.contains_key(id@) && b == self@[id@],
                None => !self@.contains_key(id@),
            },
    {
        match self.bounds.get(id) {
            Some(b) => Some(*b),
            None => None,
        }
    }

    /// Drops the record for `id`; idempotent.
    pub fn remove(&mut self, id: &str)
        requires
            old(self).wf(),
        ensures
            final(self).wf(),
            final(self)@ =~= old(self)@.remove(id@),
    {
        self.bounds.remove(id);
    }

    /// The rectangle to restore when the surface `id` is made visible again:
    /// the stored one exactly when it passes the validity check, and nothing
    /// otherwise — an invalid record must never be applied, and the surface
    /// keeps its previous geometry.
    pub fn bounds_to_restore(&self, id: &str) -> (r: Option<WebViewBounds>)
        requires
            self.wf(),
        ensures
            match r {
                Some(b) => self@.contains_key(id@) && b == self@[id@] && spec_valid_bounds(b),
                None => !self@.contains_key(id@) || !spec_valid_bounds(self@[id@]),
            },
    {
        match self.get(id) {
            Some(b) => {
                if is_valid_bounds(&b) {
                    Some(b)
                } else {
                    None
                }
            },
            None => None,
        }
    }
}

} // verus!
