//! The pending-content store: a single slot that holds the last received share
//! until the front-end takes it.
use vstd::prelude::*;
use crate::models::{SharedContent, SharedContentView};

verus! {

/// The view of an optional share.
pub open spec fn content_opt_view(o: Option<SharedContent>) -> Option<SharedContentView> {
    match o {
        Some(c) => Some(c@),
        None => None,
    }
}

/// What the slot holds after `c` is stored into it: `c`, whatever it held before.
pub open spec fn after_set(slot: Option<SharedContentView>, c: SharedContentView) -> Option<
    SharedContentView,
> {
    Some(c)
}

/// What a read of the slot returns: its contents, which stay in place.
pub open spec fn read(slot: Option<SharedContentView>) -> Option<SharedContentView> {
    slot
}

/// A single-slot store; a second share overwrites the first.
#[derive(Debug)]
pub struct PendingStore {
    content: Option<SharedContent>,
}

impl View for PendingStore {
    type V = Option<SharedContentView>;

    closed spec fn view(&self) -> Option<SharedContentView> {
        content_opt_view(self.content)
    }
}

impl PendingStore {
    /// An empty store.
    pub fn new() -> (r: Self)
        ensures
            r@ is None,
    {
        PendingStore { content: None }
    }

    /// Overwrites whatever is stored with `content`.
    pub fn set(&mut self, content: SharedContent)
        ensures
            final(self)@ == after_set(old(self)@, content@),
    {
        self.content = Some(content);
    }

    /// A copy of what is stored; the store keeps it.
    pub fn get(&self) -> (r: Option<SharedContent>)
        ensures
            content_opt_view(r) == read(self@),
    {
        match &self.content {
            Some(c) => Some(c.clone()),
            None => None,
        }
    }

    /// Empties the store.
    pub fn clear(&mut self)
        ensures
            final(self)@ is None,
    {
        self.content = None;
    }
}

/// A stored share reads back as it was stored, and reading leaves it in place,
/// so every later read returns it again.
pub proof fn set_then_get_returns_it(slot: Option<SharedContentView>, c: SharedContentView)
    ensures
        read(after_set(slot, c)) == Some(c),
        read(read(after_set(slot, c))) == Some(c),
{
}

/// The store holds one share: a second share stored before the first is read
/// replaces it.
pub proof fn later_share_overwrites(slot: Option<SharedContentView>, a: SharedContentView, b: SharedContentView)
    ensures
        read(after_set(after_set(slot, a), b)) == Some(b),
{
}

} // verus!
