//! The bounded note-storage collaborator used by per-channel state.
//!
//! The core is generic over the container that holds a channel's active
//! notes: it only ever constructs an empty container and asks whether a
//! container is empty.  `DefaultNoteCollectionWith` is the reference
//! implementation, backed by a fixed-capacity `heapless::Vec`.

use vstd::prelude::*;

verus! {

/// A bounded container of active-note records.
///
/// The core only needs to construct an empty collection and to query
/// emptiness; callers supply the concrete note representation and whatever
/// insertion and removal their note allocator performs.
pub trait NoteCollection: Sized {
    /// Whether the collection currently holds no notes.
    spec fn spec_is_empty(&self) -> bool;

    /// Constructs an empty collection.
    fn new() -> (r: Self)
        ensures
            r.spec_is_empty(),
    ;

    /// Returns whether the collection currently holds no notes.
    fn is_empty(&self) -> (r: bool)
        ensures
            r == self.spec_is_empty(),
    ;
}

/// The default note record: a MIDI note number paired with a velocity.
pub type DefaultNote = [u8; 2];

#[verifier::external_type_specification]
#[verifier::external_body]
#[verifier::reject_recursive_types(T)]
pub struct ExHeaplessVec<T, const N: usize>(heapless::Vec<T, N>);

/// Relies on heapless::Vec's Clone implementation, which clones the stored
/// items one by one; nothing is claimed of the copy here, and no proof
/// depends on it.  It only backs the derived Clone of the collection below.
pub assume_specification<T: Clone, const N: usize>[ <heapless::Vec<T, N> as Clone>::clone ](
    v: &heapless::Vec<T, N>,
) -> heapless::Vec<T, N>;

/// The notes held by a fixed-capacity note store, in insertion order.
pub uninterp spec fn note_store_contents(v: heapless::Vec<DefaultNote, 128>) -> Seq<DefaultNote>;

/// Relies on heapless::Vec::new: the constructed vector has length 0, so it
/// holds no items.
#[verifier::external_body]
fn note_store_new() -> (r: heapless::Vec<DefaultNote, 128>)
    ensures
        note_store_contents(r) == Seq::<DefaultNote>::empty(),
{
    heapless::Vec::new()
}

/// Relies on heapless::Vec::is_empty: true exactly when the vector's length
/// is 0, that is, when it holds no items.
#[verifier::external_body]
fn note_store_is_empty(v: &heapless::Vec<DefaultNote, 128>) -> (r: bool)
    ensures
        r == (note_store_contents(*v).len() == 0),
{
    v.is_empty()
}

/// The reference note collection: a fixed-capacity store of 128 note records.
#[derive(Clone)]
pub struct DefaultNoteCollectionWith(heapless::Vec<DefaultNote, 128>);

impl NoteCollection for DefaultNoteCollectionWith {
    closed spec fn spec_is_empty(&self) -> bool {
        note_store_contents(self.0).len() == 0
    }

    fn new() -> (r: Self)
        ensures
            r.spec_is_empty(),
    {
        DefaultNoteCollectionWith(note_store_new())
    }

    fn is_empty(&self) -> (r: bool)
        ensures
            r == self.spec_is_empty(),
    {
        note_store_is_empty(&self.0)
    }
}

/// The default note collection over the default note record.
pub type DefaultNoteCollection = DefaultNoteCollectionWith;

} // verus!
