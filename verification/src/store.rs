//! The section store: the sections of a dashboard, in display order.

use vstd::prelude::*;
use crate::section::{SectionView, UiSection};

verus! {

/// Why the store refused an access.
#[derive(Clone, Copy, Debug, PartialEq, Eq, Structural)]
pub enum StoreError {
    /// The index is not below the number of sections.
    OutOfRange,
}

/// The sections of a dashboard. Their number and order are fixed when the
/// store is made.
#[derive(Clone, Debug)]
pub struct SectionStore {
    sections: Vec<UiSection>,
}

/// The views of a list of sections.
pub open spec fn section_views(sections: Seq<UiSection>) -> Seq<SectionView> {
    Seq::new(sections.len(), |i: int| sections[i]@)
}

impl View for SectionStore {
    type V = Seq<SectionView>;

    closed spec fn view(&self) -> Seq<SectionView> {
        section_views(self.sections@)
    }
}

impl SectionStore {
    /// A store of the given sections, in the given order.
    pub fn new(sections: Vec<UiSection>) -> (store: SectionStore)
        ensures
            store@ == section_views(sections@),
    {
        SectionStore { sections }
    }

    /// The number of sections.
    pub fn len(&self) -> (len: usize)
        ensures
            len == self@.len(),
    {
        self.sections.len()
    }

    /// The sections, in display order.
    pub fn sections(&self) -> (sections: &Vec<UiSection>)
        ensures
            section_views(sections@) == self@,
    {
        &self.sections
    }

    /// The section at `index`, or `OutOfRange` when there is none.
    pub fn get(&self, index: usize) -> (found: Result<&UiSection, StoreError>)
        ensures
            index < self@.len() ==> found is Ok && found->Ok_0@ == self@[index as int],
            index >= self@.len() ==> found == Err::<&UiSection, StoreError>(StoreError::OutOfRange),
    {
        if index < self.sections.len() {
            Ok(&self.sections[index])
        } else {
            Err(StoreError::OutOfRange)
        }
    }

    /// The section at `index`, for moving its row cursor, or `OutOfRange`
    /// when there is none. The store changes in that section alone, and to
    /// what the caller leaves behind the reference.
    pub fn get_mut(&mut self, index: usize) -> (found: Result<&mut UiSection, StoreError>)
        ensures
            index < old(self)@.len() ==> found is Ok && (*found->Ok_0)@ == old(self)@[index as int]
                && final(self)@ == old(self)@.update(index as int, (*final(found->Ok_0))@),
            index >= old(self)@.len() ==> found is Err && found->Err_0 == StoreError::OutOfRange
                && final(self)@ == old(self)@,
    {
        if index < self.sections.len() {
            Ok(&mut self.sections[index])
        } else {
            Err(StoreError::OutOfRange)
        }
    }
}

} // verus!
