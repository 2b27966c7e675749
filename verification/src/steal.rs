use vstd::prelude::*;

verus! {

/// A single-consumption ownership handoff slot between pipeline stages.
///
/// The cell yields its value to the first reader and fails deterministically
/// on any subsequent read: extraction after consumption is a programming
/// error on the caller's side, never a user-facing failure.
pub struct Steal<T> {
    value: Option<T>,
}

impl<T> Steal<T> {
    /// The cell has already given its value away.
    pub closed spec fn is_stolen(&self) -> bool {
        self.value is None
    }

    /// The value the cell holds while not yet stolen.
    pub closed spec fn spec_value(&self) -> T
        recommends
            !self.is_stolen(),
    {
        self.value->0
    }

    /// The cell as it stands after one extraction, whatever its state was.
    pub open spec fn after_extract(self) -> Steal<T> {
        Self::stolen_cell()
    }

    /// What one extraction yields: the value for a fresh cell, the
    /// deterministic failure (`None`) for a consumed one.
    pub open spec fn extract_result(self) -> Option<T> {
        if self.is_stolen() {
            None
        } else {
            Some(self.spec_value())
        }
    }

    /// The model of a cell whose value is gone.
    pub closed spec fn stolen_cell() -> Steal<T> {
        Steal { value: None }
    }

    pub fn new(value: T) -> (s: Self)
        ensures
            !s.is_stolen(),
            s.spec_value() == value,
    {
        Steal { value: Some(value) }
    }

    /// Read the value without consuming it.
    pub fn borrow(&self) -> (r: &T)
        requires
            !self.is_stolen(),
        ensures
            *r == self.spec_value(),
    {
        match &self.value {
            Some(v) => v,
            None => vstd::pervasive::unreached(),
        }
    }

    /// Take the value out; the caller must know the cell is fresh.
    pub fn steal(&mut self) -> (r: T)
        requires
            !old(self).is_stolen(),
        ensures
            final(self).is_stolen(),
            r == old(self).spec_value(),
    {
        let taken = self.value.take();
        match taken {
            Some(v) => v,
            None => vstd::pervasive::unreached(),
        }
    }

    /// One extraction attempt: yields `Some` exactly on a fresh cell and the
    /// deterministic failure `None` on a consumed one, leaving the cell
    /// consumed either way.
    pub fn try_steal(&mut self) -> (r: Option<T>)
        ensures
            r == old(self).extract_result(),
            *final(self) == old(self).after_extract(),
    {
        self.value.take()
    }
}

/// A steal cell yields its value exactly once: the first extraction on a
/// fresh cell returns the value; the extraction after any extraction
/// deterministically fails.
pub proof fn lemma_steal_yields_once<T>(cell: Steal<T>)
    requires
        !cell.is_stolen(),
    ensures
        cell.extract_result() == Some(cell.spec_value()),
        cell.after_extract().extract_result() is None,
{
}

} // verus!
