//! The per-entry reconciliation result: a status, a changed flag, a
//! human-readable description and accumulated diagnostic output.
//!
//! The result is an accumulator across sequential fallible steps: recording a
//! successful change marks the entry changed, recording a failed step marks
//! the entry failed and appends the step's diagnostic text.

use vstd::prelude::*;

verus! {

#[derive(Clone, Copy, Debug, PartialEq, Eq, Structural)]
pub enum NkProvisionStateStatus {
    Failed,
    Success,
}

/// One reconciliation outcome, emitted once per affected path.
pub struct NkProvisionStateResult {
    pub status: NkProvisionStateStatus,
    pub changed: bool,
    pub description: String,
    pub output: String,
}

/// Mathematical view of a result: the strings as character sequences.
#[verifier::ext_equal]
pub struct StateResultView {
    pub status: NkProvisionStateStatus,
    pub changed: bool,
    pub description: Seq<char>,
    pub output: Seq<char>,
}

impl View for NkProvisionStateResult {
    type V = StateResultView;

    open spec fn view(&self) -> StateResultView {
        StateResultView {
            status: self.status,
            changed: self.changed,
            description: self.description@,
            output: self.output@,
        }
    }
}

impl DeepView for NkProvisionStateResult {
    type V = StateResultView;

    open spec fn deep_view(&self) -> StateResultView {
        self@
    }
}

impl NkProvisionStateResult {
    /// A fresh successful, unchanged result for the given description.
    pub fn new_success(description: String) -> (r: Self)
        ensures
            r@.status == NkProvisionStateStatus::Success,
            !r@.changed,
            r@.description == description@,
            r@.output == Seq::<char>::empty(),
    {
        let r = NkProvisionStateResult {
            status: NkProvisionStateStatus::Success,
            changed: false,
            description,
            output: String::new(),
        };
        r
    }

    /// Record the outcome of a mutating step: success marks the entry
    /// changed; failure marks it failed and appends the diagnostic line.
    pub fn append_change<T>(&mut self, change: Result<T, String>) -> (r: Result<T, ()>)
        ensures
            old(self)@.status == NkProvisionStateStatus::Failed
                ==> final(self)@.status == NkProvisionStateStatus::Failed,
            final(self)@.description == old(self)@.description,
            change matches Ok(v) ==> {
                &&& r matches Ok(rv) && rv == v
                &&& final(self)@ == (StateResultView { changed: true, ..old(self)@ })
            },
            change matches Err(e) ==> {
                &&& r is Err
                &&& final(self)@.status == NkProvisionStateStatus::Failed
                &&& final(self)@.changed == old(self)@.changed
                &&& final(self)@.output == old(self)@.output + e@ + "\n"@
            },
    {
        match change {
            Ok(v) => {
                self.changed = true;
                Ok(v)
            },
            Err(e) => {
                self.status = NkProvisionStateStatus::Failed;
                self.output.append(e.as_str());
                self.output.append("\n");
                Err(())
            },
        }
    }

    /// Record the outcome of a read-only check: success changes nothing;
    /// failure marks the entry failed and appends the diagnostic line.
    pub fn append_check<T>(&mut self, check: Result<T, String>) -> (r: Result<T, ()>)
        ensures
            old(self)@.status == NkProvisionStateStatus::Failed
                ==> final(self)@.status == NkProvisionStateStatus::Failed,
            final(self)@.description == old(self)@.description,
            final(self)@.changed == old(self)@.changed,
            check matches Ok(v) ==> {
                &&& r matches Ok(rv) && rv == v
                &&& final(self)@ == old(self)@
            },
            check matches Err(e) ==> {
                &&& r is Err
                &&& final(self)@.status == NkProvisionStateStatus::Failed
                &&& final(self)@.output == old(self)@.output + e@ + "\n"@
            },
    {
        match check {
            Ok(v) => Ok(v),
            Err(e) => {
                self.status = NkProvisionStateStatus::Failed;
                self.output.append(e.as_str());
                self.output.append("\n");
                Err(())
            },
        }
    }
}

} // verus!
