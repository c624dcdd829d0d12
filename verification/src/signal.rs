use vstd::prelude::*;

verus! {

/// A hardware fault on a digital line. Signal errors are always propagated
/// to the caller and never retried inside the core.
#[derive(Clone, Copy, PartialEq, Eq, Structural, Debug)]
pub struct SignalError;

/// One digital output line.
///
/// `history()` is the whole sequence of levels the line has been driven to
/// since it was created, `true` standing for high. A successful `set_state`
/// appends exactly one level; a failed one drives nothing.
pub trait OutputSignal: Sized {
    spec fn history(&self) -> Seq<bool>;

    fn set_state(&mut self, high: bool) -> (r: Result<(), SignalError>)
        ensures
            r is Ok ==> final(self).history() == old(self).history().push(high),
            r is Err ==> final(self).history() == old(self).history(),
    ;
}

/// One raw boolean input source, `true` standing for high.
///
/// The samples are noise: nothing is promised about the value a read yields,
/// only that it either yields one or fails with a signal error.
pub trait RawInputSource: Sized {
    fn read(&mut self) -> (r: Result<bool, SignalError>);
}

} // verus!
