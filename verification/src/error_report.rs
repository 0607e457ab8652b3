//! Where the errors of a run are recorded. Binding goes on after an item
//! has failed; what failed is handed to a sink, which either keeps it for a
//! report or lets it go.

use vstd::prelude::*;
use crate::error::Error;
use crate::type_map::Messages;

verus! {

/// The chains of a list of errors.
pub open spec fn error_views(v: Seq<Error>) -> Seq<Messages> {
    v.map_values(|e: Error| e@)
}

/// A sink for the errors of a run.
pub trait ErrorReporting: Sized {
    /// Whether the sink keeps what it is handed.
    spec fn keeps(&self) -> bool;

    /// The errors that the sink holds, in the order in which they came.
    spec fn recorded(&self) -> Seq<Messages>;

    /// Hands an error to the sink.
    fn insert(&mut self, error: &Error)
        ensures
            final(self).keeps() == old(self).keeps(),
            final(self).recorded() == if old(self).keeps() {
                old(self).recorded().push(error@)
            } else {
                old(self).recorded()
            },
    ;
}

/// How a sink stands after it was handed `more`: one that keeps errors
/// holds them after those it held, in their order; one that does not holds
/// what it held.
pub open spec fn recorded_after<E: ErrorReporting>(before: E, after: E, more: Seq<Messages>) -> bool {
    &&& after.keeps() == before.keeps()
    &&& after.recorded() == if before.keeps() {
        before.recorded() + more
    } else {
        before.recorded()
    }
}

/// The sink that lets every error go.
#[derive(Debug)]
pub struct IgnoreErrors;

impl ErrorReporting for IgnoreErrors {
    open spec fn keeps(&self) -> bool {
        false
    }

    open spec fn recorded(&self) -> Seq<Messages> {
        Seq::empty()
    }

    fn insert(&mut self, error: &Error) {
    }
}

/// The sink that keeps every error, for a report of the run.
#[derive(Debug)]
pub struct ErrorReport {
    pub errors: Vec<Error>,
}

impl ErrorReporting for ErrorReport {
    open spec fn keeps(&self) -> bool {
        true
    }

    open spec fn recorded(&self) -> Seq<Messages> {
        error_views(self.errors@)
    }

    fn insert(&mut self, error: &Error) {
        let ghost before = error_views(self.errors@);
        let kept = error.copy();
        self.errors.push(kept);
        assert(error_views(self.errors@) =~= before.push(error@));
    }
}

impl ErrorReport {
    /// A report of no errors.
    pub fn new() -> (r: ErrorReport)
        ensures
            r.keeps(),
            r.recorded() == Seq::<Messages>::empty(),
    {
        let r = ErrorReport { errors: Vec::new() };
        assert(r.recorded() =~= Seq::<Messages>::empty());
        r
    }

    /// The full messages of the errors, in the order in which they came.
    pub fn messages(&self) -> (r: Vec<String>)
        ensures
            crate::text::views(r@) == self.recorded().map_values(
                |e: Messages| crate::error::full_message(e),
            ),
    {
        let ghost want = self.recorded().map_values(|e: Messages| crate::error::full_message(e));
        let mut r: Vec<String> = Vec::new();
        let mut i: usize = 0;
        while i < self.errors.len()
            invariant
                i <= self.errors.len(),
                want == self.recorded().map_values(|e: Messages| crate::error::full_message(e)),
                crate::text::views(r@) == want.take(i as int),
            decreases self.errors.len() - i,
        {
            let ghost before = crate::text::views(r@);
            let m = self.errors[i].full_message();
            r.push(m);
            assert(crate::text::views(r@) =~= before.push(m@));
            assert(crate::text::views(r@) =~= want.take(i + 1));
            i += 1;
        }
        assert(want.take(want.len() as int) =~= want);
        r
    }
}

/// Hands the errors of a list to a sink, in their order.
pub fn insert_all<E: ErrorReporting>(errors: &mut E, more: &Vec<Error>)
    ensures
        recorded_after(*old(errors), *final(errors), error_views(more@)),
{
    let ghost start = *errors;
    let mut i: usize = 0;
    while i < more.len()
        invariant
            i <= more.len(),
            recorded_after(start, *errors, error_views(more@).take(i as int)),
        decreases more.len() - i,
    {
        let ghost before = *errors;
        errors.insert(&more[i]);
        proof {
            let done = error_views(more@).take(i as int);
            assert(error_views(more@).take(i + 1) =~= done + seq![more@[i as int]@]);
            assert(start.recorded() + (done + seq![more@[i as int]@]) =~= (start.recorded()
                + done).push(more@[i as int]@));
        }
        i += 1;
    }
    assert(error_views(more@).take(more@.len() as int) =~= error_views(more@));
}

} // verus!
