//! The reducer-style state store.
//!
//! A store owns one application state and an ordered list of reducers.
//! Dispatching an action applies every reducer in registration order to
//! produce the next state, then replaces the stored state; readers
//! observe either the pre- or the post-dispatch state, never an
//! intermediate one. A reducer that signals an error stops the remaining
//! reducers of that dispatch and the store keeps its last good state.
//!
//! Dispatches are applied one at a time: the final state is a fold of the
//! dispatched actions over the stored state, so it depends only on the
//! order in which the actions were applied — see
//! [`lemma_dispatch_all_append`].

use vstd::prelude::*;

verus! {

/// The failure a reducer may signal: the incoming state fails an internal
/// consistency check of the consumer's. No reducer of this crate signals
/// it; the variant is reserved for consumer reducers.
#[derive(Clone, Copy, Debug, PartialEq, Eq, Structural)]
pub enum StoreError {
    InconsistentState,
}

/// A pure state-advancing function: given the same state and action it
/// must produce the same next state, and it performs no I/O. The spec
/// function names the result; every implementation proves its executable
/// `run` against it.
pub trait Reducer<S, A>: Sized {
    /// The result `run` returns. The default is arbitrary: an
    /// implementation that does not override it promises nothing, so a
    /// verified implementation overrides it with its real meaning.
    open spec fn spec_run(&self, state: S, action: A) -> Result<S, StoreError> {
        arbitrary()
    }

    /// Advances `state` by `action`, or signals a consistency error.
    fn run(&self, state: &S, action: &A) -> (r: Result<S, StoreError>)
        ensures
            r == self.spec_run(*state, *action),
    ;
}

/// The state one dispatch leaves behind: each reducer applied in
/// registration order, or the first error beside it.
pub open spec fn spec_dispatch<S, A, R: Reducer<S, A>>(
    reducers: Seq<R>,
    state: S,
    action: A,
) -> Result<S, StoreError>
    decreases reducers.len(),
{
    if reducers.len() == 0 {
        Ok(state)
    } else {
        match reducers.first().spec_run(state, action) {
            Ok(next) => spec_dispatch(reducers.drop_first(), next, action),
            Err(e) => Err(e),
        }
    }
}

/// The stored state after a run of dispatches, applied one at a time in
/// order: a successful dispatch installs its result, a failing one leaves
/// the previous state standing.
pub open spec fn spec_dispatch_all<S, A, R: Reducer<S, A>>(
    reducers: Seq<R>,
    state: S,
    actions: Seq<A>,
) -> S
    decreases actions.len(),
{
    if actions.len() == 0 {
        state
    } else {
        let after_first = match spec_dispatch(reducers, state, actions.first()) {
            Ok(next) => next,
            Err(_) => state,
        };
        spec_dispatch_all(reducers, after_first, actions.drop_first())
    }
}

/// Serialization of dispatches: applying `first + second` in order is
/// applying `first`, then applying `second` to the result. Together with
/// [`Store::dispatch`]'s contract this pins the final state of any run of
/// queued dispatches to the order in which they were applied — however
/// many unrelated dispatches are queued around two actions, the outcome
/// is the same whenever their relative order is the same.
pub proof fn lemma_dispatch_all_append<S, A, R: Reducer<S, A>>(
    reducers: Seq<R>,
    state: S,
    first: Seq<A>,
    second: Seq<A>,
)
    ensures
        spec_dispatch_all(reducers, state, first + second) == spec_dispatch_all(
            reducers,
            spec_dispatch_all(reducers, state, first),
            second,
        ),
    decreases first.len(),
{
    if first.len() == 0 {
        assert(first + second =~= second);
    } else {
        let combined = first + second;
        assert(combined.first() == first.first());
        assert(combined.drop_first() =~= first.drop_first() + second);
        let after_first = match spec_dispatch(reducers, state, first.first()) {
            Ok(next) => next,
            Err(_) => state,
        };
        lemma_dispatch_all_append(reducers, after_first, first.drop_first(), second);
    }
}

/// One shared application state plus a chain of reducers, applied in
/// registration order.
pub struct Store<S, R> {
    state: S,
    reducers: Vec<R>,
}

/// The mathematical value of a [`Store`]: its state and its reducer
/// chain.
#[verifier::ext_equal]
pub struct StoreView<S, R> {
    pub state: S,
    pub reducers: Seq<R>,
}

impl<S, R> View for Store<S, R> {
    type V = StoreView<S, R>;

    closed spec fn view(&self) -> StoreView<S, R> {
        StoreView { state: self.state, reducers: self.reducers@ }
    }
}

impl<S, R> Store<S, R> {
    /// A store holding `initial` and no reducers.
    pub fn new(initial: S) -> (r: Store<S, R>)
        ensures
            r@.state == initial,
            r@.reducers == Seq::<R>::empty(),
    {
        Store { state: initial, reducers: Vec::new() }
    }

    /// Registers one more reducer at the end of the chain.
    pub fn add_reducer(&mut self, reducer: R)
        ensures
            final(self)@.state == old(self)@.state,
            final(self)@.reducers == old(self)@.reducers.push(reducer),
    {
        self.reducers.push(reducer);
    }

    /// The current state snapshot.
    pub fn get_state(&self) -> (r: &S)
        ensures
            *r == self@.state,
    {
        &self.state
    }

    /// Applies every registered reducer, in registration order, to
    /// produce the next state, then replaces the stored state. A reducer
    /// error stops the remaining reducers, is returned, and leaves the
    /// pre-dispatch state standing — never an intermediate one.
    pub fn dispatch<A>(&mut self, action: &A) -> (r: Result<(), StoreError>) where R: Reducer<S, A>
        ensures
            final(self)@.reducers == old(self)@.reducers,
            match spec_dispatch(old(self)@.reducers, old(self)@.state, *action) {
                Ok(next) => r is Ok && final(self)@.state == next,
                Err(e) => r == Err::<(), StoreError>(e) && final(self)@.state == old(self)@.state,
            },
    {
        let n: usize = self.reducers.len();
        if n == 0 {
            return Ok(());
        }
        let mut current: S = match self.reducers[0].run(&self.state, action) {
            Ok(next) => next,
            Err(e) => {
                proof {
                    assert(old(self)@.reducers.first() == old(self)@.reducers[0]);
                }
                return Err(e);
            },
        };
        let mut i: usize = 1;
        proof {
            assert(old(self)@.reducers.skip(0) =~= old(self)@.reducers);
            assert(old(self)@.reducers.skip(0).drop_first() =~= old(self)@.reducers.skip(1));
        }
        while i < n
            invariant
                *self == *old(self),
                n == self@.reducers.len(),
                1 <= i <= n,
                spec_dispatch(old(self)@.reducers, old(self)@.state, *action) == spec_dispatch(
                    old(self)@.reducers.skip(i as int),
                    current,
                    *action,
                ),
            decreases n - i,
        {
            proof {
                assert(old(self)@.reducers.skip(i as int).first() == old(self)@.reducers[i as int]);
                assert(old(self)@.reducers.skip(i as int).drop_first() =~= old(self)@.reducers.skip(
                    i + 1,
                ));
            }
            match self.reducers[i].run(&current, action) {
                Ok(next) => {
                    current = next;
                },
                Err(e) => {
                    return Err(e);
                },
            }
            i = i + 1;
        }
        proof {
            assert(old(self)@.reducers.skip(n as int) =~= Seq::<R>::empty());
        }
        self.state = current;
        Ok(())
    }
}

} // verus!
