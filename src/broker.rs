//! Publish/subscribe fan-out of domain events to registered handlers.
use vstd::prelude::*;

verus! {

/// A handler failed on an event; the broker goes on with the others.
#[derive(Clone, Copy, Debug, PartialEq, Eq, Structural)]
pub struct HandlerError;

/// A consumer of the events of type `E` that a broker distributes.
pub trait EventHandler<E> {
    /// This handler took `event` and answered `r`. A handler whose effects are
    /// specified states them here; by default any answer to any event counts.
    open spec fn handled(&self, event: E, r: Result<(), HandlerError>) -> bool {
        true
    }

    /// Takes one event, owned by this handler alone.
    fn handle(&self, event: E) -> (r: Result<(), HandlerError>)
        ensures
            self.handled(event, r),
    ;
}

/// Handler `h` took a copy of `event` and answered `r`.
pub open spec fn handled_copy<E: Clone, H: EventHandler<E>>(h: H, event: E, r: Result<(), HandlerError>) -> bool {
    exists|e: E| cloned(event, e) && #[trigger] h.handled(e, r)
}

/// Delivers every event sent to it to each registered handler, in the order
/// in which the handlers were registered. Handlers stay for the broker's
/// lifetime.
pub struct EventBroker<E, H> {
    handlers: Vec<H>,
    marker: core::marker::PhantomData<E>,
}

impl<E, H> View for EventBroker<E, H> {
    type V = Seq<H>;

    closed spec fn view(&self) -> Seq<H> {
        self.handlers@
    }
}

impl<E: Clone, H: EventHandler<E>> EventBroker<E, H> {
    /// A broker with no handlers.
    pub fn new() -> (b: Self)
        ensures
            b@ == Seq::<H>::empty(),
    {
        EventBroker { handlers: Vec::new(), marker: core::marker::PhantomData }
    }

    /// Registers `handler` after those already registered.
    pub fn add_handler(&mut self, handler: H)
        ensures
            final(self)@ == old(self)@.push(handler),
    {
        self.handlers.push(handler);
    }

    /// The number of registered handlers.
    pub fn n_handlers(&self) -> (n: usize)
        ensures
            n == self@.len(),
    {
        self.handlers.len()
    }

    /// Hands a copy of `event` to every handler in registration order, whether
    /// or not an earlier one failed. Entry `k` of the result is what handler `k`
    /// answered to its copy.
    pub fn send(&self, event: E) -> (outcomes: Vec<Result<(), HandlerError>>)
        ensures
            outcomes@.len() == self@.len(),
            forall|k: int|
                0 <= k < self@.len() ==> #[trigger] handled_copy(self@[k], event, outcomes@[k]),
    {
        let mut outcomes: Vec<Result<(), HandlerError>> = Vec::new();
        let ghost mut copies: Seq<E> = Seq::empty();
        let mut i: usize = 0;
        while i < self.handlers.len()
            invariant
                i <= self.handlers@.len(),
                outcomes@.len() == i,
                copies.len() == i,
                forall|k: int|
                    0 <= k < i ==> cloned(event, #[trigger] copies[k])
                        && self.handlers@[k].handled(copies[k], outcomes@[k]),
            decreases self.handlers@.len() - i,
        {
            let copy = event.clone();
            let outcome = self.handlers[i].handle(copy);
            proof {
                copies = copies.push(copy);
            }
            outcomes.push(outcome);
            i = i + 1;
        }
        assert forall|k: int| 0 <= k < self@.len() implies #[trigger] handled_copy(
            self@[k],
            event,
            outcomes@[k],
        ) by {
            assert(cloned(event, copies[k]) && self@[k].handled(copies[k], outcomes@[k]));
        }
        outcomes
    }
}

} // verus!
