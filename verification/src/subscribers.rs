//! The ordered list of subscribers and the delivery of one message to all of
//! them.
//!
//! A subscriber is any function value that takes a message identifier and its
//! two parameters and reports success or failure. The list only grows, and a
//! message is handed to the subscribers in the order in which they were
//! registered. A subscriber that fails is reported and does not keep the
//! message from those registered after it.

use vstd::prelude::*;

verus! {

/// Whether `callback` can be called with every message.
pub open spec fn accepts_every_message<E, F: Fn(u32, usize, isize) -> Result<(), E>>(
    callback: F,
) -> bool {
    forall|msg: u32, a: usize, b: isize| #[trigger] call_requires(callback, (msg, a, b))
}

/// Whether every one of `callbacks` can be called with every message.
pub open spec fn all_accept_every_message<E, F: Fn(u32, usize, isize) -> Result<(), E>>(
    callbacks: Seq<F>,
) -> bool {
    forall|i: int| 0 <= i < callbacks.len() ==> accepts_every_message(#[trigger] callbacks[i])
}

/// Whether `outcomes` is what one delivery of `(msg, a, b)` to `callbacks`
/// can produce: one outcome for each callback, in registration order, each
/// of them a result of calling that callback with exactly this message.
pub open spec fn delivered<E, F: Fn(u32, usize, isize) -> Result<(), E>>(
    callbacks: Seq<F>,
    msg: u32,
    a: usize,
    b: isize,
    outcomes: Seq<Result<(), E>>,
) -> bool {
    &&& outcomes.len() == callbacks.len()
    &&& forall|i: int|
        0 <= i < callbacks.len() ==> call_ensures(callbacks[i], (msg, a, b), #[trigger] outcomes[i])
}

/// The list that results from registering `calls` one after another,
/// starting from `registered`.
pub open spec fn after_subscribing<F>(registered: Seq<F>, calls: Seq<F>) -> Seq<F>
    decreases calls.len(),
{
    if calls.len() == 0 {
        registered
    } else {
        after_subscribing(registered.push(calls[0]), calls.subrange(1, calls.len() as int))
    }
}

/// The subscribers of an event window, in registration order.
pub struct SubscriberList<F> {
    callbacks: Vec<F>,
}

impl<F> View for SubscriberList<F> {
    type V = Seq<F>;

    closed spec fn view(&self) -> Seq<F> {
        self.callbacks@
    }
}

impl<E, F: Fn(u32, usize, isize) -> Result<(), E>> SubscriberList<F> {
    /// Every registered subscriber can be called with every message.
    pub open spec fn wf(&self) -> bool {
        all_accept_every_message(self@)
    }

    /// A list without subscribers.
    pub fn new() -> (list: Self)
        ensures
            list@ == Seq::<F>::empty(),
            list.wf(),
    {
        SubscriberList { callbacks: Vec::new() }
    }

    /// The number of subscribers.
    pub fn len(&self) -> (n: usize)
        ensures
            n == self@.len(),
    {
        self.callbacks.len()
    }

    /// Whether nobody has subscribed.
    pub fn is_empty(&self) -> (empty: bool)
        ensures
            empty == (self@.len() == 0),
    {
        self.callbacks.len() == 0
    }

    /// Registers `callback` behind the subscribers that are already there.
    pub fn subscribe(&mut self, callback: F)
        requires
            old(self).wf(),
            accepts_every_message(callback),
        ensures
            final(self)@ == old(self)@.push(callback),
            final(self).wf(),
    {
        self.callbacks.push(callback);
    }

    /// Hands `(msg, a, b)` to every subscriber, in registration order, and
    /// returns what each of them answered. A failure is recorded at the
    /// subscriber's place and the delivery goes on with the next one.
    pub fn dispatch(&self, msg: u32, a: usize, b: isize) -> (outcomes: Vec<Result<(), E>>)
        requires
            self.wf(),
        ensures
            delivered(self@, msg, a, b, outcomes@),
    {
        let mut outcomes: Vec<Result<(), E>> = Vec::new();
        let mut i: usize = 0;
        while i < self.callbacks.len()
            invariant
                self.wf(),
                i <= self.callbacks@.len(),
                outcomes@.len() == i,
                forall|j: int|
                    0 <= j < i ==> call_ensures(
                        self.callbacks@[j],
                        (msg, a, b),
                        #[trigger] outcomes@[j],
                    ),
            decreases self.callbacks@.len() - i,
        {
            let callback = &self.callbacks[i];
            assert(accepts_every_message(self@[i as int]));
            let outcome = callback(msg, a, b);
            outcomes.push(outcome);
            i += 1;
        }
        outcomes
    }
}

/// Registering a sequence of subscribers one after another appends them to
/// the list in the order of the calls.
pub proof fn lemma_subscribing_appends_in_order<F>(registered: Seq<F>, calls: Seq<F>)
    ensures
        after_subscribing(registered, calls) == registered + calls,
    decreases calls.len(),
{
    if calls.len() == 0 {
        assert(registered + calls == registered);
    } else {
        let rest = calls.subrange(1, calls.len() as int);
        lemma_subscribing_appends_in_order(registered.push(calls[0]), rest);
        assert(registered.push(calls[0]) + rest == registered + calls);
    }
}

/// Registration keeps a list callable: if the subscribers already there and
/// the new ones each take every message, so does the resulting list.
pub proof fn lemma_subscribing_keeps_wf<E, F: Fn(u32, usize, isize) -> Result<(), E>>(
    registered: Seq<F>,
    calls: Seq<F>,
)
    requires
        all_accept_every_message(registered),
        all_accept_every_message(calls),
    ensures
        all_accept_every_message(after_subscribing(registered, calls)),
{
    lemma_subscribing_appends_in_order(registered, calls);
    let all = registered + calls;
    assert forall|i: int| 0 <= i < all.len() implies accepts_every_message(#[trigger] all[i]) by {
        if i < registered.len() {
            assert(all[i] == registered[i]);
        } else {
            assert(all[i] == calls[i - registered.len()]);
        }
    }
}

/// For every sequence of registrations followed by one delivery, every
/// registered subscriber is called once with the delivered message, in
/// registration order: the delivery has one outcome for each call of
/// `subscribe`, and the outcome at place `i` is a result of the `i`-th
/// subscriber on exactly that message.
pub proof fn lemma_every_subscriber_is_called_in_order<
    E,
    F: Fn(u32, usize, isize) -> Result<(), E>,
>(calls: Seq<F>, msg: u32, a: usize, b: isize, outcomes: Seq<Result<(), E>>)
    requires
        delivered(after_subscribing(Seq::<F>::empty(), calls), msg, a, b, outcomes),
    ensures
        outcomes.len() == calls.len(),
        forall|i: int|
            0 <= i < calls.len() ==> call_ensures(calls[i], (msg, a, b), #[trigger] outcomes[i]),
{
    lemma_subscribing_appends_in_order(Seq::<F>::empty(), calls);
    assert(Seq::<F>::empty() + calls == calls);
}

/// A subscriber that reports failure does not keep the message from the
/// others: whatever the outcome at place `k`, every other place of the
/// delivery holds a result of its own subscriber on the same message, and the
/// delivery is as long as the list.
pub proof fn lemma_failure_is_isolated<E, F: Fn(u32, usize, isize) -> Result<(), E>>(
    callbacks: Seq<F>,
    msg: u32,
    a: usize,
    b: isize,
    outcomes: Seq<Result<(), E>>,
    k: int,
)
    requires
        delivered(callbacks, msg, a, b, outcomes),
        0 <= k < callbacks.len(),
        outcomes[k] is Err,
    ensures
        outcomes.len() == callbacks.len(),
        forall|j: int|
            0 <= j < callbacks.len() && j != k ==> call_ensures(
                callbacks[j],
                (msg, a, b),
                #[trigger] outcomes[j],
            ),
{
}

} // verus!
