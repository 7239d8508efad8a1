use vstd::prelude::*;

use crate::messages::UIMessage;

verus! {

/// Work that the relay hands to the display thread's deferred-callback sink.
#[derive(Debug, PartialEq, Eq)]
pub enum RelayAction<S> {
    /// Run every view's update routine on this snapshot handle.
    ForwardUpdate(S),
    /// Ask the display's event loop to terminate.
    Terminate,
}

/// One message handled by the relay: whether it is finished afterwards, and
/// what, if anything, it forwards to the display.
pub open spec fn relay_step<S>(finished: bool, msg: UIMessage<S>) -> (bool, Option<RelayAction<S>>) {
    if finished {
        (true, None)
    } else {
        match msg {
            UIMessage::UpdateStatus(s) => (false, Some(RelayAction::ForwardUpdate(s))),
            UIMessage::Quit => (true, Some(RelayAction::Terminate)),
        }
    }
}

/// Whether the relay is finished after handling `msgs` in order.
pub open spec fn relay_finished_after<S>(finished: bool, msgs: Seq<UIMessage<S>>) -> bool
    decreases msgs.len(),
{
    if msgs.len() == 0 {
        finished
    } else {
        relay_finished_after(relay_step(finished, msgs[0]).0, msgs.drop_first())
    }
}

/// Everything the relay forwards to the display while handling `msgs` in order.
pub open spec fn relay_trace<S>(finished: bool, msgs: Seq<UIMessage<S>>) -> Seq<RelayAction<S>>
    decreases msgs.len(),
{
    if msgs.len() == 0 {
        Seq::empty()
    } else {
        let (next, out) = relay_step(finished, msgs[0]);
        let rest = relay_trace(next, msgs.drop_first());
        match out {
            Some(a) => seq![a] + rest,
            None => rest,
        }
    }
}

/// The update relay's state: it forwards until it has handled a `Quit`.
pub struct Relay {
    finished: bool,
}

impl Relay {
    pub closed spec fn is_finished(&self) -> bool {
        self.finished
    }

    /// A relay that has not yet seen `Quit`.
    pub fn new() -> (r: Relay)
        ensures
            !r.is_finished(),
    {
        Relay { finished: false }
    }

    /// Whether the relay has handled a `Quit` and stopped listening.
    pub fn finished(&self) -> (r: bool)
        ensures
            r == self.is_finished(),
    {
        self.finished
    }

    /// Handles one inbound message and returns the callback to enqueue on the
    /// display, if any. After `Quit` nothing more is ever forwarded.
    pub fn handle<S>(&mut self, msg: UIMessage<S>) -> (r: Option<RelayAction<S>>)
        ensures
            (final(self).is_finished(), r) == relay_step(old(self).is_finished(), msg),
    {
        if self.finished {
            None
        } else {
            match msg {
                UIMessage::UpdateStatus(s) => Some(RelayAction::ForwardUpdate(s)),
                UIMessage::Quit => {
                    self.finished = true;
                    Some(RelayAction::Terminate)
                },
            }
        }
    }
}


/// Handling `a` and then `b` forwards what `a` forwards followed by what `b`
/// forwards from the state `a` left behind.
pub proof fn lemma_trace_append<S>(finished: bool, a: Seq<UIMessage<S>>, b: Seq<UIMessage<S>>)
    ensures
        relay_trace(finished, a + b) == relay_trace(finished, a) + relay_trace(
            relay_finished_after(finished, a),
            b,
        ),
        relay_finished_after(finished, a + b) == relay_finished_after(
            relay_finished_after(finished, a),
            b,
        ),
    decreases a.len(),
{
    if a.len() == 0 {
        assert(a + b =~= b);
    } else {
        let next = relay_step(finished, a[0]).0;
        assert((a + b).drop_first() =~= a.drop_first() + b);
        lemma_trace_append(next, a.drop_first(), b);
        match relay_step(finished, a[0]).1 {
            Some(x) => {
                assert(seq![x] + relay_trace(next, a.drop_first() + b) =~= seq![x] + relay_trace(
                    next,
                    a.drop_first(),
                ) + relay_trace(relay_finished_after(finished, a), b));
            },
            None => {},
        }
    }
}

/// A finished relay forwards nothing and stays finished, whatever it is sent.
pub proof fn lemma_finished_relay_is_silent<S>(msgs: Seq<UIMessage<S>>)
    ensures
        relay_trace(true, msgs) == Seq::<RelayAction<S>>::empty(),
        relay_finished_after(true, msgs),
    decreases msgs.len(),
{
    if msgs.len() > 0 {
        lemma_finished_relay_is_silent(msgs.drop_first());
    }
}

/// The relay is finished once it has handled a `Quit`.
pub proof fn lemma_quit_finishes<S>(finished: bool, pre: Seq<UIMessage<S>>)
    ensures
        relay_finished_after(finished, pre.push(UIMessage::Quit)),
{
    lemma_trace_append(finished, pre, seq![UIMessage::Quit]);
    assert(pre + seq![UIMessage::Quit] =~= pre.push(UIMessage::Quit));
    let q = seq![UIMessage::<S>::Quit];
    assert(q.drop_first() =~= Seq::<UIMessage<S>>::empty());
    assert(relay_finished_after(true, q.drop_first()));
    assert(relay_finished_after(relay_finished_after(finished, pre), q));
}

/// Order preservation: when a run of status updates is followed by `Quit`,
/// the relay forwards every one of those updates, in the order sent, and only
/// then the termination callback; whatever is sent after the `Quit` adds
/// nothing.
pub proof fn lemma_updates_forwarded_before_termination<S>(
    updates: Seq<S>,
    rest: Seq<UIMessage<S>>,
)
    ensures
        relay_trace(
            false,
            updates.map_values(|s: S| UIMessage::UpdateStatus(s)).push(UIMessage::Quit) + rest,
        ) == updates.map_values(|s: S| RelayAction::ForwardUpdate(s)).push(
            RelayAction::Terminate,
        ),
    decreases updates.len(),
{
    let msgs = updates.map_values(|s: S| UIMessage::UpdateStatus(s)).push(UIMessage::Quit) + rest;
    if updates.len() == 0 {
        assert(msgs.drop_first() =~= rest);
        lemma_finished_relay_is_silent(rest);
        assert(updates.map_values(|s: S| RelayAction::ForwardUpdate(s)).push(RelayAction::Terminate)
            =~= seq![RelayAction::Terminate]);
        assert(seq![RelayAction::<S>::Terminate] + Seq::<RelayAction<S>>::empty() =~= seq![
            RelayAction::Terminate,
        ]);
    } else {
        let tail = updates.drop_first();
        lemma_updates_forwarded_before_termination(tail, rest);
        assert(msgs[0] == UIMessage::UpdateStatus(updates[0]));
        assert(msgs.drop_first() =~= tail.map_values(|s: S| UIMessage::UpdateStatus(s)).push(
            UIMessage::Quit,
        ) + rest);
        assert(updates.map_values(|s: S| RelayAction::ForwardUpdate(s)).push(RelayAction::Terminate)
            =~= seq![RelayAction::ForwardUpdate(updates[0])] + tail.map_values(
            |s: S| RelayAction::ForwardUpdate(s),
        ).push(RelayAction::Terminate));
    }
}

/// Once the relay has handled a `Quit`, nothing sent afterwards on the same
/// channel is ever forwarded: the relay is finished, and the messages after the
/// `Quit` add nothing to what it forwarded.
pub proof fn lemma_nothing_forwarded_after_quit<S>(
    before: Seq<UIMessage<S>>,
    after: Seq<UIMessage<S>>,
)
    ensures
        relay_finished_after(false, before.push(UIMessage::Quit)),
        relay_trace(false, before.push(UIMessage::Quit) + after) == relay_trace(
            false,
            before.push(UIMessage::Quit),
        ),
{
    lemma_quit_finishes(false, before);
    lemma_trace_append(false, before.push(UIMessage::Quit), after);
    lemma_finished_relay_is_silent(after);
    assert(relay_trace(false, before.push(UIMessage::Quit)) + Seq::<RelayAction<S>>::empty()
        =~= relay_trace(false, before.push(UIMessage::Quit)));
}

} // verus!
