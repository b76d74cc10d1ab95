use vstd::prelude::*;

verus! {

/// Whether a worker still runs. The only transition is the one-way step from
/// `Running` to `Terminated`.
#[derive(Debug, Clone, Copy, PartialEq, Eq, Structural)]
pub enum Lifecycle {
    Running,
    Terminated,
}

/// What became of one send into a channel.
#[derive(Debug, Clone, Copy, PartialEq, Eq, Structural)]
pub enum SendOutcome {
    /// The channel took the value (possibly after the sender was suspended).
    Delivered,
    /// The receiving end was gone.
    Closed,
}

/// The lifecycle after a send with the given outcome: a closed peer ends the
/// worker, a delivery leaves it as it was.
pub open spec fn after_send(l: Lifecycle, o: SendOutcome) -> Lifecycle {
    match o {
        SendOutcome::Delivered => l,
        SendOutcome::Closed => Lifecycle::Terminated,
    }
}

/// The lifecycle after a run of send outcomes, taken in order.
pub open spec fn after_sends(l: Lifecycle, os: Seq<SendOutcome>) -> Lifecycle
    decreases os.len(),
{
    if os.len() == 0 {
        l
    } else {
        after_sends(after_send(l, os[0]), os.drop_first())
    }
}

/// A closed receiving end stops a worker at the very send that finds it closed,
/// and no later outcome brings the worker back.
pub proof fn lemma_closed_peer_is_final(l: Lifecycle, later: Seq<SendOutcome>)
    ensures
        after_send(l, SendOutcome::Closed) == Lifecycle::Terminated,
        after_sends(after_send(l, SendOutcome::Closed), later) == Lifecycle::Terminated,
    decreases later.len(),
{
    if later.len() > 0 {
        lemma_closed_peer_is_final(Lifecycle::Terminated, later.drop_first());
    }
}

} // verus!
