use vstd::prelude::*;

verus! {

/// The serving loop's view of shutdown: whether it still accepts requests,
/// and how many accepted requests have not yet delivered their response.
pub struct Drain {
    accepting: bool,
    in_flight: u64,
}

/// The state of a [`Drain`].
pub struct DrainModel {
    pub accepting: bool,
    pub in_flight: nat,
}

impl View for Drain {
    type V = DrainModel;

    closed spec fn view(&self) -> DrainModel {
        DrainModel { accepting: self.accepting, in_flight: self.in_flight as nat }
    }
}

/// Whether a request arriving in state `s` is accepted. The counter's width
/// is the one other bound.
pub open spec fn admits(s: DrainModel) -> bool {
    s.accepting && s.in_flight < u64::MAX
}

/// The state after a request arrives in `s`.
pub open spec fn after_arrival(s: DrainModel) -> DrainModel {
    if admits(s) {
        DrainModel { in_flight: s.in_flight + 1, ..s }
    } else {
        s
    }
}

/// The state after an accepted request in `s` delivered its response.
pub open spec fn after_completion(s: DrainModel) -> DrainModel {
    DrainModel { in_flight: (s.in_flight - 1) as nat, ..s }
}

/// The state after the stop signal in `s`.
pub open spec fn after_stop(s: DrainModel) -> DrainModel {
    DrainModel { accepting: false, ..s }
}

/// Whether the process may exit in `s`: stopped, and nothing in flight.
pub open spec fn may_exit(s: DrainModel) -> bool {
    !s.accepting && s.in_flight == 0
}

impl Drain {
    /// Accepting, with nothing in flight.
    pub fn new() -> (d: Drain)
        ensures
            d@ == (DrainModel { accepting: true, in_flight: 0 }),
    {
        Drain { accepting: true, in_flight: 0 }
    }

    /// A request arrives: accepted (`true`) and counted in flight, or refused.
    pub fn on_request(&mut self) -> (accepted: bool)
        ensures
            accepted == admits(old(self)@),
            final(self)@ == after_arrival(old(self)@),
    {
        if self.accepting && self.in_flight < u64::MAX {
            self.in_flight = self.in_flight + 1;
            true
        } else {
            false
        }
    }

    /// An accepted request delivered its response. This is allowed before and
    /// after the stop signal alike.
    pub fn on_complete(&mut self)
        requires
            old(self)@.in_flight > 0,
        ensures
            final(self)@ == after_completion(old(self)@),
    {
        self.in_flight = self.in_flight - 1;
    }

    /// The stop signal: no request is accepted from now on.
    pub fn stop(&mut self)
        ensures
            final(self)@ == after_stop(old(self)@),
    {
        self.accepting = false;
    }

    /// Requests accepted and not yet answered.
    pub fn in_flight(&self) -> (r: u64)
        ensures
            r == self@.in_flight,
    {
        self.in_flight
    }

    /// Whether the process may exit now.
    pub fn may_exit(&self) -> (r: bool)
        ensures
            r == may_exit(self@),
    {
        !self.accepting && self.in_flight == 0
    }
}

/// Once stopped, a state stays stopped through arrivals and completions, every
/// arrival is refused and changes nothing, a request in flight can still
/// complete, and the process may exit exactly when nothing is in flight.
pub proof fn lemma_drain(s: DrainModel)
    ensures
        !admits(after_stop(s)),
        after_arrival(after_stop(s)) == after_stop(s),
        !after_completion(after_stop(s)).accepting,
        s.in_flight > 0 ==> after_completion(after_stop(s)).in_flight == s.in_flight - 1,
        may_exit(after_stop(s)) == (s.in_flight == 0),
        s.in_flight > 0 ==> !may_exit(after_stop(s)),
{
}

} // verus!
