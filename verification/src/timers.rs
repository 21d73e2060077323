//! The timers that are running, by the token of the request that started each.
//!
//! The clock is not kept here. Whoever keeps it arms a timer when one is
//! started and says when it ran out; this table decides whether a timeout is
//! still owed then.

use vstd::prelude::*;
use crate::correlation_id::{CorrelationId, CorrelationIdView};
use crate::envelope::Envelope;
use crate::msg::Msg;
use crate::pid::{Pid, PidView};

verus! {

/// The tokens that occur in a list.
pub open spec fn tokens(list: Seq<CorrelationId>) -> Set<CorrelationIdView> {
    Set::new(|id: CorrelationIdView| exists|i: int| 0 <= i < list.len() && #[trigger] list[i]@ == id)
}

/// The running timers after a request to cancel, made by `owner`: the one
/// named, or, where none is named, every timer of `owner`.
pub open spec fn canceled(
    pending: Set<CorrelationIdView>,
    owner: PidView,
    which: Option<CorrelationIdView>,
) -> Set<CorrelationIdView> {
    match which {
        Some(id) => pending.remove(id),
        None => pending.filter(|id: CorrelationIdView| id.pid != owner),
    }
}

/// The token that a request to cancel names, if it names one.
pub open spec fn named(which: Option<CorrelationId>) -> Option<CorrelationIdView> {
    match which {
        Some(id) => Some(id@),
        None => None,
    }
}

/// Whether `envelope` is the timeout of the timer `id`: addressed to the
/// process that started the timer, and tagged with its token.
pub open spec fn is_timeout<T>(envelope: Envelope<T>, id: CorrelationIdView) -> bool {
    &&& envelope.to@ == id.pid
    &&& envelope.from@ == id.pid
    &&& envelope.msg is Timeout
    &&& envelope.correlation_id is Some
    &&& envelope.correlation_id->Some_0@ == id
}

/// Whether a timeout is owed when the timer `id` runs out.
pub open spec fn owed(pending: Set<CorrelationIdView>, id: CorrelationIdView) -> bool {
    pending.contains(id)
}

/// The running timers.
#[derive(Debug)]
pub struct Timers {
    pending: Vec<CorrelationId>,
}

impl View for Timers {
    type V = Set<CorrelationIdView>;

    closed spec fn view(&self) -> Set<CorrelationIdView> {
        tokens(self.pending@)
    }
}

impl Timers {
    /// No timer is running.
    pub fn new() -> (timers: Timers)
        ensures
            timers@ == Set::<CorrelationIdView>::empty(),
    {
        let timers = Timers { pending: Vec::new() };
        assert(timers@ =~= Set::<CorrelationIdView>::empty());
        timers
    }

    /// Whether the timer `id` is running.
    pub fn is_running(&self, id: &CorrelationId) -> (running: bool)
        ensures
            running == self@.contains(id@),
    {
        let mut i: usize = 0;
        while i < self.pending.len()
            invariant
                i <= self.pending@.len(),
                forall|k: int| 0 <= k < i ==> self.pending@[k]@ != id@,
            decreases self.pending@.len() - i,
        {
            if self.pending[i].same(id) {
                return true;
            }
            i += 1;
        }
        false
    }

    /// Starts the timer `id`. A token whose timer is running already starts
    /// no second one: `false` comes back.
    pub fn start(&mut self, id: CorrelationId) -> (fresh: bool)
        ensures
            fresh == !old(self)@.contains(id@),
            final(self)@ == old(self)@.insert(id@),
    {
        if self.is_running(&id) {
            assert(self@.insert(id@) =~= self@);
            false
        } else {
            let ghost before = self.pending@;
            self.pending.push(id);
            proof {
                assert forall|v: CorrelationIdView| tokens(self.pending@).contains(v) <==> tokens(before).insert(
                    id@,
                ).contains(v) by {
                    if tokens(before).contains(v) {
                        let k = choose|k: int| 0 <= k < before.len() && #[trigger] before[k]@ == v;
                        assert(self.pending@[k]@ == v);
                    }
                    if v == id@ {
                        assert(self.pending@[before.len() as int]@ == v);
                    }
                }
                assert(self@ =~= old(self)@.insert(id@));
            }
            true
        }
    }

    /// Keeps the timers that `which` and `owner` do not select: see [`canceled`].
    pub fn cancel(&mut self, owner: &Pid, which: &Option<CorrelationId>)
        ensures
            final(self)@ == canceled(old(self)@, owner@, named(*which)),
    {
        let ghost before = self.pending@;
        let mut kept: Vec<CorrelationId> = Vec::new();
        let mut i: usize = 0;
        while i < self.pending.len()
            invariant
                self.pending@ == before,
                i <= before.len(),
                forall|k: int| 0 <= k < kept@.len() ==> !selected(owner@, *which, #[trigger] kept@[k]@),
                forall|k: int| 0 <= k < kept@.len() ==> tokens(before).contains(#[trigger] kept@[k]@),
                forall|k: int|
                    0 <= k < i && !selected(owner@, *which, #[trigger] before[k]@) ==> tokens(kept@).contains(
                        before[k]@,
                    ),
            decreases before.len() - i,
        {
            let candidate = &self.pending[i];
            let drop = match which {
                Some(id) => candidate.same(id),
                None => candidate.pid.same(owner),
            };
            if !drop {
                let ghost earlier = kept@;
                let copy = candidate.clone();
                kept.push(copy);
                proof {
                    assert(kept@[earlier.len() as int]@ == before[i as int]@);
                    assert forall|k: int|
                        0 <= k < i + 1 && !selected(owner@, *which, #[trigger] before[k]@) implies tokens(
                        kept@,
                    ).contains(before[k]@) by {
                        if k < i {
                            let j = choose|j: int| 0 <= j < earlier.len() && #[trigger] earlier[j]@ == before[k]@;
                            assert(kept@[j]@ == before[k]@);
                        }
                    }
                }
            }
            i += 1;
        }
        self.pending = kept;
        proof {
            let wanted = canceled(old(self)@, owner@, named(*which));
            assert forall|v: CorrelationIdView| self@.contains(v) <==> wanted.contains(v) by {
                if self@.contains(v) {
                    let k = choose|k: int| 0 <= k < kept@.len() && #[trigger] kept@[k]@ == v;
                    assert(!selected(owner@, *which, kept@[k]@));
                }
                if wanted.contains(v) {
                    let k = choose|k: int| 0 <= k < before.len() && #[trigger] before[k]@ == v;
                    assert(!selected(owner@, *which, before[k]@));
                }
            }
            assert(self@ =~= wanted);
        }
    }

    /// The timer `id` ran out. Where it is still running it stops, and its
    /// timeout comes back, to be sent; where it was canceled, or ran out
    /// before, nothing is owed.
    pub fn resolve<T>(&mut self, id: &CorrelationId) -> (r: Option<Envelope<T>>)
        ensures
            final(self)@ == old(self)@.remove(id@),
            r is Some <==> owed(old(self)@, id@),
            r is Some ==> is_timeout(r->Some_0, id@),
    {
        if self.is_running(id) {
            let which = Some(id.clone());
            self.cancel(&id.pid, &which);
            Some(
                Envelope {
                    from: id.pid.clone(),
                    to: id.pid.clone(),
                    msg: Msg::Timeout,
                    correlation_id: Some(id.clone()),
                },
            )
        } else {
            assert(self@.remove(id@) =~= self@);
            None
        }
    }
}

/// Whether a request to cancel, made by `owner`, selects the timer `id`.
pub open spec fn selected(owner: PidView, which: Option<CorrelationId>, id: CorrelationIdView) -> bool {
    match which {
        Some(named) => id == named@,
        None => id.pid == owner,
    }
}

/// A timer that was started and runs out yields exactly one timeout, tagged
/// with its token: one is owed when it runs out, and none when it is said to
/// run out again.
pub proof fn law_one_timeout_per_timer(pending: Set<CorrelationIdView>, id: CorrelationIdView)
    ensures
        owed(pending.insert(id), id),
        !owed(pending.insert(id).remove(id), id),
{
}

/// A timer that is canceled before it runs out yields no timeout, whether it
/// was canceled by its token or with all the timers of its owner.
pub proof fn law_canceled_timer_is_silent(pending: Set<CorrelationIdView>, id: CorrelationIdView)
    ensures
        !owed(canceled(pending.insert(id), id.pid, Some(id)), id),
        !owed(canceled(pending.insert(id), id.pid, None), id),
{
}

/// Canceling touches no timer but those it selects: a timer of another
/// process, under another token, keeps running.
pub proof fn law_cancel_spares_others(
    pending: Set<CorrelationIdView>,
    owner: PidView,
    which: Option<CorrelationIdView>,
    other: CorrelationIdView,
)
    requires
        other.pid != owner,
        which != Some(other),
    ensures
        owed(canceled(pending, owner, which), other) == owed(pending, other),
{
}

} // verus!
