//! The registry: who can receive what, right now.

use vstd::prelude::*;
use crate::channel::{Channel, ChannelView};
use crate::envelope::Envelope;
use crate::pid::{Pid, PidView};

verus! {

/// How a registered target is driven.
#[derive(Debug, Clone, Copy, PartialEq, Eq, Structural)]
pub enum TargetKind {
    /// A process, run by this runtime.
    Process,
    /// A service, run by code of its own that only receives through its channel.
    Service,
}

/// What the registry holds for one address.
pub struct Target<T> {
    pub kind: TargetKind,
    pub inbox: ChannelView<Envelope<T>>,
}

impl<T> Target<T> {
    /// The target after an attempt to enqueue `envelope`.
    pub open spec fn offered(self, envelope: Envelope<T>) -> Target<T> {
        Target { inbox: self.inbox.offered(envelope), ..self }
    }

    /// The target after its oldest envelope, if any, was taken out.
    pub open spec fn advanced(self) -> Target<T> {
        Target { inbox: self.inbox.advanced(), ..self }
    }
}

/// A registered target: its address, how it is driven and its inbound channel.
#[derive(Debug)]
pub struct Entry<T> {
    pub pid: Pid,
    pub kind: TargetKind,
    pub inbox: Channel<Envelope<T>>,
}

impl<T> Entry<T> {
    /// What this entry means to the registry.
    pub open spec fn target(self) -> Target<T> {
        Target { kind: self.kind, inbox: self.inbox@ }
    }
}

/// Whether no two entries have the same address.
pub open spec fn distinct<T>(entries: Seq<Entry<T>>) -> bool {
    forall|i: int, j: int| 0 <= i < j < entries.len() ==> entries[i].pid@ != entries[j].pid@
}

/// Whether some entry has the address `pid`.
pub open spec fn holds<T>(entries: Seq<Entry<T>>, pid: PidView) -> bool {
    exists|i: int| 0 <= i < entries.len() && #[trigger] entries[i].pid@ == pid
}

/// The place of an entry with the address `pid`.
pub open spec fn place<T>(entries: Seq<Entry<T>>, pid: PidView) -> int {
    choose|i: int| 0 <= i < entries.len() && #[trigger] entries[i].pid@ == pid
}

/// The entries as a map from address to target.
pub open spec fn registry_of<T>(entries: Seq<Entry<T>>) -> Map<PidView, Target<T>> {
    Map::new(|pid: PidView| holds(entries, pid), |pid: PidView| entries[place(entries, pid)].target())
}

/// In a list of distinct entries, each entry is what the map holds for its address.
pub proof fn lemma_entry_is_registered<T>(entries: Seq<Entry<T>>, i: int)
    requires
        distinct(entries),
        0 <= i < entries.len(),
    ensures
        registry_of(entries).contains_key(entries[i].pid@),
        registry_of(entries)[entries[i].pid@] == entries[i].target(),
{
    let pid = entries[i].pid@;
    assert(holds(entries, pid));
    let j = place(entries, pid);
    assert(0 <= j < entries.len() && entries[j].pid@ == pid);
    assert(i == j);
}

/// Adding an entry under a new address adds that address to the map.
pub proof fn lemma_push<T>(entries: Seq<Entry<T>>, entry: Entry<T>)
    requires
        distinct(entries),
        !holds(entries, entry.pid@),
    ensures
        distinct(entries.push(entry)),
        registry_of(entries.push(entry)) == registry_of(entries).insert(entry.pid@, entry.target()),
{
    let after = entries.push(entry);
    assert forall|i: int, j: int| 0 <= i < j < after.len() implies after[i].pid@ != after[j].pid@ by {
        if j == entries.len() {
            assert(entries[i].pid@ == after[i].pid@);
        }
    }
    assert forall|pid: PidView| holds(after, pid) <==> (holds(entries, pid) || pid == entry.pid@) by {
        if holds(entries, pid) {
            let i = place(entries, pid);
            assert(after[i].pid@ == pid);
        }
        if pid == entry.pid@ {
            assert(after[entries.len() as int].pid@ == pid);
        }
        if holds(after, pid) {
            let i = place(after, pid);
            if i < entries.len() {
                assert(entries[i].pid@ == pid);
            }
        }
    }
    assert forall|pid: PidView| holds(after, pid) implies #[trigger] registry_of(after)[pid] == registry_of(
        entries,
    ).insert(entry.pid@, entry.target())[pid] by {
        let i = place(after, pid);
        lemma_entry_is_registered(after, i);
        if i < entries.len() {
            lemma_entry_is_registered(entries, i);
        }
    }
    assert(registry_of(after) =~= registry_of(entries).insert(entry.pid@, entry.target()));
}

/// Replacing an entry by one with the same address replaces its target in the map.
pub proof fn lemma_update<T>(entries: Seq<Entry<T>>, i: int, entry: Entry<T>)
    requires
        distinct(entries),
        0 <= i < entries.len(),
        entry.pid@ == entries[i].pid@,
    ensures
        distinct(entries.update(i, entry)),
        registry_of(entries.update(i, entry)) == registry_of(entries).insert(entry.pid@, entry.target()),
{
    let after = entries.update(i, entry);
    assert forall|a: int, b: int| 0 <= a < b < after.len() implies after[a].pid@ != after[b].pid@ by {
        assert(after[a].pid@ == entries[a].pid@);
        assert(after[b].pid@ == entries[b].pid@);
    }
    assert forall|pid: PidView| holds(after, pid) <==> holds(entries, pid) by {
        if holds(entries, pid) {
            let k = place(entries, pid);
            assert(after[k].pid@ == pid);
        }
        if holds(after, pid) {
            let k = place(after, pid);
            assert(entries[k].pid@ == pid);
        }
    }
    lemma_entry_is_registered(entries, i);
    assert forall|pid: PidView| holds(after, pid) implies #[trigger] registry_of(after)[pid] == registry_of(
        entries,
    ).insert(entry.pid@, entry.target())[pid] by {
        let k = place(after, pid);
        lemma_entry_is_registered(after, k);
        lemma_entry_is_registered(entries, k);
    }
    assert(registry_of(after) =~= registry_of(entries).insert(entry.pid@, entry.target()));
}

/// Taking an entry out takes its address out of the map.
pub proof fn lemma_remove<T>(entries: Seq<Entry<T>>, i: int)
    requires
        distinct(entries),
        0 <= i < entries.len(),
    ensures
        distinct(entries.remove(i)),
        registry_of(entries.remove(i)) == registry_of(entries).remove(entries[i].pid@),
{
    let after = entries.remove(i);
    let gone = entries[i].pid@;
    assert forall|a: int| 0 <= a < after.len() implies #[trigger] after[a] == entries[if a < i { a } else { a + 1 }] by {}
    assert forall|a: int, b: int| 0 <= a < b < after.len() implies after[a].pid@ != after[b].pid@ by {
        let a0 = if a < i { a } else { a + 1 };
        let b0 = if b < i { b } else { b + 1 };
        assert(after[a] == entries[a0]);
        assert(after[b] == entries[b0]);
    }
    assert forall|pid: PidView| holds(after, pid) <==> (holds(entries, pid) && pid != gone) by {
        if holds(entries, pid) && pid != gone {
            let k = place(entries, pid);
            let k1 = if k < i { k } else { k - 1 };
            assert(after[k1] == entries[k]);
            assert(after[k1].pid@ == pid);
        }
        if holds(after, pid) {
            let k = place(after, pid);
            let k0 = if k < i { k } else { k + 1 };
            assert(after[k] == entries[k0]);
            assert(entries[k0].pid@ == pid);
        }
    }
    assert forall|pid: PidView| holds(after, pid) implies #[trigger] registry_of(after)[pid] == registry_of(
        entries,
    ).remove(gone)[pid] by {
        let k = place(after, pid);
        let k0 = if k < i { k } else { k + 1 };
        assert(after[k] == entries[k0]);
        lemma_entry_is_registered(after, k);
        lemma_entry_is_registered(entries, k0);
    }
    assert(registry_of(after) =~= registry_of(entries).remove(gone));
}

/// The registry after the target at `pid` took its next envelope out.
pub open spec fn received<T>(registry: Map<PidView, Target<T>>, pid: PidView) -> Map<PidView, Target<T>> {
    if registry.contains_key(pid) {
        registry.insert(pid, registry[pid].advanced())
    } else {
        registry
    }
}

/// The refusal of an address that is registered already.
#[derive(Debug, Clone, PartialEq, Eq)]
pub struct SpawnConflict {
    /// The address that was asked for.
    pub pid: Pid,
}

/// The registry after an attempt to register `target` at `pid`: an address
/// that is taken keeps the target it has.
pub open spec fn installed<T>(registry: Map<PidView, Target<T>>, pid: PidView, target: Target<T>) -> Map<
    PidView,
    Target<T>,
> {
    if registry.contains_key(pid) {
        registry
    } else {
        registry.insert(pid, target)
    }
}

/// Whether the registry `registry` takes `envelope`: its addressee is
/// registered and that target's channel accepts one more.
pub open spec fn routable<T>(registry: Map<PidView, Target<T>>, envelope: Envelope<T>) -> bool {
    registry.contains_key(envelope.to@) && registry[envelope.to@].inbox.accepts()
}

/// What sending `envelope` into `registry` returns: the envelope itself
/// wherever it is not taken.
pub open spec fn delivery<T>(registry: Map<PidView, Target<T>>, envelope: Envelope<T>) -> Result<
    (),
    Envelope<T>,
> {
    if routable(registry, envelope) {
        Ok(())
    } else {
        Err(envelope)
    }
}

/// The registry after `envelope` was sent into it.
pub open spec fn delivered<T>(registry: Map<PidView, Target<T>>, envelope: Envelope<T>) -> Map<
    PidView,
    Target<T>,
> {
    if routable(registry, envelope) {
        registry.insert(envelope.to@, registry[envelope.to@].offered(envelope))
    } else {
        registry
    }
}

/// The envelope that the target at `pid` receives next, if any.
pub open spec fn next_for<T>(registry: Map<PidView, Target<T>>, pid: PidView) -> Option<Envelope<T>> {
    if registry.contains_key(pid) {
        registry[pid].inbox.front()
    } else {
        None
    }
}

/// Whether `after` is the target `before` once it was offered its shutdown notice.
pub open spec fn notified<T>(before: Target<T>, after: Target<T>, pid: PidView) -> bool {
    exists|notice: Envelope<T>| notice.is_shutdown_notice(pid) && after == #[trigger] before.offered(notice)
}

/// The targets of one node, by address. An address is registered at most once.
#[derive(Debug)]
pub struct Processes<T> {
    entries: Vec<Entry<T>>,
}

impl<T> View for Processes<T> {
    type V = Map<PidView, Target<T>>;

    closed spec fn view(&self) -> Map<PidView, Target<T>> {
        registry_of(self.entries@)
    }
}

impl<T> Processes<T> {
    /// Whether no address is registered twice. Every registry that this
    /// module hands out is well formed, and every operation keeps it so.
    pub closed spec fn wf(&self) -> bool {
        distinct(self.entries@)
    }

    /// A registry with no target.
    pub fn new() -> (registry: Processes<T>)
        ensures
            registry.wf(),
            registry@ == Map::<PidView, Target<T>>::empty(),
    {
        let registry = Processes { entries: Vec::new() };
        assert(registry@ =~= Map::<PidView, Target<T>>::empty());
        registry
    }

    /// The place of the entry for `pid`, if it is registered.
    fn find(&self, pid: &Pid) -> (found: Option<usize>)
        ensures
            match found {
                Some(i) => i < self.entries@.len() && self.entries@[i as int].pid@ == pid@,
                None => !holds(self.entries@, pid@),
            },
    {
        let mut i: usize = 0;
        while i < self.entries.len()
            invariant
                i <= self.entries@.len(),
                forall|k: int| 0 <= k < i ==> self.entries@[k].pid@ != pid@,
            decreases self.entries@.len() - i,
        {
            if self.entries[i].pid.same(pid) {
                return Some(i);
            }
            i += 1;
        }
        None
    }

    /// Whether `pid` is registered.
    pub fn contains(&self, pid: &Pid) -> (registered: bool)
        ensures
            registered == self@.contains_key(pid@),
    {
        self.find(pid).is_some()
    }

    /// Installs `inbox` as the target at `pid`, unless `pid` is registered
    /// already: then the registry is left untouched and `false` comes back.
    fn install(&mut self, pid: Pid, kind: TargetKind, inbox: Channel<Envelope<T>>) -> (fresh: bool)
        requires
            old(self).wf(),
        ensures
            final(self).wf(),
            fresh == !old(self)@.contains_key(pid@),
            final(self)@ == installed(old(self)@, pid@, Target { kind, inbox: inbox@ }),
    {
        match self.find(&pid) {
            Some(_) => false,
            None => {
                let entry = Entry { pid, kind, inbox };
                proof {
                    lemma_push(self.entries@, entry);
                }
                self.entries.push(entry);
                true
            },
        }
    }

    /// Registers a process at `pid`, which can receive from then on. An
    /// address that is registered already is refused, and its target stays.
    pub fn spawn(&mut self, pid: Pid, inbox: Channel<Envelope<T>>) -> (r: Result<(), SpawnConflict>)
        requires
            old(self).wf(),
        ensures
            final(self).wf(),
            r is Err <==> old(self)@.contains_key(pid@),
            r is Err ==> r->Err_0.pid@ == pid@,
            final(self)@ == installed(old(self)@, pid@, Target { kind: TargetKind::Process, inbox: inbox@ }),
    {
        let taken = pid.clone();
        if self.install(pid, TargetKind::Process, inbox) {
            Ok(())
        } else {
            Err(SpawnConflict { pid: taken })
        }
    }

    /// Registers the channel of a service at `pid`, under the same rule as `spawn`.
    pub fn register_service(&mut self, pid: Pid, inbox: Channel<Envelope<T>>) -> (r: Result<(), SpawnConflict>)
        requires
            old(self).wf(),
        ensures
            final(self).wf(),
            r is Err <==> old(self)@.contains_key(pid@),
            r is Err ==> r->Err_0.pid@ == pid@,
            final(self)@ == installed(old(self)@, pid@, Target { kind: TargetKind::Service, inbox: inbox@ }),
    {
        let taken = pid.clone();
        if self.install(pid, TargetKind::Service, inbox) {
            Ok(())
        } else {
            Err(SpawnConflict { pid: taken })
        }
    }

    /// Removes the target at `pid`, if there is one.
    pub fn kill(&mut self, pid: &Pid)
        requires
            old(self).wf(),
        ensures
            final(self).wf(),
            final(self)@ == old(self)@.remove(pid@),
    {
        match self.find(pid) {
            Some(i) => {
                proof {
                    lemma_remove(self.entries@, i as int);
                }
                let _ = self.entries.remove(i);
            },
            None => {
                assert(self@.remove(pid@) =~= self@);
            },
        }
    }

    /// Hands `envelope` to the target it is addressed to. Where no target is
    /// registered at that address, or the target's channel is closed or
    /// full, the envelope comes back and nothing has changed.
    pub fn send(&mut self, envelope: Envelope<T>) -> (r: Result<(), Envelope<T>>)
        requires
            old(self).wf(),
        ensures
            final(self).wf(),
            r == delivery(old(self)@, envelope),
            final(self)@ == delivered(old(self)@, envelope),
    {
        match self.find(&envelope.to) {
            Some(i) => {
                let ghost before = self.entries@;
                proof {
                    lemma_entry_is_registered(before, i as int);
                }
                let r = self.entries[i].inbox.send(envelope);
                proof {
                    lemma_update(before, i as int, self.entries@[i as int]);
                    assert(self.entries@ =~= before.update(i as int, self.entries@[i as int]));
                    if !before[i as int].inbox@.accepts() {
                        assert(self@ =~= old(self)@);
                    }
                }
                r
            },
            None => Err(envelope),
        }
    }

    /// Takes the oldest envelope out of the inbox of the target at `pid`;
    /// `None` where the inbox is empty or `pid` is not registered.
    pub fn receive(&mut self, pid: &Pid) -> (r: Option<Envelope<T>>)
        requires
            old(self).wf(),
        ensures
            final(self).wf(),
            r == next_for(old(self)@, pid@),
            final(self)@ == received(old(self)@, pid@),
    {
        match self.find(pid) {
            Some(i) => {
                let ghost before = self.entries@;
                proof {
                    lemma_entry_is_registered(before, i as int);
                }
                let r = self.entries[i].inbox.recv();
                proof {
                    lemma_update(before, i as int, self.entries@[i as int]);
                    assert(self.entries@ =~= before.update(i as int, self.entries@[i as int]));
                }
                r
            },
            None => None,
        }
    }

    /// Tells every target that the node shuts down, then forgets them all.
    /// Each target is offered its shutdown notice and handed back to the
    /// caller, who may still deliver what waits in its inbox. Afterwards
    /// nothing is registered, so every `send` fails at once.
    pub fn shutdown(&mut self) -> (drained: Vec<Entry<T>>)
        requires
            old(self).wf(),
        ensures
            final(self).wf(),
            final(self)@ == Map::<PidView, Target<T>>::empty(),
            distinct(drained@),
            registry_of(drained@).dom() == old(self)@.dom(),
            forall|pid: PidView| #[trigger]
                old(self)@.contains_key(pid) ==> notified(old(self)@[pid], registry_of(drained@)[pid], pid),
    {
        let ghost before = self.entries@;
        let mut i: usize = 0;
        while i < self.entries.len()
            invariant
                i <= self.entries@.len(),
                self.entries@.len() == before.len(),
                forall|k: int| 0 <= k < before.len() ==> (#[trigger] self.entries@[k]).pid@ == before[k].pid@,
                forall|k: int|
                    0 <= k < i ==> notified(before[k].target(), (#[trigger] self.entries@[k]).target(), before[k].pid@),
                forall|k: int| i <= k < before.len() ==> (#[trigger] self.entries@[k]).target() == before[k].target(),
            decreases self.entries@.len() - i,
        {
            let notice = Envelope::shutdown_notice(&self.entries[i].pid);
            let ghost entries = self.entries@;
            let _ = self.entries[i].inbox.send(notice);
            proof {
                assert(self.entries@ =~= entries.update(i as int, self.entries@[i as int]));
                assert(self.entries@[i as int].target() == before[i as int].target().offered(notice));
            }
            i += 1;
        }
        let mut drained: Vec<Entry<T>> = Vec::new();
        core::mem::swap(&mut self.entries, &mut drained);
        proof {
            assert(self@ =~= Map::<PidView, Target<T>>::empty());
            assert forall|a: int, b: int| 0 <= a < b < drained@.len() implies drained@[a].pid@ != drained@[b].pid@ by {
                assert(drained@[a].pid@ == before[a].pid@);
                assert(drained@[b].pid@ == before[b].pid@);
            }
            assert forall|pid: PidView| holds(drained@, pid) <==> holds(before, pid) by {
                if holds(drained@, pid) {
                    let k = place(drained@, pid);
                    assert(before[k].pid@ == pid);
                }
                if holds(before, pid) {
                    let k = place(before, pid);
                    assert(drained@[k].pid@ == pid);
                }
            }
            assert(registry_of(drained@).dom() =~= old(self)@.dom());
            assert forall|pid: PidView| #[trigger] old(self)@.contains_key(pid) implies notified(
                old(self)@[pid],
                registry_of(drained@)[pid],
                pid,
            ) by {
                let k = place(before, pid);
                assert(drained@[k].pid@ == pid);
                lemma_entry_is_registered(before, k);
                lemma_entry_is_registered(drained@, k);
            }
        }
        drained
    }

    /// The number of targets registered.
    pub fn len(&self) -> (n: usize)
        requires
            self.wf(),
        ensures
            n == self@.dom().len(),
            self@.dom().finite(),
    {
        proof {
            lemma_count(self.entries@);
        }
        self.entries.len()
    }
}

/// A list of distinct entries has as many addresses as entries.
pub proof fn lemma_count<T>(entries: Seq<Entry<T>>)
    requires
        distinct(entries),
    ensures
        registry_of(entries).dom().finite(),
        registry_of(entries).dom().len() == entries.len(),
    decreases entries.len(),
{
    if entries.len() == 0 {
        assert(registry_of(entries).dom() =~= Set::<PidView>::empty());
    } else {
        let rest = entries.drop_last();
        let last = entries.last();
        assert forall|i: int, j: int| 0 <= i < j < rest.len() implies rest[i].pid@ != rest[j].pid@ by {
            assert(rest[i] == entries[i] && rest[j] == entries[j]);
        }
        assert(!holds(rest, last.pid@)) by {
            if holds(rest, last.pid@) {
                let k = place(rest, last.pid@);
                assert(rest[k] == entries[k]);
                assert(entries[k].pid@ == entries[entries.len() - 1].pid@);
            }
        }
        lemma_count(rest);
        lemma_push(rest, last);
        assert(rest.push(last) =~= entries);
        assert(registry_of(entries).dom() =~= registry_of(rest).dom().insert(last.pid@));
        assert(!registry_of(rest).dom().contains(last.pid@));
    }
}

/// An address can be registered once: after a target was registered at
/// `pid`, a second registration there is refused and changes nothing, and
/// an envelope to `pid` is taken exactly when the first target's channel
/// accepts it.
pub proof fn law_registered_once<T>(
    registry: Map<PidView, Target<T>>,
    pid: PidView,
    first: Target<T>,
    second: Target<T>,
    envelope: Envelope<T>,
)
    requires
        !registry.contains_key(pid),
        envelope.to@ == pid,
    ensures
        installed(registry, pid, first).contains_key(pid),
        installed(installed(registry, pid, first), pid, second) == installed(registry, pid, first),
        installed(registry, pid, first)[pid] == first,
        routable(installed(registry, pid, first), envelope) == first.inbox.accepts(),
{
}

/// An envelope addressed to an address that is not registered comes back as
/// it was sent, and the registry is as before.
pub proof fn law_unregistered_send_returns_envelope<T>(registry: Map<PidView, Target<T>>, envelope: Envelope<T>)
    requires
        !registry.contains_key(envelope.to@),
    ensures
        delivery(registry, envelope) == Err::<(), Envelope<T>>(envelope),
        delivered(registry, envelope) == registry,
{
}

/// Whatever the registry answers, no envelope is lost: it is either the
/// newest in its addressee's inbox or back with the sender.
pub proof fn law_no_envelope_lost<T>(registry: Map<PidView, Target<T>>, envelope: Envelope<T>)
    ensures
        match delivery(registry, envelope) {
            Ok(()) => {
                &&& delivered(registry, envelope).contains_key(envelope.to@)
                &&& delivered(registry, envelope)[envelope.to@].inbox.queue == registry[envelope.to@].inbox.queue.push(
                    envelope,
                )
            },
            Err(returned) => returned == envelope && delivered(registry, envelope) == registry,
        },
{
}

/// Removing an address that is not registered leaves the registry as it was.
pub proof fn law_kill_absent_changes_nothing<T>(registry: Map<PidView, Target<T>>, pid: PidView)
    requires
        !registry.contains_key(pid),
    ensures
        registry.remove(pid) == registry,
{
    assert(registry.remove(pid) =~= registry);
}

/// Removing an address twice is the same as removing it once, and touches no
/// other address.
pub proof fn law_kill_idempotent<T>(registry: Map<PidView, Target<T>>, pid: PidView, other: PidView)
    requires
        other != pid,
    ensures
        registry.remove(pid).remove(pid) == registry.remove(pid),
        registry.remove(pid).contains_key(other) == registry.contains_key(other),
        registry.contains_key(other) ==> registry.remove(pid)[other] == registry[other],
{
    assert(registry.remove(pid).remove(pid) =~= registry.remove(pid));
}

/// After a shutdown nothing is registered, so every envelope comes back,
/// and a target registered afterwards is the only one there is: nothing of
/// the earlier registrations can be reached.
pub proof fn law_shutdown_is_final<T>(envelope: Envelope<T>, pid: PidView, target: Target<T>)
    ensures
        delivery(Map::<PidView, Target<T>>::empty(), envelope) == Err::<(), Envelope<T>>(envelope),
        delivered(Map::<PidView, Target<T>>::empty(), envelope) == Map::<PidView, Target<T>>::empty(),
        installed(Map::<PidView, Target<T>>::empty(), pid, target).dom() == set![pid],
        installed(Map::<PidView, Target<T>>::empty(), pid, target)[pid] == target,
        envelope.to@ != pid ==> delivery(installed(Map::<PidView, Target<T>>::empty(), pid, target), envelope)
            == Err::<(), Envelope<T>>(envelope),
{
    assert(installed(Map::<PidView, Target<T>>::empty(), pid, target).dom() =~= set![pid]);
}

} // verus!
