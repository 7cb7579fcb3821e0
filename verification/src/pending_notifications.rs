//! The socket workers that wait for an authentication result, each reachable
//! through a one-shot channel and known by a random UUID.

use vstd::prelude::*;

use tokio::sync::oneshot;

use crate::uuids::{random_uuid_string, uuid_text};

verus! {

/// The result delivered to a waiting worker. Failures are not results: they
/// are reported as errors. `Denied` is an explicit denial or an approval timeout.
#[derive(Debug, Clone, Copy, PartialEq, Eq, Structural)]
pub enum AuthResult {
    Success,
    Denied,
}

struct PendingNotification {
    uuid: String,
    sender: oneshot::Sender<AuthResult>,
}

/// Calls tokio's `oneshot::Sender::send`. Whether the value arrives depends on
/// whether the receiver is still there, so nothing is promised; the outcome is
/// dropped, as the daemon does not act on it.
#[verifier::external_body]
fn deliver(sender: oneshot::Sender<AuthResult>, result: AuthResult) {
    let _ = sender.send(result);
}

/// The workers waiting for a result, in the order they registered, and the
/// record of every result handed over so far: for each delivery, the
/// worker's identifier, its sender and the result passed to that sender.
pub struct PendingNotifications {
    inner: Vec<PendingNotification>,
    delivered: Ghost<Seq<(Seq<char>, oneshot::Sender<AuthResult>, AuthResult)>>,
}

/// The deliveries that handing `result` to every waiting worker of `entries`
/// (identifier and sender) makes, in the order the workers registered.
pub open spec fn handed_to_all(entries: Seq<(Seq<char>, oneshot::Sender<AuthResult>)>, result: AuthResult) -> Seq<
    (Seq<char>, oneshot::Sender<AuthResult>, AuthResult),
> {
    entries.map_values(|e: (Seq<char>, oneshot::Sender<AuthResult>)| (e.0, e.1, result))
}

/// Whether the entry `e` survives removing the identifier `uuid`.
pub open spec fn entry_survives_removal(e: (Seq<char>, oneshot::Sender<AuthResult>), uuid: Seq<char>) -> bool {
    e.0 != uuid
}

/// The entries (identifier and sender) that survive removing `uuid`, in order.
pub open spec fn entries_without(entries: Seq<(Seq<char>, oneshot::Sender<AuthResult>)>, uuid: Seq<char>) -> Seq<
    (Seq<char>, oneshot::Sender<AuthResult>),
> {
    entries.filter(|e: (Seq<char>, oneshot::Sender<AuthResult>)| entry_survives_removal(e, uuid))
}

impl View for PendingNotifications {
    type V = Seq<Seq<char>>;

    closed spec fn view(&self) -> Seq<Seq<char>> {
        self.inner@.map_values(|n: PendingNotification| n.uuid@)
    }
}

/// Whether the identifier `u` survives removing `uuid`.
pub open spec fn survives_removal(u: Seq<char>, uuid: Seq<char>) -> bool {
    u != uuid
}

/// The identifiers that survive removing `uuid`.
pub open spec fn without_uuid(pending: Seq<Seq<char>>, uuid: Seq<char>) -> Seq<Seq<char>> {
    pending.filter(|u: Seq<char>| survives_removal(u, uuid))
}

impl Default for PendingNotifications {
    /// No waiting worker.
    fn default() -> (p: Self)
        ensures
            p@ == Seq::<Seq<char>>::empty(),
            p.entries() == Seq::<(Seq<char>, oneshot::Sender<AuthResult>)>::empty(),
            p.delivered() == Seq::<(Seq<char>, oneshot::Sender<AuthResult>, AuthResult)>::empty(),
    {
        let p = PendingNotifications { inner: Vec::new(), delivered: Ghost(Seq::empty()) };
        assert(p@ =~= Seq::<Seq<char>>::empty());
        assert(p.entries() =~= Seq::<(Seq<char>, oneshot::Sender<AuthResult>)>::empty());
        p
    }
}

impl PendingNotifications {
    /// The waiting workers, each as its identifier and its sender, in the
    /// order they registered.
    pub closed spec fn entries(&self) -> Seq<(Seq<char>, oneshot::Sender<AuthResult>)> {
        self.inner@.map_values(|n: PendingNotification| (n.uuid@, n.sender))
    }

    /// Every result handed over so far, with the identifier and the sender
    /// of the worker it was handed to, oldest first.
    pub closed spec fn delivered(&self) -> Seq<(Seq<char>, oneshot::Sender<AuthResult>, AuthResult)> {
        self.delivered@
    }

    /// The identifiers are those of the entries, in order.
    pub proof fn lemma_view_is_identifiers(&self)
        ensures
            self@ == self.entries().map_values(|e: (Seq<char>, oneshot::Sender<AuthResult>)| e.0),
    {
        assert(self@ =~= self.entries().map_values(|e: (Seq<char>, oneshot::Sender<AuthResult>)| e.0));
    }

    /// Hands `result` to the worker `notification` and records the delivery.
    fn hand_over(&mut self, notification: PendingNotification, result: AuthResult)
        ensures
            final(self).inner@ == old(self).inner@,
            final(self).delivered() == old(self).delivered().push((notification.uuid@, notification.sender, result)),
    {
        let ghost id = notification.uuid@;
        let ghost sender = notification.sender;
        deliver(notification.sender, result);
        proof {
            self.delivered@ = self.delivered@.push((id, sender, result));
        }
    }

    /// Delivers `result` to every waiting worker, forgets them all, and
    /// answers how many there were.
    fn send_all(&mut self, result: AuthResult) -> (n: usize)
        ensures
            n == old(self)@.len(),
            final(self)@ == Seq::<Seq<char>>::empty(),
            final(self).entries() == Seq::<(Seq<char>, oneshot::Sender<AuthResult>)>::empty(),
            final(self).delivered() == old(self).delivered() + handed_to_all(old(self).entries(), result),
    {
        let ghost before = self.entries();
        let ghost log = self.delivered();
        let mut drained: Vec<PendingNotification> = Vec::new();
        std::mem::swap(&mut drained, &mut self.inner);
        let ghost orig = drained@;
        assert(before =~= orig.map_values(|p: PendingNotification| (p.uuid@, p.sender)));
        let n = drained.len();
        let mut sent: usize = 0;
        while drained.len() > 0
            invariant
                n == orig.len(),
                sent + drained@.len() == n,
                drained@ == orig.subrange(sent as int, n as int),
                self.inner@ == Seq::<PendingNotification>::empty(),
                before == orig.map_values(|p: PendingNotification| (p.uuid@, p.sender)),
                self.delivered() == log + handed_to_all(before.take(sent as int), result),
            decreases drained@.len(),
        {
            let notification = drained.remove(0);
            assert(notification == orig[sent as int]);
            self.hand_over(notification, result);
            assert(handed_to_all(before.take(sent + 1), result) =~= handed_to_all(before.take(sent as int), result).push(
                (orig[sent as int].uuid@, orig[sent as int].sender, result),
            ));
            assert(log + handed_to_all(before.take(sent + 1), result) =~= (log + handed_to_all(
                before.take(sent as int),
                result,
            )).push((orig[sent as int].uuid@, orig[sent as int].sender, result)));
            assert(drained@ =~= orig.subrange(sent + 1, n as int));
            sent = sent + 1;
        }
        assert(before.take(n as int) =~= before);
        assert(self@ =~= Seq::<Seq<char>>::empty());
        assert(self.entries() =~= Seq::<(Seq<char>, oneshot::Sender<AuthResult>)>::empty());
        sent
    }

    /// Registers a waiting worker under a fresh random UUID and answers it.
    pub fn add_one(&mut self, sender: oneshot::Sender<AuthResult>) -> (id: String)
        ensures
            final(self)@ == old(self)@.push(id@),
            final(self).entries() == old(self).entries().push((id@, sender)),
            final(self).delivered() == old(self).delivered(),
            exists|v: u128| id@ == #[trigger] uuid_text(v),
    {
        let id = random_uuid_string();
        let ghost before = self@;
        let ghost before_entries = self.entries();
        let ghost registered = sender;
        let pending = PendingNotification { uuid: id.clone(), sender };
        self.inner.push(pending);
        assert(self@ =~= before.push(id@));
        assert(self.entries() =~= before_entries.push((id@, registered)));
        id
    }

    /// Delivers a success to every waiting worker and forgets them all.
    pub fn notify_all(&mut self) -> (n: usize)
        ensures
            n == old(self)@.len(),
            final(self)@ == Seq::<Seq<char>>::empty(),
            final(self).entries() == Seq::<(Seq<char>, oneshot::Sender<AuthResult>)>::empty(),
            final(self).delivered() == old(self).delivered() + handed_to_all(old(self).entries(), AuthResult::Success),
    {
        self.send_all(AuthResult::Success)
    }

    /// Delivers a denial to every waiting worker and forgets them all.
    pub fn fail_all(&mut self) -> (n: usize)
        ensures
            n == old(self)@.len(),
            final(self)@ == Seq::<Seq<char>>::empty(),
            final(self).entries() == Seq::<(Seq<char>, oneshot::Sender<AuthResult>)>::empty(),
            final(self).delivered() == old(self).delivered() + handed_to_all(old(self).entries(), AuthResult::Denied),
    {
        self.send_all(AuthResult::Denied)
    }

    /// Forgets every waiting worker registered under `uuid`, keeping the
    /// others in order.
    pub fn remove_one(&mut self, uuid: &str)
        ensures
            final(self)@ == without_uuid(old(self)@, uuid@),
            final(self).entries() == entries_without(old(self).entries(), uuid@),
            final(self).delivered() == old(self).delivered(),
    {
        let target = String::from_str(uuid);
        let ghost before = self@;
        let ghost before_entries = self.entries();
        let mut rest: Vec<PendingNotification> = Vec::new();
        std::mem::swap(&mut rest, &mut self.inner);
        let ghost orig = rest@;
        let n = rest.len();
        let mut kept: Vec<PendingNotification> = Vec::new();
        let mut i: usize = 0;
        while i < n
            invariant
                n == orig.len(),
                i <= n,
                target@ == uuid@,
                rest@ == orig.subrange(i as int, n as int),
                before == orig.map_values(|p: PendingNotification| p.uuid@),
                kept@.map_values(|p: PendingNotification| p.uuid@) == without_uuid(before.take(i as int), uuid@),
                before_entries == orig.map_values(|p: PendingNotification| (p.uuid@, p.sender)),
                kept@.map_values(|p: PendingNotification| (p.uuid@, p.sender)) == entries_without(
                    before_entries.take(i as int),
                    uuid@,
                ),
            decreases n - i,
        {
            let item = rest.remove(0);
            assert(item == orig[i as int]);
            proof {
                reveal_with_fuel(Seq::filter, 1);
                assert(before.take(i + 1).drop_last() =~= before.take(i as int));
                assert(before.take(i + 1).last() == item.uuid@);
                assert(before_entries.take(i + 1).drop_last() =~= before_entries.take(i as int));
                assert(before_entries.take(i + 1).last() == (item.uuid@, item.sender));
            }
            if item.uuid != target {
                let ghost kept_before = kept@;
                kept.push(item);
                assert(kept@.map_values(|p: PendingNotification| p.uuid@) =~= kept_before.map_values(
                    |p: PendingNotification| p.uuid@,
                ).push(orig[i as int].uuid@));
                assert(kept@.map_values(|p: PendingNotification| (p.uuid@, p.sender)) =~= kept_before.map_values(
                    |p: PendingNotification| (p.uuid@, p.sender),
                ).push((orig[i as int].uuid@, orig[i as int].sender)));
            }
            assert(rest@ =~= orig.subrange(i + 1, n as int));
            i = i + 1;
        }
        assert(before.take(n as int) =~= before);
        assert(before_entries.take(n as int) =~= before_entries);
        self.inner = kept;
    }
}

/// After a worker is removed by its identifier, no worker with that
/// identifier is left, and no other worker was removed.
pub proof fn law_remove_one_removes_exactly(pending: Seq<Seq<char>>, uuid: Seq<char>)
    ensures
        !without_uuid(pending, uuid).contains(uuid),
        forall|u: Seq<char>| u != uuid && pending.contains(u) ==> without_uuid(pending, uuid).contains(u),
{
    let pred = |u: Seq<char>| survives_removal(u, uuid);
    assert forall|i: int| 0 <= i < without_uuid(pending, uuid).len() implies without_uuid(pending, uuid)[i] != uuid by {
        pending.lemma_filter_pred(pred, i);
    }
    assert forall|u: Seq<char>| u != uuid && pending.contains(u) implies without_uuid(pending, uuid).contains(u) by {
        let i = choose|i: int| 0 <= i < pending.len() && pending[i] == u;
        pending.lemma_filter_contains(pred, i);
    }
}

/// Every worker that `notify_all` forgets is handed a success through its
/// own sender, and every worker that `fail_all` forgets a denial: the i-th
/// delivery goes to the i-th registered worker, with that worker's sender.
pub proof fn law_each_worker_handed_the_result(
    entries: Seq<(Seq<char>, oneshot::Sender<AuthResult>)>,
    result: AuthResult,
    i: int,
)
    requires
        0 <= i < entries.len(),
    ensures
        handed_to_all(entries, result)[i] == (entries[i].0, entries[i].1, result),
        handed_to_all(entries, result).len() == entries.len(),
{
}

/// Removing an identifier drops exactly the entries registered under it:
/// every other worker keeps its own sender.
pub proof fn law_remove_one_keeps_other_senders(
    entries: Seq<(Seq<char>, oneshot::Sender<AuthResult>)>,
    uuid: Seq<char>,
)
    ensures
        forall|i: int| 0 <= i < entries_without(entries, uuid).len() ==> #[trigger] entries_without(entries, uuid)[i].0 != uuid,
        forall|i: int| 0 <= i < entries.len() && entries[i].0 != uuid ==> entries_without(entries, uuid).contains(#[trigger] entries[i]),
{
    let pred = |e: (Seq<char>, oneshot::Sender<AuthResult>)| entry_survives_removal(e, uuid);
    assert forall|i: int| 0 <= i < entries_without(entries, uuid).len() implies #[trigger] entries_without(entries, uuid)[i].0 != uuid by {
        entries.lemma_filter_pred(pred, i);
    }
    assert forall|i: int| 0 <= i < entries.len() && entries[i].0 != uuid implies entries_without(entries, uuid).contains(#[trigger] entries[i]) by {
        entries.lemma_filter_contains(pred, i);
    }
}

} // verus!
