//! The device registry: the process-wide map of active tethers, the single
//! source of truth for the status, tether and severe operations, and the
//! decision a watcher takes on every wake.
//!
//! The registry is a sequence of entries with pairwise-distinct keys.  The
//! application guards one registry with one mutual-exclusion primitive; every
//! operation here is one critical section, so the "check absence, then
//! insert" step of a tether is atomic and two tethers for one key can never
//! both succeed.

use vstd::prelude::*;

use crate::device::{DeviceKey, DeviceMonitor, MonitorV, MonitorFlags};
use crate::device::summary_of;
use crate::num::{dec_of, append_dec};

verus! {

/// One registry entry in the mathematical view.
pub type EntryV = (DeviceKey, MonitorV);

/// Whether some entry carries the key.
pub open spec fn tracks(es: Seq<EntryV>, key: DeviceKey) -> bool {
    exists|i: int| 0 <= i < es.len() && es[i].0 == key
}

/// The position of the key's entry; meaningful only where the key is tracked.
pub open spec fn index_of_key(es: Seq<EntryV>, key: DeviceKey) -> int {
    choose|i: int| 0 <= i < es.len() && es[i].0 == key
}

/// The monitor recorded for the key; meaningful only where the key is tracked.
pub open spec fn monitor_at(es: Seq<EntryV>, key: DeviceKey) -> MonitorV {
    es[index_of_key(es, key)].1
}

/// How many entries carry the key.
pub open spec fn key_count(es: Seq<EntryV>, key: DeviceKey) -> int
    decreases es.len(),
{
    if es.len() == 0 {
        0
    } else {
        key_count(es.drop_last(), key) + (if es.last().0 == key {
            1int
        } else {
            0int
        })
    }
}

/// Pairwise-distinct keys: the registry is a map.
pub open spec fn distinct_keys(es: Seq<EntryV>) -> bool {
    forall|i: int, j: int| 0 <= i < j < es.len() ==> es[i].0 != es[j].0
}

/// The entries that survive the lazy purge: those not yet marked removed.
pub open spec fn keep_live(es: Seq<EntryV>) -> Seq<EntryV>
    decreases es.len(),
{
    if es.len() == 0 {
        Seq::empty()
    } else if !es[0].1.flags.removed {
        seq![es[0]] + keep_live(es.drop_first())
    } else {
        keep_live(es.drop_first())
    }
}

/// The registry after a departure event for the key: the matching entry's
/// removed flag is set; an event for an untracked key changes nothing.
pub open spec fn departure_spec(es: Seq<EntryV>, key: DeviceKey) -> Seq<EntryV> {
    Seq::new(
        es.len(),
        |i: int|
            if es[i].0 == key {
                (es[i].0, MonitorV { flags: MonitorFlags { removed: true, ..es[i].1.flags }, ..es[i].1 })
            } else {
                es[i]
            },
    )
}

/// The registry after an arrival event for the key: a fast reattach clears
/// the matching entry's removed flag.
pub open spec fn arrival_spec(es: Seq<EntryV>, key: DeviceKey) -> Seq<EntryV> {
    Seq::new(
        es.len(),
        |i: int|
            if es[i].0 == key {
                (es[i].0, MonitorV { flags: MonitorFlags { removed: false, ..es[i].1.flags }, ..es[i].1 })
            } else {
                es[i]
            },
    )
}

/// The tag a status line ends with.
pub open spec fn status_tag(m: MonitorV) -> Seq<char> {
    if m.flags.removed {
        "disconnected"@
    } else {
        "watching"@
    }
}

/// One status line: the device summary and the watcher's tag.
pub open spec fn status_line(e: EntryV) -> Seq<char> {
    summary_of(e.0, e.1.vendor_id, e.1.product_id, e.1.product_name) + " ["@ + status_tag(e.1)
        + "]"@
}

/// The status lines of the entries, one per entry, joined by a newline.
pub open spec fn status_lines(es: Seq<EntryV>) -> Seq<char>
    decreases es.len(),
{
    if es.len() == 0 {
        Seq::empty()
    } else if es.len() == 1 {
        status_line(es[0])
    } else {
        status_line(es[0]) + "\n"@ + status_lines(es.drop_first())
    }
}

/// The full status body: a fixed message for an empty registry, else the
/// lines.
pub open spec fn status_chars(es: Seq<EntryV>) -> Seq<char> {
    if es.len() == 0 {
        "no active tethers"@
    } else {
        status_lines(es)
    }
}

/// The body reporting how many tethers the severe operation cleared.
pub open spec fn severe_msg_of(n: int) -> Seq<char> {
    "cleared "@ + dec_of(n) + " tether(s)"@
}

/// What a watcher does when it wakes and consults the registry.
#[derive(Clone, Copy, PartialEq, Eq, Structural, Debug)]
pub enum WakeAction {
    /// The device is still present: keep pumping events.
    KeepWatching,
    /// Confirmed physical removal with the tether still armed: lock every
    /// session, then self-remove.
    LockAndRemove,
    /// The tether is gone or disarmed: self-remove without locking.
    RemoveOnly,
}

/// The wake decision over the registry's view.
pub open spec fn wake_spec(es: Seq<EntryV>, key: DeviceKey) -> WakeAction {
    if !tracks(es, key) {
        WakeAction::RemoveOnly
    } else {
        let m = monitor_at(es, key);
        if !m.flags.removed {
            WakeAction::KeepWatching
        } else if m.flags.lock_on_remove {
            WakeAction::LockAndRemove
        } else {
            WakeAction::RemoveOnly
        }
    }
}

/// The registry of active tethers.
pub struct DaemonState {
    monitors: Vec<(DeviceKey, DeviceMonitor)>,
}

impl View for DaemonState {
    type V = Seq<EntryV>;

    closed spec fn view(&self) -> Seq<EntryV> {
        self.monitors@.map_values(|p: (DeviceKey, DeviceMonitor)| (p.0, p.1@))
    }
}

impl DaemonState {
    /// Well-formed: one entry per key.
    pub open spec fn wf(&self) -> bool {
        distinct_keys(self@)
    }

    pub fn new() -> (s: DaemonState)
        ensures
            s@ =~= Seq::<EntryV>::empty(),
            s.wf(),
    {
        DaemonState { monitors: Vec::new() }
    }

    pub fn len(&self) -> (n: usize)
        ensures
            n == self@.len(),
    {
        self.monitors.len()
    }

    fn find_index(&self, key: DeviceKey) -> (r: Option<usize>)
        ensures
            match r {
                Some(i) => i < self@.len() && self@[i as int].0 == key,
                None => !tracks(self@, key),
            },
    {
        let n = self.monitors.len();
        let mut i: usize = 0;
        while i < n
            invariant
                n == self@.len(),
                i <= n,
                forall|j: int| 0 <= j < i ==> self@[j].0 != key,
            decreases n - i,
        {
            let k = self.monitors[i].0;
            if k.bus == key.bus && k.address == key.address {
                return Some(i);
            }
            i = i + 1;
        }
        None
    }

    /// Whether the key is already tethered.
    pub fn contains_key(&self, key: DeviceKey) -> (r: bool)
        ensures
            r == tracks(self@, key),
    {
        self.find_index(key).is_some()
    }

    /// The atomic critical section of a tether: re-check absence and insert in
    /// one step.  Fails, changing nothing, when the key is already present.
    pub fn try_insert(&mut self, key: DeviceKey, monitor: DeviceMonitor) -> (ok: bool)
        requires
            old(self).wf(),
        ensures
            final(self).wf(),
            ok ==> !tracks(old(self)@, key) && final(self)@ =~= old(self)@.push(
                (key, monitor@),
            ),
            !ok ==> tracks(old(self)@, key) && final(self)@ == old(self)@,
    {
        if self.find_index(key).is_some() {
            return false;
        }
        self.monitors.push((key, monitor));
        proof {
            assert(self@ =~= old(self)@.push((key, monitor@)));
            assert forall|i: int, j: int| 0 <= i < j < self@.len() implies self@[i].0 != self@[j].0 by {
                if j == self@.len() - 1 {
                    assert(self@[i] == old(self)@[i]);
                }
            }
        }
        true
    }

    /// A watcher's (or severe's raced twin of a watcher's) self-removal: takes
    /// the key's entry out; removing an absent key is a no-op, not an error.
    pub fn remove_monitor(&mut self, key: DeviceKey)
        requires
            old(self).wf(),
        ensures
            final(self).wf(),
            !tracks(final(self)@, key),
            tracks(old(self)@, key) ==> final(self)@ =~= old(self)@.remove(
                index_of_key(old(self)@, key),
            ),
            !tracks(old(self)@, key) ==> final(self)@ == old(self)@,
    {
        match self.find_index(key) {
            Some(i) => {
                self.monitors.remove(i);
                proof {
                    let es = old(self)@;
                    let ix = index_of_key(es, key);
                    assert(0 <= ix < es.len() && es[ix].0 == key);
                    assert(ix == i) by {
                        if ix != i {
                            assert(es[ix].0 != es[i as int].0);
                        }
                    }
                    assert(self@ =~= es.remove(i as int));
                    assert forall|j: int| 0 <= j < self@.len() implies self@[j].0 != key by {
                        if j < i {
                            assert(self@[j] == es[j]);
                        } else {
                            assert(self@[j] == es[j + 1]);
                        }
                    }
                    assert forall|a: int, b: int| 0 <= a < b < self@.len() implies self@[a].0
                        != self@[b].0 by {
                        let a0 = if a < i { a } else { a + 1 };
                        let b0 = if b < i { b } else { b + 1 };
                        assert(self@[a] == es[a0]);
                        assert(self@[b] == es[b0]);
                    }
                }
            },
            None => {},
        }
    }

    /// The lazy purge the status operation starts with: drops every entry
    /// whose removed flag is already set.
    pub fn purge_removed(&mut self)
        requires
            old(self).wf(),
        ensures
            final(self).wf(),
            final(self)@ =~= keep_live(old(self)@),
    {
        let n = self.monitors.len();
        let mut kept: Vec<(DeviceKey, DeviceMonitor)> = Vec::new();
        let ghost es = self@;
        let mut i: usize = 0;
        proof {
            lemma_keep_live_prefix_base(es);
        }
        while i < n
            invariant
                n == es.len(),
                i <= n,
                es == self@,
                kept@.map_values(|p: (DeviceKey, DeviceMonitor)| (p.0, p.1@)) =~= keep_live(
                    es.take(i as int),
                ),
            decreases n - i,
        {
            let keep_it = !self.monitors[i].1.flags.removed;
            if keep_it {
                let k = self.monitors[i].0;
                let m = self.monitors[i].1.duplicate();
                kept.push((k, m));
            }
            proof {
                lemma_keep_live_snoc(es.take(i as int), es[i as int]);
                assert(es.take(i as int).push(es[i as int]) =~= es.take(i as int + 1));
                assert(kept@.map_values(|p: (DeviceKey, DeviceMonitor)| (p.0, p.1@)) =~= keep_live(
                    es.take(i as int + 1),
                ));
            }
            i = i + 1;
        }
        self.monitors = kept;
        proof {
            assert(es.take(n as int) =~= es);
            lemma_keep_live_distinct(es);
        }
    }

    /// The severe operation's registry half: clears every entry at once and
    /// reports how many there were.  Watchers learn of it on their next wake
    /// and self-remove without locking.
    pub fn severe_all(&mut self) -> (n: usize)
        requires
            old(self).wf(),
        ensures
            final(self).wf(),
            n == old(self)@.len(),
            final(self)@ =~= Seq::<EntryV>::empty(),
    {
        let n = self.monitors.len();
        self.monitors.clear();
        n
    }

    /// Applies a departure event to the entry the event's bus and address
    /// name.  An event for an untracked key has no effect.
    pub fn handle_departure(&mut self, bus: u8, address: u8)
        requires
            old(self).wf(),
        ensures
            final(self).wf(),
            final(self)@ =~= departure_spec(old(self)@, DeviceKey { bus, address }),
    {
        let key = DeviceKey { bus, address };
        match self.find_index(key) {
            Some(i) => {
                self.monitors[i].1.flags.removed = true;
                proof {
                    lemma_event_update(old(self)@, self@, key, i as int, true);
                }
            },
            None => {
                proof {
                    assert(final(self)@ =~= departure_spec(old(self)@, key));
                }
            },
        }
    }

    /// Applies an arrival event — a fast reattach — to the entry the event's
    /// bus and address name.
    pub fn handle_arrival(&mut self, bus: u8, address: u8)
        requires
            old(self).wf(),
        ensures
            final(self).wf(),
            final(self)@ =~= arrival_spec(old(self)@, DeviceKey { bus, address }),
    {
        let key = DeviceKey { bus, address };
        match self.find_index(key) {
            Some(i) => {
                self.monitors[i].1.flags.removed = false;
                proof {
                    lemma_event_update_arrival(old(self)@, self@, key, i as int);
                }
            },
            None => {
                proof {
                    assert(final(self)@ =~= arrival_spec(old(self)@, key));
                }
            },
        }
    }

    /// The decision a watcher takes on a wake: keep watching while its entry
    /// is present and not removed; lock and self-remove on a removal with the
    /// tether still armed; self-remove silently when the tether was severed
    /// or already evicted.
    pub fn watcher_wake(&self, key: DeviceKey) -> (r: WakeAction)
        requires
            self.wf(),
        ensures
            r == wake_spec(self@, key),
    {
        match self.find_index(key) {
            Some(i) => {
                proof {
                    let ix = index_of_key(self@, key);
                    assert(0 <= ix < self@.len() && self@[ix].0 == key);
                    assert(ix == i) by {
                        if ix != i {
                            assert(self@[ix].0 != self@[i as int].0);
                        }
                    }
                }
                let f = self.monitors[i].1.flags;
                if !f.removed {
                    WakeAction::KeepWatching
                } else if f.lock_on_remove {
                    WakeAction::LockAndRemove
                } else {
                    WakeAction::RemoveOnly
                }
            },
            None => WakeAction::RemoveOnly,
        }
    }

    /// Renders one line per entry, or the fixed empty-registry message.
    pub fn render_status(&self) -> (r: String)
        ensures
            r@ == status_chars(self@),
    {
        let n = self.monitors.len();
        if n == 0 {
            let r = "no active tethers".to_owned();
            return r;
        }
        let mut out = String::new();
        let ghost es = self@;
        let mut i: usize = 0;
        while i < n
            invariant
                n == es.len(),
                0 < n,
                i <= n,
                es == self@,
                out@ =~= status_lines(es.take(i as int)),
            decreases n - i,
        {
            if i > 0 {
                out.append("\n");
            }
            let entry = &self.monitors[i];
            let name: Option<&str> = match &entry.1.product_name {
                Some(s) => Some(s.as_str()),
                None => None,
            };
            let line = crate::device::format_device_summary(
                entry.0,
                entry.1.vendor_id,
                entry.1.product_id,
                name,
            );
            out.append(line.as_str());
            out.append(" [");
            if entry.1.flags.removed {
                out.append("disconnected");
            } else {
                out.append("watching");
            }
            out.append("]");
            proof {
                lemma_status_lines_snoc(es.take(i as int), es[i as int]);
                assert(es.take(i as int).push(es[i as int]) =~= es.take(i as int + 1));
                assert(out@ =~= status_lines(es.take(i as int + 1)));
            }
            i = i + 1;
        }
        proof {
            assert(es.take(n as int) =~= es);
        }
        out
    }

    /// The status operation: purge entries already marked removed, then render
    /// what remains.
    pub fn handle_status(&mut self) -> (r: Result<String, String>)
        requires
            old(self).wf(),
        ensures
            final(self).wf(),
            final(self)@ =~= keep_live(old(self)@),
            r matches Ok(m) && m@ == status_chars(final(self)@),
    {
        self.purge_removed();
        Ok(self.render_status())
    }

    /// The severe operation: reports the fixed message on an empty registry;
    /// else clears every tether at once and reports the count.  It never
    /// invokes the session locker.
    pub fn handle_severe(&mut self) -> (r: Result<String, String>)
        requires
            old(self).wf(),
        ensures
            final(self).wf(),
            final(self)@ =~= Seq::<EntryV>::empty(),
            r matches Ok(m) && m@ == (if old(self)@.len() == 0 {
                "no active tethers"@
            } else {
                severe_msg_of(old(self)@.len() as int)
            }),
    {
        if self.monitors.len() == 0 {
            proof {
                assert(self@ =~= Seq::<EntryV>::empty());
            }
            return Ok("no active tethers".to_owned());
        }
        let cleared = self.severe_all();
        let mut m = "cleared ".to_owned();
        append_dec(&mut m, cleared as u64);
        m.append(" tether(s)");
        proof {
            assert(m@ =~= severe_msg_of(old(self)@.len() as int));
        }
        Ok(m)
    }
}

/// The purge keeps exactly the live entries, extended one entry at a time.
proof fn lemma_keep_live_snoc(es: Seq<EntryV>, e: EntryV)
    ensures
        keep_live(es.push(e)) == keep_live(es) + (if !e.1.flags.removed {
            seq![e]
        } else {
            Seq::<EntryV>::empty()
        }),
    decreases es.len(),
{
    let tail = if !e.1.flags.removed {
        seq![e]
    } else {
        Seq::<EntryV>::empty()
    };
    if es.len() == 0 {
        assert(es.push(e).len() == 1);
        assert(es.push(e)[0] == e);
        assert(es.push(e).drop_first() =~= Seq::<EntryV>::empty());
        if !e.1.flags.removed {
            assert(keep_live(es.push(e)) == seq![e] + keep_live(es.push(e).drop_first()));
            assert(keep_live(es.push(e).drop_first()) =~= Seq::<EntryV>::empty());
            assert(keep_live(es.push(e)) =~= tail);
        } else {
            assert(keep_live(es.push(e)) == keep_live(es.push(e).drop_first()));
            assert(keep_live(es.push(e)) =~= tail);
        }
        assert(keep_live(es) + tail =~= tail);
    } else {
        assert(es.push(e).drop_first() =~= es.drop_first().push(e));
        lemma_keep_live_snoc(es.drop_first(), e);
        assert(es.push(e)[0] == es[0]);
        if !es[0].1.flags.removed {
            assert(keep_live(es.push(e)) =~= seq![es[0]] + keep_live(es.drop_first().push(e)));
            assert(keep_live(es.push(e)) =~= keep_live(es) + tail);
        } else {
            assert(keep_live(es.push(e)) =~= keep_live(es) + tail);
        }
    }
}

proof fn lemma_keep_live_prefix_base(es: Seq<EntryV>)
    ensures
        keep_live(es.take(0)) =~= Seq::<EntryV>::empty(),
{
    assert(es.take(0) =~= Seq::<EntryV>::empty());
}

/// Every entry the purge keeps stands, with its key, in the unpurged registry.
proof fn lemma_keep_live_sub(es: Seq<EntryV>, key: DeviceKey)
    ensures
        tracks(keep_live(es), key) ==> tracks(es, key),
    decreases es.len(),
{
    if es.len() > 0 {
        lemma_keep_live_sub(es.drop_first(), key);
        if tracks(keep_live(es), key) {
            let kl = keep_live(es);
            let i = choose|i: int| 0 <= i < kl.len() && kl[i].0 == key;
            if !es[0].1.flags.removed {
                if i == 0 {
                    assert(es[0].0 == key);
                } else {
                    assert(kl[i] == keep_live(es.drop_first())[i - 1]);
                    assert(tracks(keep_live(es.drop_first()), key));
                    let j = choose|j: int|
                        0 <= j < es.drop_first().len() && es.drop_first()[j].0 == key;
                    assert(es[j + 1].0 == key);
                }
            } else {
                assert(tracks(keep_live(es.drop_first()), key));
                let j = choose|j: int|
                    0 <= j < es.drop_first().len() && es.drop_first()[j].0 == key;
                assert(es[j + 1].0 == key);
            }
        }
    }
}

/// The purge preserves distinctness of keys.
proof fn lemma_keep_live_distinct(es: Seq<EntryV>)
    requires
        distinct_keys(es),
    ensures
        distinct_keys(keep_live(es)),
    decreases es.len(),
{
    if es.len() > 0 {
        assert(distinct_keys(es.drop_first())) by {
            assert(forall|i: int, j: int|
                0 <= i < j < es.drop_first().len() ==> es.drop_first()[i] == es[i + 1]
                    && es.drop_first()[j] == es[j + 1]);
        }
        lemma_keep_live_distinct(es.drop_first());
        if !es[0].1.flags.removed {
            let rest = keep_live(es.drop_first());
            assert(!tracks(es.drop_first(), es[0].0)) by {
                assert(forall|j: int|
                    0 <= j < es.drop_first().len() ==> #[trigger] es.drop_first()[j] == es[j + 1]);
            }
            lemma_keep_live_sub(es.drop_first(), es[0].0);
            let kl = keep_live(es);
            assert(kl =~= seq![es[0]] + rest);
            assert forall|i: int, j: int| 0 <= i < j < kl.len() implies kl[i].0 != kl[j].0 by {
                if i == 0 {
                    assert(kl[j] == rest[j - 1]);
                    if kl[j].0 == es[0].0 {
                        assert(tracks(rest, es[0].0));
                    }
                } else {
                    assert(kl[i] == rest[i - 1]);
                    assert(kl[j] == rest[j - 1]);
                }
            }
        }
    }
}

/// A flag update at the key's position is the event's effect on the view.
proof fn lemma_event_update(es: Seq<EntryV>, post: Seq<EntryV>, key: DeviceKey, i: int, removed: bool)
    requires
        distinct_keys(es),
        0 <= i < es.len(),
        es[i].0 == key,
        removed,
        post =~= es.update(
            i,
            (es[i].0, MonitorV { flags: MonitorFlags { removed: true, ..es[i].1.flags }, ..es[i].1 }),
        ),
    ensures
        post =~= departure_spec(es, key),
        distinct_keys(post),
{
    assert forall|j: int| 0 <= j < es.len() implies post[j] == departure_spec(es, key)[j] by {
        if j != i {
            assert(es[j].0 != key);
        }
    }
    assert(post =~= departure_spec(es, key));
    assert forall|a: int, b: int| 0 <= a < b < post.len() implies post[a].0 != post[b].0 by {
        assert(post[a].0 == es[a].0);
        assert(post[b].0 == es[b].0);
    }
}

proof fn lemma_event_update_arrival(es: Seq<EntryV>, post: Seq<EntryV>, key: DeviceKey, i: int)
    requires
        distinct_keys(es),
        0 <= i < es.len(),
        es[i].0 == key,
        post =~= es.update(
            i,
            (
                es[i].0,
                MonitorV { flags: MonitorFlags { removed: false, ..es[i].1.flags }, ..es[i].1 },
            ),
        ),
    ensures
        post =~= arrival_spec(es, key),
        distinct_keys(post),
{
    assert forall|j: int| 0 <= j < es.len() implies post[j] == arrival_spec(es, key)[j] by {
        if j != i {
            assert(es[j].0 != key);
        }
    }
    assert(post =~= arrival_spec(es, key));
    assert forall|a: int, b: int| 0 <= a < b < post.len() implies post[a].0 != post[b].0 by {
        assert(post[a].0 == es[a].0);
        assert(post[b].0 == es[b].0);
    }
}

/// Status lines extended one entry at a time.
proof fn lemma_status_lines_snoc(es: Seq<EntryV>, e: EntryV)
    ensures
        status_lines(es.push(e)) == (if es.len() == 0 {
            status_line(e)
        } else {
            status_lines(es) + "\n"@ + status_line(e)
        }),
    decreases es.len(),
{
    if es.len() == 0 {
        assert(es.push(e)[0] == e);
        assert(status_lines(es.push(e)) == status_line(e));
    } else {
        assert(es.push(e).drop_first() =~= es.drop_first().push(e));
        lemma_status_lines_snoc(es.drop_first(), e);
        assert(es.push(e)[0] == es[0]);
        if es.len() == 1 {
            assert(es.drop_first().len() == 0);
            assert(status_lines(es.push(e)) == status_line(es[0]) + "\n"@ + status_line(e));
            assert(status_lines(es) == status_line(es[0]));
        } else {
            assert(status_lines(es.push(e)) =~= status_lines(es) + "\n"@ + status_line(e));
        }
    }
}

} // verus!
