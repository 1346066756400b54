//! The laws the registry and the watcher protocol obey, each proved over the
//! same spec functions the executable operations' contracts use.

use vstd::prelude::*;

use crate::device::{DeviceKey, DeviceInfoV, MonitorFlags, monitor_of, fresh_flags, severed_flags, should_lock_spec, summary_of};
use crate::registry::{EntryV, tracks, index_of_key, monitor_at, key_count, distinct_keys, departure_spec, status_chars, status_line, wake_spec, WakeAction};

verus! {

proof fn lemma_key_count_zero(es: Seq<EntryV>, key: DeviceKey)
    requires
        !tracks(es, key),
    ensures
        key_count(es, key) == 0,
    decreases es.len(),
{
    if es.len() > 0 {
        assert(!tracks(es.drop_last(), key)) by {
            if tracks(es.drop_last(), key) {
                let i = choose|i: int| 0 <= i < es.drop_last().len() && es.drop_last()[i].0 == key;
                assert(es[i].0 == key);
            }
        }
        lemma_key_count_zero(es.drop_last(), key);
        assert(es.last().0 != key);
    }
}

/// A successful tether on a key absent from the registry leaves exactly one
/// entry for that key, its removed flag clear and its lock-on-remove flag
/// set, and every other entry untouched.
pub proof fn lemma_tether_inserts_single_entry(es: Seq<EntryV>, key: DeviceKey, info: DeviceInfoV)
    requires
        distinct_keys(es),
        !tracks(es, key),
    ensures
        ({
            let post = es.push((key, monitor_of(info)));
            &&& tracks(post, key)
            &&& key_count(post, key) == 1
            &&& monitor_at(post, key) == monitor_of(info)
            &&& monitor_at(post, key).flags == fresh_flags()
            &&& distinct_keys(post)
            &&& forall|i: int| 0 <= i < es.len() ==> post[i] == es[i]
        }),
{
    let post = es.push((key, monitor_of(info)));
    assert(post[es.len() as int].0 == key);
    assert(tracks(post, key));
    lemma_key_count_zero(es, key);
    assert(post.drop_last() =~= es);
    assert(key_count(post, key) == 1);
    assert forall|i: int, j: int| 0 <= i < j < post.len() implies post[i].0 != post[j].0 by {
        if j < es.len() {
            assert(post[i] == es[i] && post[j] == es[j]);
        } else {
            assert(post[i] == es[i]);
            if post[i].0 == key {
                assert(tracks(es, key));
            }
        }
    }
    let ix = index_of_key(post, key);
    assert(0 <= ix < post.len() && post[ix].0 == key);
    assert(ix == es.len()) by {
        if ix != es.len() {
            assert(post[ix] == es[ix]);
            assert(tracks(es, key));
        }
    }
}

/// Of two tether requests for one key, exactly one can succeed: after the
/// first one's atomic insert the key is tracked, so the second one's atomic
/// re-check fails it with the already-tethered error and changes nothing —
/// that refusal is the insert operation's contract; this law shows its
/// premise, that one success tracks the key with a single entry, however the
/// two requests interleave around the critical section.
pub proof fn lemma_no_double_tether(es: Seq<EntryV>, key: DeviceKey, info: DeviceInfoV)
    requires
        distinct_keys(es),
        !tracks(es, key),
    ensures
        tracks(es.push((key, monitor_of(info))), key),
        key_count(es.push((key, monitor_of(info))), key) == 1,
        distinct_keys(es.push((key, monitor_of(info)))),
{
    lemma_tether_inserts_single_entry(es, key, info);
}

/// Status on an empty registry is the fixed no-active-tethers message; it is
/// also what an immediate status reports right after a severe cleared the
/// registry, before any watcher reacts.
pub proof fn lemma_status_on_empty_registry()
    ensures
        status_chars(Seq::<EntryV>::empty()) == "no active tethers"@,
{
}

/// After one successful tether on an empty registry, the status body is that
/// device's summary — which carries its vendor:product pair — tagged
/// watching.
pub proof fn lemma_status_after_first_tether(key: DeviceKey, info: DeviceInfoV)
    ensures
        ({
            let post = Seq::<EntryV>::empty().push((key, monitor_of(info)));
            status_chars(post) == summary_of(key, info.vendor_id, info.product_id, info.product_name)
                + " ["@ + "watching"@ + "]"@
        }),
{
    let post = Seq::<EntryV>::empty().push((key, monitor_of(info)));
    assert(post.len() == 1);
    assert(post[0] == (key, monitor_of(info)));
    assert(status_chars(post) == status_line(post[0]));
}

/// A severed monitor never locks: severe clears the lock-on-remove flag
/// before it sets the removed flag, so a watcher that observes its flags
/// after a severe — in whatever order it reads them — decides against
/// locking.
pub proof fn lemma_severed_monitor_never_locks()
    ensures
        !should_lock_spec(severed_flags()),
        !should_lock_spec(MonitorFlags { removed: false, lock_on_remove: false }),
{
}

/// A watcher that wakes after a severe finds its key gone and self-removes
/// without locking: tether followed by severe never invokes the session
/// locker.
pub proof fn lemma_wake_after_severe(key: DeviceKey)
    ensures
        wake_spec(Seq::<EntryV>::empty(), key) == WakeAction::RemoveOnly,
{
    assert(!tracks(Seq::<EntryV>::empty(), key));
}

/// A departure event for a tracked key sets exactly that entry's removed
/// flag; with lock-on-remove still set, the watcher's next wake decides to
/// lock the sessions, once, and then self-remove.
pub proof fn lemma_departure_arms_lock(es: Seq<EntryV>, key: DeviceKey)
    requires
        distinct_keys(es),
        tracks(es, key),
        monitor_at(es, key).flags.lock_on_remove,
    ensures
        ({
            let post = departure_spec(es, key);
            &&& tracks(post, key)
            &&& monitor_at(post, key).flags.removed
            &&& should_lock_spec(monitor_at(post, key).flags)
            &&& wake_spec(post, key) == WakeAction::LockAndRemove
            &&& forall|i: int| 0 <= i < es.len() && es[i].0 != key ==> post[i] == es[i]
        }),
{
    let post = departure_spec(es, key);
    let i = index_of_key(es, key);
    assert(0 <= i < es.len() && es[i].0 == key);
    assert(post[i].0 == key);
    assert(tracks(post, key));
    assert forall|a: int, b: int| 0 <= a < b < post.len() implies post[a].0 != post[b].0 by {
        assert(post[a].0 == es[a].0);
        assert(post[b].0 == es[b].0);
    }
    let j = index_of_key(post, key);
    assert(0 <= j < post.len() && post[j].0 == key);
    assert(j == i) by {
        if j != i {
            assert(post[j].0 == es[j].0);
            assert(es[j].0 != es[i].0);
        }
    }
    assert(post[i].1.flags.removed);
    assert(post[i].1.flags.lock_on_remove == es[i].1.flags.lock_on_remove);
}

/// A departure event for an untracked key has no observable effect.
pub proof fn lemma_departure_untracked_no_effect(es: Seq<EntryV>, key: DeviceKey)
    requires
        !tracks(es, key),
    ensures
        departure_spec(es, key) =~= es,
{
    assert forall|i: int| 0 <= i < es.len() implies departure_spec(es, key)[i] == es[i] by {
        if es[i].0 == key {
            assert(tracks(es, key));
        }
    }
}

} // verus!
