//! Shared backends: one backend per key, fan-out of updates to subscribers,
//! and the listeners of each refresh signal.
use vstd::prelude::*;
use crate::text::str_eq;

verus! {

// ---------------------------------------------------------------------------
// Backend registry
// ---------------------------------------------------------------------------

/// One backend per key; each backend created gets an instance number that
/// no other backend of the registry has had.
pub struct BackendRegistry<B> {
    pub entries: Vec<(String, u64, B)>,
    pub next_instance: u64,
}

/// The registered keys and instance numbers.
pub open spec fn registry_entries<B>(entries: Seq<(String, u64, B)>) -> Seq<(Seq<char>, u64)> {
    entries.map_values(|e: (String, u64, B)| (e.0@, e.1))
}

/// The instance registered under `key`, if any.
pub open spec fn instance_of(entries: Seq<(Seq<char>, u64)>, key: Seq<char>) -> Option<u64> {
    if exists|i: int| 0 <= i < entries.len() && entries[i].0 == key {
        Some(entries[choose|i: int| 0 <= i < entries.len() && entries[i].0 == key].1)
    } else {
        None
    }
}

/// A registry as its contracts see it: the keys with their instance numbers,
/// in order of registration, and the next instance number to hand out.
pub struct RegistryView {
    pub entries: Seq<(Seq<char>, u64)>,
    pub next_instance: u64,
}

impl<B> View for BackendRegistry<B> {
    type V = RegistryView;

    open spec fn view(&self) -> RegistryView {
        RegistryView { entries: registry_entries(self.entries@), next_instance: self.next_instance }
    }
}

/// Each key occurs once.
pub open spec fn keys_unique(entries: Seq<(Seq<char>, u64)>) -> bool {
    forall|i: int, j: int| 0 <= i < j < entries.len() ==> entries[i].0 != entries[j].0
}

/// `get_or_create(key, ..)`: the registry after the call and the result. A
/// registered key gives its instance and `false`, and nothing changes; an
/// unknown key is registered with the next instance number, given with
/// `true`.
pub open spec fn created(s: RegistryView, key: Seq<char>) -> (RegistryView, (u64, bool)) {
    match instance_of(s.entries, key) {
        Some(id) => (s, (id, false)),
        None => (
            RegistryView {
                entries: s.entries.push((key, s.next_instance)),
                next_instance: (s.next_instance + 1) as u64,
            },
            (s.next_instance, true),
        ),
    }
}

/// `remove(key, instance)`: the entry of `key` goes when it is that
/// instance; otherwise nothing changes.
pub open spec fn removed(s: RegistryView, key: Seq<char>, instance: u64) -> RegistryView {
    if instance_of(s.entries, key) == Some(instance) {
        RegistryView {
            entries: s.entries.remove(choose|i: int| 0 <= i < s.entries.len() && s.entries[i].0 == key),
            next_instance: s.next_instance,
        }
    } else {
        s
    }
}

impl<B> BackendRegistry<B> {
    /// Keys occur once, instance numbers are distinct and below the next one.
    pub open spec fn well_formed(&self) -> bool {
        let e = registry_entries(self.entries@);
        &&& forall|i: int, j: int| 0 <= i < j < e.len() ==> e[i].0 != e[j].0
        &&& forall|i: int, j: int| 0 <= i < j < e.len() ==> e[i].1 != e[j].1
        &&& forall|i: int| 0 <= i < e.len() ==> #[trigger] e[i].1 < self.next_instance
    }

    /// An empty registry.
    pub fn new() -> (r: Self)
        ensures
            r.well_formed(),
            registry_entries(r.entries@) == Seq::<(Seq<char>, u64)>::empty(),
            r.next_instance == 0,
    {
        let r = BackendRegistry { entries: Vec::new(), next_instance: 0 };
        assert(registry_entries(r.entries@) =~= Seq::<(Seq<char>, u64)>::empty());
        r
    }

    /// The position of `key`, if registered.
    fn position(&self, key: &str) -> (r: Option<usize>)
        requires
            self.well_formed(),
        ensures
            match r {
                Some(i) => i < self.entries.len() && self.entries@[i as int].0@ == key@,
                None => forall|i: int| 0 <= i < self.entries.len() ==> #[trigger] self.entries@[i].0@ != key@,
            },
    {
        let mut i: usize = 0;
        while i < self.entries.len()
            invariant
                i <= self.entries.len(),
                forall|j: int| 0 <= j < i ==> #[trigger] self.entries@[j].0@ != key@,
            decreases self.entries.len() - i,
        {
            if str_eq(self.entries[i].0.as_str(), key) {
                return Some(i);
            }
            i = i + 1;
        }
        None
    }

    /// The backend with this instance number, if it is registered.
    pub fn backend(&self, instance: u64) -> (r: Option<&B>)
        ensures
            r is Some <==> exists|i: int| 0 <= i < self.entries.len() && self.entries@[i].1 == instance,
            r matches Some(b) ==> exists|i: int| 0 <= i < self.entries.len() && self.entries@[i].1 == instance && self.entries@[i].2 == *b,
    {
        let mut i: usize = 0;
        while i < self.entries.len()
            invariant
                i <= self.entries.len(),
                forall|j: int| 0 <= j < i ==> #[trigger] self.entries@[j].1 != instance,
            decreases self.entries.len() - i,
        {
            if self.entries[i].1 == instance {
                return Some(&self.entries[i].2);
            }
            i = i + 1;
        }
        None
    }

    /// The backend for `key`: the registered one, or a new one made by
    /// `init` and registered. Returns its instance number and whether it is
    /// new (then the caller starts its worker).
    pub fn get_or_create<F: FnOnce() -> B>(&mut self, key: &str, init: F) -> (r: (u64, bool))
        requires
            old(self).well_formed(),
            old(self).next_instance < u64::MAX,
            call_requires(init, ()),
        ensures
            final(self).well_formed(),
            (final(self)@, r) == created(old(self)@, key@),
            instance_of(registry_entries(old(self).entries@), key@) is Some ==> final(self).entries@ == old(self).entries@,
            instance_of(registry_entries(old(self).entries@), key@) is None ==> {
                &&& final(self).entries@.len() == old(self).entries@.len() + 1
                &&& final(self).entries@.drop_last() == old(self).entries@
                &&& final(self).entries@.last().0@ == key@
                &&& final(self).entries@.last().1 == old(self).next_instance
                &&& call_ensures(init, (), final(self).entries@.last().2)
            },
            match instance_of(registry_entries(old(self).entries@), key@) {
                Some(id) => r == (id, false) && registry_entries(final(self).entries@) == registry_entries(old(self).entries@)
                    && final(self).next_instance == old(self).next_instance,
                None => r == (old(self).next_instance, true) && registry_entries(final(self).entries@)
                    == registry_entries(old(self).entries@).push((key@, old(self).next_instance))
                    && final(self).next_instance == old(self).next_instance + 1,
            },
    {
        let ghost e = registry_entries(self.entries@);
        match self.position(key) {
            Some(i) => {
                assert(e[i as int].0 == key@);
                let ghost k = choose|j: int| 0 <= j < e.len() && e[j].0 == key@;
                assert(k == i) by {
                    if k != i {
                        if k < i {
                            assert(e[k].0 != e[i as int].0);
                        } else {
                            assert(e[i as int].0 != e[k].0);
                        }
                    }
                }
                (self.entries[i].1, false)
            },
            None => {
                assert forall|j: int| 0 <= j < e.len() implies e[j].0 != key@ by {
                    assert(self.entries@[j].0@ != key@);
                }
                let id = self.next_instance;
                let backend = init();
                let ghost before = self.entries@;
                self.entries.push((key.to_owned(), id, backend));
                assert(self.entries@.drop_last() =~= before);
                self.next_instance = id + 1;
                assert(registry_entries(self.entries@) =~= e.push((key@, id)));
                assert(self.next_instance == (id + 1) as u64);
                (id, true)
            },
        }
    }

    /// Drops the backend under `key` if it is the instance `instance`; a
    /// newer backend under the same key stays.
    pub fn remove(&mut self, key: &str, instance: u64)
        requires
            old(self).well_formed(),
        ensures
            final(self).well_formed(),
            final(self)@ == removed(old(self)@, key@, instance),
            instance_of(registry_entries(old(self).entries@), key@) != Some(instance) ==> final(self).entries@
                == old(self).entries@,
            instance_of(registry_entries(old(self).entries@), key@) == Some(instance) ==> exists|i: int|
                0 <= i < old(self).entries@.len() && old(self).entries@[i].0@ == key@
                && final(self).entries@ == old(self).entries@.remove(i),
            final(self).next_instance == old(self).next_instance,
            instance_of(registry_entries(old(self).entries@), key@) == Some(instance) ==> instance_of(
                registry_entries(final(self).entries@),
                key@,
            ) is None,
            instance_of(registry_entries(old(self).entries@), key@) != Some(instance) ==> registry_entries(
                final(self).entries@,
            ) == registry_entries(old(self).entries@),
            forall|k: Seq<char>| k != key@ ==> instance_of(registry_entries(final(self).entries@), k)
                == instance_of(registry_entries(old(self).entries@), k),
    {
        let ghost e = registry_entries(self.entries@);
        match self.position(key) {
            None => {
                assert forall|j: int| 0 <= j < e.len() implies e[j].0 != key@ by {
                    assert(self.entries@[j].0@ != key@);
                }
            },
            Some(i) => {
                assert(e[i as int].0 == key@);
                let ghost k = choose|j: int| 0 <= j < e.len() && e[j].0 == key@;
                assert(k == i) by {
                    if k != i {
                        if k < i {
                            assert(e[k].0 != e[i as int].0);
                        } else {
                            assert(e[i as int].0 != e[k].0);
                        }
                    }
                }
                if self.entries[i].1 == instance {
                    let _removed = self.entries.remove(i);
                    let ghost f = registry_entries(self.entries@);
                    assert(f =~= e.remove(i as int));
                    assert forall|j: int| 0 <= j < f.len() implies f[j].0 != key@ by {
                        if j < i {
                            assert(f[j] == e[j]);
                        } else {
                            assert(f[j] == e[j + 1]);
                        }
                    }
                    assert forall|kk: Seq<char>| kk != key@ implies instance_of(f, kk) == instance_of(e, kk) by {
                        if exists|j: int| 0 <= j < e.len() && e[j].0 == kk {
                            let j = choose|j: int| 0 <= j < e.len() && e[j].0 == kk;
                            let jf = if j < i { j } else { j - 1 };
                            assert(f[jf] == e[j]);
                            let cf = choose|m: int| 0 <= m < f.len() && f[m].0 == kk;
                            let m_e = if cf < i { cf } else { cf + 1 };
                            assert(e[m_e] == f[cf]);
                            if m_e != j {
                                if m_e < j {
                                    assert(e[m_e].0 != e[j].0);
                                } else {
                                    assert(e[j].0 != e[m_e].0);
                                }
                            }
                        } else {
                            assert forall|m: int| 0 <= m < f.len() implies f[m].0 != kk by {
                                if m < i {
                                    assert(f[m] == e[m]);
                                } else {
                                    assert(f[m] == e[m + 1]);
                                }
                            }
                        }
                    }
                }
            },
        }
    }
}

// ---------------------------------------------------------------------------
// Broadcaster
// ---------------------------------------------------------------------------

/// Fan-out of updates: the latest update and the subscribers that still
/// listen, each known by a number.
pub struct Broadcaster<U> {
    pub latest: Option<U>,
    pub subscribers: Vec<u64>,
    pub next_subscriber: u64,
}

/// A broadcaster as its contracts see it.
pub struct BroadcasterView<U> {
    pub latest: Option<U>,
    pub subscribers: Seq<u64>,
    pub next_subscriber: u64,
}

impl<U> View for Broadcaster<U> {
    type V = BroadcasterView<U>;

    open spec fn view(&self) -> BroadcasterView<U> {
        BroadcasterView { latest: self.latest, subscribers: self.subscribers@, next_subscriber: self.next_subscriber }
    }
}

/// A broadcaster with no update yet and no subscriber.
pub open spec fn fresh_broadcaster<U>() -> BroadcasterView<U> {
    BroadcasterView { latest: None, subscribers: Seq::empty(), next_subscriber: 0 }
}

/// `subscribe()`: the broadcaster after the call and the result: the new
/// subscriber's number, and whether the latest update is sent to it at once.
pub open spec fn subscribed<U>(s: BroadcasterView<U>) -> (BroadcasterView<U>, (u64, bool)) {
    (
        BroadcasterView {
            latest: s.latest,
            subscribers: s.subscribers.push(s.next_subscriber),
            next_subscriber: (s.next_subscriber + 1) as u64,
        },
        (s.next_subscriber, replays_latest(s.latest)),
    )
}

/// `broadcast(update)`: the update becomes the latest, and it goes to every
/// current subscriber, in order.
pub open spec fn broadcasted<U>(s: BroadcasterView<U>, update: U) -> (BroadcasterView<U>, Seq<u64>) {
    (BroadcasterView { latest: Some(update), ..s }, s.subscribers)
}

/// `record_deliveries(delivered)`: the subscribers the update reached stay,
/// in order; the others are dropped.
pub open spec fn after_deliveries<U>(s: BroadcasterView<U>, delivered: Seq<bool>) -> BroadcasterView<U> {
    BroadcasterView { subscribers: kept_subscribers(s.subscribers, delivered), ..s }
}

impl<U> Broadcaster<U> {
    /// Subscriber numbers are distinct and below the next one.
    pub open spec fn well_formed(&self) -> bool {
        &&& forall|i: int, j: int| 0 <= i < j < self.subscribers.len() ==> self.subscribers@[i] != self.subscribers@[j]
        &&& forall|i: int| 0 <= i < self.subscribers.len() ==> #[trigger] self.subscribers@[i] < self.next_subscriber
    }

    /// No update yet and no subscriber.
    pub fn new() -> (b: Self)
        ensures
            b.well_formed(),
            b@ == fresh_broadcaster::<U>(),
            b.latest is None,
            b.subscribers@ == Seq::<u64>::empty(),
    {
        Broadcaster { latest: None, subscribers: Vec::new(), next_subscriber: 0 }
    }

    /// Adds a subscriber. Returns its number and whether the latest update
    /// is to be sent to it at once (whenever there is one).
    pub fn subscribe(&mut self) -> (r: (u64, bool))
        requires
            old(self).well_formed(),
            old(self).next_subscriber < u64::MAX,
        ensures
            final(self).well_formed(),
            (final(self)@, r) == subscribed(old(self)@),
            r.0 == old(self).next_subscriber,
            r.1 == replays_latest(old(self).latest),
            final(self).subscribers@ == old(self).subscribers@.push(r.0),
            final(self).latest == old(self).latest,
            final(self).next_subscriber == old(self).next_subscriber + 1,
    {
        let id = self.next_subscriber;
        self.subscribers.push(id);
        self.next_subscriber = id + 1;
        (id, self.latest.is_some())
    }

    /// Keeps `update` for later subscribers and returns the subscribers to
    /// send it to: all current ones, in order.
    pub fn broadcast(&mut self, update: U) -> (targets: Vec<u64>)
        requires
            old(self).well_formed(),
        ensures
            final(self).well_formed(),
            (final(self)@, targets@) == broadcasted(old(self)@, update),
            final(self).latest == Some(update),
            final(self).subscribers@ == old(self).subscribers@,
            final(self).next_subscriber == old(self).next_subscriber,
            targets@ == old(self).subscribers@,
    {
        self.latest = Some(update);
        self.subscribers.clone()
    }

    /// After a broadcast: drops the subscribers to which the update could
    /// not be sent (`delivered[i]` for the `i`-th subscriber), keeping the
    /// others in order.
    pub fn record_deliveries(&mut self, delivered: &Vec<bool>)
        requires
            old(self).well_formed(),
            delivered.len() == old(self).subscribers.len(),
        ensures
            final(self).well_formed(),
            final(self)@ == after_deliveries(old(self)@, delivered@),
            final(self).latest == old(self).latest,
            final(self).next_subscriber == old(self).next_subscriber,
            final(self).subscribers@ == kept_subscribers(old(self).subscribers@, delivered@),
    {
        let ghost subs = self.subscribers@;
        let mut kept: Vec<u64> = Vec::new();
        let mut i: usize = 0;
        while i < self.subscribers.len()
            invariant
                subs == self.subscribers@,
                delivered.len() == subs.len(),
                i <= subs.len(),
                kept@ == kept_subscribers(subs.take(i as int), delivered@.take(i as int)),
            decreases subs.len() - i,
        {
            assert(subs.take(i + 1).drop_last() =~= subs.take(i as int));
            assert(delivered@.take(i + 1).drop_last() =~= delivered@.take(i as int));
            if delivered[i] {
                kept.push(self.subscribers[i]);
            }
            i = i + 1;
        }
        assert(subs.take(subs.len() as int) =~= subs);
        assert(delivered@.take(subs.len() as int) =~= delivered@);
        proof {
            lemma_kept_subscribers(subs, delivered@, self.next_subscriber);
        }
        self.subscribers = kept;
    }

    /// How many subscribers listen.
    pub fn subscriber_count(&self) -> (r: usize)
        ensures
            r == self.subscribers.len(),
    {
        self.subscribers.len()
    }
}

/// Whether a new subscriber is sent the latest update at once: whenever
/// there is one.
pub open spec fn replays_latest<U>(latest: Option<U>) -> bool {
    latest is Some
}

/// The subscribers whose delivery succeeded, in order.
pub open spec fn kept_subscribers(subs: Seq<u64>, delivered: Seq<bool>) -> Seq<u64>
    decreases subs.len(),
{
    if subs.len() == 0 || delivered.len() == 0 {
        Seq::empty()
    } else {
        let prev = kept_subscribers(subs.drop_last(), delivered.drop_last());
        if delivered.last() {
            prev.push(subs.last())
        } else {
            prev
        }
    }
}

/// The kept subscribers are distinct and below `bound` when all were.
proof fn lemma_kept_subscribers(subs: Seq<u64>, delivered: Seq<bool>, bound: u64)
    requires
        forall|i: int, j: int| 0 <= i < j < subs.len() ==> subs[i] != subs[j],
        forall|i: int| 0 <= i < subs.len() ==> #[trigger] subs[i] < bound,
    ensures
        forall|i: int, j: int| 0 <= i < j < kept_subscribers(subs, delivered).len() ==> kept_subscribers(subs, delivered)[i] != kept_subscribers(subs, delivered)[j],
        forall|i: int| 0 <= i < kept_subscribers(subs, delivered).len() ==> subs.contains(#[trigger] kept_subscribers(subs, delivered)[i]),
        forall|i: int| 0 <= i < kept_subscribers(subs, delivered).len() ==> #[trigger] kept_subscribers(subs, delivered)[i] < bound,
    decreases subs.len(),
{
    if subs.len() > 0 && delivered.len() > 0 {
        let r = subs.drop_last();
        lemma_kept_subscribers(r, delivered.drop_last(), bound);
        let kr = kept_subscribers(r, delivered.drop_last());
        let k = kept_subscribers(subs, delivered);
        assert forall|i: int| 0 <= i < kr.len() implies subs.contains(#[trigger] kr[i]) by {
            let m = choose|m: int| 0 <= m < r.len() && r[m] == kr[i];
            assert(subs[m] == r[m]);
        }
        if delivered.last() {
            assert(k == kr.push(subs.last()));
            assert forall|i: int, j: int| 0 <= i < j < k.len() implies k[i] != k[j] by {
                if j == kr.len() {
                    let m = choose|m: int| 0 <= m < r.len() && r[m] == kr[i];
                    assert(subs[m] == r[m]);
                }
            }
        }
    }
}

// ---------------------------------------------------------------------------
// Refresh signals
// ---------------------------------------------------------------------------

/// The backends that listen to each refresh signal.
pub struct SignalRegistry {
    pub signals: Vec<(i32, Vec<u64>)>,
}

/// The listeners of `signum`, if it is registered.
pub open spec fn listeners_of(signals: Seq<(i32, Vec<u64>)>, signum: i32) -> Option<Seq<u64>> {
    if exists|i: int| 0 <= i < signals.len() && signals[i].0 == signum {
        Some(signals[choose|i: int| 0 <= i < signals.len() && signals[i].0 == signum].1@)
    } else {
        None
    }
}

impl SignalRegistry {
    /// Each signal occurs once.
    pub open spec fn well_formed(&self) -> bool {
        forall|i: int, j: int| 0 <= i < j < self.signals.len() ==> self.signals@[i].0 != self.signals@[j].0
    }

    /// No signal registered.
    pub fn new() -> (r: Self)
        ensures
            r.well_formed(),
            r.signals@ == Seq::<(i32, Vec<u64>)>::empty(),
    {
        SignalRegistry { signals: Vec::new() }
    }

    /// The position of `signum`, if registered.
    fn position(&self, signum: i32) -> (r: Option<usize>)
        ensures
            match r {
                Some(i) => i < self.signals.len() && self.signals@[i as int].0 == signum,
                None => forall|i: int| 0 <= i < self.signals.len() ==> #[trigger] self.signals@[i].0 != signum,
            },
    {
        let mut i: usize = 0;
        while i < self.signals.len()
            invariant
                i <= self.signals.len(),
                forall|j: int| 0 <= j < i ==> #[trigger] self.signals@[j].0 != signum,
            decreases self.signals.len() - i,
        {
            if self.signals[i].0 == signum {
                return Some(i);
            }
            i = i + 1;
        }
        None
    }

    /// Adds `backend` to the listeners of `signum` unless it listens
    /// already. Returns whether the signal is new, so that its handler is
    /// to be installed.
    pub fn register(&mut self, signum: i32, backend: u64) -> (install: bool)
        requires
            old(self).well_formed(),
        ensures
            final(self).well_formed(),
            install == (listeners_of(old(self).signals@, signum) is None),
            match listeners_of(old(self).signals@, signum) {
                None => listeners_of(final(self).signals@, signum) == Some(seq![backend]),
                Some(l) => listeners_of(final(self).signals@, signum) == Some(
                    if l.contains(backend) { l } else { l.push(backend) },
                ),
            },
            forall|s: i32| s != signum ==> listeners_of(final(self).signals@, s) == listeners_of(old(self).signals@, s),
    {
        let ghost old_sigs = self.signals@;
        match self.position(signum) {
            None => {
                let mut l: Vec<u64> = Vec::new();
                l.push(backend);
                self.signals.push((signum, l));
                let ghost n = self.signals@;
                assert(n[n.len() - 1].0 == signum);
                assert forall|s: i32| s != signum implies listeners_of(n, s) == listeners_of(old_sigs, s) by {
                    if exists|i: int| 0 <= i < old_sigs.len() && old_sigs[i].0 == s {
                        let i = choose|i: int| 0 <= i < old_sigs.len() && old_sigs[i].0 == s;
                        assert(n[i] == old_sigs[i]);
                        let c = choose|m: int| 0 <= m < n.len() && n[m].0 == s;
                        let co = choose|m: int| 0 <= m < old_sigs.len() && old_sigs[m].0 == s;
                        assert(n[co] == old_sigs[co]);
                        if c != co {
                            if c < co {
                                assert(n[c] == old_sigs[c]);
                            } else {
                                assert(n[c] == old_sigs[c]);
                            }
                        }
                    } else {
                        assert forall|m: int| 0 <= m < n.len() implies n[m].0 != s by {
                            if m < old_sigs.len() {
                                assert(n[m] == old_sigs[m]);
                            }
                        }
                    }
                }
                let ghost c = choose|m: int| 0 <= m < n.len() && n[m].0 == signum;
                assert(c == n.len() - 1) by {
                    if c < n.len() - 1 {
                        assert(n[c] == old_sigs[c]);
                    }
                }
                assert(n[c].1@ =~= seq![backend]);
                true
            },
            Some(i) => {
                let ghost c0 = choose|m: int| 0 <= m < old_sigs.len() && old_sigs[m].0 == signum;
                assert(c0 == i) by {
                    if c0 != i {
                        if c0 < i {
                            assert(old_sigs[c0].0 != old_sigs[i as int].0);
                        } else {
                            assert(old_sigs[i as int].0 != old_sigs[c0].0);
                        }
                    }
                }
                let mut listeners: Vec<u64> = Vec::new();
                let ghost l = old_sigs[i as int].1@;
                let (sig, existing) = self.signals.remove(i);
                let mut found = false;
                let mut j: usize = 0;
                while j < existing.len()
                    invariant
                        j <= existing.len(),
                        existing@ == l,
                        found == exists|k: int| 0 <= k < j && l[k] == backend,
                    decreases existing.len() - j,
                {
                    if existing[j] == backend {
                        found = true;
                    }
                    j = j + 1;
                }
                listeners = existing;
                if !found {
                    listeners.push(backend);
                }
                self.signals.insert(i, (sig, listeners));
                let ghost n = self.signals@;
                assert(n =~= old_sigs.update(i as int, (signum, listeners)));
                assert forall|s: i32| s != signum implies listeners_of(n, s) == listeners_of(old_sigs, s) by {
                    if exists|k: int| 0 <= k < old_sigs.len() && old_sigs[k].0 == s {
                        let k = choose|k: int| 0 <= k < old_sigs.len() && old_sigs[k].0 == s;
                        assert(n[k] == old_sigs[k]);
                        let c = choose|m: int| 0 <= m < n.len() && n[m].0 == s;
                        assert(c != i);
                        assert(n[c] == old_sigs[c]);
                        if c != k {
                            if c < k {
                                assert(old_sigs[c].0 != old_sigs[k].0);
                            } else {
                                assert(old_sigs[k].0 != old_sigs[c].0);
                            }
                        }
                    } else {
                        assert forall|m: int| 0 <= m < n.len() implies n[m].0 != s by {
                            if m != i {
                                assert(n[m] == old_sigs[m]);
                            }
                        }
                    }
                }
                assert(n[i as int].0 == signum);
                let ghost c = choose|m: int| 0 <= m < n.len() && n[m].0 == signum;
                assert(c == i) by {
                    if c != i {
                        assert(n[c] == old_sigs[c]);
                        if c < i {
                            assert(old_sigs[c].0 != old_sigs[i as int].0);
                        } else {
                            assert(old_sigs[i as int].0 != old_sigs[c].0);
                        }
                    }
                }
                false
            },
        }
    }

    /// The backends to ask for a refresh when `signum` arrives.
    pub fn listeners(&self, signum: i32) -> (r: Vec<u64>)
        requires
            self.well_formed(),
        ensures
            match listeners_of(self.signals@, signum) {
                Some(l) => r@ == l,
                None => r@ == Seq::<u64>::empty(),
            },
    {
        match self.position(signum) {
            Some(i) => {
                let ghost c = choose|m: int| 0 <= m < self.signals@.len() && self.signals@[m].0 == signum;
                assert(c == i) by {
                    if c != i {
                        if c < i {
                            assert(self.signals@[c].0 != self.signals@[i as int].0);
                        } else {
                            assert(self.signals@[i as int].0 != self.signals@[c].0);
                        }
                    }
                }
                self.signals[i].1.clone()
            },
            None => Vec::new(),
        }
    }
}

// ---------------------------------------------------------------------------
// Laws
// ---------------------------------------------------------------------------

/// A subscriber that joins after a broadcast is sent the most recent update
/// at once, whether or not subscribers were dropped in between; one that
/// joins before anything was broadcast is sent nothing. Each subscription
/// adds one subscriber.
pub proof fn lemma_subscribe_after_broadcast_replays<U>(s: BroadcasterView<U>, earlier: U, update: U, delivered: Seq<bool>)
    ensures
        !subscribed(fresh_broadcaster::<U>()).1.1,
        subscribed(s).0.subscribers.len() == s.subscribers.len() + 1,
        subscribed(broadcasted(s, update).0).1.1,
        subscribed(broadcasted(s, update).0).0.latest == Some(update),
        subscribed(broadcasted(broadcasted(s, earlier).0, update).0).0.latest == Some(update),
        subscribed(after_deliveries(broadcasted(s, update).0, delivered)).1.1,
        subscribed(after_deliveries(broadcasted(s, update).0, delivered)).0.latest == Some(update),
{
}

/// A broadcast goes to every subscriber, in order; afterwards exactly the
/// subscribers it reached remain, in order, as many as deliveries
/// succeeded; and a later subscriber is sent this update.
pub proof fn lemma_broadcast_reaches_live_subscribers<U>(s: BroadcasterView<U>, update: U, delivered: Seq<bool>)
    requires
        delivered.len() == s.subscribers.len(),
    ensures
        broadcasted(s, update).1 == s.subscribers,
        after_deliveries(broadcasted(s, update).0, delivered).subscribers == kept_subscribers(s.subscribers, delivered),
        after_deliveries(broadcasted(s, update).0, delivered).subscribers.len() == delivered.filter(|d: bool| d).len(),
        subscribed(after_deliveries(broadcasted(s, update).0, delivered)).1.1,
        subscribed(after_deliveries(broadcasted(s, update).0, delivered)).0.latest == Some(update),
{
    lemma_prune_keeps_delivered(s.subscribers, delivered);
}

/// Asking twice for a key gives the same backend the second time, as an
/// existing one, and changes nothing more; the first call touches no other
/// key.
pub proof fn lemma_get_or_create_is_idempotent(s: RegistryView, key: Seq<char>)
    requires
        keys_unique(s.entries),
    ensures
        created(created(s, key).0, key).0 == created(s, key).0,
        created(created(s, key).0, key).1 == (created(s, key).1.0, false),
        forall|k: Seq<char>| k != key ==> #[trigger] instance_of(created(s, key).0.entries, k) == instance_of(s.entries, k),
{
    let e = s.entries;
    match instance_of(e, key) {
        Some(id) => {},
        None => {
            let e2 = e.push((key, s.next_instance));
            assert(e2[e.len() as int].0 == key);
            let c = choose|i: int| 0 <= i < e2.len() && e2[i].0 == key;
            if c < e.len() {
                assert(e2[c] == e[c]);
            }
            assert forall|k: Seq<char>| k != key implies #[trigger] instance_of(e2, k) == instance_of(e, k) by {
                if exists|i: int| 0 <= i < e.len() && e[i].0 == k {
                    let j = choose|i: int| 0 <= i < e.len() && e[i].0 == k;
                    assert(e2[j] == e[j]);
                    let c2 = choose|i: int| 0 <= i < e2.len() && e2[i].0 == k;
                    assert(c2 < e.len());
                    assert(e2[c2] == e[c2]);
                    if c2 != j {
                        if c2 < j {
                            assert(e[c2].0 != e[j].0);
                        } else {
                            assert(e[j].0 != e[c2].0);
                        }
                    }
                } else {
                    assert forall|i: int| 0 <= i < e2.len() implies e2[i].0 != k by {
                        if i < e.len() {
                            assert(e2[i] == e[i]);
                        }
                    }
                }
            }
        },
    }
}

/// Removing the instance registered under a key drops it, so that asking
/// for the key afterwards creates a new backend; removing any other
/// instance (an older one, or a key not registered) changes nothing; no
/// other key is touched either way.
pub proof fn lemma_remove_then_create(s: RegistryView, key: Seq<char>, instance: u64)
    requires
        keys_unique(s.entries),
    ensures
        instance_of(s.entries, key) == Some(instance) ==> instance_of(removed(s, key, instance).entries, key) is None
            && created(removed(s, key, instance), key).1.1,
        instance_of(s.entries, key) != Some(instance) ==> removed(s, key, instance) == s,
        forall|k: Seq<char>| k != key ==> #[trigger] instance_of(removed(s, key, instance).entries, k) == instance_of(s.entries, k),
{
    let e = s.entries;
    if instance_of(e, key) == Some(instance) {
        let i = choose|m: int| 0 <= m < e.len() && e[m].0 == key;
        let f = e.remove(i);
        assert(removed(s, key, instance).entries == f);
        assert forall|m: int| 0 <= m < f.len() implies f[m].0 != key by {
            if m < i {
                assert(f[m] == e[m]);
                assert(e[m].0 != e[i].0);
            } else {
                assert(f[m] == e[m + 1]);
                assert(e[i].0 != e[m + 1].0);
            }
        }
        assert forall|kk: Seq<char>| kk != key implies #[trigger] instance_of(f, kk) == instance_of(e, kk) by {
            if exists|j: int| 0 <= j < e.len() && e[j].0 == kk {
                let j = choose|j: int| 0 <= j < e.len() && e[j].0 == kk;
                let jf = if j < i { j } else { j - 1 };
                assert(f[jf] == e[j]);
                let cf = choose|m: int| 0 <= m < f.len() && f[m].0 == kk;
                let m_e = if cf < i { cf } else { cf + 1 };
                assert(e[m_e] == f[cf]);
                if m_e != j {
                    if m_e < j {
                        assert(e[m_e].0 != e[j].0);
                    } else {
                        assert(e[j].0 != e[m_e].0);
                    }
                }
            } else {
                assert forall|m: int| 0 <= m < f.len() implies f[m].0 != kk by {
                    if m < i {
                        assert(f[m] == e[m]);
                    } else {
                        assert(f[m] == e[m + 1]);
                    }
                }
            }
        }
    }
}

/// Pruning keeps exactly the subscribers whose delivery succeeded: every
/// kept one succeeded, and as many remain as deliveries succeeded.
pub proof fn lemma_prune_keeps_delivered(subs: Seq<u64>, delivered: Seq<bool>)
    requires
        subs.len() == delivered.len(),
    ensures
        kept_subscribers(subs, delivered).len() == delivered.filter(|d: bool| d).len(),
    decreases subs.len(),
{
    reveal(Seq::filter);
    if subs.len() > 0 {
        lemma_prune_keeps_delivered(subs.drop_last(), delivered.drop_last());
    }
}

} // verus!
