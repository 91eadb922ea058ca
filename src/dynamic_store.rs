//! The dynamic store: session options, the callback bridge that carries a typed
//! handler and its state through the framework's single untyped callback slot,
//! and an in-process store with the framework's key/value and notification
//! semantics.
//!
//! [`MemoryStore`] is a model of the system's dynamic store, for stating and
//! exercising callers and callbacks without the system daemon; sessions with
//! the real store do not use it. [`NotificationBridge`] is the part that real
//! sessions share: it is what the framework's callback hands each
//! notification to.
use crate::property_list::PropertyList;
use crate::text::chars_equal;
use vstd::prelude::*;
use vstd::string::*;

verus! {

/// The key of the session-keys flag in the options of a new store session.
pub const USE_SESSION_KEYS_KEY: &'static str = "UseSessionKeys";

/// The callback that runs when a watched value in the dynamic store changes,
/// with the state handed to each of its calls.
pub struct SCDynamicStoreCallBackContext<T, F> {
    /// Called with the store, the keys that changed, and the state.
    pub callout: F,
    /// The state kept between calls.
    pub info: T,
}

/// Builder for dynamic store sessions. `C` is the callback context, `()` while
/// there is none.
pub struct SCDynamicStoreBuilder<C> {
    name: String,
    session_keys: bool,
    callback_context: Option<C>,
}

impl SCDynamicStoreBuilder<()> {
    /// A builder for a session called `name`, without session keys and without
    /// a callback.
    pub fn new(name: &str) -> (r: Self)
        ensures
            r.spec_name() == name@,
            !r.spec_session_keys(),
            r.spec_callback_context() is None,
    {
        SCDynamicStoreBuilder {
            name: String::from_str(name),
            session_keys: false,
            callback_context: None,
        }
    }
}

impl<C> SCDynamicStoreBuilder<C> {
    /// The session name.
    pub closed spec fn spec_name(&self) -> Seq<char> {
        self.name@
    }

    /// Whether the session uses session keys.
    pub closed spec fn spec_session_keys(&self) -> bool {
        self.session_keys
    }

    /// The callback context, if one was set.
    pub closed spec fn spec_callback_context(&self) -> Option<C> {
        self.callback_context
    }

    /// Sets whether the session uses session keys.
    pub fn session_keys(self, session_keys: bool) -> (r: Self)
        ensures
            r.spec_name() == self.spec_name(),
            r.spec_session_keys() == session_keys,
            r.spec_callback_context() == self.spec_callback_context(),
    {
        SCDynamicStoreBuilder { session_keys, ..self }
    }

    /// Sets the callback and its state.
    pub fn callback_context<T, F>(
        self,
        callback_context: SCDynamicStoreCallBackContext<T, F>,
    ) -> (r: SCDynamicStoreBuilder<SCDynamicStoreCallBackContext<T, F>>)
        ensures
            r.spec_name() == self.spec_name(),
            r.spec_session_keys() == self.spec_session_keys(),
            r.spec_callback_context() == Some(callback_context),
    {
        SCDynamicStoreBuilder {
            name: self.name,
            session_keys: self.session_keys,
            callback_context: Some(callback_context),
        }
    }

    /// The options dictionary for creating the session: the session-keys flag
    /// under its key, and nothing else.
    pub fn store_options(&self) -> (r: PropertyList)
        ensures
            r matches PropertyList::Dictionary(entries) && entries@.len() == 1 && entries@[0].0@
                == USE_SESSION_KEYS_KEY@ && entries@[0].1 == PropertyList::Boolean(
                self.spec_session_keys(),
            ),
    {
        let mut entries: Vec<(String, PropertyList)> = Vec::new();
        entries.push(
            (String::from_str(USE_SESSION_KEYS_KEY), PropertyList::Boolean(self.session_keys)),
        );
        PropertyList::Dictionary(entries)
    }

    /// The session name, the session-keys flag and the callback context, for
    /// creating the session.
    pub fn into_parts(self) -> (r: (String, bool, Option<C>))
        ensures
            r.0@ == self.spec_name(),
            r.1 == self.spec_session_keys(),
            r.2 == self.spec_callback_context(),
    {
        (self.name, self.session_keys, self.callback_context)
    }
}

/// Whether the handler accepts every store, key list and state.
pub open spec fn accepts_all<S, T, F: Fn(&S, &Vec<String>, &mut T)>(callout: F) -> bool {
    forall|store: &S, keys: &Vec<String>, info: &mut T|
        call_requires(callout, (store, keys, info))
}

/// The receiving end of a store's notifications: it owns the callback context
/// from registration until the context is released, and hands each
/// notification to the handler together with the state.
pub struct NotificationBridge<T, F> {
    context: SCDynamicStoreCallBackContext<T, F>,
    deliveries: u64,
    delivered: Ghost<Seq<Seq<Seq<char>>>>,
}

impl<T, F> NotificationBridge<T, F> {
    /// The handler.
    pub closed spec fn spec_callout(&self) -> F {
        self.context.callout
    }

    /// How many notifications the handler has received.
    pub closed spec fn spec_deliveries(&self) -> nat {
        self.deliveries as nat
    }

    /// The state handed to the handler.
    pub closed spec fn spec_info(&self) -> T {
        self.context.info
    }

    /// The changed keys of each notification handed to the handler, oldest
    /// first.
    pub closed spec fn spec_delivered(&self) -> Seq<Seq<Seq<char>>> {
        self.delivered@
    }

    /// Takes the callback context into the bridge's keeping.
    pub fn register(context: SCDynamicStoreCallBackContext<T, F>) -> (r: Self)
        ensures
            r.spec_callout() == context.callout,
            r.spec_info() == context.info,
            r.spec_deliveries() == 0,
            r.spec_delivered() == Seq::<Seq<Seq<char>>>::empty(),
    {
        NotificationBridge { context, deliveries: 0, delivered: Ghost(Seq::empty()) }
    }

    /// The current state.
    pub fn info(&self) -> (r: &T)
        ensures
            *r == self.spec_info(),
    {
        &self.context.info
    }

    /// How many notifications the handler has received.
    pub fn deliveries(&self) -> (r: u64)
        ensures
            r == self.spec_deliveries(),
    {
        self.deliveries
    }

    /// Hands one notification to the handler: the store it came from, the keys
    /// that changed (possibly none), and the state. The handler runs exactly
    /// once.
    pub fn dispatch<S>(&mut self, store: &S, changed_keys: &Vec<String>)
        where F: Fn(&S, &Vec<String>, &mut T)
        requires
            accepts_all::<S, T, F>(old(self).spec_callout()),
            old(self).spec_deliveries() < u64::MAX,
        ensures
            final(self).spec_callout() == old(self).spec_callout(),
            final(self).spec_deliveries() == old(self).spec_deliveries() + 1,
            final(self).spec_delivered() == old(self).spec_delivered().push(
                texts(changed_keys@),
            ),
            exists|m: &mut T|
                {
                    &&& mut_ref_current(m) == old(self).spec_info()
                    &&& mut_ref_future(m) == final(self).spec_info()
                    &&& call_ensures(old(self).spec_callout(), (store, changed_keys, m), ())
                },
    {
        (self.context.callout)(store, changed_keys, &mut self.context.info);
        self.deliveries = self.deliveries + 1;
        self.delivered = Ghost(self.delivered@.push(texts(changed_keys@)));
    }

    /// Gives up the callback context, returning the state. The bridge is
    /// consumed, so this happens at most once.
    pub fn release(self) -> (r: T)
        ensures
            r == self.spec_info(),
    {
        self.context.info
    }
}

/// The texts of a list of strings.
pub open spec fn texts(v: Seq<String>) -> Seq<Seq<char>> {
    v.map_values(|s: String| s@)
}

/// Whether `v` holds a string with the characters of `s`.
pub fn contains_text(v: &Vec<String>, s: &str) -> (r: bool)
    ensures
        r == texts(v@).contains(s@),
{
    let n = v.len();
    let mut i: usize = 0;
    while i < n
        invariant
            n == v@.len(),
            i <= n,
            forall|j: int| 0 <= j < i ==> #[trigger] v@[j]@ != s@,
        decreases n - i,
    {
        if chars_equal(v[i].as_str(), s) {
            assert(texts(v@)[i as int] == s@);
            return true;
        }
        i = i + 1;
    }
    assert forall|j: int| 0 <= j < texts(v@).len() implies texts(v@)[j] != s@ by {
        assert(v@[j]@ != s@);
    }
    false
}

/// Whether no two entries share a key.
pub open spec fn unique_keys(entries: Seq<(String, PropertyList)>) -> bool {
    forall|i: int, j: int|
        0 <= i < entries.len() && 0 <= j < entries.len() && i != j ==> entries[i].0@
            != entries[j].0@
}

/// Whether some entry has the key `key`.
pub open spec fn has_key(entries: Seq<(String, PropertyList)>, key: Seq<char>) -> bool {
    exists|i: int| 0 <= i < entries.len() && entries[i].0@ == key
}

/// The entries as a map from key to value.
pub open spec fn entries_map(entries: Seq<(String, PropertyList)>) -> Map<
    Seq<char>,
    PropertyList,
> {
    Map::new(
        |k: Seq<char>| has_key(entries, k),
        |k: Seq<char>| entries[choose|i: int| 0 <= i < entries.len() && entries[i].0@ == k].1,
    )
}

proof fn lemma_entry_in_map(entries: Seq<(String, PropertyList)>, i: int)
    requires
        unique_keys(entries),
        0 <= i < entries.len(),
    ensures
        entries_map(entries).contains_key(entries[i].0@),
        entries_map(entries)[entries[i].0@] == entries[i].1,
{
    let k = entries[i].0@;
    assert(has_key(entries, k));
    let j = choose|j: int| 0 <= j < entries.len() && entries[j].0@ == k;
    assert(j == i);
}

/// An in-process dynamic store: keys map to property-list nodes, and a write to
/// a watched key is noted as a change until the next run-loop turn hands the
/// changes to the notification bridge.
pub struct MemoryStore {
    entries: Vec<(String, PropertyList)>,
    watched: Vec<String>,
    pending: Vec<String>,
}

impl View for MemoryStore {
    type V = Map<Seq<char>, PropertyList>;

    closed spec fn view(&self) -> Map<Seq<char>, PropertyList> {
        entries_map(self.entries@)
    }
}

impl MemoryStore {
    /// Well-formedness: no key is stored twice.
    pub closed spec fn wf(&self) -> bool {
        unique_keys(self.entries@)
    }

    /// The keys that are watched for changes.
    pub closed spec fn spec_watched(&self) -> Seq<Seq<char>> {
        texts(self.watched@)
    }

    /// The watched keys that changed since the last run-loop turn, each once,
    /// in the order of their first change.
    pub closed spec fn spec_pending(&self) -> Seq<Seq<char>> {
        texts(self.pending@)
    }

    /// An empty store that watches no key.
    pub fn new() -> (r: MemoryStore)
        ensures
            r.wf(),
            r@ == Map::<Seq<char>, PropertyList>::empty(),
            r.spec_watched() == Seq::<Seq<char>>::empty(),
            r.spec_pending() == Seq::<Seq<char>>::empty(),
    {
        let r = MemoryStore { entries: Vec::new(), watched: Vec::new(), pending: Vec::new() };
        assert(r@ =~= Map::<Seq<char>, PropertyList>::empty());
        assert(texts(r.watched@) =~= Seq::<Seq<char>>::empty());
        assert(texts(r.pending@) =~= Seq::<Seq<char>>::empty());
        r
    }

    fn find(&self, key: &str) -> (r: Option<usize>)
        ensures
            r matches Some(i) ==> i < self.entries@.len() && self.entries@[i as int].0@ == key@,
            r is None ==> !has_key(self.entries@, key@),
    {
        let n = self.entries.len();
        let mut i: usize = 0;
        while i < n
            invariant
                n == self.entries@.len(),
                i <= n,
                forall|j: int| 0 <= j < i ==> #[trigger] self.entries@[j].0@ != key@,
            decreases n - i,
        {
            if chars_equal(self.entries[i].0.as_str(), key) {
                return Some(i);
            }
            i = i + 1;
        }
        None
    }

    /// The value under `key`, if the store has one.
    pub fn get(&self, key: &str) -> (r: Option<&PropertyList>)
        requires
            self.wf(),
        ensures
            r is Some <==> self@.contains_key(key@),
            r matches Some(v) ==> self@[key@] == *v,
    {
        match self.find(key) {
            Some(i) => {
                proof {
                    lemma_entry_in_map(self.entries@, i as int);
                }
                Some(&self.entries[i].1)
            },
            None => None,
        }
    }

    fn note_change(&mut self, key: &str)
        ensures
            final(self).entries@ == old(self).entries@,
            final(self).watched@ == old(self).watched@,
            final(self).spec_pending() == (if old(self).spec_watched().contains(key@)
                && !old(self).spec_pending().contains(key@) {
                old(self).spec_pending().push(key@)
            } else {
                old(self).spec_pending()
            }),
    {
        if contains_text(&self.watched, key) && !contains_text(&self.pending, key) {
            self.pending.push(String::from_str(key));
            assert(texts(self.pending@) =~= texts(old(self).pending@).push(key@));
        }
    }

    /// Stores `value` under `key`, replacing any earlier value, and notes the
    /// change if the key is watched. The in-process store accepts every write,
    /// so the result is always `true`.
    pub fn set(&mut self, key: &str, value: PropertyList) -> (r: bool)
        requires
            old(self).wf(),
        ensures
            final(self).wf(),
            r,
            final(self)@ == old(self)@.insert(key@, value),
            final(self).spec_watched() == old(self).spec_watched(),
            final(self).spec_pending() == (if old(self).spec_watched().contains(key@)
                && !old(self).spec_pending().contains(key@) {
                old(self).spec_pending().push(key@)
            } else {
                old(self).spec_pending()
            }),
    {
        let ghost old_entries = self.entries@;
        let ghost v = value;
        match self.find(key) {
            Some(i) => {
                self.entries.set(i, (String::from_str(key), value));
                proof {
                    let e = self.entries@;
                    assert(unique_keys(e)) by {
                        assert forall|a: int, b: int|
                            0 <= a < e.len() && 0 <= b < e.len() && a != b implies e[a].0@
                            != e[b].0@ by {
                            if a != i && b != i {
                                assert(e[a] == old_entries[a] && e[b] == old_entries[b]);
                            } else if a == i {
                                assert(e[b] == old_entries[b]);
                            } else {
                                assert(e[a] == old_entries[a]);
                            }
                        }
                    }
                    lemma_update_map(old_entries, i as int, e, key@, v);
                }
            },
            None => {
                self.entries.push((String::from_str(key), value));
                proof {
                    let e = self.entries@;
                    assert(unique_keys(e)) by {
                        assert forall|a: int, b: int|
                            0 <= a < e.len() && 0 <= b < e.len() && a != b implies e[a].0@
                            != e[b].0@ by {
                            if a < old_entries.len() && b < old_entries.len() {
                                assert(e[a] == old_entries[a] && e[b] == old_entries[b]);
                            } else if a < old_entries.len() {
                                assert(e[a] == old_entries[a]);
                            } else {
                                assert(e[b] == old_entries[b]);
                            }
                        }
                    }
                    lemma_push_map(old_entries, e, key@, v);
                }
            },
        }
        self.note_change(key);
        true
    }

    /// Removes the value under `key` and notes the change if the key is
    /// watched. Returns whether there was a value: `false` for a key that was
    /// never set, which is no error.
    pub fn remove(&mut self, key: &str) -> (r: bool)
        requires
            old(self).wf(),
        ensures
            final(self).wf(),
            r == old(self)@.contains_key(key@),
            final(self)@ == old(self)@.remove(key@),
            final(self).spec_watched() == old(self).spec_watched(),
            final(self).spec_pending() == (if r && old(self).spec_watched().contains(key@)
                && !old(self).spec_pending().contains(key@) {
                old(self).spec_pending().push(key@)
            } else {
                old(self).spec_pending()
            }),
    {
        let ghost old_entries = self.entries@;
        match self.find(key) {
            Some(i) => {
                proof {
                    lemma_entry_in_map(old_entries, i as int);
                }
                self.entries.remove(i);
                proof {
                    let e = self.entries@;
                    assert(unique_keys(e)) by {
                        assert forall|a: int, b: int|
                            0 <= a < e.len() && 0 <= b < e.len() && a != b implies e[a].0@
                            != e[b].0@ by {
                            let a0 = if a < i { a } else { a + 1 };
                            let b0 = if b < i { b } else { b + 1 };
                            assert(e[a] == old_entries[a0] && e[b] == old_entries[b0]);
                        }
                    }
                    lemma_remove_map(old_entries, i as int, e);
                }
                self.note_change(key);
                true
            },
            None => {
                assert(old(self)@.remove(key@) =~= old(self)@);
                false
            },
        }
    }

    /// Replaces the set of watched keys.
    pub fn set_notification_keys(&mut self, keys: &Vec<String>) -> (r: bool)
        requires
            old(self).wf(),
        ensures
            final(self).wf(),
            r,
            final(self)@ == old(self)@,
            final(self).spec_watched() == texts(keys@),
            final(self).spec_pending() == old(self).spec_pending(),
    {
        self.watched = keys.clone();
        proof {
            assert(texts(self.watched@) =~= texts(keys@)) by {
                assert forall|j: int| 0 <= j < keys@.len() implies self.watched@[j] == keys@[j] by {
                    assert(cloned::<String>(keys@[j], self.watched@[j]));
                }
            }
        }
        true
    }

    /// Takes the changes noted since the last run-loop turn.
    pub fn take_changes(&mut self) -> (r: Vec<String>)
        requires
            old(self).wf(),
        ensures
            final(self).wf(),
            texts(r@) == old(self).spec_pending(),
            final(self)@ == old(self)@,
            final(self).spec_watched() == old(self).spec_watched(),
            final(self).spec_pending() == Seq::<Seq<char>>::empty(),
    {
        let mut r: Vec<String> = Vec::new();
        std::mem::swap(&mut r, &mut self.pending);
        assert(texts(self.pending@) =~= Seq::<Seq<char>>::empty());
        r
    }

    /// One turn of the run loop: when watched keys changed since the last turn,
    /// the bridge hands them to the handler, once; otherwise the handler does
    /// not run. Returns the keys handed over.
    pub fn run_loop_turn<T, F>(&mut self, bridge: &mut NotificationBridge<T, F>) -> (r: Vec<
        String,
    >)
        where F: Fn(&MemoryStore, &Vec<String>, &mut T)
        requires
            old(self).wf(),
            accepts_all::<MemoryStore, T, F>(old(bridge).spec_callout()),
            old(bridge).spec_deliveries() < u64::MAX,
        ensures
            final(self).wf(),
            texts(r@) == old(self).spec_pending(),
            final(self)@ == old(self)@,
            final(self).spec_watched() == old(self).spec_watched(),
            final(self).spec_pending() == Seq::<Seq<char>>::empty(),
            final(bridge).spec_callout() == old(bridge).spec_callout(),
            final(bridge).spec_deliveries() == old(bridge).spec_deliveries() + (if r@.len() > 0 {
                1int
            } else {
                0int
            }),
            final(bridge).spec_delivered() == (if r@.len() > 0 {
                old(bridge).spec_delivered().push(old(self).spec_pending())
            } else {
                old(bridge).spec_delivered()
            }),
            r@.len() == 0 ==> final(bridge).spec_info() == old(bridge).spec_info(),
            r@.len() > 0 ==> exists|m: &mut T|
                {
                    &&& mut_ref_current(m) == old(bridge).spec_info()
                    &&& mut_ref_future(m) == final(bridge).spec_info()
                    &&& call_ensures(old(bridge).spec_callout(), (&*final(self), &r, m), ())
                },
    {
        let changed = self.take_changes();
        if changed.len() > 0 {
            bridge.dispatch(&*self, &changed);
        }
        changed
    }
}

proof fn lemma_update_map(
    old_entries: Seq<(String, PropertyList)>,
    i: int,
    e: Seq<(String, PropertyList)>,
    key: Seq<char>,
    value: PropertyList,
)
    requires
        unique_keys(old_entries),
        unique_keys(e),
        0 <= i < old_entries.len(),
        old_entries[i].0@ == key,
        e.len() == old_entries.len(),
        e[i].0@ == key,
        e[i].1 == value,
        forall|j: int| 0 <= j < e.len() && j != i ==> e[j] == old_entries[j],
    ensures
        entries_map(e) == entries_map(old_entries).insert(key, value),
{
    let m = entries_map(old_entries).insert(key, value);
    assert forall|k: Seq<char>| #[trigger] entries_map(e).contains_key(k) <==> m.contains_key(k) by {
        if has_key(e, k) {
            let j = choose|j: int| 0 <= j < e.len() && e[j].0@ == k;
            if j != i {
                assert(old_entries[j].0@ == k);
            }
        }
        if has_key(old_entries, k) {
            let j = choose|j: int| 0 <= j < old_entries.len() && old_entries[j].0@ == k;
            if j != i {
                assert(e[j].0@ == k);
            }
        }
    }
    assert forall|k: Seq<char>| #[trigger] entries_map(e).contains_key(k) implies entries_map(e)[k]
        == m[k] by {
        let j = choose|j: int| 0 <= j < e.len() && e[j].0@ == k;
        lemma_entry_in_map(e, j);
        if j != i {
            lemma_entry_in_map(old_entries, j);
        }
    }
    assert(entries_map(e) =~= m);
}

proof fn lemma_push_map(
    old_entries: Seq<(String, PropertyList)>,
    e: Seq<(String, PropertyList)>,
    key: Seq<char>,
    value: PropertyList,
)
    requires
        unique_keys(old_entries),
        unique_keys(e),
        !has_key(old_entries, key),
        e.len() == old_entries.len() + 1,
        e[old_entries.len() as int].0@ == key,
        e[old_entries.len() as int].1 == value,
        forall|j: int| 0 <= j < old_entries.len() ==> e[j] == old_entries[j],
    ensures
        entries_map(e) == entries_map(old_entries).insert(key, value),
{
    let n = old_entries.len() as int;
    let m = entries_map(old_entries).insert(key, value);
    assert forall|k: Seq<char>| #[trigger] entries_map(e).contains_key(k) <==> m.contains_key(k) by {
        if has_key(e, k) {
            let j = choose|j: int| 0 <= j < e.len() && e[j].0@ == k;
            if j != n {
                assert(old_entries[j].0@ == k);
            }
        }
        if has_key(old_entries, k) {
            let j = choose|j: int| 0 <= j < old_entries.len() && old_entries[j].0@ == k;
            assert(e[j].0@ == k);
        }
        if k == key {
            assert(e[n].0@ == k);
        }
    }
    assert forall|k: Seq<char>| #[trigger] entries_map(e).contains_key(k) implies entries_map(e)[k]
        == m[k] by {
        let j = choose|j: int| 0 <= j < e.len() && e[j].0@ == k;
        lemma_entry_in_map(e, j);
        if j != n {
            lemma_entry_in_map(old_entries, j);
        }
    }
    assert(entries_map(e) =~= m);
}

proof fn lemma_remove_map(
    old_entries: Seq<(String, PropertyList)>,
    i: int,
    e: Seq<(String, PropertyList)>,
)
    requires
        unique_keys(old_entries),
        unique_keys(e),
        0 <= i < old_entries.len(),
        e == old_entries.remove(i),
    ensures
        entries_map(e) == entries_map(old_entries).remove(old_entries[i].0@),
{
    let key = old_entries[i].0@;
    let m = entries_map(old_entries).remove(key);
    assert forall|k: Seq<char>| #[trigger] entries_map(e).contains_key(k) <==> m.contains_key(k) by {
        if has_key(e, k) {
            let j = choose|j: int| 0 <= j < e.len() && e[j].0@ == k;
            let j0 = if j < i { j } else { j + 1 };
            assert(old_entries[j0].0@ == k);
            assert(j0 != i);
        }
        if has_key(old_entries, k) && k != key {
            let j = choose|j: int| 0 <= j < old_entries.len() && old_entries[j].0@ == k;
            assert(j != i);
            let j1 = if j < i { j } else { j - 1 };
            assert(e[j1].0@ == k);
        }
    }
    assert forall|k: Seq<char>| #[trigger] entries_map(e).contains_key(k) implies entries_map(e)[k]
        == m[k] by {
        let j = choose|j: int| 0 <= j < e.len() && e[j].0@ == k;
        let j0 = if j < i { j } else { j + 1 };
        assert(e[j] == old_entries[j0]);
        lemma_entry_in_map(e, j);
        lemma_entry_in_map(old_entries, j0);
    }
    assert(entries_map(e) =~= m);
}

/// Storing a node and reading the key back yields that node, and writing back
/// the node just read leaves the store as it was.
pub proof fn lemma_set_then_get(store: Map<Seq<char>, PropertyList>, key: Seq<char>, value: PropertyList)
    ensures
        store.insert(key, value).contains_key(key),
        store.insert(key, value)[key] == value,
        store.contains_key(key) ==> store.insert(key, store[key]) == store,
{
    if store.contains_key(key) {
        assert(store.insert(key, store[key]) =~= store);
    }
}

/// Removing a key that was never set changes nothing.
pub proof fn lemma_remove_absent(store: Map<Seq<char>, PropertyList>, key: Seq<char>)
    requires
        !store.contains_key(key),
    ensures
        store.remove(key) == store,
{
    assert(store.remove(key) =~= store);
}

} // verus!
