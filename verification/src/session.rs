//! Session bookkeeping: registries of handlers, the requests a session sends,
//! and the answers it gives to tool calls and permission requests.
use crate::error::{error_text, is_message_of, wraps_outside_error, CopilotError, Result};
use crate::json::{
    get, json_string, no_members, opt_member, opt_str_json, push_member, push_opt_member,
    push_opt_str, str_field, view_fields, Json, JsonValue,
};
use crate::types::{
    attachments_json, attachments_to_json, failure_text, MessageOptions, PermissionRequest,
    PermissionRequestResult, ToolInvocation, ToolResult,
};
use vstd::prelude::*;

verus! {

// ---------------------------------------------------------------------------
// Registry: values by name
// ---------------------------------------------------------------------------

/// Values registered by name; registering a name again replaces its value.
pub struct Registry<V> {
    entries: Vec<(String, V)>,
}

/// The map that a list of entries with distinct names stands for.
pub open spec fn entries_map<V>(s: Seq<(String, V)>) -> Map<Seq<char>, V>
    decreases s.len(),
{
    if s.len() == 0 {
        Map::empty()
    } else {
        entries_map(s.drop_last()).insert(s.last().0@, s.last().1)
    }
}

/// No name occurs twice.
pub open spec fn distinct_names<V>(s: Seq<(String, V)>) -> bool {
    forall|i: int, j: int| 0 <= i < j < s.len() ==> s[i].0@ != s[j].0@
}

/// What the map of distinct entries holds.
proof fn lemma_entries_map<V>(s: Seq<(String, V)>)
    requires
        distinct_names(s),
    ensures
        forall|k: Seq<char>|
            #[trigger] entries_map(s).contains_key(k) <==> exists|i: int|
                0 <= i < s.len() && s[i].0@ == k,
        forall|i: int| 0 <= i < s.len() ==> #[trigger] entries_map(s)[s[i].0@] == s[i].1,
    decreases s.len(),
{
    if s.len() > 0 {
        let p = s.drop_last();
        let last = s[s.len() - 1];
        assert(distinct_names(p));
        lemma_entries_map(p);
        assert(entries_map(s) == entries_map(p).insert(last.0@, last.1));
        assert forall|k: Seq<char>| #[trigger] entries_map(s).contains_key(k) implies exists|i: int|
            0 <= i < s.len() && s[i].0@ == k by {
            if k == last.0@ {
                assert(s[s.len() - 1].0@ == k);
            } else {
                assert(entries_map(p).contains_key(k));
                let i = choose|i: int| 0 <= i < p.len() && p[i].0@ == k;
                assert(s[i] == p[i]);
            }
        }
        assert forall|k: Seq<char>| (exists|i: int| 0 <= i < s.len() && s[i].0@ == k) implies #[trigger] entries_map(s).contains_key(k) by {
            let i = choose|i: int| 0 <= i < s.len() && s[i].0@ == k;
            if i < s.len() - 1 {
                assert(p[i] == s[i]);
                assert(entries_map(p).contains_key(k));
            }
        }
        assert forall|i: int| 0 <= i < s.len() implies #[trigger] entries_map(s)[s[i].0@]
            == s[i].1 by {
            if i < s.len() - 1 {
                assert(p[i] == s[i]);
                assert(s[i].0@ != last.0@);
                assert(entries_map(p)[p[i].0@] == p[i].1);
            }
        }
    }
}

impl<V> Registry<V> {
    #[verifier::type_invariant]
    spec fn names_distinct(&self) -> bool {
        distinct_names(self.entries@)
    }

    /// The registered values, by name.
    pub closed spec fn view(&self) -> Map<Seq<char>, V> {
        entries_map(self.entries@)
    }

    /// An empty registry.
    pub fn new() -> (r: Self)
        ensures
            r@ == Map::<Seq<char>, V>::empty(),
    {
        Registry { entries: Vec::new() }
    }

    /// Finds the entry named `key`.
    fn position(&self, key: &String) -> (r: Option<usize>)
        ensures
            match r {
                Some(i) => i < self.entries@.len() && self.entries@[i as int].0@ == key@,
                None => forall|j: int|
                    0 <= j < self.entries@.len() ==> self.entries@[j].0@ != key@,
            },
    {
        let mut i: usize = 0;
        while i < self.entries.len()
            invariant
                i <= self.entries@.len(),
                forall|j: int| 0 <= j < i ==> self.entries@[j].0@ != key@,
            decreases self.entries.len() - i,
        {
            if self.entries[i].0.eq(key) {
                return Some(i);
            }
            i = i + 1;
        }
        None
    }

    /// Registers `value` under `key`, replacing any earlier value of that name.
    pub fn insert(&mut self, key: String, value: V)
        ensures
            final(self)@ == old(self)@.insert(key@, value),
    {
        proof {
            use_type_invariant(&*self);
            lemma_entries_map(self.entries@);
        }
        let pos = self.position(&key);
        let mut entries: Vec<(String, V)> = Vec::new();
        std::mem::swap(&mut entries, &mut self.entries);
        let ghost before = entries@;
        match pos {
            Some(i) => {
                let ghost k = key@;
                entries.set(i, (key, value));
                proof {
                    assert(distinct_names(entries@)) by {
                        assert forall|a: int, b: int| 0 <= a < b < entries@.len() implies entries@[a].0@
                            != entries@[b].0@ by {
                            if a != i && b != i {
                                assert(entries@[a] == before[a] && entries@[b] == before[b]);
                            } else if a == i {
                                assert(entries@[b] == before[b]);
                            } else {
                                assert(entries@[a] == before[a]);
                            }
                        }
                    }
                    lemma_entries_map(entries@);
                    assert(entries_map(entries@) =~= entries_map(before).insert(k, value)) by {
                        assert forall|n: Seq<char>| #[trigger] entries_map(entries@).contains_key(n)
                            implies entries_map(before).insert(k, value).contains_key(n) by {
                            let j = choose|j: int| 0 <= j < entries@.len() && entries@[j].0@ == n;
                            if j != i {
                                assert(entries@[j] == before[j]);
                            }
                        }
                        assert forall|n: Seq<char>| #[trigger] entries_map(before).insert(
                            k,
                            value,
                        ).contains_key(n) implies entries_map(entries@).contains_key(n) by {
                            if n != k {
                                let j = choose|j: int| 0 <= j < before.len() && before[j].0@ == n;
                                assert(entries@[j] == before[j]);
                            } else {
                                assert(entries@[i as int].0@ == n);
                            }
                        }
                        assert forall|n: Seq<char>| #[trigger] entries_map(entries@).contains_key(n)
                            implies entries_map(entries@)[n] == entries_map(before).insert(
                            k,
                            value,
                        )[n] by {
                            let j = choose|j: int| 0 <= j < entries@.len() && entries@[j].0@ == n;
                            if j != i {
                                assert(entries@[j] == before[j]);
                                assert(before[j].0@ != before[i as int].0@);
                            }
                        }
                    }
                }
            },
            None => {
                let ghost k = key@;
                entries.push((key, value));
                proof {
                    assert(entries@.drop_last() =~= before);
                    assert(distinct_names(entries@)) by {
                        assert forall|a: int, b: int| 0 <= a < b < entries@.len() implies entries@[a].0@
                            != entries@[b].0@ by {
                            assert(entries@[a] == before[a]);
                            if b < before.len() {
                                assert(entries@[b] == before[b]);
                            }
                        }
                    }
                }
            },
        }
        self.entries = entries;
    }

    /// The value registered under `key`.
    pub fn get(&self, key: &String) -> (r: Option<&V>)
        ensures
            match r {
                Some(v) => self@.contains_key(key@) && self@[key@] == *v,
                None => !self@.contains_key(key@),
            },
    {
        proof {
            use_type_invariant(self);
            lemma_entries_map(self.entries@);
        }
        match self.position(key) {
            Some(i) => Some(&self.entries[i].1),
            None => None,
        }
    }

    /// Takes the value registered under `key` out of the registry.
    pub fn remove(&mut self, key: &String) -> (r: Option<V>)
        ensures
            final(self)@ == old(self)@.remove(key@),
            match r {
                Some(v) => old(self)@.contains_key(key@) && old(self)@[key@] == v,
                None => !old(self)@.contains_key(key@),
            },
    {
        proof {
            use_type_invariant(&*self);
            lemma_entries_map(self.entries@);
        }
        let pos = self.position(key);
        match pos {
            None => {
                assert(self@ =~= self@.remove(key@));
                None
            },
            Some(i) => {
                let mut entries: Vec<(String, V)> = Vec::new();
                std::mem::swap(&mut entries, &mut self.entries);
                let ghost before = entries@;
                let (_, v) = entries.remove(i);
                proof {
                    let after = entries@;
                    assert(after =~= before.remove(i as int));
                    assert(distinct_names(after)) by {
                        assert forall|a: int, b: int| 0 <= a < b < after.len() implies after[a].0@
                            != after[b].0@ by {
                            let a0 = if a < i { a } else { a + 1 };
                            let b0 = if b < i { b } else { b + 1 };
                            assert(after[a] == before[a0] && after[b] == before[b0]);
                        }
                    }
                    lemma_entries_map(after);
                    assert(entries_map(after) =~= entries_map(before).remove(key@)) by {
                        assert forall|n: Seq<char>| #[trigger] entries_map(after).contains_key(n)
                            implies entries_map(before).remove(key@).contains_key(n) by {
                            let j = choose|j: int| 0 <= j < after.len() && after[j].0@ == n;
                            let j0 = if j < i { j } else { j + 1 };
                            assert(after[j] == before[j0]);
                            assert(j0 != i);
                        }
                        assert forall|n: Seq<char>| #[trigger] entries_map(before).remove(
                            key@,
                        ).contains_key(n) implies entries_map(after).contains_key(n) by {
                            let j = choose|j: int| 0 <= j < before.len() && before[j].0@ == n;
                            assert(j != i);
                            let j1 = if j < i { j } else { j - 1 };
                            assert(after[j1] == before[j]);
                        }
                        assert forall|n: Seq<char>| #[trigger] entries_map(after).contains_key(n)
                            implies entries_map(after)[n] == entries_map(before).remove(key@)[n] by {
                            let j = choose|j: int| 0 <= j < after.len() && after[j].0@ == n;
                            let j0 = if j < i { j } else { j + 1 };
                            assert(after[j] == before[j0]);
                        }
                    }
                }
                self.entries = entries;
                Some(v)
            },
        }
    }

    /// Removes every entry.
    pub fn clear(&mut self)
        ensures
            final(self)@ == Map::<Seq<char>, V>::empty(),
    {
        self.entries = Vec::new();
    }

    /// The registered values, in registration order of their names.
    pub fn values(&self) -> (r: Vec<&V>)
        ensures
            r@.len() == self@.dom().len(),
            forall|i: int| 0 <= i < r@.len() ==> self@.values().contains(*#[trigger] r@[i]),
            forall|k: Seq<char>|
                #[trigger] self@.contains_key(k) ==> exists|i: int|
                    0 <= i < r@.len() && *r@[i] == self@[k],
    {
        proof {
            use_type_invariant(self);
            lemma_entries_map(self.entries@);
            lemma_entries_len(self.entries@);
        }
        let mut out: Vec<&V> = Vec::new();
        let mut i: usize = 0;
        while i < self.entries.len()
            invariant
                i <= self.entries@.len(),
                out@.len() == i,
                forall|j: int| 0 <= j < i ==> *out@[j] == self.entries@[j].1,
            decreases self.entries.len() - i,
        {
            out.push(&self.entries[i].1);
            i = i + 1;
        }
        assert forall|j: int| 0 <= j < out@.len() implies self@.values().contains(*#[trigger] out@[j]) by {
            let k = self.entries@[j].0@;
            lemma_entries_map(self.entries@);
            assert(self@.contains_key(k));
            assert(self@[k] == self.entries@[j].1);
        }
        assert forall|k: Seq<char>| #[trigger] self@.contains_key(k) implies exists|i: int|
            0 <= i < out@.len() && *out@[i] == self@[k] by {
            let i = choose|i: int| 0 <= i < self.entries@.len() && self.entries@[i].0@ == k;
            assert(*out@[i] == self.entries@[i].1);
        }
        out
    }
}

/// Distinct entries make a map with as many names as entries.
proof fn lemma_entries_len<V>(s: Seq<(String, V)>)
    requires
        distinct_names(s),
    ensures
        entries_map(s).dom().finite(),
        entries_map(s).dom().len() == s.len(),
    decreases s.len(),
{
    if s.len() > 0 {
        let p = s.drop_last();
        assert(distinct_names(p));
        lemma_entries_len(p);
        lemma_entries_map(p);
        assert(!entries_map(p).contains_key(s.last().0@)) by {
            if entries_map(p).contains_key(s.last().0@) {
                let i = choose|i: int| 0 <= i < p.len() && p[i].0@ == s.last().0@;
                assert(s[i] == p[i]);
            }
        }
    }
}

/// A value registered under a name is taken out exactly once: the first
/// removal of that name gives it back, and the name is then unregistered.
pub proof fn registry_insert_remove<V>(before: Map<Seq<char>, V>, key: Seq<char>, value: V)
    ensures
        before.insert(key, value).contains_key(key),
        before.insert(key, value)[key] == value,
        !before.insert(key, value).remove(key).contains_key(key),
        before.insert(key, value).remove(key) == before.remove(key),
{
    assert(before.insert(key, value).remove(key) =~= before.remove(key));
}

/// Registering a value and reading its name back gives that value, and
/// leaves every other name as it was.
pub proof fn registry_insert_get<V>(before: Map<Seq<char>, V>, key: Seq<char>, value: V, other: Seq<char>)
    requires
        other != key,
    ensures
        before.insert(key, value).contains_key(key),
        before.insert(key, value)[key] == value,
        before.insert(key, value).contains_key(other) == before.contains_key(other),
        before.contains_key(other) ==> before.insert(key, value)[other] == before[other],
{
}

// ---------------------------------------------------------------------------
// Event handlers
// ---------------------------------------------------------------------------

/// Whether the subscription keys of `s` are pairwise different and all below
/// `next`, the key the next subscription gets.
pub open spec fn keys_fresh<H>(s: Seq<(u64, H)>, next: u64) -> bool {
    &&& forall|i: int| 0 <= i < s.len() ==> #[trigger] s[i].0 < next
    &&& forall|i: int, j: int| 0 <= i < j < s.len() ==> #[trigger] s[i].0 != #[trigger] s[j].0
}

/// Whether `s` holds a subscription with key `key`.
pub open spec fn has_key<H>(s: Seq<(u64, H)>, key: u64) -> bool {
    exists|i: int| 0 <= i < s.len() && #[trigger] s[i].0 == key
}

/// The position of the subscription with key `key` (meaningful when there is one).
pub open spec fn key_index<H>(s: Seq<(u64, H)>, key: u64) -> int {
    choose|i: int| 0 <= i < s.len() && #[trigger] s[i].0 == key
}

/// The subscriptions left after removing the one with key `key`, if any.
pub open spec fn without_key<H>(s: Seq<(u64, H)>, key: u64) -> Seq<(u64, H)> {
    if has_key(s, key) {
        s.remove(key_index(s, key))
    } else {
        s
    }
}

/// Removing a subscription keeps the keys fresh.
proof fn lemma_without_key_fresh<H>(s: Seq<(u64, H)>, next: u64, key: u64)
    requires
        keys_fresh(s, next),
    ensures
        keys_fresh(without_key(s, key), next),
{
    if has_key(s, key) {
        let k = key_index(s, key);
        let t = s.remove(k);
        assert forall|i: int| 0 <= i < t.len() implies #[trigger] t[i].0 < next by {
            if i < k {
                assert(t[i] == s[i]);
            } else {
                assert(t[i] == s[i + 1]);
            }
        }
        assert forall|i: int, j: int| 0 <= i < j < t.len() implies #[trigger] t[i].0
            != #[trigger] t[j].0 by {
            let a = if i < k { i } else { i + 1 };
            let b = if j < k { j } else { j + 1 };
            assert(t[i] == s[a]);
            assert(t[j] == s[b]);
            assert(s[a].0 != s[b].0);
        }
    }
}

/// With fresh keys, the subscription with a key is at the one position that
/// holds that key.
proof fn lemma_key_index<H>(s: Seq<(u64, H)>, next: u64, i: int)
    requires
        keys_fresh(s, next),
        0 <= i < s.len(),
    ensures
        has_key(s, s[i].0),
        key_index(s, s[i].0) == i,
{
    assert(has_key(s, s[i].0));
    let k = key_index(s, s[i].0);
    if k != i {
        if k < i {
            assert(s[k].0 != s[i].0);
        } else {
            assert(s[i].0 != s[k].0);
        }
    }
}

/// The event handlers of a session, in subscription order, each under the
/// key its subscription was given; a key is never given twice.
pub struct HandlerList<H> {
    entries: Vec<(u64, H)>,
    next_key: u64,
}

impl<H> HandlerList<H> {
    #[verifier::type_invariant]
    spec fn keys_are_fresh(&self) -> bool {
        keys_fresh(self.entries@, self.next_key)
    }

    /// The subscriptions, in order: key and handler.
    pub closed spec fn view(&self) -> Seq<(u64, H)> {
        self.entries@
    }

    /// The key the next subscription gets.
    pub closed spec fn next(&self) -> u64 {
        self.next_key
    }

    /// No handlers.
    pub fn new() -> (r: Self)
        ensures
            r@ == Seq::<(u64, H)>::empty(),
            r.next() == 0,
    {
        HandlerList { entries: Vec::new(), next_key: 0 }
    }

    /// Whether another subscription can be given a fresh key.
    pub fn can_subscribe(&self) -> (r: bool)
        ensures
            r == (self.next() < u64::MAX),
    {
        self.next_key < u64::MAX
    }

    /// Adds a handler at the end under a fresh key, which it returns: the
    /// handle by which it is unsubscribed.
    pub fn subscribe(&mut self, handler: H) -> (key: u64)
        requires
            old(self).next() < u64::MAX,
        ensures
            key == old(self).next(),
            !has_key(old(self)@, key),
            final(self)@ == old(self)@.push((key, handler)),
            final(self).next() == key + 1,
    {
        proof {
            use_type_invariant(&*self);
        }
        let key = self.next_key;
        let mut entries: Vec<(u64, H)> = Vec::new();
        std::mem::swap(&mut entries, &mut self.entries);
        let ghost before = entries@;
        entries.push((key, handler));
        proof {
            let s = entries@;
            assert(s == before.push((key, handler)));
            assert forall|i: int, j: int| 0 <= i < j < s.len() implies #[trigger] s[i].0
                != #[trigger] s[j].0 by {
                if j == s.len() - 1 {
                    assert(s[i] == before[i]);
                } else {
                    assert(s[i] == before[i]);
                    assert(s[j] == before[j]);
                }
            }
            assert forall|i: int| 0 <= i < s.len() implies #[trigger] s[i].0 < key + 1 by {
                if i < s.len() - 1 {
                    assert(s[i] == before[i]);
                }
            }
        }
        *self = HandlerList { entries, next_key: key + 1 };
        key
    }

    /// Removes exactly the subscription with key `key`, if it is still there;
    /// every other subscription stays, in order.
    pub fn unsubscribe(&mut self, key: u64)
        ensures
            final(self)@ == without_key(old(self)@, key),
            final(self).next() == old(self).next(),
    {
        proof {
            use_type_invariant(&*self);
        }
        let ghost before = self.entries@;
        let ghost next = self.next_key;
        let mut i: usize = 0;
        while i < self.entries.len()
            invariant
                i <= self.entries@.len(),
                self.entries@ == before,
                self.next_key == next,
                before == old(self)@,
                next == old(self).next(),
                keys_fresh(before, next),
                forall|j: int| 0 <= j < i ==> self.entries@[j].0 != key,
            decreases self.entries.len() - i,
        {
            if self.entries[i].0 == key {
                proof {
                    lemma_key_index(before, self.next_key, i as int);
                    lemma_without_key_fresh(before, self.next_key, key);
                }
                let mut entries: Vec<(u64, H)> = Vec::new();
                std::mem::swap(&mut entries, &mut self.entries);
                entries.remove(i);
                self.entries = entries;
                return;
            }
            i = i + 1;
        }
        assert(!has_key(before, key));
    }

    /// Removes every handler.
    pub fn clear(&mut self)
        ensures
            final(self)@ == Seq::<(u64, H)>::empty(),
            final(self).next() == old(self).next(),
    {
        self.entries = Vec::new();
    }

    /// The handlers, in subscription order.
    pub fn handlers(&self) -> (r: Vec<&H>)
        ensures
            r@.len() == self@.len(),
            forall|i: int| 0 <= i < r@.len() ==> *#[trigger] r@[i] == self@[i].1,
    {
        let mut out: Vec<&H> = Vec::new();
        let mut i: usize = 0;
        while i < self.entries.len()
            invariant
                i <= self.entries@.len(),
                out@.len() == i,
                forall|j: int| 0 <= j < i ==> *#[trigger] out@[j] == self.entries@[j].1,
            decreases self.entries.len() - i,
        {
            out.push(&self.entries[i].1);
            i = i + 1;
        }
        out
    }
}

/// Each handle unsubscribes its own handler: after two subscriptions, taking
/// them out again by their handles, in either order, gives back the
/// subscriptions as they were.
pub proof fn subscribe_unsubscribe<H>(before: Seq<(u64, H)>, next: u64, h0: H, h1: H, first_out: bool)
    requires
        keys_fresh(before, next),
        next < u64::MAX - 1,
    ensures
        ({
            let s = before.push((next, h0)).push(((next + 1) as u64, h1));
            let (a, b) = if first_out {
                (next, (next + 1) as u64)
            } else {
                ((next + 1) as u64, next)
            };
            without_key(without_key(s, a), b) == before
        }),
{
    let k1 = (next + 1) as u64;
    let s0 = before.push((next, h0));
    let s = s0.push((k1, h1));
    assert(keys_fresh(s, (next + 2) as u64)) by {
        assert forall|i: int, j: int| 0 <= i < j < s.len() implies #[trigger] s[i].0
            != #[trigger] s[j].0 by {
            if j < before.len() {
                assert(s[i] == before[i] && s[j] == before[j]);
            } else if i < before.len() {
                assert(s[i] == before[i]);
            }
        }
        assert forall|i: int| 0 <= i < s.len() implies #[trigger] s[i].0 < next + 2 by {
            if i < before.len() {
                assert(s[i] == before[i]);
            }
        }
    }
    let n = before.len() as int;
    assert(s[n].0 == next);
    assert(s[n + 1].0 == k1);
    lemma_key_index(s, (next + 2) as u64, n);
    lemma_key_index(s, (next + 2) as u64, n + 1);
    if first_out {
        let t = s.remove(n);
        assert(t =~= before.push((k1, h1)));
        assert(t[n].0 == k1);
        lemma_without_key_fresh(s, (next + 2) as u64, next);
        lemma_key_index(t, (next + 2) as u64, n);
        assert(t.remove(n) =~= before);
    } else {
        let t = s.remove(n + 1);
        assert(t =~= s0);
        assert(t[n].0 == next);
        lemma_without_key_fresh(s, (next + 2) as u64, k1);
        lemma_key_index(t, (next + 2) as u64, n);
        assert(t.remove(n) =~= before);
    }
}

// ---------------------------------------------------------------------------
// A session's handlers
// ---------------------------------------------------------------------------

/// The tools registered, in order, on top of `m`: a later tool of the same
/// name replaces an earlier one.
pub open spec fn registered<T>(m: Map<Seq<char>, T>, tools: Seq<(String, T)>) -> Map<Seq<char>, T>
    decreases tools.len(),
{
    if tools.len() == 0 {
        m
    } else {
        registered(m, tools.drop_last()).insert(tools.last().0@, tools.last().1)
    }
}

/// The handlers of a session: event subscriptions, tools by name and the
/// permission handler.
pub struct SessionHandlers<E, T, P> {
    /// Event handlers, by subscription.
    pub events: HandlerList<E>,
    /// Tool handlers, by tool name.
    pub tools: Registry<T>,
    /// The permission handler, if any.
    pub permission: Option<P>,
}

impl<E, T, P> SessionHandlers<E, T, P> {
    /// A session with no handlers.
    pub fn new() -> (r: Self)
        ensures
            r.events@ == Seq::<(u64, E)>::empty(),
            r.tools@ == Map::<Seq<char>, T>::empty(),
            r.permission is None,
    {
        SessionHandlers { events: HandlerList::new(), tools: Registry::new(), permission: None }
    }

    /// Registers the tools of a session's configuration, in order (a later
    /// tool of the same name wins).
    pub fn register_tools(&mut self, tools: Vec<(String, T)>)
        ensures
            final(self).tools@ == registered(old(self).tools@, tools@),
            final(self).events == old(self).events,
            final(self).permission == old(self).permission,
    {
        let ghost all = tools@;
        let ghost start = self.tools@;
        let mut rest = tools;
        let total: usize = rest.len();
        let mut k: usize = 0;
        while rest.len() > 0
            invariant
                k <= all.len(),
                all.len() == total,
                rest@ == all.skip(k as int),
                self.tools@ == registered(start, all.take(k as int)),
                self.events == old(self).events,
                self.permission == old(self).permission,
                start == old(self).tools@,
            decreases rest.len(),
        {
            let (name, handler) = rest.remove(0);
            proof {
                assert(all.skip(k as int)[0] == all[k as int]);
                assert(all.take(k + 1).drop_last() =~= all.take(k as int));
                assert(all.take(k + 1).last() == all[k as int]);
            }
            self.tools.insert(name, handler);
            k = k + 1;
            assert(rest@ =~= all.skip(k as int));
        }
        assert(all.take(all.len() as int) =~= all);
    }

    /// Ends a session once the server has answered its destruction: on
    /// success every handler is gone; on failure nothing changes and the
    /// error is handed back.
    pub fn destroyed(&mut self, outcome: Result<()>) -> (r: Result<()>)
        ensures
            r == outcome,
            outcome is Ok ==> {
                &&& final(self).events@ == Seq::<(u64, E)>::empty()
                &&& final(self).tools@ == Map::<Seq<char>, T>::empty()
                &&& final(self).permission is None
            },
            outcome is Err ==> *final(self) == *old(self),
    {
        if outcome.is_ok() {
            self.events.clear();
            self.tools.clear();
            self.permission = None;
        }
        outcome
    }
}

/// After a session registers its tools, each tool's name leads to that tool's
/// handler, unless a later tool has the same name; every other name keeps
/// what it had.
#[verifier::spinoff_prover]
pub proof fn tool_registration<T>(m: Map<Seq<char>, T>, tools: Seq<(String, T)>)
    ensures
        forall|i: int|
            0 <= i < tools.len() && (forall|j: int| i < j < tools.len() ==> tools[j].0@ != tools[i].0@)
                ==> registered(m, tools).contains_key(#[trigger] tools[i].0@)
                && registered(m, tools)[tools[i].0@] == tools[i].1,
        forall|n: Seq<char>|
            (forall|i: int| 0 <= i < tools.len() ==> tools[i].0@ != n) ==> (#[trigger] registered(
                m,
                tools,
            ).contains_key(n) == m.contains_key(n) && (m.contains_key(n) ==> registered(m, tools)[n]
                == m[n])),
    decreases tools.len(),
{
    if tools.len() > 0 {
        let p = tools.drop_last();
        tool_registration(m, p);
        assert forall|i: int|
            0 <= i < tools.len() && (forall|j: int| i < j < tools.len() ==> tools[j].0@ != tools[i].0@)
                implies registered(m, tools).contains_key(#[trigger] tools[i].0@)
                && registered(m, tools)[tools[i].0@] == tools[i].1 by {
            if i < tools.len() - 1 {
                assert(p[i] == tools[i]);
                assert forall|j: int| i < j < p.len() implies p[j].0@ != p[i].0@ by {
                    assert(p[j] == tools[j]);
                }
                assert(tools[tools.len() - 1].0@ != tools[i].0@);
            }
        }
        assert forall|n: Seq<char>|
            (forall|i: int| 0 <= i < tools.len() ==> tools[i].0@ != n) implies (#[trigger] registered(
                m,
                tools,
            ).contains_key(n) == m.contains_key(n) && (m.contains_key(n) ==> registered(m, tools)[n]
                == m[n])) by {
            assert forall|i: int| 0 <= i < p.len() implies p[i].0@ != n by {
                assert(p[i] == tools[i]);
            }
            assert(tools[tools.len() - 1].0@ != n);
            assert(registered(m, p).contains_key(n) == m.contains_key(n));
            assert(registered(m, tools) == registered(m, p).insert(tools.last().0@, tools.last().1));
        }
    }
}

// ---------------------------------------------------------------------------
// Session requests
// ---------------------------------------------------------------------------

/// The parameters that name a session: `{"sessionId": id}`.
pub open spec fn session_params(session_id: Seq<char>) -> Json {
    Json::Object(seq![("sessionId"@, Json::Str(session_id))])
}

/// Builds `{"sessionId": id}` (for `session.getMessages`, `session.destroy`
/// and `session.abort`).
pub fn build_session_params(session_id: &String) -> (r: JsonValue)
    ensures
        r@ == session_params(session_id@),
{
    let mut f = no_members();
    push_member(&mut f, "sessionId", json_string(session_id));
    assert(view_fields(f@) =~= seq![("sessionId"@, Json::Str(session_id@))]);
    JsonValue::Object(f)
}

/// The parameters of `session.send`.
pub open spec fn send_params(session_id: Seq<char>, o: MessageOptions) -> Json {
    Json::Object(
        seq![("sessionId"@, Json::Str(session_id)), ("prompt"@, Json::Str(o.prompt@))] + opt_member(
            "attachments"@,
            match o.attachments {
                Some(a) => Some(attachments_json(a@)),
                None => None,
            },
        ) + opt_member("mode"@, opt_str_json(o.mode)),
    )
}

/// `session.send` names the session, carries the prompt, and sends every
/// attachment, in order; without attachments it has no such member.
pub proof fn send_carries_everything(session_id: Seq<char>, o: MessageOptions)
    ensures
        get(send_params(session_id, o), "sessionId"@) == Some(Json::Str(session_id)),
        get(send_params(session_id, o), "prompt"@) == Some(Json::Str(o.prompt@)),
        match o.attachments {
            Some(a) => get(send_params(session_id, o), "attachments"@) matches Some(x)
                && crate::types::carries_attachments(x, a@),
            None => get(send_params(session_id, o), "attachments"@) is None,
        },
{
    broadcast use crate::json::lemma_lookup_append, crate::json::lemma_lookup_single, crate::json::lemma_lookup_empty;
    reveal_strlit("sessionId");
    reveal_strlit("prompt");
    reveal_strlit("attachments");
    reveal_strlit("mode");
    assert("sessionId"@.len() != "prompt"@.len());
    assert("sessionId"@.len() != "attachments"@.len());
    assert("sessionId"@.len() != "mode"@.len());
    assert("prompt"@.len() != "attachments"@.len());
    assert("prompt"@.len() != "mode"@.len());
    assert("attachments"@.len() != "mode"@.len());
    assert(seq![("sessionId"@, Json::Str(session_id)), ("prompt"@, Json::Str(o.prompt@))] =~= seq![
        ("sessionId"@, Json::Str(session_id)),
    ] + seq![("prompt"@, Json::Str(o.prompt@))]);
    if let Some(a) = o.attachments {
        crate::types::attachments_all_sent(a@);
    }
}

/// Builds the parameters of `session.send`.
pub fn build_send_params(session_id: &String, options: &MessageOptions) -> (r: JsonValue)
    ensures
        r@ == send_params(session_id@, *options),
        match options.attachments {
            Some(a) => get(r@, "attachments"@) matches Some(x) && crate::types::carries_attachments(x, a@),
            None => get(r@, "attachments"@) is None,
        },
{
    proof {
        send_carries_everything(session_id@, *options);
    }
    let mut f = no_members();
    push_member(&mut f, "sessionId", json_string(session_id));
    push_member(&mut f, "prompt", json_string(&options.prompt));
    let attachments = match &options.attachments {
        Some(a) => Some(attachments_to_json(a)),
        None => None,
    };
    push_opt_member(&mut f, "attachments", attachments);
    push_opt_str(&mut f, "mode", &options.mode);
    assert(view_fields(f@) =~= seq![
        ("sessionId"@, Json::Str(session_id@)),
        ("prompt"@, Json::Str(options.prompt@)),
    ] + opt_member(
        "attachments"@,
        match options.attachments {
            Some(a) => Some(attachments_json(a@)),
            None => None,
        },
    ) + opt_member("mode"@, opt_str_json(options.mode)));
    JsonValue::Object(f)
}

/// Reads the string member `key` of a reply, or fails with "Missing `what`".
pub fn required_str(result: &JsonValue, key: &str, what: &str) -> (r: Result<String>)
    ensures
        match str_field(result@, key@) {
            Some(s) => r matches Ok(x) && x@ == s,
            None => r matches Err(CopilotError::InvalidResponse(m)) && m@ == "Missing "@ + what@,
        },
{
    match crate::json::get_str(result, key) {
        Some(s) => Ok(s),
        None => {
            let mut m = String::from_str("Missing ");
            crate::text::push_str(&mut m, what);
            Err(CopilotError::InvalidResponse(m))
        },
    }
}

/// The id of the message that `session.send` accepted.
pub fn message_id_from(result: &JsonValue) -> (r: Result<String>)
    ensures
        match str_field(result@, "messageId"@) {
            Some(s) => r matches Ok(x) && x@ == s,
            None => r matches Err(CopilotError::InvalidResponse(m)) && m@ == "Missing messageId"@,
        },
{
    let r = required_str(result, "messageId", "messageId");
    proof {
        reveal_strlit("Missing ");
        reveal_strlit("messageId");
        reveal_strlit("Missing messageId");
    }
    r
}

/// The `events` member of the reply to `session.getMessages`.
pub fn events_from(result: &JsonValue) -> (r: Result<JsonValue>)
    ensures
        match get(result@, "events"@) {
            Some(e) => r matches Ok(x) && x@ == e,
            None => r matches Err(CopilotError::InvalidResponse(m)) && m@ == "Missing events"@,
        },
{
    match result.get("events") {
        Some(e) => Ok(e.copy()),
        None => Err(CopilotError::InvalidResponse(String::from_str("Missing events"))),
    }
}

// ---------------------------------------------------------------------------
// Permission requests
// ---------------------------------------------------------------------------

/// The answer given when no handler grants a permission request.
pub open spec fn denied_answer() -> Json {
    Json::Object(seq![("kind"@, Json::Str("denied-no-approval-rule-and-could-not-request-from-user"@))])
}

/// Builds the answer given when no handler grants a permission request.
pub fn denied_permission() -> (r: JsonValue)
    ensures
        r@ == denied_answer(),
{
    let mut f = no_members();
    push_member(
        &mut f,
        "kind",
        crate::json::json_str("denied-no-approval-rule-and-could-not-request-from-user"),
    );
    assert(view_fields(f@) =~= seq![
        ("kind"@, Json::Str("denied-no-approval-rule-and-could-not-request-from-user"@)),
    ]);
    JsonValue::Object(f)
}

/// The members of a permission request other than `kind` and `toolCallId`.
pub open spec fn extra_members(j: Json) -> Seq<(Seq<char>, Json)> {
    match j {
        Json::Object(fields) => fields.filter(
            |f: (Seq<char>, Json)| f.0 != "kind"@ && f.0 != "toolCallId"@,
        ),
        _ => Seq::empty(),
    }
}

/// The other members of a permission request whose members have distinct
/// keys have distinct keys too, and are members of the request other than
/// `kind` and `toolCallId`.
pub proof fn permission_extra_distinct(fields: Seq<(Seq<char>, Json)>)
    requires
        crate::json::distinct_keys(fields),
    ensures
        crate::json::distinct_keys(extra_members(Json::Object(fields))),
        forall|i: int|
            0 <= i < extra_members(Json::Object(fields)).len() ==> {
                &&& exists|k: int| 0 <= k < fields.len() && #[trigger] extra_members(
                    Json::Object(fields),
                )[i] == fields[k]
                &&& extra_members(Json::Object(fields))[i].0 != "kind"@
                &&& extra_members(Json::Object(fields))[i].0 != "toolCallId"@
            },
{
    let keep = |f: (Seq<char>, Json)| f.0 != "kind"@ && f.0 != "toolCallId"@;
    crate::json::lemma_filter_distinct_keys(fields, keep);
    assert forall|i: int| 0 <= i < fields.filter(keep).len() implies keep(fields.filter(keep)[i]) by {
        fields.lemma_filter_pred(keep, i);
    }
}

/// `extra` holds exactly the members of the request `data` other than `kind`
/// and `toolCallId`, each with its value (nothing when `data` is no object).
pub open spec fn shows_other_members(data: Json, extra: Seq<(Seq<char>, Json)>) -> bool {
    match data {
        Json::Object(fields) => {
            &&& forall|i: int|
                0 <= i < fields.len() && fields[i].0 != "kind"@ && fields[i].0 != "toolCallId"@
                    ==> extra.contains(#[trigger] fields[i])
            &&& forall|j: int|
                0 <= j < extra.len() ==> fields.contains(#[trigger] extra[j]) && extra[j].0 != "kind"@
                    && extra[j].0 != "toolCallId"@
        },
        _ => extra.len() == 0,
    }
}

/// The handler of a permission request is shown every member of the request
/// other than `kind` and `toolCallId`, with its value, and nothing else.
pub proof fn permission_shows_other_members(data: Json)
    ensures
        shows_other_members(data, extra_members(data)),
{
    if let Json::Object(fields) = data {
        let keep = |f: (Seq<char>, Json)| f.0 != "kind"@ && f.0 != "toolCallId"@;
        let ex = fields.filter(keep);
        assert(extra_members(data) == ex);
        assert forall|i: int|
            0 <= i < fields.len() && fields[i].0 != "kind"@ && fields[i].0 != "toolCallId"@
                implies ex.contains(#[trigger] fields[i]) by {
            fields.lemma_filter_contains(keep, i);
        }
        assert forall|j: int| 0 <= j < ex.len() implies fields.contains(#[trigger] ex[j]) && ex[j].0
            != "kind"@ && ex[j].0 != "toolCallId"@ by {
            fields.lemma_filter_pred(keep, j);
            lemma_filter_from(fields, keep, j);
        }
    }
}

/// An entry kept by a filter was an entry of the filtered sequence.
proof fn lemma_filter_from(
    fields: Seq<(Seq<char>, Json)>,
    keep: spec_fn((Seq<char>, Json)) -> bool,
    j: int,
)
    requires
        0 <= j < fields.filter(keep).len(),
    ensures
        fields.contains(fields.filter(keep)[j]),
    decreases fields.len(),
{
    reveal_with_fuel(Seq::<_>::filter, 1);
    if fields.len() > 0 {
        let t = fields.drop_last();
        let f = t.filter(keep);
        if j < f.len() {
            if keep(fields.last()) {
                assert(fields.filter(keep) == f.push(fields.last()));
            } else {
                assert(fields.filter(keep) == f);
            }
            assert(fields.filter(keep)[j] == f[j]);
            lemma_filter_from(t, keep, j);
            let k = choose|k: int| 0 <= k < t.len() && t[k] == f[j];
            assert(fields[k] == t[k]);
        } else {
            assert(fields.filter(keep) == f.push(fields.last()));
            assert(fields[fields.len() - 1] == fields.last());
        }
    }
}

/// The permission request a handler is shown: its `kind` (empty when
/// missing), its `toolCallId` and its other members.
pub fn permission_request_from(data: &JsonValue) -> (r: PermissionRequest)
    ensures
        r.kind@ == (match str_field(data@, "kind"@) {
            Some(k) => k,
            None => Seq::<char>::empty(),
        }),
        r.tool_call_id.deep_view() == str_field(data@, "toolCallId"@),
        view_fields(r.extra@) == extra_members(data@),
        shows_other_members(data@, view_fields(r.extra@)),
{
    proof {
        permission_shows_other_members(data@);
    }
    let kind = match crate::json::get_str(data, "kind") {
        Some(k) => k,
        None => String::new(),
    };
    let tool_call_id = crate::json::get_str(data, "toolCallId");
    let kind_key = String::from_str("kind");
    let call_key = String::from_str("toolCallId");
    let mut extra = no_members();
    match data {
        JsonValue::Object(fields) => {
            let ghost vf = view_fields(fields@);
            proof {
                crate::json::lemma_view_fields_len(fields@);
            }
            let mut i: usize = 0;
            while i < fields.len()
                invariant
                    i <= fields@.len(),
                    vf == view_fields(fields@),
                    vf.len() == fields@.len(),
                    forall|j: int|
                        0 <= j < fields@.len() ==> #[trigger] vf[j] == (
                            fields@[j].0@,
                            fields@[j].1.view(),
                        ),
                    kind_key@ == "kind"@,
                    call_key@ == "toolCallId"@,
                    view_fields(extra@) == vf.take(i as int).filter(
                        |f: (Seq<char>, Json)| f.0 != "kind"@ && f.0 != "toolCallId"@,
                    ),
                decreases fields.len() - i,
            {
                let keep = !fields[i].0.eq(&kind_key) && !fields[i].0.eq(&call_key);
                proof {
                    assert(vf.take(i + 1).drop_last() =~= vf.take(i as int));
                    reveal_with_fuel(Seq::<_>::filter, 1);
                }
                if keep {
                    let k = fields[i].0.clone();
                    let v = fields[i].1.copy();
                    proof {
                        crate::json::lemma_view_fields_push(extra@, (k, v));
                    }
                    extra.push((k, v));
                }
                i = i + 1;
            }
            assert(vf.take(fields@.len() as int) =~= vf);
        },
        _ => {
            assert(view_fields(extra@) =~= Seq::<(Seq<char>, Json)>::empty());
        },
    }
    PermissionRequest { kind, tool_call_id, extra }
}

/// The answer to a permission request, given what its handler did: no
/// handler and a failed handler both deny; otherwise the handler's answer.
pub fn permission_reply(outcome: Option<Result<PermissionRequestResult>>) -> (r: Result<JsonValue>)
    ensures
        match outcome {
            Some(Ok(a)) => r matches Ok(v) && v@ == a.json(),
            _ => r matches Ok(v) && v@ == denied_answer(),
        },
{
    match outcome {
        Some(Ok(a)) => Ok(a.to_json()),
        _ => Ok(denied_permission()),
    }
}

// ---------------------------------------------------------------------------
// Tool calls
// ---------------------------------------------------------------------------

/// The answer to a tool call, given what the tool did: its result, or a
/// failure result that carries the error's text.
pub fn tool_reply(outcome: Result<ToolResult>) -> (r: ToolResult)
    ensures
        match outcome {
            Ok(t) => r == t,
            Err(e) => {
                &&& r.text_result_for_llm@ == failure_text()
                &&& r.binary_results_for_llm is None
                &&& r.result_type@ == "failure"@
                &&& r.error matches Some(m) && is_message_of(e, m@)
                &&& r.session_log is None
                &&& r.tool_telemetry is None
            },
        },
{
    match outcome {
        Ok(t) => t,
        Err(e) => {
            let text = e.message();
            ToolResult::failure(text)
        },
    }
}

/// The members of a tool call request, or the first one missing.
pub fn parse_tool_call(params: &JsonValue) -> (r: Result<ToolInvocation>)
    ensures
        match (
            str_field(params@, "sessionId"@),
            str_field(params@, "toolCallId"@),
            str_field(params@, "toolName"@),
        ) {
            (None, _, _) => r matches Err(CopilotError::InvalidResponse(m)) && m@
                == "Missing sessionId"@,
            (Some(_), None, _) => r matches Err(CopilotError::InvalidResponse(m)) && m@
                == "Missing toolCallId"@,
            (Some(_), Some(_), None) => r matches Err(CopilotError::InvalidResponse(m)) && m@
                == "Missing toolName"@,
            (Some(s), Some(c), Some(n)) => r matches Ok(inv) && inv.session_id@ == s
                && inv.tool_call_id@ == c && inv.tool_name@ == n && inv.arguments@ == (match get(
                params@,
                "arguments"@,
            ) {
                Some(a) => a,
                None => Json::Null,
            }),
        },
{
    proof {
        reveal_strlit("Missing ");
        reveal_strlit("sessionId");
        reveal_strlit("toolCallId");
        reveal_strlit("toolName");
        reveal_strlit("Missing sessionId");
        reveal_strlit("Missing toolCallId");
        reveal_strlit("Missing toolName");
    }
    let session_id = required_str(params, "sessionId", "sessionId")?;
    let tool_call_id = required_str(params, "toolCallId", "toolCallId")?;
    let tool_name = required_str(params, "toolName", "toolName")?;
    let arguments = match params.get("arguments") {
        Some(a) => a.copy(),
        None => JsonValue::Null,
    };
    Ok(ToolInvocation { session_id, tool_call_id, tool_name, arguments })
}

/// The handler of the tool a call names, among the tools of the session it
/// names (`None` when no such session is open).
pub fn resolve_tool<'a, H>(invocation: &ToolInvocation, tools: Option<&'a Registry<H>>) -> (r: Result<&'a H>)
    ensures
        match tools {
            None => r matches Err(CopilotError::SessionNotFound(m)) && m@ == invocation.session_id@,
            Some(reg) => if reg@.contains_key(invocation.tool_name@) {
                r matches Ok(h) && *h == reg@[invocation.tool_name@]
            } else {
                r matches Err(CopilotError::ToolNotFound(m)) && m@ == invocation.tool_name@
            },
        },
{
    match tools {
        None => Err(CopilotError::SessionNotFound(invocation.session_id.clone())),
        Some(reg) => match reg.get(&invocation.tool_name) {
            Some(h) => Ok(h),
            None => Err(CopilotError::ToolNotFound(invocation.tool_name.clone())),
        },
    }
}

/// `{"result": v}`: how answers to the server's requests are wrapped.
pub open spec fn result_envelope(v: Json) -> Json {
    Json::Object(seq![("result"@, v)])
}

/// Wraps an answer as `{"result": v}`.
pub fn wrap_result(v: JsonValue) -> (r: JsonValue)
    ensures
        r@ == result_envelope(v@),
{
    let mut f = no_members();
    push_member(&mut f, "result", v);
    assert(view_fields(f@) =~= seq![("result"@, v@)]);
    JsonValue::Object(f)
}

/// The JSON form of the failure result that carries the error text `m`.
pub open spec fn failure_result_json(m: Seq<char>) -> Json {
    Json::Object(
        seq![
            ("textResultForLlm"@, Json::Str(failure_text())),
            ("resultType"@, Json::Str("failure"@)),
            ("error"@, Json::Str(m)),
        ],
    )
}

/// The reply to a tool call: `{"result": <tool result>}`, where a failed tool
/// gives the failure result that carries the error's text.
pub fn tool_call_reply(outcome: Result<ToolResult>) -> (r: JsonValue)
    ensures
        match outcome {
            Ok(t) => r@ == result_envelope(t.json()),
            Err(e) => exists|m: Seq<char>|
                #![trigger is_message_of(e, m)]
                is_message_of(e, m) && r@ == result_envelope(failure_result_json(m)),
        },
{
    let ghost failed = outcome is Err;
    let t = tool_reply(outcome);
    let j = t.to_json();
    let r = wrap_result(j);
    proof {
        if failed {
            let m = t.error->0@;
            assert(t.json() =~= failure_result_json(m)) by {
                assert(seq![("textResultForLlm"@, Json::Str(failure_text()))] + opt_member(
                    "binaryResultsForLlm"@,
                    None,
                ) + seq![("resultType"@, Json::Str("failure"@))] + opt_member(
                    "error"@,
                    Some(Json::Str(m)),
                ) + opt_member("sessionLog"@, None) + opt_member("toolTelemetry"@, None) =~= seq![
                    ("textResultForLlm"@, Json::Str(failure_text())),
                    ("resultType"@, Json::Str("failure"@)),
                    ("error"@, Json::Str(m)),
                ]);
            }
        }
    }
    r
}

/// The members of a permission request from the server, or the first one
/// missing.
pub fn parse_permission_call(params: &JsonValue) -> (r: Result<(String, JsonValue)>)
    ensures
        match (str_field(params@, "sessionId"@), get(params@, "permissionRequest"@)) {
            (None, _) => r matches Err(CopilotError::InvalidResponse(m)) && m@
                == "Missing sessionId"@,
            (Some(_), None) => r matches Err(CopilotError::InvalidResponse(m)) && m@
                == "Missing permissionRequest"@,
            (Some(s), Some(p)) => r matches Ok((x, y)) && x@ == s && y@ == p,
        },
{
    proof {
        reveal_strlit("Missing ");
        reveal_strlit("sessionId");
        reveal_strlit("Missing sessionId");
    }
    let session_id = required_str(params, "sessionId", "sessionId")?;
    match params.get("permissionRequest") {
        Some(p) => Ok((session_id, p.copy())),
        None => Err(CopilotError::InvalidResponse(String::from_str("Missing permissionRequest"))),
    }
}

/// The session and event that a `session.event` notification carries.
pub open spec fn event_target(method: Seq<char>, params: Json) -> Option<(Seq<char>, Json)> {
    if method == "session.event"@ && str_field(params, "sessionId"@) is Some && get(
        params,
        "event"@,
    ) is Some {
        Some((str_field(params, "sessionId"@)->0, get(params, "event"@)->0))
    } else {
        None
    }
}

/// A `session.event` notification naming a session and carrying an event is
/// routed to that session with that event; a notification of any other
/// method is routed nowhere.
pub proof fn session_event_routing(method: Seq<char>, session_id: Seq<char>, event: Json)
    ensures
        event_target(
            "session.event"@,
            Json::Object(seq![("sessionId"@, Json::Str(session_id)), ("event"@, event)]),
        ) == Some((session_id, event)),
        method != "session.event"@ ==> event_target(
            method,
            Json::Object(seq![("sessionId"@, Json::Str(session_id)), ("event"@, event)]),
        ) is None,
{
    reveal_strlit("sessionId");
    reveal_strlit("event");
    assert("sessionId"@[0] != "event"@[0]);
    let fields = seq![("sessionId"@, Json::Str(session_id)), ("event"@, event)];
    crate::json::lemma_lookup_unique(fields, 0);
    crate::json::lemma_lookup_unique(fields, 1);
}

/// Reads the session and event of a notification, when it is a session event.
pub fn session_event_target(method: &String, params: &JsonValue) -> (r: Option<(String, JsonValue)>)
    ensures
        match event_target(method@, params@) {
            Some((s, e)) => r matches Some((x, y)) && x@ == s && y@ == e,
            None => r is None,
        },
{
    let name = String::from_str("session.event");
    if !method.eq(&name) {
        return None;
    }
    let session_id = crate::json::get_str(params, "sessionId");
    match (session_id, params.get("event")) {
        (Some(s), Some(e)) => Some((s, e.copy())),
        _ => None,
    }
}

} // verus!

verus! {

/// The session a request names, among the open sessions (`None` when it is
/// not open).
pub fn require_session<'a, S>(session_id: &String, session: Option<&'a S>) -> (r: Result<&'a S>)
    ensures
        match session {
            Some(s) => r == Ok::<&S, CopilotError>(s),
            None => r matches Err(CopilotError::SessionNotFound(m)) && m@ == session_id@,
        },
{
    match session {
        Some(s) => Ok(s),
        None => Err(CopilotError::SessionNotFound(session_id.clone())),
    }
}

} // verus!
