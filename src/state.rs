//! The state of one session: a snapshot of the backend's keys, a search
//! cursor with its filters, and the key chosen for signing.
use vstd::prelude::*;

use crate::key::Key;
use vstd::string::StringExecFns;

use crate::listing::{json_key_listing, parsed_from, to_list, usable_entries};

verus! {

/// The labels of a snapshot of keys.
pub open spec fn labels(keys: Seq<Key>) -> Seq<Seq<char>> {
    keys.map_values(|k: Key| k.spec_label())
}

/// Whether the key at `i` passes a search's filters.
pub open spec fn is_match(labels: Seq<Seq<char>>, want_keys: bool, id: Option<Seq<char>>, i: int) -> bool {
    want_keys && match id {
        Some(a) => labels[i] == a,
        None => true,
    }
}

/// The first index at or after `from` that passes the filters.
pub open spec fn next_match(labels: Seq<Seq<char>>, want_keys: bool, id: Option<Seq<char>>, from: nat) -> Option<nat>
    decreases labels.len() - from,
{
    if from >= labels.len() {
        None
    } else if is_match(labels, want_keys, id, from as int) {
        Some(from)
    } else {
        next_match(labels, want_keys, id, from + 1)
    }
}

/// The results of `steps` calls of `find_next` from cursor `cursor`: each
/// call gives the next match and leaves the cursor at `cursor_step`, as the
/// contract of `find_next` states.
pub open spec fn search_run(
    labels: Seq<Seq<char>>,
    want_keys: bool,
    id: Option<Seq<char>>,
    cursor: nat,
    steps: nat,
) -> Seq<Option<nat>>
    decreases steps,
{
    if steps == 0 {
        seq![]
    } else {
        let r = next_match(labels, want_keys, id, cursor);
        let next = match r {
            Some(i) => i + 1,
            None => cursor,
        };
        seq![r] + search_run(labels, want_keys, id, next, (steps - 1) as nat)
    }
}

/// Where the cursor stands after one call of `find_next` from `cursor`.
pub open spec fn cursor_step(labels: Seq<Seq<char>>, want_keys: bool, id: Option<Seq<char>>, cursor: nat) -> nat {
    match next_match(labels, want_keys, id, cursor) {
        Some(i) => i + 1,
        None => cursor,
    }
}

/// Where the cursor stands after `steps` calls of `find_next` from `cursor`.
pub open spec fn cursor_after(
    labels: Seq<Seq<char>>,
    want_keys: bool,
    id: Option<Seq<char>>,
    cursor: nat,
    steps: nat,
) -> nat
    decreases steps,
{
    if steps == 0 {
        cursor
    } else {
        cursor_after(labels, want_keys, id, cursor_step(labels, want_keys, id, cursor), (steps - 1) as nat)
    }
}

/// One more call of `find_next` adds its result at the end of a run.
pub proof fn lemma_run_snoc(
    labels: Seq<Seq<char>>,
    want_keys: bool,
    id: Option<Seq<char>>,
    cursor: nat,
    steps: nat,
)
    ensures
        search_run(labels, want_keys, id, cursor, steps).len() == steps,
        search_run(labels, want_keys, id, cursor, steps + 1) == search_run(
            labels,
            want_keys,
            id,
            cursor,
            steps,
        ).push(next_match(labels, want_keys, id, cursor_after(labels, want_keys, id, cursor, steps))),
        cursor_after(labels, want_keys, id, cursor, steps + 1) == cursor_step(
            labels,
            want_keys,
            id,
            cursor_after(labels, want_keys, id, cursor, steps),
        ),
    decreases steps,
{
    if steps > 0 {
        let next = cursor_step(labels, want_keys, id, cursor);
        lemma_run_snoc(labels, want_keys, id, next, (steps - 1) as nat);
        assert(search_run(labels, want_keys, id, cursor, steps + 1) =~= search_run(
            labels,
            want_keys,
            id,
            cursor,
            steps,
        ).push(next_match(labels, want_keys, id, cursor_after(labels, want_keys, id, cursor, steps))));
    } else {
        reveal_with_fuel(search_run, 2);
        reveal_with_fuel(cursor_after, 2);
        assert(search_run(labels, want_keys, id, cursor, 1) =~= seq![next_match(labels, want_keys, id, cursor)]);
    }
}

/// The state of a session.
pub struct State {
    keys: Vec<Key>,
    search_index: usize,
    search_for_keys: bool,
    search_id: Option<String>,
    sign_index: Option<usize>,
}

pub open spec fn opt_label(id: Option<String>) -> Option<Seq<char>> {
    match id {
        Some(s) => Some(s@),
        None => None,
    }
}

impl State {
    pub closed spec fn spec_keys(&self) -> Seq<Key> {
        self.keys@
    }

    pub closed spec fn spec_cursor(&self) -> nat {
        self.search_index as nat
    }

    pub closed spec fn spec_want_keys(&self) -> bool {
        self.search_for_keys
    }

    pub closed spec fn spec_search_id(&self) -> Option<Seq<char>> {
        opt_label(self.search_id)
    }

    pub closed spec fn spec_sign_index(&self) -> Option<nat> {
        match self.sign_index {
            Some(i) => Some(i as nat),
            None => None,
        }
    }

    /// The cursor stays within the snapshot, every key is well formed, and a
    /// chosen sign key is in the snapshot.
    pub open spec fn wf(&self) -> bool {
        &&& self.spec_cursor() <= self.spec_keys().len()
        &&& forall|i: int| 0 <= i < self.spec_keys().len() ==> (#[trigger] self.spec_keys()[i]).wf()
        &&& self.spec_sign_index() matches Some(i) ==> i < self.spec_keys().len()
    }

    /// A session over the given keys, with no search and no sign key.
    pub fn new(keys: Vec<Key>) -> (r: State)
        requires
            forall|i: int| 0 <= i < keys@.len() ==> (#[trigger] keys@[i]).wf(),
        ensures
            r.wf(),
            r.spec_keys() == keys@,
            r.spec_cursor() == 0,
            !r.spec_want_keys(),
            r.spec_search_id() is None,
            r.spec_sign_index() is None,
    {
        State { keys, search_index: 0, search_for_keys: false, search_id: None, sign_index: None }
    }

    /// A session over the keys of a listing. Returns `None` where the listing
    /// is not a JSON array.
    pub fn from_listing(json: &str) -> (r: Option<State>)
        ensures
            r is Some <==> json_key_listing(json@) is Some,
            r matches Some(s) ==> {
                let usable = usable_entries(json_key_listing(json@)->0);
                &&& s.wf()
                &&& s.spec_keys().len() == usable.len()
                &&& forall|i: int|
                    0 <= i < usable.len() ==> parsed_from(#[trigger] s.spec_keys()[i], usable[i])
                &&& s.spec_cursor() == 0
                &&& !s.spec_want_keys()
                &&& s.spec_search_id() is None
                &&& s.spec_sign_index() is None
            },
    {
        match to_list(json) {
            Some(keys) => Some(State::new(keys)),
            None => None,
        }
    }

    /// The number of keys in the snapshot.
    pub fn key_count(&self) -> (r: usize)
        ensures
            r == self.spec_keys().len(),
    {
        self.keys.len()
    }

    /// Starts a search. `search_for_keys` tells whether the search is for
    /// public or private keys; false means it is for something else, such as
    /// certificates, and finds nothing. `id` limits the search to one label.
    pub fn find_init(&mut self, search_for_keys: bool, id: Option<String>)
        requires
            old(self).wf(),
        ensures
            final(self).wf(),
            final(self).spec_keys() == old(self).spec_keys(),
            final(self).spec_sign_index() == old(self).spec_sign_index(),
            final(self).spec_cursor() == 0,
            final(self).spec_want_keys() == search_for_keys,
            final(self).spec_search_id() == opt_label(id),
    {
        self.search_index = 0;
        self.search_for_keys = search_for_keys;
        self.search_id = id;
    }

    /// Continues a search: returns the first matching index at or after the
    /// cursor and moves the cursor past it, or `None` where none is left.
    pub fn find_next(&mut self) -> (r: Option<usize>)
        requires
            old(self).wf(),
        ensures
            final(self).wf(),
            final(self).spec_keys() == old(self).spec_keys(),
            final(self).spec_sign_index() == old(self).spec_sign_index(),
            final(self).spec_want_keys() == old(self).spec_want_keys(),
            final(self).spec_search_id() == old(self).spec_search_id(),
            r matches Some(i) ==> next_match(
                labels(old(self).spec_keys()),
                old(self).spec_want_keys(),
                old(self).spec_search_id(),
                old(self).spec_cursor(),
            ) == Some(i as nat) && final(self).spec_cursor() == i + 1,
            r is None ==> next_match(
                labels(old(self).spec_keys()),
                old(self).spec_want_keys(),
                old(self).spec_search_id(),
                old(self).spec_cursor(),
            ) is None && final(self).spec_cursor() == old(self).spec_cursor(),
            final(self).spec_cursor() == cursor_step(
                labels(old(self).spec_keys()),
                old(self).spec_want_keys(),
                old(self).spec_search_id(),
                old(self).spec_cursor(),
            ),
            search_run(
                labels(old(self).spec_keys()),
                old(self).spec_want_keys(),
                old(self).spec_search_id(),
                old(self).spec_cursor(),
                1,
            ) == seq![
                match r {
                    Some(i) => Some(i as nat),
                    None => None::<nat>,
                },
            ],
    {
        let ghost ls = labels(self.keys@);
        let ghost id = opt_label(self.search_id);
        let ghost start = self.search_index as nat;
        proof {
            lemma_run_one(ls, self.search_for_keys, id, start);
        }
        if !self.search_for_keys {
            proof {
                lemma_no_match_without_keys(ls, id, start);
            }
            return None;
        }
        let mut i: usize = self.search_index;
        while i < self.keys.len()
            invariant
                *self == *old(self),
                old(self).wf(),
                self.search_for_keys,
                ls == labels(self.keys@),
                id == opt_label(self.search_id),
                start == old(self).search_index as nat,
                search_run(ls, true, id, start, 1) == seq![next_match(ls, true, id, start)],
                start <= i <= self.keys@.len(),
                next_match(ls, true, id, start) == next_match(ls, true, id, i as nat),
            decreases self.keys@.len() - i,
        {
            let hit = match &self.search_id {
                Some(a) => {
                    let label = self.keys[i].label();
                    *a == String::from_str(label)
                },
                None => true,
            };
            assert(ls[i as int] == self.keys@[i as int].spec_label());
            assert(hit == is_match(ls, true, id, i as int));
            if hit {
                assert(ls.len() == self.keys@.len());
                assert(next_match(ls, true, id, i as nat) == Some(i as nat));
                assert(next_match(ls, true, id, start) == Some(i as nat));
                assert(search_run(ls, true, id, start, 1) == seq![Some(i as nat)]);
                self.search_index = i + 1;
                return Some(i);
            }
            i = i + 1;
        }
        None
    }

    /// Fetches a key by its index.
    pub fn get_key(&self, index: usize) -> (r: Option<&Key>)
        ensures
            r is Some <==> index < self.spec_keys().len(),
            r matches Some(k) ==> *k == self.spec_keys()[index as int],
    {
        if index < self.keys.len() {
            Some(&self.keys[index])
        } else {
            None
        }
    }

    /// Chooses the key to sign with. Only its existence is checked; returns
    /// false, changing nothing, where there is no key at that index.
    pub fn sign_init(&mut self, index: usize) -> (r: bool)
        requires
            old(self).wf(),
        ensures
            final(self).wf(),
            r == (index < old(self).spec_keys().len()),
            final(self).spec_keys() == old(self).spec_keys(),
            final(self).spec_cursor() == old(self).spec_cursor(),
            final(self).spec_want_keys() == old(self).spec_want_keys(),
            final(self).spec_search_id() == old(self).spec_search_id(),
            r ==> final(self).spec_sign_index() == Some(index as nat),
            !r ==> final(self).spec_sign_index() == old(self).spec_sign_index(),
    {
        if index < self.keys.len() {
            self.sign_index = Some(index);
            true
        } else {
            false
        }
    }

    /// Fetches the key chosen by `sign_init`.
    pub fn get_sign_key(&self) -> (r: Option<&Key>)
        requires
            self.wf(),
        ensures
            r is Some <==> self.spec_sign_index() is Some,
            r matches Some(k) ==> *k == self.spec_keys()[self.spec_sign_index()->0 as int],
    {
        match self.sign_index {
            Some(i) => Some(&self.keys[i]),
            None => None,
        }
    }
}

proof fn lemma_run_one(ls: Seq<Seq<char>>, want: bool, id: Option<Seq<char>>, c: nat)
    ensures
        search_run(ls, want, id, c, 1) == seq![next_match(ls, want, id, c)],
{
    reveal_with_fuel(search_run, 2);
    assert(search_run(ls, want, id, c, 1) =~= seq![next_match(ls, want, id, c)]);
}

proof fn lemma_no_match_without_keys(ls: Seq<Seq<char>>, id: Option<Seq<char>>, from: nat)
    ensures
        next_match(ls, false, id, from) is None,
    decreases ls.len() - from,
{
    if from < ls.len() {
        lemma_no_match_without_keys(ls, id, from + 1);
    }
}

proof fn lemma_next_match(ls: Seq<Seq<char>>, want: bool, id: Option<Seq<char>>, from: nat)
    ensures
        next_match(ls, want, id, from) matches Some(i) ==> from <= i < ls.len() && is_match(
            ls,
            want,
            id,
            i as int,
        ) && forall|j: int| from <= j < i ==> !is_match(ls, want, id, j),
        next_match(ls, want, id, from) is None ==> forall|j: int|
            from <= j < ls.len() ==> !is_match(ls, want, id, j),
    decreases ls.len() - from,
{
    if from < ls.len() {
        lemma_next_match(ls, want, id, from + 1);
    }
}

proof fn lemma_none_stays(ls: Seq<Seq<char>>, want: bool, id: Option<Seq<char>>, c: nat, k: nat)
    requires
        next_match(ls, want, id, c) is None,
    ensures
        search_run(ls, want, id, c, k) == Seq::new(k, |i: int| None::<nat>),
    decreases k,
{
    if k > 0 {
        lemma_none_stays(ls, want, id, c, (k - 1) as nat);
        assert(search_run(ls, want, id, c, k) =~= Seq::new(k, |i: int| None::<nat>));
    }
}

proof fn lemma_run_from(ls: Seq<Seq<char>>, want: bool, id: Option<Seq<char>>, c: nat, k: nat)
    ensures
        search_run(ls, want, id, c, k).len() == k,
        forall|i: int|
            0 <= i < k ==> (#[trigger] search_run(ls, want, id, c, k)[i] matches Some(x) ==> c <= x),
        forall|i: int, j: int|
            0 <= i < j < k && search_run(ls, want, id, c, k)[i] is Some && search_run(
                ls,
                want,
                id,
                c,
                k,
            )[j] is Some ==> #[trigger] search_run(ls, want, id, c, k)[i]->0 < #[trigger] search_run(
                ls,
                want,
                id,
                c,
                k,
            )[j]->0,
    decreases k,
{
    if k > 0 {
        lemma_next_match(ls, want, id, c);
        let r = next_match(ls, want, id, c);
        let next = match r {
            Some(x) => x + 1,
            None => c,
        };
        lemma_run_from(ls, want, id, next, (k - 1) as nat);
        let run = search_run(ls, want, id, c, k);
        let rest = search_run(ls, want, id, next, (k - 1) as nat);
        assert(run =~= seq![r] + rest);
        assert forall|i: int| 0 <= i < k implies (#[trigger] run[i] matches Some(x) ==> c <= x) by {
            if i > 0 {
                assert(run[i] == rest[i - 1]);
            }
        }
        assert forall|i: int, j: int|
            0 <= i < j < k && run[i] is Some && run[j] is Some implies #[trigger] run[i]->0
            < #[trigger] run[j]->0 by {
            assert(run[j] == rest[j - 1]);
            if i > 0 {
                assert(run[i] == rest[i - 1]);
            } else {
                assert(rest[j - 1] matches Some(x) ==> next <= x);
            }
        }
    }
}

/// A search never returns an index twice: the indices it returns grow.
pub proof fn search_never_revisits(
    ls: Seq<Seq<char>>,
    want_keys: bool,
    id: Option<Seq<char>>,
    steps: nat,
)
    ensures
        forall|i: int, j: int|
            0 <= i < j < steps && search_run(ls, want_keys, id, 0, steps)[i] is Some && search_run(
                ls,
                want_keys,
                id,
                0,
                steps,
            )[j] is Some ==> #[trigger] search_run(ls, want_keys, id, 0, steps)[i]->0
                < #[trigger] search_run(ls, want_keys, id, 0, steps)[j]->0,
{
    lemma_run_from(ls, want_keys, id, 0, steps);
}

proof fn lemma_unfiltered_from(ls: Seq<Seq<char>>, c: nat)
    requires
        c <= ls.len(),
    ensures
        search_run(ls, true, None, c, (ls.len() - c + 1) as nat) == Seq::new(
            (ls.len() - c) as nat,
            |i: int| Some((c + i) as nat),
        ).push(None),
    decreases ls.len() - c,
{
    let k = (ls.len() - c + 1) as nat;
    if c == ls.len() {
        assert(search_run(ls, true, None, c, 0) =~= Seq::<Option<nat>>::empty());
        assert(search_run(ls, true, None, c, k) =~= Seq::new(0, |i: int| Some((c + i) as nat)).push(
            None,
        ));
    } else {
        assert(next_match(ls, true, None, c) == Some(c));
        lemma_unfiltered_from(ls, c + 1);
        assert(search_run(ls, true, None, c, k) =~= Seq::new(
            (ls.len() - c) as nat,
            |i: int| Some((c + i) as nat),
        ).push(None));
    }
}

/// A search for keys without a label filter returns every index once, in
/// order, then `None`.
pub proof fn unfiltered_search_enumerates(ls: Seq<Seq<char>>)
    ensures
        search_run(ls, true, None, 0, ls.len() + 1) == Seq::new(ls.len(), |i: int| Some(i as nat)).push(
            None,
        ),
{
    lemma_unfiltered_from(ls, 0);
    assert(Seq::new(ls.len(), |i: int| Some((0 + i) as nat)) =~= Seq::new(
        ls.len(),
        |i: int| Some(i as nat),
    ));
}

/// Where labels are unique, a search for one label returns at most one
/// index, the one with that label.
pub proof fn label_search_finds_at_most_one(ls: Seq<Seq<char>>, label: Seq<char>, steps: nat)
    requires
        forall|i: int, j: int| 0 <= i < j < ls.len() ==> ls[i] != ls[j],
    ensures
        forall|i: int|
            0 <= i < steps ==> (#[trigger] search_run(ls, true, Some(label), 0, steps)[i] matches Some(
                x,
            ) ==> x < ls.len() && ls[x as int] == label),
        forall|i: int, j: int|
            0 <= i < j < steps ==> !(#[trigger] search_run(ls, true, Some(label), 0, steps)[i] is Some
                && #[trigger] search_run(ls, true, Some(label), 0, steps)[j] is Some),
{
    let id = Some(label);
    lemma_next_match(ls, true, id, 0);
    if steps > 0 {
        let run = search_run(ls, true, id, 0, steps);
        match next_match(ls, true, id, 0) {
            Some(x) => {
                lemma_next_match(ls, true, id, x + 1);
                assert(next_match(ls, true, id, x + 1) is None) by {
                    if next_match(ls, true, id, x + 1) is Some {
                        let y = next_match(ls, true, id, x + 1)->0;
                        assert(ls[y as int] == label);
                        assert(ls[x as int] != ls[y as int]);
                    }
                }
                lemma_none_stays(ls, true, id, x + 1, (steps - 1) as nat);
                let rest = search_run(ls, true, id, x + 1, (steps - 1) as nat);
                assert(run =~= seq![Some(x)] + rest);
                assert forall|i: int| 0 < i < steps implies run[i] is None by {
                    assert(run[i] == rest[i - 1]);
                }
            },
            None => {
                lemma_none_stays(ls, true, id, 0, steps);
            },
        }
    }
}

} // verus!
