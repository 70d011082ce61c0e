//! The inclusion-path store: what a verifier needs of the ledger when it
//! cannot ask one.
//!
//! A store holds one state root, fixed when the store is made, and for each
//! commitment that was added to it the state path that places the commitment
//! under that root. A commitment is added once: adding it again puts the new
//! path in the place of the old one.

use crate::encoding::{canonical, is_canonical, Encoding};
use crate::json::{json_string, to_json_string};
use crate::ordered_map::{
    distinct_keys,
    entries,
    get,
    get_index,
    insert,
    len,
    has_key,
    lemma_covered_means_same,
    lemma_fresh_key_goes_last,
    lemma_put_keeps_keys_distinct,
    lemma_put_leaves_others,
    lemma_put_then_value,
    lemma_same_values_same_number,
    lemma_value_at_place,
    new_map,
    place_of,
    put,
    same_values,
    value_of,
    Entry,
};
use crate::state::{Commitment, StatePath, StateRoot};
use indexmap::IndexMap;
use vstd::prelude::*;

verus! {

/// Why a store has no answer.
#[derive(Debug, Clone, Copy, PartialEq, Eq, Structural)]
pub enum QueryError {
    /// No state path was added for the commitment.
    NotFound,
}

impl QueryError {
    /// Returns the text that describes the error to a caller.
    pub fn message(&self) -> (r: String)
        ensures
            r@ == "State path not found for commitment"@,
    {
        "State path not found for commitment".to_owned()
    }
}

/// What a store holds: its state root, and its state paths by commitment, in
/// the order in which the commitments were first added. All are canonical
/// texts.
#[verifier::ext_equal]
pub struct QueryView {
    pub state_root: Seq<char>,
    pub state_paths: Seq<Entry>,
}

/// Whether `paths` can be the state paths of a store: no commitment occurs
/// twice, and each entry is a canonical commitment with a canonical state path.
pub open spec fn valid_paths(paths: Seq<Entry>) -> bool {
    &&& distinct_keys(paths)
    &&& forall|i: int|
        0 <= i < paths.len() ==> is_canonical(Encoding::Commitment, (#[trigger] paths[i]).0)
            && is_canonical(Encoding::StatePath, paths[i].1)
}

impl QueryView {
    /// The outcome of making a store that succeeded.
    pub open spec fn holding(store: QueryView) -> Result<QueryView, Seq<char>> {
        Ok(store)
    }

    /// The store with the root that `state_root` encodes and no state path,
    /// or the message with which the root is refused.
    pub open spec fn created(state_root: Seq<char>) -> Result<QueryView, Seq<char>> {
        match canonical(Encoding::StateRoot, state_root) {
            Ok(root) => Ok(QueryView { state_root: root, state_paths: Seq::empty() }),
            Err(message) => Err(message),
        }
    }

    /// The JSON form of the store: an object with the state paths by
    /// commitment under `state_paths`, in the order in which the commitments
    /// were first added, and the state root under `state_root`.
    pub open spec fn json(self) -> Seq<char> {
        "{\"state_paths\":{"@ + json_entries(self.state_paths) + "},\"state_root\":"@ + json_string(
            self.state_root,
        ) + "}"@
    }

    /// Whether two stores hold the same: the same state root, and for every
    /// commitment the same state path or none, in whatever order the
    /// commitments were added.
    pub open spec fn same_as(self, other: QueryView) -> bool {
        self.state_root == other.state_root && same_values(self.state_paths, other.state_paths)
    }

    /// The state path held for `commitment`, if one was added.
    pub open spec fn lookup(self, commitment: Seq<char>) -> Option<Seq<char>> {
        value_of(self.state_paths, commitment)
    }

    /// Whether `commitment` and `state_path` can be added: both must encode
    /// what they stand for. The commitment is read first.
    pub open spec fn add_outcome(commitment: Seq<char>, state_path: Seq<char>) -> Result<(), Seq<char>> {
        match canonical(Encoding::Commitment, commitment) {
            Err(message) => Err(message),
            Ok(_) => match canonical(Encoding::StatePath, state_path) {
                Err(message) => Err(message),
                Ok(_) => Ok(()),
            },
        }
    }

    /// The store after an attempt to add `state_path` for `commitment`: with
    /// the path under the commitment, both in canonical form, if they were
    /// accepted; unchanged if not.
    pub open spec fn add(self, commitment: Seq<char>, state_path: Seq<char>) -> QueryView {
        match QueryView::add_outcome(commitment, state_path) {
            Ok(()) => QueryView {
                state_root: self.state_root,
                state_paths: put(
                    self.state_paths,
                    canonical(Encoding::Commitment, commitment)->Ok_0,
                    canonical(Encoding::StatePath, state_path)->Ok_0,
                ),
            },
            Err(_) => self,
        }
    }
}

/// The JSON text of one entry: the commitment and its state path as JSON
/// strings, with a colon between them.
pub open spec fn json_entry(entry: Entry) -> Seq<char> {
    json_string(entry.0) + ":"@ + json_string(entry.1)
}

/// The JSON text of the entries of `paths`, with a comma between one entry
/// and the next.
pub open spec fn json_entries(paths: Seq<Entry>) -> Seq<char>
    decreases paths.len(),
{
    if paths.len() == 0 {
        Seq::empty()
    } else if paths.len() == 1 {
        json_entry(paths.last())
    } else {
        json_entries(paths.drop_last()) + ","@ + json_entry(paths.last())
    }
}

/// The store that is made for `state_root` and then given `parts` one after
/// the other, or the message of the first refusal on the way.
pub open spec fn built(state_root: Seq<char>, parts: Seq<Entry>) -> Result<QueryView, Seq<char>>
    decreases parts.len(),
{
    if parts.len() == 0 {
        QueryView::created(state_root)
    } else {
        match built(state_root, parts.drop_last()) {
            Err(message) => Err(message),
            Ok(store) => match QueryView::add_outcome(parts.last().0, parts.last().1) {
                Err(message) => Err(message),
                Ok(()) => Ok(store.add(parts.last().0, parts.last().1)),
            },
        }
    }
}

/// Pairs of strings, seen as entries.
pub open spec fn parts_of(parts: Seq<(String, String)>) -> Seq<Entry> {
    parts.map_values(|part: (String, String)| (part.0@, part.1@))
}

/// The inclusion-path store.
#[derive(Debug)]
pub struct OfflineQuery {
    state_paths: IndexMap<String, String>,
    state_root: StateRoot,
}

impl View for OfflineQuery {
    type V = QueryView;

    closed spec fn view(&self) -> QueryView {
        QueryView { state_root: self.state_root@, state_paths: entries(self.state_paths) }
    }
}

impl OfflineQuery {
    /// The invariant of a store: its state root is canonical and the state
    /// paths it holds are valid. Every store that the library hands out meets
    /// it.
    pub open spec fn wf(&self) -> bool {
        is_canonical(Encoding::StateRoot, self@.state_root) && valid_paths(self@.state_paths)
    }

    /// The outcome of making a store, as specifications see it.
    pub open spec fn made(r: Result<OfflineQuery, String>) -> Result<QueryView, Seq<char>> {
        match r {
            Ok(query) => Ok(query@),
            Err(message) => Err(message@),
        }
    }

    /// The outcome of adding to a store, as specifications see it.
    pub open spec fn added(r: Result<(), String>) -> Result<(), Seq<char>> {
        match r {
            Ok(()) => Ok(()),
            Err(message) => Err(message@),
        }
    }

    /// The outcome of a lookup, as specifications see it.
    pub open spec fn found(r: Result<StatePath, QueryError>) -> Option<Seq<char>> {
        match r {
            Ok(state_path) => Some(state_path@),
            Err(_) => None,
        }
    }

    /// An entry that was listed, as specifications see it.
    pub open spec fn listed(r: Option<(Commitment, StatePath)>) -> Option<Entry> {
        match r {
            Some((commitment, state_path)) => Some((commitment@, state_path@)),
            None => None,
        }
    }

    /// Makes a store for the state root that `state_root` encodes, without
    /// state paths. Fails with the decoder's message where the text encodes no
    /// state root.
    pub fn new(state_root: &str) -> (r: Result<OfflineQuery, String>)
        ensures
            OfflineQuery::made(r) == QueryView::created(state_root@),
            r matches Ok(query) ==> query.wf(),
    {
        match StateRoot::from_string(state_root) {
            Ok(state_root) => Ok(OfflineQuery { state_paths: new_map(), state_root }),
            Err(message) => Err(message),
        }
    }

    /// Adds the state path that `state_path` encodes for the commitment that
    /// `commitment` encodes. A path added before for the same commitment is
    /// replaced. Fails with the decoder's message, and leaves the store as it
    /// was, where one of the texts does not encode what it stands for.
    pub fn add_state_path(&mut self, commitment: &str, state_path: &str) -> (r: Result<(), String>)
        requires
            old(self).wf(),
        ensures
            final(self).wf(),
            OfflineQuery::added(r) == QueryView::add_outcome(commitment@, state_path@),
            final(self)@ == old(self)@.add(commitment@, state_path@),
    {
        let commitment = match Commitment::from_string(commitment) {
            Ok(commitment) => commitment,
            Err(message) => return Err(message),
        };
        let state_path = match StatePath::from_string(state_path) {
            Ok(state_path) => state_path,
            Err(message) => return Err(message),
        };
        self.put_state_path(&commitment, &state_path);
        Ok(())
    }

    /// Puts `state_path` under `commitment`, in place of a path that was there.
    pub fn put_state_path(&mut self, commitment: &Commitment, state_path: &StatePath)
        requires
            old(self).wf(),
        ensures
            final(self).wf(),
            final(self)@.state_root == old(self)@.state_root,
            final(self)@.state_paths == put(old(self)@.state_paths, commitment@, state_path@),
    {
        let key = commitment.to_string();
        let value = state_path.to_string();
        proof {
            lemma_put_keeps_keys_distinct(entries(self.state_paths), key@, value@);
        }
        let _ = insert(&mut self.state_paths, key, value);
    }

    /// Returns the state root of the store.
    pub fn current_state_root(&self) -> (r: StateRoot)
        ensures
            r@ == self@.state_root,
    {
        self.state_root.clone()
    }

    /// Returns the state path that was added for `commitment`, or `NotFound`
    /// where none was.
    pub fn get_state_path_for_commitment(&self, commitment: &Commitment) -> (r: Result<
        StatePath,
        QueryError,
    >)
        requires
            self.wf(),
        ensures
            OfflineQuery::found(r) == self@.lookup(commitment@),
    {
        match get(&self.state_paths, commitment.as_str()) {
            Some(text) => Ok(StatePath::from_canonical(text.clone())),
            None => Err(QueryError::NotFound),
        }
    }

    /// Returns the commitment and the state path at place `index` in the order
    /// in which the commitments were first added, or nothing where the store
    /// holds no more than `index` of them.
    pub fn state_path_at(&self, index: usize) -> (r: Option<(Commitment, StatePath)>)
        requires
            self.wf(),
        ensures
            OfflineQuery::listed(r) == if index < self@.state_paths.len() {
                Some(self@.state_paths[index as int])
            } else {
                None
            },
    {
        match get_index(&self.state_paths, index) {
            Some((commitment, state_path)) => Some(
                (
                    Commitment::from_canonical(commitment.clone()),
                    StatePath::from_canonical(state_path.clone()),
                ),
            ),
            None => None,
        }
    }

    /// Makes a store for the state root that `state_root` encodes and adds to
    /// it the state paths of `parts`, each a commitment with its path, one after
    /// the other. Fails with the message of the first text that is refused.
    pub fn from_parts(state_root: &str, parts: &Vec<(String, String)>) -> (r: Result<OfflineQuery, String>)
        ensures
            OfflineQuery::made(r) == built(state_root@, parts_of(parts@)),
            r matches Ok(query) ==> query.wf(),
    {
        let mut query = match OfflineQuery::new(state_root) {
            Ok(query) => query,
            Err(message) => {
                proof {
                    lemma_refused_root_builds_nothing(state_root@, parts_of(parts@));
                }
                return Err(message);
            },
        };
        let mut i: usize = 0;
        while i < parts.len()
            invariant
                0 <= i <= parts.len(),
                query.wf(),
                built(state_root@, parts_of(parts@).take(i as int)) == QueryView::holding(query@),
            decreases parts.len() - i,
        {
            let ghost before = parts_of(parts@).take(i as int);
            let ghost after = parts_of(parts@).take(i + 1);
            proof {
                assert(after.drop_last() =~= before);
                assert(after.last() == (parts[i as int].0@, parts[i as int].1@));
            }
            match query.add_state_path(parts[i].0.as_str(), parts[i].1.as_str()) {
                Ok(()) => {},
                Err(message) => {
                    proof {
                        lemma_refusal_stays(state_root@, parts_of(parts@), i + 1);
                    }
                    return Err(message);
                },
            }
            i += 1;
        }
        proof {
            assert(parts_of(parts@).take(i as int) =~= parts_of(parts@));
        }
        Ok(query)
    }

    /// Returns the JSON form of the store.
    pub fn to_string(&self) -> (r: String)
        ensures
            r@ == self@.json(),
    {
        let mut text = "{\"state_paths\":{".to_owned();
        let count = len(&self.state_paths);
        let ghost paths = entries(self.state_paths);
        let mut i: usize = 0;
        while i < count
            invariant
                0 <= i <= count,
                count == paths.len(),
                paths == entries(self.state_paths),
                text@ == "{\"state_paths\":{"@ + json_entries(paths.take(i as int)),
            decreases count - i,
        {
            let ghost before = paths.take(i as int);
            let ghost after = paths.take(i + 1);
            proof {
                assert(after.drop_last() =~= before);
                assert(after.last() == paths[i as int]);
            }
            match get_index(&self.state_paths, i) {
                Some((commitment, state_path)) => {
                    if i > 0 {
                        text.append(",");
                    }
                    let key = to_json_string(commitment.as_str());
                    let value = to_json_string(state_path.as_str());
                    text.append(key.as_str());
                    text.append(":");
                    text.append(value.as_str());
                    proof {
                        let head = "{\"state_paths\":{"@;
                        if i > 0 {
                            assert(text@ =~= head + (json_entries(before) + ","@ + json_entry(paths[i as int])));
                        } else {
                            assert(json_entries(before) =~= Seq::<char>::empty());
                            assert(text@ =~= head + json_entry(paths[i as int]));
                        }
                    }
                },
                None => {},
            }
            i += 1;
        }
        proof {
            assert(paths.take(i as int) =~= paths);
        }
        let root = to_json_string(self.state_root.as_str());
        text.append("},\"state_root\":");
        text.append(root.as_str());
        text.append("}");
        text
    }

    /// Whether this store and `other` hold the same: the same state root, and
    /// for every commitment the same state path or none. The order in which the
    /// commitments were added does not count.
    pub fn same_as(&self, other: &OfflineQuery) -> (r: bool)
        requires
            self.wf(),
            other.wf(),
        ensures
            r == self@.same_as(other@),
    {
        if self.state_root != other.state_root {
            return false;
        }
        let count = len(&self.state_paths);
        if count != len(&other.state_paths) {
            proof {
                if same_values(self@.state_paths, other@.state_paths) {
                    lemma_same_values_same_number(self@.state_paths, other@.state_paths);
                }
            }
            return false;
        }
        let ghost paths = entries(self.state_paths);
        let ghost others = entries(other.state_paths);
        let mut i: usize = 0;
        while i < count
            invariant
                0 <= i <= count,
                count == paths.len(),
                paths == entries(self.state_paths),
                others == entries(other.state_paths),
                distinct_keys(paths),
                forall|j: int| 0 <= j < i ==> value_of(others, (#[trigger] paths[j]).0) == Some(paths[j].1),
            decreases count - i,
        {
            match get_index(&self.state_paths, i) {
                Some((commitment, state_path)) => {
                    let same = match get(&other.state_paths, commitment.as_str()) {
                        Some(held) => *held == *state_path,
                        None => false,
                    };
                    if !same {
                        proof {
                            lemma_value_at_place(paths, i as int);
                        }
                        return false;
                    }
                },
                None => {},
            }
            i += 1;
        }
        proof {
            lemma_covered_means_same(paths, others);
        }
        true
    }

    /// Returns the number of commitments that have a state path.
    pub fn len(&self) -> (r: usize)
        ensures
            r == self@.state_paths.len(),
    {
        len(&self.state_paths)
    }
}

impl Clone for OfflineQuery {
    /// Makes a store with the same state root and the same state paths in the
    /// same order.
    fn clone(&self) -> (r: OfflineQuery)
        ensures
            self.wf() ==> r.wf() && r@ == self@,
    {
        let mut state_paths = new_map();
        let count = len(&self.state_paths);
        let ghost paths = entries(self.state_paths);
        let mut i: usize = 0;
        while i < count
            invariant
                0 <= i <= count,
                count == paths.len(),
                paths == entries(self.state_paths),
                distinct_keys(paths) ==> entries(state_paths) == paths.take(i as int),
            decreases count - i,
        {
            match get_index(&self.state_paths, i) {
                Some((commitment, state_path)) => {
                    proof {
                        if distinct_keys(paths) {
                            lemma_fresh_key_goes_last(paths, i as int);
                        }
                    }
                    let _ = insert(&mut state_paths, commitment.clone(), state_path.clone());
                },
                None => {},
            }
            i += 1;
        }
        proof {
            assert(paths.take(i as int) =~= paths);
        }
        OfflineQuery { state_paths, state_root: self.state_root.clone() }
    }
}

/// Where the state root is refused, nothing is built, whatever the parts.
pub proof fn lemma_refused_root_builds_nothing(state_root: Seq<char>, parts: Seq<Entry>)
    requires
        QueryView::created(state_root) is Err,
    ensures
        built(state_root, parts) == QueryView::created(state_root),
    decreases parts.len(),
{
    if parts.len() > 0 {
        lemma_refused_root_builds_nothing(state_root, parts.drop_last());
    }
}

/// A refusal stays: where the first `count` parts are refused, so are all.
pub proof fn lemma_refusal_stays(state_root: Seq<char>, parts: Seq<Entry>, count: int)
    requires
        0 <= count <= parts.len(),
        built(state_root, parts.take(count)) is Err,
    ensures
        built(state_root, parts) == built(state_root, parts.take(count)),
    decreases parts.len(),
{
    if count < parts.len() {
        assert(parts.drop_last().take(count) =~= parts.take(count));
        lemma_refusal_stays(state_root, parts.drop_last(), count);
    } else {
        assert(parts.take(count) =~= parts);
    }
}

/// Taking a store apart and building it again gives the same store: made for
/// its state root and given its own state paths in their order, a valid store
/// comes out as it was.
pub proof fn lemma_parts_build_the_store(store: QueryView)
    requires
        is_canonical(Encoding::StateRoot, store.state_root),
        valid_paths(store.state_paths),
    ensures
        built(store.state_root, store.state_paths) == QueryView::holding(store),
    decreases store.state_paths.len(),
{
    let paths = store.state_paths;
    if paths.len() > 0 {
        let shorter = QueryView { state_root: store.state_root, state_paths: paths.drop_last() };
        assert(valid_paths(shorter.state_paths)) by {
            assert forall|i: int| 0 <= i < shorter.state_paths.len() implies is_canonical(
                Encoding::Commitment,
                (#[trigger] shorter.state_paths[i]).0,
            ) && is_canonical(Encoding::StatePath, shorter.state_paths[i].1) by {
                assert(shorter.state_paths[i] == paths[i]);
            }
            assert forall|i: int, j: int| 0 <= i < j < shorter.state_paths.len() implies (
            #[trigger] shorter.state_paths[i]).0 != (#[trigger] shorter.state_paths[j]).0 by {
                assert(shorter.state_paths[i] == paths[i]);
                assert(shorter.state_paths[j] == paths[j]);
            }
        }
        lemma_parts_build_the_store(shorter);
        let last = paths.last();
        assert(!has_key(shorter.state_paths, last.0)) by {
            if has_key(shorter.state_paths, last.0) {
                let place = place_of(shorter.state_paths, last.0);
                assert(paths[place].0 == shorter.state_paths[place].0);
                assert(paths[place].0 != paths[paths.len() - 1].0);
            }
        }
        assert(shorter.add(last.0, last.1).state_paths =~= paths);
    } else {
        assert(store.state_paths =~= Seq::<Entry>::empty());
    }
}

/// The JSON form of a store without state paths, whose state root is of
/// plain characters: the empty object under `state_paths`, and the root between
/// double quotes under `state_root`.
pub proof fn lemma_json_of_empty_store(store: QueryView)
    requires
        store.state_paths.len() == 0,
        forall|i: int| 0 <= i < store.state_root.len() ==> crate::json::is_plain(#[trigger] store.state_root[i]),
    ensures
        store.json() == "{\"state_paths\":{"@ + "},\"state_root\":"@ + seq!['"'] + store.state_root + seq![
            '"',
        ] + "}"@,
{
    crate::json::lemma_plain_text_is_quoted(store.state_root);
    assert(json_entries(store.state_paths) =~= Seq::<char>::empty());
    assert(store.json() =~= "{\"state_paths\":{"@ + "},\"state_root\":"@ + seq!['"'] + store.state_root
        + seq!['"'] + "}"@);
}

/// A store that was just made holds no state path: every lookup in it finds
/// nothing.
pub proof fn lemma_new_store_is_empty(state_root: Seq<char>, commitment: Seq<char>)
    requires
        QueryView::created(state_root) is Ok,
    ensures
        QueryView::created(state_root)->Ok_0.lookup(commitment) is None,
        valid_paths(QueryView::created(state_root)->Ok_0.state_paths),
{
}

/// Adding keeps a store valid and never touches its state root.
pub proof fn lemma_add_keeps_valid(store: QueryView, commitment: Seq<char>, state_path: Seq<char>)
    requires
        valid_paths(store.state_paths),
    ensures
        valid_paths(store.add(commitment, state_path).state_paths),
        store.add(commitment, state_path).state_root == store.state_root,
{
    if QueryView::add_outcome(commitment, state_path) is Ok {
        let key = canonical(Encoding::Commitment, commitment)->Ok_0;
        let value = canonical(Encoding::StatePath, state_path)->Ok_0;
        let after = put(store.state_paths, key, value);
        lemma_put_keeps_keys_distinct(store.state_paths, key, value);
        assert forall|i: int| 0 <= i < after.len() implies is_canonical(
            Encoding::Commitment,
            (#[trigger] after[i]).0,
        ) && is_canonical(Encoding::StatePath, after[i].1) by {
            if after[i] != (key, value) {
                assert(after[i] == store.state_paths[i]);
            }
        }
    }
}

/// A state path that was added is the one a lookup of its commitment finds.
pub proof fn lemma_added_path_is_found(store: QueryView, commitment: Seq<char>, state_path: Seq<char>)
    requires
        valid_paths(store.state_paths),
        QueryView::add_outcome(commitment, state_path) is Ok,
    ensures
        store.add(commitment, state_path).lookup(canonical(Encoding::Commitment, commitment)->Ok_0)
            == Some(canonical(Encoding::StatePath, state_path)->Ok_0),
{
    lemma_put_then_value(
        store.state_paths,
        canonical(Encoding::Commitment, commitment)->Ok_0,
        canonical(Encoding::StatePath, state_path)->Ok_0,
    );
}

/// A lookup of a commitment that was never added finds nothing.
pub proof fn lemma_missing_path_is_not_found(store: QueryView, commitment: Seq<char>)
    requires
        !has_key(store.state_paths, commitment),
    ensures
        store.lookup(commitment) is None,
{
}

/// A second state path for a commitment replaces the first: a lookup finds the
/// second, and the store holds no more commitments than after the first.
pub proof fn lemma_later_path_replaces_earlier(
    store: QueryView,
    commitment: Seq<char>,
    first: Seq<char>,
    second: Seq<char>,
)
    requires
        valid_paths(store.state_paths),
        QueryView::add_outcome(commitment, first) is Ok,
        QueryView::add_outcome(commitment, second) is Ok,
    ensures
        store.add(commitment, first).add(commitment, second).lookup(
            canonical(Encoding::Commitment, commitment)->Ok_0,
        ) == Some(canonical(Encoding::StatePath, second)->Ok_0),
        store.add(commitment, first).add(commitment, second).state_paths.len() == store.add(
            commitment,
            first,
        ).state_paths.len(),
{
    let key = canonical(Encoding::Commitment, commitment)->Ok_0;
    lemma_add_keeps_valid(store, commitment, first);
    lemma_added_path_is_found(store, commitment, first);
    lemma_added_path_is_found(store.add(commitment, first), commitment, second);
}

/// Adding a state path for one commitment leaves what the store holds for
/// every other commitment.
pub proof fn lemma_add_leaves_other_commitments(
    store: QueryView,
    commitment: Seq<char>,
    state_path: Seq<char>,
    other: Seq<char>,
)
    requires
        valid_paths(store.state_paths),
        QueryView::add_outcome(commitment, state_path) is Ok,
        other != canonical(Encoding::Commitment, commitment)->Ok_0,
    ensures
        store.add(commitment, state_path).lookup(other) == store.lookup(other),
{
    lemma_put_leaves_others(
        store.state_paths,
        canonical(Encoding::Commitment, commitment)->Ok_0,
        canonical(Encoding::StatePath, state_path)->Ok_0,
        other,
    );
}

} // verus!
