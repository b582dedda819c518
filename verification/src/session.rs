//! Named device sessions: which device a command is for when none is given.

use vstd::prelude::*;

use crate::text::before;
use crate::text::cat2;
use crate::text::is_before;
use crate::text::lemma_before_irreflexive;
use crate::text::lemma_before_total;
use crate::text::lemma_before_transitive;
use crate::text::opt_string;
use crate::text::opt_text;
use crate::text::same_text;
use crate::text::texts;

verus! {

/// What a session remembers.
#[derive(Debug)]
pub struct SessionState {
    pub device: String,
    pub updated_at_unix: u64,
}

/// What a `SessionState` holds.
pub struct SessionView {
    pub device: Seq<char>,
    pub updated_at_unix: u64,
}

impl View for SessionState {
    type V = SessionView;

    open spec fn view(&self) -> SessionView {
        SessionView { device: self.device@, updated_at_unix: self.updated_at_unix }
    }
}

impl SessionState {
    /// A second session state that holds the same.
    pub fn copy(&self) -> (other: SessionState)
        ensures
            other@ == self@,
    {
        SessionState { device: self.device.clone(), updated_at_unix: self.updated_at_unix }
    }
}

/// Whether the names of a list of sessions stand in strictly ascending order.
pub open spec fn ascending(list: Seq<(Seq<char>, SessionView)>) -> bool {
    forall|i: int, j: int| 0 <= i < j < list.len() ==> before(#[trigger] list[i].0, #[trigger] list[j].0)
}

/// Whether a list has a session of that name at position `i`.
pub open spec fn named_at(list: Seq<(Seq<char>, SessionView)>, name: Seq<char>, i: int) -> bool {
    0 <= i < list.len() && list[i].0 == name
}

/// The sessions of a list by their names.
pub open spec fn by_name(list: Seq<(Seq<char>, SessionView)>) -> Map<Seq<char>, SessionView> {
    Map::new(
        |name: Seq<char>| exists|i: int| named_at(list, name, i),
        |name: Seq<char>| list[choose|i: int| named_at(list, name, i)].1,
    )
}

/// In an ascending list a name stands once.
proof fn lemma_name_stands_once(list: Seq<(Seq<char>, SessionView)>, i: int, j: int)
    requires
        ascending(list),
        0 <= i < list.len(),
        0 <= j < list.len(),
        list[i].0 == list[j].0,
    ensures
        i == j,
{
    lemma_before_irreflexive(list[i].0);
    if i < j {
        assert(before(list[i].0, list[j].0));
    } else if j < i {
        assert(before(list[j].0, list[i].0));
    }
}

/// What `by_name` says of the session at a position.
proof fn lemma_by_name_at(list: Seq<(Seq<char>, SessionView)>, i: int)
    requires
        ascending(list),
        0 <= i < list.len(),
    ensures
        by_name(list).contains_key(list[i].0),
        by_name(list)[list[i].0] == list[i].1,
{
    let name = list[i].0;
    assert(named_at(list, name, i));
    let j = choose|j: int| named_at(list, name, j);
    lemma_name_stands_once(list, i, j);
}

/// Sessions by name, held in the order of their names.
#[derive(Debug)]
pub struct SessionMap {
    entries: Vec<(String, SessionState)>,
}

/// What the entries of a list hold.
pub open spec fn entry_views(list: Seq<(String, SessionState)>) -> Seq<(Seq<char>, SessionView)> {
    list.map_values(|e: (String, SessionState)| (e.0@, e.1@))
}

impl SessionMap {
    /// The sessions with their names, in the order of the names.
    pub closed spec fn listed(&self) -> Seq<(Seq<char>, SessionView)> {
        entry_views(self.entries@)
    }

    #[verifier::type_invariant]
    spec fn in_order(&self) -> bool {
        ascending(self.listed())
    }
}

impl View for SessionMap {
    type V = Map<Seq<char>, SessionView>;

    open spec fn view(&self) -> Map<Seq<char>, SessionView> {
        by_name(self.listed())
    }
}

impl SessionMap {
    /// No sessions.
    pub fn new() -> (map: SessionMap)
        ensures
            map@ == Map::<Seq<char>, SessionView>::empty(),
            map.listed() == Seq::<(Seq<char>, SessionView)>::empty(),
    {
        let map = SessionMap { entries: Vec::new() };
        assert(map.listed() =~= Seq::empty());
        assert(map@ =~= Map::empty());
        map
    }

    /// The sessions in the order of their names.
    pub fn entries(&self) -> (list: &Vec<(String, SessionState)>)
        ensures
            entry_views(list@) == self.listed(),
            ascending(self.listed()),
            self.listed() == in_name_order(self@),
    {
        proof {
            use_type_invariant(self);
            lemma_in_name_order(self.listed());
        }
        &self.entries
    }

    /// The first position whose name is not before `name`.
    fn position(&self, name: &str) -> (at: usize)
        ensures
            at <= self.listed().len(),
            self.entries@.len() == self.listed().len(),
            forall|j: int| 0 <= j < at ==> before(#[trigger] self.listed()[j].0, name@),
            at < self.listed().len() ==> !before(self.listed()[at as int].0, name@),
    {
        let mut at: usize = 0;
        while at < self.entries.len() && is_before(self.entries[at].0.as_str(), name)
            invariant
                at <= self.entries.len(),
                self.entries@.len() == self.listed().len(),
                forall|j: int| 0 <= j < at ==> before(#[trigger] self.listed()[j].0, name@),
            decreases self.entries.len() - at,
        {
            assert(self.listed()[at as int].0 == self.entries@[at as int].0@);
            at += 1;
        }
        if at < self.entries.len() {
            assert(self.listed()[at as int].0 == self.entries@[at as int].0@);
        }
        at
    }

    /// A name that stands in the map stands where `position` says.
    proof fn lemma_position(list: Seq<(Seq<char>, SessionView)>, name: Seq<char>, at: int)
        requires
            ascending(list),
            0 <= at <= list.len(),
            forall|j: int| 0 <= j < at ==> before(#[trigger] list[j].0, name),
            at < list.len() ==> !before(list[at].0, name),
        ensures
            by_name(list).contains_key(name) <==> at < list.len() && list[at].0 == name,
            at < list.len() && list[at].0 == name ==> by_name(list)[name] == list[at].1,
            at < list.len() && list[at].0 != name ==> before(name, list[at].0),
            forall|j: int| at < j < list.len() ==> before(name, #[trigger] list[j].0),
    {
        if at < list.len() {
            lemma_before_total(list[at].0, name);
            if list[at].0 == name {
                lemma_by_name_at(list, at);
            }
        }
        assert forall|j: int| at < j < list.len() implies before(name, #[trigger] list[j].0) by {
            assert(before(list[at].0, list[j].0));
            if list[at].0 != name {
                lemma_before_transitive(name, list[at].0, list[j].0);
            }
        }
        if by_name(list).contains_key(name) {
            let i = choose|i: int| named_at(list, name, i);
            lemma_before_irreflexive(name);
            if i < at {
                assert(before(list[i].0, name));
            } else if i > at {
                assert(before(name, list[i].0));
            }
        }
    }

    /// The session of that name.
    pub fn get(&self, name: &str) -> (found: Option<&SessionState>)
        ensures
            match found {
                Some(session) => self@.contains_key(name@) && self@[name@] == session@,
                None => !self@.contains_key(name@),
            },
    {
        proof {
            use_type_invariant(self);
        }
        let at: usize = self.position(name);
        proof {
            Self::lemma_position(self.listed(), name@, at as int);
            if at < self.entries@.len() {
                assert(self.listed()[at as int] == (
                    self.entries@[at as int].0@,
                    self.entries@[at as int].1@,
                ));
            }
        }
        if at < self.entries.len() && same_text(self.entries[at].0.as_str(), name) {
            Some(&self.entries[at].1)
        } else {
            None
        }
    }

    /// Whether there is a session of that name.
    pub fn contains_key(&self, name: &str) -> (yes: bool)
        ensures
            yes == self@.contains_key(name@),
    {
        self.get(name).is_some()
    }

    /// The number of sessions.
    pub fn len(&self) -> (n: usize)
        ensures
            n == self@.dom().len(),
            n == self.listed().len(),
            self@.dom().finite(),
    {
        proof {
            use_type_invariant(self);
            lemma_listed_names(self.listed());
        }
        self.entries.len()
    }

    /// Whether there are no sessions.
    pub fn is_empty(&self) -> (yes: bool)
        ensures
            yes == (self.listed().len() == 0),
            yes == (self@ == Map::<Seq<char>, SessionView>::empty()),
    {
        proof {
            use_type_invariant(self);
            if self.listed().len() == 0 {
                assert(self@ =~= Map::empty());
            } else {
                lemma_by_name_at(self.listed(), 0);
            }
        }
        self.entries.len() == 0
    }
}

/// The names of an ascending list are as many as its entries.
proof fn lemma_listed_names(list: Seq<(Seq<char>, SessionView)>)
    requires
        ascending(list),
    ensures
        by_name(list).dom().finite(),
        by_name(list).dom().len() == list.len(),
{
    let names = list.map_values(|e: (Seq<char>, SessionView)| e.0);
    assert(names.no_duplicates()) by {
        assert forall|i: int, j: int|
            0 <= i < names.len() && 0 <= j < names.len() && i != j implies names[i]
            != names[j] by {
            if list[i].0 == list[j].0 {
                lemma_name_stands_once(list, i, j);
            }
        }
    }
    names.unique_seq_to_set();
    assert(names.to_set() =~= by_name(list).dom()) by {
        assert forall|name: Seq<char>| names.to_set().contains(name) implies by_name(
            list,
        ).dom().contains(name) by {
            let i = choose|i: int| 0 <= i < names.len() && names[i] == name;
            assert(named_at(list, name, i));
        }
        assert forall|name: Seq<char>| by_name(list).dom().contains(name) implies names.to_set().contains(
            name,
        ) by {
            let i = choose|i: int| named_at(list, name, i);
            assert(names[i] == name);
        }
    }
    vstd::seq_lib::seq_to_set_is_finite(names);
}

/// Putting a session in its place keeps the order, and adds it under its name.
proof fn lemma_put(list: Seq<(Seq<char>, SessionView)>, at: int, name: Seq<char>, state: SessionView)
    requires
        ascending(list),
        0 <= at <= list.len(),
        forall|j: int| 0 <= j < at ==> before(#[trigger] list[j].0, name),
        forall|j: int| at <= j < list.len() ==> before(name, #[trigger] list[j].0),
    ensures
        ascending(list.insert(at, (name, state))),
        by_name(list.insert(at, (name, state))) == by_name(list).insert(name, state),
{
    let new = list.insert(at, (name, state));
    assert forall|i: int, j: int| 0 <= i < j < new.len() implies before(
        #[trigger] new[i].0,
        #[trigger] new[j].0,
    ) by {
        let a = if i < at {
            i
        } else {
            i - 1
        };
        let b = if j < at {
            j
        } else {
            j - 1
        };
        if i != at {
            assert(new[i] == list[a]);
        }
        if j != at {
            assert(new[j] == list[b]);
        }
    }
    lemma_by_name_at(new, at);
    let put = by_name(list).insert(name, state);
    assert forall|other: Seq<char>| put.dom().contains(other) implies #[trigger] by_name(
        new,
    ).dom().contains(other) && by_name(new)[other] == put[other] by {
        if other != name {
            let i = choose|i: int| named_at(list, other, i);
            let k = if i < at {
                i
            } else {
                i + 1
            };
            assert(new[k] == list[i]);
            lemma_by_name_at(list, i);
            lemma_by_name_at(new, k);
        }
    }
    assert forall|other: Seq<char>| #[trigger] by_name(new).dom().contains(
        other,
    ) implies put.dom().contains(other) by {
        let k = choose|k: int| named_at(new, other, k);
        if k != at {
            let i = if k < at {
                k
            } else {
                k - 1
            };
            assert(new[k] == list[i]);
            lemma_by_name_at(list, i);
        }
    }
    assert(by_name(new) =~= put);
}

/// Taking a session out keeps the order, and takes away its name.
proof fn lemma_take(list: Seq<(Seq<char>, SessionView)>, at: int)
    requires
        ascending(list),
        0 <= at < list.len(),
    ensures
        ascending(list.remove(at)),
        by_name(list.remove(at)) == by_name(list).remove(list[at].0),
{
    let new = list.remove(at);
    assert forall|i: int, j: int| 0 <= i < j < new.len() implies before(
        #[trigger] new[i].0,
        #[trigger] new[j].0,
    ) by {
        let a = if i < at {
            i
        } else {
            i + 1
        };
        let b = if j < at {
            j
        } else {
            j + 1
        };
        assert(new[i] == list[a]);
        assert(new[j] == list[b]);
    }
    let left = by_name(list).remove(list[at].0);
    assert forall|other: Seq<char>| left.dom().contains(other) implies #[trigger] by_name(
        new,
    ).dom().contains(other) && by_name(new)[other] == left[other] by {
        let i = choose|i: int| named_at(list, other, i);
        let k = if i < at {
            i
        } else {
            i - 1
        };
        assert(new[k] == list[i]);
        lemma_by_name_at(list, i);
        lemma_by_name_at(new, k);
    }
    assert forall|other: Seq<char>| #[trigger] by_name(new).dom().contains(
        other,
    ) implies left.dom().contains(other) by {
        let k = choose|k: int| named_at(new, other, k);
        let i = if k < at {
            k
        } else {
            k + 1
        };
        assert(new[k] == list[i]);
        lemma_by_name_at(list, i);
        if other == list[at].0 {
            lemma_name_stands_once(list, i, at);
        }
    }
    assert(by_name(new) =~= left);
}

impl SessionMap {
    /// Puts a session under a name, in place of the one that stood there.
    pub fn insert(&mut self, name: String, state: SessionState) -> (replaced: Option<SessionState>)
        ensures
            final(self)@ == old(self)@.insert(name@, state@),
            match replaced {
                Some(before) => old(self)@.contains_key(name@) && old(self)@[name@] == before@,
                None => !old(self)@.contains_key(name@),
            },
    {
        proof {
            use_type_invariant(&*self);
        }
        let at: usize = self.position(name.as_str());
        let ghost list = self.listed();
        let ghost entry = (name@, state@);
        proof {
            Self::lemma_position(list, name@, at as int);
            if at < self.entries@.len() {
                assert(list[at as int] == (
                    self.entries@[at as int].0@,
                    self.entries@[at as int].1@,
                ));
            }
        }
        let mut entries: Vec<(String, SessionState)> = Vec::new();
        std::mem::swap(&mut entries, &mut self.entries);
        let mut replaced: Option<SessionState> = None;
        if at < entries.len() && same_text(entries[at].0.as_str(), name.as_str()) {
            let gone = entries.remove(at);
            proof {
                lemma_take(list, at as int);
                assert(entry_views(entries@) =~= list.remove(at as int));
            }
            replaced = Some(gone.1);
        } else {
            assert(entry_views(entries@) =~= list);
            assert(list.len() > at ==> before(name@, list[at as int].0));
        }
        let ghost kept = entry_views(entries@);
        assert(kept.len() == entries@.len());
        assert forall|j: int| 0 <= j < at implies before(#[trigger] kept[j].0, name@) by {
            assert(kept[j] == list[j]);
        }
        assert forall|j: int| at <= j < kept.len() implies before(name@, #[trigger] kept[j].0) by {
            if replaced is Some {
                assert(kept[j] == list[j + 1]);
            } else {
                assert(kept[j] == list[j]);
            }
        }
        entries.insert(at, (name, state));
        proof {
            lemma_put(kept, at as int, entry.0, entry.1);
            assert(entry_views(entries@) =~= kept.insert(at as int, entry));
            assert(by_name(list).insert(entry.0, entry.1) =~= by_name(kept).insert(
                entry.0,
                entry.1,
            ));
        }
        self.entries = entries;
        replaced
    }

    /// Takes the session of that name away.
    pub fn remove(&mut self, name: &str) -> (removed: Option<SessionState>)
        ensures
            final(self)@ == old(self)@.remove(name@),
            match removed {
                Some(before) => old(self)@.contains_key(name@) && old(self)@[name@] == before@,
                None => !old(self)@.contains_key(name@),
            },
    {
        proof {
            use_type_invariant(&*self);
        }
        let at: usize = self.position(name);
        let ghost list = self.listed();
        proof {
            Self::lemma_position(list, name@, at as int);
            if at < self.entries@.len() {
                assert(list[at as int] == (
                    self.entries@[at as int].0@,
                    self.entries@[at as int].1@,
                ));
            }
        }
        let mut entries: Vec<(String, SessionState)> = Vec::new();
        std::mem::swap(&mut entries, &mut self.entries);
        let mut removed: Option<SessionState> = None;
        if at < entries.len() && same_text(entries[at].0.as_str(), name) {
            let gone = entries.remove(at);
            proof {
                lemma_take(list, at as int);
                assert(entry_views(entries@) =~= list.remove(at as int));
            }
            removed = Some(gone.1);
        } else {
            assert(by_name(list).remove(name@) =~= by_name(list));
        }
        self.entries = entries;
        removed
    }
}

/// Two ascending lists of the same sessions are the same.
proof fn lemma_one_order(a: Seq<(Seq<char>, SessionView)>, b: Seq<(Seq<char>, SessionView)>)
    requires
        ascending(a),
        ascending(b),
        by_name(a) == by_name(b),
    ensures
        a == b,
    decreases a.len(),
{
    lemma_listed_names(a);
    lemma_listed_names(b);
    if a.len() == 0 {
        assert(a =~= b);
    } else {
        let n = a.len() - 1;
        lemma_by_name_at(a, n);
        lemma_by_name_at(b, n);
        let i = choose|i: int| named_at(a, b[n].0, i);
        let j = choose|j: int| named_at(b, a[n].0, j);
        assert(by_name(a).contains_key(b[n].0));
        assert(by_name(b).contains_key(a[n].0));
        if i < n && j < n {
            assert(before(a[i].0, a[n].0));
            assert(before(b[j].0, b[n].0));
            lemma_before_transitive(a[n].0, b[n].0, a[n].0);
            lemma_before_irreflexive(a[n].0);
        }
        assert(a[n].0 == b[n].0);
        lemma_take(a, n);
        lemma_take(b, n);
        lemma_one_order(a.remove(n), b.remove(n));
        assert(a =~= a.remove(n).push(a[n]));
        assert(b =~= b.remove(n).push(b[n]));
    }
}

/// Sessions with their names, in the order of the names.
pub open spec fn in_name_order(sessions: Map<Seq<char>, SessionView>) -> Seq<
    (Seq<char>, SessionView),
> {
    choose|list: Seq<(Seq<char>, SessionView)>| ascending(list) && by_name(list) == sessions
}

/// The list of a map is its sessions in the order of their names.
proof fn lemma_in_name_order(list: Seq<(Seq<char>, SessionView)>)
    requires
        ascending(list),
    ensures
        in_name_order(by_name(list)) == list,
{
    lemma_one_order(in_name_order(by_name(list)), list);
}

/// A list of all sessions of a map in ascending order of their names is its sessions in order.
pub proof fn lemma_listed_by_name(
    sessions: Map<Seq<char>, SessionView>,
    list: Seq<(Seq<char>, SessionView)>,
)
    requires
        ascending(list),
        forall|name: Seq<char>| #[trigger]
            sessions.contains_key(name) <==> exists|i: int|
                0 <= i < list.len() && #[trigger] list[i].0 == name,
        forall|i: int| 0 <= i < list.len() ==> sessions[(#[trigger] list[i]).0] == list[i].1,
    ensures
        in_name_order(sessions) == list,
{
    let named = by_name(list);
    assert forall|name: Seq<char>| named.contains_key(name) <==> sessions.contains_key(name) by {
        if sessions.contains_key(name) {
            let i = choose|i: int| 0 <= i < list.len() && #[trigger] list[i].0 == name;
            assert(named_at(list, name, i));
        }
        if named.contains_key(name) {
            let i = choose|i: int| named_at(list, name, i);
            assert(list[i].0 == name);
        }
    }
    assert forall|name: Seq<char>| named.contains_key(name) implies named[name]
        == sessions[name] by {
        let i = choose|i: int| named_at(list, name, i);
        assert(list[i].0 == name);
    }
    assert(named =~= sessions);
    lemma_in_name_order(list);
}

/// All sessions, and the one that is selected.
#[derive(Debug)]
pub struct SessionStore {
    pub current: Option<String>,
    pub sessions: SessionMap,
}

/// What a `SessionStore` holds.
#[verifier::ext_equal]
pub struct StoreView {
    pub current: Option<Seq<char>>,
    pub sessions: Map<Seq<char>, SessionView>,
}

impl View for SessionStore {
    type V = StoreView;

    open spec fn view(&self) -> StoreView {
        StoreView { current: opt_string(self.current), sessions: self.sessions@ }
    }
}

/// A store without sessions.
pub open spec fn empty_store() -> StoreView {
    StoreView { current: None, sessions: Map::empty() }
}

impl Default for SessionStore {
    fn default() -> (store: SessionStore)
        ensures
            store@ == empty_store(),
    {
        SessionStore { current: None, sessions: SessionMap::new() }
    }
}

/// The name of the session that a command is for: the one that is asked for, else the selected
/// one, else the only one, else the one named `default`.
pub open spec fn chosen_session(store: StoreView, requested: Option<Seq<char>>) -> Option<Seq<char>> {
    if requested is Some {
        requested
    } else if store.current is Some {
        store.current
    } else if store.sessions.dom().len() == 1 {
        Some(store.sessions.dom().choose())
    } else if store.sessions.contains_key("default"@) {
        Some("default"@)
    } else {
        None
    }
}

/// Picks the session that a command is for.
pub fn selected_session_name(store: &SessionStore, requested: Option<&str>) -> (name: Result<
    String,
    String,
>)
    ensures
        match name {
            Ok(name) => chosen_session(store@, opt_text(requested)) == Some(name@),
            Err(error) => chosen_session(store@, opt_text(requested)) is None && error@
                == "no session selected; run `adb-agent session select <name>` or pass `--session <name>`"@,
        },
{
    if let Some(name) = requested {
        return Ok(name.to_string());
    }
    if let Some(name) = &store.current {
        return Ok(name.clone());
    }
    if store.sessions.len() == 1 {
        let entries = store.sessions.entries();
        let name = entries[0].0.clone();
        proof {
            let list = store.sessions.listed();
            assert(list[0].0 == name@);
            lemma_by_name_at(list, 0);
            let dom = store.sessions@.dom();
            assert(dom.contains(name@));
            assert(dom.contains(dom.choose()));
            vstd::set_lib::lemma_set_subset_finite(dom, set![name@]);
            assert(dom =~= set![name@]) by {
                vstd::set_lib::lemma_subset_equality(set![name@], dom);
            }
        }
        return Ok(name);
    }
    if store.sessions.contains_key("default") {
        return Ok("default".to_string());
    }
    Err(
        "no session selected; run `adb-agent session select <name>` or pass `--session <name>`".to_string(),
    )
}

/// The device of the session that a command is for.
pub open spec fn session_device(store: StoreView, requested: Option<Seq<char>>) -> Option<Seq<char>> {
    match chosen_session(store, requested) {
        Some(name) => if store.sessions.contains_key(name) {
            Some(store.sessions[name].device)
        } else {
            None
        },
        None => None,
    }
}

/// A store with a session put under a name, and selected if `select` says so.
pub open spec fn store_with(
    store: StoreView,
    name: Seq<char>,
    device: Seq<char>,
    now: u64,
    select: bool,
) -> StoreView {
    StoreView {
        current: if select {
            Some(name)
        } else {
            store.current
        },
        sessions: store.sessions.insert(name, SessionView { device, updated_at_unix: now }),
    }
}

/// A store without the session of a name, which is then not selected either.
pub open spec fn store_without(store: StoreView, name: Seq<char>) -> StoreView {
    StoreView {
        current: if store.current == Some(name) {
            None
        } else {
            store.current
        },
        sessions: store.sessions.remove(name),
    }
}

/// A store with another session selected, or none.
pub open spec fn store_selecting(store: StoreView, name: Option<Seq<char>>) -> StoreView {
    StoreView { current: name, sessions: store.sessions }
}

impl SessionStore {
    /// Puts a session under a name, and selects it if `select` says so.
    pub fn put(&mut self, name: &String, device: &String, now: u64, select: bool)
        ensures
            final(self)@ == store_with(old(self)@, name@, device@, now, select),
    {
        self.sessions.insert(
            name.clone(),
            SessionState { device: device.clone(), updated_at_unix: now },
        );
        if select {
            self.current = Some(name.clone());
        }
    }

    /// Takes a session away, and the selection with it where it was the selected one.
    pub fn drop_session(&mut self, name: &String) -> (removed: Option<SessionState>)
        ensures
            final(self)@ == store_without(old(self)@, name@),
            match removed {
                Some(before) => old(self)@.sessions.contains_key(name@)
                    && old(self)@.sessions[name@] == before@,
                None => !old(self)@.sessions.contains_key(name@),
            },
    {
        let removed = self.sessions.remove(name.as_str());
        let selected: bool = match &self.current {
            Some(current) => same_text(current.as_str(), name.as_str()),
            None => false,
        };
        if selected {
            self.current = None;
        }
        removed
    }
}

/// A session that is put under a name is the one that a command is for that asks for the name, and
/// also where no session is asked for, if it was selected.
pub proof fn law_used_session_is_found(
    store: StoreView,
    name: Seq<char>,
    device: Seq<char>,
    now: u64,
    select: bool,
)
    ensures
        session_device(store_with(store, name, device, now, select), Some(name)) == Some(device),
        select ==> session_device(store_with(store, name, device, now, select), None) == Some(
            device,
        ),
{
}

/// A session put under a name leaves the sessions of other names as they are, whatever was asked
/// for by name; and the selection, unless it is selected itself.
pub proof fn law_sessions_do_not_disturb_each_other(
    store: StoreView,
    name: Seq<char>,
    device: Seq<char>,
    now: u64,
    select: bool,
    other: Seq<char>,
)
    requires
        other != name,
    ensures
        session_device(store_with(store, name, device, now, select), Some(other))
            == session_device(store, Some(other)),
        session_device(store_without(store, name), Some(other)) == session_device(
            store,
            Some(other),
        ),
        !select ==> store_with(store, name, device, now, select).current == store.current,
{
}

/// Taking away a session undoes putting it there, where none of its name stood before and it was
/// neither selected then nor is now.
pub proof fn law_remove_undoes_use(store: StoreView, name: Seq<char>, device: Seq<char>, now: u64)
    requires
        !store.sessions.contains_key(name),
        store.current != Some(name),
    ensures
        store_without(store_with(store, name, device, now, false), name) == store,
{
    let back = store_without(store_with(store, name, device, now, false), name);
    assert(back.sessions =~= store.sessions);
}

/// A session that was taken away is not found, and is not selected.
pub proof fn law_removed_session_is_gone(store: StoreView, name: Seq<char>)
    ensures
        session_device(store_without(store, name), Some(name)) is None,
        store_without(store, name).current != Some(name),
{
}

/// The session that is asked for goes before the selected one, the selected one before the only
/// one, and the only one before the one named `default`.
pub proof fn law_session_precedence(store: StoreView, asked: Seq<char>)
    ensures
        chosen_session(store, Some(asked)) == Some(asked),
        store.current is Some ==> chosen_session(store, None) == store.current,
        store.current is None ==> forall|name: Seq<char>|
            store.sessions.dom() == #[trigger] Set::<Seq<char>>::empty().insert(name)
                ==> chosen_session(store, None) == Some(name),
        store.current is None && store.sessions.dom().len() != 1 && store.sessions.contains_key(
            "default"@,
        ) ==> chosen_session(store, None) == Some("default"@),
{
    assert forall|name: Seq<char>|
        store.current is None && store.sessions.dom() == #[trigger] Set::<Seq<char>>::empty().insert(
            name,
        ) implies chosen_session(store, None) == Some(name) by {
        let dom = store.sessions.dom();
        assert(dom.len() == 1);
        assert(dom.contains(name));
        assert(dom.contains(dom.choose()));
    }
}

/// `serde_json::Error`, carried through unread.
#[verifier::external_type_specification]
#[verifier::external_body]
pub struct ExJsonError(serde_json::Error);

/// The keys of the JSON object that `serde_json::from_str` reads out of a text, none where the
/// text is another JSON value; nothing where the text is not JSON.
pub uninterp spec fn json_object_keys(text: Seq<char>) -> Option<Seq<Seq<char>>>;

/// Reads a text with `serde_json::from_str` and hands out the keys of the object at its top. What
/// JSON is and which keys a text has is `serde_json`'s to say; it is the same for the same text.
#[verifier::external_body]
fn object_keys(text: &str) -> (keys: Result<Vec<String>, serde_json::Error>)
    ensures
        match keys {
            Ok(keys) => json_object_keys(text@) == Some(texts(keys@)),
            Err(_) => json_object_keys(text@) is None,
        },
{
    let value: serde_json::Value = serde_json::from_str(text)?;
    match value {
        serde_json::Value::Object(map) => Ok(map.into_iter().map(|entry| entry.0).collect()),
        serde_json::Value::Null
        | serde_json::Value::Bool(_)
        | serde_json::Value::Number(_)
        | serde_json::Value::String(_)
        | serde_json::Value::Array(_) => Ok(Vec::new()),
    }
}

/// The two shapes of a session file: named sessions, or a single one without a name.
#[derive(Clone, Copy, Debug, PartialEq, Eq, Structural)]
pub enum SessionFileShape {
    Named,
    Legacy,
}

/// The shape of a session file whose top-level object has these keys.
pub open spec fn shape_with(keys: Seq<Seq<char>>) -> SessionFileShape {
    if keys.contains("sessions"@) {
        SessionFileShape::Named
    } else {
        SessionFileShape::Legacy
    }
}

/// Tells the shape of a session file by the keys of its top-level object.
pub fn shape_of_keys(keys: &Vec<String>) -> (shape: SessionFileShape)
    ensures
        shape == shape_with(texts(keys@)),
{
    let mut i: usize = 0;
    while i < keys.len()
        invariant
            i <= keys.len(),
            forall|j: int| 0 <= j < i ==> #[trigger] texts(keys@)[j] != "sessions"@,
        decreases keys.len() - i,
    {
        assert(texts(keys@)[i as int] == keys@[i as int]@);
        if same_text(keys[i].as_str(), "sessions") {
            return SessionFileShape::Named;
        }
        i += 1;
    }
    SessionFileShape::Legacy
}

/// Tells the shape of a session file, or nothing where its content is not JSON.
pub fn session_file_shape(content: &str) -> (shape: Option<SessionFileShape>)
    ensures
        shape == shape_of(content@),
{
    match object_keys(content) {
        Ok(keys) => Some(shape_of_keys(&keys)),
        Err(_) => None,
    }
}

/// What came of reading the session file.
#[derive(Debug)]
pub enum StoreFile {
    /// The file could not be read.
    Unreadable,
    /// Its content is not JSON, or not of the shape of named sessions.
    Malformed,
    /// It has no named sessions, and is not a single session either.
    MalformedLegacy,
    /// The named sessions in it.
    Named(SessionStore),
    /// The single session in it.
    Legacy(SessionState),
}

/// What a session file of a shape comes to: each shape is read in its own way, and what the other
/// way would give is left aside.
pub open spec fn file_of_shape(
    shape: Option<SessionFileShape>,
    named: Option<SessionStore>,
    legacy: Option<SessionState>,
) -> StoreFile {
    match shape {
        None => StoreFile::Malformed,
        Some(SessionFileShape::Named) => match named {
            Some(store) => StoreFile::Named(store),
            None => StoreFile::Malformed,
        },
        Some(SessionFileShape::Legacy) => match legacy {
            Some(session) => StoreFile::Legacy(session),
            None => StoreFile::MalformedLegacy,
        },
    }
}

/// Takes over a session file of a known shape. Its content has been read in both ways; where a way
/// failed there is nothing.
pub fn store_file_of_shape(
    shape: Option<SessionFileShape>,
    named: Option<SessionStore>,
    legacy: Option<SessionState>,
) -> (file: StoreFile)
    ensures
        file == file_of_shape(shape, named, legacy),
{
    match shape {
        None => StoreFile::Malformed,
        Some(SessionFileShape::Named) => match named {
            Some(store) => StoreFile::Named(store),
            None => StoreFile::Malformed,
        },
        Some(SessionFileShape::Legacy) => match legacy {
            Some(session) => StoreFile::Legacy(session),
            None => StoreFile::MalformedLegacy,
        },
    }
}

/// The shape of a session file, nothing where its content is not JSON.
pub open spec fn shape_of(content: Seq<char>) -> Option<SessionFileShape> {
    match json_object_keys(content) {
        Some(keys) => Some(shape_with(keys)),
        None => None,
    }
}

/// Takes over the content of a session file, which has been read as named sessions and as a single
/// session; where a way failed there is nothing.
pub fn store_file(content: &str, named: Option<SessionStore>, legacy: Option<SessionState>) -> (file:
    StoreFile)
    ensures
        file == file_of_shape(shape_of(content@), named, legacy),
{
    store_file_of_shape(session_file_shape(content), named, legacy)
}

/// What a result of two strings holds.
pub open spec fn path_view(path: Result<String, String>) -> Result<Seq<char>, Seq<char>> {
    match path {
        Ok(p) => Ok(p@),
        Err(e) => Err(e@),
    }
}

/// The store that a session file stands for. A single session becomes the session `default`, and
/// is selected.
pub open spec fn store_in(path: Result<String, String>, file: StoreFile) -> Result<
    StoreView,
    Seq<char>,
> {
    match path {
        Err(error) => Err(error@),
        Ok(path) => match file {
            StoreFile::Unreadable => Err("failed to read "@ + path@),
            StoreFile::Malformed => Err("invalid session file "@ + path@),
            StoreFile::MalformedLegacy => Err("invalid legacy session file "@ + path@),
            StoreFile::Named(store) => Ok(store@),
            StoreFile::Legacy(session) => Ok(
                StoreView {
                    current: Some("default"@),
                    sessions: Map::empty().insert("default"@, session@),
                },
            ),
        },
    }
}

/// What a store or an error holds.
pub open spec fn read_view(read: Result<SessionStore, String>) -> Result<StoreView, Seq<char>> {
    match read {
        Ok(store) => Ok(store@),
        Err(error) => Err(error@),
    }
}

/// Takes over what was read of the session file at `path`.
pub fn read_session_store(path: &Result<String, String>, file: StoreFile) -> (read: Result<
    SessionStore,
    String,
>)
    ensures
        read_view(read) == store_in(*path, file),
{
    match path {
        Err(error) => Err(error.clone()),
        Ok(path) => match file {
            StoreFile::Unreadable => Err(cat2("failed to read ", path.as_str())),
            StoreFile::Malformed => Err(cat2("invalid session file ", path.as_str())),
            StoreFile::MalformedLegacy => Err(cat2("invalid legacy session file ", path.as_str())),
            StoreFile::Named(store) => Ok(store),
            StoreFile::Legacy(session) => {
                let mut sessions = SessionMap::new();
                sessions.insert("default".to_string(), session);
                Ok(SessionStore { current: Some("default".to_string()), sessions })
            },
        },
    }
}

/// Named sessions are read back as they stand in the file: where the content is a JSON object with
/// the key `sessions`, and the sessions `saved` were read out of it, these are what is read, also
/// where there are none of them or none is selected.
pub proof fn law_named_sessions_are_read_back(
    path: String,
    content: Seq<char>,
    saved: SessionStore,
    legacy: Option<SessionState>,
)
    requires
        json_object_keys(content) matches Some(keys) && keys.contains("sessions"@),
    ensures
        shape_of(content) == Some(SessionFileShape::Named),
        store_in(Ok(path), file_of_shape(shape_of(content), Some(saved), legacy)) == Ok::<
            StoreView,
            Seq<char>,
        >(saved@),
{
}

/// What came of writing the session file.
#[derive(Debug)]
pub enum WriteOutcome {
    Written,
    /// This directory could not be created.
    NoDirectory(String),
    NotWritten,
}

/// The error that an outcome of writing the session file at `path` is.
pub open spec fn write_error(path: Result<String, String>, outcome: WriteOutcome) -> Option<
    Seq<char>,
> {
    match path {
        Err(error) => Some(error@),
        Ok(path) => match outcome {
            WriteOutcome::Written => None,
            WriteOutcome::NoDirectory(directory) => Some("failed to create "@ + directory@),
            WriteOutcome::NotWritten => Some("failed to write "@ + path@),
        },
    }
}

/// Takes over what came of writing the session file at `path`.
pub fn write_session_store(path: &Result<String, String>, outcome: &WriteOutcome) -> (done: Result<
    (),
    String,
>)
    ensures
        match done {
            Ok(_) => write_error(*path, *outcome) is None,
            Err(error) => write_error(*path, *outcome) == Some(error@),
        },
{
    match path {
        Err(error) => Err(error.clone()),
        Ok(path) => match outcome {
            WriteOutcome::Written => Ok(()),
            WriteOutcome::NoDirectory(directory) => Err(
                cat2("failed to create ", directory.as_str()),
            ),
            WriteOutcome::NotWritten => Err(cat2("failed to write ", path.as_str())),
        },
    }
}

/// The directory under which the session file stands.
#[derive(Clone, Copy, Debug, PartialEq, Eq, Structural)]
pub enum SessionBase {
    /// The directory that the user names.
    Override,
    /// The directory for application data, on Windows.
    AppData,
    /// The user's home directory.
    Home,
}

/// Where the session file stands: under a directory, the last part being the file itself.
#[derive(Debug)]
pub struct SessionPath {
    pub base: SessionBase,
    pub parts: Vec<String>,
}

/// Which base directories the environment names.
#[derive(Clone, Copy, Debug)]
pub struct SessionEnv {
    pub has_override: bool,
    pub windows: bool,
    pub has_appdata: bool,
    pub has_home: bool,
}

/// Tells where the session file stands.
pub fn session_path(env: SessionEnv) -> (path: Result<SessionPath, String>)
    ensures
        match path {
            Ok(path) => if env.has_override {
                path.base == SessionBase::Override && texts(path.parts@) == seq!["session.json"@]
            } else if env.windows {
                env.has_appdata && path.base == SessionBase::AppData && texts(path.parts@) == seq![
                    "agent-adb-control"@,
                    "session.json"@,
                ]
            } else {
                env.has_home && path.base == SessionBase::Home && texts(path.parts@) == seq![
                    ".agent-adb-control"@,
                    "session.json"@,
                ]
            },
            Err(error) => !env.has_override && if env.windows {
                !env.has_appdata && error@ == "APPDATA is not set"@
            } else {
                !env.has_home && error@ == "HOME is not set"@
            },
        },
{
    let mut parts: Vec<String> = Vec::new();
    let base = if env.has_override {
        SessionBase::Override
    } else if env.windows {
        if !env.has_appdata {
            return Err("APPDATA is not set".to_string());
        }
        parts.push("agent-adb-control".to_string());
        SessionBase::AppData
    } else {
        if !env.has_home {
            return Err("HOME is not set".to_string());
        }
        parts.push(".agent-adb-control".to_string());
        SessionBase::Home
    };
    parts.push("session.json".to_string());
    proof {
        if env.has_override {
            assert(texts(parts@) =~= seq!["session.json"@]);
        } else if env.windows {
            assert(texts(parts@) =~= seq!["agent-adb-control"@, "session.json"@]);
        } else {
            assert(texts(parts@) =~= seq![".agent-adb-control"@, "session.json"@]);
        }
    }
    Ok(SessionPath { base, parts })
}

/// No session is chosen just where none is asked for or selected and it cannot be told which is
/// meant: there is not one alone, and none is named `default`.
pub proof fn law_no_session_is_guessed(store: StoreView)
    ensures
        chosen_session(store, None) is None <==> store.current is None
            && store.sessions.dom().len() != 1 && !store.sessions.contains_key("default"@),
{
}

/// A file with a single session, as it once was written, is read as the session `default`, and
/// that is selected: a command that names no session has its device. A file that cannot be read or
/// understood is an error that names it.
pub proof fn law_single_sessions_become_the_default(
    path: String,
    session: SessionState,
    asked: Option<Seq<char>>,
)
    requires
        asked is None || asked == Some("default"@),
    ensures
        ({
            let read = store_in(Ok(path), StoreFile::Legacy(session));
            &&& read is Ok
            &&& session_device(read->Ok_0, asked) == Some(session.device@)
            &&& read->Ok_0.sessions["default"@].updated_at_unix == session.updated_at_unix
            &&& read->Ok_0.sessions.dom().len() == 1
            &&& read->Ok_0.current == Some("default"@)
        }),
        store_in(Ok(path), StoreFile::Unreadable) == Err::<StoreView, Seq<char>>(
            "failed to read "@ + path@,
        ),
        store_in(Ok(path), StoreFile::Malformed) == Err::<StoreView, Seq<char>>(
            "invalid session file "@ + path@,
        ),
        store_in(Ok(path), StoreFile::MalformedLegacy) == Err::<StoreView, Seq<char>>(
            "invalid legacy session file "@ + path@,
        ),
{
    let read = store_in(Ok(path), StoreFile::Legacy(session));
    assert(read->Ok_0.sessions.dom() =~= Set::<Seq<char>>::empty().insert("default"@));
}

/// A session file is named sessions where its object has the key `sessions`, else a single one: a
/// file is read in the one way that its keys tell, and is malformed where that way failed or where
/// it is no JSON.
pub proof fn law_keys_tell_how_a_file_is_read(
    keys: Seq<Seq<char>>,
    named: Option<SessionStore>,
    legacy: Option<SessionState>,
)
    ensures
        (exists|i: int| 0 <= i < keys.len() && #[trigger] keys[i] == "sessions"@) ==> file_of_shape(
            Some(shape_with(keys)),
            named,
            legacy,
        ) == match named {
            Some(store) => StoreFile::Named(store),
            None => StoreFile::Malformed,
        },
        (forall|i: int| 0 <= i < keys.len() ==> #[trigger] keys[i] != "sessions"@)
            ==> file_of_shape(Some(shape_with(keys)), named, legacy) == match legacy {
            Some(session) => StoreFile::Legacy(session),
            None => StoreFile::MalformedLegacy,
        },
        file_of_shape(None, named, legacy) == StoreFile::Malformed,
{
}

/// That the sessions could not be saved is an error that names what could not be made: the
/// directory, or the file. Where they were, there is none.
pub proof fn law_unsaved_sessions_are_errors(path: String, directory: String)
    ensures
        write_error(Ok(path), WriteOutcome::Written) is None,
        write_error(Ok(path), WriteOutcome::NoDirectory(directory)) == Some(
            "failed to create "@ + directory@,
        ),
        write_error(Ok(path), WriteOutcome::NotWritten) == Some("failed to write "@ + path@),
{
}

} // verus!
