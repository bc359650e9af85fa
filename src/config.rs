//! Configuration model: shortcut identifiers bound to optional actions.
use vstd::prelude::*;

verus! {

/// What a `Run` action means: a program and its optional arguments.
pub ghost struct RunView {
    pub program: Seq<char>,
    pub arguments: Option<Seq<Seq<char>>>,
}

/// What an action means.
pub ghost enum ActionView {
    Run(RunView),
}

/// What a bind means.
pub ghost struct BindView {
    pub description: Option<Seq<char>>,
    pub suggest: Option<Seq<char>>,
    pub on_down: Option<ActionView>,
    pub on_up: Option<ActionView>,
}

/// The text of an optional string.
pub open spec fn opt_text(s: Option<String>) -> Option<Seq<char>> {
    match s {
        Some(t) => Some(t@),
        None => None,
    }
}

/// The texts of a list of strings.
pub open spec fn texts(v: Seq<String>) -> Seq<Seq<char>> {
    v.map_values(|s: String| s@)
}

/// Runs a program with the given arguments.
#[derive(Debug, Clone, PartialEq, Eq)]
pub struct Run {
    pub program: String,
    pub arguments: Option<Vec<String>>,
}

impl View for Run {
    type V = RunView;

    open spec fn view(&self) -> RunView {
        RunView {
            program: self.program@,
            arguments: match self.arguments {
                Some(a) => Some(texts(a@)),
                None => None,
            },
        }
    }
}

/// Copies a list of strings.
fn copy_texts(v: &Vec<String>) -> (r: Vec<String>)
    ensures
        texts(r@) == texts(v@),
{
    let mut r: Vec<String> = Vec::new();
    let mut i: usize = 0;
    while i < v.len()
        invariant
            i <= v.len(),
            r@.len() == i,
            forall|j: int| 0 <= j < i ==> r@[j]@ == v@[j]@,
        decreases v.len() - i,
    {
        r.push(v[i].clone());
        i = i + 1;
    }
    assert(texts(r@) =~= texts(v@));
    r
}

impl Run {
    /// A copy of this action, equal to it in meaning.
    pub fn duplicate(&self) -> (r: Run)
        ensures
            r@ == self@,
    {
        let arguments = match &self.arguments {
            Some(a) => Some(copy_texts(a)),
            None => None,
        };
        Run { program: self.program.clone(), arguments }
    }
}

/// An effect performed when a shortcut is pressed or released.
#[non_exhaustive]
#[derive(Debug, Clone, PartialEq, Eq)]
pub enum Action {
    Run(Run),
}

impl View for Action {
    type V = ActionView;

    open spec fn view(&self) -> ActionView {
        match self {
            Action::Run(r) => ActionView::Run(r@),
        }
    }
}

impl Action {
    /// A copy of this action, equal to it in meaning.
    pub fn duplicate(&self) -> (r: Action)
        ensures
            r@ == self@,
    {
        match self {
            Action::Run(run) => Action::Run(run.duplicate()),
        }
    }
}

/// The meaning of an optional action.
pub open spec fn opt_action(a: Option<Action>) -> Option<ActionView> {
    match a {
        Some(x) => Some(x@),
        None => None,
    }
}

/// One configured shortcut: an optional label, an optional suggested key
/// combination, and optional actions for press and release.
#[derive(Debug, PartialEq, Eq)]
pub struct Bind {
    pub description: Option<String>,
    pub suggest: Option<String>,
    pub on_down: Option<Action>,
    pub on_up: Option<Action>,
}

impl View for Bind {
    type V = BindView;

    open spec fn view(&self) -> BindView {
        BindView {
            description: opt_text(self.description),
            suggest: opt_text(self.suggest),
            on_down: opt_action(self.on_down),
            on_up: opt_action(self.on_up),
        }
    }
}

/// No identifier occurs twice among the entries.
pub open spec fn keys_distinct(e: Seq<(Seq<char>, BindView)>) -> bool {
    forall|i: int, j: int| 0 <= i < j < e.len() ==> e[i].0 != e[j].0
}

/// Whether some entry carries the identifier `k`.
pub open spec fn has_key(e: Seq<(Seq<char>, BindView)>, k: Seq<char>) -> bool {
    exists|i: int| 0 <= i < e.len() && e[i].0 == k
}

/// The map from identifiers to binds that a list of entries describes.
pub open spec fn map_of(e: Seq<(Seq<char>, BindView)>) -> Map<Seq<char>, BindView> {
    Map::new(
        |k: Seq<char>| has_key(e, k),
        |k: Seq<char>| e[choose|i: int| 0 <= i < e.len() && e[i].0 == k].1,
    )
}

/// With distinct identifiers, each entry is what the map holds under its
/// identifier, and the map holds nothing else.
pub proof fn lemma_map_of(e: Seq<(Seq<char>, BindView)>)
    requires
        keys_distinct(e),
    ensures
        forall|i: int| #![trigger e[i]] 0 <= i < e.len() ==> map_of(e).contains_key(e[i].0)
            && map_of(e)[e[i].0] == e[i].1,
        forall|k: Seq<char>| #[trigger] map_of(e).contains_key(k) <==> has_key(e, k),
{
    assert forall|i: int| #![trigger e[i]] 0 <= i < e.len() implies map_of(e).contains_key(e[i].0)
        && map_of(e)[e[i].0] == e[i].1 by {
        let k = e[i].0;
        assert(has_key(e, k));
        let j = choose|j: int| 0 <= j < e.len() && e[j].0 == k;
        assert(j == i);
    }
}

/// The bindings of the daemon: shortcut identifiers, each bound once.
#[derive(Debug)]
pub struct Configuration {
    binds: Vec<(String, Bind)>,
}

impl Configuration {
    /// The entries in the order they are held.
    pub closed spec fn entries(&self) -> Seq<(Seq<char>, BindView)> {
        self.binds@.map_values(|p: (String, Bind)| (p.0@, p.1@))
    }

    /// Well-formed: no identifier is bound twice.
    pub open spec fn wf(&self) -> bool {
        keys_distinct(self.entries())
    }

    /// An empty configuration.
    pub fn new() -> (r: Configuration)
        ensures
            r.wf(),
            r.entries().len() == 0,
            r@ == Map::<Seq<char>, BindView>::empty(),
    {
        let r = Configuration { binds: Vec::new() };
        assert(r@ =~= Map::<Seq<char>, BindView>::empty());
        r
    }

    /// The number of bound identifiers.
    pub fn len(&self) -> (r: usize)
        ensures
            r == self.entries().len(),
    {
        self.binds.len()
    }

    /// The entry at position `i`.
    pub fn entry(&self, i: usize) -> (r: (&String, &Bind))
        requires
            i < self.entries().len(),
        ensures
            (r.0@, r.1@) == self.entries()[i as int],
    {
        (&self.binds[i].0, &self.binds[i].1)
    }

    /// The position of `id` among the entries, if it is bound.
    fn position(&self, id: &str) -> (r: Option<usize>)
        ensures
            match r {
                Some(i) => i < self.entries().len() && self.entries()[i as int].0 == id@,
                None => !has_key(self.entries(), id@),
            },
    {
        let mut i: usize = 0;
        while i < self.binds.len()
            invariant
                i <= self.binds.len(),
                self.entries().len() == self.binds.len(),
                forall|j: int| 0 <= j < i ==> self.entries()[j].0 != id@,
            decreases self.binds.len() - i,
        {
            if same_text(self.binds[i].0.as_str(), id) {
                return Some(i);
            }
            i = i + 1;
        }
        None
    }

    /// The bind of `id`, if it is bound.
    pub fn get(&self, id: &str) -> (r: Option<&Bind>)
        requires
            self.wf(),
        ensures
            match r {
                Some(b) => self@.contains_key(id@) && b@ == self@[id@],
                None => !self@.contains_key(id@),
            },
    {
        proof {
            lemma_map_of(self.entries());
        }
        match self.position(id) {
            Some(i) => Some(&self.binds[i].1),
            None => None,
        }
    }

    /// Binds `id` to `bind`, replacing the bind it had.
    pub fn insert(&mut self, id: String, bind: Bind)
        requires
            old(self).wf(),
        ensures
            final(self).wf(),
            final(self)@ == old(self)@.insert(id@, bind@),
    {
        let ghost k = id@;
        let ghost v = bind@;
        let ghost before = self.entries();
        proof {
            lemma_map_of(before);
        }
        match self.position(id.as_str()) {
            Some(i) => {
                self.binds.set(i, (id, bind));
                assert(self.entries() =~= before.update(i as int, (k, v)));
                assert(self.entries()[i as int].0 == k);
            },
            None => {
                self.binds.push((id, bind));
                assert(self.entries() =~= before.push((k, v)));
                assert(self.entries()[before.len() as int].0 == k);
            },
        }
        let ghost after = self.entries();
        assert(has_key(after, k));
        assert(after.len() >= before.len());
        assert(forall|j: int| 0 <= j < after.len() ==> after[j].0 == k || (j < before.len() && after[j] == before[j]));
        assert(forall|j: int| 0 <= j < before.len() ==> before[j].0 == k || after[j] == before[j]);
        assert(keys_distinct(after));
        proof {
            lemma_map_of(after);
        }
        assert forall|x: Seq<char>| #[trigger] map_of(after).contains_key(x)
            <==> (x == k || has_key(before, x)) by {
            if has_key(after, x) && x != k {
                let j = choose|j: int| 0 <= j < after.len() && after[j].0 == x;
                assert(before[j].0 == x);
            }
            if x != k && has_key(before, x) {
                let j = choose|j: int| 0 <= j < before.len() && before[j].0 == x;
                assert(after[j].0 == x);
            }
        }
        assert forall|x: Seq<char>| #[trigger] map_of(after).contains_key(x) implies map_of(after)[x]
            == map_of(before).insert(k, v)[x] by {
            let j = choose|j: int| 0 <= j < after.len() && after[j].0 == x;
            assert(after[j] == after[j]);
            if x != k {
                assert(before[j] == after[j]);
            }
        }
        assert(map_of(after) =~= map_of(before).insert(k, v));
    }
}

impl View for Configuration {
    type V = Map<Seq<char>, BindView>;

    open spec fn view(&self) -> Map<Seq<char>, BindView> {
        map_of(self.entries())
    }
}

/// Whether two strings hold the same characters.
pub fn same_text(a: &str, b: &str) -> (r: bool)
    ensures
        r == (a@ == b@),
{
    let n = a.unicode_len();
    if n != b.unicode_len() {
        return false;
    }
    let mut i: usize = 0;
    while i < n
        invariant
            n == a@.len() == b@.len(),
            i <= n,
            forall|j: int| 0 <= j < i ==> a@[j] == b@[j],
        decreases n - i,
    {
        if a.get_char(i) != b.get_char(i) {
            return false;
        }
        i = i + 1;
    }
    assert(a@ =~= b@);
    true
}

} // verus!
