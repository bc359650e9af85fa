//! The shortcuts asked of the desktop service for a configuration.
use vstd::prelude::*;

use crate::config::{lemma_map_of, opt_text, BindView, Configuration};

verus! {

/// What a registration request means.
pub ghost struct RequestView {
    pub id: Seq<char>,
    pub label: Seq<char>,
    pub suggest: Option<Seq<char>>,
}

/// The request for one bound identifier: labelled by its description, or by
/// the identifier where there is none, with the suggested key combination.
pub open spec fn request_for(id: Seq<char>, b: BindView) -> RequestView {
    RequestView {
        id,
        label: match b.description {
            Some(d) => d,
            None => id,
        },
        suggest: b.suggest,
    }
}

/// `r` asks for exactly the identifiers bound in `cfg`, each once, each
/// with the request its bind gives.
pub open spec fn registers(r: Seq<RequestView>, cfg: Map<Seq<char>, BindView>) -> bool {
    &&& forall|i: int|
        0 <= i < r.len() ==> cfg.contains_key(#[trigger] r[i].id) && r[i] == request_for(
            r[i].id,
            cfg[r[i].id],
        )
    &&& forall|k: Seq<char>| #[trigger] cfg.contains_key(k) ==> exists|i: int| 0 <= i < r.len() && r[i].id == k
    &&& forall|i: int, j: int| 0 <= i < j < r.len() ==> r[i].id != r[j].id
}

/// One shortcut to register with the desktop service.
#[derive(Debug, PartialEq, Eq)]
pub struct ShortcutRequest {
    pub id: String,
    pub label: String,
    pub suggest: Option<String>,
}

impl View for ShortcutRequest {
    type V = RequestView;

    open spec fn view(&self) -> RequestView {
        RequestView { id: self.id@, label: self.label@, suggest: opt_text(self.suggest) }
    }
}

fn copy_opt(s: &Option<String>) -> (r: Option<String>)
    ensures
        opt_text(r) == opt_text(*s),
{
    match s {
        Some(t) => Some(t.clone()),
        None => None,
    }
}

/// One request for each bound identifier, in the order of the entries.
pub fn collect_shortcuts(config: &Configuration) -> (r: Vec<ShortcutRequest>)
    requires
        config.wf(),
    ensures
        r@.len() == config.entries().len(),
        forall|i: int|
            0 <= i < r@.len() ==> #[trigger] r@[i]@ == request_for(
                config.entries()[i].0,
                config.entries()[i].1,
            ),
        forall|i: int|
            0 <= i < r@.len() ==> config@.contains_key(#[trigger] r@[i].id@) && r@[i]@
                == request_for(r@[i].id@, config@[r@[i].id@]),
        forall|k: Seq<char>|
            #[trigger] config@.contains_key(k) ==> exists|i: int|
                0 <= i < r@.len() && r@[i].id@ == k,
        forall|i: int, j: int| 0 <= i < j < r@.len() ==> r@[i].id@ != r@[j].id@,
        registers(r@.map_values(|x: ShortcutRequest| x@), config@),
{
    let ghost e = config.entries();
    proof {
        lemma_map_of(e);
    }
    let mut r: Vec<ShortcutRequest> = Vec::new();
    let mut i: usize = 0;
    let n = config.len();
    while i < n
        invariant
            n == e.len(),
            e == config.entries(),
            i <= n,
            r@.len() == i,
            forall|j: int| 0 <= j < i ==> #[trigger] r@[j]@ == request_for(e[j].0, e[j].1),
        decreases n - i,
    {
        let (id, bind) = config.entry(i);
        let label = match &bind.description {
            Some(d) => d.clone(),
            None => id.clone(),
        };
        r.push(ShortcutRequest { id: id.clone(), label, suggest: copy_opt(&bind.suggest) });
        i = i + 1;
    }
    assert forall|i: int|
        0 <= i < r@.len() implies config@.contains_key(#[trigger] r@[i].id@) && r@[i]@
            == request_for(r@[i].id@, config@[r@[i].id@]) by {
        assert(r@[i]@ == request_for(e[i].0, e[i].1));
        assert(e[i] == e[i]);
    }
    assert forall|k: Seq<char>| #[trigger] config@.contains_key(k) implies exists|i: int|
        0 <= i < r@.len() && r@[i].id@ == k by {
        let i = choose|i: int| 0 <= i < e.len() && e[i].0 == k;
        assert(r@[i]@ == request_for(e[i].0, e[i].1));
    }
    assert forall|i: int, j: int| 0 <= i < j < r@.len() implies r@[i].id@ != r@[j].id@ by {
        assert(r@[i]@ == request_for(e[i].0, e[i].1));
        assert(r@[j]@ == request_for(e[j].0, e[j].1));
    }
    let ghost rv = r@.map_values(|x: ShortcutRequest| x@);
    assert forall|k: Seq<char>| #[trigger] config@.contains_key(k) implies exists|i: int|
        0 <= i < rv.len() && rv[i].id == k by {
        let i = choose|i: int| 0 <= i < r@.len() && r@[i].id@ == k;
        assert(rv[i].id == k);
    }
    assert forall|i: int| 0 <= i < rv.len() implies config@.contains_key(#[trigger] rv[i].id) && rv[i]
        == request_for(rv[i].id, config@[rv[i].id]) by {
        assert(rv[i] == r@[i]@);
        assert(config@.contains_key(r@[i].id@));
    }
    r
}

} // verus!
