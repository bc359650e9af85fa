//! Resolving shortcut events against the current configuration.
use vstd::prelude::*;

use crate::config::{ActionView, Action, BindView, Configuration};
use crate::errors::Error;

verus! {

/// Which stream an event came on: a press (activation) or a release
/// (deactivation).
#[derive(Debug, Clone, Copy, PartialEq, Eq, Structural)]
pub enum Direction {
    Down,
    Up,
}

/// What an event resolves to.
pub ghost enum DispatchView {
    Execute(ActionView),
    Unbound,
    Unknown,
}

/// What an event resolves to: an action to hand to the executor, nothing
/// (the identifier is bound but has no action for this direction), or an
/// identifier that the configuration does not know.
#[derive(Debug, PartialEq, Eq)]
pub enum Dispatch {
    Execute(Action),
    Unbound,
    Unknown,
}

impl View for Dispatch {
    type V = DispatchView;

    open spec fn view(&self) -> DispatchView {
        match self {
            Dispatch::Execute(a) => DispatchView::Execute(a@),
            Dispatch::Unbound => DispatchView::Unbound,
            Dispatch::Unknown => DispatchView::Unknown,
        }
    }
}

/// The action a bind holds for a direction.
pub open spec fn action_for(b: BindView, d: Direction) -> Option<ActionView> {
    match d {
        Direction::Down => b.on_down,
        Direction::Up => b.on_up,
    }
}

/// What an event for `id` on the stream of direction `d` resolves to under
/// the bindings `cfg`.
pub open spec fn resolve_spec(
    cfg: Map<Seq<char>, BindView>,
    id: Seq<char>,
    d: Direction,
) -> DispatchView {
    if !cfg.contains_key(id) {
        DispatchView::Unknown
    } else {
        match action_for(cfg[id], d) {
            Some(a) => DispatchView::Execute(a),
            None => DispatchView::Unbound,
        }
    }
}

/// Resolves one event. The action handed back is a copy, so that the
/// configuration need not be held while it runs.
pub fn resolve(config: &Configuration, id: &str, direction: Direction) -> (r: Dispatch)
    requires
        config.wf(),
    ensures
        r@ == resolve_spec(config@, id@, direction),
{
    match config.get(id) {
        None => Dispatch::Unknown,
        Some(bind) => {
            let action = match direction {
                Direction::Down => &bind.on_down,
                Direction::Up => &bind.on_up,
            };
            match action {
                Some(a) => Dispatch::Execute(a.duplicate()),
                None => Dispatch::Unbound,
            }
        },
    }
}

/// One step of a dispatch loop: the next item of an event stream, or `None`
/// where the stream has ended. An ended stream is the fatal
/// `UnexpectedEndOfKeys`; an event resolves as `resolve` does.
pub fn next_dispatch(config: &Configuration, event: Option<&str>, direction: Direction) -> (r:
    Result<Dispatch, Error>)
    requires
        config.wf(),
    ensures
        event is None ==> r == Err::<Dispatch, Error>(Error::UnexpectedEndOfKeys),
        event matches Some(id) ==> r matches Ok(d) && d@ == resolve_spec(config@, id@, direction),
{
    match event {
        None => Err(Error::UnexpectedEndOfKeys),
        Some(id) => Ok(resolve(config, id, direction)),
    }
}

/// Resolves the events of one stream, in the order they arrived: the i-th
/// result belongs to the i-th event.
pub fn dispatch_in_order(config: &Configuration, ids: &Vec<String>, direction: Direction) -> (r:
    Vec<Dispatch>)
    requires
        config.wf(),
    ensures
        r@.len() == ids@.len(),
        forall|i: int|
            0 <= i < ids@.len() ==> #[trigger] r@[i]@ == resolve_spec(config@, ids@[i]@, direction),
{
    let mut r: Vec<Dispatch> = Vec::new();
    let mut i: usize = 0;
    while i < ids.len()
        invariant
            config.wf(),
            i <= ids@.len(),
            r@.len() == i,
            forall|j: int|
                0 <= j < i ==> #[trigger] r@[j]@ == resolve_spec(config@, ids@[j]@, direction),
        decreases ids@.len() - i,
    {
        r.push(resolve(config, ids[i].as_str(), direction));
        i = i + 1;
    }
    r
}

} // verus!
