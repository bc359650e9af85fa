//! The configuration store shared by the dispatchers, and the reload that
//! replaces it.
//!
//! A reload goes in two steps. `start_reload` takes the outcome of reading
//! and parsing the configuration file: a failure leaves the store as it was,
//! a new configuration is staged and the shortcuts to register for it are
//! handed back. `finish_reload` takes the outcome of that registration: on
//! success the staged configuration replaces the current one whole, on
//! failure it is dropped. Dispatch reads only the current configuration, so
//! it always resolves against the bindings last registered with success.
use vstd::prelude::*;

use crate::config::{ActionView, BindView, Configuration};
use crate::dispatch::{action_for, resolve_spec, Direction, DispatchView};
use crate::errors::Error;
use crate::registration::{collect_shortcuts, registers, ShortcutRequest};

verus! {

/// What a store holds: the configuration in use, and the one staged by a
/// reload that awaits registration.
pub ghost struct StoreView {
    pub current: Map<Seq<char>, BindView>,
    pub pending: Option<Map<Seq<char>, BindView>>,
}

/// The store after a reload has read the configuration file: `parsed` is the
/// new configuration, or `None` where it could not be read or parsed.
pub open spec fn reload_started(s: StoreView, parsed: Option<Map<Seq<char>, BindView>>) -> StoreView {
    StoreView { current: s.current, pending: parsed }
}

/// The store after the registration of a reload has ended, with success or
/// not.
pub open spec fn reload_finished(s: StoreView, registered: bool) -> StoreView {
    match s.pending {
        Some(c) => if registered {
            StoreView { current: c, pending: None }
        } else {
            StoreView { current: s.current, pending: None }
        },
        None => StoreView { current: s.current, pending: None },
    }
}

/// The configuration in use, and the one a reload has staged.
#[derive(Debug)]
pub struct ConfigStore {
    current: Configuration,
    pending: Option<Configuration>,
}

impl View for ConfigStore {
    type V = StoreView;

    closed spec fn view(&self) -> StoreView {
        StoreView {
            current: self.current@,
            pending: match self.pending {
                Some(c) => Some(c@),
                None => None,
            },
        }
    }
}

impl ConfigStore {
    /// Well-formed: both configurations bind each identifier once.
    pub closed spec fn wf(&self) -> bool {
        self.current.wf() && (self.pending matches Some(c) ==> c.wf())
    }

    /// A store that uses `config`, with no reload under way.
    pub fn new(config: Configuration) -> (r: ConfigStore)
        requires
            config.wf(),
        ensures
            r.wf(),
            r@ == (StoreView { current: config@, pending: None }),
    {
        ConfigStore { current: config, pending: None }
    }

    /// The configuration that dispatch resolves against.
    pub fn current(&self) -> (r: &Configuration)
        requires
            self.wf(),
        ensures
            r.wf(),
            r@ == self@.current,
    {
        &self.current
    }

    /// Whether a reload awaits the outcome of its registration.
    pub fn is_reloading(&self) -> (r: bool)
        ensures
            r == self@.pending is Some,
    {
        self.pending.is_some()
    }

    /// Starts a reload with the outcome of reading and parsing the
    /// configuration file. The current configuration stays in use. On
    /// failure the error is handed back and nothing is staged; otherwise the
    /// new configuration is staged, replacing one staged before, and the
    /// shortcuts to register for it are handed back.
    pub fn start_reload(&mut self, parsed: Result<Configuration, Error>) -> (r: Result<
        Vec<ShortcutRequest>,
        Error,
    >)
        requires
            old(self).wf(),
            parsed matches Ok(c) ==> c.wf(),
        ensures
            final(self).wf(),
            final(self)@ == reload_started(
                old(self)@,
                match parsed {
                    Ok(c) => Some(c@),
                    Err(_) => None,
                },
            ),
            parsed matches Err(e) ==> r == Err::<Vec<ShortcutRequest>, Error>(e),
            parsed matches Ok(c) ==> r matches Ok(q) && registers(q@.map_values(|x: ShortcutRequest| x@), c@),
    {
        match parsed {
            Err(e) => {
                self.pending = None;
                Err(e)
            },
            Ok(c) => {
                let requests = collect_shortcuts(&c);
                self.pending = Some(c);
                Ok(requests)
            },
        }
    }

    /// Ends a reload with the outcome of registering its shortcuts. On
    /// success the staged configuration replaces the current one; on failure
    /// the current one stays. Either way nothing is staged afterwards, and
    /// the outcome is handed back.
    pub fn finish_reload(&mut self, registered: Result<(), Error>) -> (r: Result<(), Error>)
        requires
            old(self).wf(),
        ensures
            final(self).wf(),
            final(self)@ == reload_finished(old(self)@, registered is Ok),
            r == registered,
    {
        let pending = self.pending.take();
        match pending {
            Some(c) => {
                if registered.is_ok() {
                    self.current = c;
                }
            },
            None => {},
        }
        registered
    }
}

/// A reload whose configuration was parsed and registered leaves the store
/// using that configuration, not the one before it.
pub proof fn lemma_reload_installs(s: StoreView, c: Map<Seq<char>, BindView>)
    ensures
        reload_finished(reload_started(s, Some(c)), true).current == c,
        reload_finished(reload_started(s, Some(c)), true).pending is None,
{
}

/// A reload whose configuration could not be read or parsed leaves the
/// store using the configuration it used before, whatever follows.
pub proof fn lemma_failed_reload_keeps(s: StoreView, registered: bool)
    ensures
        reload_started(s, None).current == s.current,
        reload_finished(reload_started(s, None), registered).current == s.current,
{
}

/// A reload that rebinds `id` from `a1` to `a2` changes nothing for an
/// event resolved before its registration completes, while it is under
/// way included: that event runs `a1`. An event resolved after it runs `a2`.
pub proof fn lemma_reload_rebinds(
    s: StoreView,
    c: Map<Seq<char>, BindView>,
    id: Seq<char>,
    d: Direction,
    a1: ActionView,
    a2: ActionView,
)
    requires
        s.current.contains_key(id),
        action_for(s.current[id], d) == Some(a1),
        c.contains_key(id),
        action_for(c[id], d) == Some(a2),
    ensures
        resolve_spec(s.current, id, d) == DispatchView::Execute(a1),
        resolve_spec(reload_started(s, Some(c)).current, id, d) == DispatchView::Execute(a1),
        resolve_spec(reload_finished(reload_started(s, Some(c)), true).current, id, d)
            == DispatchView::Execute(a2),
{
}

} // verus!
