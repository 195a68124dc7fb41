//! The watchers of all sites.  Each site has a watcher of its own; a reply
//! goes to the watcher of the site that it came from and to no other.

use vstd::prelude::*;

use crate::api::TransportError;
use crate::site::ZulipSite;
use crate::watcher::{
    raw_view, read, started, stepped, Phase, Response, ResponseView, SiteWatcher, Step, StepView,
    WatcherView,
};

verus! {

/// The watchers of all sites, in the order in which they were launched.
#[derive(Debug, PartialEq, Eq)]
pub struct Supervisor {
    pub watchers: Vec<SiteWatcher>,
}

/// The views of a list of watchers.
pub open spec fn watchers_view(watchers: Seq<SiteWatcher>) -> Seq<WatcherView> {
    watchers.map_values(|watcher: SiteWatcher| watcher@)
}

impl View for Supervisor {
    type V = Seq<WatcherView>;

    open spec fn view(&self) -> Seq<WatcherView> {
        watchers_view(self.watchers@)
    }
}

/// The watchers after the watcher at `index` has been handed `response`,
/// and the step that it takes.  Where there is no watcher at `index`,
/// nothing changes and no step is taken.
pub open spec fn delivered(watchers: Seq<WatcherView>, index: int, response: ResponseView) -> (
    Seq<WatcherView>,
    Option<StepView>,
) {
    if 0 <= index < watchers.len() {
        (
            watchers.update(index, stepped(watchers[index], response).0),
            Some(stepped(watchers[index], response).1),
        )
    } else {
        (watchers, None)
    }
}

/// The watchers after the watcher at `index` has been handed what came of
/// its request, as it came, and the step that it takes.
pub open spec fn received(
    watchers: Seq<WatcherView>,
    index: int,
    reply: Result<Seq<char>, Seq<char>>,
) -> (Seq<WatcherView>, Option<StepView>) {
    if 0 <= index < watchers.len() {
        delivered(watchers, index, read(watchers[index].phase, reply))
    } else {
        (watchers, None)
    }
}

/// Whether a watcher has failed for good.
pub open spec fn any_stopped(watchers: Seq<WatcherView>) -> bool {
    exists|i: int| 0 <= i < watchers.len() && (#[trigger] watchers[i]).phase is Stopped
}

/// The exit code of the process: 1 where a watcher has failed for good, and
/// 0 where none has.
pub open spec fn exit_code_of(watchers: Seq<WatcherView>) -> int {
    if any_stopped(watchers) {
        1
    } else {
        0
    }
}

/// The view of a step that may not have been taken.
pub open spec fn step_view(step: Option<Step>) -> Option<StepView> {
    match step {
        Some(step) => Some(step@),
        None => None,
    }
}

impl Supervisor {
    /// A supervisor that watches no site yet.
    pub fn new() -> (supervisor: Supervisor)
        ensures
            supervisor@ == Seq::<WatcherView>::empty(),
    {
        let supervisor = Supervisor { watchers: Vec::new() };
        assert(supervisor@ =~= Seq::empty());
        supervisor
    }

    /// Launches a watcher for `site`, behind the watchers that are there,
    /// and takes its first step.
    pub fn launch(&mut self, site: ZulipSite) -> (step: Step)
        ensures
            final(self)@ == old(self)@.push(started(site@).0),
            step@ == started(site@).1,
    {
        let (watcher, step) = SiteWatcher::start(site);
        self.watchers.push(watcher);
        assert(self@ =~= old(self)@.push(started(site@).0));
        step
    }

    /// Hands `response` to the watcher at `index` and takes its next step.
    /// No other watcher is touched.  Where there is no watcher at `index`,
    /// nothing changes and the result is `None`.
    pub fn handle(&mut self, index: usize, response: Response) -> (step: Option<Step>)
        ensures
            (final(self)@, step_view(step)) == delivered(old(self)@, index as int, response@),
    {
        if index < self.watchers.len() {
            let step = self.watchers[index].handle(response);
            assert(self@ =~= old(self)@.update(
                index as int,
                stepped(old(self)@[index as int], response@).0,
            ));
            Some(step)
        } else {
            None
        }
    }

    /// Hands what came of a request to the watcher at `index`, as it came,
    /// and takes the watcher's next step.  No other watcher is touched.
    /// Where there is no watcher at `index`, nothing changes and the result
    /// is `None`.
    pub fn receive(&mut self, index: usize, reply: Result<String, TransportError>) -> (step:
        Option<Step>)
        ensures
            (final(self)@, step_view(step)) == received(old(self)@, index as int, raw_view(reply)),
    {
        if index < self.watchers.len() {
            let step = self.watchers[index].receive(reply);
            assert(self@ =~= received(old(self)@, index as int, raw_view(reply)).0);
            Some(step)
        } else {
            None
        }
    }

    /// The exit code of the process: 1 where a watcher has failed for good,
    /// and 0 where none has.
    pub fn exit_code(&self) -> (code: u8)
        ensures
            code == exit_code_of(self@),
    {
        let mut seen: usize = 0;
        while seen < self.watchers.len()
            invariant
                seen <= self.watchers.len(),
                forall|i: int| 0 <= i < seen ==> !((#[trigger] self@[i]).phase is Stopped),
            decreases self.watchers.len() - seen,
        {
            match &self.watchers[seen].phase {
                Phase::Stopped(_) => {
                    assert(self@[seen as int].phase is Stopped);
                    return 1;
                },
                _ => {},
            }
            seen = seen + 1;
        }
        0
    }
}

/// What one site is handed leaves every other site alone: its watcher is
/// as it was, whether the first site went on or failed.
pub proof fn other_sites_are_untouched(
    watchers: Seq<WatcherView>,
    index: int,
    response: ResponseView,
    other: int,
)
    requires
        0 <= other < watchers.len(),
        other != index,
    ensures
        delivered(watchers, index, response).0.len() == watchers.len(),
        delivered(watchers, index, response).0[other] == watchers[other],
{
}

/// What two different sites are handed can be handed in either order: the
/// watchers end up the same, and each site takes the step that it would
/// have taken had the other been handed nothing.
pub proof fn sites_do_not_interfere(
    watchers: Seq<WatcherView>,
    first: int,
    to_first: ResponseView,
    second: int,
    to_second: ResponseView,
)
    requires
        first != second,
    ensures
        delivered(delivered(watchers, first, to_first).0, second, to_second).0 == delivered(
            delivered(watchers, second, to_second).0,
            first,
            to_first,
        ).0,
        delivered(delivered(watchers, first, to_first).0, second, to_second).1 == delivered(
            watchers,
            second,
            to_second,
        ).1,
        delivered(delivered(watchers, second, to_second).0, first, to_first).1 == delivered(
            watchers,
            first,
            to_first,
        ).1,
{
    assert(delivered(delivered(watchers, first, to_first).0, second, to_second).0 =~= delivered(
        delivered(watchers, second, to_second).0,
        first,
        to_first,
    ).0);
}

} // verus!
