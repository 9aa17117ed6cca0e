//! An account of what a native layer holds for this crate.
//!
//! The requests of [`crate::protocol`] create and destroy native objects
//! and change which context is current on the thread. [`Ledger`] says what
//! an honest native layer holds after each of them. Against this account the
//! module proves that a context which construction hands out is the current
//! one, that a construction which fails leaves nothing behind, and that
//! building a context and releasing it again leaves nothing behind either.
//!
//! The account holds what this crate creates. A device context belongs to
//! its window, and the EGL binding is a value that its owner drops; neither
//! is counted.

use vstd::prelude::*;
use crate::context::{Context, Negotiation, Platform, Teardown};
use crate::protocol::{Handle, Reply, Request, NULL};

verus! {

/// What the native layer holds: how many display connections are open, how
/// many surfaces and rendering contexts exist, and which context is current
/// on the thread.
pub struct Ledger {
    pub displays: int,
    pub surfaces: int,
    pub contexts: int,
    pub current: Option<Handle>,
}

/// What a negotiation has obtained from the native layer and not given up.
pub struct Holdings {
    pub displays: int,
    pub surfaces: int,
    pub contexts: int,
}

impl Ledger {
    /// Nothing is held and no context is current.
    pub open spec fn empty() -> Ledger {
        Ledger { displays: 0, surfaces: 0, contexts: 0, current: None }
    }

    /// The account after the native layer has answered `request` with
    /// `reply`. A call that was refused changes nothing. Deleting the
    /// current rendering context of the device-context platform leaves the
    /// thread without a current context.
    pub open spec fn record(self, request: Request, reply: Reply) -> Ledger {
        match request {
            Request::Initialize { .. } => if reply.accepted() {
                Ledger { displays: self.displays + 1, ..self }
            } else {
                self
            },
            Request::CreateWindowSurface { .. } => if reply.handle() is Some {
                Ledger { surfaces: self.surfaces + 1, ..self }
            } else {
                self
            },
            Request::CreateContext { .. } => if reply.handle() is Some {
                Ledger { contexts: self.contexts + 1, ..self }
            } else {
                self
            },
            Request::CreateRenderContext { .. } => if reply.handle() is Some {
                Ledger { contexts: self.contexts + 1, ..self }
            } else {
                self
            },
            Request::MakeCurrent { context, .. } => if reply.accepted() {
                Ledger { current: if context != NULL { Some(context) } else { None }, ..self }
            } else {
                self
            },
            Request::MakeRenderContextCurrent { render, .. } => if reply.succeeded() {
                Ledger { current: if render != NULL { Some(render) } else { None }, ..self }
            } else {
                self
            },
            Request::DestroyContext { .. } => if reply.accepted() {
                Ledger { contexts: self.contexts - 1, ..self }
            } else {
                self
            },
            Request::DeleteRenderContext { render } => if reply.succeeded() {
                Ledger {
                    contexts: self.contexts - 1,
                    current: if self.current == Some(render) { None } else { self.current },
                    ..self
                }
            } else {
                self
            },
            Request::DestroySurface { .. } => if reply.accepted() {
                Ledger { surfaces: self.surfaces - 1, ..self }
            } else {
                self
            },
            Request::Terminate { .. } => if reply.accepted() {
                Ledger { displays: self.displays - 1, ..self }
            } else {
                self
            },
            _ => self,
        }
    }

    /// Two accounts hold the same number of objects of each kind.
    pub open spec fn holds_as_many_as(self, other: Ledger) -> bool {
        &&& self.displays == other.displays
        &&& self.surfaces == other.surfaces
        &&& self.contexts == other.contexts
    }
}

/// The native layer did what a release asked for.
pub open spec fn granted(request: Request, reply: Reply) -> bool {
    match request {
        Request::MakeRenderContextCurrent { .. } => reply.succeeded(),
        Request::DeleteRenderContext { .. } => reply.succeeded(),
        _ => reply.accepted(),
    }
}

/// The native context of a context: the object that is current on the
/// thread while the context lives. A window that owns its context keeps it
/// to itself.
pub open spec fn native_context(context: Context) -> Option<Handle> {
    match context {
        Context::DeviceContext { render, .. } => Some(render),
        Context::WindowDelegated { .. } => None,
        Context::Egl { context, .. } => Some(context),
    }
}

/// What a negotiation holds in each of its states.
pub open spec fn holdings(state: Negotiation) -> Holdings {
    match state {
        Negotiation::BindingRender { .. } => Holdings { displays: 0, surfaces: 0, contexts: 1 },
        Negotiation::DeletingRender { .. } => Holdings { displays: 0, surfaces: 0, contexts: 1 },
        Negotiation::ChoosingConfig { .. } => Holdings { displays: 1, surfaces: 0, contexts: 0 },
        Negotiation::CreatingSurface { .. } => Holdings { displays: 1, surfaces: 0, contexts: 0 },
        Negotiation::CreatingContext { .. } => Holdings { displays: 1, surfaces: 1, contexts: 0 },
        Negotiation::MakingCurrent { .. } => Holdings { displays: 1, surfaces: 1, contexts: 1 },
        Negotiation::DiscardingContext { .. } => Holdings { displays: 1, surfaces: 1, contexts: 1 },
        Negotiation::ReleasingSurface { .. } => Holdings { displays: 1, surfaces: 1, contexts: 0 },
        Negotiation::ClosingDisplay { .. } => Holdings { displays: 1, surfaces: 0, contexts: 0 },
        Negotiation::Current(Context::DeviceContext { .. }) => Holdings {
            displays: 0,
            surfaces: 0,
            contexts: 1,
        },
        Negotiation::Current(Context::Egl { .. }) => Holdings {
            displays: 1,
            surfaces: 1,
            contexts: 1,
        },
        _ => Holdings { displays: 0, surfaces: 0, contexts: 0 },
    }
}

/// The account after a negotiation that starts in `start` has had `replies`
/// for answers, each recorded against the request that was pending when it
/// came.
pub open spec fn construction_audit(start: Negotiation, ledger: Ledger, replies: Seq<Reply>) -> Ledger
    decreases replies.len(),
{
    if replies.len() == 0 {
        ledger
    } else {
        let recorded = match start.request() {
            Some(request) => ledger.record(request, replies[0]),
            None => ledger,
        };
        construction_audit(start.step(replies[0]), recorded, replies.skip(1))
    }
}

/// The account after a release that starts in `start` has had `replies` for
/// answers.
pub open spec fn teardown_audit(start: Teardown, ledger: Ledger, replies: Seq<Reply>) -> Ledger
    decreases replies.len(),
{
    if replies.len() == 0 {
        ledger
    } else {
        let recorded = match start.request() {
            Some(request) => ledger.record(request, replies[0]),
            None => ledger,
        };
        teardown_audit(start.step(replies[0]), recorded, replies.skip(1))
    }
}

/// Whether a request gives up something that the native layer holds.
pub open spec fn is_release(request: Request) -> bool {
    match request {
        Request::DeleteRenderContext { .. } => true,
        Request::DestroyContext { .. } => true,
        Request::DestroySurface { .. } => true,
        Request::Terminate { .. } => true,
        _ => false,
    }
}

/// The native layer granted every release that the negotiation asked for
/// while it had `replies` for answers.
pub open spec fn grants_releases(start: Negotiation, replies: Seq<Reply>) -> bool
    decreases replies.len(),
{
    if replies.len() == 0 {
        true
    } else {
        &&& match start.request() {
            Some(request) => is_release(request) ==> granted(request, replies[0]),
            None => true,
        }
        &&& grants_releases(start.step(replies[0]), replies.skip(1))
    }
}

/// There is one answer for each release of the plan of `context`, and every
/// release was granted.
pub open spec fn releases_granted(context: Context, replies: Seq<Reply>) -> bool {
    &&& replies.len() == context.release_plan().len()
    &&& forall|i: int|
        0 <= i < replies.len() ==> granted(#[trigger] context.release_plan()[i], replies[i])
}

/// Once construction has ended, answers are recorded against nothing.
pub proof fn lemma_audit_of_finished(end: Negotiation, ledger: Ledger, replies: Seq<Reply>)
    requires
        end.finished(),
    ensures
        construction_audit(end, ledger, replies) == ledger,
    decreases replies.len(),
{
    if replies.len() > 0 {
        lemma_audit_of_finished(end, ledger, replies.skip(1));
    }
}

/// A context that construction hands out is current on the thread.
///
/// Whatever the driver answers: if the negotiation for a platform with a
/// native context of its own ends with a context, then by the account of the
/// native layer the native context of that context is the current one, and
/// it is well-formed. If it ends without one, [`Context::new`] yields
/// nothing.
pub proof fn lemma_built_context_is_current(
    platform: Platform,
    window: Handle,
    ledger: Ledger,
    replies: Seq<Reply>,
)
    ensures
        Negotiation::initial(platform, window).run(replies).wf(),
        Negotiation::initial(platform, window).run(replies) matches Negotiation::Current(context)
            ==> context.wf() && context.platform() == platform && (platform
            != Platform::WindowDelegated ==> construction_audit(
            Negotiation::initial(platform, window),
            ledger,
            replies,
        ).current == native_context(context)),
{
    let start = Negotiation::initial(platform, window);
    lemma_run_keeps_platform(start, platform, replies);
    if start.run(replies) is Current && platform != Platform::WindowDelegated {
        lemma_current_after_binding(start, ledger, replies);
    }
}

/// The platform that a state belongs to, where it belongs to one.
pub open spec fn belongs_to(state: Negotiation, platform: Platform) -> bool {
    match state {
        Negotiation::AcquiringDevice { .. }
        | Negotiation::ChoosingFormat { .. }
        | Negotiation::ApplyingFormat { .. }
        | Negotiation::CreatingRender { .. }
        | Negotiation::BindingRender { .. }
        | Negotiation::DeletingRender { .. } => platform == Platform::DeviceContext,
        Negotiation::LoadingBinding { .. }
        | Negotiation::OpeningDisplay { .. }
        | Negotiation::Initializing { .. }
        | Negotiation::ChoosingConfig { .. }
        | Negotiation::CreatingSurface { .. }
        | Negotiation::CreatingContext { .. }
        | Negotiation::MakingCurrent { .. }
        | Negotiation::DiscardingContext { .. }
        | Negotiation::ReleasingSurface { .. }
        | Negotiation::ClosingDisplay { .. } => platform == Platform::Egl,
        Negotiation::Current(context) => context.platform() == platform,
        Negotiation::Failed => true,
    }
}

/// A negotiation stays well-formed and on its platform.
proof fn lemma_run_keeps_platform(start: Negotiation, platform: Platform, replies: Seq<Reply>)
    requires
        start.wf(),
        belongs_to(start, platform),
    ensures
        start.run(replies).wf(),
        belongs_to(start.run(replies), platform),
    decreases replies.len(),
{
    if replies.len() > 0 {
        lemma_run_keeps_platform(start.step(replies[0]), platform, replies.skip(1));
    }
}

/// The answer that ends a negotiation with a context is the one that made
/// its native context current.
proof fn lemma_current_after_binding(start: Negotiation, ledger: Ledger, replies: Seq<Reply>)
    requires
        start.wf(),
        !(start is Current),
        start.run(replies) is Current,
    ensures
        construction_audit(start, ledger, replies).current == native_context(
            start.run(replies)->Current_0,
        ),
    decreases replies.len(),
{
    if replies.len() > 0 {
        let next = start.step(replies[0]);
        let recorded = match start.request() {
            Some(request) => ledger.record(request, replies[0]),
            None => ledger,
        };
        if next is Current {
            crate::context::lemma_finished_is_final(next, replies.skip(1));
            lemma_audit_of_finished(next, recorded, replies.skip(1));
        } else {
            lemma_current_after_binding(next, recorded, replies.skip(1));
        }
    }
}

/// While the native layer grants the releases that a negotiation asks for,
/// the account changes by exactly what the negotiation comes to hold and
/// gives up: nothing that was created is lost sight of.
proof fn lemma_audit_follows_holdings(start: Negotiation, ledger: Ledger, replies: Seq<Reply>)
    requires
        start.wf(),
        grants_releases(start, replies),
    ensures
        ({
            let after = construction_audit(start, ledger, replies);
            let end = start.run(replies);
            &&& after.displays == ledger.displays + holdings(end).displays - holdings(
                start,
            ).displays
            &&& after.surfaces == ledger.surfaces + holdings(end).surfaces - holdings(
                start,
            ).surfaces
            &&& after.contexts == ledger.contexts + holdings(end).contexts - holdings(
                start,
            ).contexts
        }),
    decreases replies.len(),
{
    if replies.len() > 0 {
        let next = start.step(replies[0]);
        let recorded = match start.request() {
            Some(request) => ledger.record(request, replies[0]),
            None => ledger,
        };
        lemma_audit_follows_holdings(next, recorded, replies.skip(1));
    }
}

/// A negotiation that does not end with a context makes no context current:
/// whichever context is current afterwards was current before.
proof fn lemma_unbuilt_keeps_current(start: Negotiation, ledger: Ledger, replies: Seq<Reply>)
    requires
        start.wf(),
        !(start.run(replies) is Current),
    ensures
        ({
            let after = construction_audit(start, ledger, replies);
            after.current is Some ==> after.current == ledger.current
        }),
    decreases replies.len(),
{
    if replies.len() > 0 {
        let next = start.step(replies[0]);
        let recorded = match start.request() {
            Some(request) => ledger.record(request, replies[0]),
            None => ledger,
        };
        if next is Current {
            crate::context::lemma_finished_is_final(next, replies.skip(1));
        } else {
            lemma_unbuilt_keeps_current(next, recorded, replies.skip(1));
        }
    }
}

/// A construction that fails leaves nothing behind.
///
/// Let construction on a platform end without a context, and let the native
/// layer have granted every release that it was asked for on the way. Then
/// the native layer holds as many display connections, surfaces and
/// contexts as before construction began, and no context is current that
/// was not current before.
pub proof fn lemma_failed_construction_leaves_nothing(
    platform: Platform,
    window: Handle,
    ledger: Ledger,
    replies: Seq<Reply>,
)
    requires
        Negotiation::initial(platform, window).run(replies) is Failed,
        grants_releases(Negotiation::initial(platform, window), replies),
    ensures
        ({
            let after = construction_audit(
                Negotiation::initial(platform, window),
                ledger,
                replies,
            );
            &&& after.holds_as_many_as(ledger)
            &&& after.current is Some ==> after.current == ledger.current
        }),
{
    let start = Negotiation::initial(platform, window);
    lemma_audit_follows_holdings(start, ledger, replies);
    lemma_unbuilt_keeps_current(start, ledger, replies);
}

/// Releasing a context whose every release is granted gives back exactly
/// what the context holds and leaves the thread without its native context.
proof fn lemma_teardown_returns_holdings(context: Context, ledger: Ledger, replies: Seq<Reply>)
    requires
        context.wf(),
        releases_granted(context, replies),
        native_context(context) is Some ==> ledger.current == native_context(context),
    ensures
        ({
            let after = teardown_audit(Teardown::initial(context), ledger, replies);
            let held = holdings(Negotiation::Current(context));
            &&& after.displays == ledger.displays - held.displays
            &&& after.surfaces == ledger.surfaces - held.surfaces
            &&& after.contexts == ledger.contexts - held.contexts
            &&& native_context(context) is Some ==> after.current is None
        }),
{
    crate::context::lemma_release_order(context);
    reveal_with_fuel(teardown_audit, 5);
    let plan = context.release_plan();
    match context {
        Context::DeviceContext { .. } => {
            assert(granted(plan[0], replies[0]));
            assert(granted(plan[1], replies[1]));
            let r1 = replies.skip(1);
            assert(r1[0] == replies[1]);
            assert(r1.skip(1).len() == 0);
        },
        Context::WindowDelegated { .. } => {},
        Context::Egl { .. } => {
            assert(granted(plan[0], replies[0]));
            assert(granted(plan[1], replies[1]));
            assert(granted(plan[2], replies[2]));
            assert(granted(plan[3], replies[3]));
            let t0 = Teardown::initial(context);
            let r1 = replies.skip(1);
            let r2 = r1.skip(1);
            let r3 = r2.skip(1);
            assert(r1[0] == replies[1]);
            assert(r2[0] == replies[2]);
            assert(r3[0] == replies[3]);
            assert(r3.skip(1).len() == 0);
        },
    }
}

/// Building a context and releasing it at once leaves nothing behind.
///
/// Let construction on a platform end with a context, whatever the driver
/// refused on the way; and let the native layer grant every release that it
/// is asked for, during construction and after it. Then the native layer holds as many display connections,
/// surfaces and contexts as before construction began, and where the
/// platform has a native context of its own, none is current any more.
pub proof fn lemma_round_trip_leaves_nothing(
    platform: Platform,
    window: Handle,
    ledger: Ledger,
    built: Seq<Reply>,
    released: Seq<Reply>,
)
    requires
        Negotiation::initial(platform, window).run(built) is Current,
        grants_releases(Negotiation::initial(platform, window), built),
        releases_granted(Negotiation::initial(platform, window).run(built)->Current_0, released),
    ensures
        ({
            let start = Negotiation::initial(platform, window);
            let context = start.run(built)->Current_0;
            let after = teardown_audit(
                Teardown::initial(context),
                construction_audit(start, ledger, built),
                released,
            );
            &&& after.holds_as_many_as(ledger)
            &&& platform != Platform::WindowDelegated ==> after.current is None
        }),
{
    let start = Negotiation::initial(platform, window);
    let context = start.run(built)->Current_0;
    let middle = construction_audit(start, ledger, built);
    lemma_built_context_is_current(platform, window, ledger, built);
    lemma_audit_follows_holdings(start, ledger, built);
    lemma_teardown_returns_holdings(context, middle, released);
}

/// One construction followed by the release of what it built: the answers
/// to the one and to the other.
pub struct RoundTrip {
    pub built: Seq<Reply>,
    pub released: Seq<Reply>,
}

impl RoundTrip {
    /// The round trip built a context and released all of it, in the sense
    /// of [`lemma_round_trip_leaves_nothing`].
    pub open spec fn clean(self, platform: Platform, window: Handle) -> bool {
        let end = Negotiation::initial(platform, window).run(self.built);
        &&& end is Current
        &&& grants_releases(Negotiation::initial(platform, window), self.built)
        &&& releases_granted(end->Current_0, self.released)
    }

    /// The account after the round trip.
    pub open spec fn audit(self, platform: Platform, window: Handle, ledger: Ledger) -> Ledger {
        let start = Negotiation::initial(platform, window);
        let built = construction_audit(start, ledger, self.built);
        match start.run(self.built) {
            Negotiation::Current(context) => teardown_audit(
                Teardown::initial(context),
                built,
                self.released,
            ),
            _ => built,
        }
    }
}

/// The account after a number of round trips, one after the other.
pub open spec fn audit_round_trips(
    platform: Platform,
    window: Handle,
    ledger: Ledger,
    trips: Seq<RoundTrip>,
) -> Ledger
    decreases trips.len(),
{
    if trips.len() == 0 {
        ledger
    } else {
        audit_round_trips(
            platform,
            window,
            trips[0].audit(platform, window, ledger),
            trips.skip(1),
        )
    }
}

/// Any number of clean round trips leaves the native layer holding what it
/// held before the first: starting from nothing, it holds nothing again.
pub proof fn lemma_round_trips_leave_nothing(
    platform: Platform,
    window: Handle,
    ledger: Ledger,
    trips: Seq<RoundTrip>,
)
    requires
        forall|i: int| 0 <= i < trips.len() ==> (#[trigger] trips[i]).clean(platform, window),
    ensures
        audit_round_trips(platform, window, ledger, trips).holds_as_many_as(ledger),
        ledger.holds_as_many_as(Ledger::empty()) ==> audit_round_trips(
            platform,
            window,
            ledger,
            trips,
        ).holds_as_many_as(Ledger::empty()),
    decreases trips.len(),
{
    if trips.len() > 0 {
        let trip = trips[0];
        assert(trip.clean(platform, window));
        lemma_round_trip_leaves_nothing(platform, window, ledger, trip.built, trip.released);
        let next = trip.audit(platform, window, ledger);
        assert forall|i: int| 0 <= i < trips.skip(1).len() implies (#[trigger] trips.skip(
            1,
        )[i]).clean(platform, window) by {
            assert(trips.skip(1)[i] == trips[i + 1]);
        }
        lemma_round_trips_leave_nothing(platform, window, next, trips.skip(1));
    }
}

} // verus!
