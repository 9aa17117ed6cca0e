//! The rendering context of one thread: how it comes to exist, what it asks
//! of the native layer while it lives, and how it is released.
//!
//! Construction is a negotiation with a driver whose capabilities are not
//! known in advance. [`Negotiation`] holds how far it has come. The caller
//! performs the request that is [`Negotiation::pending`], hands the answer
//! to [`Negotiation::supply`], and goes on until nothing is pending.
//! [`Context::new`] then yields a context exactly when the negotiation has
//! ended with a context current on the thread. A negotiation that ends
//! without one has asked for the release of everything that it had created
//! on the way.

use vstd::prelude::*;
use crate::egl::{
    context_version,
    context_versions,
    surface_candidate,
    surface_candidates,
    CONTEXT_VERSION_COUNT,
    DEFAULT_DISPLAY,
    SURFACE_CANDIDATE_COUNT,
};
use crate::pixel_format::{desktop_request, requested_format};
use crate::protocol::{ContextVersion, Handle, Reply, Request, SurfaceCandidate, NULL};

verus! {

/// The three native object models behind a context.
#[derive(Clone, Copy, Debug, PartialEq, Eq, Structural)]
pub enum Platform {
    /// A device context of the window carries a rendering context.
    DeviceContext,
    /// The window owns surface and context; the context only refers to it.
    WindowDelegated,
    /// Display, configuration, surface and context are EGL objects.
    Egl,
}

/// A rendering context that is current on the thread that built it.
#[derive(Clone, Copy, Debug, PartialEq, Eq, Structural)]
pub enum Context {
    /// The device context of the window and the rendering context on it.
    DeviceContext { window: Handle, device: Handle, render: Handle },
    /// The window, which keeps surface and context to itself.
    WindowDelegated { window: Handle },
    /// The EGL objects that were negotiated for the window.
    Egl {
        window: Handle,
        display: Handle,
        config: Handle,
        surface: Handle,
        context: Handle,
        /// The surface candidate whose configuration the surface has.
        candidate: SurfaceCandidate,
        /// The version that the context was created for.
        version: ContextVersion,
    },
}

/// How far the construction of a context has come.
///
/// Every state but the last two waits for the answer to one request.
/// `candidate` and `version` are positions in the two priority lists of
/// [`crate::egl`]. Construction gives nothing up without releasing it: a
/// context that the driver created and would not make current is destroyed
/// before the next version is tried, and before construction fails it
/// releases whatever it still holds.
#[derive(Clone, Copy, Debug, PartialEq, Eq, Structural)]
pub enum Negotiation {
    /// Device-context platform: the device context of the window is asked
    /// for.
    AcquiringDevice { window: Handle },
    /// A pixel format is looked for.
    ChoosingFormat { window: Handle, device: Handle },
    /// The pixel format that was found is applied.
    ApplyingFormat { window: Handle, device: Handle, format: i32 },
    /// A rendering context is created.
    CreatingRender { window: Handle, device: Handle },
    /// The rendering context is made current.
    BindingRender { window: Handle, device: Handle, render: Handle },
    /// The rendering context could not be made current and is deleted;
    /// construction fails after that.
    DeletingRender { render: Handle },
    /// EGL-mediated platform: the binding is loaded.
    LoadingBinding { window: Handle },
    /// The default display is asked for.
    OpeningDisplay { window: Handle },
    /// The display connection is initialised.
    Initializing { window: Handle, display: Handle },
    /// A configuration is asked for the surface candidate at `candidate`.
    ChoosingConfig { window: Handle, display: Handle, candidate: usize },
    /// A window surface is created with the configuration that was found.
    CreatingSurface { window: Handle, display: Handle, config: Handle, candidate: usize },
    /// A context is created for the version at `version`.
    CreatingContext {
        window: Handle,
        display: Handle,
        config: Handle,
        surface: Handle,
        candidate: usize,
        version: usize,
    },
    /// The context that was created is made current.
    MakingCurrent {
        window: Handle,
        display: Handle,
        config: Handle,
        surface: Handle,
        context: Handle,
        candidate: usize,
        version: usize,
    },
    /// The context could not be made current and is destroyed; the next
    /// version is tried after that.
    DiscardingContext {
        window: Handle,
        display: Handle,
        config: Handle,
        surface: Handle,
        context: Handle,
        candidate: usize,
        version: usize,
    },
    /// No version is left: the surface is destroyed, then the display
    /// connection is closed.
    ReleasingSurface { display: Handle, surface: Handle },
    /// The display connection is closed; construction fails after that.
    ClosingDisplay { display: Handle },
    /// Construction has succeeded: the context is current.
    Current(Context),
    /// Construction has been given up, and nothing of it is left.
    Failed,
}

impl Negotiation {
    /// The state in which construction starts.
    pub open spec fn initial(platform: Platform, window: Handle) -> Negotiation {
        match platform {
            Platform::DeviceContext => Negotiation::AcquiringDevice { window },
            Platform::WindowDelegated => Negotiation::Current(Context::WindowDelegated { window }),
            Platform::Egl => Negotiation::LoadingBinding { window },
        }
    }

    /// Every position lies inside its priority list, and every handle that
    /// a state has obtained from a successful call is a handle.
    pub open spec fn wf(self) -> bool {
        match self {
            Negotiation::ChoosingFormat { device, .. } => device != NULL,
            Negotiation::ApplyingFormat { device, format, .. } => device != NULL && format != 0,
            Negotiation::CreatingRender { device, .. } => device != NULL,
            Negotiation::BindingRender { device, render, .. } => device != NULL && render != NULL,
            Negotiation::DeletingRender { render } => render != NULL,
            Negotiation::Initializing { display, .. } => display != NULL,
            Negotiation::ChoosingConfig { display, candidate, .. } => display != NULL && candidate
                < SURFACE_CANDIDATE_COUNT,
            Negotiation::CreatingSurface { display, config, candidate, .. } => {
                &&& display != NULL
                &&& config != NULL
                &&& candidate < SURFACE_CANDIDATE_COUNT
            },
            Negotiation::CreatingContext { display, config, surface, candidate, version, .. } => {
                &&& display != NULL
                &&& config != NULL
                &&& surface != NULL
                &&& candidate < SURFACE_CANDIDATE_COUNT
                &&& version < CONTEXT_VERSION_COUNT
            },
            Negotiation::MakingCurrent {
                display,
                config,
                surface,
                context,
                candidate,
                version,
                ..
            } => {
                &&& display != NULL
                &&& config != NULL
                &&& surface != NULL
                &&& context != NULL
                &&& candidate < SURFACE_CANDIDATE_COUNT
                &&& version < CONTEXT_VERSION_COUNT
            },
            Negotiation::DiscardingContext {
                display,
                config,
                surface,
                context,
                candidate,
                version,
                ..
            } => {
                &&& display != NULL
                &&& config != NULL
                &&& surface != NULL
                &&& context != NULL
                &&& candidate < SURFACE_CANDIDATE_COUNT
                &&& version < CONTEXT_VERSION_COUNT
            },
            Negotiation::ReleasingSurface { display, surface } => display != NULL && surface
                != NULL,
            Negotiation::ClosingDisplay { display } => display != NULL,
            Negotiation::Current(context) => context.wf(),
            _ => true,
        }
    }

    /// Construction has ended, one way or the other.
    pub open spec fn finished(self) -> bool {
        self is Current || self is Failed
    }

    /// An upper bound on the number of requests that are still to be made
    /// before construction ends.
    pub open spec fn remaining(self) -> nat {
        match self {
            Negotiation::AcquiringDevice { .. } => 6,
            Negotiation::ChoosingFormat { .. } => 5,
            Negotiation::ApplyingFormat { .. } => 4,
            Negotiation::CreatingRender { .. } => 3,
            Negotiation::BindingRender { .. } => 2,
            Negotiation::DeletingRender { .. } => 1,
            Negotiation::LoadingBinding { .. } => 26,
            Negotiation::OpeningDisplay { .. } => 25,
            Negotiation::Initializing { .. } => 24,
            Negotiation::ChoosingConfig { candidate, .. } => (15 + SURFACE_CANDIDATE_COUNT
                - candidate) as nat,
            Negotiation::CreatingSurface { .. } => 15,
            Negotiation::CreatingContext { version, .. } => (3 * (CONTEXT_VERSION_COUNT
                - version) + 2) as nat,
            Negotiation::MakingCurrent { version, .. } => (3 * (CONTEXT_VERSION_COUNT - version)
                + 1) as nat,
            Negotiation::DiscardingContext { version, .. } => (3 * (CONTEXT_VERSION_COUNT
                - version)) as nat,
            Negotiation::ReleasingSurface { .. } => 2,
            Negotiation::ClosingDisplay { .. } => 1,
            Negotiation::Current(_) => 0,
            Negotiation::Failed => 0,
        }
    }

    /// The context that construction has produced.
    pub open spec fn outcome(self) -> Option<Context> {
        match self {
            Negotiation::Current(context) => Some(context),
            _ => None,
        }
    }

    /// The request whose answer a state waits for.
    pub open spec fn request(self) -> Option<Request> {
        match self {
            Negotiation::AcquiringDevice { window } => Some(Request::GetDeviceContext { window }),
            Negotiation::ChoosingFormat { device, .. } => Some(
                Request::ChoosePixelFormat { device, descriptor: requested_format() },
            ),
            Negotiation::ApplyingFormat { device, format, .. } => Some(
                Request::SetPixelFormat { device, format, descriptor: requested_format() },
            ),
            Negotiation::CreatingRender { device, .. } => Some(
                Request::CreateRenderContext { device },
            ),
            Negotiation::BindingRender { device, render, .. } => Some(
                Request::MakeRenderContextCurrent { device, render },
            ),
            Negotiation::DeletingRender { render } => Some(Request::DeleteRenderContext { render }),
            Negotiation::LoadingBinding { .. } => Some(Request::LoadBinding),
            Negotiation::OpeningDisplay { .. } => Some(
                Request::GetDisplay { native_display: DEFAULT_DISPLAY },
            ),
            Negotiation::Initializing { display, .. } => Some(Request::Initialize { display }),
            Negotiation::ChoosingConfig { display, candidate, .. } => if candidate
                < SURFACE_CANDIDATE_COUNT {
                Some(
                    Request::ChooseConfig {
                        display,
                        candidate: surface_candidates()[candidate as int],
                    },
                )
            } else {
                None
            },
            Negotiation::CreatingSurface { window, display, config, .. } => Some(
                Request::CreateWindowSurface { display, config, window },
            ),
            Negotiation::CreatingContext { display, config, version, .. } => if version
                < CONTEXT_VERSION_COUNT {
                Some(
                    Request::CreateContext {
                        display,
                        config,
                        share: NULL,
                        version: context_versions()[version as int],
                    },
                )
            } else {
                None
            },
            Negotiation::MakingCurrent { display, surface, context, .. } => Some(
                Request::MakeCurrent { display, draw: surface, read: surface, context },
            ),
            Negotiation::DiscardingContext { display, context, .. } => Some(
                Request::DestroyContext { display, context },
            ),
            Negotiation::ReleasingSurface { display, surface } => Some(
                Request::DestroySurface { display, surface },
            ),
            Negotiation::ClosingDisplay { display } => Some(Request::Terminate { display }),
            Negotiation::Current(_) => None,
            Negotiation::Failed => None,
        }
    }

    /// Where the walk over the context versions goes after the version at
    /// `version` has been turned down and nothing of it is left: to the next
    /// one, or, after the last, to the release of the surface and the
    /// display.
    pub open spec fn after_version(
        window: Handle,
        display: Handle,
        config: Handle,
        surface: Handle,
        candidate: usize,
        version: usize,
    ) -> Negotiation {
        if version + 1 < CONTEXT_VERSION_COUNT {
            Negotiation::CreatingContext {
                window,
                display,
                config,
                surface,
                candidate,
                version: (version + 1) as usize,
            }
        } else {
            Negotiation::ReleasingSurface { display, surface }
        }
    }

    /// The state that follows when the pending request is answered by `reply`.
    ///
    /// A reply of a kind that the request cannot have counts as a refusal.
    ///
    /// On the device-context platform every refusal ends construction; a
    /// rendering context that was created and is refused at being made
    /// current is deleted first.
    ///
    /// On the EGL-mediated platform construction ends at once if there is
    /// no binding, if no display can be had, or if the display connection
    /// cannot be initialised. A configuration query without a match moves
    /// to the next surface candidate. A context that cannot be created
    /// moves to the next version; one that was created and cannot be made
    /// current is destroyed, and then the next version is tried. Every other
    /// refusal ends construction, and so does the end of either list. Before
    /// construction ends without a context, the surface is destroyed if
    /// there is one, and the display connection is closed if it was
    /// initialised.
    ///
    /// What a release is answered does not matter: construction goes on as
    /// if it had been granted.
    pub open spec fn step(self, reply: Reply) -> Negotiation {
        match self {
            Negotiation::AcquiringDevice { window } => match reply.handle() {
                Some(device) => Negotiation::ChoosingFormat { window, device },
                None => Negotiation::Failed,
            },
            Negotiation::ChoosingFormat { window, device } => match reply.pixel_format() {
                Some(format) => Negotiation::ApplyingFormat { window, device, format },
                None => Negotiation::Failed,
            },
            Negotiation::ApplyingFormat { window, device, .. } => if reply.succeeded() {
                Negotiation::CreatingRender { window, device }
            } else {
                Negotiation::Failed
            },
            Negotiation::CreatingRender { window, device } => match reply.handle() {
                Some(render) => Negotiation::BindingRender { window, device, render },
                None => Negotiation::Failed,
            },
            Negotiation::BindingRender { window, device, render } => if reply.succeeded() {
                Negotiation::Current(Context::DeviceContext { window, device, render })
            } else {
                Negotiation::DeletingRender { render }
            },
            Negotiation::DeletingRender { .. } => Negotiation::Failed,
            Negotiation::LoadingBinding { window } => match reply.handle() {
                Some(_) => Negotiation::OpeningDisplay { window },
                None => Negotiation::Failed,
            },
            Negotiation::OpeningDisplay { window } => match reply.handle() {
                Some(display) => Negotiation::Initializing { window, display },
                None => Negotiation::Failed,
            },
            Negotiation::Initializing { window, display } => if reply.accepted() {
                Negotiation::ChoosingConfig { window, display, candidate: 0 }
            } else {
                Negotiation::Failed
            },
            Negotiation::ChoosingConfig { window, display, candidate } => match reply.configuration(
            ) {
                Some(config) => Negotiation::CreatingSurface { window, display, config, candidate },
                None => if candidate + 1 < SURFACE_CANDIDATE_COUNT {
                    Negotiation::ChoosingConfig {
                        window,
                        display,
                        candidate: (candidate + 1) as usize,
                    }
                } else {
                    Negotiation::ClosingDisplay { display }
                },
            },
            Negotiation::CreatingSurface { window, display, config, candidate } => match reply.handle(
            ) {
                Some(surface) => Negotiation::CreatingContext {
                    window,
                    display,
                    config,
                    surface,
                    candidate,
                    version: 0,
                },
                None => Negotiation::ClosingDisplay { display },
            },
            Negotiation::CreatingContext {
                window,
                display,
                config,
                surface,
                candidate,
                version,
            } => match reply.handle() {
                Some(context) => Negotiation::MakingCurrent {
                    window,
                    display,
                    config,
                    surface,
                    context,
                    candidate,
                    version,
                },
                None => Negotiation::after_version(
                    window,
                    display,
                    config,
                    surface,
                    candidate,
                    version,
                ),
            },
            Negotiation::MakingCurrent {
                window,
                display,
                config,
                surface,
                context,
                candidate,
                version,
            } => if reply.accepted() && candidate < SURFACE_CANDIDATE_COUNT && version
                < CONTEXT_VERSION_COUNT {
                Negotiation::Current(
                    Context::Egl {
                        window,
                        display,
                        config,
                        surface,
                        context,
                        candidate: surface_candidates()[candidate as int],
                        version: context_versions()[version as int],
                    },
                )
            } else {
                Negotiation::DiscardingContext {
                    window,
                    display,
                    config,
                    surface,
                    context,
                    candidate,
                    version,
                }
            },
            Negotiation::DiscardingContext {
                window,
                display,
                config,
                surface,
                candidate,
                version,
                ..
            } => Negotiation::after_version(window, display, config, surface, candidate, version),
            Negotiation::ReleasingSurface { display, .. } => Negotiation::ClosingDisplay {
                display,
            },
            Negotiation::ClosingDisplay { .. } => Negotiation::Failed,
            Negotiation::Current(context) => Negotiation::Current(context),
            Negotiation::Failed => Negotiation::Failed,
        }
    }

    /// The state after a whole sequence of replies, each answering the
    /// request that was pending when it came.
    pub open spec fn run(self, replies: Seq<Reply>) -> Negotiation
        decreases replies.len(),
    {
        if replies.len() == 0 {
            self
        } else {
            self.step(replies[0]).run(replies.skip(1))
        }
    }

    /// Starts the construction of a context for a window.
    pub fn begin(platform: Platform, window: Handle) -> (start: Negotiation)
        ensures
            start == Negotiation::initial(platform, window),
            start.wf(),
            start.remaining() <= 26,
    {
        match platform {
            Platform::DeviceContext => Negotiation::AcquiringDevice { window },
            Platform::WindowDelegated => Negotiation::Current(Context::WindowDelegated { window }),
            Platform::Egl => Negotiation::LoadingBinding { window },
        }
    }

    /// The request that the native layer has to perform next, or nothing
    /// once construction has ended.
    pub fn pending(&self) -> (request: Option<Request>)
        ensures
            request == self.request(),
            self.wf() ==> (request is None <==> self.finished()),
    {
        match *self {
            Negotiation::AcquiringDevice { window } => Some(Request::GetDeviceContext { window }),
            Negotiation::ChoosingFormat { device, .. } => Some(
                Request::ChoosePixelFormat { device, descriptor: desktop_request() },
            ),
            Negotiation::ApplyingFormat { device, format, .. } => Some(
                Request::SetPixelFormat { device, format, descriptor: desktop_request() },
            ),
            Negotiation::CreatingRender { device, .. } => Some(
                Request::CreateRenderContext { device },
            ),
            Negotiation::BindingRender { device, render, .. } => Some(
                Request::MakeRenderContextCurrent { device, render },
            ),
            Negotiation::DeletingRender { render } => Some(Request::DeleteRenderContext { render }),
            Negotiation::LoadingBinding { .. } => Some(Request::LoadBinding),
            Negotiation::OpeningDisplay { .. } => Some(
                Request::GetDisplay { native_display: DEFAULT_DISPLAY },
            ),
            Negotiation::Initializing { display, .. } => Some(Request::Initialize { display }),
            Negotiation::ChoosingConfig { display, candidate, .. } => match surface_candidate(
                candidate,
            ) {
                Some(candidate) => Some(Request::ChooseConfig { display, candidate }),
                None => None,
            },
            Negotiation::CreatingSurface { window, display, config, .. } => Some(
                Request::CreateWindowSurface { display, config, window },
            ),
            Negotiation::CreatingContext { display, config, version, .. } => match context_version(
                version,
            ) {
                Some(version) => Some(
                    Request::CreateContext { display, config, share: NULL, version },
                ),
                None => None,
            },
            Negotiation::MakingCurrent { display, surface, context, .. } => Some(
                Request::MakeCurrent { display, draw: surface, read: surface, context },
            ),
            Negotiation::DiscardingContext { display, context, .. } => Some(
                Request::DestroyContext { display, context },
            ),
            Negotiation::ReleasingSurface { display, surface } => Some(
                Request::DestroySurface { display, surface },
            ),
            Negotiation::ClosingDisplay { display } => Some(Request::Terminate { display }),
            Negotiation::Current(_) => None,
            Negotiation::Failed => None,
        }
    }

    /// Takes a whole sequence of answers, each for the request that is
    /// pending when its turn comes.
    pub fn replay(self, replies: &Vec<Reply>) -> (end: Negotiation)
        ensures
            end == self.run(replies@),
            self.wf() ==> end.wf(),
    {
        let mut state = self;
        let mut index: usize = 0;
        assert(replies@.take(0) =~= Seq::<Reply>::empty());
        while index < replies.len()
            invariant
                index <= replies.len(),
                state == self.run(replies@.take(index as int)),
                self.wf() ==> state.wf(),
            decreases replies.len() - index,
        {
            proof {
                let done = replies@.take(index as int);
                let one = seq![replies@[index as int]];
                lemma_run_concat(self, done, one);
                assert(done + one =~= replies@.take(index + 1));
                assert(one.skip(1) =~= Seq::<Reply>::empty());
                assert(state.run(one) == state.step(one[0]).run(one.skip(1)));
            }
            state = state.supply(replies[index]);
            index += 1;
        }
        assert(replies@.take(replies.len() as int) =~= replies@);
        state
    }

    /// Takes the answer to the pending request and moves on. Every answer
    /// brings the end of construction nearer, so that a caller who performs
    /// what is pending and supplies the answer is done after at most
    /// twenty-six requests.
    pub fn supply(self, reply: Reply) -> (next: Negotiation)
        ensures
            next == self.step(reply),
            self.wf() ==> next.wf(),
            self.wf() && !self.finished() ==> next.remaining() < self.remaining(),
    {
        match self {
            Negotiation::AcquiringDevice { window } => match reply.get_handle() {
                Some(device) => Negotiation::ChoosingFormat { window, device },
                None => Negotiation::Failed,
            },
            Negotiation::ChoosingFormat { window, device } => match reply.get_pixel_format() {
                Some(format) => Negotiation::ApplyingFormat { window, device, format },
                None => Negotiation::Failed,
            },
            Negotiation::ApplyingFormat { window, device, .. } => if reply.is_succeeded() {
                Negotiation::CreatingRender { window, device }
            } else {
                Negotiation::Failed
            },
            Negotiation::CreatingRender { window, device } => match reply.get_handle() {
                Some(render) => Negotiation::BindingRender { window, device, render },
                None => Negotiation::Failed,
            },
            Negotiation::BindingRender { window, device, render } => if reply.is_succeeded() {
                Negotiation::Current(Context::DeviceContext { window, device, render })
            } else {
                Negotiation::DeletingRender { render }
            },
            Negotiation::DeletingRender { .. } => Negotiation::Failed,
            Negotiation::LoadingBinding { window } => match reply.get_handle() {
                Some(_) => Negotiation::OpeningDisplay { window },
                None => Negotiation::Failed,
            },
            Negotiation::OpeningDisplay { window } => match reply.get_handle() {
                Some(display) => Negotiation::Initializing { window, display },
                None => Negotiation::Failed,
            },
            Negotiation::Initializing { window, display } => if reply.is_accepted() {
                Negotiation::ChoosingConfig { window, display, candidate: 0 }
            } else {
                Negotiation::Failed
            },
            Negotiation::ChoosingConfig {
                window,
                display,
                candidate,
            } => match reply.get_configuration() {
                Some(config) => Negotiation::CreatingSurface { window, display, config, candidate },
                None => if candidate < SURFACE_CANDIDATE_COUNT - 1 {
                    Negotiation::ChoosingConfig { window, display, candidate: candidate + 1 }
                } else {
                    Negotiation::ClosingDisplay { display }
                },
            },
            Negotiation::CreatingSurface {
                window,
                display,
                config,
                candidate,
            } => match reply.get_handle() {
                Some(surface) => Negotiation::CreatingContext {
                    window,
                    display,
                    config,
                    surface,
                    candidate,
                    version: 0,
                },
                None => Negotiation::ClosingDisplay { display },
            },
            Negotiation::CreatingContext {
                window,
                display,
                config,
                surface,
                candidate,
                version,
            } => match reply.get_handle() {
                Some(context) => Negotiation::MakingCurrent {
                    window,
                    display,
                    config,
                    surface,
                    context,
                    candidate,
                    version,
                },
                None => Negotiation::next_version(
                    window,
                    display,
                    config,
                    surface,
                    candidate,
                    version,
                ),
            },
            Negotiation::MakingCurrent {
                window,
                display,
                config,
                surface,
                context,
                candidate,
                version,
            } => {
                if reply.is_accepted() {
                    match (surface_candidate(candidate), context_version(version)) {
                        (Some(candidate), Some(version)) => {
                            return Negotiation::Current(
                                Context::Egl {
                                    window,
                                    display,
                                    config,
                                    surface,
                                    context,
                                    candidate,
                                    version,
                                },
                            );
                        },
                        _ => {},
                    }
                }
                Negotiation::DiscardingContext {
                    window,
                    display,
                    config,
                    surface,
                    context,
                    candidate,
                    version,
                }
            },
            Negotiation::DiscardingContext {
                window,
                display,
                config,
                surface,
                candidate,
                version,
                ..
            } => Negotiation::next_version(window, display, config, surface, candidate, version),
            Negotiation::ReleasingSurface { display, .. } => Negotiation::ClosingDisplay {
                display,
            },
            Negotiation::ClosingDisplay { .. } => Negotiation::Failed,
            Negotiation::Current(context) => Negotiation::Current(context),
            Negotiation::Failed => Negotiation::Failed,
        }
    }

    fn next_version(
        window: Handle,
        display: Handle,
        config: Handle,
        surface: Handle,
        candidate: usize,
        version: usize,
    ) -> (next: Negotiation)
        ensures
            next == Negotiation::after_version(
                window,
                display,
                config,
                surface,
                candidate,
                version,
            ),
    {
        if version < CONTEXT_VERSION_COUNT - 1 {
            Negotiation::CreatingContext {
                window,
                display,
                config,
                surface,
                candidate,
                version: version + 1,
            }
        } else {
            Negotiation::ReleasingSurface { display, surface }
        }
    }
}

/// A refusal of the native layer after construction. None of them can be
/// recovered from: the connection to the driver is no longer what this crate
/// believes it to be.
#[derive(Clone, Copy, Debug, PartialEq, Eq, Structural)]
pub enum Fault {
    /// The back buffer of a device context could not be presented.
    SwapRejected,
    /// The back buffer of an EGL surface could not be presented. No
    /// distinction is made between a surface that was lost, which could be
    /// created again, and a context that was lost, which could not: both
    /// are fatal.
    ContextLost,
    /// A rendering context of the device-context platform was not deleted.
    RenderContextNotDeleted,
    /// An EGL context was not destroyed.
    ContextNotDestroyed,
    /// An EGL surface was not destroyed.
    SurfaceNotDestroyed,
    /// An EGL display connection was not closed.
    DisplayNotTerminated,
}

/// The native facility that resolves the names of graphics entry points for
/// a context.
#[derive(Clone, Copy, Debug, PartialEq, Eq, Structural)]
pub enum Resolver {
    /// The extension resolver of the current rendering context.
    RenderContext,
    /// The resolver of the window.
    Window,
    /// The generic procedure resolver of EGL.
    Egl,
}

/// What a release that was refused amounts to. The answer to a request
/// that leaves the thread without a current context is not looked at.
pub open spec fn release_fault(request: Request, reply: Reply) -> Option<Fault> {
    match request {
        Request::DeleteRenderContext { .. } => if reply.succeeded() {
            None
        } else {
            Some(Fault::RenderContextNotDeleted)
        },
        Request::DestroyContext { .. } => if reply.accepted() {
            None
        } else {
            Some(Fault::ContextNotDestroyed)
        },
        Request::DestroySurface { .. } => if reply.accepted() {
            None
        } else {
            Some(Fault::SurfaceNotDestroyed)
        },
        Request::Terminate { .. } => if reply.accepted() {
            None
        } else {
            Some(Fault::DisplayNotTerminated)
        },
        _ => None,
    }
}

/// Judges the answer to one release.
pub fn check_release(request: Request, reply: Reply) -> (fault: Option<Fault>)
    ensures
        fault == release_fault(request, reply),
{
    match request {
        Request::DeleteRenderContext { .. } => if reply.is_succeeded() {
            None
        } else {
            Some(Fault::RenderContextNotDeleted)
        },
        Request::DestroyContext { .. } => if reply.is_accepted() {
            None
        } else {
            Some(Fault::ContextNotDestroyed)
        },
        Request::DestroySurface { .. } => if reply.is_accepted() {
            None
        } else {
            Some(Fault::SurfaceNotDestroyed)
        },
        Request::Terminate { .. } => if reply.is_accepted() {
            None
        } else {
            Some(Fault::DisplayNotTerminated)
        },
        _ => None,
    }
}

impl Fault {
    /// The text with which a fault is reported.
    pub open spec fn text(self) -> Seq<char> {
        match self {
            Fault::SwapRejected => "Context swap failed."@,
            Fault::ContextLost => "EGL context is not valid any more. There is a bug somewhere that does not initialize the context in the correct way."@,
            Fault::RenderContextNotDeleted => "Failed to destroy render context."@,
            Fault::ContextNotDestroyed => "Failed to terminate EGL context."@,
            Fault::SurfaceNotDestroyed => "Failed to terminate EGL surface."@,
            Fault::DisplayNotTerminated => "Failed to terminate EGL."@,
        }
    }

    /// The text with which a fault is reported.
    pub fn message(&self) -> (message: &'static str)
        ensures
            message@ == self.text(),
    {
        match self {
            Fault::SwapRejected => "Context swap failed.",
            Fault::ContextLost => "EGL context is not valid any more. There is a bug somewhere that does not initialize the context in the correct way.",
            Fault::RenderContextNotDeleted => "Failed to destroy render context.",
            Fault::ContextNotDestroyed => "Failed to terminate EGL context.",
            Fault::SurfaceNotDestroyed => "Failed to terminate EGL surface.",
            Fault::DisplayNotTerminated => "Failed to terminate EGL.",
        }
    }
}

impl Context {
    /// Every handle that construction has to obtain is a handle, and the
    /// surface candidate and the version are entries of their lists.
    pub open spec fn wf(self) -> bool {
        match self {
            Context::DeviceContext { device, render, .. } => device != NULL && render != NULL,
            Context::WindowDelegated { .. } => true,
            Context::Egl { display, config, surface, context, candidate, version, .. } => {
                &&& display != NULL
                &&& config != NULL
                &&& surface != NULL
                &&& context != NULL
                &&& surface_candidates().contains(candidate)
                &&& context_versions().contains(version)
            },
        }
    }

    /// The platform of a context.
    pub open spec fn platform(self) -> Platform {
        match self {
            Context::DeviceContext { .. } => Platform::DeviceContext,
            Context::WindowDelegated { .. } => Platform::WindowDelegated,
            Context::Egl { .. } => Platform::Egl,
        }
    }

    /// The request that presents the back buffer.
    pub open spec fn swap_request(self) -> Request {
        match self {
            Context::DeviceContext { device, .. } => Request::SwapDeviceBuffers { device },
            Context::WindowDelegated { window } => Request::SwapWindow { window },
            Context::Egl { display, surface, .. } => Request::SwapBuffers { display, surface },
        }
    }

    /// What the answer to a swap amounts to. A window that owns its surface
    /// reports nothing; on the other platforms a refusal is a fault.
    pub open spec fn swap_fault(self, reply: Reply) -> Option<Fault> {
        match self {
            Context::DeviceContext { .. } => if reply.succeeded() {
                None
            } else {
                Some(Fault::SwapRejected)
            },
            Context::WindowDelegated { .. } => None,
            Context::Egl { .. } => if reply.accepted() {
                None
            } else {
                Some(Fault::ContextLost)
            },
        }
    }

    /// The native facility that resolves entry points for this context.
    pub open spec fn resolved_by(self) -> Resolver {
        match self {
            Context::DeviceContext { .. } => Resolver::RenderContext,
            Context::WindowDelegated { .. } => Resolver::Window,
            Context::Egl { .. } => Resolver::Egl,
        }
    }

    /// The releases that end a context, in the order in which they are made.
    ///
    /// The thread is left without a current context first. Then a
    /// rendering context of the device-context platform is deleted; an EGL
    /// context is destroyed, then its surface, and the display connection is
    /// closed last. A null handle has nothing to release, and without a
    /// display nothing can be. A window that owns its surface has nothing
    /// to release.
    pub open spec fn release_plan(self) -> Seq<Request> {
        match self {
            Context::DeviceContext { render, .. } => seq![
                Request::MakeRenderContextCurrent { device: NULL, render: NULL },
                Request::DeleteRenderContext { render },
            ],
            Context::WindowDelegated { .. } => Seq::empty(),
            Context::Egl { display, surface, context, .. } => if display == NULL {
                Seq::empty()
            } else {
                seq![
                    Request::MakeCurrent { display, draw: NULL, read: NULL, context: NULL },
                ] + (if context != NULL {
                    seq![Request::DestroyContext { display, context }]
                } else {
                    Seq::empty()
                }) + (if surface != NULL {
                    seq![Request::DestroySurface { display, surface }]
                } else {
                    Seq::empty()
                }) + seq![Request::Terminate { display }]
            },
        }
    }

    /// The context that a negotiation has ended with: a context that is
    /// current on the calling thread, or nothing.
    pub fn new(negotiation: Negotiation) -> (context: Option<Context>)
        ensures
            context == negotiation.outcome(),
            context is Some <==> negotiation is Current,
            negotiation.wf() ==> (context matches Some(c) ==> c.wf()),
    {
        match negotiation {
            Negotiation::Current(context) => Some(context),
            _ => None,
        }
    }

    /// The request that presents the back buffer.
    pub fn swap(&self) -> (request: Request)
        ensures
            request == self.swap_request(),
    {
        match *self {
            Context::DeviceContext { device, .. } => Request::SwapDeviceBuffers { device },
            Context::WindowDelegated { window } => Request::SwapWindow { window },
            Context::Egl { display, surface, .. } => Request::SwapBuffers { display, surface },
        }
    }

    /// Judges the answer to a swap: nothing, or the fault that the caller
    /// has to treat as fatal.
    pub fn check_swap(&self, reply: Reply) -> (fault: Option<Fault>)
        ensures
            fault == self.swap_fault(reply),
    {
        match self {
            Context::DeviceContext { .. } => if reply.is_succeeded() {
                None
            } else {
                Some(Fault::SwapRejected)
            },
            Context::WindowDelegated { .. } => None,
            Context::Egl { .. } => if reply.is_accepted() {
                None
            } else {
                Some(Fault::ContextLost)
            },
        }
    }

    /// The native facility that has to be asked for an entry point.
    pub fn resolver(&self) -> (resolver: Resolver)
        ensures
            resolver == self.resolved_by(),
    {
        match self {
            Context::DeviceContext { .. } => Resolver::RenderContext,
            Context::WindowDelegated { .. } => Resolver::Window,
            Context::Egl { .. } => Resolver::Egl,
        }
    }

    /// The entry point that the resolver of this context has found: the
    /// address it answered, or nothing if it answered null.
    pub fn get_function(&self, reply: Reply) -> (address: Option<Handle>)
        ensures
            address == reply.handle(),
    {
        reply.get_handle()
    }

    /// The releases that end this context, in order.
    pub fn releases(&self) -> (plan: Vec<Request>)
        ensures
            plan@ == self.release_plan(),
    {
        let mut plan: Vec<Request> = Vec::new();
        match *self {
            Context::DeviceContext { render, .. } => {
                plan.push(Request::MakeRenderContextCurrent { device: NULL, render: NULL });
                plan.push(Request::DeleteRenderContext { render });
            },
            Context::WindowDelegated { .. } => {},
            Context::Egl { display, surface, context, .. } => {
                if display != NULL {
                    plan.push(
                        Request::MakeCurrent { display, draw: NULL, read: NULL, context: NULL },
                    );
                    if context != NULL {
                        plan.push(Request::DestroyContext { display, context });
                    }
                    if surface != NULL {
                        plan.push(Request::DestroySurface { display, surface });
                    }
                    plan.push(Request::Terminate { display });
                }
            },
        }
        assert(plan@ =~= self.release_plan());
        plan
    }

    /// Starts the release of this context.
    pub fn teardown(self) -> (start: Teardown)
        ensures
            start == Teardown::initial(self),
    {
        Teardown { context: self, position: 0 }
    }
}

/// How far the release of a context has come: `position` releases of its
/// plan have been made.
#[derive(Clone, Copy, Debug, PartialEq, Eq, Structural)]
pub struct Teardown {
    pub context: Context,
    pub position: usize,
}

impl Teardown {
    /// The state in which the release of a context starts.
    pub open spec fn initial(context: Context) -> Teardown {
        Teardown { context, position: 0 }
    }

    /// The release whose answer a state waits for.
    pub open spec fn request(self) -> Option<Request> {
        if self.position < self.context.release_plan().len() {
            Some(self.context.release_plan()[self.position as int])
        } else {
            None
        }
    }

    /// The state that follows an answer. What the answer says does not
    /// matter: the next release is attempted in any case.
    pub open spec fn step(self, reply: Reply) -> Teardown {
        if self.position < self.context.release_plan().len() {
            Teardown { context: self.context, position: (self.position + 1) as usize }
        } else {
            self
        }
    }

    /// The fault that an answer to the pending release amounts to.
    pub open spec fn fault(self, reply: Reply) -> Option<Fault> {
        match self.request() {
            Some(request) => release_fault(request, reply),
            None => None,
        }
    }

    /// The state after a whole sequence of answers.
    pub open spec fn run(self, replies: Seq<Reply>) -> Teardown
        decreases replies.len(),
    {
        if replies.len() == 0 {
            self
        } else {
            self.step(replies[0]).run(replies.skip(1))
        }
    }

    /// The release that the native layer has to perform next, or nothing
    /// once every release has been attempted.
    pub fn pending(&self) -> (request: Option<Request>)
        ensures
            request == self.request(),
    {
        let plan = self.context.releases();
        if self.position < plan.len() {
            Some(plan[self.position])
        } else {
            None
        }
    }

    /// Takes the answer to the pending release, moves on to the next one and
    /// reports the fault, if the answer is one.
    pub fn supply(self, reply: Reply) -> (next: (Teardown, Option<Fault>))
        ensures
            next.0 == self.step(reply),
            next.1 == self.fault(reply),
    {
        let plan = self.context.releases();
        if self.position < plan.len() {
            let fault = check_release(plan[self.position], reply);
            (Teardown { context: self.context, position: self.position + 1 }, fault)
        } else {
            (self, None)
        }
    }
}

/// What a driver does with one context version: the context that it creates
/// for it, null if it creates none; what it answers when asked to make that
/// context current; and what it answers when asked to destroy a context
/// that it would not make current.
pub struct Attempt {
    pub context: Handle,
    pub bound: Reply,
    pub discarded: Reply,
}

impl Attempt {
    /// The version is usable: a context was created and made current.
    pub open spec fn binds(self) -> bool {
        self.context != NULL && self.bound.accepted()
    }

    /// The replies that the attempt gives rise to: the created context; the
    /// answer to making it current, if there is a context to make current;
    /// and the answer to destroying it, if it was not made current.
    pub open spec fn replies(self) -> Seq<Reply> {
        if self.context == NULL {
            seq![Reply::Handle(NULL)]
        } else if self.bound.accepted() {
            seq![Reply::Handle(self.context), self.bound]
        } else {
            seq![Reply::Handle(self.context), self.bound, self.discarded]
        }
    }
}

/// The replies of a run of attempts, one after the other.
pub open spec fn attempt_replies(attempts: Seq<Attempt>) -> Seq<Reply>
    decreases attempts.len(),
{
    if attempts.len() == 0 {
        Seq::empty()
    } else {
        attempts[0].replies() + attempt_replies(attempts.skip(1))
    }
}

/// Replies that come one after the other have the effect of the first
/// followed by the effect of the rest.
pub proof fn lemma_run_concat(start: Negotiation, first: Seq<Reply>, rest: Seq<Reply>)
    ensures
        start.run(first + rest) == start.run(first).run(rest),
    decreases first.len(),
{
    if first.len() == 0 {
        assert(first + rest =~= rest);
    } else {
        assert((first + rest).skip(1) =~= first.skip(1) + rest);
        lemma_run_concat(start.step(first[0]), first.skip(1), rest);
    }
}

/// Once construction has ended, no reply changes its result.
pub proof fn lemma_finished_is_final(end: Negotiation, replies: Seq<Reply>)
    requires
        end.finished(),
    ensures
        end.run(replies) == end,
    decreases replies.len(),
{
    if replies.len() > 0 {
        lemma_finished_is_final(end, replies.skip(1));
    }
}

/// On the device-context platform construction takes five requests, and it
/// yields a context exactly when every one of them is answered favourably:
/// a device context, a pixel format, the format applied, a rendering
/// context, and that context made current. The context holds the device
/// context and the rendering context that were handed out. A refusal of one
/// of the first four ends construction at once, for nothing has been created
/// yet. If the rendering context was created and is refused at being made
/// current, it is deleted, and construction ends with the answer to that.
pub proof fn lemma_device_context_needs_every_step(window: Handle, replies: Seq<Reply>)
    requires
        replies.len() == 5,
    ensures
        ({
            let end = Negotiation::initial(Platform::DeviceContext, window).run(replies);
            let created = {
                &&& replies[0].handle() is Some
                &&& replies[1].pixel_format() is Some
                &&& replies[2].succeeded()
                &&& replies[3].handle() is Some
            };
            &&& end is Current <==> created && replies[4].succeeded()
            &&& end is Current ==> end == Negotiation::Current(
                Context::DeviceContext {
                    window,
                    device: replies[0].handle()->0,
                    render: replies[3].handle()->0,
                },
            )
            &&& !created ==> end is Failed
            &&& created && !replies[4].succeeded() ==> {
                &&& end == Negotiation::DeletingRender { render: replies[3].handle()->0 }
                &&& end.request() == Some(
                    Request::DeleteRenderContext { render: replies[3].handle()->0 },
                )
                &&& forall|reply: Reply| #[trigger] end.step(reply) == Negotiation::Failed
            }
        }),
{
    let s0 = Negotiation::initial(Platform::DeviceContext, window);
    let r1 = replies.skip(1);
    let r2 = r1.skip(1);
    let r3 = r2.skip(1);
    let r4 = r3.skip(1);
    let r5 = r4.skip(1);
    let s1 = s0.step(replies[0]);
    let s2 = s1.step(replies[1]);
    let s3 = s2.step(replies[2]);
    let s4 = s3.step(replies[3]);
    let s5 = s4.step(replies[4]);
    assert(r1[0] == replies[1] && r2[0] == replies[2] && r3[0] == replies[3] && r4[0]
        == replies[4]);
    assert(s0.run(replies) == s1.run(r1));
    assert(s1.run(r1) == s2.run(r2));
    assert(s2.run(r2) == s3.run(r3));
    assert(s3.run(r3) == s4.run(r4));
    assert(s4.run(r4) == s5.run(r5));
    assert(s5.run(r5) == s5);
}

/// Surface candidates are tried in the order of their list, and the first
/// one for which the driver has a configuration is taken.
///
/// Let a negotiation stand at the candidate `start`, and let the driver
/// answer its queries with `replies`, of which only the last one holds a
/// configuration. Then the negotiation has asked for exactly the candidates
/// from `start` on, one per reply and in the order of the list, and it goes
/// on to create the surface with the configuration of the last reply, for
/// the candidate that this reply answered. No later candidate is asked for.
pub proof fn lemma_first_supported_candidate_is_chosen(
    window: Handle,
    display: Handle,
    start: usize,
    replies: Seq<Reply>,
)
    requires
        replies.len() >= 1,
        start + replies.len() <= SURFACE_CANDIDATE_COUNT,
        forall|i: int| 0 <= i < replies.len() - 1 ==> replies[i].configuration() is None,
        replies.last().configuration() is Some,
    ensures
        (Negotiation::ChoosingConfig { window, display, candidate: start }).run(replies)
            == (Negotiation::CreatingSurface {
            window,
            display,
            config: replies.last().configuration()->0,
            candidate: (start + replies.len() - 1) as usize,
        }),
        forall|i: int|
            0 <= i < replies.len() ==> (#[trigger] (Negotiation::ChoosingConfig {
                window,
                display,
                candidate: start,
            }).run(replies.take(i))).request() == Some(
                Request::ChooseConfig { display, candidate: surface_candidates()[start + i] },
            ),
    decreases replies.len(),
{
    let first = Negotiation::ChoosingConfig { window, display, candidate: start };
    assert(replies.take(0) =~= Seq::<Reply>::empty());
    if replies.len() == 1 {
        assert(replies.skip(1).len() == 0);
        assert(first.run(replies) == first.step(replies[0]).run(replies.skip(1)));
        assert forall|i: int| 0 <= i < replies.len() implies (#[trigger] first.run(
            replies.take(i),
        )).request() == Some(
            Request::ChooseConfig { display, candidate: surface_candidates()[start + i] },
        ) by {
            assert(i == 0);
        }
    } else {
        let rest = replies.skip(1);
        let second = Negotiation::ChoosingConfig {
            window,
            display,
            candidate: (start + 1) as usize,
        };
        assert(first.step(replies[0]) == second);
        assert(rest.last() == replies.last());
        lemma_first_supported_candidate_is_chosen(window, display, (start + 1) as usize, rest);
        assert forall|i: int| 0 <= i < replies.len() implies (#[trigger] first.run(
            replies.take(i),
        )).request() == Some(
            Request::ChooseConfig { display, candidate: surface_candidates()[start + i] },
        ) by {
            if i > 0 {
                assert(replies.take(i).skip(1) =~= rest.take(i - 1));
                assert(first.run(replies.take(i)) == second.run(rest.take(i - 1)));
            }
        }
    }
}

/// If the driver has no configuration for any surface candidate that is
/// left, construction is given up: the display connection is closed, and
/// with the answer to that construction has failed.
pub proof fn lemma_no_supported_candidate_fails(
    window: Handle,
    display: Handle,
    start: usize,
    replies: Seq<Reply>,
)
    requires
        start < SURFACE_CANDIDATE_COUNT,
        start + replies.len() == SURFACE_CANDIDATE_COUNT,
        forall|i: int| 0 <= i < replies.len() ==> replies[i].configuration() is None,
    ensures
        (Negotiation::ChoosingConfig { window, display, candidate: start }).run(replies)
            == (Negotiation::ClosingDisplay { display }),
        forall|reply: Reply| #[trigger]
            (Negotiation::ClosingDisplay { display }).step(reply) == Negotiation::Failed,
    decreases replies.len(),
{
    let first = Negotiation::ChoosingConfig { window, display, candidate: start };
    let rest = replies.skip(1);
    assert(first.run(replies) == first.step(replies[0]).run(rest));
    if start + 1 < SURFACE_CANDIDATE_COUNT {
        lemma_no_supported_candidate_fails(window, display, (start + 1) as usize, rest);
    } else {
        assert(rest.len() == 0);
    }
}

/// Context versions are tried from the newest down, and the context is of
/// the first version that the driver both creates and makes current.
///
/// Let a negotiation stand at the version `start`, and let the driver deal
/// with the versions from there on as `attempts` say, of which only the last
/// one binds. Then construction ends with a context that is current, holds
/// the context of the last attempt, and is of the version that this attempt
/// was made for.
pub proof fn lemma_highest_bindable_version_is_bound(
    window: Handle,
    display: Handle,
    config: Handle,
    surface: Handle,
    candidate: usize,
    start: usize,
    attempts: Seq<Attempt>,
)
    requires
        candidate < SURFACE_CANDIDATE_COUNT,
        attempts.len() >= 1,
        start + attempts.len() <= CONTEXT_VERSION_COUNT,
        forall|i: int| 0 <= i < attempts.len() - 1 ==> !attempts[i].binds(),
        attempts.last().binds(),
    ensures
        (Negotiation::CreatingContext {
            window,
            display,
            config,
            surface,
            candidate,
            version: start,
        }).run(attempt_replies(attempts)) == Negotiation::Current(
            Context::Egl {
                window,
                display,
                config,
                surface,
                context: attempts.last().context,
                candidate: surface_candidates()[candidate as int],
                version: context_versions()[start + attempts.len() - 1],
            },
        ),
    decreases attempts.len(),
{
    let first = Negotiation::CreatingContext {
        window,
        display,
        config,
        surface,
        candidate,
        version: start,
    };
    let head = attempts[0];
    let rest = attempts.skip(1);
    lemma_run_concat(first, head.replies(), attempt_replies(rest));
    lemma_attempt_outcome(window, display, config, surface, candidate, start, head);
    if attempts.len() == 1 {
        assert(attempt_replies(rest) =~= Seq::<Reply>::empty());
    } else {
        assert(rest.last() == attempts.last());
        lemma_highest_bindable_version_is_bound(
            window,
            display,
            config,
            surface,
            candidate,
            (start + 1) as usize,
            rest,
        );
    }
}

/// If the driver binds no context version that is left, construction is
/// given up with no context of any version left behind: what remains is to
/// destroy the surface and to close the display connection, and with the
/// answers to these two construction has failed.
pub proof fn lemma_no_bindable_version_fails(
    window: Handle,
    display: Handle,
    config: Handle,
    surface: Handle,
    candidate: usize,
    start: usize,
    attempts: Seq<Attempt>,
)
    requires
        candidate < SURFACE_CANDIDATE_COUNT,
        start < CONTEXT_VERSION_COUNT,
        start + attempts.len() == CONTEXT_VERSION_COUNT,
        forall|i: int| 0 <= i < attempts.len() ==> !attempts[i].binds(),
    ensures
        (Negotiation::CreatingContext {
            window,
            display,
            config,
            surface,
            candidate,
            version: start,
        }).run(attempt_replies(attempts)) == (Negotiation::ReleasingSurface { display, surface }),
        forall|first: Reply, second: Reply| #[trigger]
            (Negotiation::ReleasingSurface { display, surface }).step(first).step(second)
                == Negotiation::Failed,
    decreases attempts.len(),
{
    let first = Negotiation::CreatingContext {
        window,
        display,
        config,
        surface,
        candidate,
        version: start,
    };
    let head = attempts[0];
    let rest = attempts.skip(1);
    lemma_run_concat(first, head.replies(), attempt_replies(rest));
    lemma_attempt_outcome(window, display, config, surface, candidate, start, head);
    if start + 1 < CONTEXT_VERSION_COUNT {
        lemma_no_bindable_version_fails(
            window,
            display,
            config,
            surface,
            candidate,
            (start + 1) as usize,
            rest,
        );
    } else {
        assert(attempt_replies(rest) =~= Seq::<Reply>::empty());
    }
}

/// One attempt either ends construction with its context current, or
/// leaves nothing of its version behind and moves the negotiation to the
/// next version, or to the release of surface and display after the last.
proof fn lemma_attempt_outcome(
    window: Handle,
    display: Handle,
    config: Handle,
    surface: Handle,
    candidate: usize,
    version: usize,
    attempt: Attempt,
)
    requires
        candidate < SURFACE_CANDIDATE_COUNT,
        version < CONTEXT_VERSION_COUNT,
    ensures
        (Negotiation::CreatingContext {
            window,
            display,
            config,
            surface,
            candidate,
            version,
        }).run(attempt.replies()) == if attempt.binds() {
            Negotiation::Current(
                Context::Egl {
                    window,
                    display,
                    config,
                    surface,
                    context: attempt.context,
                    candidate: surface_candidates()[candidate as int],
                    version: context_versions()[version as int],
                },
            )
        } else {
            Negotiation::after_version(window, display, config, surface, candidate, version)
        },
{
    let first = Negotiation::CreatingContext {
        window,
        display,
        config,
        surface,
        candidate,
        version,
    };
    let replies = attempt.replies();
    let second = first.step(replies[0]);
    let tail = replies.skip(1);
    assert(first.run(replies) == second.run(tail));
    if attempt.context == NULL {
        assert(tail.len() == 0);
    } else if attempt.bound.accepted() {
        assert(tail.len() == 1);
        assert(tail[0] == attempt.bound);
        assert(second.run(tail) == second.step(tail[0]).run(tail.skip(1)));
        assert(tail.skip(1).len() == 0);
    } else {
        let third = second.step(tail[0]);
        let last = tail.skip(1);
        assert(tail.len() == 2);
        assert(tail[0] == attempt.bound);
        assert(last[0] == attempt.discarded);
        assert(second.run(tail) == third.run(last));
        assert(third.run(last) == third.step(last[0]).run(last.skip(1)));
        assert(last.skip(1).len() == 0);
    }
}

/// Every release of a context is attempted, in the order of its plan,
/// whatever the driver answers to the releases before it: after any `count`
/// answers the release that is pending is the one at position `count` of the
/// plan. Once every release has been attempted nothing is pending, and
/// further answers change nothing: a context is released once.
pub proof fn lemma_teardown_attempts_every_release(context: Context, replies: Seq<Reply>)
    ensures
        Teardown::initial(context).run(replies) == (Teardown {
            context,
            position: if replies.len() <= context.release_plan().len() {
                replies.len() as usize
            } else {
                context.release_plan().len() as usize
            },
        }),
        Teardown::initial(context).run(replies).request() == if replies.len()
            < context.release_plan().len() {
            Some(context.release_plan()[replies.len() as int])
        } else {
            None
        },
{
    lemma_release_plan_is_short(context);
    lemma_teardown_advances(Teardown::initial(context), replies);
}

/// No context has more than four releases.
proof fn lemma_release_plan_is_short(context: Context)
    ensures
        context.release_plan().len() <= 4,
{
}

/// Answers move a release forward one position each, up to the end of the
/// plan.
proof fn lemma_teardown_advances(start: Teardown, replies: Seq<Reply>)
    requires
        start.position <= start.context.release_plan().len() <= 4,
    ensures
        start.run(replies) == (Teardown {
            context: start.context,
            position: if start.position + replies.len() <= start.context.release_plan().len() {
                (start.position + replies.len()) as usize
            } else {
                start.context.release_plan().len() as usize
            },
        }),
    decreases replies.len(),
{
    if replies.len() > 0 {
        lemma_teardown_advances(start.step(replies[0]), replies.skip(1));
    }
}

/// The release of an EGL context that negotiation has built: the thread
/// gives up its current context, then the
/// context is destroyed, then the surface, and the display connection is
/// closed last. On the device-context platform the thread gives up its
/// current context and the rendering context is deleted. A window that owns
/// its surface has nothing released.
pub proof fn lemma_release_order(context: Context)
    requires
        context.wf(),
    ensures
        match context {
            Context::DeviceContext { render, .. } => context.release_plan() == seq![
                Request::MakeRenderContextCurrent { device: NULL, render: NULL },
                Request::DeleteRenderContext { render },
            ],
            Context::WindowDelegated { .. } => context.release_plan() == Seq::<Request>::empty(),
            Context::Egl { display, surface, context: native, .. } => context.release_plan()
                == seq![
                Request::MakeCurrent { display, draw: NULL, read: NULL, context: NULL },
                Request::DestroyContext { display, context: native },
                Request::DestroySurface { display, surface },
                Request::Terminate { display },
            ],
        },
{
    match context {
        Context::Egl { display, surface, context: native, .. } => {
            if display != NULL {
                assert(context.release_plan() =~= seq![
                    Request::MakeCurrent { display, draw: NULL, read: NULL, context: NULL },
                    Request::DestroyContext { display, context: native },
                    Request::DestroySurface { display, surface },
                    Request::Terminate { display },
                ]);
            }
        },
        _ => {},
    }
}

} // verus!
