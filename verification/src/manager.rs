//! The manager: a context and the table of entry points that was resolved
//! against it, built in that order and never one without the other.

use vstd::prelude::*;
use crate::context::{Context, Negotiation, Teardown};
use crate::library::complete;
use crate::loader::{Loader, Resolution, ResolutionView, ENTRY_POINT_COUNT};
use crate::protocol::{Handle, Request};

verus! {

/// What a manager is made of, as plain values.
pub struct ManagerView {
    pub context: Context,
    pub table: Seq<Handle>,
    /// The name of the graphics library that the table keeps loaded.
    pub library: Option<Seq<char>>,
}

/// A context that is current and the complete table of entry points for it.
pub struct Manager {
    context: Context,
    loader: Loader,
}

impl View for Manager {
    type V = ManagerView;

    closed spec fn view(&self) -> ManagerView {
        ManagerView {
            context: self.context,
            table: self.loader@,
            library: self.loader.library_name(),
        }
    }
}

impl Manager {
    /// The table was resolved against the context of the manager.
    #[verifier::type_invariant]
    closed spec fn wf(self) -> bool {
        self.loader.resolved_against() == self.context
    }

    /// Goes on from the context to its table: starts the resolution of the
    /// table for the context that a negotiation has ended with, as
    /// [`Resolution::begin`] does. Without a context the table is not
    /// attempted; a negotiation that ended without one has released what it
    /// had acquired, so that nothing is left to do.
    pub fn begin(negotiation: Negotiation) -> (resolution: Option<Resolution>)
        ensures
            resolution is Some <==> negotiation is Current,
            resolution matches Some(r) ==> {
                &&& r@.wf()
                &&& r@.context == negotiation->Current_0
                &&& r@.entries.len() == 0
                &&& r@ == ResolutionView::initial(
                    r@.context,
                    crate::loader::system_library(r@.context),
                ) || r@ == ResolutionView::initial(r@.context, None)
            },
    {
        match Context::new(negotiation) {
            Some(context) => Some(Resolution::begin(&context)),
            None => None,
        }
    }

    /// Builds a manager from a resolution that has ended.
    ///
    /// There is a manager exactly when the resolution has found every entry
    /// point; it holds the context of the resolution and the table that
    /// [`Loader::new`] makes of it. If there is no table there is no manager
    /// either, and the context that the table was to be resolved for has to
    /// be released: its release is handed back.
    pub fn new(resolution: Resolution) -> (manager: Result<Manager, Teardown>)
        ensures
            manager is Ok <==> resolution@.complete(),
            manager matches Ok(m) ==> {
                &&& m@.context == resolution@.context
                &&& m@.table == resolution@.entries
                &&& m@.library == resolution@.library
                &&& complete(m@.table, ENTRY_POINT_COUNT as nat)
            },
            manager matches Err(release) ==> release == Teardown::initial(resolution@.context),
    {
        let context = resolution.context();
        match Loader::new(resolution) {
            Some(loader) => Ok(Manager { context, loader }),
            None => Err(context.teardown()),
        }
    }

    /// The table of entry points.
    pub fn get_loader(&self) -> (loader: &Loader)
        ensures
            loader@ == self@.table,
            loader.resolved_against() == self@.context,
            loader.library_name() == self@.library,
    {
        proof {
            use_type_invariant(self);
        }
        &self.loader
    }

    /// The context.
    pub fn get_context(&self) -> (context: &Context)
        ensures
            *context == self@.context,
    {
        &self.context
    }

    /// The request that presents the back buffer: that of the context.
    pub fn swap_buffers(&self) -> (request: Request)
        ensures
            request == self@.context.swap_request(),
    {
        self.context.swap()
    }

    /// Ends the manager. The table goes first, and with it the graphics
    /// library that it kept loaded; what is handed back is the release of
    /// the context, which the native layer has to carry out.
    pub fn teardown(self) -> (release: Teardown)
        ensures
            release == Teardown::initial(self@.context),
    {
        self.context.teardown()
    }
}

} // verus!
