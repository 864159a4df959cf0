//! The application's payload and its render, setup and cleanup callbacks.

use vstd::prelude::*;

use crate::context::Context;
use crate::error::Error;

verus! {

/// Something that can render a block, and optionally set up before the first
/// block and clean up after the last, over samples of type `S`.
pub trait UserData<S> {
    /// The payload that the callbacks work on.
    type Data;

    /// Whether each callback accepts every well-formed context and every
    /// payload.
    spec fn callbacks_ready(&self) -> bool;

    /// Runs the render callback on one block.
    fn render_fn(&mut self, context: &mut Context<S>)
        requires
            old(self).callbacks_ready(),
            old(context)@.wf(),
        ensures
            final(self).callbacks_ready(),
    ;

    /// Runs the setup callback, if any; without one, setup succeeds.
    fn setup_fn(&mut self, context: &mut Context<S>) -> (r: Result<(), Error>)
        requires
            old(self).callbacks_ready(),
            old(context)@.wf(),
        ensures
            final(self).callbacks_ready(),
    ;

    /// Runs the cleanup callback, if any.
    fn cleanup_fn(&mut self, context: &mut Context<S>)
        requires
            old(self).callbacks_ready(),
            old(context)@.wf(),
        ensures
            final(self).callbacks_ready(),
    ;
}

/// A payload together with its render callback and optional setup and
/// cleanup callbacks.
pub struct AppData<D, R, U, C> {
    pub data: D,
    pub render: R,
    pub setup: Option<U>,
    pub cleanup: Option<C>,
}

impl<D, R, U, C> AppData<D, R, U, C> {
    /// The payload.
    pub open spec fn payload(&self) -> D {
        self.data
    }

    /// The render callback.
    pub open spec fn render(&self) -> R {
        self.render
    }

    /// The setup callback, if any.
    pub open spec fn setup(&self) -> Option<U> {
        self.setup
    }

    /// The cleanup callback, if any.
    pub open spec fn cleanup(&self) -> Option<C> {
        self.cleanup
    }

    /// Puts a payload and its callbacks together.
    pub fn new(data: D, render: R, setup: Option<U>, cleanup: Option<C>) -> (r: Self)
        ensures
            r.payload() == data,
            r.render() == render,
            r.setup() == setup,
            r.cleanup() == cleanup,
    {
        AppData { data, render, setup, cleanup }
    }

    /// Replaces the render callback; nothing else changes.
    pub fn set_render_fn(&mut self, render: R)
        ensures
            final(self).render() == render,
            final(self).payload() == old(self).payload(),
            final(self).setup() == old(self).setup(),
            final(self).cleanup() == old(self).cleanup(),
    {
        self.render = render;
    }

    /// Replaces the setup callback; nothing else changes.
    pub fn set_setup_fn(&mut self, setup: Option<U>)
        ensures
            final(self).setup() == setup,
            final(self).payload() == old(self).payload(),
            final(self).render() == old(self).render(),
            final(self).cleanup() == old(self).cleanup(),
    {
        self.setup = setup;
    }

    /// Replaces the cleanup callback; nothing else changes.
    pub fn set_cleanup_fn(&mut self, cleanup: Option<C>)
        ensures
            final(self).cleanup() == cleanup,
            final(self).payload() == old(self).payload(),
            final(self).render() == old(self).render(),
            final(self).setup() == old(self).setup(),
    {
        self.cleanup = cleanup;
    }
}

impl<D, R, U, C> AppData<D, R, U, C> {
    /// Callbacks that accept every well-formed context and every payload are
    /// ready to be run.
    pub proof fn lemma_callbacks_ready<S>(&self) where
        R: FnMut(&mut Context<S>, &mut D),
        U: FnMut(&mut Context<S>, &mut D) -> Result<(), Error>,
        C: FnMut(&mut Context<S>, &mut D),

        requires
            forall|c: &mut Context<S>, d: &mut D|
                (*c)@.wf() ==> #[trigger] self.render.requires((c, d)),
            self.setup is Some ==> forall|c: &mut Context<S>, d: &mut D|
                (*c)@.wf() ==> #[trigger] self.setup->0.requires((c, d)),
            self.cleanup is Some ==> forall|c: &mut Context<S>, d: &mut D|
                (*c)@.wf() ==> #[trigger] self.cleanup->0.requires((c, d)),
        ensures
            <Self as UserData<S>>::callbacks_ready(self),
    {
    }
}

impl<S, D, R, U, C> UserData<S> for AppData<D, R, U, C> where
    R: FnMut(&mut Context<S>, &mut D),
    U: FnMut(&mut Context<S>, &mut D) -> Result<(), Error>,
    C: FnMut(&mut Context<S>, &mut D),
 {
    type Data = D;

    open spec fn callbacks_ready(&self) -> bool {
        &&& forall|c: &mut Context<S>, d: &mut D|
            (*c)@.wf() ==> #[trigger] self.render.requires((c, d))
        &&& self.setup is Some ==> forall|c: &mut Context<S>, d: &mut D|
            (*c)@.wf() ==> #[trigger] self.setup->0.requires((c, d))
        &&& self.cleanup is Some ==> forall|c: &mut Context<S>, d: &mut D|
            (*c)@.wf() ==> #[trigger] self.cleanup->0.requires((c, d))
    }

    fn render_fn(&mut self, context: &mut Context<S>)
        ensures
            final(self).render() == old(self).render(),
            final(self).setup() == old(self).setup(),
            final(self).cleanup() == old(self).cleanup(),
            exists|c: &mut Context<S>, d: &mut D, out: ()|
                {
                    &&& #[trigger] old(self).render().ensures((c, d), out)
                    &&& *c == *old(context)
                    &&& *final(c) == *final(context)
                    &&& *d == old(self).payload()
                    &&& *final(d) == final(self).payload()
                },
    {
        let AppData { render, data, .. } = self;
        render(context, data);
        assert(*render == old(self).render());
    }

    fn setup_fn(&mut self, context: &mut Context<S>) -> (r: Result<(), Error>)
        ensures
            old(self).setup() is None ==> r == Ok::<(), Error>(()) && final(self).payload()
                == old(self).payload() && *final(context) == *old(context),
            old(self).setup() is Some ==> exists|c: &mut Context<S>, d: &mut D|
                {
                    &&& #[trigger] old(self).setup()->0.ensures((c, d), r)
                    &&& *c == *old(context)
                    &&& *final(c) == *final(context)
                    &&& *d == old(self).payload()
                    &&& *final(d) == final(self).payload()
                },
            final(self).render() == old(self).render(),
            final(self).setup() == old(self).setup(),
            final(self).cleanup() == old(self).cleanup(),
    {
        let AppData { setup, data, .. } = self;
        match setup {
            Some(f) => f(context, data),
            None => Ok(()),
        }
    }

    fn cleanup_fn(&mut self, context: &mut Context<S>)
        ensures
            final(self).render() == old(self).render(),
            final(self).setup() == old(self).setup(),
            final(self).cleanup() == old(self).cleanup(),
            old(self).cleanup() is None ==> final(self).payload() == old(self).payload()
                && *final(context) == *old(context),
            old(self).cleanup() is Some ==> exists|c: &mut Context<S>, d: &mut D, out: ()|
                {
                    &&& #[trigger] old(self).cleanup()->0.ensures((c, d), out)
                    &&& *c == *old(context)
                    &&& *final(c) == *final(context)
                    &&& *d == old(self).payload()
                    &&& *final(d) == final(self).payload()
                },
    {
        let AppData { cleanup, data, .. } = self;
        match cleanup {
            Some(f) => f(context, data),
            None => (),
        }
    }
}

} // verus!
