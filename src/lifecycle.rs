//! The application: it owns the user data and drives
//! init → start → stop → cleanup against the native layer.

use vstd::prelude::*;
use vstd::string::StringSliceAdditionalSpecFns;

use crate::error::Error;
use crate::task::{c_name, nul_terminated, CreatedTask};
use crate::user::AppData;

verus! {

/// Where an application stands in its lifecycle.
#[derive(Debug, Clone, Copy, PartialEq, Eq, Structural)]
pub enum Phase {
    Uninitialized,
    Initialized,
    Running,
    Stopped,
}

/// An application over user data `T`.
///
/// The native entry points are handed in as closures: each method decides
/// whether to make the call and what its status means. The user data is
/// what the native layer receives a pointer to, so it must stay where it is
/// for as long as the native layer may call back.
pub struct Bela<T> {
    phase: Phase,
    user_data: T,
}

impl<T> Bela<T> {
    /// The current phase.
    pub closed spec fn current(&self) -> Phase {
        self.phase
    }

    /// The user data.
    pub closed spec fn data(&self) -> T {
        self.user_data
    }

    /// A new application over `user_data`, not yet initialized.
    pub fn new(user_data: T) -> (r: Self)
        ensures
            r.current() == Phase::Uninitialized,
            r.data() == user_data,
    {
        Bela { phase: Phase::Uninitialized, user_data }
    }

    /// The current phase.
    pub fn phase(&self) -> (r: Phase)
        ensures
            r == self.current(),
    {
        self.phase
    }

    /// The user data.
    pub fn user_data(&self) -> (r: &T)
        ensures
            *r == self.data(),
    {
        &self.user_data
    }

    /// The user data, to be changed or handed to the native layer.
    pub fn user_data_mut(&mut self) -> (r: &mut T)
        ensures
            *r == old(self).data(),
            final(self).data() == *final(r),
            final(self).current() == old(self).current(),
    {
        &mut self.user_data
    }

    /// Initializes the native layer: `native_init` gets the user data and
    /// returns the native status, which it reports as non-zero also when the
    /// setup callback failed. A zero status makes the application
    /// initialized; any other is [`Error::Init`] and changes no phase.
    pub fn init_audio<F: FnOnce(&mut T) -> i32>(&mut self, native_init: F) -> (r: Result<(), Error>)
        requires
            forall|u: &mut T| #[trigger] native_init.requires((u,)),
        ensures
            exists|u: &mut T, status: i32|
                {
                    &&& #[trigger] native_init.ensures((u,), status)
                    &&& *u == old(self).data()
                    &&& *final(u) == final(self).data()
                    &&& status == 0 ==> r == Ok::<(), Error>(()) && final(self).current()
                        == Phase::Initialized
                    &&& status != 0 ==> r == Err::<(), Error>(Error::Init) && final(self).current()
                        == old(self).current()
                },
    {
        let status = native_init(&mut self.user_data);
        if status == 0 {
            self.phase = Phase::Initialized;
            Ok(())
        } else {
            Err(Error::Init)
        }
    }

    /// Starts the audio. Before a successful init this is [`Error::Start`],
    /// and `native_start` is not called. Otherwise a zero status from
    /// `native_start` makes the application running; any other is
    /// [`Error::Start`] and changes no phase.
    pub fn start_audio<F: FnOnce() -> i32>(&mut self, native_start: F) -> (r: Result<(), Error>)
        requires
            native_start.requires(()),
        ensures
            final(self).data() == old(self).data(),
            old(self).current() == Phase::Uninitialized ==> r == Err::<(), Error>(Error::Start)
                && final(self).current() == Phase::Uninitialized,
            old(self).current() != Phase::Uninitialized ==> exists|status: i32|
                {
                    &&& #[trigger] native_start.ensures((), status)
                    &&& status == 0 ==> r == Ok::<(), Error>(()) && final(self).current()
                        == Phase::Running
                    &&& status != 0 ==> r == Err::<(), Error>(Error::Start)
                        && final(self).current() == old(self).current()
                },
    {
        if self.phase == Phase::Uninitialized {
            return Err(Error::Start);
        }
        let status = native_start();
        if status == 0 {
            self.phase = Phase::Running;
            Ok(())
        } else {
            Err(Error::Start)
        }
    }

    /// Whether the native layer asks to stop: its flag is non-zero.
    pub fn should_stop<F: FnOnce() -> i32>(&self, stop_requested: F) -> (r: bool)
        requires
            stop_requested.requires(()),
        ensures
            exists|flag: i32| #[trigger] stop_requested.ensures((), flag) && r == (flag != 0),
    {
        let flag = stop_requested();
        flag != 0
    }

    /// Stops the audio: `native_stop` is always called, and a running
    /// application is then stopped.
    pub fn stop_audio<F: FnOnce()>(&mut self, native_stop: F)
        requires
            native_stop.requires(()),
        ensures
            native_stop.ensures((), ()),
            final(self).data() == old(self).data(),
            final(self).current() == (if old(self).current() == Phase::Running {
                Phase::Stopped
            } else {
                old(self).current()
            }),
    {
        native_stop();
        if self.phase == Phase::Running {
            self.phase = Phase::Stopped;
        }
    }

    /// Releases the native layer's resources: `native_cleanup` is always
    /// called, and the phase is left as it was.
    pub fn cleanup_audio<F: FnOnce()>(&mut self, native_cleanup: F)
        requires
            native_cleanup.requires(()),
        ensures
            native_cleanup.ensures((), ()),
            final(self).data() == old(self).data(),
            final(self).current() == old(self).current(),
    {
        native_cleanup();
    }

    /// Registers `task` with the native scheduler under `name`, at
    /// `priority`. A name holding a NUL byte is [`Error::Task`] and
    /// `native_register` is not called. Otherwise `native_register` gets the
    /// task, the priority and the NUL-terminated name, and returns the native
    /// handle, or `None` where the native layer refused; the latter is
    /// [`Error::Task`].
    ///
    /// The native layer keeps the task's address: the caller must keep the
    /// task in place, alive and otherwise untouched for as long as the handle
    /// may be scheduled.
    pub fn create_auxiliary_task<'a, A, H, F: FnOnce(&mut A, i32, &Vec<u8>) -> Option<H>>(
        task: &'a mut A,
        priority: i32,
        name: &str,
        native_register: F,
    ) -> (r: Result<CreatedTask<'a, H>, Error>)
        requires
            forall|t: &mut A, p: i32, n: &Vec<u8>| #[trigger] native_register.requires((t, p, n)),
        ensures
            name.spec_bytes().contains(0u8) ==> r == Err::<CreatedTask<'a, H>, Error>(Error::Task)
                && *final(task) == *old(task),
            !name.spec_bytes().contains(0u8) ==> exists|t: &mut A, n: &Vec<u8>, h: Option<H>|
                {
                    &&& #[trigger] native_register.ensures((t, priority, n), h)
                    &&& *t == *old(task)
                    &&& *final(t) == *final(task)
                    &&& n@ == nul_terminated(name.spec_bytes())
                    &&& h is None ==> r == Err::<CreatedTask<'a, H>, Error>(Error::Task)
                    &&& h is Some ==> r is Ok && r->Ok_0.native() == h->0
                        && r->Ok_0.registered_name() == n@
                },
    {
        let bytes = match c_name(name) {
            Some(bytes) => bytes,
            None => return Err(Error::Task),
        };
        match native_register(task, priority, &bytes) {
            Some(handle) => Ok(CreatedTask::new(handle, bytes)),
            None => Err(Error::Task),
        }
    }

    /// Asks the native scheduler to run `task`: a zero status from
    /// `native_schedule` is success, any other is [`Error::Task`].
    pub fn schedule_auxiliary_task<H, F: FnOnce(&H) -> i32>(
        task: &CreatedTask<'_, H>,
        native_schedule: F,
    ) -> (r: Result<(), Error>)
        requires
            native_schedule.requires((&task.native(),)),
        ensures
            exists|status: i32|
                {
                    &&& #[trigger] native_schedule.ensures((&task.native(),), status)
                    &&& status == 0 ==> r == Ok::<(), Error>(())
                    &&& status != 0 ==> r == Err::<(), Error>(Error::Task)
                },
    {
        let status = native_schedule(task.handle());
        if status == 0 {
            Ok(())
        } else {
            Err(Error::Task)
        }
    }
}

impl<D, R, U, C> Bela<AppData<D, R, U, C>> {
    /// Replaces the render callback.
    pub fn set_render(&mut self, render: R)
        ensures
            final(self).current() == old(self).current(),
            final(self).data().render() == render,
            final(self).data().payload() == old(self).data().payload(),
            final(self).data().setup() == old(self).data().setup(),
            final(self).data().cleanup() == old(self).data().cleanup(),
    {
        self.user_data.set_render_fn(render);
    }

    /// Replaces the setup callback.
    pub fn set_setup(&mut self, setup: U)
        ensures
            final(self).current() == old(self).current(),
            final(self).data().setup() == Some(setup),
            final(self).data().payload() == old(self).data().payload(),
            final(self).data().render() == old(self).data().render(),
            final(self).data().cleanup() == old(self).data().cleanup(),
    {
        self.user_data.set_setup_fn(Some(setup));
    }

    /// Replaces the cleanup callback.
    pub fn set_cleanup(&mut self, cleanup: C)
        ensures
            final(self).current() == old(self).current(),
            final(self).data().cleanup() == Some(cleanup),
            final(self).data().payload() == old(self).data().payload(),
            final(self).data().render() == old(self).data().render(),
            final(self).data().setup() == old(self).data().setup(),
    {
        self.user_data.set_cleanup_fn(Some(cleanup));
    }
}

} // verus!
