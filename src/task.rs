//! Auxiliary tasks: work that the native scheduler runs on a thread of lower
//! priority than the audio thread.

use vstd::prelude::*;
use vstd::string::StringSliceAdditionalSpecFns;

use core::marker::PhantomData;

verus! {

/// A task that splits into its callback and the argument the callback works
/// on, so that one registration can run it many times.
pub trait Auxiliary {
    /// What the callback works on.
    type Args;
    /// The callback, which runs on a `&mut Self::Args`.
    type Callback;

    /// The task's callback.
    spec fn callback_of(&self) -> Self::Callback;

    /// The task's argument.
    spec fn args_of(&self) -> Self::Args;

    /// The callback and its argument, lent out together; what is done
    /// through them is what the task holds afterwards.
    fn destructure(&mut self) -> (r: (&mut Self::Callback, &mut Self::Args))
        ensures
            *r.0 == old(self).callback_of(),
            *r.1 == old(self).args_of(),
            final(self).callback_of() == *final(r.0),
            final(self).args_of() == *final(r.1),
    ;
}

impl<T: Auxiliary> Auxiliary for Box<T> {
    type Args = T::Args;
    type Callback = T::Callback;

    open spec fn callback_of(&self) -> T::Callback {
        (**self).callback_of()
    }

    open spec fn args_of(&self) -> T::Args {
        (**self).args_of()
    }

    fn destructure(&mut self) -> (r: (&mut Self::Callback, &mut Self::Args)) {
        (**self).destructure()
    }
}

/// A task made of a callback and its argument.
pub struct AuxiliaryTask<F, A> {
    pub callback: F,
    pub args: A,
}

impl<F, A> AuxiliaryTask<F, A> {
    /// The callback.
    pub open spec fn callback(&self) -> F {
        self.callback
    }

    /// The argument.
    pub open spec fn argument(&self) -> A {
        self.args
    }

    /// A task that runs `callback` on `args`.
    pub fn new(callback: F, args: A) -> (r: Self)
        ensures
            r.callback() == callback,
            r.argument() == args,
    {
        AuxiliaryTask { callback, args }
    }
}

impl<F: FnMut(&mut A), A> Auxiliary for AuxiliaryTask<F, A> {
    type Args = A;
    type Callback = F;

    open spec fn callback_of(&self) -> F {
        self.callback
    }

    open spec fn args_of(&self) -> A {
        self.args
    }

    fn destructure(&mut self) -> (r: (&mut F, &mut A)) {
        (&mut self.callback, &mut self.args)
    }
}

/// A task registered with the native scheduler: its native handle, and the
/// NUL-terminated name it was registered under, which stays alive with it.
/// It holds the borrow of the task for `'a`, so that the task stays in place
/// and untouched while the handle lives.
pub struct CreatedTask<'a, H> {
    handle: H,
    name: Vec<u8>,
    task: PhantomData<&'a mut ()>,
}

impl<'a, H> CreatedTask<'a, H> {
    /// The native handle.
    pub closed spec fn native(&self) -> H {
        self.handle
    }

    /// The name, as registered.
    pub closed spec fn registered_name(&self) -> Seq<u8> {
        self.name@
    }

    /// Records a registration.
    pub fn new(handle: H, name: Vec<u8>) -> (r: Self)
        ensures
            r.native() == handle,
            r.registered_name() == name@,
    {
        CreatedTask { handle, name, task: PhantomData }
    }

    /// The native handle.
    pub fn handle(&self) -> (r: &H)
        ensures
            *r == self.native(),
    {
        &self.handle
    }

    /// The name, as registered.
    pub fn name(&self) -> (r: &[u8])
        ensures
            r@ == self.registered_name(),
    {
        self.name.as_slice()
    }
}

/// The bytes of `name` followed by a NUL, as the native layer reads a name.
pub open spec fn nul_terminated(name: Seq<u8>) -> Seq<u8> {
    name.push(0u8)
}

/// `name` as a NUL-terminated byte string; `None` where `name` holds a NUL
/// byte of its own, which would cut it short.
pub fn c_name(name: &str) -> (r: Option<Vec<u8>>)
    ensures
        r is Some <==> !name.spec_bytes().contains(0u8),
        r is Some ==> r->0@ == nul_terminated(name.spec_bytes()),
{
    let bytes = name.as_bytes();
    let mut out: Vec<u8> = Vec::new();
    let mut i: usize = 0;
    while i < bytes.len()
        invariant
            bytes@ == name.spec_bytes(),
            0 <= i <= bytes.len(),
            out@ == bytes@.subrange(0, i as int),
            forall|j: int| 0 <= j < i ==> bytes@[j] != 0u8,
        decreases bytes.len() - i,
    {
        if bytes[i] == 0 {
            return None;
        }
        out.push(bytes[i]);
        i += 1;
        proof {
            assert(out@ =~= bytes@.subrange(0, i as int));
        }
    }
    out.push(0);
    proof {
        assert(out@ =~= nul_terminated(name.spec_bytes()));
    }
    Some(out)
}

} // verus!
