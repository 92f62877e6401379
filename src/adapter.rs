//! The adapter protocol on the Rust side: a closure's captured state held behind one
//! uniform structure that can be called, and released exactly once when it is dropped.
use vstd::prelude::*;
use vstd::layout::size_of;

verus! {

/// How an adapter may be called.
#[derive(PartialEq, Eq, Structural, Clone, Copy)]
pub enum CallKind {
    /// Called many times, one call at a time; the closure may change its state.
    Mutable,
    /// Called many times, also at once from several threads; the closure only reads its state.
    Shared,
    /// Called at most once; the closure is consumed by the call.
    Once,
}

/// An adapter around a closure `F`.
///
/// `data` is the captured state; there is a call exactly when there is state. A single-use
/// adapter gives its closure up on the first call. Dropping an adapter drops the state it
/// still holds, so state that is never called is still released exactly once.
pub struct Closure<F> {
    data: Option<F>,
    kind: CallKind,
}

/// Types that share the layout of an adapter, between which an adapter may be reinterpreted.
pub trait ClosureMarkerTrait {}

impl<F> ClosureMarkerTrait for Closure<F> {}

/// Why a rebind was refused: the two types differ in size.
#[derive(PartialEq, Eq, Structural, Clone, Copy, Debug)]
pub struct LayoutMismatch {
    pub from_size: usize,
    pub to_size: usize,
}

impl<F> Closure<F> {
    /// The captured state, if the adapter still holds one.
    pub closed spec fn captured(&self) -> Option<F> {
        self.data
    }

    pub closed spec fn kind(&self) -> CallKind {
        self.kind
    }

    /// Whether a call reaches a closure.
    pub open spec fn is_callable(&self) -> bool {
        self.captured() is Some
    }

    /// Wraps a closure that may change its captured state, for calls one at a time.
    pub fn fn_mut<A, R>(f: F) -> (r: Self)
        where
            F: FnMut(A) -> R,
        ensures
            r.captured() == Some(f),
            r.kind() == CallKind::Mutable,
    {
        Closure { data: Some(f), kind: CallKind::Mutable }
    }

    /// Wraps a closure that only reads its captured state. Such an adapter can be called
    /// through a shared reference, with `call_shared`.
    pub fn fn_not_mut<A, R>(f: F) -> (r: Self)
        where
            F: Fn(A) -> R,
        ensures
            r.captured() == Some(f),
            r.kind() == CallKind::Shared,
    {
        Closure { data: Some(f), kind: CallKind::Shared }
    }

    /// Wraps a closure that may be called at most once.
    ///
    /// No call bound is put on `F` here, so that the closure keeps every call trait it has:
    /// `call` takes a closure that can be called repeatedly, `call_once` one that cannot.
    pub fn fn_once(f: F) -> (r: Self)
        ensures
            r.captured() == Some(f),
            r.kind() == CallKind::Once,
    {
        Closure { data: Some(f), kind: CallKind::Once }
    }

    /// Calls the closure with `arg`. Returns `None`, and calls nothing, when the adapter holds
    /// no closure: a no-op adapter, or a single-use adapter that was already called. A
    /// single-use adapter gives up its closure on the call.
    pub fn call<A, R>(&mut self, arg: A) -> (r: Option<R>)
        where
            F: FnMut(A) -> R,
        requires
            old(self).captured() is Some ==> call_requires(old(self).captured()->Some_0, (arg,)),
        ensures
            r is Some <==> old(self).captured() is Some,
            r is Some ==> call_ensures(old(self).captured()->Some_0, (arg,), r->Some_0),
            final(self).kind() == old(self).kind(),
            old(self).kind() == CallKind::Once ==> final(self).captured() is None,
            old(self).kind() != CallKind::Once ==> (final(self).captured() is Some
                <==> old(self).captured() is Some),
    {
        if self.kind == CallKind::Once {
            match self.data.take() {
                Some(mut f) => Some(f(arg)),
                None => None,
            }
        } else {
            match &mut self.data {
                Some(f) => Some(f(arg)),
                None => None,
            }
        }
    }

    /// Calls a closure that only reads its captured state, through a shared reference: no
    /// exclusive access is needed, so calls may overlap. The adapter is left as it is. Returns
    /// `None`, and calls nothing, when the adapter holds no closure.
    pub fn call_shared<A, R>(&self, arg: A) -> (r: Option<R>)
        where
            F: Fn(A) -> R,
        requires
            self.captured() is Some ==> call_requires(self.captured()->Some_0, (arg,)),
        ensures
            r is Some <==> self.captured() is Some,
            r is Some ==> call_ensures(self.captured()->Some_0, (arg,), r->Some_0),
    {
        match &self.data {
            Some(f) => Some(f(arg)),
            None => None,
        }
    }

    /// Calls the closure with `arg` and gives it up, whatever the kind: the call for a closure
    /// that can only be called once. Returns `None`, and calls nothing, when the adapter holds
    /// no closure.
    pub fn call_once<A, R>(&mut self, arg: A) -> (r: Option<R>)
        where
            F: FnOnce(A) -> R,
        requires
            old(self).captured() is Some ==> call_requires(old(self).captured()->Some_0, (arg,)),
        ensures
            r is Some <==> old(self).captured() is Some,
            r is Some ==> call_ensures(old(self).captured()->Some_0, (arg,), r->Some_0),
            final(self).kind() == old(self).kind(),
            final(self).captured() is None,
    {
        match self.data.take() {
            Some(f) => Some(f(arg)),
            None => None,
        }
    }

    /// An adapter that holds nothing, for any closure type: a call does nothing and returns
    /// nothing.
    pub fn new_noop() -> (r: Self)
        ensures
            r.captured() is None,
            !r.is_callable(),
            r.kind() == CallKind::Shared,
    {
        Closure { data: None, kind: CallKind::Shared }
    }
}

/// Whether a trampoline may build an argument of type `Arg` from the pointer it received:
/// not from a null pointer, unless `Arg` has no size and nothing is read.
pub fn argument_usable<Arg>(arg_is_null: bool) -> (r: bool)
    ensures
        r == !(arg_is_null && size_of::<Arg>() > 0),
{
    !(arg_is_null && core::mem::size_of::<Arg>() > 0)
}

/// Whether a value of type `C` may be reinterpreted as one of type `D`: both must carry the
/// adapter marker, and the check passes only when the two have the same size. It comes
/// before any reinterpretation.
pub fn check_rebind<C: ClosureMarkerTrait, D: ClosureMarkerTrait>() -> (r: Result<(), LayoutMismatch>)
    ensures
        r is Ok <==> size_of::<C>() == size_of::<D>(),
        r is Err ==> r->Err_0.from_size == size_of::<C>() && r->Err_0.to_size == size_of::<D>(),
{
    let from_size = core::mem::size_of::<C>();
    let to_size = core::mem::size_of::<D>();
    if from_size != to_size {
        Err(LayoutMismatch { from_size, to_size })
    } else {
        Ok(())
    }
}

} // verus!
