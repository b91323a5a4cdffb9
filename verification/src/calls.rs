//! Handler contracts and the tagged registry entry.
//!
//! A method handler turns call parameters (and, for the context-aware
//! variant, a metadata value) into an asynchronous computation that resolves
//! to a result or an error; a notification handler runs for its effect and
//! reports nothing. Each trait carries, beside the executable method, a pair
//! of spec functions: the precondition under which the handler may be
//! invoked, and what a completed call promises — the relation its outcome
//! satisfies for a method, the guarantee that holds for a notification. The
//! functional adapters let a plain function or closure serve as a handler,
//! with the closure's own `call_requires`/`call_ensures` as that contract.

use std::rc::Rc;
use std::sync::Arc;

use futures::future::FutureResult;
use vstd::prelude::*;

use crate::computation::{ready_computation, resolved_outcome};
use crate::values::{Error, Params, Value};

verus! {

/// Relies on std's `Rc::clone`: the clone is a new handle to the same
/// shared allocation, so it carries the same value.
#[verifier::external_body]
fn rc_dup<T>(r: &Rc<T>) -> (res: Rc<T>)
    ensures
        res == *r,
{
    Rc::clone(r)
}

/// Relies on std's `Arc::clone`: the clone is a new handle to the same
/// shared allocation, so it carries the same value.
#[verifier::external_body]
fn arc_dup<T>(a: &Arc<T>) -> (res: Arc<T>)
    ensures
        res == *a,
{
    Arc::clone(a)
}

/// The capability a per-call context type must have: duplicating a value
/// yields an independent, indistinguishable handle, and the value stays
/// valid for an unbounded duration, so it can be captured into a computation
/// that outlives the registering call.
///
/// The unit type qualifies, and so — without re-declaration — do an optional
/// wrapper, a heap-owned wrapper and a shared-ownership wrapper over a
/// qualifying type.
pub trait Metadata: Sized + 'static {
    /// Duplicate the context value; the duplicate carries the same value as
    /// the original.
    fn dup(&self) -> (res: Self)
        ensures
            res == *self,
    ;
}

impl Metadata for () {
    fn dup(&self) -> (res: Self) {
        ()
    }
}

impl<T: Metadata> Metadata for Option<T> {
    fn dup(&self) -> (res: Self) {
        match self {
            Some(t) => Some(t.dup()),
            None => None,
        }
    }
}

impl<T: Metadata> Metadata for Box<T> {
    fn dup(&self) -> (res: Self) {
        Box::new((**self).dup())
    }
}

impl<T: 'static> Metadata for Rc<T> {
    fn dup(&self) -> (res: Self) {
        rc_dup(self)
    }
}

impl<T: 'static> Metadata for Arc<T> {
    fn dup(&self) -> (res: Self) {
        arc_dup(self)
    }
}

/// A method handler that needs no per-call context.
///
/// `call` consumes the parameters and returns a computation; the computation
/// resolves, exactly once, to an outcome that satisfies `call_post`.
pub trait RpcMethodSimple: 'static {
    /// When the handler may be invoked on these parameters.
    spec fn call_req(&self, params: Params) -> bool;

    /// Which outcomes the handler may produce for these parameters.
    spec fn call_post(&self, params: Params, outcome: Result<Value, Error>) -> bool;

    /// Call the method.
    fn call(&self, params: Params) -> (c: FutureResult<Value, Error>)
        requires
            self.call_req(params),
        ensures
            self.call_post(params, resolved_outcome(c)),
    ;
}

/// A method handler that also receives a per-call metadata value.
pub trait RpcMethod<T: Metadata>: 'static {
    /// When the handler may be invoked on these parameters and context.
    spec fn call_req(&self, params: Params, meta: T) -> bool;

    /// Which outcomes the handler may produce for these parameters and context.
    spec fn call_post(&self, params: Params, meta: T, outcome: Result<Value, Error>) -> bool;

    /// Call the method.
    fn call(&self, params: Params, meta: T) -> (c: FutureResult<Value, Error>)
        requires
            self.call_req(params, meta),
        ensures
            self.call_post(params, meta, resolved_outcome(c)),
    ;
}

/// A fire-and-forget handler that needs no per-call context: it runs for its
/// effect and reports no outcome.
pub trait RpcNotificationSimple: 'static {
    /// When the notification may be executed on these parameters.
    spec fn execute_req(&self, params: Params) -> bool;

    /// What the handler guarantees to have done for these parameters once
    /// `execute` returns.
    spec fn execute_post(&self, params: Params) -> bool;

    /// Execute the notification.
    fn execute(&self, params: Params)
        requires
            self.execute_req(params),
        ensures
            self.execute_post(params),
    ;
}

/// A fire-and-forget handler that also receives a per-call metadata value.
pub trait RpcNotification<T: Metadata>: 'static {
    /// When the notification may be executed on these parameters and context.
    spec fn execute_req(&self, params: Params, meta: T) -> bool;

    /// What the handler guarantees to have done for these parameters and
    /// context once `execute` returns.
    spec fn execute_post(&self, params: Params, meta: T) -> bool;

    /// Execute the notification.
    fn execute(&self, params: Params, meta: T)
        requires
            self.execute_req(params, meta),
        ensures
            self.execute_post(params, meta),
    ;
}

/// Adapter that lets a plain function serve as a context-free method
/// handler: the wrapped function's own contract becomes the handler's.
pub struct MethodFn<F> {
    f: F,
}

impl<F> MethodFn<F> {
    /// The wrapped function.
    pub closed spec fn func(self) -> F {
        self.f
    }

    /// Wraps a function as a method handler.
    pub fn new(f: F) -> (m: MethodFn<F>)
        ensures
            m.func() == f,
    {
        MethodFn { f }
    }
}

impl<F: Fn(Params) -> Result<Value, Error> + 'static> RpcMethodSimple for MethodFn<F> {
    open spec fn call_req(&self, params: Params) -> bool {
        call_requires(self.func(), (params,))
    }

    open spec fn call_post(&self, params: Params, outcome: Result<Value, Error>) -> bool {
        call_ensures(self.func(), (params,), outcome)
    }

    fn call(&self, params: Params) -> (c: FutureResult<Value, Error>) {
        let outcome = (self.f)(params);
        ready_computation(outcome)
    }
}

/// Adapter that lets a plain function serve as a context-aware method
/// handler: the wrapped function's own contract becomes the handler's.
pub struct MethodWithMetaFn<F> {
    f: F,
}

impl<F> MethodWithMetaFn<F> {
    /// The wrapped function.
    pub closed spec fn func(self) -> F {
        self.f
    }

    /// Wraps a function as a context-aware method handler.
    pub fn new(f: F) -> (m: MethodWithMetaFn<F>)
        ensures
            m.func() == f,
    {
        MethodWithMetaFn { f }
    }
}

impl<T: Metadata, F: Fn(Params, T) -> Result<Value, Error> + 'static> RpcMethod<
    T,
> for MethodWithMetaFn<F> {
    open spec fn call_req(&self, params: Params, meta: T) -> bool {
        call_requires(self.func(), (params, meta))
    }

    open spec fn call_post(&self, params: Params, meta: T, outcome: Result<Value, Error>) -> bool {
        call_ensures(self.func(), (params, meta), outcome)
    }

    fn call(&self, params: Params, meta: T) -> (c: FutureResult<Value, Error>) {
        let outcome = (self.f)(params, meta);
        ready_computation(outcome)
    }
}

/// Adapter that lets a plain function serve as a context-free notification
/// handler: the wrapped function's own contract becomes the handler's.
pub struct NotificationFn<F> {
    f: F,
}

impl<F> NotificationFn<F> {
    /// The wrapped function.
    pub closed spec fn func(self) -> F {
        self.f
    }

    /// Wraps a function as a notification handler.
    pub fn new(f: F) -> (n: NotificationFn<F>)
        ensures
            n.func() == f,
    {
        NotificationFn { f }
    }
}

impl<F: Fn(Params) -> () + 'static> RpcNotificationSimple for NotificationFn<F> {
    open spec fn execute_req(&self, params: Params) -> bool {
        call_requires(self.func(), (params,))
    }

    open spec fn execute_post(&self, params: Params) -> bool {
        call_ensures(self.func(), (params,), ())
    }

    fn execute(&self, params: Params) {
        (self.f)(params);
    }
}

/// Adapter that lets a plain function serve as a context-aware notification
/// handler: the wrapped function's own contract becomes the handler's.
pub struct NotificationWithMetaFn<F> {
    f: F,
}

impl<F> NotificationWithMetaFn<F> {
    /// The wrapped function.
    pub closed spec fn func(self) -> F {
        self.f
    }

    /// Wraps a function as a context-aware notification handler.
    pub fn new(f: F) -> (n: NotificationWithMetaFn<F>)
        ensures
            n.func() == f,
    {
        NotificationWithMetaFn { f }
    }
}

impl<T: Metadata, F: Fn(Params, T) -> () + 'static> RpcNotification<
    T,
> for NotificationWithMetaFn<F> {
    open spec fn execute_req(&self, params: Params, meta: T) -> bool {
        call_requires(self.func(), (params, meta))
    }

    open spec fn execute_post(&self, params: Params, meta: T) -> bool {
        call_ensures(self.func(), (params, meta), ())
    }

    fn execute(&self, params: Params, meta: T) {
        (self.f)(params, meta);
    }
}

/// A registry entry: a method handler, a notification handler, or an alias
/// redirecting to another registered name. Entries are immutable after
/// construction and share their handler: registering one handler under two
/// names never duplicates handler state.
pub enum RemoteProcedure<M, N> {
    /// A method call.
    Method(Arc<M>),
    /// A notification.
    Notification(Arc<N>),
    /// An alias to another method.
    Alias(String),
}

impl<M, N> Clone for RemoteProcedure<M, N> {
    /// The clone shares the underlying handler instance; it is
    /// indistinguishable from the original entry.
    fn clone(&self) -> (res: Self)
        ensures
            res == *self,
    {
        match self {
            RemoteProcedure::Method(m) => RemoteProcedure::Method(arc_dup(m)),
            RemoteProcedure::Notification(n) => RemoteProcedure::Notification(arc_dup(n)),
            RemoteProcedure::Alias(a) => RemoteProcedure::Alias(a.clone()),
        }
    }
}

impl<M, N> RemoteProcedure<M, N> {
    /// The diagnostic rendering of an entry: a fixed opaque marker for a
    /// method, a distinct fixed opaque marker for a notification, and the
    /// quoted target name for an alias. Handler internals are never shown.
    pub open spec fn spec_render(self) -> Seq<char> {
        match self {
            RemoteProcedure::Method(_) => "<method>"@,
            RemoteProcedure::Notification(_) => "<notification>"@,
            RemoteProcedure::Alias(a) => "alias => \""@ + a@ + "\""@,
        }
    }

    /// Renders the entry for diagnostics, distinguishing the variants
    /// without exposing handler internals.
    pub fn debug_string(&self) -> (s: String)
        ensures
            s@ == self.spec_render(),
    {
        match self {
            RemoteProcedure::Method(_) => "<method>".to_owned(),
            RemoteProcedure::Notification(_) => "<notification>".to_owned(),
            RemoteProcedure::Alias(a) => {
                let mut s = "alias => \"".to_owned();
                s.append(a.as_str());
                s.append("\"");
                s
            },
        }
    }

    /// When an entry may be invoked: the handler's own precondition for a
    /// method or a notification, nothing for an alias (which is not a
    /// handler and is never invoked).
    pub open spec fn invoke_req<T: Metadata>(self, params: Params, meta: T) -> bool where
        M: RpcMethod<T>,
        N: RpcNotification<T>,
    {
        match self {
            RemoteProcedure::Method(m) => m.call_req(params, meta),
            RemoteProcedure::Notification(n) => n.execute_req(params, meta),
            RemoteProcedure::Alias(_) => true,
        }
    }

    /// What invoking an entry yields: a method's computation resolves to an
    /// outcome the handler admits; a notification executes — its handler's
    /// guarantee holds — and answers nothing; an alias is left unresolved,
    /// carrying its target name.
    pub open spec fn invoke_post<T: Metadata>(
        self,
        params: Params,
        meta: T,
        inv: Invocation,
    ) -> bool where M: RpcMethod<T>, N: RpcNotification<T> {
        match self {
            RemoteProcedure::Method(m) => inv matches Invocation::Response(c) && m.call_post(
                params,
                meta,
                resolved_outcome(c),
            ),
            RemoteProcedure::Notification(n) => inv is NoResponse && n.execute_post(params, meta),
            RemoteProcedure::Alias(a) => inv matches Invocation::Unresolved(t) && t@ == a@,
        }
    }

    /// Invokes the entry with the given parameters and context: obtains a
    /// method's computation, executes a notification, and declines an alias
    /// by handing back its target name for the caller to follow.
    pub fn invoke<T: Metadata>(&self, params: Params, meta: T) -> (inv: Invocation) where
        M: RpcMethod<T>,
        N: RpcNotification<T>,

        requires
            self.invoke_req(params, meta),
        ensures
            self.invoke_post(params, meta, inv),
    {
        match self {
            RemoteProcedure::Method(m) => Invocation::Response(m.call(params, meta)),
            RemoteProcedure::Notification(n) => {
                n.execute(params, meta);
                Invocation::NoResponse
            },
            RemoteProcedure::Alias(a) => Invocation::Unresolved(a.clone()),
        }
    }
}

/// What invoking a registry entry yields.
pub enum Invocation {
    /// A method's asynchronous computation, resolving to its outcome.
    Response(FutureResult<Value, Error>),
    /// A notification was executed; there is no observable result.
    NoResponse,
    /// The entry is an alias to the carried name; following it is the
    /// caller's responsibility.
    Unresolved(String),
}

/// Cloning an entry duplicates the reference, not the underlying handler's
/// state: any clone is indistinguishable from the original, so invoking two
/// clones with identical parameters and metadata is invoking the one shared
/// handler twice.
pub proof fn lemma_clone_shares_handler<M, N>(
    original: RemoteProcedure<M, N>,
    copy: RemoteProcedure<M, N>,
)
    requires
        cloned(original, copy),
    ensures
        copy == original,
{
}

/// Wrapping a plain function and calling the adapter is observationally
/// equivalent to calling the function itself: the outcomes the adapter
/// admits are exactly the input-output pairs of the wrapped function, and
/// the adapter may be invoked exactly where the function may.
pub proof fn lemma_method_fn_equivalence<F: Fn(Params) -> Result<Value, Error> + 'static>(
    m: MethodFn<F>,
    params: Params,
    outcome: Result<Value, Error>,
)
    ensures
        m.call_post(params, outcome) <==> call_ensures(m.func(), (params,), outcome),
        m.call_req(params) <==> call_requires(m.func(), (params,)),
{
}

/// Wrapping a plain context-aware function and calling the adapter is
/// observationally equivalent to calling the function itself.
pub proof fn lemma_method_with_meta_fn_equivalence<
    T: Metadata,
    F: Fn(Params, T) -> Result<Value, Error> + 'static,
>(m: MethodWithMetaFn<F>, params: Params, meta: T, outcome: Result<Value, Error>)
    ensures
        m.call_req(params, meta) <==> call_requires(m.func(), (params, meta)),
        m.call_post(params, meta, outcome) <==> call_ensures(m.func(), (params, meta), outcome),
{
}

/// Wrapping a plain function and executing the adapter is observationally
/// equivalent to calling the function itself: the adapter may be executed
/// exactly where the function may be called, and what the adapter
/// guarantees is exactly what a completed call of the function guarantees.
pub proof fn lemma_notification_fn_equivalence<F: Fn(Params) -> () + 'static>(
    n: NotificationFn<F>,
    params: Params,
)
    ensures
        n.execute_req(params) <==> call_requires(n.func(), (params,)),
        n.execute_post(params) <==> call_ensures(n.func(), (params,), ()),
{
}

/// Wrapping a plain context-aware function and executing the adapter is
/// observationally equivalent to calling the function itself.
pub proof fn lemma_notification_with_meta_fn_equivalence<
    T: Metadata,
    F: Fn(Params, T) -> () + 'static,
>(n: NotificationWithMetaFn<F>, params: Params, meta: T)
    ensures
        n.execute_req(params, meta) <==> call_requires(n.func(), (params, meta)),
        n.execute_post(params, meta) <==> call_ensures(n.func(), (params, meta), ()),
{
}

/// A computation resolves to exactly one of a result value or an error,
/// never both and never neither: its one outcome is a `Result`, and the
/// outcome of a given computation is unique because [`resolved_outcome`]
/// is a function of the computation.
pub proof fn lemma_resolves_to_one_outcome(c: FutureResult<Value, Error>)
    ensures
        (resolved_outcome(c) is Ok) <==> !(resolved_outcome(c) is Err),
{
}

} // verus!
