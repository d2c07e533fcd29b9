//! Promises: cells that are completed at most once, with a value or with an
//! error, and that call back those who asked to be told.

use vstd::prelude::*;

verus! {

/// Where the work of a promise runs.
#[derive(Debug, Clone, Copy, PartialEq, Eq, Structural)]
pub enum ExecutionContext {
    /// In the caller's own context, at once.
    ImmediateContext,
}

impl ExecutionContext {
    /// Runs `f` in this context.
    pub fn execute<F>(&self, f: F) where F: FnOnce()
        requires
            call_requires(f, ()),
        ensures
            call_ensures(f, (), ()),
    {
        match self {
            ExecutionContext::ImmediateContext => f(),
        }
    }
}

/// Something that can be called once with a reference to a `T`. Every
/// function and closure that takes a `&T` and can be sent to another thread is
/// one.
pub trait Callback<T>: Send {
    /// Whether the callback may be called with `t`.
    spec fn accepts(&self, t: &T) -> bool;

    /// What holds once the callback has been called with `t`.
    spec fn done(&self, t: &T) -> bool;

    /// Calls the callback.
    fn invoke(self: Box<Self>, t: &T)
        requires
            self.accepts(t),
        ensures
            self.done(t),
    ;
}

impl<T, F: FnOnce(&T) + Send> Callback<T> for F {
    open spec fn accepts(&self, t: &T) -> bool {
        call_requires(*self, (t,))
    }

    open spec fn done(&self, t: &T) -> bool {
        call_ensures(*self, (t,), ())
    }

    fn invoke(self: Box<Self>, t: &T) {
        (*self)(t)
    }
}

/// A callback that waits in a promise.
#[verifier::reject_recursive_types(T)]
pub struct Queued<T> {
    call: Box<dyn Callback<T>>,
}

impl<T> Queued<T> {
    /// Whether the callback may be called with `t`.
    pub closed spec fn accepts(&self, t: &T) -> bool {
        self.call.accepts(t)
    }

    /// What holds once the callback has been called with `t`.
    pub closed spec fn done(&self, t: &T) -> bool {
        self.call.done(t)
    }

    /// Whether this is the callback `f`, waiting.
    pub open spec fn holds<F: FnOnce(&T)>(&self, f: F) -> bool {
        &&& forall|t: &T| #[trigger] self.accepts(t) == call_requires(f, (t,))
        &&& forall|t: &T| #[trigger] self.done(t) == call_ensures(f, (t,), ())
    }

    /// Puts `f` in a box, to wait.
    fn new<F>(f: F) -> (r: Queued<T>) where F: FnOnce(&T) + Send + 'static
        ensures
            r.holds(f),
    {
        let call: Box<dyn Callback<T>> = Box::new(f);
        Queued { call }
    }

    /// Calls the callback.
    fn invoke(self, t: &T)
        requires
            self.accepts(t),
        ensures
            self.done(t),
    {
        self.call.invoke(t)
    }
}

/// Whether every callback of `queue` may be called with every argument.
pub open spec fn all_accept<T>(queue: Seq<Queued<T>>) -> bool {
    forall|i: int, t: &T| 0 <= i < queue.len() ==> #[trigger] queue[i].accepts(t)
}

/// Whether every callback of `queue` has been called with `t`.
pub open spec fn all_done<T>(queue: Seq<Queued<T>>, t: &T) -> bool {
    forall|i: int| 0 <= i < queue.len() ==> #[trigger] queue[i].done(t)
}

/// A value of type `A` that may not be there yet, or an error of type `E` in
/// its place. Callbacks attached before the promise is completed wait in the
/// order in which they came, and are called when it is completed; callbacks
/// attached afterwards are called at once.
#[verifier::reject_recursive_types(A)]
#[verifier::reject_recursive_types(E)]
pub struct Promise<A, E> {
    data: Option<Result<A, E>>,
    success_callbacks: Vec<Queued<A>>,
    failure_callbacks: Vec<Queued<E>>,
    execution_context: ExecutionContext,
}

/// Makes promises that run in one execution context.
pub struct PromiseFactory {
    pub execution_context: ExecutionContext,
}

impl PromiseFactory {
    /// A promise that is not completed yet and on which nobody waits.
    pub fn incomplete<A, E>(&self) -> (r: Promise<A, E>)
        ensures
            r.wf(),
            r.data() is None,
            r.waiting_success().len() == 0,
            r.waiting_failure().len() == 0,
            r.context() == self.execution_context,
    {
        Promise {
            data: None,
            success_callbacks: Vec::with_capacity(1),
            failure_callbacks: Vec::with_capacity(1),
            execution_context: self.execution_context,
        }
    }

    /// A promise that is completed from the start, with the value or the error
    /// of `a`.
    pub fn completed<A, E>(&self, a: Result<A, E>) -> (r: Promise<A, E>)
        ensures
            r.wf(),
            r.data() == Some(a),
            r.waiting_success().len() == 0,
            r.waiting_failure().len() == 0,
            r.context() == self.execution_context,
    {
        Promise {
            data: Some(a),
            success_callbacks: Vec::with_capacity(1),
            failure_callbacks: Vec::with_capacity(1),
            execution_context: self.execution_context,
        }
    }
}

/// A promise in the immediate context that is not completed yet and on which
/// nobody waits.
pub fn incomplete<A, E>() -> (r: Promise<A, E>)
    ensures
        r.wf(),
        r.data() is None,
        r.waiting_success().len() == 0,
        r.waiting_failure().len() == 0,
        r.context() == ExecutionContext::ImmediateContext,
{
    PromiseFactory { execution_context: ExecutionContext::ImmediateContext }.incomplete()
}

/// A promise in the immediate context that is completed from the start, with
/// the value or the error of `a`.
pub fn completed<A, E>(a: Result<A, E>) -> (r: Promise<A, E>)
    ensures
        r.wf(),
        r.data() == Some(a),
        r.waiting_success().len() == 0,
        r.waiting_failure().len() == 0,
        r.context() == ExecutionContext::ImmediateContext,
{
    PromiseFactory { execution_context: ExecutionContext::ImmediateContext }.completed(a)
}

impl<A, E> Promise<A, E> {
    /// The value or the error with which the promise was completed.
    pub closed spec fn data(&self) -> Option<Result<A, E>> {
        self.data
    }

    /// The callbacks that wait for a value, oldest first.
    pub closed spec fn waiting_success(&self) -> Seq<Queued<A>> {
        self.success_callbacks@
    }

    /// The callbacks that wait for an error, oldest first.
    pub closed spec fn waiting_failure(&self) -> Seq<Queued<E>> {
        self.failure_callbacks@
    }

    /// The context in which the promise runs.
    pub closed spec fn context(&self) -> ExecutionContext {
        self.execution_context
    }

    /// Whether the promise is in order: each callback that waits may be called
    /// with whatever comes, none waits for a value in a promise that holds
    /// one, and none waits for an error in a promise that holds one.
    pub open spec fn wf(&self) -> bool {
        &&& all_accept(self.waiting_success())
        &&& all_accept(self.waiting_failure())
        &&& self.data() matches Some(Ok(_)) ==> self.waiting_success().len() == 0
        &&& self.data() matches Some(Err(_)) ==> self.waiting_failure().len() == 0
    }

    /// Asks to be called with the value. If the promise holds a value,
    /// `on_success` is called with it at once; if it holds an error,
    /// `on_success` is never called; if it is not completed yet, `on_success`
    /// waits behind the callbacks that came before it.
    pub fn success<F>(&mut self, on_success: F) where F: FnOnce(&A) + Send + 'static
        requires
            old(self).wf(),
            match old(self).data() {
                Some(Ok(a)) => call_requires(on_success, (&a,)),
                Some(Err(_)) => true,
                None => forall|a: &A| call_requires(on_success, (a,)),
            },
        ensures
            final(self).wf(),
            final(self).data() == old(self).data(),
            final(self).context() == old(self).context(),
            final(self).waiting_failure() == old(self).waiting_failure(),
            match old(self).data() {
                Some(Ok(a)) => call_ensures(on_success, (&a,), ()) && final(self).waiting_success()
                    == old(self).waiting_success(),
                Some(Err(_)) => final(self).waiting_success() == old(self).waiting_success(),
                None => final(self).waiting_success().len() == old(self).waiting_success().len() + 1
                    && final(self).waiting_success().drop_last() == old(self).waiting_success()
                    && final(self).waiting_success().last().holds(on_success),
            },
    {
        match &self.data {
            Some(Ok(a)) => on_success(a),
            Some(Err(_)) => (),
            None => {
                let waiting = Queued::new(on_success);
                self.success_callbacks.push(waiting);
            },
        }
    }

    /// Asks to be called with the error. If the promise holds an error,
    /// `on_failure` is called with it at once; if it holds a value,
    /// `on_failure` is never called; if it is not completed yet, `on_failure`
    /// waits behind the callbacks that came before it.
    pub fn failure<F>(&mut self, on_failure: F) where F: FnOnce(&E) + Send + 'static
        requires
            old(self).wf(),
            match old(self).data() {
                Some(Err(e)) => call_requires(on_failure, (&e,)),
                Some(Ok(_)) => true,
                None => forall|e: &E| call_requires(on_failure, (e,)),
            },
        ensures
            final(self).wf(),
            final(self).data() == old(self).data(),
            final(self).context() == old(self).context(),
            final(self).waiting_success() == old(self).waiting_success(),
            match old(self).data() {
                Some(Err(e)) => call_ensures(on_failure, (&e,), ()) && final(self).waiting_failure()
                    == old(self).waiting_failure(),
                Some(Ok(_)) => final(self).waiting_failure() == old(self).waiting_failure(),
                None => final(self).waiting_failure().len() == old(self).waiting_failure().len() + 1
                    && final(self).waiting_failure().drop_last() == old(self).waiting_failure()
                    && final(self).waiting_failure().last().holds(on_failure),
            },
    {
        match &self.data {
            Some(Err(e)) => on_failure(e),
            Some(Ok(_)) => (),
            None => {
                let waiting = Queued::new(on_failure);
                self.failure_callbacks.push(waiting);
            },
        }
    }

    /// Completes the promise with the value `a`: calls every callback that
    /// waits for a value with it, oldest first, so that none waits for a value
    /// any more. The callbacks that wait for an error are neither called nor
    /// let go. A promise that is completed already stays as it is.
    pub fn complete(&mut self, a: A)
        requires
            old(self).wf(),
        ensures
            final(self).wf(),
            final(self).context() == old(self).context(),
            final(self).waiting_failure() == old(self).waiting_failure(),
            old(self).data() is Some ==> final(self).data() == old(self).data()
                && final(self).waiting_success() == old(self).waiting_success(),
            old(self).data() is None ==> final(self).data() == Some(Ok::<A, E>(a)) && all_done(
                old(self).waiting_success(),
                &a,
            ) && final(self).waiting_success().len() == 0,
    {
        if self.data.is_some() {
            return ;
        }
        let ghost waiting = self.success_callbacks@;
        let ghost called: int = 0;
        while self.success_callbacks.len() > 0
            invariant
                0 <= called <= waiting.len(),
                all_accept(waiting),
                self.success_callbacks@ == waiting.skip(called),
                forall|i: int| 0 <= i < called ==> #[trigger] waiting[i].done(&a),
                self.data == old(self).data,
                self.failure_callbacks == old(self).failure_callbacks,
                self.execution_context == old(self).execution_context,
            decreases self.success_callbacks@.len(),
        {
            let next = self.success_callbacks.remove(0);
            next.invoke(&a);
            proof {
                called = called + 1;
            }
        }
        self.data = Some(Ok(a));
    }

    /// Completes the promise with the error `err`: calls every callback that
    /// waits for an error with it, oldest first, so that none waits for an
    /// error any more. The callbacks that wait for a value are neither called
    /// nor let go. A promise that is completed already stays as it is.
    pub fn fail(&mut self, err: E)
        requires
            old(self).wf(),
        ensures
            final(self).wf(),
            final(self).context() == old(self).context(),
            final(self).waiting_success() == old(self).waiting_success(),
            old(self).data() is Some ==> final(self).data() == old(self).data()
                && final(self).waiting_failure() == old(self).waiting_failure(),
            old(self).data() is None ==> final(self).data() == Some(Err::<A, E>(err)) && all_done(
                old(self).waiting_failure(),
                &err,
            ) && final(self).waiting_failure().len() == 0,
    {
        if self.data.is_some() {
            return ;
        }
        let ghost waiting = self.failure_callbacks@;
        let ghost called: int = 0;
        while self.failure_callbacks.len() > 0
            invariant
                0 <= called <= waiting.len(),
                all_accept(waiting),
                self.failure_callbacks@ == waiting.skip(called),
                forall|i: int| 0 <= i < called ==> #[trigger] waiting[i].done(&err),
                self.data == old(self).data,
                self.success_callbacks == old(self).success_callbacks,
                self.execution_context == old(self).execution_context,
            decreases self.failure_callbacks@.len(),
        {
            let next = self.failure_callbacks.remove(0);
            next.invoke(&err);
            proof {
                called = called + 1;
            }
        }
        self.data = Some(Err(err));
    }
}

} // verus!
