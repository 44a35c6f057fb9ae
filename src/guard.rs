use vstd::prelude::*;
use crate::protocol::{hook_steps, steps_for, Exit, Lifecycle, Step};

verus! {

/// A guard over a running task: it owns the task's handle `H`, the hook
/// state `S` handed to the pre-action, the pre-action `P` and the
/// post-action `Q`. Leaving it moves all of them out at once, so the join and
/// each hook can happen at most once.
pub struct Guard<H, S, P, Q> {
    handle: Option<H>,
    state: Option<S>,
    pre: Option<P>,
    post: Option<Q>,
}

/// What a guard holds.
pub struct GuardView<H, S, P, Q> {
    pub handle: Option<H>,
    pub state: Option<S>,
    pub pre: Option<P>,
    pub post: Option<Q>,
}

/// What leaving a guard hands to the caller: the handle to join, the hook
/// state, and the hooks that take part in this join.
pub struct Teardown<H, S, P, Q> {
    pub handle: H,
    pub state: Option<S>,
    pub pre: Option<P>,
    pub post: Option<Q>,
}

impl<H, S, P, Q> Teardown<H, S, P, Q> {
    /// The steps this teardown calls for, in order.
    pub open spec fn plan(&self) -> Seq<Step> {
        hook_steps(self.pre is Some, self.post is Some)
    }

    /// Lists the steps this teardown calls for, in order: the pre-action (if
    /// any), the join, the post-action (if any).
    pub fn steps(&self) -> (r: Vec<Step>)
        ensures
            r@ == self.plan(),
    {
        steps_for(self.pre.is_some(), self.post.is_some())
    }
}

/// The steps that the outcome of leaving a guard calls for: none when the
/// guard had already been left.
pub open spec fn planned<H, S, P, Q>(t: Option<Teardown<H, S, P, Q>>) -> Seq<Step> {
    match t {
        Some(t) => t.plan(),
        None => seq![],
    }
}

impl<H, S, P, Q> GuardView<H, S, P, Q> {
    /// The guard's lifecycle: whether it owns the handle and which hooks.
    pub open spec fn lifecycle(self) -> Lifecycle {
        Lifecycle { armed: self.handle is Some, pre: self.pre is Some, post: self.post is Some }
    }

    /// A guard that has been left holds nothing.
    pub open spec fn spent() -> Self {
        GuardView { handle: None, state: None, pre: None, post: None }
    }

    /// What leaving the guard by `exit` hands out: everything it holds,
    /// except that the post-action is dropped unused on an explicit join.
    /// Nothing when the guard no longer owns the handle.
    pub open spec fn teardown(self, exit: Exit) -> Option<Teardown<H, S, P, Q>> {
        match self.handle {
            Some(h) => Some(
                Teardown {
                    handle: h,
                    state: self.state,
                    pre: self.pre,
                    post: if exit == Exit::Implicit {
                        self.post
                    } else {
                        None
                    },
                },
            ),
            None => None,
        }
    }
}

impl<H, S, P, Q> View for Guard<H, S, P, Q> {
    type V = GuardView<H, S, P, Q>;

    closed spec fn view(&self) -> GuardView<H, S, P, Q> {
        GuardView { handle: self.handle, state: self.state, pre: self.pre, post: self.post }
    }
}

impl<H, S, P, Q> Guard<H, S, P, Q> {
    /// A guard with no hooks: leaving it only joins the task.
    pub fn new(handle: H) -> (r: Self)
        ensures
            r@ == (GuardView::<H, S, P, Q> { handle: Some(handle), state: None, pre: None, post: None }),
    {
        Guard { handle: Some(handle), state: None, pre: None, post: None }
    }

    /// A guard whose pre-action runs before the join, however it is left.
    pub fn with_pre_action(handle: H, state: S, pre_action: P) -> (r: Self)
        ensures
            r@ == (GuardView::<H, S, P, Q> {
                handle: Some(handle),
                state: Some(state),
                pre: Some(pre_action),
                post: None,
            }),
    {
        Guard { handle: Some(handle), state: Some(state), pre: Some(pre_action), post: None }
    }

    /// A guard whose post-action receives the task's outcome when the guard
    /// goes out of scope without being joined.
    pub fn with_post_action(handle: H, post_action: Q) -> (r: Self)
        ensures
            r@ == (GuardView::<H, S, P, Q> {
                handle: Some(handle),
                state: None,
                pre: None,
                post: Some(post_action),
            }),
    {
        Guard { handle: Some(handle), state: None, pre: None, post: Some(post_action) }
    }

    /// A guard with both hooks.
    pub fn with_actions(handle: H, state: S, pre_action: P, post_action: Q) -> (r: Self)
        ensures
            r@ == (GuardView::<H, S, P, Q> {
                handle: Some(handle),
                state: Some(state),
                pre: Some(pre_action),
                post: Some(post_action),
            }),
    {
        Guard {
            handle: Some(handle),
            state: Some(state),
            pre: Some(pre_action),
            post: Some(post_action),
        }
    }

    /// Whether the guard still owns the task's handle, that is, has not been
    /// left yet.
    pub fn is_armed(&self) -> (r: bool)
        ensures
            r == (self@.handle is Some),
    {
        self.handle.is_some()
    }

    /// Leaves the guard by `exit`: moves out the handle, the hook state and
    /// the hooks that take part, and leaves the guard inert. On an explicit
    /// join the post-action is dropped unused. A guard that was already left
    /// hands out nothing.
    pub fn leave(&mut self, exit: Exit) -> (r: Option<Teardown<H, S, P, Q>>)
        ensures
            r == old(self)@.teardown(exit),
            final(self)@ == GuardView::<H, S, P, Q>::spent(),
            planned(r) == old(self)@.lifecycle().plan(exit),
    {
        let handle = self.handle.take();
        let state = self.state.take();
        let pre = self.pre.take();
        let post = self.post.take();
        match handle {
            Some(h) => {
                let post = match exit {
                    Exit::Implicit => post,
                    Exit::Explicit => None,
                };
                Some(Teardown { handle: h, state, pre, post })
            },
            None => None,
        }
    }
}

} // verus!
