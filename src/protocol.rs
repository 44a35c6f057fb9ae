use vstd::prelude::*;

verus! {

/// How a guard leaves its owner's hands.
#[derive(Clone, Copy, Debug, PartialEq, Eq, Structural)]
pub enum Exit {
    /// The owner called `join`, and takes the task's outcome itself.
    Explicit,
    /// The guard went out of scope without being joined: a normal or early
    /// return, a propagated error, or unwinding.
    Implicit,
}

/// One step that leaving a guard calls for.
#[derive(Clone, Copy, Debug, PartialEq, Eq, Structural)]
pub enum Step {
    /// Call the pre-action with the hook state and the handle.
    RunPre,
    /// Block until the task has finished and take its outcome.
    Join,
    /// Hand the outcome to the post-action.
    RunPost,
}

/// The steps of one join, given which hooks take part: the pre-action (if
/// any), then the join, then the post-action (if any).
pub open spec fn hook_steps(pre: bool, post: bool) -> Seq<Step> {
    (if pre { seq![Step::RunPre] } else { seq![] }) + seq![Step::Join] + (if post {
        seq![Step::RunPost]
    } else {
        seq![]
    })
}

/// Builds the steps of one join, given which hooks take part.
pub fn steps_for(pre: bool, post: bool) -> (r: Vec<Step>)
    ensures
        r@ == hook_steps(pre, post),
{
    let mut r: Vec<Step> = Vec::new();
    if pre {
        r.push(Step::RunPre);
    }
    r.push(Step::Join);
    if post {
        r.push(Step::RunPost);
    }
    assert(r@ =~= hook_steps(pre, post));
    r
}

/// What a guard still owns, seen from the join protocol.
#[derive(Clone, Copy, Debug, PartialEq, Eq, Structural)]
pub struct Lifecycle {
    /// The guard still owns the task's handle: the task has not been joined.
    pub armed: bool,
    /// A pre-action is registered and has not run.
    pub pre: bool,
    /// A post-action is registered and has not run.
    pub post: bool,
}

impl Lifecycle {
    /// The lifecycle of a guard after it has been left: inert.
    pub open spec fn spent() -> Lifecycle {
        Lifecycle { armed: false, pre: false, post: false }
    }

    /// The steps that leaving the guard by `exit` calls for. A guard that
    /// was already left calls for none. Otherwise the pre-action (if still
    /// registered) runs, then the join; the post-action runs only when the
    /// guard is left implicitly.
    pub open spec fn plan(self, exit: Exit) -> Seq<Step> {
        if self.armed {
            hook_steps(self.pre, self.post && exit == Exit::Implicit)
        } else {
            seq![]
        }
    }

    /// The steps that a series of exits calls for, taken in turn: the first
    /// one leaves the guard, and the guard is spent from then on.
    pub open spec fn trace(self, exits: Seq<Exit>) -> Seq<Step>
        decreases exits.len(),
    {
        if exits.len() == 0 {
            seq![]
        } else {
            self.plan(exits[0]) + Lifecycle::spent().trace(exits.drop_first())
        }
    }

    /// Builds the steps that leaving the guard by `exit` calls for.
    pub fn plan_exit(&self, exit: Exit) -> (r: Vec<Step>)
        ensures
            r@ == self.plan(exit),
    {
        if self.armed {
            let post = self.post && exit == Exit::Implicit;
            steps_for(self.pre, post)
        } else {
            Vec::new()
        }
    }
}

/// `k` stands in `s` at exactly one place.
pub open spec fn occurs_once(s: Seq<Step>, k: Step) -> bool {
    exists|i: int|
        0 <= i < s.len() && s[i] == k && forall|j: int| 0 <= j < s.len() && s[j] == k ==> j == i
}

/// `k` does not stand in `s`.
pub open spec fn absent(s: Seq<Step>, k: Step) -> bool {
    forall|i: int| 0 <= i < s.len() ==> s[i] != k
}

/// Every `a` in `s` comes before every `b`.
pub open spec fn precedes(s: Seq<Step>, a: Step, b: Step) -> bool {
    forall|i: int, j: int| 0 <= i < s.len() && 0 <= j < s.len() && s[i] == a && s[j] == b ==> i < j
}

/// Where each step stands in the steps of one join.
proof fn lemma_hook_steps_layout(pre: bool, post: bool)
    ensures
        ({
            let s = hook_steps(pre, post);
            let j: int = if pre { 1 } else { 0 };
            &&& s.len() == j + 1 + (if post { 1int } else { 0 })
            &&& forall|i: int|
                0 <= i < s.len() ==> s[i] == (if i < j {
                    Step::RunPre
                } else if i == j {
                    Step::Join
                } else {
                    Step::RunPost
                })
        }),
{
    let s = hook_steps(pre, post);
    if pre {
        if post {
            assert(s =~= seq![Step::RunPre, Step::Join, Step::RunPost]);
        } else {
            assert(s =~= seq![Step::RunPre, Step::Join]);
        }
    } else {
        if post {
            assert(s =~= seq![Step::Join, Step::RunPost]);
        } else {
            assert(s =~= seq![Step::Join]);
        }
    }
}

/// A spent guard calls for no step, whatever exits follow.
proof fn lemma_spent_trace(exits: Seq<Exit>)
    ensures
        Lifecycle::spent().trace(exits) == Seq::<Step>::empty(),
    decreases exits.len(),
{
    if exits.len() > 0 {
        lemma_spent_trace(exits.drop_first());
        assert(Lifecycle::spent().trace(exits) =~= Seq::<Step>::empty());
    }
}

/// Only the first exit does anything: the trace is the first exit's plan.
proof fn lemma_trace_is_first_plan(l: Lifecycle, exits: Seq<Exit>)
    requires
        exits.len() > 0,
    ensures
        l.trace(exits) == l.plan(exits[0]),
{
    lemma_spent_trace(exits.drop_first());
    assert(l.trace(exits) =~= l.plan(exits[0]));
}

/// Whatever mix of explicit joins and scope exits a guard that owns its
/// handle goes through, its task is joined exactly once.
pub proof fn lemma_single_join(l: Lifecycle, exits: Seq<Exit>)
    requires
        l.armed,
        exits.len() > 0,
    ensures
        occurs_once(l.trace(exits), Step::Join),
{
    lemma_trace_is_first_plan(l, exits);
    lemma_hook_steps_layout(l.pre, l.post && exits[0] == Exit::Implicit);
    let j: int = if l.pre { 1 } else { 0 };
    assert(l.trace(exits)[j] == Step::Join);
}

/// Each registered hook runs at most once over the guard's life. The
/// pre-action runs exactly once whichever way the guard is left; the
/// post-action runs exactly once when the guard is left by going out of
/// scope, and never when it is joined explicitly. A hook that was not
/// registered never runs.
pub proof fn lemma_hooks_once(l: Lifecycle, exits: Seq<Exit>)
    requires
        l.armed,
        exits.len() > 0,
    ensures
        l.pre ==> occurs_once(l.trace(exits), Step::RunPre),
        !l.pre ==> absent(l.trace(exits), Step::RunPre),
        l.post && exits[0] == Exit::Implicit ==> occurs_once(l.trace(exits), Step::RunPost),
        !(l.post && exits[0] == Exit::Implicit) ==> absent(l.trace(exits), Step::RunPost),
{
    lemma_trace_is_first_plan(l, exits);
    let post = l.post && exits[0] == Exit::Implicit;
    lemma_hook_steps_layout(l.pre, post);
    let s = l.trace(exits);
    if l.pre {
        assert(s[0] == Step::RunPre);
    }
    if post {
        assert(s[s.len() - 1] == Step::RunPost);
    }
}

/// A guard that is joined explicitly never runs its post-action, whatever
/// follows.
pub proof fn lemma_no_post_on_explicit_join(l: Lifecycle, exits: Seq<Exit>)
    requires
        exits.len() > 0,
        exits[0] == Exit::Explicit,
    ensures
        absent(l.trace(exits), Step::RunPost),
{
    lemma_trace_is_first_plan(l, exits);
    if l.armed {
        lemma_hook_steps_layout(l.pre, false);
    }
}

/// A guard with a post-action that goes out of scope without being joined
/// runs the post-action exactly once, after the join, so that it sees the
/// task's outcome.
pub proof fn lemma_post_runs_on_drop(l: Lifecycle, exits: Seq<Exit>)
    requires
        l.armed,
        l.post,
        exits.len() > 0,
        exits[0] == Exit::Implicit,
    ensures
        occurs_once(l.trace(exits), Step::RunPost),
        precedes(l.trace(exits), Step::Join, Step::RunPost),
{
    lemma_hooks_once(l, exits);
    lemma_trace_is_first_plan(l, exits);
    lemma_hook_steps_layout(l.pre, true);
}

/// The pre-action runs before the task is joined, and so before the
/// post-action, whichever way the guard is left.
pub proof fn lemma_pre_before_join(l: Lifecycle, exits: Seq<Exit>)
    requires
        exits.len() > 0,
    ensures
        precedes(l.trace(exits), Step::RunPre, Step::Join),
        precedes(l.trace(exits), Step::RunPre, Step::RunPost),
{
    lemma_trace_is_first_plan(l, exits);
    if l.armed {
        lemma_hook_steps_layout(l.pre, l.post && exits[0] == Exit::Implicit);
    }
}

} // verus!
