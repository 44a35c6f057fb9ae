use std::cell::Cell;

use thread_guard::{Exit, Guard, Lifecycle, Step, Teardown};

/// A stand-in for a task handle: joining it yields its outcome.
struct FakeTask {
    outcome: Result<i32, String>,
    joined: Cell<u32>,
}

type Pre<'a> = Box<dyn FnOnce(&mut Vec<&'static str>, &FakeTask) + 'a>;
type Post<'a> = Box<dyn FnOnce(Result<i32, String>) + 'a>;
type TestGuard<'a> = Guard<&'a FakeTask, Vec<&'static str>, Pre<'a>, Post<'a>>;

/// Carries out a teardown's steps in the order it gives them, and returns the
/// outcome of the join along with the hook state.
fn perform(t: Teardown<&FakeTask, Vec<&'static str>, Pre<'_>, Post<'_>>) -> (Result<i32, String>, Vec<&'static str>) {
    let steps = t.steps();
    let handle = t.handle;
    let mut state = t.state.unwrap_or_default();
    let mut pre = t.pre;
    let mut post = t.post;
    let mut outcome = None;
    for step in steps {
        match step {
            Step::RunPre => (pre.take().unwrap())(&mut state, handle),
            Step::Join => {
                handle.joined.set(handle.joined.get() + 1);
                state.push("join");
                outcome = Some(handle.outcome.clone());
            }
            Step::RunPost => {
                state.push("post");
                (post.take().unwrap())(outcome.clone().unwrap());
            }
        }
    }
    (outcome.unwrap(), state)
}

fn task(outcome: Result<i32, String>) -> FakeTask {
    FakeTask { outcome, joined: Cell::new(0) }
}

#[test]
fn join_without_hooks_returns_result() {
    let t = task(Ok(42));
    let mut g: TestGuard = Guard::new(&t);
    let td = g.leave(Exit::Explicit).unwrap();
    assert_eq!(td.steps(), vec![Step::Join]);
    let (outcome, _) = perform(td);
    assert_eq!(outcome, Ok(42));
    assert_eq!(t.joined.get(), 1);
    assert!(g.leave(Exit::Implicit).is_none());
    assert_eq!(t.joined.get(), 1);
}

#[test]
fn drop_without_hooks_joins_silently() {
    let t = task(Ok(42));
    let mut g: TestGuard = Guard::new(&t);
    let td = g.leave(Exit::Implicit).unwrap();
    assert_eq!(td.steps(), vec![Step::Join]);
    perform(td);
    assert_eq!(t.joined.get(), 1);
    assert!(!g.is_armed());
}

#[test]
fn explicit_join_skips_post_action() {
    let t = task(Ok(7));
    let post_ran = Cell::new(false);
    let pre_ran = Cell::new(0u32);
    let mut g: TestGuard = Guard::with_actions(
        &t,
        Vec::new(),
        Box::new(|s: &mut Vec<&'static str>, _: &FakeTask| {
            pre_ran.set(pre_ran.get() + 1);
            s.push("pre");
        }),
        Box::new(|_| post_ran.set(true)),
    );
    let td = g.leave(Exit::Explicit).unwrap();
    assert!(td.post.is_none());
    assert_eq!(td.steps(), vec![Step::RunPre, Step::Join]);
    let (outcome, state) = perform(td);
    assert_eq!(outcome, Ok(7));
    assert_eq!(state, vec!["pre", "join"]);
    assert!(g.leave(Exit::Implicit).is_none());
    assert!(!post_ran.get());
    assert_eq!(pre_ran.get(), 1);
}

#[test]
fn post_action_runs_once_on_drop_with_outcome() {
    let t = task(Ok(5));
    let seen = Cell::new(None);
    let runs = Cell::new(0u32);
    let mut g: TestGuard = Guard::with_post_action(
        &t,
        Box::new(|r: Result<i32, String>| {
            runs.set(runs.get() + 1);
            seen.set(r.ok());
        }),
    );
    let td = g.leave(Exit::Implicit).unwrap();
    assert_eq!(td.steps(), vec![Step::Join, Step::RunPost]);
    perform(td);
    assert!(g.leave(Exit::Implicit).is_none());
    assert!(g.leave(Exit::Explicit).is_none());
    assert_eq!(runs.get(), 1);
    assert_eq!(seen.get(), Some(5));
    assert_eq!(t.joined.get(), 1);
}

#[test]
fn pre_action_runs_before_join() {
    let t = task(Ok(1));
    let mut g: TestGuard = Guard::with_pre_action(
        &t,
        vec!["start"],
        Box::new(|s: &mut Vec<&'static str>, h: &FakeTask| {
            assert_eq!(h.joined.get(), 0);
            s.push("pre");
        }),
    );
    let td = g.leave(Exit::Implicit).unwrap();
    assert_eq!(td.steps(), vec![Step::RunPre, Step::Join]);
    let (_, state) = perform(td);
    assert_eq!(state, vec!["start", "pre", "join"]);
}

#[test]
fn all_hooks_in_order_on_drop() {
    let t = task(Ok(3));
    let mut g: TestGuard = Guard::with_actions(
        &t,
        Vec::new(),
        Box::new(|s: &mut Vec<&'static str>, _: &FakeTask| s.push("pre")),
        Box::new(|_| {}),
    );
    let td = g.leave(Exit::Implicit).unwrap();
    assert_eq!(td.steps(), vec![Step::RunPre, Step::Join, Step::RunPost]);
    let (_, state) = perform(td);
    assert_eq!(state, vec!["pre", "join", "post"]);
}

#[test]
fn failed_task_outcome_reaches_post_action_intact() {
    let t = task(Err(String::from("boom")));
    let seen = Cell::new(None);
    let mut g: TestGuard = Guard::with_post_action(
        &t,
        Box::new(|r: Result<i32, String>| seen.set(r.err())),
    );
    let td = g.leave(Exit::Implicit).unwrap();
    perform(td);
    assert_eq!(seen.take(), Some(String::from("boom")));
}

#[test]
fn failed_task_outcome_reaches_joiner_intact() {
    let t = task(Err(String::from("boom")));
    let mut g: TestGuard = Guard::new(&t);
    let (outcome, _) = perform(g.leave(Exit::Explicit).unwrap());
    assert_eq!(outcome, Err(String::from("boom")));
}

#[test]
fn left_guard_plans_nothing() {
    let spent = Lifecycle { armed: false, pre: false, post: false };
    assert!(spent.plan_exit(Exit::Implicit).is_empty());
    assert!(spent.plan_exit(Exit::Explicit).is_empty());
}

#[test]
fn lifecycle_plans_by_exit() {
    let full = Lifecycle { armed: true, pre: true, post: true };
    assert_eq!(full.plan_exit(Exit::Implicit), vec![Step::RunPre, Step::Join, Step::RunPost]);
    assert_eq!(full.plan_exit(Exit::Explicit), vec![Step::RunPre, Step::Join]);
    let bare = Lifecycle { armed: true, pre: false, post: false };
    assert_eq!(bare.plan_exit(Exit::Implicit), vec![Step::Join]);
    assert_eq!(bare.plan_exit(Exit::Explicit), vec![Step::Join]);
    let post_only = Lifecycle { armed: true, pre: false, post: true };
    assert_eq!(post_only.plan_exit(Exit::Implicit), vec![Step::Join, Step::RunPost]);
    assert_eq!(post_only.plan_exit(Exit::Explicit), vec![Step::Join]);
}

#[test]
fn steps_for_each_hook_combination() {
    assert_eq!(thread_guard::protocol::steps_for(false, false), vec![Step::Join]);
    assert_eq!(thread_guard::protocol::steps_for(true, false), vec![Step::RunPre, Step::Join]);
    assert_eq!(thread_guard::protocol::steps_for(false, true), vec![Step::Join, Step::RunPost]);
    assert_eq!(
        thread_guard::protocol::steps_for(true, true),
        vec![Step::RunPre, Step::Join, Step::RunPost]
    );
}
