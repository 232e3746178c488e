use tyto::executor::Executor;
use tyto::task::{Task, TaskId, TaskIds};

fn spawn_three(executor: &mut Executor<&'static str>, ids: &mut TaskIds) -> (TaskId, TaskId, TaskId) {
    let a = Task::new("a", ids);
    let b = Task::new("b", ids);
    let c = Task::new("c", ids);
    let named = (a.id(), b.id(), c.id());
    assert!(executor.spawn(a).is_ok());
    assert!(executor.spawn(b).is_ok());
    assert!(executor.spawn(c).is_ok());
    named
}

fn poll_pending(executor: &mut Executor<&'static str>) -> TaskId {
    let task = executor.take_ready().expect("a task is ready");
    let id = task.id();
    executor.finish(task, false);
    id
}

#[test]
fn task_ids_increase() {
    let mut ids = TaskIds::new();
    assert_eq!(TaskId::new(&mut ids).as_u64(), 0);
    assert_eq!(TaskId::new(&mut ids).as_u64(), 1);
    assert_eq!(TaskId::new(&mut ids).as_u64(), 2);
    let task = Task::new(5u8, &mut ids);
    assert_eq!(task.id().as_u64(), 3);
    assert_eq!(task.id, task.id());
    assert_eq!(task.into_future(), 5);
    let mut task = Task::new(String::from("work"), &mut ids);
    assert_eq!(task.id().as_u64(), 4);
    task.future_mut().push('!');
    assert_eq!(task.into_future(), "work!");
}

#[test]
fn tasks_are_polled_in_the_order_they_were_spawned() {
    let mut ids = TaskIds::new();
    let mut executor = Executor::new();
    assert!(executor.is_idle());
    let (a, b, c) = spawn_three(&mut executor, &mut ids);
    assert!(!executor.is_idle());
    assert_eq!(executor.task_count(), 3);
    assert_eq!(poll_pending(&mut executor), a);
    assert_eq!(poll_pending(&mut executor), b);
    assert_eq!(poll_pending(&mut executor), c);
    assert!(executor.is_idle());
    assert!(executor.take_ready().is_none());
    assert_eq!(executor.task_count(), 3);
}

#[test]
fn a_waker_does_not_move_a_task_ahead_of_those_that_are_ready() {
    let mut ids = TaskIds::new();
    let mut executor = Executor::new();
    let (a, b, c) = spawn_three(&mut executor, &mut ids);
    executor.wake(c);
    assert_eq!(poll_pending(&mut executor), a);
    assert_eq!(poll_pending(&mut executor), b);
    assert_eq!(poll_pending(&mut executor), c);
    assert!(executor.is_idle());
}

#[test]
fn suspended_tasks_are_polled_in_the_order_their_wakers_fired() {
    let mut ids = TaskIds::new();
    let mut executor = Executor::new();
    let (a, b, c) = spawn_three(&mut executor, &mut ids);
    for _ in 0..3 {
        poll_pending(&mut executor);
    }
    executor.wake(c);
    executor.wake(a);
    executor.wake(c);
    executor.wake(b);
    assert_eq!(poll_pending(&mut executor), c);
    assert_eq!(poll_pending(&mut executor), a);
    assert_eq!(poll_pending(&mut executor), b);
    assert!(executor.is_idle());
}

#[test]
fn a_completed_task_is_never_polled_again() {
    let mut ids = TaskIds::new();
    let mut executor = Executor::new();
    let (a, b, _) = spawn_three(&mut executor, &mut ids);
    let task = executor.take_ready().expect("a is ready");
    assert_eq!(task.id(), a);
    executor.finish(task, true);
    assert_eq!(executor.task_count(), 2);
    executor.wake(a);
    assert_eq!(poll_pending(&mut executor), b);
    let task = executor.take_ready().expect("c is ready");
    executor.finish(task, true);
    executor.wake(a);
    assert!(executor.is_idle());
    executor.wake(b);
    assert_eq!(poll_pending(&mut executor), b);
    assert!(executor.is_idle());
    assert_eq!(executor.task_count(), 1);
}

#[test]
fn a_wake_during_the_poll_is_not_lost() {
    let mut ids = TaskIds::new();
    let mut executor = Executor::new();
    let (a, b, _) = spawn_three(&mut executor, &mut ids);
    let task = executor.take_ready().expect("a is ready");
    assert!(executor.take_ready().is_none());
    executor.wake(a);
    executor.finish(task, false);
    assert_eq!(poll_pending(&mut executor), b);
    poll_pending(&mut executor);
    assert_eq!(poll_pending(&mut executor), a);
    assert!(executor.is_idle());
}

#[test]
fn an_identifier_is_held_once() {
    let mut ids = TaskIds::new();
    let mut executor = Executor::new();
    let task = Task::new(1u8, &mut ids);
    let id = task.id();
    assert!(executor.spawn(task).is_ok());
    let mut again = TaskIds::new();
    let twin = Task::new(2u8, &mut again);
    assert_eq!(twin.id(), id);
    let back = executor.spawn(twin).expect_err("the identifier is taken");
    assert_eq!(back.into_future(), 2);
    assert_eq!(executor.task_count(), 1);
}
