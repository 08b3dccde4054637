use session_verification::listener_tasks::ListenerTasks;
use std::sync::Arc;
use tokio::task::AbortHandle;

fn block_on<F: std::future::Future>(future: F) -> F::Output {
    tokio::runtime::Builder::new_current_thread().build().expect("a runtime").block_on(future)
}

fn abort<I: IntoIterator<Item = AbortHandle>>(handles: I) {
    for handle in handles {
        handle.abort();
    }
}

#[test]
fn replacing_concrete_listener_cancels_previous_task() {
    block_on(async {
        let mut tasks = ListenerTasks::default();
        let first = tokio::spawn(std::future::pending::<()>());
        abort(tasks.replace_concrete_listener(first.abort_handle(), false));

        let second = tokio::spawn(std::future::pending::<()>());
        abort(tasks.replace_concrete_listener(second.abort_handle(), false));

        assert!(first.await.expect_err("replaced listener must be cancelled").is_cancelled());
        abort(tasks.abort_all());
        assert!(second.await.expect_err("active listener must be drained").is_cancelled());
    });
}

#[test]
fn concrete_handoff_cancels_request_fallback() {
    block_on(async {
        let mut tasks = ListenerTasks::default();
        let request = tokio::spawn(std::future::pending::<()>());
        abort(tasks.replace_request_listener(request.abort_handle()));

        let concrete = tokio::spawn(std::future::pending::<()>());
        abort(tasks.replace_concrete_listener(concrete.abort_handle(), true));

        assert!(request.await.expect_err("request fallback must be cancelled").is_cancelled());
        abort(tasks.abort_all());
        assert!(concrete.await.expect_err("concrete listener must be drained").is_cancelled());
    });
}

/// Owns the tasks as an application does: whoever drops it last aborts them.
struct TaskOwner {
    tasks: ListenerTasks<AbortHandle>,
}

impl Drop for TaskOwner {
    fn drop(&mut self) {
        abort(self.tasks.abort_all());
    }
}

#[test]
fn dropping_final_task_owner_cancels_all_listeners() {
    block_on(async {
        let mut owner = TaskOwner { tasks: ListenerTasks::default() };
        let request = tokio::spawn(std::future::pending::<()>());
        let concrete = tokio::spawn(std::future::pending::<()>());
        abort(owner.tasks.replace_request_listener(request.abort_handle()));
        abort(owner.tasks.replace_concrete_listener(concrete.abort_handle(), false));
        let tasks = Arc::new(owner);
        let weak_tasks = Arc::downgrade(&tasks);

        drop(tasks);

        assert!(weak_tasks.upgrade().is_none());
        assert!(request.await.expect_err("request listener must be drained").is_cancelled());
        assert!(concrete.await.expect_err("concrete listener must be drained").is_cancelled());
    });
}

#[test]
fn request_listener_is_replaced_by_the_next() {
    let mut tasks: ListenerTasks<u64> = ListenerTasks::default();
    assert_eq!(tasks.replace_request_listener(1), None);
    assert_eq!(tasks.replace_request_listener(2), Some(1));
    assert_eq!(tasks.abort_request_listener(), Some(2));
    assert_eq!(tasks.abort_request_listener(), None);
}

#[test]
fn concrete_listener_is_returned_before_the_request_listener() {
    let mut tasks: ListenerTasks<u64> = ListenerTasks::default();
    assert_eq!(tasks.replace_request_listener(1), None);
    assert_eq!(tasks.replace_concrete_listener(2, false), Vec::<u64>::new());
    assert_eq!(tasks.replace_concrete_listener(3, true), vec![2, 1]);
    assert_eq!(tasks.abort_all(), vec![3]);
    assert_eq!(tasks.abort_all(), Vec::<u64>::new());
}

#[test]
fn aborting_the_concrete_listener_keeps_the_request_listener() {
    let mut tasks: ListenerTasks<u64> = ListenerTasks::default();
    assert_eq!(tasks.replace_request_listener(1), None);
    assert_eq!(tasks.replace_concrete_listener(2, false), Vec::<u64>::new());
    assert_eq!(tasks.abort_concrete_listener(), Some(2));
    assert_eq!(tasks.abort_concrete_listener(), None);
    assert_eq!(tasks.abort_all(), vec![1]);
}
