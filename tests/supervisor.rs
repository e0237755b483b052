use task_supervisor::{
    exit_status, tag_line, Action, Signal, Stream, Task, TaskManager, TaskMessage, TaskStatus,
};

fn next_action(mgr: &mut TaskManager) -> Action {
    let rx = mgr.receiver();
    let msg = rx.try_recv().expect("a queued message");
    mgr.handle(msg)
}

fn spawned(mgr: &mut TaskManager, command: &str, pid: u32) -> u64 {
    let id = mgr.create_task(command.to_string());
    assert!(mgr.run_task(id));
    match next_action(mgr) {
        Action::Spawn { id: i, command: c } => {
            assert_eq!(i, id);
            assert_eq!(c, command);
        }
        other => panic!("expected a spawn, got {:?}", other),
    }
    mgr.record_spawn(id, Some(pid));
    id
}

#[test]
fn unknown_ids_give_empty_answers() {
    let mut mgr = TaskManager::new();
    mgr.create_task("true".to_string());
    for id in [0u64, 2, 7, u64::MAX] {
        assert_eq!(mgr.get_task_status(id), None);
        assert!(mgr.get_task_output(id).is_empty());
        assert!(!mgr.run_task(id));
        assert!(!mgr.stop_task(id));
        assert!(!mgr.kill_task(id));
    }
    assert!(mgr.receiver().try_recv().is_err());
    assert!(matches!(mgr.handle(TaskMessage::Run(9)), Action::Nothing));
    assert!(matches!(mgr.handle(TaskMessage::WriteOutput(9, "x".to_string())), Action::Nothing));
    assert_eq!(mgr.get_all_tasks().len(), 1);
}

#[test]
fn created_task_is_pending() {
    let mut mgr = TaskManager::new();
    let a = mgr.create_task("echo a".to_string());
    let b = mgr.create_task("echo b".to_string());
    assert_eq!(a, 1);
    assert_eq!(b, 2);
    assert_eq!(mgr.get_task_status(a), Some(TaskStatus::Pending));
    assert_eq!(mgr.get_task_status(b), Some(TaskStatus::Pending));
    assert_eq!(mgr.task_count(), 2);
}

#[test]
fn successful_exit_completes() {
    let mut mgr = TaskManager::new();
    let id = spawned(&mut mgr, "true", 100);
    assert_eq!(mgr.get_task_status(id), Some(TaskStatus::Running));
    mgr.handle(TaskMessage::UpdateStatus(id, exit_status(true)));
    assert_eq!(mgr.get_task_status(id), Some(TaskStatus::Completed));
}

#[test]
fn failing_exit_fails() {
    let mut mgr = TaskManager::new();
    let id = spawned(&mut mgr, "false", 101);
    mgr.handle(TaskMessage::UpdateStatus(id, exit_status(false)));
    assert_eq!(mgr.get_task_status(id), Some(TaskStatus::Failed));
}

#[test]
fn stopped_and_killed_are_sticky() {
    let mut mgr = TaskManager::new();
    let id = spawned(&mut mgr, "sleep 5", 102);
    assert!(mgr.stop_task(id));
    next_action(&mut mgr);
    assert_eq!(mgr.get_task_status(id), Some(TaskStatus::Stopped));
    assert!(mgr.kill_task(id));
    next_action(&mut mgr);
    assert_eq!(mgr.get_task_status(id), Some(TaskStatus::Stopped));
    mgr.handle(TaskMessage::UpdateStatus(id, exit_status(true)));
    assert_eq!(mgr.get_task_status(id), Some(TaskStatus::Stopped));

    let other = spawned(&mut mgr, "sleep 5", 103);
    mgr.handle(TaskMessage::Kill(other));
    mgr.handle(TaskMessage::Stop(other));
    mgr.handle(TaskMessage::UpdateStatus(other, exit_status(false)));
    assert_eq!(mgr.get_task_status(other), Some(TaskStatus::Killed));
}

#[test]
fn interleaved_output_keeps_every_line() {
    let mut mgr = TaskManager::new();
    let id = spawned(&mut mgr, "sh script", 104);
    let lines = [
        tag_line(Stream::Stdout, "one"),
        tag_line(Stream::Stderr, "two"),
        tag_line(Stream::Stdout, "three"),
        tag_line(Stream::Stderr, ""),
    ];
    for line in lines.iter() {
        mgr.handle(TaskMessage::WriteOutput(id, line.clone()));
    }
    assert_eq!(
        mgr.get_task_output(id),
        vec!["[stdout] one", "[stderr] two", "[stdout] three", "[stderr] "]
    );
}

#[test]
fn echo_hello_completes_with_one_line() {
    let mut mgr = TaskManager::new();
    let id = spawned(&mut mgr, "echo hello", 200);
    mgr.handle(TaskMessage::WriteOutput(id, tag_line(Stream::Stdout, "hello")));
    mgr.handle(TaskMessage::UpdateStatus(id, exit_status(true)));
    assert_eq!(mgr.get_task_status(id), Some(TaskStatus::Completed));
    assert_eq!(mgr.get_task_output(id), vec!["[stdout] hello".to_string()]);
}

#[test]
fn sleep_stopped_at_once() {
    let mut mgr = TaskManager::new();
    let id = spawned(&mut mgr, "sleep 5", 201);
    assert!(mgr.stop_task(id));
    match next_action(&mut mgr) {
        Action::Signal { pid, signal } => {
            assert_eq!(pid, 201);
            assert_eq!(signal, Signal::Terminate);
        }
        other => panic!("expected a signal, got {:?}", other),
    }
    assert_eq!(mgr.get_task_status(id), Some(TaskStatus::Stopped));
}

#[test]
fn kill_sends_forced_signal() {
    let mut mgr = TaskManager::new();
    let id = spawned(&mut mgr, "sleep 5", 202);
    match mgr.handle(TaskMessage::Kill(id)) {
        Action::Signal { pid, signal } => {
            assert_eq!(pid, 202);
            assert_eq!(signal, Signal::Kill);
        }
        other => panic!("expected a signal, got {:?}", other),
    }
    assert_eq!(mgr.get_task_status(id), Some(TaskStatus::Killed));
}

#[test]
fn missing_program_fails_without_pid() {
    let mut mgr = TaskManager::new();
    let id = mgr.create_task("no-such-program-here".to_string());
    assert!(mgr.run_task(id));
    assert!(matches!(next_action(&mut mgr), Action::Spawn { .. }));
    mgr.record_spawn(id, None);
    assert_eq!(mgr.get_task_status(id), Some(TaskStatus::Failed));
    let tasks = mgr.get_all_tasks();
    assert_eq!(tasks.len(), 1);
    assert_eq!(tasks[0].pid, None);
    assert_eq!(tasks[0].status, TaskStatus::Failed);
}

#[test]
fn run_of_unknown_id_changes_nothing() {
    let mut mgr = TaskManager::new();
    let id = mgr.create_task("echo hi".to_string());
    assert!(!mgr.run_task(id + 1));
    assert!(mgr.receiver().try_recv().is_err());
    assert_eq!(mgr.get_task_status(id), Some(TaskStatus::Pending));
    assert_eq!(mgr.task_count(), 1);
}

#[test]
fn stop_before_spawn_is_ignored() {
    let mut mgr = TaskManager::new();
    let id = mgr.create_task("sleep 1".to_string());
    assert!(matches!(mgr.handle(TaskMessage::Stop(id)), Action::Nothing));
    assert!(matches!(mgr.handle(TaskMessage::Kill(id)), Action::Nothing));
    assert_eq!(mgr.get_task_status(id), Some(TaskStatus::Pending));
}

#[test]
fn running_task_is_not_run_twice() {
    let mut mgr = TaskManager::new();
    let id = spawned(&mut mgr, "sleep 5", 203);
    assert!(matches!(mgr.handle(TaskMessage::Run(id)), Action::Nothing));
    mgr.handle(TaskMessage::UpdateStatus(id, exit_status(true)));
    assert!(matches!(mgr.handle(TaskMessage::Run(id)), Action::Spawn { .. }));
}

#[test]
fn completed_can_be_overwritten_by_late_event() {
    let mut mgr = TaskManager::new();
    let id = spawned(&mut mgr, "true", 204);
    mgr.handle(TaskMessage::UpdateStatus(id, TaskStatus::Completed));
    mgr.handle(TaskMessage::UpdateStatus(id, TaskStatus::Failed));
    assert_eq!(mgr.get_task_status(id), Some(TaskStatus::Failed));
}

#[test]
fn tags_and_exit_statuses() {
    assert_eq!(tag_line(Stream::Stdout, "hello"), "[stdout] hello");
    assert_eq!(tag_line(Stream::Stderr, "oops"), "[stderr] oops");
    assert_eq!(exit_status(true), TaskStatus::Completed);
    assert_eq!(exit_status(false), TaskStatus::Failed);
}

#[test]
fn new_task_record() {
    let t = Task::new(5, "ls".to_string());
    assert_eq!(t.id, 5);
    assert_eq!(t.name, "ls");
    assert_eq!(t.status, TaskStatus::Pending);
    assert_eq!(t.pid, None);
    assert!(t.output.is_empty());
    let c = t.snapshot();
    assert_eq!(c.name, "ls");
    assert_eq!(c.id, 5);
}

#[test]
fn requests_are_queued_in_order() {
    let mut mgr = TaskManager::new();
    let rx = mgr.receiver();
    let id = mgr.create_task("sleep 5".to_string());
    assert!(rx.try_recv().is_err());
    assert!(mgr.run_task(id));
    assert!(mgr.stop_task(id));
    assert!(mgr.kill_task(id));
    assert!(!mgr.run_task(id + 1));
    assert!(matches!(rx.try_recv(), Ok(TaskMessage::Run(i)) if i == id));
    assert!(matches!(rx.try_recv(), Ok(TaskMessage::Stop(i)) if i == id));
    assert!(matches!(rx.try_recv(), Ok(TaskMessage::Kill(i)) if i == id));
    assert!(rx.try_recv().is_err());
}

#[test]
fn listing_gives_each_record_under_its_id() {
    let mut mgr = TaskManager::new();
    assert!(mgr.get_all_tasks().is_empty());
    mgr.create_task("echo a".to_string());
    mgr.create_task("echo b".to_string());
    let tasks = mgr.get_all_tasks();
    assert_eq!(tasks.len(), 2);
    assert_eq!(tasks[0].id, 1);
    assert_eq!(tasks[0].name, "echo a");
    assert_eq!(tasks[1].id, 2);
    assert_eq!(tasks[1].name, "echo b");
}

#[test]
fn stopped_or_killed_task_is_not_run_again() {
    let mut mgr = TaskManager::new();
    let id = spawned(&mut mgr, "sleep 5", 205);
    mgr.handle(TaskMessage::Stop(id));
    assert!(matches!(mgr.handle(TaskMessage::Run(id)), Action::Nothing));
    let other = spawned(&mut mgr, "sleep 5", 206);
    mgr.handle(TaskMessage::Kill(other));
    assert!(matches!(mgr.handle(TaskMessage::Run(other)), Action::Nothing));
    let failed = spawned(&mut mgr, "false", 207);
    mgr.handle(TaskMessage::UpdateStatus(failed, exit_status(false)));
    assert!(matches!(mgr.handle(TaskMessage::Run(failed)), Action::Spawn { .. }));
}
