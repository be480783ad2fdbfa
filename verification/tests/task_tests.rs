use std::cell::RefCell;
use std::rc::Rc;

use taskref::counter::CounterRegistry;
use taskref::error::TaskError;
use taskref::host::{Host, HostId};
use taskref::task::{Callable, TaskRef};

/// Appends `1` to a shared log on every execution.
struct AppendOne {
    log: Rc<RefCell<Vec<i32>>>,
}

impl Callable for AppendOne {
    fn call(&mut self, _host: &mut Host) -> Result<(), TaskError> {
        self.log.borrow_mut().push(1);
        Ok(())
    }

    fn dispose(self) {}
}

/// Does nothing.
struct Nop {}

impl Callable for Nop {
    fn call(&mut self, _host: &mut Host) -> Result<(), TaskError> {
        Ok(())
    }

    fn dispose(self) {}
}

/// Fails with the given error on every execution.
struct AlwaysFails {
    error: TaskError,
}

impl Callable for AlwaysFails {
    fn call(&mut self, _host: &mut Host) -> Result<(), TaskError> {
        Err(self.error)
    }

    fn dispose(self) {}
}

/// On execution, attempts to execute the task it is itself wrapped in.
struct Reenter {
    task: Rc<RefCell<Option<TaskRef<Reenter>>>>,
    inner_results: Rc<RefCell<Vec<Result<(), TaskError>>>>,
}

impl Callable for Reenter {
    fn call(&mut self, host: &mut Host) -> Result<(), TaskError> {
        let mut slot = self.task.borrow_mut();
        let inner = slot.as_mut().expect("task installed");
        let r = inner.execute(host);
        self.inner_results.borrow_mut().push(r);
        r
    }

    fn dispose(self) {}
}

#[test]
fn scenario_clone_execute_once_release_all() {
    let mut reg = CounterRegistry::new();
    let baseline = reg.task_refs();
    let log = Rc::new(RefCell::new(Vec::new()));
    let mut task = TaskRef::new(AppendOne { log: log.clone() }, &mut reg);
    task.clone_handle(&mut reg);
    task.clone_handle(&mut reg);
    task.clone_handle(&mut reg);
    assert_eq!(task.handle_count(), 4);
    assert_eq!(reg.task_refs(), baseline + 4);

    let mut host = Host::new(HostId(7), 0);
    assert_eq!(task.execute(&mut host), Ok(()));
    assert_eq!(log.borrow().as_slice(), &[1]);

    assert!(!task.release_handle(&mut reg));
    assert!(!task.release_handle(&mut reg));
    assert!(!task.release_handle(&mut reg));
    assert!(task.release_handle(&mut reg));
    assert!(!task.is_live());
    assert_eq!(reg.task_refs(), baseline);
    // executed exactly once in total
    assert_eq!(log.borrow().as_slice(), &[1]);
}

#[test]
fn lifecycle_returns_counter_to_baseline() {
    let mut reg = CounterRegistry::new();
    // give the registry a non-zero baseline with an unrelated live task
    let _other = TaskRef::new(Nop {}, &mut reg);
    let baseline = reg.task_refs();
    assert_eq!(baseline, 1);

    let observed = TaskRef::handle_lifecycle_law(Nop {}, 5, &mut reg);
    assert_eq!(observed, baseline + 1);
    assert_eq!(reg.task_refs(), baseline);
}

#[test]
fn lifecycle_with_single_handle() {
    let mut reg = CounterRegistry::new();
    let observed = TaskRef::handle_lifecycle_law(Nop {}, 1, &mut reg);
    assert_eq!(observed, 1);
    assert_eq!(reg.task_refs(), 0);
}

#[test]
fn dropping_all_but_one_keeps_callable_alive() {
    let mut reg = CounterRegistry::new();
    let n = 6;
    let mut task = TaskRef::new(Nop {}, &mut reg);
    for _ in 1..n {
        task.clone_handle(&mut reg);
    }
    for _ in 1..n {
        assert!(!task.release_handle(&mut reg));
    }
    assert!(task.is_live());
    assert_eq!(reg.task_refs(), 1);
    assert!(task.release_handle(&mut reg));
    assert_eq!(reg.task_refs(), 0);
}

#[test]
fn reentrant_execute_fails_fast() {
    let mut reg = CounterRegistry::new();
    let task_cell: Rc<RefCell<Option<TaskRef<Reenter>>>> = Rc::new(RefCell::new(None));
    let inner_results = Rc::new(RefCell::new(Vec::new()));
    let callable = Reenter { task: task_cell.clone(), inner_results: inner_results.clone() };
    let task = TaskRef::new(callable, &mut reg);
    *task_cell.borrow_mut() = Some(task);

    // drive one execution by hand so the callable can reach its own task
    let mut checked_out = {
        let mut slot = task_cell.borrow_mut();
        slot.as_mut().unwrap().begin_execute().ok().expect("guard was idle")
    };
    let mut host = Host::new(HostId(1), 0);
    let outer = checked_out.call(&mut host);
    {
        let mut slot = task_cell.borrow_mut();
        slot.as_mut().unwrap().end_execute(checked_out);
    }

    // the nested attempt was rejected, not queued and not silently run
    assert_eq!(inner_results.borrow().as_slice(), &[Err(TaskError::ReentrancyViolation)]);
    assert_eq!(outer, Err(TaskError::ReentrancyViolation));

    // the guard was released again: the task stays usable and releasable
    let mut slot = task_cell.borrow_mut();
    let task = slot.as_mut().unwrap();
    assert!(!task.is_executing());
    assert!(task.release_handle(&mut reg));
    assert_eq!(reg.task_refs(), 0);
}

#[test]
fn guard_released_when_callable_fails() {
    let mut reg = CounterRegistry::new();
    let mut task = TaskRef::new(AlwaysFails { error: TaskError::NullHandle }, &mut reg);
    let mut host = Host::new(HostId(2), 0);
    assert_eq!(task.execute(&mut host), Err(TaskError::NullHandle));
    assert!(!task.is_executing());
    // a later execution still reaches the callable
    assert_eq!(task.execute(&mut host), Err(TaskError::NullHandle));
    task.release_handle(&mut reg);
}

#[test]
fn execute_while_checked_out_reports_reentrancy() {
    let mut reg = CounterRegistry::new();
    let mut task = TaskRef::new(Nop {}, &mut reg);
    let callable = task.begin_execute().ok().expect("guard was idle");
    assert!(task.is_executing());

    let mut host = Host::new(HostId(1), 0);
    assert_eq!(task.execute(&mut host), Err(TaskError::ReentrancyViolation));
    let second = task.begin_execute();
    assert!(matches!(second, Err(TaskError::ReentrancyViolation)));

    task.end_execute(callable);
    assert!(!task.is_executing());
    assert_eq!(task.execute(&mut host), Ok(()));
    task.release_handle(&mut reg);
    assert_eq!(reg.task_refs(), 0);
}

#[test]
fn clone_while_executing_keeps_counts() {
    let mut reg = CounterRegistry::new();
    let mut task = TaskRef::new(Nop {}, &mut reg);
    let callable = task.begin_execute().ok().expect("guard was idle");
    task.clone_handle(&mut reg);
    assert_eq!(task.handle_count(), 2);
    assert_eq!(reg.task_refs(), 2);
    task.end_execute(callable);
    assert!(!task.release_handle(&mut reg));
    assert!(task.release_handle(&mut reg));
    assert_eq!(reg.task_refs(), 0);
}

#[test]
fn task_tag_matches_boundary_constant() {
    let mut reg = CounterRegistry::new();
    let task = TaskRef::new(Nop {}, &mut reg);
    assert_eq!(task.tag(), taskref::boundary::TASK_REF_TAG);
    assert_eq!(taskref::boundary::check_task_tag(task.tag()), Ok(()));
}
