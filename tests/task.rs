use std::cell::RefCell;

use bela::task::c_name;
use bela::{Auxiliary, AuxiliaryTask, Bela, CreatedTask};
use bela::error::Error;

#[test]
fn scheduled_task_runs_once_with_its_argument() {
    let mut task = AuxiliaryTask::new(
        |s: &mut String| {
            s.push_str(" world");
            println!("{}", s);
        },
        String::from("hello"),
    );
    // A fake scheduler: registration hands out an id, scheduling queues it.
    let registered: RefCell<Vec<(i32, Vec<u8>)>> = RefCell::new(Vec::new());
    let queue: RefCell<Vec<usize>> = RefCell::new(Vec::new());
    let created = Bela::<()>::create_auxiliary_task(&mut task, 10, "printing_stuff", |_t, p, n| {
        registered.borrow_mut().push((p, n.clone()));
        Some(registered.borrow().len() - 1)
    })
    .unwrap();
    assert_eq!(*created.handle(), 0);
    assert_eq!(registered.borrow()[0], (10, b"printing_stuff\0".to_vec()));
    let r = Bela::<()>::schedule_auxiliary_task(&created, |id| {
        queue.borrow_mut().push(*id);
        0
    });
    assert_eq!(r, Ok(()));
    // The handle holds the task's borrow; the scheduler runs the task itself.
    drop(created);
    let mut runs = 0;
    for _id in queue.borrow().iter() {
        let (callback, args) = task.destructure();
        callback(args);
        runs += 1;
    }
    assert_eq!(runs, 1);
    assert_eq!(task.args, "hello world");
}

#[test]
fn registration_failures_are_task_errors() {
    let mut task = AuxiliaryTask::new(|n: &mut u8| *n += 1, 0u8);
    let called = RefCell::new(false);
    let r = Bela::<()>::create_auxiliary_task(&mut task, 1, "bad\0name", |_t, _p, _n| {
        *called.borrow_mut() = true;
        Some(())
    });
    assert!(matches!(r, Err(Error::Task)));
    assert!(!*called.borrow());
    let r = Bela::<()>::create_auxiliary_task(&mut task, 1, "refused", |_t, _p, _n| None::<()>);
    assert!(matches!(r, Err(Error::Task)));
}

#[test]
fn boxed_task_destructures_to_the_inner_task() {
    let mut task = Box::new(AuxiliaryTask::new(|n: &mut u32| *n += 5, 1u32));
    {
        let (callback, args) = task.destructure();
        callback(args);
    }
    assert_eq!(task.args, 6);
}

#[test]
fn scheduling_failure_is_a_task_error() {
    let created = CreatedTask::new(7u8, c_name("t").unwrap());
    let r = Bela::<()>::schedule_auxiliary_task(&created, |_| 16);
    assert_eq!(r, Err(Error::Task));
}

#[test]
fn names_are_nul_terminated() {
    assert_eq!(c_name("abc"), Some(b"abc\0".to_vec()));
    assert_eq!(c_name(""), Some(vec![0]));
    assert_eq!(c_name("a\0b"), None);
    let created = CreatedTask::new((), c_name("printing_more_stuff").unwrap());
    assert_eq!(created.name(), b"printing_more_stuff\0");
}
