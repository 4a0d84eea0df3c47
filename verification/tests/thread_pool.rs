use complete_io::epoll::custom::CustomStep;
use complete_io::epoll::Epoll;
use complete_io::evloop::task::{PollDecision, TaskSignal};
use complete_io::evloop::threadpool::{
    panic_message, queue_notified, queue_notified_local, CurrentWorker, Handle, LocalHandle,
    QueueStep, Steal, ThreadPool, WorkerSelf, WorkerStep,
};
use complete_io::io::{Async, Error, ErrorKind};
use complete_io::queue::{polled, InterruptNotify, RunStep, Timeout};
use futures::Future;

const BADF: Error = Error::Os { kind: ErrorKind::Other, code: 9 };

#[test]
fn spawn_remote() {
    let mut epoll: Epoll<()> = Epoll::new(7, BADF).unwrap();
    let handle = epoll.handle();
    let (registration, _) = epoll.open_custom_event(8, BADF, ()).unwrap();
    let event = epoll.new_custom_event(registration, Ok(()));
    let thread_pool = ThreadPool::new(1, event).unwrap();
    let tag = *thread_pool.submit_remote_work_event();

    let (tx, rx) = futures::sync::oneshot::channel();
    let mut task = Some(move || tx.send(1).unwrap());
    handle.post_custom_event(&mut epoll, tag, 5);

    let mut worker = WorkerSelf::new();
    loop {
        match worker.next(thread_pool.is_active()) {
            WorkerStep::Turn(_) => {
                let mut step = epoll.handle_custom_event(tag, Ok(1));
                while let CustomStep::Deliver(data) = step {
                    worker.handle_remote_spawn(data);
                    step = epoll.deliver_custom_event(tag);
                }
            },
            WorkerStep::RunGlobal(number) => {
                assert_eq!(number, 5);
                (task.take().unwrap())();
                break;
            },
            other => panic!("{:?}", other),
        }
    }

    let value = rx.wait().unwrap();
    assert_eq!(1, value);
}

#[test]
fn global_tasks_run_in_order() {
    let mut worker = WorkerSelf::new();
    for task in 1..200usize {
        worker.push(task);
    }
    for task in 1..200usize {
        assert_eq!(worker.next(true), WorkerStep::RunGlobal(task));
    }
    assert_eq!(worker.next(true), WorkerStep::Turn(None));
}

#[test]
fn local_tasks_come_first() {
    let mut worker = WorkerSelf::new();
    worker.push(1);
    worker.spawn_local(2);
    worker.spawn_local(3);
    assert_eq!(worker.next(true), WorkerStep::RunLocal(3));
    worker.spawn_local(4);
    assert_eq!(worker.next(true), WorkerStep::RunLocal(4));
    assert_eq!(worker.next(true), WorkerStep::RunLocal(2));
    assert_eq!(worker.next(true), WorkerStep::RunGlobal(1));
    worker.spawn_local(5);
    worker.push(6);
    assert_eq!(worker.next(true), WorkerStep::RunGlobal(6));
    assert_eq!(worker.next(true), WorkerStep::Turn(None));
    assert_eq!(worker.next(true), WorkerStep::RunLocal(5));
}

#[test]
fn worker_stays_while_active() {
    let mut worker = WorkerSelf::new();
    assert_eq!(worker.next(true), WorkerStep::Turn(None));
    worker.push(1);
    worker.push(2);
    assert_eq!(worker.next(true), WorkerStep::RunGlobal(1));
    assert_eq!(worker.next(false), WorkerStep::RunGlobal(2));
    assert_eq!(worker.next(false), WorkerStep::Turn(None));
    assert_eq!(worker.next(false), WorkerStep::Exit);
    assert_eq!(worker.next(false), WorkerStep::Exit);
}

#[test]
fn outcomes_of_stealing() {
    let mut worker = WorkerSelf::new();
    assert_eq!(worker.stolen(Steal::Data(4)), WorkerStep::RunGlobal(4));
    assert_eq!(worker.stolen(Steal::Empty), WorkerStep::Turn(None));
    let now = Timeout { secs: 0, nanos: 0 };
    assert_eq!(worker.stolen(Steal::Inconsistent), WorkerStep::Turn(Some(now)));
}

#[test]
fn datum_that_only_wakes() {
    let mut worker = WorkerSelf::new();
    worker.handle_remote_spawn(0);
    assert_eq!(worker.next(true), WorkerStep::Turn(None));
    worker.handle_remote_spawn(9);
    assert_eq!(worker.next(true), WorkerStep::RunGlobal(9));
}

#[test]
fn handles_of_workers() {
    let pool = ThreadPool::with_concurrency(3, Ok('e'), 2).unwrap();
    assert_eq!(pool.handle(), Handle { pool: 3 });
    assert_eq!(*pool.submit_remote_work_event(), 'e');
    let local = LocalHandle { global: pool.handle(), worker: 1 };
    let here = Some(CurrentWorker { pool: 3, worker: 1 });
    assert_eq!(pool.local_handle(here), Some(local));
    assert_eq!(pool.handle().local(here), Some(local));
    assert_eq!(*local.global(), Handle { pool: 3 });
    assert_eq!(pool.local_handle(Some(CurrentWorker { pool: 4, worker: 1 })), None);
    assert_eq!(pool.local_handle(None), None);
}

#[test]
fn pool_that_could_not_be_made() {
    assert_eq!(ThreadPool::<u8>::new(1, Err(BADF)).err(), Some(BADF));
    assert_eq!(ThreadPool::<u8>::with_concurrency(1, Err(BADF), 3).err(), Some(BADF));
}

#[test]
fn pool_has_a_worker_for_each_cpu() {
    let mut pool = ThreadPool::new(1, Ok(())).unwrap();
    assert_eq!(pool.stop().len(), num_cpus::get());
}

#[test]
fn stopped_pool_waits_for_its_workers() {
    let mut pool = ThreadPool::with_concurrency(1, Ok(()), 4).unwrap();
    assert!(pool.is_active());
    pool.begin_shutdown();
    assert!(!pool.is_active());
    assert_eq!(pool.stop(), vec![0, 1, 2, 3]);
}

#[test]
fn only_exiting_worker_leaves() {
    let mut pool = ThreadPool::with_concurrency(1, Ok(()), 4).unwrap();
    pool.remove_worker(1);
    assert_eq!(pool.stop(), vec![0, 3, 2]);
    pool.remove_worker(2);
    pool.remove_worker(0);
    assert_eq!(pool.stop(), vec![3]);
    pool.remove_worker(3);
    assert_eq!(pool.stop(), Vec::<usize>::new());
}

#[test]
fn notified_task_is_polled_again() {
    let mut signal = TaskSignal::new();
    let mut run = signal.begin();
    assert!(!signal.notify());
    assert!(!signal.notify());
    assert_eq!(run.polled(&mut signal, Async::NotReady), PollDecision::Again);
    assert_eq!(run.polled(&mut signal, Async::NotReady), PollDecision::Suspended);
}

#[test]
fn suspended_task_is_queued_once() {
    let mut signal = TaskSignal::new();
    let mut run = signal.begin();
    assert_eq!(run.polled(&mut signal, Async::NotReady), PollDecision::Suspended);
    assert!(signal.notify());
    assert!(!signal.notify());
    let mut run = signal.begin();
    assert_eq!(run.polled(&mut signal, Async::Ready(())), PollDecision::Finished);
    assert!(!signal.notify());
}

#[test]
fn notification_queues_no_running_task() {
    let mut signal = TaskSignal::new();
    assert!(!signal.notify());
    let mut run = signal.begin();
    assert_eq!(run.polled(&mut signal, Async::NotReady), PollDecision::Suspended);
}

#[test]
fn messages_of_panics() {
    assert_eq!(panic_message(Some("a"), Some("b")), "a");
    assert_eq!(panic_message(None, Some("b")), "b");
    assert_eq!(panic_message(None, None), "Any");
}

#[test]
fn notified_future_is_polled() {
    let mut notify = InterruptNotify::new('i');
    assert_eq!(*notify.interrupt(), 'i');
    assert_eq!(notify.next::<u8, u8>(), RunStep::Poll);
    assert_eq!(notify.next::<u8, u8>(), RunStep::Turn);
    assert!(notify.notify());
    assert!(!notify.notify());
    assert_eq!(notify.next::<u8, u8>(), RunStep::Poll);
    assert!(!notify.reset());
    assert!(notify.notify());
    assert!(notify.reset());
}

#[test]
fn driving_ends_with_the_future() {
    assert_eq!(polled::<u8, u8>(Ok(Async::Ready(4))), RunStep::Return(Ok(4)));
    assert_eq!(polled::<u8, u8>(Ok(Async::NotReady)), RunStep::Turn);
    assert_eq!(polled::<u8, u8>(Err(5)), RunStep::Return(Err(5)));
}

#[test]
fn where_notified_tasks_go() {
    let here = CurrentWorker { pool: 1, worker: 2 };
    let there = CurrentWorker { pool: 1, worker: 3 };
    assert_eq!(queue_notified(false, None), QueueStep::Stay);
    assert_eq!(queue_notified(true, Some(here)), QueueStep::Queue(here));
    assert_eq!(queue_notified(true, None), QueueStep::Refuse);
    assert_eq!(queue_notified_local(false, here, Some(there)), QueueStep::Stay);
    assert_eq!(queue_notified_local(true, here, Some(here)), QueueStep::Queue(here));
    assert_eq!(queue_notified_local(true, here, Some(there)), QueueStep::Refuse);
    assert_eq!(queue_notified_local(true, here, None), QueueStep::Refuse);
}
