use plaque::error::{IOError, OS};
use plaque::http::is_request_complete;
use plaque::executor::{Executor, SpawnError, TaskStatus};
use plaque::net::{self, SocketAddrV4};
use plaque::ops::{Poll, TcpListener, TcpStream};
use plaque::reactor::{Event, Interest, PollerOp, Reactor, Registration};
use plaque::task::{Context, Task, Waker};
use plaque::task_queue::{TaskQueue, DEFAULT_CAPACITY};

fn readable(key: i32) -> Event {
    Event { key, readable: true, writable: false }
}

fn writable(key: i32) -> Event {
    Event { key, readable: false, writable: true }
}

fn context_of(task: &Task) -> Context {
    Context::from_waker(task.waker())
}

#[test]
fn accept_suspends_then_yields_the_client_once() {
    let mut reactor = Reactor::new();
    let mut executor = Executor::new();
    let bound = net::TcpListener::new(3, SocketAddrV4::new([127, 0, 0, 1], 0));
    let listener = TcpListener::new(bound, &mut reactor);
    assert_eq!(reactor.take_ops(), vec![PollerOp::Add(3, Interest::readable())]);

    let task = executor.spawn().unwrap();
    assert_eq!(executor.next_task(), Some(task));
    let mut accept = listener.accept();
    let cx = context_of(&task);
    let first = accept.poll(&mut reactor, &cx, Err(IOError::WouldBlock), [0; 4], [0; 2]);
    assert!(matches!(first, Poll::Pending));
    assert!(!accept.is_finished());
    executor.complete(&task, false);
    assert_eq!(executor.status(task.id()), Some(TaskStatus::Parked));
    assert_eq!(reactor.take_ops(), vec![PollerOp::Modify(3, Interest::readable())]);

    executor.handle_events(&mut reactor, &vec![readable(3)]);
    assert_eq!(executor.next_task(), Some(task));
    let second = accept.poll(&mut reactor, &cx, Ok(9), [127, 0, 0, 1], [0xc3, 0x50]);
    match second {
        Poll::Ready(Ok((stream, peer))) => {
            assert_eq!(stream.fd(), 9);
            assert_eq!(peer.ip_octets(), [127, 0, 0, 1]);
            assert_eq!(peer.port(), 50000);
        }
        _ => panic!("accept did not complete"),
    }
    assert!(accept.is_finished());
    executor.complete(&task, true);
    assert_eq!(executor.status(task.id()), Some(TaskStatus::Done));
    assert_eq!(reactor.take_ops(), vec![PollerOp::Add(9, Interest::both())]);
    assert_eq!(
        reactor.registration(9),
        Some(Registration { interest: Interest::both(), waker: None })
    );
}

#[test]
fn accept_failure_ends_the_operation() {
    let mut reactor = Reactor::new();
    let listener = TcpListener::new(net::TcpListener::new(4, SocketAddrV4::new([0; 4], 8000)), &mut reactor);
    assert_eq!(listener.address().port(), 8000);
    let mut accept = listener.accept();
    let cx = Context::from_waker(Waker::new(0));
    let failure = IOError::SyscallResult("Too many open files".to_string());
    match accept.poll(&mut reactor, &cx, Err(failure.clone()), [0; 4], [0; 2]) {
        Poll::Ready(Err(e)) => assert_eq!(e, failure),
        _ => panic!("accept should fail"),
    }
    assert!(accept.is_finished());
    assert_eq!(reactor.registration(4), Some(Registration { interest: Interest::readable(), waker: None }));
}

#[test]
fn read_without_data_suspends_and_wakes_once() {
    let mut reactor = Reactor::new();
    let mut executor = Executor::new();
    let mut stream = TcpStream::new(net::TcpStream::new(5), &mut reactor);
    let task = executor.spawn().unwrap();
    executor.next_task();
    let cx = context_of(&task);
    let mut read = stream.read();
    assert_eq!(read.poll(&mut reactor, &cx, Err(IOError::WouldBlock)), Poll::Pending);
    assert_eq!(
        reactor.registration(5),
        Some(Registration { interest: Interest::readable(), waker: Some(task.waker()) })
    );
    executor.complete(&task, false);

    let wakers = reactor.dispatch(&vec![readable(5), readable(5)]);
    assert_eq!(wakers, vec![task.waker()]);
    executor.wake_all(&wakers);
    assert_eq!(executor.next_task(), Some(task));
    assert_eq!(executor.next_task(), None);
    assert_eq!(read.poll(&mut reactor, &cx, Ok(12)), Poll::Ready(Ok(12)));
    assert!(read.is_finished());
}

#[test]
fn write_beyond_capacity_suspends_until_writable() {
    let mut reactor = Reactor::new();
    let mut executor = Executor::new();
    let mut stream = TcpStream::new(net::TcpStream::new(6), &mut reactor);
    reactor.take_ops();
    let task = executor.spawn().unwrap();
    executor.next_task();
    let cx = context_of(&task);
    let mut write = stream.write();
    assert_eq!(write.poll(&mut reactor, &cx, Err(IOError::WouldBlock)), Poll::Pending);
    assert_eq!(reactor.take_ops(), vec![PollerOp::Modify(6, Interest::writable())]);
    executor.complete(&task, false);

    executor.handle_events(&mut reactor, &vec![readable(60)]);
    assert!(!executor.has_runnable());
    assert_eq!(executor.status(task.id()), Some(TaskStatus::Parked));

    executor.handle_events(&mut reactor, &vec![writable(6)]);
    assert_eq!(executor.next_task(), Some(task));
    assert_eq!(write.poll(&mut reactor, &cx, Ok(65536)), Poll::Ready(Ok(65536)));
}

#[test]
fn readiness_wakes_only_its_own_task() {
    let mut reactor = Reactor::new();
    let mut executor = Executor::new();
    let mut a = TcpStream::new(net::TcpStream::new(10), &mut reactor);
    let mut b = TcpStream::new(net::TcpStream::new(11), &mut reactor);
    let ta = executor.spawn().unwrap();
    let tb = executor.spawn().unwrap();
    assert_eq!(executor.next_task(), Some(ta));
    let mut ra = a.read();
    assert_eq!(ra.poll(&mut reactor, &context_of(&ta), Err(IOError::WouldBlock)), Poll::Pending);
    executor.complete(&ta, false);
    assert_eq!(executor.next_task(), Some(tb));
    let mut rb = b.read();
    assert_eq!(rb.poll(&mut reactor, &context_of(&tb), Err(IOError::WouldBlock)), Poll::Pending);
    executor.complete(&tb, false);

    executor.handle_events(&mut reactor, &vec![readable(10)]);
    assert_eq!(executor.status(ta.id()), Some(TaskStatus::Queued));
    assert_eq!(executor.status(tb.id()), Some(TaskStatus::Parked));
    assert_eq!(
        reactor.registration(11),
        Some(Registration { interest: Interest::readable(), waker: Some(tb.waker()) })
    );
    assert_eq!(executor.next_task(), Some(ta));
    assert_eq!(executor.next_task(), None);

    executor.handle_events(&mut reactor, &vec![readable(11)]);
    assert_eq!(executor.next_task(), Some(tb));
}

#[test]
fn peer_close_ends_read_with_connection_closed() {
    let mut reactor = Reactor::new();
    let mut stream = TcpStream::new(net::TcpStream::new(7), &mut reactor);
    reactor.take_ops();
    let mut read = stream.read();
    let cx = Context::from_waker(Waker::new(0));
    assert_eq!(read.poll(&mut reactor, &cx, Ok(0)), Poll::Ready(Err(IOError::ConnectionClosed)));
    assert!(read.is_finished());
    assert_eq!(reactor.take_ops(), vec![]);
    assert_eq!(reactor.registration(7), Some(Registration { interest: Interest::both(), waker: None }));
}

#[test]
fn read_result_classifies_counts() {
    assert_eq!(net::TcpStream::read_result(Ok(0)), Err(IOError::ConnectionClosed));
    assert_eq!(net::TcpStream::read_result(Ok(3)), Ok(3));
    assert_eq!(net::TcpStream::read_result(Err(IOError::WouldBlock)), Err(IOError::WouldBlock));
}

#[test]
fn finished_task_ignores_late_wakes() {
    let mut executor = Executor::new();
    let task = executor.spawn().unwrap();
    assert_eq!(executor.next_task(), Some(task));
    executor.complete(&task, true);
    task.waker().wake(&mut executor);
    task.schedule(&mut executor);
    assert_eq!(executor.status(task.id()), Some(TaskStatus::Done));
    assert_eq!(executor.next_task(), None);
}

#[test]
fn all_terminating_tasks_are_drained_in_order() {
    let mut executor = Executor::new();
    let tasks: Vec<Task> = (0..5).map(|_| executor.spawn().unwrap()).collect();
    let mut polled = vec![];
    while let Some(t) = executor.next_task() {
        polled.push(t.id());
        executor.complete(&t, true);
    }
    assert_eq!(polled, vec![0, 1, 2, 3, 4]);
    for t in &tasks {
        assert_eq!(executor.status(t.id()), Some(TaskStatus::Done));
    }
}

#[test]
fn suspended_task_is_never_given_a_result() {
    let mut executor = Executor::new();
    let task = executor.spawn().unwrap();
    executor.next_task();
    executor.complete(&task, false);
    assert_eq!(executor.status(task.id()), Some(TaskStatus::Parked));
    assert_eq!(executor.next_task(), None);
}

#[test]
fn wake_during_poll_runs_the_task_again() {
    let mut executor = Executor::new();
    let task = executor.spawn().unwrap();
    executor.next_task();
    task.waker().wake(&mut executor);
    assert_eq!(executor.status(task.id()), Some(TaskStatus::Woken));
    executor.complete(&task, false);
    assert_eq!(executor.next_task(), Some(task));
}

#[test]
fn spawn_is_refused_when_full() {
    let mut executor = Executor::with_capacity(2);
    let a = executor.spawn().unwrap();
    executor.spawn().unwrap();
    assert_eq!(executor.spawn(), Err(SpawnError::QueueFull));
    executor.next_task();
    executor.complete(&a, true);
    assert_eq!(executor.spawn().map(|t| t.id()), Ok(2));
}

#[test]
fn task_queue_is_bounded_fifo() {
    let mut q = TaskQueue::with_capacity(2);
    assert_eq!(q.send(4), Ok(()));
    assert_eq!(q.send(8), Ok(()));
    assert_eq!(q.send(9), Err(9));
    assert_eq!(q.len(), 2);
    assert_eq!(q.try_recv(), Some(4));
    assert_eq!(q.try_recv(), Some(8));
    assert_eq!(q.try_recv(), None);
    assert_eq!(TaskQueue::new().capacity(), DEFAULT_CAPACITY);
}

#[test]
fn rearming_keeps_only_the_latest_waker() {
    let mut reactor = Reactor::new();
    reactor.register(20, Interest::both());
    reactor.modify(20, Interest::readable(), Waker::new(1));
    reactor.modify(20, Interest::writable(), Waker::new(2));
    assert_eq!(
        reactor.registration(20),
        Some(Registration { interest: Interest::writable(), waker: Some(Waker::new(2)) })
    );
    assert_eq!(reactor.dispatch(&vec![readable(20)]), vec![Waker::new(2)]);
}

#[test]
fn closing_a_resource_discards_its_waker() {
    let mut reactor = Reactor::new();
    let stream = TcpStream::new(net::TcpStream::new(30), &mut reactor);
    reactor.modify(30, Interest::readable(), Waker::new(0));
    let inner = stream.close(&mut reactor);
    assert_eq!(inner.fd(), 30);
    assert_eq!(reactor.registration(30), None);
    assert_eq!(reactor.dispatch(&vec![readable(30)]), vec![]);
    assert_eq!(
        reactor.take_ops(),
        vec![
            PollerOp::Add(30, Interest::both()),
            PollerOp::Modify(30, Interest::readable()),
            PollerOp::Delete(30)
        ]
    );
}

#[test]
fn socket_address_network_order() {
    let a = SocketAddrV4::from_network([10, 0, 0, 2], [0x1f, 0x90]);
    assert_eq!(a.port(), 8080);
    assert_eq!(a.ip_octets(), [10, 0, 0, 2]);
    assert_eq!(SocketAddrV4::new([0; 4], 8080).port_network_bytes(), [0x1f, 0x90]);
    assert_eq!(SocketAddrV4::new([0; 4], 65535).port_network_bytes(), [0xff, 0xff]);
}

#[test]
fn error_messages() {
    assert_eq!(IOError::WouldBlock.message(), "This operation would block.");
    assert_eq!(IOError::ConnectionClosed.message(), "Peer closed the connection.");
    assert_eq!(IOError::SyscallResult("Bad file descriptor".to_string()).message(), "Bad file descriptor");
    assert!(IOError::WouldBlock.is_would_block());
    assert!(!IOError::ConnectionClosed.is_would_block());
    assert_eq!(OS::error(true, "Resource temporarily unavailable".to_string()), IOError::WouldBlock);
    assert_eq!(
        OS::error(false, "Connection reset by peer".to_string()),
        IOError::SyscallResult("Connection reset by peer".to_string())
    );
}

#[test]
fn request_framing() {
    assert!(is_request_complete(b"GET / HTTP/1.1\r\n\r\n"));
    assert!(!is_request_complete(b"\r\n\r\n"));
    assert!(!is_request_complete(b"GET / HTTP/1.1\r\n"));
    assert!(!is_request_complete(b""));
}
