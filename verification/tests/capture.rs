//! The blocking-capture transport: runner state changes and the worker
//! round trip through a real executor.

use std::io;
use tokio_smoltcp::util::blocking_capture::{BlockingCapture, Runner};

#[test]
fn new_capture_starts_idle_with_nothing_parked() {
    let cap = BlockingCapture::new(
        || Ok(vec![9u8]),
        |_frame: &[u8]| Ok(()),
    )
    .unwrap();
    assert!(cap.recv.is_idle());
    assert!(cap.send.is_idle());
    assert!(cap.temp.is_none());
}

#[test]
fn started_runner_joins_with_the_callback_result() {
    let rt = tokio::runtime::Builder::new_current_thread().build().unwrap();
    let _guard = rt.enter();
    let cap = BlockingCapture::new(
        || Ok(vec![1u8, 2, 3]),
        |_frame: &[u8]| Ok(()),
    )
    .unwrap();
    let mut recv = cap.recv;
    assert!(recv.is_idle());
    recv.start(|f| f());
    assert!(!recv.is_idle());
    let handle = recv.get_running();
    let (result, callback) = rt.block_on(handle).unwrap();
    assert_eq!(result.unwrap(), vec![1u8, 2, 3]);
    let back: Runner<_, io::Result<Vec<u8>>> = Runner::Idle(callback);
    assert!(back.is_idle());
}

#[test]
fn send_runner_sees_the_frame_it_was_handed() {
    let rt = tokio::runtime::Builder::new_current_thread().build().unwrap();
    let _guard = rt.enter();
    let (tx, rx) = std::sync::mpsc::channel::<Vec<u8>>();
    let cap = BlockingCapture::new(
        || Ok(Vec::new()),
        move |frame: &[u8]| {
            tx.send(frame.to_vec()).map_err(|_| io::Error::new(io::ErrorKind::Other, "closed"))
        },
    )
    .unwrap();
    let mut send = cap.send;
    let frame = vec![5u8, 6, 7];
    send.start(move |f| f(&frame));
    let handle = send.get_running();
    let (result, _callback) = rt.block_on(handle).unwrap();
    result.unwrap();
    assert_eq!(rx.recv().unwrap(), vec![5u8, 6, 7]);
}
