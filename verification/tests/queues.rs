//! The buffered shim device: bounded queues, backpressure, FIFO order,
//! and byte-exact pass-through.

use std::collections::VecDeque;
use tokio_smoltcp::device::{BufferDevice, DeviceCapabilities, Medium, DEFAULT_MAX_BURST_SIZE};

fn caps(burst: Option<usize>) -> DeviceCapabilities {
    DeviceCapabilities { max_transmission_unit: 1500, max_burst_size: burst, medium: Medium::Ethernet }
}

#[test]
fn new_device_is_empty_and_waiting() {
    let dev = BufferDevice::new(caps(Some(3)));
    assert!(dev.need_wait());
    assert_eq!(dev.avaliable_recv_queue(), 3);
    assert!(dev.can_transmit());
}

#[test]
fn default_burst_size_applies_when_unset() {
    let dev = BufferDevice::new(caps(None));
    assert_eq!(dev.avaliable_recv_queue(), DEFAULT_MAX_BURST_SIZE);
}

#[test]
fn capabilities_round_trip() {
    let dev = BufferDevice::new(caps(Some(7)));
    let c = dev.capabilities();
    assert_eq!(c.max_transmission_unit, 1500);
    assert_eq!(c.max_burst_size, Some(7));
    assert_eq!(c.medium, Medium::Ethernet);
}

#[test]
fn send_queue_is_bounded_and_refuses_above_cap() {
    let mut dev = BufferDevice::new(caps(Some(3)));
    assert!(dev.push_send(vec![1]));
    assert!(dev.push_send(vec![2]));
    assert!(dev.push_send(vec![3]));
    assert!(!dev.can_transmit());
    assert!(!dev.push_send(vec![4]));
    let taken = dev.take_send_queue();
    assert_eq!(taken.len(), 3);
    assert!(dev.can_transmit());
    assert!(dev.push_send(vec![5]));
}

#[test]
fn send_queue_keeps_order_and_bytes() {
    let mut dev = BufferDevice::new(caps(Some(10)));
    assert!(dev.push_send(vec![1, 2, 3]));
    assert!(dev.push_send(vec![]));
    assert!(dev.push_send(vec![255, 0, 128]));
    let taken: Vec<Vec<u8>> = dev.take_send_queue().into_iter().collect();
    assert_eq!(taken, vec![vec![1u8, 2, 3], vec![], vec![255, 0, 128]]);
    assert_eq!(dev.take_send_queue().len(), 0);
}

#[test]
fn failed_engine_writes_are_discarded() {
    let mut dev = BufferDevice::new(caps(Some(3)));
    assert!(!dev.complete_transmit(vec![1], false));
    assert!(dev.take_send_queue().is_empty());
    assert!(dev.complete_transmit(vec![2], true));
    let taken: Vec<Vec<u8>> = dev.take_send_queue().into_iter().collect();
    assert_eq!(taken, vec![vec![2u8]]);
}

#[test]
fn recv_queue_takes_only_what_fits() {
    let mut dev = BufferDevice::new(caps(Some(3)));
    let mut buffered: VecDeque<Vec<u8>> = VecDeque::new();
    for i in 0..5u8 {
        buffered.push_back(vec![i]);
    }
    dev.push_recv_queue(&mut buffered);
    assert_eq!(buffered.len(), 2);
    assert_eq!(dev.avaliable_recv_queue(), 0);
    assert!(!dev.need_wait());
    assert_eq!(dev.receive(), Some(vec![0]));
    assert_eq!(dev.receive(), Some(vec![1]));
    assert_eq!(dev.receive(), Some(vec![2]));
    assert_eq!(dev.receive(), None);
    assert!(dev.need_wait());
    assert_eq!(buffered, VecDeque::from(vec![vec![3u8], vec![4]]));
}

#[test]
fn recv_queue_round_trip_is_byte_exact() {
    let mut dev = BufferDevice::new(caps(Some(8)));
    let payloads = vec![b"12345".to_vec(), b"".to_vec(), vec![0u8, 255, 7, 7]];
    let mut buffered: VecDeque<Vec<u8>> = payloads.iter().cloned().collect();
    dev.push_recv_queue(&mut buffered);
    assert!(buffered.is_empty());
    for p in &payloads {
        assert_eq!(dev.receive().as_ref(), Some(p));
    }
    assert_eq!(dev.receive(), None);
}

#[test]
fn push_recv_queue_in_two_bursts_keeps_order() {
    let mut dev = BufferDevice::new(caps(Some(2)));
    let mut buffered: VecDeque<Vec<u8>> = VecDeque::from(vec![vec![1u8], vec![2], vec![3]]);
    dev.push_recv_queue(&mut buffered);
    assert_eq!(buffered.len(), 1);
    assert_eq!(dev.receive(), Some(vec![1]));
    dev.push_recv_queue(&mut buffered);
    assert!(buffered.is_empty());
    assert_eq!(dev.receive(), Some(vec![2]));
    assert_eq!(dev.receive(), Some(vec![3]));
}
