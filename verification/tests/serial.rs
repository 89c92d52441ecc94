use heapless::spsc::Queue;
use oxide_motive::hal::transport::Transport;
use oxide_motive::serial_transport::DmaSerialTransport;

fn leaked_queue() -> &'static mut Queue<u8, 1024> {
    Box::leak(Box::new(Queue::new()))
}

#[test]
fn test_send_and_receive() {
    let (tx_p, mut tx_c) = leaked_queue().split();
    let (mut rx_p, rx_c) = leaked_queue().split();

    let mut transport = DmaSerialTransport::new(tx_p, rx_c);

    let send_data = b"hello world";
    transport.send_non_blocking(send_data).unwrap();

    // Stand in for the DMA: move the queued bytes to the receive side.
    while let Some(byte) = tx_c.dequeue() {
        rx_p.enqueue(byte).unwrap();
    }

    let mut recv_buf = [0u8; 32];
    let bytes_read = transport.receive_non_blocking(&mut recv_buf).unwrap();

    assert_eq!(bytes_read, send_data.len());
    assert_eq!(&recv_buf[..bytes_read], send_data);
}

#[test]
fn send_reports_a_full_queue() {
    let (tx_p, mut tx_c) = leaked_queue().split();
    let (_rx_p, rx_c) = leaked_queue().split();
    let mut transport = DmaSerialTransport::new(tx_p, rx_c);
    // The queue holds 1023 bytes.
    assert_eq!(transport.send_non_blocking(&[7u8; 1023]), Ok(1023));
    assert_eq!(transport.send_non_blocking(&[8u8; 2]), Ok(0));
    assert_eq!(tx_c.dequeue(), Some(7));
    assert_eq!(tx_c.dequeue(), Some(7));
    // Two free slots: the first two of three bytes go in.
    assert_eq!(transport.send_non_blocking(&[9u8, 10, 11]), Ok(2));
    let mut tail = Vec::new();
    while let Some(b) = tx_c.dequeue() {
        tail.push(b);
    }
    assert_eq!(tail.len(), 1021 + 2);
    assert_eq!(&tail[1021..], &[9, 10]);
    assert_eq!(transport.send_non_blocking(&[]), Ok(0));
    assert_eq!(transport.flush(), Ok(()));
}

#[test]
fn receive_stops_at_buffer_end_and_leaves_the_rest() {
    let (tx_p, _tx_c) = leaked_queue().split();
    let (mut rx_p, rx_c) = leaked_queue().split();
    let mut transport = DmaSerialTransport::new(tx_p, rx_c);
    for b in 1..=5u8 {
        rx_p.enqueue(b).unwrap();
    }
    let mut small = [0u8; 3];
    assert_eq!(transport.receive_non_blocking(&mut small), Ok(3));
    assert_eq!(small, [1, 2, 3]);
    let mut big = [0xEEu8; 4];
    assert_eq!(transport.receive_non_blocking(&mut big), Ok(2));
    assert_eq!(big, [4, 5, 0xEE, 0xEE]);
    assert_eq!(transport.receive_non_blocking(&mut big), Ok(0));
}
