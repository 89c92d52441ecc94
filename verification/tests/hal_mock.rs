use heapless::Vec;
use oxide_motive::hal::mock::{MockAdc, MockCanBus, MockEngineTimer, MockError, MockTriggerCapture};
use oxide_motive::hal::{CanBus, CanFrame, EngineTimer, HighResAdc, TriggerCapture};

#[test]
fn test_mock_adc_read_channel() {
    let mut adc = MockAdc;
    assert_eq!(adc.read_channel(0), Ok(0));
    assert_eq!(adc.read_channel(5), Ok(500));
    assert_eq!(adc.read_channel(16), Err(MockError::InvalidChannel));
}

#[test]
fn test_mock_adc_read_all_dma() {
    let mut adc = MockAdc;
    let mut buffer = [0u16; 4];
    assert_eq!(adc.read_all_dma(&mut buffer), Ok(()));
    assert_eq!(buffer, [0, 100, 200, 300]);

    let mut empty_buffer: [u16; 0] = [];
    assert_eq!(adc.read_all_dma(&mut empty_buffer), Err(MockError::BufferTooSmall));
}

#[test]
fn test_mock_engine_timer() {
    let mut timer = MockEngineTimer::default();
    assert_eq!(timer.set_frequency(1000), Ok(()));
    assert_eq!(timer.frequency, 1000);

    assert_eq!(timer.set_compare(0, 500), Ok(()));
    assert_eq!(timer.compare_values[0], 500);
    assert_eq!(timer.set_compare(7, 100), Ok(()));
    assert_eq!(timer.compare_values[7], 100);
    assert_eq!(timer.set_compare(8, 100), Err(MockError::InvalidChannel));

    timer.counter = 123;
    assert_eq!(timer.get_counter(), 123);

    assert_eq!(timer.enable_interrupt(), Ok(()));
    assert!(timer.interrupt_enabled);
}

#[test]
fn test_mock_trigger_capture() {
    let mut capture = MockTriggerCapture::default();
    assert_eq!(capture.capture_rising_edge(), Ok(100));
    assert_eq!(capture.capture_falling_edge(), Ok(150));
    assert_eq!(capture.captured_value, 150);
}

#[test]
fn test_mock_can_bus() {
    let mut can = MockCanBus::default();
    let data1: Vec<u8, 8> = Vec::from_slice(&[1, 2, 3]).unwrap();
    let data2: Vec<u8, 8> = Vec::from_slice(&[4, 5]).unwrap();

    assert_eq!(can.send_frame(0x100, &data1), Ok(()));
    assert_eq!(can.send_frame(0x200, &data2), Ok(()));
    assert_eq!(can.sent_frames.len(), 2);
    assert_eq!(can.sent_frames.pop_front(), Some((0x100, data1)));
    assert_eq!(can.sent_frames.pop_front(), Some((0x200, data2)));

    let mut received_frame = CanFrame;
    can.received_frames.push_back(CanFrame).unwrap();
    assert_eq!(can.receive_frame(&mut received_frame), Ok(()));
    assert_eq!(can.receive_frame(&mut received_frame), Err(MockError::NotImplemented));
}

#[test]
fn mock_adc_last_channel_reads_1500() {
    let mut adc = MockAdc;
    assert_eq!(adc.read_channel(15), Ok(1500));
    assert_eq!(adc.read_channel(255), Err(MockError::InvalidChannel));
}

#[test]
fn mock_adc_dma_fills_every_element() {
    let mut adc = MockAdc;
    let mut buffer = [7u16; 16];
    assert_eq!(adc.read_all_dma(&mut buffer), Ok(()));
    for (i, v) in buffer.iter().enumerate() {
        assert_eq!(*v as usize, i * 100);
    }
}

#[test]
fn mock_timer_rejected_channel_changes_nothing() {
    let mut timer = MockEngineTimer::default();
    timer.set_compare(3, 42).unwrap();
    assert_eq!(timer.set_compare(200, 9), Err(MockError::InvalidChannel));
    assert_eq!(timer.compare_values, [0, 0, 0, 42, 0, 0, 0, 0]);
    assert_eq!(timer.frequency, 0);
    assert!(!timer.interrupt_enabled);
}

#[test]
fn mock_capture_accumulates_edges() {
    let mut capture = MockTriggerCapture::default();
    assert_eq!(capture.capture_falling_edge(), Ok(50));
    assert_eq!(capture.capture_rising_edge(), Ok(150));
    assert_eq!(capture.capture_rising_edge(), Ok(250));
}

#[test]
fn mock_can_refuses_long_payload_and_full_queue() {
    let mut can = MockCanBus::default();
    assert_eq!(can.send_frame(1, &[0u8; 9]), Err(MockError::BufferTooSmall));
    assert_eq!(can.sent_frames.len(), 0);
    assert_eq!(can.send_frame(1, &[0u8; 8]), Ok(()));
    for id in 2..17u32 {
        assert_eq!(can.send_frame(id, &[]), Ok(()));
    }
    assert_eq!(can.sent_frames.len(), 16);
    assert_eq!(can.send_frame(99, &[1]), Err(MockError::BufferTooSmall));
    assert_eq!(can.sent_frames.len(), 16);
}
