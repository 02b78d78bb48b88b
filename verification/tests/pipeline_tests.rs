use plotctl::codec::ProtocolError;
use plotctl::pipeline::{shutdown_line, startup_line, Pipeline};

fn frame(value: u32) -> Vec<u8> {
    let hi = (value / 256) as u8;
    let lo = (value % 256) as u8;
    vec![0, 0, hi, lo, 0, 0xa5, 0x5a]
}

fn drain_sensor(p: &mut Pipeline) {
    while p.sensor_step() {}
}

fn ack_cycle(p: &mut Pipeline) -> Result<Option<Vec<u8>>, ProtocolError> {
    p.feed_actuator(b"OK\r\n");
    p.actuator_step()
}

#[test]
fn startup_and_shutdown_literals() {
    assert_eq!(
        startup_line(),
        b"EM,2,2\nXM,500,0,0\nXM,500,0,0\nXM,500,0,0\nSP,1\nXM,100,0,0".to_vec()
    );
    assert_eq!(shutdown_line(), b"SP,0\nEM,0,0".to_vec());
}

#[test]
fn end_to_end_smoothed_stream_settles() {
    let mut p = Pipeline::new();

    // Raw sensor bytes carrying the sample 612 = 2*256 + 100, repeatedly.
    let mut bytes = vec![0xa5, 0x5a];
    for _ in 0..12 {
        bytes.extend(frame(612));
    }
    p.feed_sensor(&bytes);
    drain_sensor(&mut p);

    // After twelve samples the smoothed value is 612 and the scaled target
    // ((612-512)/1024)*1000 truncates to 97.
    let first = ack_cycle(&mut p).unwrap().unwrap();
    assert_eq!(first, b"XM,4,4,5".to_vec());

    // After enough acknowledged cycles at the constant target the velocity
    // settles to zero and the command stabilizes.
    let mut last = Vec::new();
    for _ in 0..40 {
        last = ack_cycle(&mut p).unwrap().unwrap();
    }
    assert_eq!(last, b"XM,4,4,0".to_vec());
    assert_eq!(ack_cycle(&mut p).unwrap().unwrap(), b"XM,4,4,0".to_vec());
}

#[test]
fn trigger_before_any_value_emits_nothing() {
    let mut p = Pipeline::new();
    assert_eq!(ack_cycle(&mut p), Ok(None));
}

#[test]
fn non_ack_lines_are_ignored() {
    let mut p = Pipeline::new();
    p.feed_sensor(&[0xa5, 0x5a]);
    let mut bytes = Vec::new();
    for _ in 0..10 {
        bytes.extend(frame(612));
    }
    p.feed_sensor(&bytes);
    drain_sensor(&mut p);

    p.feed_actuator(b"READY\r\n");
    assert_eq!(p.actuator_step(), Ok(None));
    // The genuine acknowledgment still triggers a command afterwards.
    let out = ack_cycle(&mut p).unwrap();
    assert!(out.is_some());
}

#[test]
fn invalid_utf8_line_is_fatal() {
    let mut p = Pipeline::new();
    p.feed_actuator(&[0xff, b'\n']);
    assert_eq!(p.actuator_step(), Err(ProtocolError::InvalidEncoding));
}

#[test]
fn shutdown_emits_final_lines_and_ends_stream() {
    let mut p = Pipeline::new();
    let mut bytes = vec![0xa5, 0x5a];
    for _ in 0..10 {
        bytes.extend(frame(612));
    }
    p.feed_sensor(&bytes);
    drain_sensor(&mut p);
    assert!(ack_cycle(&mut p).unwrap().is_some());
    assert!(!p.is_done());

    // The very next and final item is the safety command pair.
    let last = p.on_shutdown();
    assert_eq!(last, Some(b"SP,0\nEM,0,0".to_vec()));
    assert!(p.is_done());

    // Nothing is emitted afterwards, whatever arrives.
    assert_eq!(ack_cycle(&mut p), Ok(None));
    assert_eq!(p.on_shutdown(), None);
    assert_eq!(ack_cycle(&mut p), Ok(None));
}

#[test]
fn wrong_length_frames_do_not_disturb_state() {
    let mut p = Pipeline::new();
    // A garbage burst with misframed packets, then a valid run.
    p.feed_sensor(&[0xa5, 0x5a, 1, 2, 0xa5, 0x5a, 3, 0xa5, 0x5a]);
    drain_sensor(&mut p);
    assert_eq!(ack_cycle(&mut p), Ok(None));

    let mut bytes = Vec::new();
    for _ in 0..10 {
        bytes.extend(frame(512));
    }
    p.feed_sensor(&bytes);
    drain_sensor(&mut p);
    // Smoothed 512 scales to target 0.
    let out = ack_cycle(&mut p).unwrap().unwrap();
    assert_eq!(out, b"XM,4,4,0".to_vec());
}
