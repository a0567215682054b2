use murmur::audio::{
    capture_buffer, input_device_choice, meter_tick, noise_gate_frames, resume_buffers, take_recorded,
    trim_range, trim_silence, uses_default_device, CaptureBuffer, MeterReading, RecorderState,
};

#[test]
fn recorder_state_errors() {
    let mut r = RecorderState::new();
    assert_eq!(r.stop(), Err("Not recording".to_string()));
    assert_eq!(r.pause(), Err("Not recording".to_string()));
    assert_eq!(r.resume(), Err("Not recording".to_string()));
    assert_eq!(r.cancel(), Err("Not recording".to_string()));
    assert_eq!(r.stop_mic_test(), Err("Mic test is not active".to_string()));
    assert_eq!(r.check_idle(), Ok(()));
    r.prepare_recording();
    r.stream_started();
    assert_eq!(r.check_idle(), Err("An audio stream is already active".to_string()));
}

#[test]
fn recorder_pause_resume_cancel() {
    let mut r = RecorderState::new();
    r.stream_started();
    assert_eq!(r.pause(), Ok(()));
    assert!(r.is_paused());
    assert_eq!(capture_buffer(r.is_paused()), CaptureBuffer::Paused);
    assert_eq!(r.resume(), Ok(()));
    assert!(!r.is_paused());
    assert_eq!(capture_buffer(r.is_paused()), CaptureBuffer::Recording);
    r.pause().unwrap();
    assert_eq!(r.cancel(), Ok(()));
    assert!(!r.is_paused());
    assert!(!r.is_active());
}

#[test]
fn resume_keeps_samples_in_order() {
    let mut samples = vec![0.1f32, 0.2];
    let mut paused = vec![0.3f32, 0.4, 0.5];
    resume_buffers(&mut samples, &mut paused);
    assert_eq!(samples, vec![0.1, 0.2, 0.3, 0.4, 0.5]);
    assert!(paused.is_empty());
}

#[test]
fn take_recorded_samples() {
    let mut s = vec![1i16, 2, 3];
    assert_eq!(take_recorded(&mut s), Ok(vec![1, 2, 3]));
    assert!(s.is_empty());
    assert_eq!(take_recorded(&mut s), Err("No audio captured".to_string()));
}

#[test]
fn device_choice() {
    assert!(uses_default_device("Default"));
    assert!(uses_default_device(""));
    assert!(!uses_default_device("USB Mic"));
    assert_eq!(input_device_choice(None), None);
    assert_eq!(input_device_choice(Some("Default")), None);
    assert_eq!(input_device_choice(Some("USB Mic")), Some("USB Mic".to_string()));
}

#[test]
fn noise_gate_holds_after_loud_frames() {
    let loud = vec![false, true, false, false, false, true, false];
    assert_eq!(noise_gate_frames(&loud, 2), vec![true, false, false, false, true, false, false]);
    assert_eq!(noise_gate_frames(&vec![false, false], 10), vec![true, true]);
    assert!(noise_gate_frames(&vec![], 10).is_empty());
}

#[test]
fn silence_trimming() {
    let audible = vec![false, false, false, true, false, true, false, false, false];
    assert_eq!(trim_range(&audible, 1), (2, 7));
    assert_eq!(trim_range(&audible, 5), (0, 9));
    let samples: Vec<u8> = (0..9).collect();
    assert_eq!(trim_silence(&samples, &audible, 1), vec![2, 3, 4, 5, 6]);
    // without audible samples, the whole recording is kept
    let quiet = vec![false; 4];
    assert_eq!(trim_range(&quiet, 0), (0, 4));
    assert_eq!(trim_range(&quiet, 1), (0, 4));
    assert_eq!(trim_silence(&vec![1u8, 2, 3, 4], &quiet, 0), vec![1, 2, 3, 4]);
    assert_eq!(trim_silence(&Vec::<u8>::new(), &vec![], 160), Vec::<u8>::new());
}

#[test]
fn level_meter_hold_counter() {
    assert_eq!(meter_tick(0, MeterReading::Peak { loud: true }, true), (2, false));
    assert_eq!(meter_tick(2, MeterReading::Peak { loud: false }, true), (1, false));
    assert_eq!(meter_tick(0, MeterReading::Peak { loud: false }, true), (0, true));
    assert_eq!(meter_tick(0, MeterReading::Peak { loud: false }, false), (0, false));
    assert_eq!(meter_tick(2, MeterReading::Timeout, true), (1, true));
    assert_eq!(meter_tick(2, MeterReading::Timeout, false), (2, true));
}
