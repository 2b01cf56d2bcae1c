use dspkit::{Frame, Mono, Stereo, U24};

#[test]
fn stereo_frame_exposes_both_channels() {
    let frame: Stereo<U24> = [U24::new(1), U24::new(2)];
    assert_eq!(frame.num_channels(), 2);
    assert_eq!(frame.samples(), &[U24::new(1), U24::new(2)]);
}

#[test]
fn mono_frame_writes_through_mutable_slice() {
    let mut frame: Mono<U24> = [U24::new(5)];
    assert_eq!(frame.num_channels(), 1);
    frame.samples_mut()[0] = U24::new(6);
    assert_eq!(frame[0], U24::new(6));
}
