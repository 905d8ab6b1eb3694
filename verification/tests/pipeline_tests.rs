use pulse_meter::channel::SampleChannel;
use pulse_meter::display::{digit_pattern, Mux};
use pulse_meter::engine::Hr;
use pulse_meter::sampler::Sampler;

/// The whole pipeline, driven by a deterministic schedule: the
/// sampler enqueues one synthetic sample per tick, the engine
/// consumes it, the published estimate reaches the multiplexer.
#[test]
fn pulse_train_reaches_display() {
    let mut sampler = Sampler::new(0, 1);
    let mut channel = SampleChannel::new(200);
    let mut engine = Hr::new();
    let mut mux = Mux::new(0);
    let mut display_value: u32 = 0;

    for i in 0..5000usize {
        let deadline = sampler.advance();
        assert_eq!(deadline, i as u64 + 1);
        let raw = if i > 0 && i % 1000 == 0 { 34000 } else { 32768 };
        // a full channel would be fatal; the engine keeps up here
        channel.try_enqueue(raw).expect("sample channel overrun");
        let sample = channel.dequeue().unwrap();
        let (_, _, _, beat) = engine.tick(false, sample);
        if beat {
            display_value = engine.hr();
        }
    }
    assert_eq!(display_value, 60);

    // one full refresh cycle renders "60"
    let s1 = mux.step(display_value);
    assert!(s1.lines.common1);
    assert_eq!(s1.lines.segments, digit_pattern(6));
    let _ = mux.step(display_value);
    let s3 = mux.step(display_value);
    assert!(s3.lines.common2);
    assert_eq!(s3.lines.segments, digit_pattern(0));
    let _ = mux.step(display_value);
    assert_eq!(mux.get_count(), 1);
}
