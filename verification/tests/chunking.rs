use hush::chunk::chunk_samples;
use hush::sample::NativeSample;
use hush::sample::Sample;
use hush::stream::forward_to_window;
use hush::window::WindowBuffer;

fn ramp(start: i32, len: usize) -> Vec<Sample> {
    (0..len as i32).map(|k| Sample { q: start + k }).collect()
}

#[test]
fn uneven_take_pads_the_last_window() {
    let chunks = chunk_samples(&ramp(1, 5), 2);
    assert_eq!(chunks.len(), 3);
    assert_eq!(chunks[0], vec![Sample { q: 1 }, Sample { q: 2 }]);
    assert_eq!(chunks[1], vec![Sample { q: 3 }, Sample { q: 4 }]);
    assert_eq!(chunks[2], vec![Sample { q: 5 }, Sample { q: 0 }]);
}

#[test]
fn exact_multiple_gets_a_trailing_silent_window() {
    let chunks = chunk_samples(&ramp(7, 4), 2);
    assert_eq!(chunks.len(), 3);
    assert_eq!(chunks[2], vec![Sample { q: 0 }, Sample { q: 0 }]);
}

#[test]
fn empty_take_is_one_silent_window() {
    let chunks = chunk_samples(&Vec::new(), 3);
    assert_eq!(chunks.len(), 1);
    assert_eq!(chunks[0], vec![Sample { q: 0 }, Sample { q: 0 }, Sample { q: 0 }]);
}

#[test]
fn callback_delivery_converts_then_windows() {
    let mut w = WindowBuffer::new(3);
    let raw = vec![NativeSample::Int16(1), NativeSample::Int16(2)];
    assert_eq!(forward_to_window(&mut w, &raw), None);
    let raw2 = vec![NativeSample::Int16(3)];
    let window = forward_to_window(&mut w, &raw2).expect("third sample fills the window");
    assert_eq!(
        window,
        vec![
            Sample { q: 0x0001_0000 },
            Sample { q: 0x0002_0000 },
            Sample { q: 0x0003_0000 },
        ]
    );
}
