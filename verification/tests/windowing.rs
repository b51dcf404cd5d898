use hush::sample::Sample;
use hush::window::WindowBuffer;

fn ramp(start: i32, len: usize) -> Vec<Sample> {
    let mut v = Vec::new();
    let mut k = 0;
    while k < len {
        v.push(Sample { q: start + k as i32 });
        k += 1;
    }
    v
}

#[test]
fn exact_fill_by_single_pushes() {
    let mut w = WindowBuffer::new(4);
    assert_eq!(w.push(Sample { q: 10 }), None);
    assert_eq!(w.push(Sample { q: 11 }), None);
    assert_eq!(w.push(Sample { q: 12 }), None);
    let window = w.push(Sample { q: 13 }).expect("fourth push fills the window");
    assert_eq!(window, ramp(10, 4));
    // The buffer restarts from empty: three more pushes stay quiet.
    assert_eq!(w.push(Sample { q: 20 }), None);
    assert_eq!(w.push(Sample { q: 21 }), None);
    assert_eq!(w.push(Sample { q: 22 }), None);
    let second = w.push(Sample { q: 23 }).expect("second window fills");
    assert_eq!(second, ramp(20, 4));
}

#[test]
fn exact_fill_by_block_partition() {
    // The same four samples in a different partition trigger exactly once.
    let mut w = WindowBuffer::new(4);
    assert_eq!(w.accept(&ramp(10, 1)), None);
    let window = w.accept(&ramp(11, 3)).expect("partition reaching capacity dispatches");
    assert_eq!(window, ramp(10, 4));
}

#[test]
fn overflowing_block_drops_the_tail() {
    // Capacity 4, one block of 6: the window holds the first 4 samples and
    // the 2 overflow samples are gone — absent from the next window too.
    let mut w = WindowBuffer::new(4);
    let window = w.accept(&ramp(100, 6)).expect("overshooting block dispatches");
    assert_eq!(window, ramp(100, 4));
    let next = w.accept(&ramp(200, 4)).expect("next window fills");
    assert_eq!(next, ramp(200, 4));
    for s in &next {
        assert!(s.q != 104 && s.q != 105);
    }
}

#[test]
fn three_blocks_of_256_fill_768() {
    // Mono 16 kHz float scenario: three deliveries of 256 samples into a
    // window of 768 dispatch exactly once, after the third block.
    let mut w = WindowBuffer::new(768);
    assert_eq!(w.accept(&ramp(0, 256)), None);
    assert_eq!(w.accept(&ramp(256, 256)), None);
    let window = w.accept(&ramp(512, 256)).expect("third block fills the window");
    assert_eq!(window.len(), 768);
    assert_eq!(window, ramp(0, 768));
    // Cursor is back at the start: the next full fill is needed again.
    assert_eq!(w.accept(&ramp(0, 767)), None);
}

#[test]
fn empty_block_is_quiet() {
    let mut w = WindowBuffer::new(2);
    assert_eq!(w.accept(&Vec::new()), None);
    assert_eq!(w.push(Sample { q: 1 }), None);
    assert_eq!(w.accept(&Vec::new()), None);
    let window = w.push(Sample { q: 2 }).expect("second sample fills");
    assert_eq!(window, vec![Sample { q: 1 }, Sample { q: 2 }]);
}

#[test]
fn capacity_one_dispatches_every_push() {
    let mut w = WindowBuffer::new(1);
    assert_eq!(w.push(Sample { q: 5 }), Some(vec![Sample { q: 5 }]));
    assert_eq!(w.push(Sample { q: 6 }), Some(vec![Sample { q: 6 }]));
}
