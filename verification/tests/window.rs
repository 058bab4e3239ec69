use noob_saturator::dsp::alias::{WindowFill, WINDOW};

/// Push blocks of `sizes` through a gatherer the way the readout does and
/// count the windows measured, checking each one's contents.
fn windows_measured(start_fill: usize, sizes: &[usize]) -> (usize, usize) {
    let mut w = WindowFill::new(0u32);
    let mut counter: u32 = 0;
    let mut expect: u32 = 0;
    let mut windows = 0;
    if start_fill > 0 {
        let pre: Vec<u32> = (0..start_fill as u32).collect();
        let pre_out: Vec<u32> = pre.iter().map(|x| x + 1_000_000).collect();
        w.feed(&pre, &pre_out, 0, start_fill);
        counter = start_fill as u32;
    }
    for &n in sizes {
        let block: Vec<u32> = (counter..counter + n as u32).collect();
        let outs: Vec<u32> = block.iter().map(|x| x + 1_000_000).collect();
        counter += n as u32;
        let mut i = 0;
        while i < n {
            i = w.feed(&block, &outs, i, n);
            if w.is_full() {
                let (a, b) = w.window();
                for k in 0..WINDOW {
                    assert_eq!(a[k], expect + k as u32);
                    assert_eq!(b[k], expect + k as u32 + 1_000_000);
                }
                expect += WINDOW as u32;
                windows += 1;
                w.restart();
            }
        }
    }
    (windows, w.len())
}

#[test]
fn a_window_is_measured_each_time_it_fills_and_the_rest_carries_over() {
    assert_eq!(windows_measured(0, &[512; 8]), (1, 0));
    assert_eq!(windows_measured(0, &[1000; 9]), (2, 9000 - 2 * WINDOW));
    assert_eq!(windows_measured(4000, &[100]), (1, 4));
    assert_eq!(windows_measured(0, &[3 * WINDOW + 5]), (3, 5));
    assert_eq!(windows_measured(WINDOW - 1, &[1]), (1, 0));
}

#[test]
fn feeding_stops_at_the_end_of_the_window() {
    let mut w = WindowFill::new(0i32);
    let block = vec![7i32; WINDOW + 10];
    let next = w.feed(&block, &block, 3, WINDOW + 10);
    assert_eq!(next, 3 + WINDOW);
    assert!(w.is_full());
    w.restart();
    assert_eq!(w.len(), 0);
    let next = w.feed(&block, &block, next, WINDOW + 10);
    assert_eq!(next, WINDOW + 10);
    assert_eq!(w.len(), 7);
    assert!(!w.is_full());
}
