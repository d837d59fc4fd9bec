use tuika::anim::{StopPlace, StopTimes};

#[test]
fn stops_are_kept_in_frame_order_one_per_frame() {
    let mut times = StopTimes::new();
    assert_eq!(times.duration(), 0);
    assert_eq!(times.place(10), StopPlace::Insert(0));
    assert_eq!(times.place(0), StopPlace::Insert(0));
    assert_eq!(times.place(5), StopPlace::Insert(1));
    assert_eq!(times.place(10), StopPlace::Replace(2));
    assert_eq!(times.place(20), StopPlace::Insert(3));
    assert_eq!(times.times(), &[0, 5, 10, 20]);
    assert_eq!(times.duration(), 20);
}

#[test]
fn a_sample_interpolates_towards_the_first_stop_not_before_it() {
    let mut times = StopTimes::new();
    for at in [0, 10, 30] {
        times.place(at);
    }
    assert_eq!(times.segment(0), 1);
    assert_eq!(times.segment(5), 1);
    assert_eq!(times.segment(10), 1);
    assert_eq!(times.segment(11), 2);
    assert_eq!(times.segment(30), 2);
    assert_eq!(times.segment(99), 2);
}
