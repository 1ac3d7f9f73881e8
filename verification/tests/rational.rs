use ffav::stream::AvStream;
use ffav::context::InputContext;
use ffav::util::AvRational;

#[test]
fn inverse_swaps_numerator_and_denominator() {
    let r = AvRational { num: 1, den: 25 };
    assert_eq!(r.inverse(), AvRational { num: 25, den: 1 });
    let z = AvRational { num: 0, den: 1 };
    assert_eq!(z.inverse(), AvRational { num: 1, den: 0 });
}

#[test]
fn inverse_twice_is_identity() {
    let r = AvRational { num: -30000, den: 1001 };
    assert_eq!(r.inverse().inverse(), r);
}

#[test]
fn zero_over_one_guess_means_no_frame_rate() {
    assert_eq!(AvStream::<InputContext>::frame_rate_from_guess(AvRational { num: 0, den: 1 }), None);
    let r = AvRational { num: 30000, den: 1001 };
    assert_eq!(AvStream::<InputContext>::frame_rate_from_guess(r), Some(r));
    let z = AvRational { num: 0, den: 2 };
    assert_eq!(AvStream::<InputContext>::frame_rate_from_guess(z), Some(z));
    let o = AvRational { num: 1, den: 1 };
    assert_eq!(AvStream::<InputContext>::frame_rate_from_guess(o), Some(o));
}
