use factory_core::direction::IsoDirection;

const ALL: [IsoDirection; 6] = [
    IsoDirection::PosA,
    IsoDirection::NegC,
    IsoDirection::PosB,
    IsoDirection::NegA,
    IsoDirection::PosC,
    IsoDirection::NegB,
];

#[test]
fn six_clockwise_turns_come_back() {
    for d in ALL {
        let mut e = d;
        for _ in 0..6 {
            e = e.clockwise();
        }
        assert_eq!(e, d);
    }
}

#[test]
fn fewer_than_six_clockwise_turns_do_not_come_back() {
    for d in ALL {
        let mut e = d;
        for _ in 0..5 {
            e = e.clockwise();
            assert_ne!(e, d);
        }
    }
}

#[test]
fn clockwise_then_counter_clockwise_is_identity() {
    for d in ALL {
        assert_eq!(d.clockwise().counter_clockwise(), d);
        assert_eq!(d.counter_clockwise().clockwise(), d);
    }
}

#[test]
fn clockwise_order_of_directions() {
    assert_eq!(IsoDirection::PosA.clockwise(), IsoDirection::NegC);
    assert_eq!(IsoDirection::NegB.clockwise(), IsoDirection::PosA);
    assert_eq!(IsoDirection::PosA.counter_clockwise(), IsoDirection::NegB);
    assert_eq!(IsoDirection::default(), IsoDirection::PosA);
}
