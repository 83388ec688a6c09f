use three_body::layout::{others, slot, Quantity, BODIES, STATE_LEN};

const QUANTITIES: [Quantity; 4] =
    [Quantity::PositionX, Quantity::PositionY, Quantity::VelocityX, Quantity::VelocityY];

#[test]
fn sizes() {
    assert_eq!(BODIES, 3);
    assert_eq!(STATE_LEN, 12);
}

#[test]
fn slots_follow_the_grouped_layout() {
    assert_eq!(slot(Quantity::PositionX, 0), 0);
    assert_eq!(slot(Quantity::PositionX, 1), 1);
    assert_eq!(slot(Quantity::PositionX, 2), 2);
    assert_eq!(slot(Quantity::PositionY, 0), 3);
    assert_eq!(slot(Quantity::PositionY, 1), 4);
    assert_eq!(slot(Quantity::PositionY, 2), 5);
    assert_eq!(slot(Quantity::VelocityX, 0), 6);
    assert_eq!(slot(Quantity::VelocityX, 1), 7);
    assert_eq!(slot(Quantity::VelocityX, 2), 8);
    assert_eq!(slot(Quantity::VelocityY, 0), 9);
    assert_eq!(slot(Quantity::VelocityY, 1), 10);
    assert_eq!(slot(Quantity::VelocityY, 2), 11);
}

#[test]
fn slots_cover_the_vector_once() {
    let mut seen = [false; STATE_LEN];
    for quantity in QUANTITIES {
        for body in 0..BODIES {
            let s = slot(quantity, body);
            assert!(s < STATE_LEN);
            assert!(!seen[s]);
            seen[s] = true;
        }
    }
    assert!(seen.iter().all(|&hit| hit));
}

#[test]
fn others_are_the_remaining_two_in_order() {
    assert_eq!(others(0), (1, 2));
    assert_eq!(others(1), (0, 2));
    assert_eq!(others(2), (0, 1));
}
