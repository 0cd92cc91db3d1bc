use femtophotos::rotation::{Coeff, Rotation};

#[test]
fn test_clockwise_rotations() {
    assert_eq!(Rotation::Up.clockwise(), Rotation::Right);
    assert_eq!(Rotation::Right.clockwise(), Rotation::Down);
    assert_eq!(Rotation::Down.clockwise(), Rotation::Left);
    assert_eq!(Rotation::Left.clockwise(), Rotation::Up);
}

#[test]
fn test_anticlockwise_rotations() {
    assert_eq!(Rotation::Up.anticlockwise(), Rotation::Left);
    assert_eq!(Rotation::Right.anticlockwise(), Rotation::Up);
    assert_eq!(Rotation::Down.anticlockwise(), Rotation::Right);
    assert_eq!(Rotation::Left.anticlockwise(), Rotation::Down);
}

#[test]
fn test_clockwise_four_times_identity() {
    for start in [Rotation::Up, Rotation::Right, Rotation::Down, Rotation::Left] {
        let back = start.clockwise().clockwise().clockwise().clockwise();
        assert_eq!(back, start);
        let undone = start.clockwise().anticlockwise();
        assert_eq!(undone, start);
        let undone_other_way = start.anticlockwise().clockwise();
        assert_eq!(undone_other_way, start);
    }
}

#[test]
fn test_to_mat_letterbox() {
    // Wide device, square image, upright: t = (1*1)/(2*1) = 0.5 < 1, s = 1,
    // giving [[0.5, 0], [0, -1]].
    let m = Rotation::Up.to_mat((2, 1), (1, 1));
    assert_eq!(m.xx, Coeff { neg: false, num: 1, den: 2 });
    assert_eq!(m.xy, Coeff { neg: false, num: 0, den: 1 });
    assert_eq!(m.yx, Coeff { neg: false, num: 0, den: 1 });
    assert_eq!(m.yy, Coeff { neg: true, num: 1, den: 1 });
    assert_eq!(m.xx.num as f32 / m.xx.den as f32, 0.5f32);
    assert_eq!(m.yy.num as f32 / m.yy.den as f32, 1.0f32);
}

#[test]
fn test_to_mat_square_unit() {
    // Square device and square image: every nonzero entry has magnitude
    // exactly 1, whatever the orientation.
    for r in [Rotation::Up, Rotation::Right, Rotation::Down, Rotation::Left] {
        let m = r.to_mat((7, 7), (3, 3));
        for c in [m.xx, m.xy, m.yx, m.yy] {
            if c.num != 0 {
                assert_eq!(c.num, c.den);
            }
        }
    }
    // The sign pattern for a quarter turn clockwise: [[0, -t], [-s, 0]].
    let m = Rotation::Right.to_mat((4, 4), (2, 2));
    assert_eq!(m.xx, Coeff { neg: false, num: 0, den: 1 });
    assert!(m.xy.neg);
    assert!(m.yx.neg);
    assert_eq!(m.yy, Coeff { neg: false, num: 0, den: 1 });
}
