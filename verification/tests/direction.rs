use glbb::GLBBDirection;

#[test]
fn named_directions() {
    assert_eq!(GLBBDirection::stop(), GLBBDirection::Stop);
    assert_eq!(GLBBDirection::left(), GLBBDirection::Horizontal(-1));
    assert_eq!(GLBBDirection::right(), GLBBDirection::Horizontal(1));
    assert_eq!(GLBBDirection::up(), GLBBDirection::Vertical(1));
    assert_eq!(GLBBDirection::down(), GLBBDirection::Vertical(-1));
}

#[test]
fn default_direction_is_stop() {
    assert_eq!(GLBBDirection::default(), GLBBDirection::Stop);
    assert!(GLBBDirection::default().is_stop());
}

#[test]
fn only_stop_is_stop() {
    assert!(GLBBDirection::stop().is_stop());
    assert!(!GLBBDirection::left().is_stop());
    assert!(!GLBBDirection::right().is_stop());
    assert!(!GLBBDirection::up().is_stop());
    assert!(!GLBBDirection::down().is_stop());
    assert!(!GLBBDirection::Horizontal(0).is_stop());
}

#[test]
fn set_direction_keeps_the_axis() {
    let mut direction = GLBBDirection::left();
    direction.set_direction(1);
    assert_eq!(direction, GLBBDirection::right());

    let mut direction = GLBBDirection::up();
    direction.set_direction(-1);
    assert_eq!(direction, GLBBDirection::down());

    let mut direction = GLBBDirection::Vertical(3);
    direction.set_direction(i8::MIN);
    assert_eq!(direction, GLBBDirection::Vertical(i8::MIN));
}

#[test]
fn set_direction_leaves_stop_alone() {
    let mut direction = GLBBDirection::stop();
    direction.set_direction(1);
    assert_eq!(direction, GLBBDirection::Stop);
    direction.set_direction(-1);
    assert!(direction.is_stop());
}

#[test]
fn set_direction_twice_keeps_the_later_sense() {
    let mut twice = GLBBDirection::left();
    twice.set_direction(5);
    twice.set_direction(-7);
    let mut once = GLBBDirection::left();
    once.set_direction(-7);
    assert_eq!(twice, once);
}
