use greachers::animation::{
    get_greacher_state, GreacherAnimationState, GreacherBodyAnimation, LegState,
};
use greachers::greacher::GreacherBodyType;

const IDLE: GreacherAnimationState = GreacherAnimationState::Legs(LegState::Idle);
const RUN: GreacherAnimationState = GreacherAnimationState::Legs(LegState::Run);
const WINGS: GreacherAnimationState = GreacherAnimationState::Wings;

#[test]
fn a_body_starts_at_rest() {
    let legs = GreacherBodyAnimation::new(&GreacherBodyType::Legs);
    assert_eq!((legs.frame_counter, legs.state), (0, IDLE));
    let wings = GreacherBodyAnimation::new(&GreacherBodyType::Wings);
    assert_eq!((wings.frame_counter, wings.state), (0, WINGS));
}

#[test]
fn state_follows_body_and_motion() {
    assert_eq!(get_greacher_state(GreacherBodyType::Legs, true), RUN);
    assert_eq!(get_greacher_state(GreacherBodyType::Legs, false), IDLE);
    assert_eq!(get_greacher_state(GreacherBodyType::Wings, true), WINGS);
    assert_eq!(get_greacher_state(GreacherBodyType::Wings, false), WINGS);
}

#[test]
fn idle_legs_loop_over_six_frames() {
    let mut a = GreacherBodyAnimation::new(&GreacherBodyType::Legs);
    let shown: Vec<usize> = (0..13).map(|_| a.advance(IDLE)).collect();
    assert_eq!(shown, vec![1, 2, 3, 4, 5, 0, 1, 2, 3, 4, 5, 0, 1]);
}

#[test]
fn running_legs_loop_over_eight_frames_from_the_ninth() {
    let mut a = GreacherBodyAnimation::new(&GreacherBodyType::Legs);
    let shown: Vec<usize> = (0..10).map(|_| a.advance(RUN)).collect();
    assert_eq!(shown, vec![8, 9, 10, 11, 12, 13, 14, 15, 8, 9]);
    assert_eq!(a.frame_counter, 1);
}

#[test]
fn wings_loop_over_five_frames() {
    let mut a = GreacherBodyAnimation::new(&GreacherBodyType::Wings);
    let shown: Vec<usize> = (0..7).map(|_| a.advance(WINGS)).collect();
    assert_eq!(shown, vec![1, 2, 3, 4, 0, 1, 2]);
}

#[test]
fn a_change_of_state_starts_the_loop_again() {
    let mut a = GreacherBodyAnimation::new(&GreacherBodyType::Legs);
    a.advance(IDLE);
    a.advance(IDLE);
    assert_eq!(a.advance(RUN), 8);
    assert_eq!(a.state, RUN);
    assert_eq!(a.advance(RUN), 9);
    assert_eq!(a.advance(IDLE), 0);
    assert_eq!(a.frame_counter, 0);
}

#[test]
fn a_counter_beyond_the_loop_comes_back_to_its_start() {
    let mut a = GreacherBodyAnimation { frame_counter: 40, state: WINGS };
    assert_eq!(a.advance(WINGS), 0);
    let mut b = GreacherBodyAnimation { frame_counter: 7, state: RUN };
    assert_eq!(b.advance(RUN), 8);
}

#[test]
fn a_change_of_state_takes_any_counter() {
    let mut a = GreacherBodyAnimation { frame_counter: usize::MAX, state: WINGS };
    assert_eq!(a.advance(RUN), 8);
    assert_eq!((a.frame_counter, a.state), (0, RUN));
    let mut b = GreacherBodyAnimation { frame_counter: usize::MAX, state: RUN };
    assert_eq!(b.advance(IDLE), 0);
    assert_eq!(b.frame_counter, 0);
}
