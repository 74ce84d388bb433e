use rusted_open_example::input::{ControlKey, KeyInput};
use rusted_open_example::movement::{Motion, Movement};

fn held(keys: &[ControlKey]) -> KeyInput {
    let mut input = KeyInput::released();
    for k in keys {
        input.press(*k);
    }
    input
}

#[test]
fn all_keys_in_frame_order() {
    assert_eq!(
        ControlKey::all(),
        vec![ControlKey::W, ControlKey::S, ControlKey::A, ControlKey::D, ControlKey::Q, ControlKey::E]
    );
}

#[test]
fn released_holds_nothing() {
    let input = KeyInput::released();
    for k in ControlKey::all() {
        assert!(!input.is_pressed(k));
    }
}

#[test]
fn press_holds_only_that_key() {
    let mut input = KeyInput::released();
    input.press(ControlKey::A);
    for k in ControlKey::all() {
        assert_eq!(input.is_pressed(k), k == ControlKey::A);
    }
    assert!(input.a && !input.w && !input.s && !input.d && !input.q && !input.e);
}

#[test]
fn motion_of_each_key() {
    assert_eq!(Movement::motion(ControlKey::W), Motion::Translate { dx: 0, dy: 1 });
    assert_eq!(Movement::motion(ControlKey::S), Motion::Translate { dx: 0, dy: -1 });
    assert_eq!(Movement::motion(ControlKey::A), Motion::Translate { dx: -1, dy: 0 });
    assert_eq!(Movement::motion(ControlKey::D), Motion::Translate { dx: 1, dy: 0 });
    assert_eq!(Movement::motion(ControlKey::Q), Motion::Turn { sign: 1 });
    assert_eq!(Movement::motion(ControlKey::E), Motion::Turn { sign: -1 });
}

#[test]
fn no_keys_no_motion() {
    assert!(Movement::frame_motions(&KeyInput::released()).is_empty());
}

#[test]
fn single_key_single_motion() {
    let input = held(&[ControlKey::D]);
    assert_eq!(Movement::frame_motions(&input), vec![Motion::Translate { dx: 1, dy: 0 }]);
}

#[test]
fn opposite_keys_both_apply_in_key_order() {
    let input = held(&[ControlKey::S, ControlKey::W]);
    assert_eq!(
        Movement::frame_motions(&input),
        vec![Motion::Translate { dx: 0, dy: 1 }, Motion::Translate { dx: 0, dy: -1 }]
    );
}

#[test]
fn all_keys_held() {
    let input = KeyInput { w: true, s: true, a: true, d: true, q: true, e: true };
    assert_eq!(
        Movement::frame_motions(&input),
        vec![
            Motion::Translate { dx: 0, dy: 1 },
            Motion::Translate { dx: 0, dy: -1 },
            Motion::Translate { dx: -1, dy: 0 },
            Motion::Translate { dx: 1, dy: 0 },
            Motion::Turn { sign: 1 },
            Motion::Turn { sign: -1 },
        ]
    );
}

#[test]
fn move_and_turn_together() {
    let input = held(&[ControlKey::E, ControlKey::W, ControlKey::A]);
    assert_eq!(
        Movement::frame_motions(&input),
        vec![
            Motion::Translate { dx: 0, dy: 1 },
            Motion::Translate { dx: -1, dy: 0 },
            Motion::Turn { sign: -1 },
        ]
    );
}

#[test]
fn net_motion_of_every_key_set() {
    for bits in 0u32..64 {
        let input = KeyInput {
            w: bits & 1 != 0,
            s: bits & 2 != 0,
            a: bits & 4 != 0,
            d: bits & 8 != 0,
            q: bits & 16 != 0,
            e: bits & 32 != 0,
        };
        let ms = Movement::frame_motions(&input);
        let (mut x, mut y, mut t) = (0i32, 0i32, 0i32);
        for m in &ms {
            match *m {
                Motion::Translate { dx, dy } => {
                    x += dx as i32;
                    y += dy as i32;
                }
                Motion::Turn { sign } => t += sign as i32,
            }
        }
        let c = |b: bool| if b { 1 } else { 0 };
        assert_eq!(x, c(input.d) - c(input.a));
        assert_eq!(y, c(input.w) - c(input.s));
        assert_eq!(t, c(input.q) - c(input.e));
        assert_eq!(ms.len() as u32, bits.count_ones());
    }
}
