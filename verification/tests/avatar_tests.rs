use moix::avatar::{Color, KeyAction, Rect, State};

fn r(color: Color, x: u8, y: u8, width: u8, height: u8) -> Rect {
    Rect { color, x, y, width, height }
}

#[test]
fn idle_face_is_green_with_closed_mouth() {
    let g = Color::Green;
    assert_eq!(
        State::Idle.draw(),
        vec![r(g, 15, 35, 5, 10), r(g, 30, 35, 5, 10), r(g, 15, 10, 20, 10)]
    );
}

#[test]
fn talking_face_opens_mouth() {
    let g = Color::Green;
    assert_eq!(
        State::Talk.draw(),
        vec![r(g, 15, 35, 5, 10), r(g, 30, 35, 5, 10), r(g, 15, 5, 20, 20)]
    );
}

#[test]
fn happy_face_draws_cheeks_first() {
    let y = Color::Yellow;
    assert_eq!(
        State::Happy.draw(),
        vec![
            r(y, 10, 10, 5, 10),
            r(y, 35, 10, 5, 10),
            r(y, 15, 30, 5, 20),
            r(y, 30, 30, 5, 20),
            r(y, 15, 0, 20, 10),
        ]
    );
}

#[test]
fn angry_face_is_red_and_wide() {
    let c = Color::Red;
    assert_eq!(
        State::Angry.draw(),
        vec![r(c, 10, 35, 10, 10), r(c, 30, 35, 10, 10), r(c, 10, 10, 30, 10)]
    );
}

#[test]
fn default_mood_is_idle() {
    assert_eq!(State::default(), State::Idle);
}

#[test]
fn voice_moves_idle_and_talk_only() {
    assert_eq!(State::Idle.on_voice(true), State::Talk);
    assert_eq!(State::Talk.on_voice(false), State::Idle);
    assert_eq!(State::Talk.on_voice(true), State::Talk);
    assert_eq!(State::Idle.on_voice(false), State::Idle);
    assert_eq!(State::Happy.on_voice(true), State::Happy);
    assert_eq!(State::Angry.on_voice(false), State::Angry);
}

#[test]
fn keys_set_moods_or_quit() {
    assert_eq!(State::Talk.on_key(Some('q')), KeyAction::Quit);
    assert_eq!(State::Idle.on_key(Some('0')), KeyAction::Show(State::Happy));
    assert_eq!(State::Idle.on_key(Some('9')), KeyAction::Show(State::Angry));
    assert_eq!(State::Angry.on_key(Some('1')), KeyAction::Show(State::Idle));
    assert_eq!(State::Happy.on_key(Some('2')), KeyAction::Show(State::Talk));
    assert_eq!(State::Happy.on_key(Some('x')), KeyAction::Show(State::Happy));
    assert_eq!(State::Talk.on_key(None), KeyAction::Show(State::Talk));
}

#[test]
fn mood_from_key_survives_voice() {
    if let KeyAction::Show(m) = State::Talk.on_key(Some('0')) {
        assert_eq!(m.on_voice(true), State::Happy);
    } else {
        panic!("expected a mood");
    }
}

#[test]
fn faces_are_symmetric_and_inside_canvas() {
    for s in [State::Idle, State::Talk, State::Happy, State::Angry] {
        let f = s.draw();
        let n = f.len();
        assert_eq!(f[n - 3].x + f[n - 3].width + f[n - 2].x, 50);
        assert_eq!(2 * f[n - 1].x + f[n - 1].width, 50);
        for rect in &f {
            assert!(rect.x + rect.width <= 50 && rect.y + rect.height <= 50);
            assert_eq!(rect.color, s.color());
        }
    }
}
