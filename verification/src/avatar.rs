//! The streaming avatar: its mood, how voice and keys change it, and the face
//! drawn for each mood on a 50 by 50 canvas.

use vstd::prelude::*;

verus! {

/// The avatar's mood.
#[derive(Clone, Copy, Debug, PartialEq, Eq, Structural)]
pub enum State {
    Idle,
    Talk,
    Happy,
    Angry,
}

/// The colour a face is drawn in.
#[derive(Clone, Copy, Debug, PartialEq, Eq, Structural)]
pub enum Color {
    Green,
    Yellow,
    Red,
}

/// A filled rectangle on the canvas; `(x, y)` is its lower left corner.
#[derive(Clone, Copy, Debug, PartialEq, Eq, Structural)]
pub struct Rect {
    pub color: Color,
    pub x: u8,
    pub y: u8,
    pub width: u8,
    pub height: u8,
}

/// What a key press asks of the avatar screen.
#[derive(Clone, Copy, Debug, PartialEq, Eq, Structural)]
pub enum KeyAction {
    /// Leave the screen.
    Quit,
    /// Keep drawing, now in this mood.
    Show(State),
}

/// The width and height of the canvas the face is drawn on.
pub const CANVAS: u8 = 50;

pub open spec fn rect(color: Color, x: u8, y: u8, width: u8, height: u8) -> Rect {
    Rect { color, x, y, width, height }
}

/// The colour of the face in each mood.
pub open spec fn mood_color(s: State) -> Color {
    match s {
        State::Happy => Color::Yellow,
        State::Angry => Color::Red,
        _ => Color::Green,
    }
}

/// The rectangles of the face in each mood, in drawing order: for a happy face
/// the two cheeks first, then the left eye, the right eye and the mouth.
pub open spec fn face(s: State) -> Seq<Rect> {
    let c = mood_color(s);
    match s {
        State::Idle => seq![rect(c, 15, 35, 5, 10), rect(c, 30, 35, 5, 10), rect(c, 15, 10, 20, 10)],
        State::Talk => seq![rect(c, 15, 35, 5, 10), rect(c, 30, 35, 5, 10), rect(c, 15, 5, 20, 20)],
        State::Happy => seq![
            rect(c, 10, 10, 5, 10),
            rect(c, 35, 10, 5, 10),
            rect(c, 15, 30, 5, 20),
            rect(c, 30, 30, 5, 20),
            rect(c, 15, 0, 20, 10),
        ],
        State::Angry => seq![rect(c, 10, 35, 10, 10), rect(c, 30, 35, 10, 10), rect(c, 10, 10, 30, 10)],
    }
}

/// The mood after a voice sample; `loud` says the sample's mean level was above the
/// talking threshold. Only an idle or talking avatar follows the voice.
pub open spec fn after_voice(s: State, loud: bool) -> State {
    match s {
        State::Idle | State::Talk => if loud { State::Talk } else { State::Idle },
        _ => s,
    }
}

/// What a key does: `q` quits, `0` makes the avatar happy, `9` angry, `1` idle and
/// `2` talking; any other key, or a key without a character, changes nothing.
pub open spec fn key_action(s: State, key: Option<char>) -> KeyAction {
    match key {
        Some('q') => KeyAction::Quit,
        Some('0') => KeyAction::Show(State::Happy),
        Some('9') => KeyAction::Show(State::Angry),
        Some('1') => KeyAction::Show(State::Idle),
        Some('2') => KeyAction::Show(State::Talk),
        _ => KeyAction::Show(s),
    }
}

impl Default for State {
    fn default() -> (s: State)
        ensures
            s == State::Idle,
    {
        State::Idle
    }
}

fn make_rect(color: Color, x: u8, y: u8, width: u8, height: u8) -> (r: Rect)
    ensures
        r == rect(color, x, y, width, height),
{
    Rect { color, x, y, width, height }
}

impl State {
    /// The colour of the face in this mood.
    pub fn color(&self) -> (c: Color)
        ensures
            c == mood_color(*self),
    {
        match self {
            State::Happy => Color::Yellow,
            State::Angry => Color::Red,
            _ => Color::Green,
        }
    }

    /// The rectangles to draw for this mood, in order.
    pub fn draw(&self) -> (shapes: Vec<Rect>)
        ensures
            shapes@ == face(*self),
    {
        let color = self.color();
        let mut eye_left: (u8, u8, u8, u8) = (15, 35, 5, 10);
        let mut eye_right: (u8, u8, u8, u8) = (30, 35, 5, 10);
        let mut mouth: (u8, u8, u8, u8) = (15, 10, 20, 10);
        let mut shapes: Vec<Rect> = Vec::new();
        match self {
            State::Idle => {},
            State::Talk => {
                mouth = (15, 5, 20, 20);
            },
            State::Happy => {
                eye_left = (15, 30, 5, 20);
                eye_right = (30, 30, 5, 20);
                mouth = (15, 0, 20, 10);
                shapes.push(make_rect(color, 10, 10, 5, 10));
                shapes.push(make_rect(color, 35, 10, 5, 10));
            },
            State::Angry => {
                eye_left = (10, 35, 10, 10);
                eye_right = (30, 35, 10, 10);
                mouth = (10, 10, 30, 10);
            },
        }
        shapes.push(make_rect(color, eye_left.0, eye_left.1, eye_left.2, eye_left.3));
        shapes.push(make_rect(color, eye_right.0, eye_right.1, eye_right.2, eye_right.3));
        shapes.push(make_rect(color, mouth.0, mouth.1, mouth.2, mouth.3));
        assert(shapes@ =~= face(*self));
        shapes
    }

    /// The mood after a voice sample whose mean level was above the threshold
    /// (`loud`) or not.
    pub fn on_voice(self, loud: bool) -> (next: State)
        ensures
            next == after_voice(self, loud),
    {
        match self {
            State::Idle | State::Talk => if loud {
                State::Talk
            } else {
                State::Idle
            },
            _ => self,
        }
    }

    /// What a key press does in this mood; `key` is the key's character, if it has one.
    pub fn on_key(self, key: Option<char>) -> (action: KeyAction)
        ensures
            action == key_action(self, key),
    {
        match key {
            Some('q') => KeyAction::Quit,
            Some('0') => KeyAction::Show(State::Happy),
            Some('9') => KeyAction::Show(State::Angry),
            Some('1') => KeyAction::Show(State::Idle),
            Some('2') => KeyAction::Show(State::Talk),
            _ => KeyAction::Show(self),
        }
    }
}

/// Every rectangle of every face lies inside the canvas.
pub proof fn law_face_inside_canvas(s: State)
    ensures
        forall|i: int|
            0 <= i < face(s).len() ==> #[trigger] face(s)[i].x + face(s)[i].width <= CANVAS
                && face(s)[i].y + face(s)[i].height <= CANVAS,
{
}

/// Every face is drawn in one colour, the colour of its mood.
pub proof fn law_face_one_color(s: State)
    ensures
        forall|i: int| 0 <= i < face(s).len() ==> #[trigger] face(s)[i].color == mood_color(s),
{
}

/// Every face is mirror-symmetric about the canvas's vertical centre line: the
/// rectangle at position `i` of the eyes (and cheeks) mirrors its partner, and the
/// mouth is centred.
pub proof fn law_face_symmetric(s: State)
    ensures
        ({
            let f = face(s);
            let n = f.len();
            &&& n >= 3
            &&& f[n - 3].x + f[n - 3].width + f[n - 2].x == CANVAS
            &&& f[n - 3].y == f[n - 2].y && f[n - 3].width == f[n - 2].width
                && f[n - 3].height == f[n - 2].height
            &&& 2 * f[n - 1].x + f[n - 1].width == CANVAS
            &&& n == 5 ==> f[0].x + f[0].width + f[1].x == CANVAS && f[0].y == f[1].y
        }),
{
}

/// The voice never changes a happy or angry avatar, and it always leaves an idle
/// or talking one idle or talking.
pub proof fn law_voice_keeps_mood(s: State, loud: bool)
    ensures
        (s == State::Happy || s == State::Angry) ==> after_voice(s, loud) == s,
        (s == State::Idle || s == State::Talk) ==> (after_voice(s, loud) == State::Talk <==> loud)
            && (after_voice(s, loud) == State::Idle <==> !loud),
{
}

/// The mood keys set a mood whatever the mood was before, `q` quits from any mood,
/// and once a mood key made the avatar happy or angry no voice sample undoes it.
pub proof fn law_keys_override(s: State, t: State, key: char, loud: bool)
    ensures
        (key == '0' || key == '9' || key == '1' || key == '2') ==> key_action(s, Some(key))
            == key_action(t, Some(key)),
        key_action(s, Some('q')) == KeyAction::Quit,
        key_action(s, Some('0')) matches KeyAction::Show(m) && after_voice(m, loud) == State::Happy,
        key_action(s, Some('9')) matches KeyAction::Show(m) && after_voice(m, loud) == State::Angry,
        key_action(s, None) == KeyAction::Show(s),
{
}

} // verus!
