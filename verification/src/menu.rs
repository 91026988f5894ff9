//! The start menu: chooses the opponent and the ball speed mode.
//!
//! Pure frontend state machine: the backend knows nothing about it until
//! the player confirms, at which point the resulting [`GameOptions`]
//! travel to it as one [`InputEvent::StartMatch`].
use vstd::prelude::*;

use crate::input::{Key, KeyCode, KeyKind};
use crate::protocol::{BallSpeedMode, Difficulty, GameOptions, InputEvent, Opponent};
use vstd::string::{StrSliceExecFns, StringExecFns};

verus! {

/// What the main loop should do after a menu key press.
#[derive(Debug, Clone, Copy, PartialEq, Eq, Structural)]
pub enum MenuAction {
    /// The player confirmed a configuration; forward it and switch to
    /// the match. The event to send is ready-made.
    Start(InputEvent),
    /// Leave the application.
    Quit,
}

/// Number of opponents on offer.
pub const OPPONENT_COUNT: usize = 4;

/// Number of ball speed modes on offer.
pub const BALL_SPEED_COUNT: usize = 3;

/// Menu rows, in display order: opponent, ball speed.
pub const ROWS: usize = 2;

/// Width of the options box: wide enough for the longest hint line.
pub const MENU_BOX_WIDTH: u16 = 50;

/// Characters inside the options box's borders.
pub const CONTENT_WIDTH: usize = 48;

/// The giant title logo: solid blocks spelling PONG, seven rows tall.
pub const LOGO: [&'static str; 7] = [
    "██████    █████   █     █   █████ ",
    "█     █  █     █  ██    █  █      ",
    "█     █  █     █  █ █   █  █    ██",
    "██████   █     █  █  █  █  █     █",
    "█        █     █  █   █ █  █     █",
    "█        █     █  █    ██  █     █",
    "█         █████   █     █   █████ ",
];

/// Columns of each logo row.
pub const LOGO_WIDTH: u16 = 34;

/// Rows of the logo.
pub const LOGO_HEIGHT: u16 = 7;

/// Rows of the options box: two borders and five content rows.
pub const MENU_BOX_HEIGHT: u16 = 7;

/// The opponents, in cycling order.
pub open spec fn opponent_at(index: int) -> Opponent {
    if index == 0 {
        Opponent::TwoPlayer
    } else if index == 1 {
        Opponent::Ai(Difficulty::Easy)
    } else if index == 2 {
        Opponent::Ai(Difficulty::Normal)
    } else {
        Opponent::Ai(Difficulty::Hard)
    }
}

/// The ball speed modes, in cycling order.
pub open spec fn ball_speed_at(index: int) -> BallSpeedMode {
    if index == 0 {
        BallSpeedMode::Slow
    } else if index == 1 {
        BallSpeedMode::Fast
    } else {
        BallSpeedMode::Mutable
    }
}

/// The opponent at `index` in cycling order.
pub fn opponent_option(index: usize) -> (opponent: Opponent)
    requires
        index < OPPONENT_COUNT,
    ensures
        opponent == opponent_at(index as int),
{
    match index {
        0 => Opponent::TwoPlayer,
        1 => Opponent::Ai(Difficulty::Easy),
        2 => Opponent::Ai(Difficulty::Normal),
        _ => Opponent::Ai(Difficulty::Hard),
    }
}

/// The ball speed mode at `index` in cycling order.
pub fn ball_speed_option(index: usize) -> (mode: BallSpeedMode)
    requires
        index < BALL_SPEED_COUNT,
    ensures
        mode == ball_speed_at(index as int),
{
    match index {
        0 => BallSpeedMode::Slow,
        1 => BallSpeedMode::Fast,
        _ => BallSpeedMode::Mutable,
    }
}

/// The label shown for the opponent at `index`.
pub open spec fn opponent_label_of(index: int) -> Seq<char> {
    if index == 0 {
        "2 players"@
    } else if index == 1 {
        "AI · easy"@
    } else if index == 2 {
        "AI · normal"@
    } else {
        "AI · hard"@
    }
}

/// The label shown for the ball speed mode at `index`.
pub open spec fn ball_speed_label_of(index: int) -> Seq<char> {
    if index == 0 {
        "slow"@
    } else if index == 1 {
        "fast"@
    } else {
        "accelerating"@
    }
}

/// Label of the opponent at `index`.
pub fn opponent_label(index: usize) -> (label: &'static str)
    requires
        index < OPPONENT_COUNT,
    ensures
        label@ == opponent_label_of(index as int),
{
    match index {
        0 => "2 players",
        1 => "AI · easy",
        2 => "AI · normal",
        _ => "AI · hard",
    }
}

/// Label of the ball speed mode at `index`.
pub fn ball_speed_label(index: usize) -> (label: &'static str)
    requires
        index < BALL_SPEED_COUNT,
    ensures
        label@ == ball_speed_label_of(index as int),
{
    match index {
        0 => "slow",
        1 => "fast",
        _ => "accelerating",
    }
}

/// The mathematical state of the menu.
#[derive(Debug, Clone, Copy, PartialEq, Eq, Structural)]
pub struct MenuModel {
    /// Which row is selected: 0 = opponent, 1 = ball speed.
    pub selected: usize,
    /// Index into the opponents.
    pub opponent: usize,
    /// Index into the ball speed modes.
    pub ball_speed: usize,
}

impl MenuModel {
    /// Every index lies within its list.
    pub open spec fn wf(self) -> bool {
        &&& self.selected < ROWS
        &&& self.opponent < OPPONENT_COUNT
        &&& self.ball_speed < BALL_SPEED_COUNT
    }

    /// The configuration shown.
    pub open spec fn options(self) -> GameOptions {
        GameOptions {
            opponent: opponent_at(self.opponent as int),
            ball_speed: ball_speed_at(self.ball_speed as int),
        }
    }

    /// The selected row's value moved by `delta` steps, wrapping around.
    pub open spec fn cycled(self, delta: int) -> MenuModel {
        if self.selected == 0 {
            MenuModel {
                opponent: ((self.opponent + delta) % (OPPONENT_COUNT as int)) as usize,
                ..self
            }
        } else {
            MenuModel {
                ball_speed: ((self.ball_speed + delta) % (BALL_SPEED_COUNT as int)) as usize,
                ..self
            }
        }
    }

    /// The menu after `key`: releases are ignored; up/`w` and down/`s`
    /// move the selection between the rows (wrapping), left/`a` and
    /// right/`d` change the selected row's value (wrapping).
    pub open spec fn after_key(self, key: Key) -> MenuModel {
        if key.kind == KeyKind::Release {
            self
        } else {
            match key.code {
                KeyCode::Up | KeyCode::Char('w') => MenuModel {
                    selected: ((self.selected + ROWS - 1) % (ROWS as int)) as usize,
                    ..self
                },
                KeyCode::Down | KeyCode::Char('s') => MenuModel {
                    selected: ((self.selected + 1) % (ROWS as int)) as usize,
                    ..self
                },
                KeyCode::Left | KeyCode::Char('a') => self.cycled(-1),
                KeyCode::Right | KeyCode::Char('d') => self.cycled(1),
                _ => self,
            }
        }
    }

    /// What `key` asks of the main loop: Enter starts the match shown,
    /// `q` and Escape quit; releases and all other keys ask nothing.
    pub open spec fn key_action(self, key: Key) -> Option<MenuAction> {
        if key.kind == KeyKind::Release {
            None
        } else {
            match key.code {
                KeyCode::Enter => Some(MenuAction::Start(InputEvent::StartMatch(self.options()))),
                KeyCode::Char('q') | KeyCode::Esc => Some(MenuAction::Quit),
                _ => None,
            }
        }
    }
}

/// The start menu's selection state.
#[derive(Debug, Clone, Copy, PartialEq, Eq)]
pub struct Menu {
    selected: usize,
    opponent: usize,
    ball_speed: usize,
}

impl View for Menu {
    type V = MenuModel;

    closed spec fn view(&self) -> MenuModel {
        MenuModel { selected: self.selected, opponent: self.opponent, ball_speed: self.ball_speed }
    }
}

impl Menu {
    /// The opponent row selected, showing the defaults: two humans, fast
    /// ball.
    pub fn new() -> (menu: Self)
        ensures
            menu@ == (MenuModel { selected: 0, opponent: 0, ball_speed: 1 }),
            menu@.wf(),
    {
        Menu { selected: 0, opponent: 0, ball_speed: 1 }
    }

    /// The configuration currently shown.
    pub fn options(&self) -> (options: GameOptions)
        requires
            self@.wf(),
        ensures
            options == self@.options(),
    {
        GameOptions {
            opponent: opponent_option(self.opponent),
            ball_speed: ball_speed_option(self.ball_speed),
        }
    }

    /// Index of the selected row: 0 = opponent, 1 = ball speed.
    pub fn selected(&self) -> (row: usize)
        ensures
            row == self@.selected,
    {
        self.selected
    }

    /// Index of the opponent shown.
    pub fn opponent_index(&self) -> (index: usize)
        ensures
            index == self@.opponent,
    {
        self.opponent
    }

    /// Index of the ball speed mode shown.
    pub fn ball_speed_index(&self) -> (index: usize)
        ensures
            index == self@.ball_speed,
    {
        self.ball_speed
    }

    /// Handles one key event; `Some` means the menu is done.
    pub fn handle_key(&mut self, key: Key) -> (action: Option<MenuAction>)
        requires
            old(self)@.wf(),
        ensures
            final(self)@.wf(),
            final(self)@ == old(self)@.after_key(key),
            action == old(self)@.key_action(key),
    {
        if key.kind == KeyKind::Release {
            return None;
        }
        match key.code {
            KeyCode::Up | KeyCode::Char('w') => {
                self.selected = (self.selected + ROWS - 1) % ROWS;
                None
            },
            KeyCode::Down | KeyCode::Char('s') => {
                self.selected = (self.selected + 1) % ROWS;
                None
            },
            KeyCode::Left | KeyCode::Char('a') => {
                self.cycle(-1);
                None
            },
            KeyCode::Right | KeyCode::Char('d') => {
                self.cycle(1);
                None
            },
            KeyCode::Enter => Some(MenuAction::Start(InputEvent::StartMatch(self.options()))),
            KeyCode::Char('q') | KeyCode::Esc => Some(MenuAction::Quit),
            _ => None,
        }
    }

    /// Moves the selected row's value by `delta` (wraps around).
    fn cycle(&mut self, delta: i32)
        requires
            old(self)@.wf(),
            -3 <= delta <= 3,
        ensures
            final(self)@ == old(self)@.cycled(delta as int),
            final(self)@.wf(),
    {
        if self.selected == 0 {
            let n = OPPONENT_COUNT as i32;
            self.opponent = ((self.opponent as i32 + delta + n) % n) as usize;
        } else {
            let n = BALL_SPEED_COUNT as i32;
            self.ball_speed = ((self.ball_speed as i32 + delta + n) % n) as usize;
        }
    }
}

impl Default for Menu {
    fn default() -> (menu: Self)
        ensures
            menu@ == (MenuModel { selected: 0, opponent: 0, ball_speed: 1 }),
    {
        Menu::new()
    }
}

/// Changing a value one step right and then one step left gives the
/// same menu back, whichever row is selected.
pub proof fn lemma_right_then_left_restores(menu: MenuModel, pressed: KeyKind)
    requires
        menu.wf(),
        pressed != KeyKind::Release,
    ensures
        menu.after_key(Key { code: KeyCode::Right, kind: pressed, ctrl: false }).after_key(
            Key { code: KeyCode::Left, kind: pressed, ctrl: false },
        ) == menu,
{
}

/// Changing a value by one step in either direction moves only the
/// selected row's value and keeps every index within its list; a step
/// back undoes it; cycling a row through all of its values in either
/// direction comes back to where it started: four steps on the opponent
/// row, three on the speed row.
pub proof fn lemma_values_wrap_around(menu: MenuModel, delta: int)
    requires
        menu.wf(),
        delta == 1 || delta == -1,
    ensures
        menu.cycled(delta).wf(),
        menu.cycled(delta).selected == menu.selected,
        menu.selected == 0 ==> menu.cycled(delta).ball_speed == menu.ball_speed,
        menu.selected != 0 ==> menu.cycled(delta).opponent == menu.opponent,
        menu.cycled(delta).cycled(-delta) == menu,
        menu.selected == 0 ==> menu.cycled(delta).cycled(delta).cycled(delta).cycled(delta)
            == menu,
        menu.selected == 1 ==> menu.cycled(delta).cycled(delta).cycled(delta) == menu,
{
}

/// Each label names the option it stands for: the ball speed label at an
/// index reads "slow", "fast" or "accelerating" exactly when the mode at
/// that index is the slow, the fast or the accelerating ball; each
/// opponent label names two players or the AI tier at its index.
pub proof fn lemma_labels_name_their_options(index: int)
    requires
        0 <= index < BALL_SPEED_COUNT,
    ensures
        ball_speed_at(index) == BallSpeedMode::Slow ==> ball_speed_label_of(index) == "slow"@,
        ball_speed_at(index) == BallSpeedMode::Fast ==> ball_speed_label_of(index) == "fast"@,
        ball_speed_at(index) == BallSpeedMode::Mutable ==> ball_speed_label_of(index)
            == "accelerating"@,
        opponent_at(index) == Opponent::TwoPlayer ==> opponent_label_of(index) == "2 players"@,
        opponent_at(index) == Opponent::Ai(Difficulty::Easy) ==> opponent_label_of(index)
            == "AI · easy"@,
        opponent_at(index) == Opponent::Ai(Difficulty::Normal) ==> opponent_label_of(index)
            == "AI · normal"@,
{
}

/// The last opponent in cycling order is the hard AI, and it is labelled
/// so.
pub proof fn lemma_hard_ai_label()
    ensures
        opponent_at(3) == Opponent::Ai(Difficulty::Hard),
        opponent_label_of(3) == "AI · hard"@,
{
}

/// The text of one menu row: marker and label on the left, the value
/// flush against the right edge of the box's content. The selected and
/// unselected value texts are the same width (`◀ v ▶` vs `  v  `), so
/// moving the selection never shifts the value: only the markers appear
/// around it.
pub open spec fn row_chars(label: Seq<char>, value: Seq<char>, selected: bool) -> Seq<char> {
    let marker = if selected {
        '❯'
    } else {
        ' '
    };
    let (open, close) = if selected {
        ('◀', '▶')
    } else {
        (' ', ' ')
    };
    let used = label.len() + value.len() + 8;
    let pad = if used < CONTENT_WIDTH {
        CONTENT_WIDTH - used
    } else {
        0
    };
    seq![' ', marker, ' '] + label + Seq::new(pad as nat, |i: int| ' ') + seq![open, ' ']
        + value + seq![' ', close, ' ']
}

/// Builds the text of one menu row (see [`row_chars`]).
pub fn row_text(label: &str, value: &str, selected: bool) -> (text: String)
    ensures
        text@ == row_chars(label@, value@, selected),
{
    proof {
        reveal_strlit(" ");
        reveal_strlit("❯");
        reveal_strlit("◀ ");
        reveal_strlit(" ▶ ");
        reveal_strlit("   ");
    }
    let mut text = if selected {
        String::from_str(" ❯ ")
    } else {
        String::from_str("   ")
    };
    proof {
        reveal_strlit(" ❯ ");
    }
    text.append(label);
    let used = label.unicode_len().saturating_add(value.unicode_len()).saturating_add(8);
    let pad = CONTENT_WIDTH.saturating_sub(used);
    let ghost head = text@;
    let mut i: usize = 0;
    while i < pad
        invariant
            i <= pad,
            text@ == head + Seq::new(i as nat, |k: int| ' '),
        decreases pad - i,
    {
        proof {
            reveal_strlit(" ");
        }
        text.append(" ");
        assert(text@ =~= head + Seq::new((i + 1) as nat, |k: int| ' '));
        i = i + 1;
    }
    if selected {
        text.append("◀ ");
    } else {
        text.append("  ");
    }
    proof {
        reveal_strlit("  ");
    }
    text.append(value);
    if selected {
        text.append(" ▶ ");
    } else {
        text.append("   ");
    }
    assert(text@ =~= row_chars(label@, value@, selected));
    text
}

/// Where the value starts in a row: after the marker, the label, the
/// padding and the two-character opening of the value text.
pub open spec fn value_column(label: Seq<char>, value: Seq<char>) -> int {
    let used = label.len() + value.len() + 8;
    let pad = if used < CONTENT_WIDTH {
        CONTENT_WIDTH - used
    } else {
        0
    };
    3 + label.len() + pad + 2
}

/// Moving the selection never shifts a value: selected or not, a row has
/// the same length and shows the value at the same column; a row that
/// fits fills the box's content width exactly, with its value ending
/// three columns before the edge.
pub proof fn lemma_row_value_does_not_shift(label: Seq<char>, value: Seq<char>, selected: bool)
    ensures
        row_chars(label, value, selected).len() == row_chars(label, value, !selected).len(),
        row_chars(label, value, selected).subrange(
            value_column(label, value),
            value_column(label, value) + value.len(),
        ) == value,
        label.len() + value.len() + 8 <= CONTENT_WIDTH ==> row_chars(label, value, selected).len()
            == CONTENT_WIDTH,
        value_column(label, value) + value.len() + 3 == row_chars(label, value, selected).len(),
{
    assert(row_chars(label, value, selected).subrange(
        value_column(label, value),
        value_column(label, value) + value.len(),
    ) =~= value);
}

} // verus!
