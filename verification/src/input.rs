//! Controllers: the ports they plug into, the four-player adapters, and the joypad's shift
//! register.
use vstd::prelude::*;

use crate::common::{ResetKind, str_eq};

verus! {

/// Error parsing a [`Player`] from an index.
#[derive(Debug, Clone, Copy, PartialEq, Eq)]
pub struct ParsePlayerError;

/// Which controller port an input belongs to.
#[derive(Debug, Copy, Clone, PartialEq, Eq, Structural, Hash)]
pub enum Player {
    /// Controller port 1.
    One,
    /// Controller port 2.
    Two,
    /// Port 3, reachable only through a [`FourPlayer`] adapter.
    Three,
    /// Port 4, reachable only through a [`FourPlayer`] adapter.
    Four,
}

impl Default for Player {
    fn default() -> (p: Self)
        ensures
            p == Player::One,
    {
        Player::One
    }
}

/// The port at a position of the order `One, Two, Three, Four`.
pub open spec fn player_at(index: int) -> Option<Player> {
    if index == 0 {
        Some(Player::One)
    } else if index == 1 {
        Some(Player::Two)
    } else if index == 2 {
        Some(Player::Three)
    } else if index == 3 {
        Some(Player::Four)
    } else {
        None
    }
}

impl Player {
    /// The port at `value` in the order `One, Two, Three, Four`.
    pub fn try_from_index(value: usize) -> (r: Result<Player, ParsePlayerError>)
        ensures
            r matches Ok(p) ==> player_at(value as int) == Some(p),
            r is Err <==> player_at(value as int) is None,
    {
        match value {
            0 => Ok(Player::One),
            1 => Ok(Player::Two),
            2 => Ok(Player::Three),
            3 => Ok(Player::Four),
            _ => Err(ParsePlayerError),
        }
    }

    /// The port's position, from 0.
    pub fn index(&self) -> (i: usize)
        ensures
            player_at(i as int) == Some(*self),
    {
        match self {
            Player::One => 0,
            Player::Two => 1,
            Player::Three => 2,
            Player::Four => 3,
        }
    }

    /// The port's lowercase name.
    pub fn as_str(&self) -> (s: &'static str)
        ensures
            s@ == match self {
                Player::One => "one"@,
                Player::Two => "two"@,
                Player::Three => "three"@,
                Player::Four => "four"@,
            },
    {
        match self {
            Player::One => "one",
            Player::Two => "two",
            Player::Three => "three",
            Player::Four => "four",
        }
    }

    /// The port's name as shown to a player.
    pub fn name(&self) -> (s: &'static str)
        ensures
            s@ == match self {
                Player::One => "One"@,
                Player::Two => "Two"@,
                Player::Three => "Three"@,
                Player::Four => "Four"@,
            },
    {
        match self {
            Player::One => "One",
            Player::Two => "Two",
            Player::Three => "Three",
            Player::Four => "Four",
        }
    }
}

/// Which four-player adapter, if any, is plugged in. The two wire their extra pads up
/// differently, so a game written for one does not see the other.
#[derive(Debug, Copy, Clone, PartialEq, Eq, Structural, Hash)]
pub enum FourPlayer {
    /// No adapter: two controllers.
    Disabled,
    /// NES Four Score, which shifts all four pads plus a signature out of the two ports.
    FourScore,
    /// Famicom Four Players Adapter, which reports the extra pads through $4016/$4017 bit 1.
    Satellite,
}

impl Default for FourPlayer {
    fn default() -> (f: Self)
        ensures
            f == FourPlayer::Disabled,
    {
        FourPlayer::Disabled
    }
}

/// The stable string name of an adapter setting, as used in config files.
pub open spec fn four_player_name(f: FourPlayer) -> Seq<char> {
    match f {
        FourPlayer::Disabled => "disabled"@,
        FourPlayer::FourScore => "four-score"@,
        FourPlayer::Satellite => "satellite"@,
    }
}

impl FourPlayer {
    /// Every adapter setting, for enumerating them in a UI.
    pub fn as_slice() -> (v: Vec<FourPlayer>)
        ensures
            v@ == seq![FourPlayer::Disabled, FourPlayer::FourScore, FourPlayer::Satellite],
    {
        let mut v: Vec<FourPlayer> = Vec::new();
        v.push(FourPlayer::Disabled);
        v.push(FourPlayer::FourScore);
        v.push(FourPlayer::Satellite);
        v
    }

    /// The setting's stable string name, as used in config files.
    pub fn as_str(&self) -> (s: &'static str)
        ensures
            s@ == four_player_name(*self),
    {
        proof {
            reveal_strlit("disabled");
            reveal_strlit("four-score");
            reveal_strlit("satellite");
        }
        match self {
            FourPlayer::Disabled => "disabled",
            FourPlayer::FourScore => "four-score",
            FourPlayer::Satellite => "satellite",
        }
    }

    /// The setting's name as shown to a player.
    pub fn name(&self) -> (s: &'static str)
        ensures
            s@ == match self {
                FourPlayer::Disabled => "Disabled"@,
                FourPlayer::FourScore => "FourScore"@,
                FourPlayer::Satellite => "Satellite"@,
            },
    {
        match self {
            FourPlayer::Disabled => "Disabled",
            FourPlayer::FourScore => "FourScore",
            FourPlayer::Satellite => "Satellite",
        }
    }

    /// Parses a setting from its stable string name, the inverse of [`FourPlayer::as_str`].
    pub fn try_from_str(s: &str) -> (r: Result<FourPlayer, &'static str>)
        ensures
            r matches Ok(f) ==> four_player_name(f) == s@,
            r is Err ==> forall|f: FourPlayer| four_player_name(f) != s@,
            r matches Err(m) ==> m@ == "invalid FourPlayer value. valid options: `disabled`, `four-score`, or `satellite`"@,
    {
        proof {
            reveal_strlit("disabled");
            reveal_strlit("four-score");
            reveal_strlit("satellite");
        }
        if str_eq(s, "disabled") {
            Ok(FourPlayer::Disabled)
        } else if str_eq(s, "four-score") {
            Ok(FourPlayer::FourScore)
        } else if str_eq(s, "satellite") {
            Ok(FourPlayer::Satellite)
        } else {
            Err("invalid FourPlayer value. valid options: `disabled`, `four-score`, or `satellite`")
        }
    }
}

/// No two four-player settings share a name, so [`FourPlayer::try_from_str`] of a setting's
/// [`FourPlayer::as_str`] gives that setting back.
pub proof fn lemma_four_player_names_parse_back(a: FourPlayer, b: FourPlayer)
    ensures
        four_player_name(a) == four_player_name(b) ==> a == b,
{
    reveal_strlit("disabled");
    reveal_strlit("four-score");
    reveal_strlit("satellite");
    if four_player_name(a) == four_player_name(b) {
        assert(four_player_name(a)[0] == four_player_name(b)[0]);
    }
}

/// A single controller button, including the two synthetic turbo buttons.
#[derive(Debug, Copy, Clone, PartialEq, Eq, Structural, Hash)]
pub enum JoypadBtn {
    /// Left D-Pad.
    Left,
    /// Right D-Pad.
    Right,
    /// Up D-Pad.
    Up,
    /// Down D-Pad.
    Down,
    /// A Button.
    A,
    /// B Button.
    B,
    /// A Button (Turbo).
    TurboA,
    /// B Button (Turbo).
    TurboB,
    /// Select Button.
    Select,
    /// Start Button.
    Start,
}

/// The set of controller buttons currently held, one bit each, as a `u16`.
pub struct JoypadBtnState;

impl JoypadBtnState {
    /// A button.
    pub const A: u16 = 0x01;
    /// B button.
    pub const B: u16 = 0x02;
    /// Select button.
    pub const SELECT: u16 = 0x04;
    /// Start button.
    pub const START: u16 = 0x08;
    /// Up on the D-Pad.
    pub const UP: u16 = 0x10;
    /// Down on the D-Pad.
    pub const DOWN: u16 = 0x20;
    /// Left on the D-Pad.
    pub const LEFT: u16 = 0x40;
    /// Right on the D-Pad.
    pub const RIGHT: u16 = 0x80;
    /// Synthetic: A, auto-fired by the turbo timer.
    pub const TURBO_A: u16 = 0x100;
    /// Synthetic: B, auto-fired by the turbo timer.
    pub const TURBO_B: u16 = 0x200;
    /// Every button there is.
    pub const ALL: u16 = 0x3FF;
}

/// The bit a button holds in a [`JoypadBtnState`] set.
pub open spec fn button_bit(button: JoypadBtn) -> u16 {
    match button {
        JoypadBtn::A => 0x01,
        JoypadBtn::B => 0x02,
        JoypadBtn::Select => 0x04,
        JoypadBtn::Start => 0x08,
        JoypadBtn::Up => 0x10,
        JoypadBtn::Down => 0x20,
        JoypadBtn::Left => 0x40,
        JoypadBtn::Right => 0x80,
        JoypadBtn::TurboA => 0x100,
        JoypadBtn::TurboB => 0x200,
    }
}

impl JoypadBtn {
    /// The bit this button holds in a [`JoypadBtnState`] set.
    pub fn bits(self) -> (b: u16)
        ensures
            b == button_bit(self),
    {
        match self {
            JoypadBtn::A => JoypadBtnState::A,
            JoypadBtn::B => JoypadBtnState::B,
            JoypadBtn::Select => JoypadBtnState::SELECT,
            JoypadBtn::Start => JoypadBtnState::START,
            JoypadBtn::Up => JoypadBtnState::UP,
            JoypadBtn::Down => JoypadBtnState::DOWN,
            JoypadBtn::Left => JoypadBtnState::LEFT,
            JoypadBtn::Right => JoypadBtnState::RIGHT,
            JoypadBtn::TurboA => JoypadBtnState::TURBO_A,
            JoypadBtn::TurboB => JoypadBtnState::TURBO_B,
        }
    }

    /// The button's name as shown to a player.
    pub fn as_str(&self) -> (s: &'static str)
        ensures
            s@ == match self {
                JoypadBtn::A => "A"@,
                JoypadBtn::B => "B"@,
                JoypadBtn::Select => "Select"@,
                JoypadBtn::Start => "Start"@,
                JoypadBtn::Up => "Up"@,
                JoypadBtn::Down => "Down"@,
                JoypadBtn::Left => "Left"@,
                JoypadBtn::Right => "Right"@,
                JoypadBtn::TurboA => "A (Turbo)"@,
                JoypadBtn::TurboB => "B (Turbo)"@,
            },
    {
        match *self {
            JoypadBtn::A => "A",
            JoypadBtn::B => "B",
            JoypadBtn::Select => "Select",
            JoypadBtn::Start => "Start",
            JoypadBtn::Up => "Up",
            JoypadBtn::Down => "Down",
            JoypadBtn::Left => "Left",
            JoypadBtn::Right => "Right",
            JoypadBtn::TurboA => "A (Turbo)",
            JoypadBtn::TurboB => "B (Turbo)",
        }
    }
}

/// The button that has to let go when `button` is pressed or released: the opposite D-Pad
/// direction on a press (unless opposing directions may be held together), and the plain
/// button under a turbo one on a release.
pub open spec fn displaced(button: u16, pressed: bool, concurrent_dpad: bool) -> Option<u16> {
    let prevent = pressed && !concurrent_dpad;
    if button == JoypadBtnState::LEFT && prevent {
        Some(JoypadBtnState::RIGHT)
    } else if button == JoypadBtnState::RIGHT && prevent {
        Some(JoypadBtnState::LEFT)
    } else if button == JoypadBtnState::UP && prevent {
        Some(JoypadBtnState::DOWN)
    } else if button == JoypadBtnState::DOWN && prevent {
        Some(JoypadBtnState::UP)
    } else if button == JoypadBtnState::TURBO_A && !pressed {
        Some(JoypadBtnState::A)
    } else if button == JoypadBtnState::TURBO_B && !pressed {
        Some(JoypadBtnState::B)
    } else {
        None
    }
}

/// `buttons` with the bits of `flags` set or cleared.
pub open spec fn with_bits(buttons: u16, flags: u16, on: bool) -> u16 {
    if on { buttons | flags } else { buttons & !flags }
}

/// A standard NES controller: eight buttons behind a shift register.
#[derive(Debug, Copy, Clone, PartialEq, Eq, Structural)]
pub struct Joypad {
    /// Which buttons are currently held, as [`JoypadBtnState`] bits.
    pub buttons: u16,
    /// Whether opposing D-Pad directions may be held at once.
    pub concurrent_dpad: bool,
    /// How far the shift register has been read.
    pub index: u8,
    /// Whether $4016 bit 0 is holding the register in reload.
    pub strobe: bool,
}

impl Default for Joypad {
    fn default() -> (j: Self)
        ensures
            j == (Joypad { buttons: 0, concurrent_dpad: false, index: 0, strobe: false }),
    {
        Joypad::new()
    }
}

/// The bit the shift register shows next: button `index` while there are buttons left, then 1.
pub open spec fn next_bit(pad: Joypad) -> u8 {
    if pad.index < 8 { ((pad.buttons as u8) >> pad.index) & 1 } else { 1 }
}

impl Joypad {
    /// Creates a controller with nothing pressed.
    pub fn new() -> (j: Self)
        ensures
            j == (Joypad { buttons: 0, concurrent_dpad: false, index: 0, strobe: false }),
    {
        Joypad { buttons: 0, concurrent_dpad: false, index: 0, strobe: false }
    }

    /// Whether every button of `button` is currently held.
    pub fn button(&self, button: u16) -> (b: bool)
        ensures
            b == (self.buttons & button == button),
    {
        self.buttons & button == button
    }

    /// Presses or releases `button`, first letting go of the button it displaces: the opposite
    /// D-Pad direction unless `concurrent_dpad`, or the plain button under a released turbo.
    pub fn set_button(&mut self, button: u16, pressed: bool)
        ensures
            final(self).buttons == with_bits(
                match displaced(button, pressed, old(self).concurrent_dpad) {
                    Some(other) => with_bits(old(self).buttons, other, false),
                    None => old(self).buttons,
                },
                button,
                pressed,
            ),
            final(self).concurrent_dpad == old(self).concurrent_dpad,
            final(self).index == old(self).index,
            final(self).strobe == old(self).strobe,
    {
        let prevent = pressed && !self.concurrent_dpad;
        let other: Option<u16> = if button == JoypadBtnState::LEFT && prevent {
            Some(JoypadBtnState::RIGHT)
        } else if button == JoypadBtnState::RIGHT && prevent {
            Some(JoypadBtnState::LEFT)
        } else if button == JoypadBtnState::UP && prevent {
            Some(JoypadBtnState::DOWN)
        } else if button == JoypadBtnState::DOWN && prevent {
            Some(JoypadBtnState::UP)
        } else if button == JoypadBtnState::TURBO_A && !pressed {
            Some(JoypadBtnState::A)
        } else if button == JoypadBtnState::TURBO_B && !pressed {
            Some(JoypadBtnState::B)
        } else {
            None
        };
        if let Some(other) = other {
            self.buttons = self.buttons & !other;
        }
        self.buttons = if pressed { self.buttons | button } else { self.buttons & !button };
    }

    /// Builds a controller whose held buttons come from a raw [`JoypadBtnState`] bit pattern,
    /// dropping bits that name no button.
    pub fn from_bytes(val: u16) -> (j: Self)
        ensures
            j == (Joypad { buttons: val & JoypadBtnState::ALL, concurrent_dpad: false, index: 0, strobe: false }),
    {
        Joypad { buttons: val & JoypadBtnState::ALL, concurrent_dpad: false, index: 0, strobe: false }
    }

    /// Shifts the next button out of the register.
    pub fn read(&mut self) -> (val: u8)
        ensures
            val == next_bit(*old(self)),
            *final(self) == after_read(*old(self)),
    {
        let val = self.peek();
        if !self.strobe && self.index < 8 {
            self.index = self.index + 1;
        }
        val
    }

    /// Returns the next button without shifting.
    pub fn peek(&self) -> (val: u8)
        ensures
            val == next_bit(*self),
            val <= 1,
    {
        if self.index < 8 {
            let b = self.buttons as u8;
            let i = self.index;
            let v = (b & (1u8 << i)) >> i;
            assert(i < 8 ==> (b & (1u8 << i)) >> i == (b >> i) & 1 && (b >> i) & 1 <= 1) by (bit_vector);
            v
        } else {
            1
        }
    }

    /// Writes the strobe line; while it is high the register reloads continuously, and its
    /// falling edge restarts the register from the first button.
    pub fn write(&mut self, val: u8)
        ensures
            final(self).strobe == (val & 1 == 1),
            final(self).index == if old(self).strobe || val & 1 == 1 { 0 } else { old(self).index },
            final(self).buttons == old(self).buttons,
            final(self).concurrent_dpad == old(self).concurrent_dpad,
    {
        let prev_strobe = self.strobe;
        self.strobe = val & 0x01 == 0x01;
        if prev_strobe || self.strobe {
            self.index = 0;
        }
    }

    /// How far the shift register has been read.
    pub fn index(&self) -> (i: u8)
        ensures
            i == self.index,
    {
        self.index
    }

    /// Releases every button.
    pub fn clear(&mut self)
        ensures
            *final(self) == (Joypad { buttons: 0, ..*old(self) }),
    {
        self.buttons = 0;
    }

    /// Resets the shift register, releasing every button.
    pub fn reset(&mut self, kind: ResetKind)
        ensures
            *final(self) == (Joypad { buttons: 0, index: 0, strobe: false, ..*old(self) }),
    {
        self.buttons = 0;
        self.index = 0;
        self.strobe = false;
    }
}

/// The controller after one read of its shift register.
pub open spec fn after_read(pad: Joypad) -> Joypad {
    Joypad { index: if !pad.strobe && pad.index < 8 { (pad.index + 1) as u8 } else { pad.index }, ..pad }
}

/// The controller after `k` reads of its shift register.
pub open spec fn after_reads(pad: Joypad, k: nat) -> Joypad
    decreases k,
{
    if k == 0 { pad } else { after_read(after_reads(pad, (k - 1) as nat)) }
}

/// A full read cycle: once the strobe has fallen, read `k` shows button `k` (A first) for the
/// first eight reads, and 1 for every read after that.
pub proof fn lemma_reads_shift_out_the_buttons(pad: Joypad, k: nat)
    requires
        !pad.strobe,
        pad.index == 0,
    ensures
        after_reads(pad, k).strobe == pad.strobe,
        after_reads(pad, k).buttons == pad.buttons,
        after_reads(pad, k).index == if k < 8 { k } else { 8 },
        next_bit(after_reads(pad, k)) == if k < 8 { ((pad.buttons as u8) >> (k as u8)) & 1 } else { 1 },
    decreases k,
{
    if k > 0 {
        lemma_reads_shift_out_the_buttons(pad, (k - 1) as nat);
    }
}


/// The port's position, from 0.
pub open spec fn player_index(p: Player) -> int {
    match p {
        Player::One => 0,
        Player::Two => 1,
        Player::Three => 2,
        Player::Four => 3,
    }
}

/// A controller after its turbo buttons toggle the buttons they drive.
pub open spec fn turbo_toggled(pad: Joypad) -> Joypad {
    let a = if pad.buttons & JoypadBtnState::TURBO_A == JoypadBtnState::TURBO_A {
        with_bits(pad.buttons, JoypadBtnState::A, pad.buttons & JoypadBtnState::A != JoypadBtnState::A)
    } else {
        pad.buttons
    };
    let b = if a & JoypadBtnState::TURBO_B == JoypadBtnState::TURBO_B {
        with_bits(a, JoypadBtnState::B, a & JoypadBtnState::B != JoypadBtnState::B)
    } else {
        a
    };
    Joypad { buttons: b, ..pad }
}

/// The two Four Score signature registers at power-on, their bits reversed so they shift out
/// right: `0b0001_0000` on port one, `0b0010_0000` on port two.
pub open spec fn fresh_signatures() -> Seq<Joypad> {
    seq![
        Joypad { buttons: 0x08, concurrent_dpad: false, index: 0, strobe: false },
        Joypad { buttons: 0x04, concurrent_dpad: false, index: 0, strobe: false },
    ]
}

/// The controllers after `$4016` is written with `val`: every pad and signature register strobed.
pub open spec fn input_strobed(i: InputView, val: u8) -> InputView {
    InputView {
        joypads: Seq::new(4, |k: int| strobed(i.joypads[k], val)),
        signatures: Seq::new(2, |k: int| strobed(i.signatures[k], val)),
        ..i
    }
}

/// A controller after `$4016` bit 0 of `val` is written to its strobe: while the strobe is high,
/// and on its falling edge, the register is reloaded from the first button.
pub open spec fn strobed(pad: Joypad, val: u8) -> Joypad {
    Joypad {
        strobe: val & 1 == 1,
        index: if pad.strobe || val & 1 == 1 { 0 } else { pad.index },
        ..pad
    }
}

/// The four controller ports, the Four Score's signatures, and the turbo timer.
///
/// The zapper, which senses light from the PPU and times its trigger in seconds, is kept apart.
#[derive(Debug, Copy, Clone, PartialEq, Eq)]
pub struct Input {
    /// The four controller ports; only the first two exist without an adapter.
    pub joypads: [Joypad; 4],
    /// The Four Score's two signature registers, shifted out after the pads.
    pub signatures: [Joypad; 2],
    /// CPU cycles left before the turbo buttons toggle.
    pub turbo_timer: u32,
    /// Which four-player adapter is plugged in.
    pub four_player: FourPlayer,
}

/// [`Input`] as a mathematical value.
pub struct InputView {
    pub joypads: Seq<Joypad>,
    pub signatures: Seq<Joypad>,
    pub turbo_timer: u32,
    pub four_player: FourPlayer,
}

impl View for Input {
    type V = InputView;

    open spec fn view(&self) -> InputView {
        InputView {
            joypads: self.joypads@,
            signatures: self.signatures@,
            turbo_timer: self.turbo_timer,
            four_player: self.four_player,
        }
    }
}

/// What reading `player`'s port shows, and the input after the read: the port's own pad; with a
/// Four Score, its pad, then the pad behind it, then the adapter's signature, then ones; with a
/// satellite adapter, both pads at once, the second in bit 1.
pub open spec fn port_read(input: InputView, player: Player) -> (InputView, u8) {
    let p = player_index(player);
    let pads = input.joypads;
    let sigs = input.signatures;
    match input.four_player {
        FourPlayer::Disabled => (InputView { joypads: pads.update(p, after_read(pads[p])), ..input }, next_bit(pads[p])),
        FourPlayer::FourScore => if pads[p].index < 8 {
            (InputView { joypads: pads.update(p, after_read(pads[p])), ..input }, next_bit(pads[p]))
        } else if pads[p + 2].index < 8 {
            (InputView { joypads: pads.update(p + 2, after_read(pads[p + 2])), ..input }, next_bit(pads[p + 2]))
        } else if sigs[p].index < 8 {
            (InputView { signatures: sigs.update(p, after_read(sigs[p])), ..input }, next_bit(sigs[p]))
        } else {
            (input, 1)
        },
        FourPlayer::Satellite => (
            InputView { joypads: pads.update(p, after_read(pads[p])).update(p + 2, after_read(pads[p + 2])), ..input },
            next_bit(pads[p]) | (next_bit(pads[p + 2]) << 1u8),
        ),
    }
}

/// Whether reading `player`'s port stays within the ports there are: a satellite adapter pairs
/// each of the first two ports with the one two along, and a Four Score does once the port's own
/// pad is read out.
pub open spec fn port_in_range(input: InputView, player: Player) -> bool {
    &&& input.four_player == FourPlayer::Satellite ==> player_index(player) < 2
    &&& input.four_player == FourPlayer::FourScore && player_index(player) >= 2
        ==> input.joypads[player_index(player)].index < 8
}

impl Input {
    /// Creates input state with nothing pressed and no adapter.
    pub fn new() -> (i: Self)
        ensures
            i@.joypads == Seq::new(4, |k: int| Joypad { buttons: 0, concurrent_dpad: false, index: 0, strobe: false }),
            i@.signatures == fresh_signatures(),
            i@.turbo_timer == 30,
            i@.four_player == FourPlayer::Disabled,
    {
        let i = Input {
            joypads: [Joypad::new(), Joypad::new(), Joypad::new(), Joypad::new()],
            signatures: Self::fresh_signatures(),
            turbo_timer: 30,
            four_player: FourPlayer::Disabled,
        };
        assert(i@.joypads =~= Seq::new(4, |k: int| Joypad { buttons: 0, concurrent_dpad: false, index: 0, strobe: false }));
        assert(i@.signatures =~= fresh_signatures());
        i
    }

    /// The Four Score signature registers at power-on.
    fn fresh_signatures() -> (s: [Joypad; 2])
        ensures
            s@ == fresh_signatures(),
    {
        let s = [
            Joypad { buttons: 0x08, concurrent_dpad: false, index: 0, strobe: false },
            Joypad { buttons: 0x04, concurrent_dpad: false, index: 0, strobe: false },
        ];
        assert(s@ =~= fresh_signatures());
        s
    }

    /// One port's controller.
    pub fn joypad(&self, player: Player) -> (pad: &Joypad)
        ensures
            *pad == self@.joypads[player_index(player)],
    {
        &self.joypads[player.index()]
    }

    /// What the next read of one controller port shows, without shifting anything.
    pub fn peek_port(&self, player: Player) -> (val: u8)
        requires
            port_in_range(self@, player),
        ensures
            val == port_read(self@, player).1,
    {
        let p = player.index();
        match self.four_player {
            FourPlayer::Disabled => self.joypads[p].peek(),
            FourPlayer::FourScore => {
                if self.joypads[p].index() < 8 {
                    self.joypads[p].peek()
                } else if self.joypads[p + 2].index() < 8 {
                    self.joypads[p + 2].peek()
                } else if self.signatures[p].index() < 8 {
                    self.signatures[p].peek()
                } else {
                    1
                }
            },
            FourPlayer::Satellite => self.joypads[p].peek() | (self.joypads[p + 2].peek() << 1u8),
        }
    }

    /// Writes `$4016`, whose bit 0 is the strobe that reloads every controller register.
    pub fn write(&mut self, val: u8)
        ensures
            final(self)@ == input_strobed(old(self)@, val),
    {
        let ghost before = self@;
        let mut k: usize = 0;
        while k < 4
            invariant
                k <= 4,
                before.joypads.len() == 4,
                before.signatures.len() == 2,
                self@.signatures == before.signatures,
                self@.turbo_timer == before.turbo_timer,
                self@.four_player == before.four_player,
                forall|j: int| 0 <= j < k ==> self@.joypads[j] == strobed(before.joypads[j], val),
                forall|j: int| k <= j < 4 ==> self@.joypads[j] == before.joypads[j],
            decreases 4 - k,
        {
            let mut pad = self.joypads[k];
            pad.write(val);
            assert(pad == strobed(before.joypads[k as int], val));
            self.joypads[k] = pad;
            k = k + 1;
        }
        assert(self@.joypads =~= Seq::new(4, |k: int| strobed(before.joypads[k], val)));
        let ghost pads = self@.joypads;
        let mut k: usize = 0;
        while k < 2
            invariant
                k <= 2,
                before.joypads.len() == 4,
                before.signatures.len() == 2,
                self@.turbo_timer == before.turbo_timer,
                self@.four_player == before.four_player,
                self@.joypads == pads,
                forall|j: int| 0 <= j < k ==> self@.signatures[j] == strobed(before.signatures[j], val),
                forall|j: int| k <= j < 2 ==> self@.signatures[j] == before.signatures[j],
            decreases 2 - k,
        {
            let mut sig = self.signatures[k];
            sig.write(val);
            assert(sig == strobed(before.signatures[k as int], val));
            self.signatures[k] = sig;
            k = k + 1;
        }
        assert(self@.signatures =~= Seq::new(2, |k: int| strobed(before.signatures[k], val)));
    }

    /// Counts the turbo timer down a cycle; when it runs out, it restarts and every turbo button
    /// held toggles the button it drives.
    pub fn clock(&mut self)
        ensures
            ({
                let t = if old(self)@.turbo_timer > 0 { (old(self)@.turbo_timer - 1) as u32 } else { 0u32 };
                if t == 0 {
                    final(self)@ == (InputView {
                        turbo_timer: 89500,
                        joypads: Seq::new(4, |k: int| turbo_toggled(old(self)@.joypads[k])),
                        ..old(self)@
                    })
                } else {
                    final(self)@ == (InputView { turbo_timer: t, ..old(self)@ })
                }
            }),
    {
        if self.turbo_timer > 0 {
            self.turbo_timer = self.turbo_timer - 1;
        }
        if self.turbo_timer == 0 {
            self.turbo_timer = 89500;
            let ghost before = self@;
            let mut k: usize = 0;
            while k < 4
                invariant
                    k <= 4,
                    before.joypads.len() == 4,
                    before.signatures.len() == 2,
                    self@.signatures == before.signatures,
                    self@.turbo_timer == before.turbo_timer,
                    self@.four_player == before.four_player,
                    forall|j: int| 0 <= j < k ==> self@.joypads[j] == turbo_toggled(before.joypads[j]),
                    forall|j: int| k <= j < 4 ==> self@.joypads[j] == before.joypads[j],
                decreases 4 - k,
            {
                let mut pad = self.joypads[k];
                if pad.button(JoypadBtnState::TURBO_A) {
                    let pressed = pad.button(JoypadBtnState::A);
                    pad.set_button(JoypadBtnState::A, !pressed);
                }
                if pad.button(JoypadBtnState::TURBO_B) {
                    let pressed = pad.button(JoypadBtnState::B);
                    pad.set_button(JoypadBtnState::B, !pressed);
                }
                assert(pad == turbo_toggled(before.joypads[k as int]));
                self.joypads[k] = pad;
                k = k + 1;
            }
            assert(self@.joypads =~= Seq::new(4, |k: int| turbo_toggled(before.joypads[k])));
        }
    }

    /// Allows opposing D-Pad directions to be held at once on every controller. The hardware
    /// permits it and a few games rely on it, but most were never tested against it.
    pub fn set_concurrent_dpad(&mut self, enabled: bool)
        ensures
            final(self)@ == (InputView {
                joypads: Seq::new(4, |k: int| Joypad { concurrent_dpad: enabled, ..old(self)@.joypads[k] }),
                ..old(self)@
            }),
    {
        let ghost before = self@;
        let mut k: usize = 0;
        while k < 4
            invariant
                k <= 4,
                before.joypads.len() == 4,
                before.signatures.len() == 2,
                self@.signatures == before.signatures,
                self@.turbo_timer == before.turbo_timer,
                self@.four_player == before.four_player,
                forall|j: int| 0 <= j < k ==> self@.joypads[j] == (Joypad { concurrent_dpad: enabled, ..before.joypads[j] }),
                forall|j: int| k <= j < 4 ==> self@.joypads[j] == before.joypads[j],
            decreases 4 - k,
        {
            let mut pad = self.joypads[k];
            pad.concurrent_dpad = enabled;
            assert(pad == (Joypad { concurrent_dpad: enabled, ..before.joypads[k as int] }));
            self.joypads[k] = pad;
            k = k + 1;
        }
        assert(self@.joypads =~= Seq::new(4, |k: int| Joypad { concurrent_dpad: enabled, ..before.joypads[k] }));
    }

    /// Releases every button.
    pub fn clear(&mut self)
        ensures
            final(self)@ == (InputView {
                joypads: Seq::new(4, |k: int| Joypad { buttons: 0, ..old(self)@.joypads[k] }),
                ..old(self)@
            }),
    {
        let ghost before = self@;
        let mut k: usize = 0;
        while k < 4
            invariant
                k <= 4,
                before.joypads.len() == 4,
                before.signatures.len() == 2,
                self@.signatures == before.signatures,
                self@.turbo_timer == before.turbo_timer,
                self@.four_player == before.four_player,
                forall|j: int| 0 <= j < k ==> self@.joypads[j] == (Joypad { buttons: 0, ..before.joypads[j] }),
                forall|j: int| k <= j < 4 ==> self@.joypads[j] == before.joypads[j],
            decreases 4 - k,
        {
            let mut pad = self.joypads[k];
            pad.clear();
            assert(pad == (Joypad { buttons: 0, ..before.joypads[k as int] }));
            self.joypads[k] = pad;
            k = k + 1;
        }
        assert(self@.joypads =~= Seq::new(4, |k: int| Joypad { buttons: 0, ..before.joypads[k] }));
    }

    /// Resets the controllers' registers, releasing every button, and the adapter's signatures.
    pub fn reset(&mut self, kind: ResetKind)
        ensures
            final(self)@ == (InputView {
                joypads: Seq::new(4, |k: int| Joypad { buttons: 0, index: 0, strobe: false, ..old(self)@.joypads[k] }),
                signatures: fresh_signatures(),
                ..old(self)@
            }),
    {
        let ghost before = self@;
        let mut k: usize = 0;
        while k < 4
            invariant
                k <= 4,
                before.joypads.len() == 4,
                before.signatures.len() == 2,
                self@.signatures == before.signatures,
                self@.turbo_timer == before.turbo_timer,
                self@.four_player == before.four_player,
                forall|j: int| 0 <= j < k ==> self@.joypads[j] == (Joypad { buttons: 0, index: 0, strobe: false, ..before.joypads[j] }),
                forall|j: int| k <= j < 4 ==> self@.joypads[j] == before.joypads[j],
            decreases 4 - k,
        {
            let mut pad = self.joypads[k];
            pad.reset(kind);
            assert(pad == (Joypad { buttons: 0, index: 0, strobe: false, ..before.joypads[k as int] }));
            self.joypads[k] = pad;
            k = k + 1;
        }
        assert(self@.joypads =~= Seq::new(4, |k: int| Joypad { buttons: 0, index: 0, strobe: false, ..before.joypads[k] }));
        self.signatures = Self::fresh_signatures();
    }

    /// Selects the four-player adapter, resetting all input state.
    pub fn set_four_player(&mut self, four_player: FourPlayer)
        ensures
            final(self)@ == (InputView {
                four_player,
                joypads: Seq::new(4, |k: int| Joypad { buttons: 0, index: 0, strobe: false, ..old(self)@.joypads[k] }),
                signatures: fresh_signatures(),
                ..old(self)@
            }),
    {
        self.four_player = four_player;
        self.reset(ResetKind::Hard);
    }

    /// Reads one controller port, shifting its register on.
    pub fn read_port(&mut self, player: Player) -> (val: u8)
        requires
            port_in_range(old(self)@, player),
        ensures
            (final(self)@, val) == port_read(old(self)@, player),
    {
        let p = player.index();
        match self.four_player {
            FourPlayer::Disabled => {
                let mut pad = self.joypads[p];
                let v = pad.read();
                self.joypads[p] = pad;
                assert(self@.joypads =~= old(self)@.joypads.update(p as int, after_read(old(self)@.joypads[p as int])));
                v
            },
            FourPlayer::FourScore => {
                if self.joypads[p].index() < 8 {
                    let mut pad = self.joypads[p];
                    let v = pad.read();
                    self.joypads[p] = pad;
                    assert(self@.joypads =~= old(self)@.joypads.update(p as int, after_read(old(self)@.joypads[p as int])));
                    v
                } else if self.joypads[p + 2].index() < 8 {
                    let mut pad = self.joypads[p + 2];
                    let v = pad.read();
                    self.joypads[p + 2] = pad;
                    assert(self@.joypads =~= old(self)@.joypads.update(p + 2, after_read(old(self)@.joypads[p + 2])));
                    v
                } else if self.signatures[p].index() < 8 {
                    let mut sig = self.signatures[p];
                    let v = sig.read();
                    self.signatures[p] = sig;
                    assert(self@.signatures =~= old(self)@.signatures.update(p as int, after_read(old(self)@.signatures[p as int])));
                    v
                } else {
                    1
                }
            },
            FourPlayer::Satellite => {
                let mut first = self.joypads[p];
                let a = first.read();
                self.joypads[p] = first;
                let mut second = self.joypads[p + 2];
                let b = second.read();
                self.joypads[p + 2] = second;
                assert(self@.joypads =~= old(self)@.joypads.update(p as int, after_read(old(self)@.joypads[p as int]))
                    .update(p + 2, after_read(old(self)@.joypads[p + 2])));
                a | (b << 1u8)
            },
        }
    }
}

} // verus!
