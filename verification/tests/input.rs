use tetanes_core::common::ResetKind;
use tetanes_core::input::{FourPlayer, Input, Joypad, JoypadBtn, JoypadBtnState, Player};

#[test]
fn reads_shift_out_the_buttons_a_first_then_ones() {
    let mut pad = Joypad::from_bytes(JoypadBtnState::A | JoypadBtnState::START | JoypadBtnState::RIGHT);
    pad.write(1);
    pad.write(0);
    let reads: Vec<u8> = (0..10).map(|_| pad.read()).collect();
    assert_eq!(reads, [1, 0, 0, 1, 0, 0, 0, 1, 1, 1]);
    assert_eq!(pad.index(), 8);
}

#[test]
fn a_held_strobe_keeps_reading_the_first_button() {
    let mut pad = Joypad::from_bytes(JoypadBtnState::A);
    pad.write(1);
    for _ in 0..4 {
        assert_eq!(pad.read(), 1);
    }
    assert_eq!(pad.index(), 0);
    assert_eq!(pad.peek(), 1);
}

#[test]
fn pressing_a_direction_releases_its_opposite() {
    let mut pad = Joypad::new();
    pad.set_button(JoypadBtnState::LEFT, true);
    pad.set_button(JoypadBtnState::RIGHT, true);
    assert!(pad.button(JoypadBtnState::RIGHT));
    assert!(!pad.button(JoypadBtnState::LEFT));

    let mut pad = Joypad { concurrent_dpad: true, ..Joypad::new() };
    pad.set_button(JoypadBtnState::UP, true);
    pad.set_button(JoypadBtnState::DOWN, true);
    assert!(pad.button(JoypadBtnState::UP | JoypadBtnState::DOWN));
}

#[test]
fn releasing_turbo_releases_the_button_it_drives() {
    let mut pad = Joypad::new();
    pad.set_button(JoypadBtnState::A, true);
    pad.set_button(JoypadBtnState::TURBO_A, true);
    pad.set_button(JoypadBtnState::TURBO_A, false);
    assert!(!pad.button(JoypadBtnState::A));
    assert!(!pad.button(JoypadBtnState::TURBO_A));
}

#[test]
fn unknown_bits_are_dropped_and_a_reset_clears_everything() {
    let mut pad = Joypad::from_bytes(0xFFFF);
    assert_eq!(pad.buttons, JoypadBtnState::ALL);
    pad.write(1);
    pad.reset(ResetKind::Soft);
    assert_eq!(pad, Joypad::new());
    let mut pad = Joypad::from_bytes(JoypadBtnState::B);
    pad.clear();
    assert_eq!(pad.buttons, 0);
}

#[test]
fn players_and_four_player_modes_name_themselves() {
    for (index, name) in ["one", "two", "three", "four"].into_iter().enumerate() {
        let player = Player::try_from_index(index).expect("a player");
        assert_eq!(player.index(), index);
        assert_eq!(player.as_str(), name);
    }
    assert!(Player::try_from_index(4).is_err());
    assert_eq!(Player::default(), Player::One);
    assert_eq!(Player::Three.name(), "Three");
    for mode in FourPlayer::as_slice() {
        assert_eq!(FourPlayer::try_from_str(mode.as_str()), Ok(mode));
    }
    assert!(FourPlayer::try_from_str("fourscore").is_err());
    assert_eq!(JoypadBtn::Start.bits(), JoypadBtnState::START);
}

fn strobe(input: &mut Input) {
    input.write(1);
    input.write(0);
}

#[test]
fn a_four_score_shifts_out_both_pads_then_its_signature() {
    let mut input = Input::new();
    input.set_four_player(FourPlayer::FourScore);
    input.joypads[0] = Joypad::from_bytes(JoypadBtnState::A);
    input.joypads[2] = Joypad::from_bytes(JoypadBtnState::B);
    strobe(&mut input);
    let reads: Vec<u8> = (0..26).map(|_| input.read_port(Player::One)).collect();
    let mut expected = vec![1, 0, 0, 0, 0, 0, 0, 0];
    expected.extend([0, 1, 0, 0, 0, 0, 0, 0]);
    expected.extend([0, 0, 0, 1, 0, 0, 0, 0]);
    expected.extend([1, 1]);
    assert_eq!(reads, expected);

    strobe(&mut input);
    let signature: Vec<u8> = (0..24).map(|_| input.read_port(Player::Two)).skip(16).collect();
    assert_eq!(signature, [0, 0, 1, 0, 0, 0, 0, 0]);
}

#[test]
fn a_satellite_reads_both_pads_at_once() {
    let mut input = Input::new();
    input.set_four_player(FourPlayer::Satellite);
    input.joypads[1] = Joypad::from_bytes(JoypadBtnState::A | JoypadBtnState::SELECT);
    input.joypads[3] = Joypad::from_bytes(JoypadBtnState::B);
    strobe(&mut input);
    assert_eq!(input.peek_port(Player::Two), 0b01);
    let reads: Vec<u8> = (0..3).map(|_| input.read_port(Player::Two)).collect();
    assert_eq!(reads, [0b01, 0b10, 0b01]);
}

#[test]
fn without_an_adapter_each_port_reads_its_own_pad() {
    let mut input = Input::new();
    input.joypads[1] = Joypad::from_bytes(JoypadBtnState::START);
    strobe(&mut input);
    let reads: Vec<u8> = (0..9).map(|_| input.read_port(Player::Two)).collect();
    assert_eq!(reads, [0, 0, 0, 1, 0, 0, 0, 0, 1]);
    assert_eq!(input.joypad(Player::One).index(), 0);
}

#[test]
fn turbo_buttons_toggle_when_the_timer_runs_out() {
    let mut input = Input::new();
    input.set_concurrent_dpad(true);
    assert!(input.joypads.iter().all(|pad| pad.concurrent_dpad));
    input.joypads[0].set_button(JoypadBtnState::TURBO_A, true);
    for _ in 0..29 {
        input.clock();
    }
    assert!(!input.joypads[0].button(JoypadBtnState::A));
    input.clock();
    assert!(input.joypads[0].button(JoypadBtnState::A));
    assert_eq!(input.turbo_timer, 89500);
    input.clear();
    assert_eq!(input.joypads[0].buttons, 0);
    input.reset(ResetKind::Hard);
    assert_eq!(input.signatures[0].buttons, 0x08);
}

#[test]
fn a_high_strobe_reloads_the_register_at_the_first_button() {
    let mut j = Joypad { buttons: JoypadBtnState::A, concurrent_dpad: false, index: 3, strobe: false };
    assert_eq!(j.peek(), 0);
    j.write(1);
    assert!(j.strobe);
    assert_eq!(j.peek(), 1);
    assert_eq!(j.read(), 1);
    assert_eq!(j.index(), 0);
    assert_eq!(j.read(), 1);
    j.write(0);
    assert_eq!(j.read(), 1);
    assert_eq!(j.read(), 0);
}
