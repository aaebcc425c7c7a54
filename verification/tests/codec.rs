use blync_light::codec::{decode, encode, FormatError, FOOTER, HEADER, PACKET_LEN};
use blync_light::error::EffectError;
use blync_light::state::{BlyncControl, FlashSpeed, LightState};

fn blank() -> LightState {
    BlyncControl::zeroed().state()
}

fn checked(fields: LightState) -> BlyncControl {
    BlyncControl::from_state(fields).expect("fields in range")
}

#[test]
fn zeroed_state_encodes_to_header_zeros_footer() {
    let packet = encode(&BlyncControl::zeroed());
    assert_eq!(packet, [0x00, 0x00, 0x00, 0x00, 0x00, 0x00, 0x00, 0xFF, 0x22, 0x00]);
}

#[test]
fn packet_is_ten_bytes_with_header_and_footer() {
    let packet = encode(&BlyncControl::with_color(9, 8, 7));
    assert_eq!(packet.len(), PACKET_LEN);
    assert_eq!(packet.len(), 10);
    assert_eq!(packet[0], HEADER);
    assert_eq!(u16::from_be_bytes([packet[7], packet[8]]), FOOTER);
    assert_eq!(&packet[7..9], &[0xFF, 0x22]);
}

#[test]
fn colour_channels_sit_in_bytes_one_to_three() {
    let packet = encode(&BlyncControl::with_color(0x11, 0x22, 0x33));
    assert_eq!(packet, [0x00, 0x11, 0x22, 0x33, 0x00, 0x00, 0x00, 0xFF, 0x22, 0x00]);
}

#[test]
fn each_flag_has_its_own_bit() {
    let off = encode(&checked(LightState { off: true, ..blank() }));
    assert_eq!(off[4], 0b1000_0000);
    let dim = encode(&checked(LightState { dim: true, ..blank() }));
    assert_eq!(dim[4], 0b0100_0000);
    let flash = encode(&checked(LightState { flash: true, ..blank() }));
    assert_eq!(flash[4], 0b0010_0000);
    let play = encode(&checked(LightState { play: true, ..blank() }));
    assert_eq!(play[5], 0b0000_1000);
    let repeat = encode(&checked(LightState { repeat: true, ..blank() }));
    assert_eq!(repeat[5], 0b0000_0100);
    let mute = encode(&checked(LightState { mute: true, ..blank() }));
    assert_eq!(mute[6], 0b0000_1000);
}

#[test]
fn narrow_fields_are_packed_most_significant_first() {
    let speed = encode(&checked(LightState { speed: 0b101, ..blank() }));
    assert_eq!(speed[4], 0b0001_0100);
    let music = encode(&checked(LightState { music: 0b1001, ..blank() }));
    assert_eq!(music[5], 0b1001_0000);
    let volume = encode(&checked(LightState { volume: 0b0110, ..blank() }));
    assert_eq!(volume[6], 0b0110_0000);
}

#[test]
fn every_field_set_fills_all_used_bits() {
    let full = LightState {
        red: 1,
        green: 2,
        blue: 3,
        off: true,
        dim: true,
        flash: true,
        speed: 7,
        music: 15,
        play: true,
        repeat: true,
        volume: 15,
        mute: true,
    };
    let packet = encode(&checked(full));
    assert_eq!(packet, [0x00, 1, 2, 3, 0xFC, 0xFC, 0xF8, 0xFF, 0x22, 0x00]);
}

#[test]
fn flash_speeds_encode_as_one_hot_masks() {
    assert_eq!(FlashSpeed::Slow.to_u8(), 1);
    assert_eq!(FlashSpeed::Medium.to_u8(), 2);
    assert_eq!(FlashSpeed::Fast.to_u8(), 4);
    let slow = encode(&BlyncControl::flashing(0, 0, 0, FlashSpeed::Slow));
    assert_eq!((slow[4] >> 2) & 0b111, 0b001);
    let medium = encode(&BlyncControl::flashing(0, 0, 0, FlashSpeed::Medium));
    assert_eq!((medium[4] >> 2) & 0b111, 0b010);
    let fast = encode(&BlyncControl::flashing(0, 0, 0, FlashSpeed::Fast));
    assert_eq!((fast[4] >> 2) & 0b111, 0b100);
    assert_eq!(fast[4], 0b0011_0000);
}

#[test]
fn speeds_convert_into_their_masks() {
    assert_eq!(u8::from(FlashSpeed::Slow), 1);
    assert_eq!(u8::from(FlashSpeed::Medium), 2);
    let fast: u8 = FlashSpeed::Fast.into();
    assert_eq!(fast, 4);
}

#[test]
fn masks_read_back_as_speeds() {
    assert_eq!(FlashSpeed::from_u8(1), Some(FlashSpeed::Slow));
    assert_eq!(FlashSpeed::from_u8(2), Some(FlashSpeed::Medium));
    assert_eq!(FlashSpeed::from_u8(4), Some(FlashSpeed::Fast));
    for mask in [0u8, 3, 5, 6, 7, 8, 255] {
        assert_eq!(FlashSpeed::from_u8(mask), None);
    }
    for speed in [FlashSpeed::Slow, FlashSpeed::Medium, FlashSpeed::Fast] {
        assert_eq!(FlashSpeed::from_u8(speed.to_u8()), Some(speed));
    }
}

#[test]
fn decode_gives_back_what_was_encoded() {
    let mut seen = 0;
    for red in [0u8, 1, 127, 255] {
        for speed in 0u8..8 {
            for music in [0u8, 7, 15] {
                for volume in [0u8, 8, 15] {
                    for flags in 0u8..64 {
                        let fields = LightState {
                            red,
                            green: red.wrapping_add(3),
                            blue: red.wrapping_mul(5),
                            off: flags & 1 != 0,
                            dim: flags & 2 != 0,
                            flash: flags & 4 != 0,
                            speed,
                            music,
                            play: flags & 8 != 0,
                            repeat: flags & 16 != 0,
                            volume,
                            mute: flags & 32 != 0,
                        };
                        let state = checked(fields);
                        let read = decode(&encode(&state)).expect("own packets decode");
                        assert_eq!(read.state, state);
                        assert_eq!(read.state.state(), fields);
                        assert_eq!(read.header, 0);
                        assert!(!read.header_anomaly());
                        seen += 1;
                    }
                }
            }
        }
    }
    assert_eq!(seen, 4 * 8 * 3 * 3 * 64);
}

#[test]
fn decode_refuses_other_lengths() {
    assert_eq!(decode(&[]), Err(FormatError::WrongLength { length: 0 }));
    let nine = [0x00, 0, 0, 0, 0, 0, 0, 0xFF, 0x22];
    assert_eq!(decode(&nine), Err(FormatError::WrongLength { length: 9 }));
    let eleven = [0x00, 0, 0, 0, 0, 0, 0, 0xFF, 0x22, 0, 0];
    assert_eq!(decode(&eleven), Err(FormatError::WrongLength { length: 11 }));
    for length in (0usize..40).filter(|length| *length != 10) {
        let buffer = vec![0u8; length];
        assert_eq!(decode(&buffer), Err(FormatError::WrongLength { length }));
    }
}

#[test]
fn decode_refuses_a_wrong_footer() {
    let zeros = [0u8; 10];
    assert_eq!(decode(&zeros), Err(FormatError::BadFooter { footer: 0 }));
    let swapped = [0x00, 0, 0, 0, 0, 0, 0, 0x22, 0xFF, 0];
    assert_eq!(decode(&swapped), Err(FormatError::BadFooter { footer: 0x22FF }));
    let shifted = [0x00, 0, 0, 0, 0, 0, 0, 0, 0xFF, 0x22];
    assert_eq!(decode(&shifted), Err(FormatError::BadFooter { footer: 0x00FF }));
}

#[test]
fn length_is_checked_before_the_footer() {
    let short = [0x00, 0, 0, 0, 0, 0, 0, 0x12, 0x34];
    assert_eq!(decode(&short), Err(FormatError::WrongLength { length: 9 }));
}

#[test]
fn decode_reports_a_nonzero_header_without_failing() {
    let odd = [0x5A, 10, 20, 30, 0x80, 0, 0, 0xFF, 0x22, 0];
    let read = decode(&odd).expect("the header is not checked");
    assert_eq!(read.header, 0x5A);
    assert!(read.header_anomaly());
    let fields = read.state.state();
    assert_eq!((fields.red, fields.green, fields.blue), (10, 20, 30));
    assert!(fields.off);
    assert_eq!(encode(&read.state)[0], 0x00);
}

#[test]
fn decode_reads_every_field() {
    let bytes = [0x00, 0xAA, 0xBB, 0xCC, 0b0110_1000, 0b0011_0100, 0b1100_1000, 0xFF, 0x22, 0];
    let fields = decode(&bytes).expect("well framed").state.state();
    let expected = LightState {
        red: 0xAA,
        green: 0xBB,
        blue: 0xCC,
        off: false,
        dim: true,
        flash: true,
        speed: 0b010,
        music: 0b0011,
        play: false,
        repeat: true,
        volume: 0b1100,
        mute: true,
    };
    assert_eq!(fields, expected);
}

#[test]
fn decode_ignores_unused_bits() {
    let noisy = [0x00, 1, 2, 3, 0b0000_0011, 0b0000_0011, 0b0000_0111, 0xFF, 0x22, 0x77];
    let read = decode(&noisy).expect("well framed");
    assert_eq!(read.state, BlyncControl::with_color(1, 2, 3));
    assert_eq!(encode(&read.state), [0x00, 1, 2, 3, 0, 0, 0, 0xFF, 0x22, 0x00]);
}

#[test]
fn out_of_range_fields_are_refused() {
    let speed = LightState { speed: 8, ..blank() };
    assert_eq!(BlyncControl::from_state(speed), Err(EffectError::InvalidParameter));
    let music = LightState { music: 16, ..blank() };
    assert_eq!(BlyncControl::from_state(music), Err(EffectError::InvalidParameter));
    let volume = LightState { volume: 200, ..blank() };
    assert_eq!(BlyncControl::from_state(volume), Err(EffectError::InvalidParameter));
    let edge = LightState { speed: 7, music: 15, volume: 15, ..blank() };
    assert_eq!(BlyncControl::from_state(edge).map(|state| state.state()), Ok(edge));
}

#[test]
fn constructors_set_the_fields_they_name() {
    assert_eq!(BlyncControl::zeroed().state(), blank());
    let solid = BlyncControl::with_color(4, 5, 6).state();
    assert_eq!(solid, LightState { red: 4, green: 5, blue: 6, ..blank() });
    let dark = BlyncControl::turned_off().state();
    assert_eq!(dark, LightState { off: true, ..blank() });
    let blinking = BlyncControl::flashing(4, 5, 6, FlashSpeed::Medium).state();
    assert_eq!(
        blinking,
        LightState { red: 4, green: 5, blue: 6, flash: true, speed: 2, ..blank() }
    );
}

#[test]
fn flash_speed_is_in_force_only_while_flashing() {
    assert_eq!(BlyncControl::flashing(1, 1, 1, FlashSpeed::Fast).flash_speed(), Some(FlashSpeed::Fast));
    assert_eq!(BlyncControl::with_color(1, 1, 1).flash_speed(), None);
    let idle = checked(LightState { speed: 4, ..blank() });
    assert_eq!(idle.flash_speed(), None);
    let mixed = checked(LightState { flash: true, speed: 6, ..blank() });
    assert_eq!(mixed.flash_speed(), None);
}
