use zhuyin_audio::assets::{
    asset_file_name, asset_location, backup_location, backup_needed, clip_slot, AUDIO_DIR,
    AUDIO_EXTENSION, ORIGINALS_DIR,
};
use zhuyin_audio::get_zhuyin_index;
use zhuyin_audio::AudioError;

#[test]
fn single_digit_index_is_padded() {
    assert_eq!(asset_file_name(1), "01.mp3");
    assert_eq!(asset_file_name(2), "02.mp3");
    assert_eq!(asset_file_name(9), "09.mp3");
    assert_eq!(asset_file_name(0), "00.mp3");
}

#[test]
fn two_digit_index_is_written_as_it_is() {
    assert_eq!(asset_file_name(10), "10.mp3");
    assert_eq!(asset_file_name(21), "21.mp3");
    assert_eq!(asset_file_name(37), "37.mp3");
    assert_eq!(asset_file_name(99), "99.mp3");
}

#[test]
fn longer_index_keeps_all_its_digits() {
    assert_eq!(asset_file_name(100), "100.mp3");
    assert_eq!(asset_file_name(1234567), "1234567.mp3");
    assert_eq!(asset_file_name(usize::MAX), format!("{}.mp3", usize::MAX));
}

#[test]
fn file_name_agrees_with_padded_formatting() {
    for index in 0..500usize {
        assert_eq!(asset_file_name(index), format!("{:02}.mp3", index));
    }
}

#[test]
fn file_names_of_the_alphabet_are_distinct() {
    let mut names: Vec<String> = Vec::new();
    for index in 1..=37usize {
        let name = asset_file_name(index);
        assert!(!names.contains(&name));
        names.push(name);
    }
}

#[test]
fn locations_lie_in_their_directories() {
    assert_eq!(AUDIO_DIR, "assets/audio");
    assert_eq!(ORIGINALS_DIR, "assets/audio_originals");
    assert_eq!(AUDIO_EXTENSION, ".mp3");
    assert_eq!(asset_location(5), "assets/audio/05.mp3");
    assert_eq!(backup_location(5), "assets/audio_originals/05.mp3");
    assert_eq!(asset_location(37), "assets/audio/37.mp3");
}

#[test]
fn second_symbol_has_the_second_file() {
    let index = get_zhuyin_index("ㄆ").unwrap();
    assert_eq!(index, 2);
    assert_eq!(asset_file_name(index), "02.mp3");
}

#[test]
fn clip_slot_of_a_symbol() {
    let slot = clip_slot("ㄇ").unwrap();
    assert_eq!(slot.target, "assets/audio/03.mp3");
    assert_eq!(slot.backup, "assets/audio_originals/03.mp3");
}

#[test]
fn clip_slot_of_a_stranger_is_refused() {
    assert_eq!(clip_slot("x"), Err(AudioError::InvalidSymbol));
    assert_eq!(clip_slot(""), Err(AudioError::InvalidSymbol));
}

#[test]
fn only_the_first_version_is_backed_up() {
    assert!(backup_needed(true, false));
    assert!(!backup_needed(true, true));
    assert!(!backup_needed(false, false));
    assert!(!backup_needed(false, true));
}
