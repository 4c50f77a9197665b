use zhuyin_audio::get_zhuyin_index;
use zhuyin_audio::symbols::{ZHUYIN_COUNT, ZHUYIN_ORDER};

#[test]
fn first_three_symbols_resolve_in_order() {
    assert_eq!(get_zhuyin_index("ㄅ"), Some(1));
    assert_eq!(get_zhuyin_index("ㄆ"), Some(2));
    assert_eq!(get_zhuyin_index("ㄇ"), Some(3));
}

#[test]
fn medials_come_before_finals() {
    assert_eq!(get_zhuyin_index("ㄙ"), Some(21));
    assert_eq!(get_zhuyin_index("ㄧ"), Some(22));
    assert_eq!(get_zhuyin_index("ㄨ"), Some(23));
    assert_eq!(get_zhuyin_index("ㄩ"), Some(24));
    assert_eq!(get_zhuyin_index("ㄚ"), Some(25));
    assert_eq!(get_zhuyin_index("ㄦ"), Some(37));
}

#[test]
fn every_symbol_resolves_to_its_position() {
    assert_eq!(ZHUYIN_COUNT, 37);
    assert_eq!(ZHUYIN_ORDER.len(), ZHUYIN_COUNT);
    for (position, symbol) in ZHUYIN_ORDER.iter().enumerate() {
        let token = symbol.to_string();
        assert_eq!(get_zhuyin_index(&token), Some(position + 1));
    }
}

#[test]
fn indices_are_distinct_and_cover_the_range() {
    let mut seen = vec![false; ZHUYIN_COUNT + 1];
    for symbol in ZHUYIN_ORDER.iter() {
        let index = get_zhuyin_index(&symbol.to_string()).unwrap();
        assert!(1 <= index && index <= ZHUYIN_COUNT);
        assert!(!seen[index]);
        seen[index] = true;
    }
    assert!(seen[1..].iter().all(|hit| *hit));
}

#[test]
fn index_leads_back_to_the_symbol() {
    for symbol in ZHUYIN_ORDER.iter() {
        let index = get_zhuyin_index(&symbol.to_string()).unwrap();
        assert_eq!(ZHUYIN_ORDER[index - 1], *symbol);
    }
}

#[test]
fn tokens_outside_the_alphabet_are_not_found() {
    assert_eq!(get_zhuyin_index(""), None);
    assert_eq!(get_zhuyin_index("a"), None);
    assert_eq!(get_zhuyin_index("B"), None);
    assert_eq!(get_zhuyin_index("1"), None);
    assert_eq!(get_zhuyin_index("中"), None);
    assert_eq!(get_zhuyin_index("ㄪ"), None);
    assert_eq!(get_zhuyin_index("˙"), None);
}

#[test]
fn match_is_exact() {
    assert_eq!(get_zhuyin_index(" ㄅ"), None);
    assert_eq!(get_zhuyin_index("ㄅ "), None);
    assert_eq!(get_zhuyin_index("ㄅㄆ"), None);
    assert_eq!(get_zhuyin_index("ㄅㄅ"), None);
    assert_eq!(get_zhuyin_index("ㄅ\n"), None);
}
