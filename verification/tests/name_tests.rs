use verification_officer::name;
use verification_officer::text;

#[test]
fn name_sanitized() {
    assert_eq!(name::name_sanitized("aaa bBb ccc"), "Aaa Bbb Ccc");
    assert_eq!(name::name_sanitized("a B"), "A B");
    assert_eq!(name::name_sanitized("a  b  c "), "A B C");
    assert_eq!(name::name_sanitized("iiı İiı"), "İiı İiı");
    assert_eq!(name::name_sanitized("ıiı Iiı"), "Iiı Iiı");
}

#[test]
fn sanitized_empty_and_blank_names() {
    assert_eq!(name::name_sanitized(""), "");
    assert_eq!(name::name_sanitized(" \t\n\r\x0C "), "");
}

#[test]
fn sanitized_keeps_vertical_tab_inside_words() {
    // U+000B is not ASCII whitespace for `split_ascii_whitespace`.
    assert_eq!(name::name_sanitized("a\x0Bb c"), "A\x0bb C");
}

#[test]
fn sanitized_lowercases_unicode_rest() {
    assert_eq!(name::name_sanitized("ÇAĞLAR ÖZTÜRK"), "Çağlar Öztürk");
    assert_eq!(name::name_sanitized("İSTANBUL"), "İstanbul");
    assert_eq!(name::name_sanitized("x"), "X");
}

#[test]
fn sanitized_padding_and_spacing_law_examples() {
    let plain = name::name_sanitized("ayşe nur");
    assert_eq!(name::name_sanitized("\t ayşe nur \n"), plain);
    assert_eq!(name::name_sanitized("ayşe \t\r\n nur"), plain);
    assert_eq!(plain, "Ayşe Nur");
}

#[test]
fn capitalized_initials() {
    assert_eq!(name::capitalized_initial('i'), '\u{130}');
    assert_eq!(name::capitalized_initial('\u{131}'), 'I');
    assert_eq!(name::capitalized_initial('a'), 'A');
    assert_eq!(name::capitalized_initial('z'), 'Z');
    assert_eq!(name::capitalized_initial('Z'), 'Z');
    assert_eq!(name::capitalized_initial('ş'), 'ş');
    assert_eq!(name::capitalized_initial('1'), '1');
}

#[test]
fn sanitized_word_from_parts() {
    let w = name::sanitized_word_from('m', "ehmet");
    assert_eq!(w.iter().collect::<String>(), "Mehmet");
    let w = name::sanitized_word_from('i', "");
    assert_eq!(w.iter().collect::<String>(), "İ");
}

#[test]
fn split_ascii_words_examples() {
    let chars: Vec<char> = "\t a\nbb  c\r".chars().collect();
    let ws = text::split_ascii_words(&chars);
    assert_eq!(ws, vec![vec!['a'], vec!['b', 'b'], vec!['c']]);
    let none: Vec<char> = "   ".chars().collect();
    assert!(text::split_ascii_words(&none).is_empty());
}

#[test]
fn join_spaced_words_examples() {
    assert_eq!(text::join_spaced_words(&vec![]), "");
    assert_eq!(text::join_spaced_words(&vec![vec!['a']]), "a");
    assert_eq!(text::join_spaced_words(&vec![vec!['a', 'b'], vec!['c']]), "ab c");
}

#[test]
fn chars_of_keeps_every_char() {
    assert_eq!(text::chars_of("ğİ x"), vec!['ğ', 'İ', ' ', 'x']);
}
