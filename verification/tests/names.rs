use super_villain::name::{split, SEPARATOR};

#[test]
fn separator_is_a_space() {
    assert_eq!(SEPARATOR, ' ');
}

#[test]
fn split_of_two_names() {
    assert_eq!(split("Ahmed Ahmed"), vec!["Ahmed", "Ahmed"]);
}

#[test]
fn split_of_empty_text_is_one_empty_token() {
    assert_eq!(split(""), vec![""]);
}

#[test]
fn split_of_one_word_is_that_word() {
    assert_eq!(split("OnlyOneToken"), vec!["OnlyOneToken"]);
}

#[test]
fn split_keeps_empty_tokens() {
    assert_eq!(split(" "), vec!["", ""]);
    assert_eq!(split("a  b"), vec!["a", "", "b"]);
    assert_eq!(split(" a"), vec!["", "a"]);
    assert_eq!(split("a "), vec!["a", ""]);
}

#[test]
fn split_of_many_tokens() {
    assert_eq!(split("Victor Von Doom"), vec!["Victor", "Von", "Doom"]);
}

#[test]
fn split_counts_characters_not_bytes() {
    assert_eq!(split("Émile Zöla 悪役"), vec!["Émile", "Zöla", "悪役"]);
}

#[test]
fn split_is_what_std_does() {
    for text in ["", " ", "a", "a b", " a b ", "a  b   c", "Ra's al Ghul"] {
        let expected: Vec<&str> = text.split(" ").collect();
        assert_eq!(split(text), expected);
    }
}

#[test]
fn split_at_spaces_only() {
    assert_eq!(split("a\tb\nc"), vec!["a\tb\nc"]);
}
