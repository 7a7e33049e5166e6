use polybar_title_module::capitalize::{capitalize_first, CapitalizeMode};

#[test]
fn first_letter_of_empty_is_empty() {
    assert_eq!(CapitalizeMode::FirstLetter.capitalize(""), "");
}

#[test]
fn first_letter_of_firefox() {
    assert_eq!(CapitalizeMode::FirstLetter.capitalize("firefox"), "Firefox");
}

#[test]
fn all_words_of_visual_studio_code() {
    assert_eq!(CapitalizeMode::AllWords.capitalize("visual studio code"), "Visual Studio Code");
}

#[test]
fn first_letter_keeps_the_rest() {
    assert_eq!(capitalize_first("mozilla Firefox"), "Mozilla Firefox");
    assert_eq!(capitalize_first("Already"), "Already");
}

#[test]
fn first_letter_expands_sharp_s() {
    assert_eq!(capitalize_first("ßtraße"), "SStraße");
}

#[test]
fn first_letter_of_non_ascii() {
    assert_eq!(capitalize_first("élan"), "Élan");
}

#[test]
fn default_mode_is_first_letter() {
    assert_eq!(CapitalizeMode::default(), CapitalizeMode::FirstLetter);
}

#[test]
fn all_words_of_empty_is_empty() {
    assert_eq!(CapitalizeMode::AllWords.capitalize(""), "");
}
