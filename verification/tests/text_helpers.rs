use zetta_chat::text::{contains_text, same_text};

#[test]
fn same_text_compares_characters() {
    assert!(same_text("abc", "abc"));
    assert!(!same_text("abc", "abd"));
    assert!(!same_text("abc", "ab"));
    assert!(same_text("", ""));
    assert!(same_text("😀é", "😀é"));
}

#[test]
fn contains_text_finds_runs() {
    assert!(contains_text("Connected to x", "Connected"));
    assert!(contains_text("xxConnected", "Connected"));
    assert!(!contains_text("Connecte", "Connected"));
    assert!(contains_text("anything", ""));
    assert!(contains_text("", ""));
    assert!(!contains_text("", "a"));
    assert!(contains_text("aab", "ab"));
}

