use jnv_editor::chars::format_usize;
use jnv_editor::guide::{
    loaded_all_message, loaded_partially_message, lookup_failure_message, no_suggestion_message,
};

#[test]
fn decimal_rendering_of_counts() {
    assert_eq!(format_usize(0), "0");
    assert_eq!(format_usize(7), "7");
    assert_eq!(format_usize(10), "10");
    assert_eq!(format_usize(42), "42");
    assert_eq!(format_usize(50000), "50000");
    assert_eq!(format_usize(usize::MAX), format!("{}", usize::MAX));
}

#[test]
fn loaded_all_message_text() {
    assert_eq!(loaded_all_message(7), "Loaded all (7) suggestions");
    assert_eq!(loaded_all_message(0), "Loaded all (0) suggestions");
}

#[test]
fn loaded_partially_message_text() {
    assert_eq!(loaded_partially_message(3), "Loaded partially (3) suggestions");
}

#[test]
fn no_suggestion_message_text() {
    assert_eq!(no_suggestion_message(&String::from("")), "No suggestion found for ''");
    assert_eq!(no_suggestion_message(&String::from(".x")), "No suggestion found for '.x'");
}

#[test]
fn lookup_failure_message_text() {
    assert_eq!(
        lookup_failure_message(&String::from("io"), &String::from("gone")),
        "Failed to lookup suggestions: io: gone"
    );
}
