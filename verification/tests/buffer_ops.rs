use jnv_editor::buffer::TextBuffer;

fn breaks() -> Vec<char> {
    vec![' ']
}

#[test]
fn new_puts_cursor_at_tail() {
    let b = TextBuffer::new("abc");
    assert_eq!(b.text_without_cursor(), "abc");
    assert_eq!(b.position(), 3);
}

#[test]
fn empty_buffer_has_no_text() {
    let b = TextBuffer::empty();
    assert_eq!(b.text_without_cursor(), "");
    assert_eq!(b.position(), 0);
}

#[test]
fn backward_and_forward_stop_at_the_edges() {
    let mut b = TextBuffer::new("ab");
    assert!(!b.forward());
    assert!(b.backward());
    assert!(b.backward());
    assert!(!b.backward());
    assert_eq!(b.position(), 0);
    assert!(b.forward());
    assert_eq!(b.position(), 1);
}

#[test]
fn move_to_head_and_tail() {
    let mut b = TextBuffer::new("abc");
    b.move_to_head();
    assert_eq!(b.position(), 0);
    b.move_to_tail();
    assert_eq!(b.position(), 3);
}

#[test]
fn insert_lengthens_and_keeps_the_prefix() {
    let mut b = TextBuffer::new("abc");
    b.backward();
    b.backward();
    b.insert('d');
    assert_eq!(b.text_without_cursor(), "adbc");
    assert_eq!(b.position(), 2);
}

#[test]
fn insert_at_head_and_tail() {
    let mut b = TextBuffer::new("abc");
    b.insert('d');
    assert_eq!(b.text_without_cursor(), "abcd");
    b.move_to_head();
    b.insert('e');
    assert_eq!(b.text_without_cursor(), "eabcd");
    assert_eq!(b.position(), 1);
}

#[test]
fn overwrite_replaces_without_changing_length() {
    let mut b = TextBuffer::new("abc");
    b.move_to_head();
    b.forward();
    b.overwrite('d');
    assert_eq!(b.text_without_cursor(), "adc");
    assert_eq!(b.position(), 2);
}

#[test]
fn overwrite_at_tail_inserts() {
    let mut b = TextBuffer::new("abc");
    b.overwrite('d');
    assert_eq!(b.text_without_cursor(), "abcd");
    assert_eq!(b.position(), 4);
}

#[test]
fn erase_before_cursor() {
    let mut b = TextBuffer::new("abc");
    b.backward();
    b.erase();
    assert_eq!(b.text_without_cursor(), "ac");
    assert_eq!(b.position(), 1);
}

#[test]
fn erase_at_head_does_nothing() {
    let mut b = TextBuffer::new("abc");
    b.move_to_head();
    b.erase();
    assert_eq!(b.text_without_cursor(), "abc");
    assert_eq!(b.position(), 0);
}

#[test]
fn erase_all_empties_the_buffer() {
    let mut b = TextBuffer::new("abc");
    b.erase_all();
    assert_eq!(b.text_without_cursor(), "");
    assert_eq!(b.position(), 0);
}

#[test]
fn replace_swaps_the_text_and_moves_to_tail() {
    let mut b = TextBuffer::new("abc");
    b.move_to_head();
    b.replace("longer text");
    assert_eq!(b.text_without_cursor(), "longer text");
    assert_eq!(b.position(), 11);
}

#[test]
fn move_to_previous_nearest_lands_after_the_break() {
    let mut b = TextBuffer::new("koko momo jojo");
    b.move_to_head();
    for _ in 0..11 {
        b.forward();
    }
    b.move_to_previous_nearest(&breaks());
    assert_eq!(b.position(), 10);
    b.move_to_previous_nearest(&breaks());
    assert_eq!(b.position(), 5);
}

#[test]
fn move_to_previous_nearest_without_break_goes_to_head() {
    let mut b = TextBuffer::new("koko momo jojo");
    b.move_to_head();
    for _ in 0..7 {
        b.forward();
    }
    b.move_to_previous_nearest(&vec!['z']);
    assert_eq!(b.position(), 0);
}

#[test]
fn move_to_next_nearest_lands_after_the_break() {
    let mut b = TextBuffer::new("koko momo jojo");
    b.move_to_head();
    for _ in 0..7 {
        b.forward();
    }
    b.move_to_next_nearest(&breaks());
    assert_eq!(b.position(), 10);
    b.move_to_next_nearest(&breaks());
    assert_eq!(b.position(), 14);
}

#[test]
fn move_to_next_nearest_without_break_goes_to_tail() {
    let mut b = TextBuffer::new("koko momo jojo");
    b.move_to_head();
    for _ in 0..7 {
        b.forward();
    }
    b.move_to_next_nearest(&vec!['z']);
    assert_eq!(b.position(), 14);
}

#[test]
fn erase_to_previous_nearest_cuts_back_to_the_break() {
    let mut b = TextBuffer::new("koko momo jojo");
    b.erase_to_previous_nearest(&breaks());
    assert_eq!(b.text_without_cursor(), "koko momo ");
    assert_eq!(b.position(), 10);
}

#[test]
fn erase_to_next_nearest_cuts_forward_to_the_break() {
    let mut b = TextBuffer::new("koko momo jojo");
    b.move_to_head();
    for _ in 0..2 {
        b.forward();
    }
    b.erase_to_next_nearest(&breaks());
    assert_eq!(b.text_without_cursor(), "komomo jojo");
    assert_eq!(b.position(), 2);
}

#[test]
fn erase_to_next_nearest_at_tail_does_nothing() {
    let mut b = TextBuffer::new("abc");
    b.erase_to_next_nearest(&breaks());
    assert_eq!(b.text_without_cursor(), "abc");
    assert_eq!(b.position(), 3);
}
