use pencil::buffer::{ContentsBuffer, EditError};
use pencil::diff::{Diff, DiffBuffer};

fn buffer_with(text: &str) -> ContentsBuffer {
    let mut b = ContentsBuffer::default();
    b.load(text.to_string());
    b
}

fn replay_from_empty(journal: &DiffBuffer) -> String {
    let mut b = ContentsBuffer::default();
    for i in 0..journal.size() {
        match journal.get(i).unwrap() {
            Diff::Add(t, p) => {
                b.insert_text(t, *p).unwrap();
            }
            Diff::Remove(t, p) => {
                b.delete_char_range(*p..*p + t.chars().count()).unwrap();
            }
        }
    }
    b.contents
}

#[test]
fn insert_into_new_buffer() {
    let mut b = ContentsBuffer::default();
    assert!(!b.edited());
    assert_eq!(b.insert_text("hello", 0), Ok(5));
    assert_eq!(b.as_str(), "hello");
    assert!(b.edited());
    assert_eq!(b.journal.size(), 1);
    assert_eq!(b.journal.peek_last(), Some(&Diff::Add("hello".to_string(), 0)));
}

#[test]
fn delete_first_char() {
    let mut b = buffer_with("hello");
    assert_eq!(b.delete_char_range(0..1), Ok(()));
    assert_eq!(b.as_str(), "ello");
    assert_eq!(b.journal.size(), 1);
    assert_eq!(b.journal.peek_last(), Some(&Diff::Remove("h".to_string(), 0)));
}

#[test]
fn take_returns_text_and_empties() {
    let mut b = buffer_with("xyz");
    assert_eq!(b.take(), Ok("xyz".to_string()));
    assert_eq!(b.as_str(), "");
    assert!(b.edited());
    assert_eq!(b.journal.peek_last(), Some(&Diff::Remove("xyz".to_string(), 0)));
}

#[test]
fn insert_past_end_is_refused() {
    let mut b = buffer_with("xy");
    assert_eq!(b.insert_text("a", 10), Err(EditError::InvalidRange));
    assert_eq!(b.as_str(), "xy");
    assert_eq!(b.journal.size(), 0);
    assert!(!b.edited());
}

#[test]
fn insert_at_end_is_accepted() {
    let mut b = buffer_with("xy");
    assert_eq!(b.insert_text("z", 2), Ok(1));
    assert_eq!(b.as_str(), "xyz");
}

#[test]
fn insert_in_middle() {
    let mut b = buffer_with("held");
    assert_eq!(b.insert_text("llo wor", 2), Ok(7));
    assert_eq!(b.as_str(), "hello world");
}

#[test]
fn delete_reversed_range_is_refused() {
    let mut b = buffer_with("hello");
    #[allow(clippy::reversed_empty_ranges)]
    let r = b.delete_char_range(3..1);
    assert_eq!(r, Err(EditError::InvalidRange));
    assert_eq!(b.as_str(), "hello");
    assert_eq!(b.journal.size(), 0);
    assert!(!b.edited());
}

#[test]
fn delete_past_end_is_refused() {
    let mut b = buffer_with("hello");
    assert_eq!(b.delete_char_range(2..6), Err(EditError::InvalidRange));
    assert_eq!(b.as_str(), "hello");
    assert_eq!(b.journal.size(), 0);
}

#[test]
fn delete_whole_text() {
    let mut b = buffer_with("hello");
    assert_eq!(b.delete_char_range(0..5), Ok(()));
    assert_eq!(b.as_str(), "");
    assert_eq!(b.journal.peek_last(), Some(&Diff::Remove("hello".to_string(), 0)));
}

#[test]
fn empty_insert_is_still_recorded() {
    let mut b = buffer_with("ab");
    assert_eq!(b.insert_text("", 1), Ok(0));
    assert_eq!(b.as_str(), "ab");
    assert!(b.edited());
    assert_eq!(b.journal.size(), 1);
}

#[test]
fn offsets_count_characters_not_bytes() {
    let mut b = buffer_with("héllo");
    assert_eq!(b.insert_text("ü", 2), Ok(1));
    assert_eq!(b.as_str(), "héüllo");
    assert_eq!(b.delete_char_range(1..3), Ok(()));
    assert_eq!(b.as_str(), "hllo");
    assert_eq!(b.journal.peek_last(), Some(&Diff::Remove("éü".to_string(), 1)));
    assert_eq!(b.insert_text("x", 4), Ok(1));
    assert_eq!(b.insert_text("x", 6), Err(EditError::InvalidRange));
}

#[test]
fn clear_records_removed_text() {
    let mut b = buffer_with("abc");
    assert_eq!(b.clear(), Ok(()));
    assert_eq!(b.as_str(), "");
    assert!(b.edited());
    assert_eq!(b.journal.size(), 1);
    assert_eq!(b.journal.peek_last(), Some(&Diff::Remove("abc".to_string(), 0)));
}

#[test]
fn clear_of_empty_buffer_is_recorded() {
    let mut b = ContentsBuffer::default();
    assert_eq!(b.clear(), Ok(()));
    assert!(b.edited());
    assert_eq!(b.journal.peek_last(), Some(&Diff::Remove(String::new(), 0)));
}

#[test]
fn replace_records_removal_then_insertion() {
    let mut b = buffer_with("old");
    assert_eq!(b.replace("new text"), Ok(()));
    assert_eq!(b.as_str(), "new text");
    assert!(b.edited());
    assert_eq!(b.journal.size(), 2);
    assert_eq!(b.journal.get(0), Some(&Diff::Remove("old".to_string(), 0)));
    assert_eq!(b.journal.get(1), Some(&Diff::Add("new text".to_string(), 0)));
}

#[test]
fn read_only_buffer_refuses_every_mutation() {
    let mut b = buffer_with("keep");
    b.mutable = false;
    assert!(!b.is_mutable());
    assert_eq!(b.insert_text("x", 0), Err(EditError::NotMutable));
    assert_eq!(b.delete_char_range(0..1), Err(EditError::NotMutable));
    assert_eq!(b.clear(), Err(EditError::NotMutable));
    assert_eq!(b.take(), Err(EditError::NotMutable));
    assert_eq!(b.replace("y"), Err(EditError::NotMutable));
    assert_eq!(b.as_str(), "keep");
    assert_eq!(b.journal.size(), 0);
    assert!(!b.edited());
}

#[test]
fn read_only_refusal_comes_before_range_refusal() {
    let mut b = buffer_with("ab");
    b.mutable = false;
    assert_eq!(b.insert_text("x", 9), Err(EditError::NotMutable));
}

#[test]
fn set_edited_is_not_journaled() {
    let mut b = ContentsBuffer::default();
    b.set_edited(true);
    assert!(b.edited());
    b.set_edited(false);
    assert!(!b.edited());
    assert_eq!(b.journal.size(), 0);
}

#[test]
fn load_then_edit_then_clean() {
    let mut b = buffer_with("abc");
    assert!(!b.edited());
    assert_eq!(b.insert_text("x", 3), Ok(1));
    assert_eq!(b.as_str(), "abcx");
    assert!(b.edited());
    b.set_edited(false);
    assert!(!b.edited());
    assert_eq!(b.as_str(), "abcx");
}

#[test]
fn contents_accessors() {
    let mut b = buffer_with("abc");
    assert_eq!(b.get_contents(), "abc");
    b.get_contents_mut().push('d');
    assert_eq!(b.get_contents(), "abcd");
    assert!(!b.edited());
    assert_eq!(b.journal.size(), 0);
}

#[test]
fn journal_replays_to_final_text() {
    let mut b = ContentsBuffer::default();
    b.insert_text("hello world", 0).unwrap();
    b.delete_char_range(5..11).unwrap();
    b.insert_text(", there", 5).unwrap();
    assert_eq!(b.insert_text("!", 99), Err(EditError::InvalidRange));
    b.insert_text("Oh, ", 0).unwrap();
    b.delete_char_range(0..0).unwrap();
    assert_eq!(b.as_str(), "Oh, hello, there");
    assert_eq!(replay_from_empty(&b.journal), "Oh, hello, there");
}

#[test]
fn journal_replays_through_clear_take_and_replace() {
    let mut b = ContentsBuffer::default();
    b.insert_text("first", 0).unwrap();
    b.clear().unwrap();
    b.insert_text("second", 0).unwrap();
    assert_eq!(b.take(), Ok("second".to_string()));
    b.insert_text("third", 0).unwrap();
    b.replace("fourth").unwrap();
    b.insert_text("ä", 6).unwrap();
    assert_eq!(b.as_str(), "fourthä");
    assert_eq!(replay_from_empty(&b.journal), "fourthä");
}
