use ticket_title::{ParseTitleError, TicketTitle};

const EMPTY: &str = "The title cannot be empty";
const TOO_LONG: &str = "The title cannot be longer than 50 characters";

fn message_of(outcome: Result<TicketTitle, ParseTitleError>) -> String {
    outcome.unwrap_err().to_string()
}

#[test]
fn test_try_from_string() {
    let title = TicketTitle::try_from("A title".to_string()).unwrap();
    assert_eq!(title.as_str(), "A title");
}

#[test]
fn test_try_from_empty_string() {
    let err = TicketTitle::try_from("".to_string()).unwrap_err();
    assert_eq!(err.to_string(), "The title cannot be empty");
}

#[test]
fn test_try_from_long_string() {
    let title =
        "A title that's definitely longer than what should be allowed in a development ticket"
            .to_string();
    let err = TicketTitle::try_from(title).unwrap_err();
    assert_eq!(
        err.to_string(),
        "The title cannot be longer than 50 characters"
    );
}

#[test]
fn test_try_from_str() {
    let title = TicketTitle::try_from("A title").unwrap();
    assert_eq!(title.as_str(), "A title");
}

#[test]
fn empty_str_is_refused_as_empty() {
    assert_eq!(message_of(TicketTitle::try_from("")), EMPTY);
}

#[test]
fn long_str_is_refused_with_the_bound_in_the_message() {
    let text =
        "A title that's definitely longer than what should be allowed in a development ticket";
    assert_eq!(message_of(TicketTitle::try_from(text)), TOO_LONG);
}

#[test]
fn one_character_is_enough() {
    assert_eq!(TicketTitle::try_from("x").unwrap().as_str(), "x");
}

#[test]
fn fifty_characters_are_accepted() {
    let text = "a".repeat(50);
    let title = TicketTitle::try_from(text.as_str()).unwrap();
    assert_eq!(title.as_str(), text);
    let title = TicketTitle::try_from(text.clone()).unwrap();
    assert_eq!(title.as_str(), text);
}

#[test]
fn fifty_one_characters_are_refused() {
    let text = "a".repeat(51);
    assert_eq!(message_of(TicketTitle::try_from(text.as_str())), TOO_LONG);
    assert_eq!(message_of(TicketTitle::try_from(text)), TOO_LONG);
}

#[test]
fn the_bound_is_fifty() {
    assert_eq!(TicketTitle::MAX_LENGTH, 50);
}

#[test]
fn length_is_counted_in_characters() {
    let fifty = "é".repeat(50);
    assert_eq!(fifty.len(), 100);
    assert_eq!(TicketTitle::try_from(fifty.as_str()).unwrap().as_str(), fifty);
    let fifty_one = "é".repeat(51);
    assert_eq!(message_of(TicketTitle::try_from(fifty_one)), TOO_LONG);
    let wide = "票".repeat(17);
    assert_eq!(wide.len(), 51);
    assert_eq!(TicketTitle::try_from(wide.clone()).unwrap().as_str(), wide);
}

#[test]
fn text_is_kept_as_given() {
    for text in [" ", "  A title  ", "MiXeD cAsE", "tab\tand\nnewline", "e\u{301}"] {
        assert_eq!(TicketTitle::try_from(text).unwrap().as_str(), text);
    }
}

#[test]
fn whitespace_counts_towards_the_length() {
    let text = " ".repeat(51);
    assert_eq!(message_of(TicketTitle::try_from(text)), TOO_LONG);
}

#[test]
fn owned_and_borrowed_agree() {
    let samples = [
        String::new(),
        "A title".to_string(),
        "a".repeat(50),
        "a".repeat(51),
        "é".repeat(50),
        "é".repeat(200),
    ];
    for text in samples {
        let borrowed = TicketTitle::try_from(text.as_str());
        let owned = TicketTitle::try_from(text.clone());
        match (borrowed, owned) {
            (Ok(b), Ok(o)) => {
                assert_eq!(b.as_str(), text);
                assert_eq!(o.as_str(), text);
                assert!(b == o);
            }
            (Err(b), Err(o)) => {
                assert_eq!(b.message(), o.message());
                assert_eq!(b.to_string(), o.to_string());
            }
            _ => panic!("the two conversions disagree on {:?}", text),
        }
    }
}

#[test]
fn error_shows_as_its_message() {
    let err = TicketTitle::try_from("").unwrap_err();
    assert_eq!(err.message(), EMPTY);
    assert_eq!(err.to_string(), err.message());
    let err = TicketTitle::try_from("b".repeat(60)).unwrap_err();
    assert_eq!(err.message(), TOO_LONG);
    assert_eq!(err.to_string(), err.message());
}

#[test]
fn titles_are_equal_when_their_texts_are() {
    let a = TicketTitle::try_from("A title").unwrap();
    let b = TicketTitle::try_from("A title".to_string()).unwrap();
    let c = TicketTitle::try_from("Another title").unwrap();
    assert!(a == b);
    assert!(a != c);
    assert!(!(a == c));
}

#[test]
fn a_clone_is_equal_and_independent() {
    let a = TicketTitle::try_from("A title").unwrap();
    let b = a.clone();
    drop(a);
    assert_eq!(b.as_str(), "A title");
    assert!(b == b.clone());
}

#[test]
fn debug_output_holds_the_text() {
    let title = TicketTitle::try_from("A title").unwrap();
    assert!(format!("{:?}", title).contains("A title"));
    let err = TicketTitle::try_from("").unwrap_err();
    assert!(format!("{:?}", err).contains(EMPTY));
}
