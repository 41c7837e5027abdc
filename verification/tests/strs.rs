use manger::{ConsumeError, ConsumeErrorType, ConsumeSource, SelfConsumable};

#[test]
fn test_strs_self_consume() {
    assert_eq!(<&str>::consume_item("ABCDEF", &"ABC"), Ok("DEF"));
}

#[test]
fn a_literal_that_the_source_parts_from() {
    assert_eq!(
        <&str>::consume_item("ABXDEF", &"ABC"),
        Err(ConsumeError::new_with(ConsumeErrorType::UnexpectedToken { index: 2, token: 'X' }))
    );
    assert_eq!(
        <&str>::consume_item("XBC", &"ABC"),
        Err(ConsumeError::new_with(ConsumeErrorType::UnexpectedToken { index: 0, token: 'X' }))
    );
}

#[test]
fn a_literal_that_the_source_is_too_short_for() {
    assert_eq!(
        <&str>::consume_item("AB", &"ABC"),
        Err(ConsumeError::new_with(ConsumeErrorType::InsufficientTokens { index: 2 }))
    );
    assert_eq!(
        <&str>::consume_item("", &"ABC"),
        Err(ConsumeError::new_with(ConsumeErrorType::InsufficientTokens { index: 0 }))
    );
}

#[test]
fn the_empty_literal_is_found_everywhere() {
    assert_eq!(<&str>::consume_item("ABC", &""), Ok("ABC"));
    assert_eq!(<&str>::consume_item("", &""), Ok(""));
}

#[test]
fn literals_count_characters_not_bytes() {
    assert_eq!(<&str>::consume_item("héllo wörld", &"héllo"), Ok(" wörld"));
    assert_eq!(
        <&str>::consume_item("héllo", &"hé1"),
        Err(ConsumeError::new_with(ConsumeErrorType::UnexpectedToken { index: 2, token: 'l' }))
    );
    assert_eq!(char::consume_item("🚀 goes", &'🚀'), Ok(" goes"));
}

#[test]
fn a_character_as_a_literal() {
    assert_eq!(char::consume_item("*42", &'*'), Ok("42"));
    assert_eq!(
        char::consume_item("+42", &'*'),
        Err(ConsumeError::new_with(ConsumeErrorType::UnexpectedToken { index: 0, token: '+' }))
    );
    assert_eq!(
        char::consume_item("", &'*'),
        Err(ConsumeError::new_with(ConsumeErrorType::InsufficientTokens { index: 0 }))
    );
}

#[test]
fn consuming_from_the_side_of_the_source() {
    let source = "{42}";

    let unconsumed = source.consume_lit(&'{').unwrap();
    assert_eq!(unconsumed, "42}");

    let (num, unconsumed) = unconsumed.consume::<u32>().unwrap();
    assert_eq!(num, 42);
    assert_eq!(unconsumed, "}");

    let unconsumed = unconsumed.consume_lit(&'}').unwrap();
    assert_eq!(unconsumed, "");
}

#[test]
fn consuming_in_place() {
    let mut source = "{42}";

    assert_eq!(source.mut_consume_lit(&'{'), Ok(1));
    assert_eq!(source, "42}");

    let num = source.mut_consume::<u32>().unwrap();
    assert_eq!(num, 42);
    assert_eq!(source, "}");

    assert_eq!(source.mut_consume_lit(&'}'), Ok(1));
    assert_eq!(source, "");
}

#[test]
fn consuming_in_place_and_counting() {
    let mut source = "scalar*4200!";

    assert_eq!(source.mut_consume_lit(&"scalar"), Ok(6));
    assert_eq!(source.mut_consume_lit(&'*'), Ok(1));
    assert_eq!(source.mut_consume_by::<u32>(), Ok((4200, 4)));
    assert_eq!(source, "!");
}

#[test]
fn a_failure_in_place_leaves_the_source_alone() {
    let mut source = "abc";
    assert!(source.mut_consume_lit(&"abd").is_err());
    assert_eq!(source, "abc");
    assert!(source.mut_consume::<u32>().is_err());
    assert_eq!(source, "abc");
    assert!(source.mut_consume_by::<u32>().is_err());
    assert_eq!(source, "abc");
}
