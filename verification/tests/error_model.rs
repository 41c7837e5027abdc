use manger::sequence::{accept_if, Steps};
use manger::{ConsumeError, ConsumeErrorType};

#[test]
fn offset_moves_every_cause() {
    let error = ConsumeError::new_from(vec![
        ConsumeErrorType::InvalidValue { index: 0 },
        ConsumeErrorType::InsufficientTokens { index: 5 },
    ]);
    assert_eq!(
        error.offset(2),
        ConsumeError::new_from(vec![
            ConsumeErrorType::InvalidValue { index: 2 },
            ConsumeErrorType::InsufficientTokens { index: 7 },
        ])
    );
}

#[test]
fn offset_moves_one_cause() {
    assert_eq!(
        ConsumeErrorType::InvalidValue { index: 0 }.offset(2),
        ConsumeErrorType::InvalidValue { index: 2 }
    );
    assert_eq!(
        ConsumeErrorType::InsufficientTokens { index: 3 }.offset(0),
        ConsumeErrorType::InsufficientTokens { index: 3 }
    );
    assert_eq!(
        ConsumeErrorType::UnexpectedToken { index: 1, token: 'x' }.offset(41),
        ConsumeErrorType::UnexpectedToken { index: 42, token: 'x' }
    );
}

#[test]
fn offset_twice_is_offset_by_the_sum() {
    let error = || {
        ConsumeError::new_from(vec![
            ConsumeErrorType::UnexpectedToken { index: 1, token: 'a' },
            ConsumeErrorType::InvalidValue { index: 4 },
        ])
    };
    assert_eq!(error().offset(2).offset(3), error().offset(5));
    assert_eq!(error().offset(0), error());
}

#[test]
fn index_of_every_kind() {
    assert_eq!(*ConsumeErrorType::InsufficientTokens { index: 3 }.index(), 3);
    assert_eq!(*ConsumeErrorType::UnexpectedToken { index: 4, token: 'x' }.index(), 4);
    assert_eq!(*ConsumeErrorType::InvalidValue { index: 5 }.index(), 5);
}

#[test]
fn an_error_is_built_from_its_causes() {
    let first = ConsumeErrorType::InsufficientTokens { index: 1 };
    let second = ConsumeErrorType::UnexpectedToken { index: 2, token: 'b' };
    assert_eq!(ConsumeError::new().into_causes(), vec![]);
    assert_eq!(ConsumeError::new_with(first).into_causes(), vec![first]);
    assert_eq!(ConsumeError::new_from(vec![first, second]).into_causes(), vec![first, second]);
    assert_eq!(ConsumeError::new_from(vec![first, second]).causes(), vec![&first, &second]);
    assert_eq!(ConsumeError::new_from(vec![first]), ConsumeError::new_with(first));
}

#[test]
fn causes_are_added_at_the_end_and_none_is_dropped() {
    let first = ConsumeErrorType::InsufficientTokens { index: 1 };
    let second = ConsumeErrorType::UnexpectedToken { index: 2, token: 'b' };
    let third = ConsumeErrorType::InvalidValue { index: 0 };

    let mut error = ConsumeError::new();
    error.add_cause(first);
    assert_eq!(error.causes(), vec![&first]);
    error.add_causes(ConsumeError::new_from(vec![second, third, second]));
    assert_eq!(error.causes(), vec![&first, &second, &third, &second]);
    error.add_causes(ConsumeError::new());
    assert_eq!(error.into_causes(), vec![first, second, third, second]);
}

#[test]
fn errors_are_equal_where_their_causes_are() {
    let first = ConsumeErrorType::InsufficientTokens { index: 1 };
    let second = ConsumeErrorType::InvalidValue { index: 1 };
    assert_eq!(ConsumeError::new_from(vec![first, second]), ConsumeError::new_from(vec![first, second]));
    assert_ne!(ConsumeError::new_from(vec![first, second]), ConsumeError::new_from(vec![second, first]));
    assert_ne!(ConsumeError::new_from(vec![first]), ConsumeError::new_from(vec![first, first]));
    assert_ne!(first, second);
}

#[test]
fn a_rejected_value_is_invalid_where_it_began() {
    assert_eq!(accept_if(7, true, 3), Ok(7));
    assert_eq!(
        accept_if(7, false, 3),
        Err(ConsumeError::new_with(ConsumeErrorType::InvalidValue { index: 3 }))
    );
}

#[test]
fn steps_keep_count_of_what_they_consumed() {
    let mut steps = Steps::new("[42] extra");
    assert_eq!(steps.offset(), 0);
    assert_eq!(steps.unconsumed(), "[42] extra");
    assert_eq!(steps.literal(&'['), Ok(()));
    assert_eq!(steps.offset(), 1);
    assert_eq!(steps.typed::<i32>(), Ok(42));
    assert_eq!(steps.offset(), 3);
    assert_eq!(steps.literal(&"] "), Ok(()));
    assert_eq!(steps.offset(), 5);
    assert_eq!(steps.unconsumed(), "extra");
    assert_eq!(steps.finish(), "extra");
}

#[test]
fn a_failed_step_leaves_the_pass_where_it_was() {
    let mut steps = Steps::new("ab12");
    assert_eq!(steps.literal(&"ab"), Ok(()));
    assert_eq!(
        steps.literal(&"13"),
        Err(ConsumeError::new_with(ConsumeErrorType::UnexpectedToken { index: 3, token: '2' }))
    );
    assert_eq!(steps.offset(), 2);
    assert_eq!(steps.unconsumed(), "12");
    assert_eq!(
        steps.typed::<manger::common::Whitespace>(),
        Err(ConsumeError::new_with(ConsumeErrorType::InvalidValue { index: 2 }))
    );
    assert_eq!(steps.offset(), 2);
    assert_eq!(steps.typed::<u8>(), Ok(12));
    assert_eq!(steps.offset(), 4);
    assert_eq!(
        steps.typed::<char>(),
        Err(ConsumeError::new_with(ConsumeErrorType::InsufficientTokens { index: 4 }))
    );
    assert_eq!(steps.finish(), "");
}

#[test]
fn a_condition_rejects_a_value_at_the_start_of_its_step() {
    let mut steps = Steps::new("a17b9");
    assert_eq!(steps.literal(&'a'), Ok(()));
    assert_eq!(
        steps.typed_if::<u8, _>(|number| *number < 10),
        Err(ConsumeError::new_with(ConsumeErrorType::InvalidValue { index: 1 }))
    );
    assert_eq!(steps.offset(), 1);
    assert_eq!(steps.unconsumed(), "17b9");
    assert_eq!(steps.typed_if::<u8, _>(|number| *number >= 10), Ok(17));
    assert_eq!(steps.offset(), 3);
    assert_eq!(
        steps.typed_if::<u8, _>(|_| true),
        Err(ConsumeError::new_with(ConsumeErrorType::UnexpectedToken { index: 3, token: 'b' }))
    );
    assert_eq!(steps.unconsumed(), "b9");
}
