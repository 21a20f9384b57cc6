use wax::reject::{
    custom, item_not_found, known, reject, CustomCause, DefinedCondition, ErrorType, Reason,
    Rejection, Rejections,
};

fn cause(name: &str, detail: &str) -> CustomCause {
    CustomCause {
        name: name.to_string(),
        detail: detail.to_string(),
    }
}

fn left() -> CustomCause {
    cause("Left", "Left")
}

fn right() -> CustomCause {
    cause("Right", "Right")
}

#[test]
fn rejection_error_condition() {
    assert_eq!(
        item_not_found().error_condition(),
        DefinedCondition::ItemNotFound
    );
    assert_eq!(
        custom(left()).error_condition(),
        DefinedCondition::UndefinedCondition
    );
}

#[test]
fn combine_rejection_causes_with_some_left_and_none_right() {
    let left = custom(left());
    let right = item_not_found();
    let reject = left.combine(right);
    let err = reject.into_stanza_error();

    assert_eq!(err.condition, DefinedCondition::UndefinedCondition);
}

#[test]
fn combine_rejection_causes_with_none_left_and_some_right() {
    let left = item_not_found();
    let right = custom(right());
    let reject = left.combine(right);
    let err = reject.into_stanza_error();

    assert_eq!(err.condition, DefinedCondition::UndefinedCondition);
}

#[test]
fn unhandled_customs() {
    let reject = item_not_found().combine(custom(right()));

    let err = reject.into_stanza_error();
    assert_eq!(err.condition, DefinedCondition::UndefinedCondition);

    // There's no real way to determine which is worse, so pick the first one.
    let reject = custom(left()).combine(custom(right()));

    let err = reject.into_stanza_error();
    assert_eq!(err.condition, DefinedCondition::UndefinedCondition);
    assert_eq!(err.text, "undefined-condition");
    assert!(!err.text.contains("Left"));
    assert_eq!(reject.unhandled().map(|c| c.detail.clone()), Some("Left".to_string()));

    // With many rejections, custom still is top priority over item-not-found.
    let reject = item_not_found()
        .combine(item_not_found())
        .combine(item_not_found())
        .combine(custom(right()))
        .combine(item_not_found());

    let err = reject.into_stanza_error();
    assert_eq!(err.condition, DefinedCondition::UndefinedCondition);
}

#[test]
fn find_cause() {
    let rej = custom(left());

    assert_eq!(rej.find("Left").map(|c| c.detail.clone()), Some("Left".to_string()));

    let rej = rej.combine(known(DefinedCondition::BadRequest));

    assert_eq!(rej.find("Left").map(|c| c.detail.clone()), Some("Left".to_string()));
    assert!(rej.find_known(DefinedCondition::BadRequest), "BadRequest");
}

#[test]
fn size_of_rejection() {
    assert_eq!(
        ::std::mem::size_of::<Rejection>(),
        ::std::mem::size_of::<usize>(),
    );
}

fn combine_n<F>(n: u32, new_reject: F) -> Rejection
where
    F: Fn(u32) -> CustomCause,
{
    let mut rej = item_not_found();

    for i in 0..n {
        rej = rej.combine(custom(new_reject(i)));
    }

    rej
}

#[test]
fn test_debug() {
    let rej = combine_n(3, |i| cause("X", &format!("X({})", i)));

    let s = rej.debug_string();
    assert_eq!(s, "Rejection([X(0), X(1), X(2)])");
}

#[test]
fn convert_big_rejections_into_stanza_error() {
    let mut rejections = Rejections::Custom(cause("Error", "Os { code: 100 }"));
    for _ in 0..50 {
        rejections = Rejections::Combined(
            Box::new(Rejections::Known(DefinedCondition::BadRequest)),
            Box::new(rejections),
        );
    }
    let reason = Reason::Other(Box::new(rejections));
    let rejection = Rejection { reason };
    // the first specific cause encountered wins
    assert_eq!(
        DefinedCondition::BadRequest,
        rejection.into_stanza_error().condition
    );
}

#[test]
fn default_rejection_is_item_not_found() {
    let r = reject();
    assert!(r.is_item_not_found());
    let err = r.into_stanza_error();
    assert_eq!(err.condition, DefinedCondition::ItemNotFound);
    assert_eq!(err.type_, ErrorType::Cancel);
    assert_eq!(err.lang, "en");
    assert_eq!(err.text, "item-not-found");
    assert!(!custom(left()).is_item_not_found());
    assert_eq!(r.debug_string(), "Rejection(ItemNotFound)");
}

#[test]
fn combine_priority_with_default() {
    // default with default stays default
    let r = item_not_found().combine(item_not_found());
    assert!(r.is_item_not_found());
    // a specific cause beats the default on either side
    let r = item_not_found().combine(known(DefinedCondition::Forbidden));
    assert_eq!(r.error_condition(), DefinedCondition::Forbidden);
    let r = known(DefinedCondition::Forbidden).combine(item_not_found());
    assert_eq!(r.error_condition(), DefinedCondition::Forbidden);
    assert_eq!(r.debug_string(), "Rejection(Forbidden)");
}

#[test]
fn first_specific_cause_wins() {
    let r = known(DefinedCondition::Conflict)
        .combine(known(DefinedCondition::Forbidden))
        .combine(item_not_found());
    assert_eq!(r.error_condition(), DefinedCondition::Conflict);
    let err = r.into_stanza_error();
    assert_eq!(err.type_, ErrorType::Cancel);
    assert_eq!(err.text, "conflict");
    assert_eq!(r.debug_string(), "Rejection([Conflict, Forbidden])");

    // a known item-not-found inside a combination loses to a specific cause
    let r = known(DefinedCondition::ItemNotFound).combine(known(DefinedCondition::Gone));
    assert_eq!(r.error_condition(), DefinedCondition::Gone);
}

#[test]
fn known_cause_errors() {
    let cases = [
        (DefinedCondition::BadRequest, "bad-request", ErrorType::Modify),
        (DefinedCondition::Forbidden, "forbidden", ErrorType::Auth),
        (DefinedCondition::NotAuthorized, "not-authorized", ErrorType::Auth),
        (DefinedCondition::ServiceUnavailable, "service-unavailable", ErrorType::Wait),
        (DefinedCondition::RemoteServerTimeout, "remote-server-timeout", ErrorType::Wait),
        (DefinedCondition::JidMalformed, "jid-malformed", ErrorType::Modify),
        (DefinedCondition::UnexpectedRequest, "unexpected-request", ErrorType::Cancel),
        (DefinedCondition::UndefinedCondition, "undefined-condition", ErrorType::Cancel),
    ];
    for (c, token, t) in cases {
        let err = known(c).into_stanza_error();
        assert_eq!(err.condition, c);
        assert_eq!(err.text, token);
        assert_eq!(err.type_, t);
        assert_eq!(c.as_str(), token);
        assert_eq!(c.error_type(), t);
    }
    assert_eq!(ErrorType::Auth.as_str(), "auth");
    assert_eq!(ErrorType::Wait.as_str(), "wait");
}

#[test]
fn find_searches_left_to_right() {
    let r = known(DefinedCondition::Conflict)
        .combine(custom(cause("Left", "first")))
        .combine(custom(cause("Left", "second")));
    assert_eq!(r.find("Left").map(|c| c.detail.clone()), Some("first".to_string()));
    assert!(r.find("Right").is_none());
    assert!(item_not_found().find("Left").is_none());
    assert!(!r.find_known(DefinedCondition::Gone));
}
