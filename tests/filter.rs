use wax::filter::{any, leaf, Filter, Functions, Value};
use wax::filters::{from, message, presence, reply, require_from, to};
use wax::reject::{custom, known, CustomCause, DefinedCondition, Rejection};
use wax::stanza::{Message, MessageType, Presence, PresenceType, Stanza};

type Fns = Functions<
    fn(u64, Stanza) -> Result<Vec<Value>, Rejection>,
    fn(u64, Vec<Value>) -> Vec<Value>,
    fn(u64, Vec<Value>) -> Result<Vec<Value>, Rejection>,
    fn(u64, Rejection) -> Result<Vec<Value>, Rejection>,
    fn(u64, Rejection) -> Vec<Value>,
>;

fn leaf_none(_: u64, _: Stanza) -> Result<Vec<Value>, Rejection> {
    Ok(vec![])
}

fn map_same(_: u64, x: Vec<Value>) -> Vec<Value> {
    x
}

fn and_then_same(_: u64, x: Vec<Value>) -> Result<Vec<Value>, Rejection> {
    Ok(x)
}

fn or_else_same(_: u64, e: Rejection) -> Result<Vec<Value>, Rejection> {
    Err(e)
}

fn recover_none(_: u64, _: Rejection) -> Vec<Value> {
    vec![]
}

fn fns() -> Fns {
    Functions::new(leaf_none, map_same, and_then_same, or_else_same, recover_none)
}

fn chat(from: Option<&str>, to: Option<&str>, bodies: &[(&str, &str)]) -> Stanza {
    Stanza::Message(Message {
        from: from.map(|s| s.to_string()),
        to: to.map(|s| s.to_string()),
        id: Some("m1".to_string()),
        type_: MessageType::Chat,
        bodies: bodies
            .iter()
            .map(|(l, b)| (l.to_string(), b.to_string()))
            .collect(),
        error: None,
    })
}

fn text(s: &str) -> Value {
    Value::Text(s.to_string())
}

fn texts(v: &[Value]) -> Vec<String> {
    v.iter()
        .map(|x| match x {
            Value::Text(s) => s.clone(),
            Value::Flag(b) => b.to_string(),
            other => format!("{:?}", other),
        })
        .collect()
}

fn str1() -> Filter {
    Filter::Just(text("wax"))
}

fn true1() -> Filter {
    Filter::Just(Value::Flag(true))
}

fn unit1() -> Filter {
    any()
}

fn run(f: &Filter) -> Vec<String> {
    texts(&f.filter(&chat(None, None, &[]), &fns()).unwrap())
}

#[test]
fn flattens_tuples() {
    // just 1 value
    assert_eq!(run(&str1()), vec!["wax"]);
    // just 1 unit
    assert!(run(&unit1()).is_empty());
    // combine 2 values
    assert_eq!(run(&str1().and(true1())), vec!["wax", "true"]);
    // combine 2 reversed
    assert_eq!(run(&true1().and(str1())), vec!["true", "wax"]);
    // combine 1 with unit
    assert_eq!(run(&str1().and(unit1())), vec!["wax"]);
    assert_eq!(run(&unit1().and(str1())), vec!["wax"]);
    // combine 3 values
    assert_eq!(run(&str1().and(str1()).and(true1())), vec!["wax", "wax", "true"]);
    // combine 2 with unit
    assert_eq!(run(&str1().and(unit1()).and(true1())), vec!["wax", "true"]);
    assert_eq!(run(&unit1().and(str1()).and(true1())), vec!["wax", "true"]);
    assert_eq!(run(&str1().and(true1()).and(unit1())), vec!["wax", "true"]);
    // nested tuples
    let str_true_unit = || str1().and(true1()).and(unit1());
    let unit_str_true = || unit1().and(str1()).and(true1());
    assert_eq!(
        run(&str_true_unit().and(unit_str_true())),
        vec!["wax", "true", "wax", "true"]
    );
    assert_eq!(
        run(&unit_str_true().and(unit1()).and(str1()).and(str_true_unit())),
        vec!["wax", "true", "wax", "wax", "true"]
    );
}

#[test]
fn and_associates_on_values() {
    let s = chat(Some("a@x"), Some("b@x"), &[]);
    let left = str1().and(true1()).and(Filter::Just(text("c")));
    let right = str1().and(true1().and(Filter::Just(text("c"))));
    assert_eq!(
        texts(&left.filter(&s, &fns()).unwrap()),
        texts(&right.filter(&s, &fns()).unwrap())
    );
    assert_eq!(texts(&left.filter(&s, &fns()).unwrap()), vec!["wax", "true", "c"]);
}

#[test]
fn and_short_circuits_on_first_failure() {
    let s = chat(None, None, &[]);
    let f = presence().and(Filter::Fail(known(DefinedCondition::Forbidden)));
    let e = f.filter(&s, &fns()).unwrap_err();
    assert!(e.is_item_not_found());
    let f = message().and(Filter::Fail(known(DefinedCondition::Forbidden)));
    assert_eq!(
        f.filter(&s, &fns()).unwrap_err().error_condition(),
        DefinedCondition::Forbidden
    );
}

#[test]
fn infallible_left_and_rejects_with_right() {
    let s = chat(None, None, &[]);
    let f = from().and(Filter::Fail(known(DefinedCondition::Conflict)));
    assert_eq!(
        f.filter(&s, &fns()).unwrap_err().error_condition(),
        DefinedCondition::Conflict
    );
    let f = from().and(to());
    assert_eq!(f.filter(&s, &fns()).unwrap().len(), 2);
}

#[test]
fn or_tries_second_and_merges_rejections() {
    let s = chat(None, None, &[]);
    let f = presence().or(str1());
    assert_eq!(texts(&f.filter(&s, &fns()).unwrap()), vec!["wax"]);

    let f = Filter::Fail(custom(CustomCause {
        name: "Left".to_string(),
        detail: "Left".to_string(),
    }))
    .or(Filter::Fail(known(DefinedCondition::BadRequest)));
    let e = f.filter(&s, &fns()).unwrap_err();
    assert_eq!(e.find("Left").map(|c| c.detail.clone()), Some("Left".to_string()));
    assert!(e.find_known(DefinedCondition::BadRequest));
    assert_eq!(e.error_condition(), DefinedCondition::UndefinedCondition);
}

#[test]
fn unmatched_branches_resolve_to_default_and_recover() {
    // two domain checks chained, neither matching the stanza
    let foo = Filter::IdIs("foo".to_string());
    let bar = Filter::IdIs("bar".to_string());
    let chain = foo.and(bar.clone()).or(bar);
    let s = chat(Some("a@x"), Some("b@x"), &[]);
    let e = chain.clone().filter(&s, &fns()).unwrap_err();
    assert!(e.is_item_not_found());
    assert_eq!(e.error_condition(), DefinedCondition::ItemNotFound);

    let recovered = chain.recover_to(vec![text("fallback")]);
    assert_eq!(texts(&recovered.filter(&s, &fns()).unwrap()), vec!["fallback"]);
}

#[test]
fn map_or_else_and_recover() {
    let s = chat(None, None, &[]);
    let f = str1().map_to(vec![text("mapped"), Value::Number(7)]);
    let out = f.filter(&s, &fns()).unwrap();
    assert_eq!(out.len(), 2);
    assert!(matches!(out[1], Value::Number(7)));

    let f = presence().or_fallback(Filter::Fail(known(DefinedCondition::Gone)));
    assert_eq!(
        f.filter(&s, &fns()).unwrap_err().error_condition(),
        DefinedCondition::Gone
    );
    let f = message().or_fallback(Filter::Fail(known(DefinedCondition::Gone)));
    assert!(f.filter(&s, &fns()).unwrap().is_empty());

    let f = presence().recover_to(vec![text("shh")]);
    assert_eq!(texts(&f.filter(&s, &fns()).unwrap()), vec!["shh"]);
}

#[test]
fn address_filters() {
    let s = chat(Some("alice@example.com"), None, &[]);
    match &from().filter(&s, &fns()).unwrap()[0] {
        Value::MaybeJid(Some(j)) => assert_eq!(j, "alice@example.com"),
        other => panic!("unexpected {:?}", other),
    }
    assert!(matches!(to().filter(&s, &fns()).unwrap()[0], Value::MaybeJid(None)));
    assert!(require_from().filter(&s, &fns()).is_ok());
    assert!(wax::filters::require_to().filter(&s, &fns()).unwrap_err().is_item_not_found());
}

#[test]
fn reply_swaps_addresses() {
    let s = chat(Some("alice@example.com"), Some("bot.example.com"), &[]);
    let out = reply("hello".to_string()).filter(&s, &fns()).unwrap();
    match &out[0] {
        Value::Stanza(Stanza::Message(m)) => {
            assert_eq!(m.to.as_deref(), Some("alice@example.com"));
            assert_eq!(m.from.as_deref(), Some("bot.example.com"));
            assert_eq!(m.bodies, vec![(String::new(), "hello".to_string())]);
            assert_eq!(m.type_, MessageType::Chat);
        }
        other => panic!("unexpected {:?}", other),
    }
    // without addresses the reply simply has none
    let s = chat(None, None, &[]);
    match &reply("x".to_string()).filter(&s, &fns()).unwrap()[0] {
        Value::Stanza(Stanza::Message(m)) => {
            assert!(m.to.is_none());
            assert!(m.from.is_none());
        }
        other => panic!("unexpected {:?}", other),
    }
}

#[test]
fn body_prefers_requested_language() {
    let s = chat(None, None, &[("de", "Hallo"), ("fr", "Salut"), ("", "Hello")]);
    let out = wax::body::param_with_lang(vec!["fr".to_string(), "en".to_string()])
        .filter(&s, &fns())
        .unwrap();
    match &out[0] {
        Value::Body(l, b) => {
            assert_eq!(l, "fr");
            assert_eq!(b, "Salut");
        }
        other => panic!("unexpected {:?}", other),
    }
    // no preferred language present: the body without a language
    let out = wax::body::param().filter(&s, &fns()).unwrap();
    assert_eq!(texts(&out), vec!["Hello"]);
    // no bodies at all
    let e = wax::body::param().filter(&chat(None, None, &[]), &fns()).unwrap_err();
    assert!(e.is_item_not_found());
    // not a message
    let p = Stanza::Presence(Presence {
        from: None,
        to: None,
        id: None,
        type_: PresenceType::Available,
        error: None,
    });
    assert!(wax::body::param().filter(&p, &fns()).is_err());
}

#[test]
fn echo_repeats_body() {
    let s = chat(Some("alice@example.com"), Some("bot"), &[("", "ping")]);
    match &wax::filters::echo().filter(&s, &fns()).unwrap()[0] {
        Value::Stanza(Stanza::Message(m)) => {
            assert_eq!(m.bodies, vec![(String::new(), "ping".to_string())]);
            assert_eq!(m.to.as_deref(), Some("alice@example.com"));
        }
        other => panic!("unexpected {:?}", other),
    }
}

#[test]
fn id_filters() {
    let s = chat(None, None, &[]);
    assert_eq!(texts(&wax::id::param().filter(&s, &fns()).unwrap()), vec!["m1"]);
    assert!(wax::id::id("m1".to_string()).filter(&s, &fns()).unwrap().is_empty());
    assert!(wax::id::id("m2".to_string()).filter(&s, &fns()).is_err());
    let p = Stanza::Presence(Presence {
        from: None,
        to: None,
        id: None,
        type_: PresenceType::Available,
        error: None,
    });
    assert!(wax::id::param().filter(&p, &fns()).unwrap_err().is_item_not_found());
    assert!(wax::presence::param().filter(&p, &fns()).is_ok());
    assert!(wax::message::param().filter(&p, &fns()).is_err());
}

fn app_leaf(func: u64, s: Stanza) -> Result<Vec<Value>, Rejection> {
    match (func, s) {
        (1, Stanza::Message(m)) => Ok(vec![Value::Number(m.bodies.len() as u64)]),
        _ => Err(known(DefinedCondition::NotAllowed)),
    }
}

fn app_map(func: u64, x: Vec<Value>) -> Vec<Value> {
    match func {
        1 => x.into_iter().rev().collect(),
        _ => vec![Value::Number(x.len() as u64)],
    }
}

fn app_and_then(func: u64, x: Vec<Value>) -> Result<Vec<Value>, Rejection> {
    match (func, x.first()) {
        (1, Some(Value::Number(n))) if *n > 0 => Ok(x),
        _ => Err(known(DefinedCondition::BadRequest)),
    }
}

fn app_or_else(func: u64, e: Rejection) -> Result<Vec<Value>, Rejection> {
    match func {
        1 if e.error_condition() == DefinedCondition::Forbidden => Ok(vec![text("was forbidden")]),
        _ => Err(e.combine(known(DefinedCondition::Conflict))),
    }
}

fn app_recover(_: u64, e: Rejection) -> Vec<Value> {
    vec![Value::Text(e.error_condition().as_str().to_string())]
}

fn app() -> Fns {
    Functions::new(app_leaf, app_map, app_and_then, app_or_else, app_recover)
}

#[test]
fn map_applies_the_application_function() {
    let s = chat(None, None, &[]);
    let f = str1().and(true1()).map(1);
    assert_eq!(texts(&f.filter(&s, &app()).unwrap()), vec!["true", "wax"]);
    let f = str1().and(true1()).map(2);
    assert!(matches!(f.filter(&s, &app()).unwrap()[0], Value::Number(2)));
    // a rejection passes through untouched
    let f = presence().map(1);
    assert!(f.filter(&s, &app()).unwrap_err().is_item_not_found());
}

#[test]
fn and_then_may_reject() {
    let with_body = chat(None, None, &[("", "hi")]);
    let empty = chat(None, None, &[]);
    let f = leaf(1).and_then(1);
    assert!(matches!(f.filter(&with_body, &app()).unwrap()[0], Value::Number(1)));
    assert_eq!(
        f.filter(&empty, &app()).unwrap_err().error_condition(),
        DefinedCondition::BadRequest
    );
}

#[test]
fn or_else_receives_the_rejection() {
    let s = chat(None, None, &[]);
    let f = Filter::Fail(known(DefinedCondition::Forbidden)).or_else(1);
    assert_eq!(texts(&f.filter(&s, &app()).unwrap()), vec!["was forbidden"]);
    // another cause is handed over too, and the handler may reject again
    let f = Filter::Fail(known(DefinedCondition::Gone)).or_else(1);
    let e = f.filter(&s, &app()).unwrap_err();
    assert!(e.find_known(DefinedCondition::Gone));
    assert!(e.find_known(DefinedCondition::Conflict));
    // a success never reaches the handler
    let f = str1().or_else(1);
    assert_eq!(texts(&f.filter(&s, &app()).unwrap()), vec!["wax"]);
}

#[test]
fn recover_turns_rejection_into_reply() {
    let s = chat(None, None, &[]);
    let f = Filter::Fail(known(DefinedCondition::Forbidden)).recover(0);
    assert_eq!(texts(&f.filter(&s, &app()).unwrap()), vec!["forbidden"]);
    let f = presence().or(message().and(Filter::Fail(known(DefinedCondition::Gone)))).recover(0);
    assert_eq!(texts(&f.filter(&s, &app()).unwrap()), vec!["gone"]);
}

#[test]
fn application_leaf_filter() {
    let s = chat(None, None, &[("", "a"), ("de", "b")]);
    assert!(matches!(leaf(1).filter(&s, &app()).unwrap()[0], Value::Number(2)));
    assert_eq!(
        leaf(2).filter(&s, &app()).unwrap_err().error_condition(),
        DefinedCondition::NotAllowed
    );
}
