use wax::correlation::{CorrelationContext, GetStanzaId};
use wax::filter::{any, Filter, Functions, Value};
use wax::filters::{iq, message, reply};
use wax::reject::{known, DefinedCondition, ErrorType, Rejection};
use wax::scope::StanzaScope;
use wax::server::{Action, Standard};
use wax::service::{into_response, make_error_stanza, service};
use wax::stanza::{Iq, IqType, Message, MessageType, Presence, PresenceType, Stanza};
use wax::xmpp::{IqGet, IqSet};

type Fns = Functions<
    fn(u64, Stanza) -> Result<Vec<Value>, Rejection>,
    fn(u64, Vec<Value>) -> Vec<Value>,
    fn(u64, Vec<Value>) -> Result<Vec<Value>, Rejection>,
    fn(u64, Rejection) -> Result<Vec<Value>, Rejection>,
    fn(u64, Rejection) -> Vec<Value>,
>;

fn leaf_none(_: u64, _: Stanza) -> Result<Vec<Value>, Rejection> {
    Ok(vec![])
}

fn map_same(_: u64, x: Vec<Value>) -> Vec<Value> {
    x
}

fn and_then_same(_: u64, x: Vec<Value>) -> Result<Vec<Value>, Rejection> {
    Ok(x)
}

fn or_else_same(_: u64, e: Rejection) -> Result<Vec<Value>, Rejection> {
    Err(e)
}

fn recover_none(_: u64, _: Rejection) -> Vec<Value> {
    vec![]
}

fn fns() -> Fns {
    Functions::new(leaf_none, map_same, and_then_same, or_else_same, recover_none)
}

fn iq_get(id: &str) -> Iq {
    Iq {
        from: Some("client@example.com/res".to_string()),
        to: Some("component.example.com".to_string()),
        id: id.to_string(),
        type_: IqType::GetRequest,
        payload: Some("<query xmlns='jabber:iq:version'/>".to_string()),
        error: None,
    }
}

fn msg(id: Option<&str>, type_: MessageType) -> Stanza {
    Stanza::Message(Message {
        from: Some("alice@example.com".to_string()),
        to: Some("bot.example.com".to_string()),
        id: id.map(|s| s.to_string()),
        type_,
        bodies: vec![(String::new(), "hi".to_string())],
        error: None,
    })
}

fn pres(id: Option<&str>, type_: PresenceType) -> Stanza {
    Stanza::Presence(Presence {
        from: Some("alice@example.com".to_string()),
        to: Some("bot.example.com".to_string()),
        id: id.map(|s| s.to_string()),
        type_,
        error: None,
    })
}

#[test]
fn rejected_iq_get_gets_error_iq_with_same_id() {
    let svc = service(message(), fns());
    let reply = svc.call(Stanza::Iq(iq_get("q1"))).unwrap();
    match reply {
        Stanza::Iq(e) => {
            assert_eq!(e.type_, IqType::Error);
            assert_eq!(e.id, "q1");
            assert_eq!(e.from.as_deref(), Some("component.example.com"));
            assert_eq!(e.to.as_deref(), Some("client@example.com/res"));
            assert_eq!(e.error.unwrap().condition, DefinedCondition::ItemNotFound);
        }
        other => panic!("unexpected {:?}", other),
    }
}

#[test]
fn forbidden_message_gets_error_message() {
    let svc = service(Filter::Fail(known(DefinedCondition::Forbidden)), fns());
    let reply = svc.call(msg(Some("42"), MessageType::Normal)).unwrap();
    match reply {
        Stanza::Message(m) => {
            assert_eq!(m.id.as_deref(), Some("42"));
            assert_eq!(m.type_, MessageType::Error);
            assert_eq!(m.to.as_deref(), Some("alice@example.com"));
            assert_eq!(m.from.as_deref(), Some("bot.example.com"));
            assert!(m.bodies.is_empty());
            let err = m.error.unwrap();
            assert_eq!(err.condition.as_str(), "forbidden");
            assert_eq!(err.type_, ErrorType::Auth);
            assert_eq!(err.type_.as_str(), "auth");
        }
        other => panic!("unexpected {:?}", other),
    }
}

#[test]
fn rejected_presence_without_id_gets_no_reply() {
    let svc = service(message(), fns());
    assert!(svc.call(pres(None, PresenceType::Available)).is_none());
    // with an id it is answered, unless it is an error itself
    assert!(svc.call(pres(Some("p1"), PresenceType::Available)).is_some());
    assert!(svc.call(pres(Some("p1"), PresenceType::Error)).is_none());
}

#[test]
fn error_messages_and_messages_without_id_get_no_reply() {
    let err = known(DefinedCondition::BadRequest).into_stanza_error();
    assert!(make_error_stanza(&msg(None, MessageType::Chat), err.clone()).is_none());
    assert!(make_error_stanza(&msg(Some("7"), MessageType::Error), err.clone()).is_none());
    assert!(make_error_stanza(&msg(Some("7"), MessageType::Chat), err.clone()).is_some());
    // an IQ of any type is answered
    let mut result_iq = iq_get("r1");
    result_iq.type_ = IqType::Result;
    match make_error_stanza(&Stanza::Iq(result_iq), err) {
        Some(Stanza::Iq(e)) => {
            assert_eq!(e.type_, IqType::Error);
            assert_eq!(e.id, "r1");
            assert!(e.payload.is_none());
        }
        other => panic!("unexpected {:?}", other),
    }
}

#[test]
fn successful_chain_sends_its_reply() {
    let svc = service(message().and(reply("pong".to_string())), fns());
    match svc.call(msg(Some("1"), MessageType::Chat)) {
        Some(Stanza::Message(m)) => {
            assert_eq!(m.bodies, vec![(String::new(), "pong".to_string())]);
            assert_eq!(m.to.as_deref(), Some("alice@example.com"));
        }
        other => panic!("unexpected {:?}", other),
    }
    // a sink sends nothing
    let svc = service(any().map_to(vec![wax::filters::sink()]), fns());
    assert!(svc.call(msg(Some("1"), MessageType::Chat)).is_none());
    assert!(into_response(vec![Value::Sink]).is_none());
    assert!(into_response(vec![]).is_none());
}

#[test]
fn scope_is_released_after_each_call() {
    let svc = service(message(), fns());
    let mut scope = StanzaScope::new();
    assert!(!scope.is_set());
    let _ = svc.call_stanza(&mut scope, msg(Some("1"), MessageType::Chat));
    assert!(!scope.is_set());
    let _ = svc.call_stanza(&mut scope, pres(Some("2"), PresenceType::Available));
    assert!(!scope.is_set());
    scope.set(msg(Some("3"), MessageType::Chat));
    assert!(scope.is_set());
    assert_eq!(scope.current().stanza_type(), "message");
    let s = scope.release();
    assert_eq!(s.id().map(|x| x.as_str()), Some("3"));
    assert!(!scope.is_set());
}

#[test]
fn iq_query_narrows_to_get_and_set() {
    let get = iq().get().require_from().into_filter();
    let set = iq().set().into_filter();
    let s = Stanza::Iq(iq_get("q2"));
    match &get.filter(&s, &fns()).unwrap()[0] {
        Value::Jid(j) => assert_eq!(j, "client@example.com/res"),
        other => panic!("unexpected {:?}", other),
    }
    assert!(set.filter(&s, &fns()).unwrap_err().is_item_not_found());
    assert!(wax::iq::param().filter(&s, &fns()).is_ok());

    let g = IqGet::try_from_iq(iq_get("q3")).unwrap();
    assert_eq!(g.id, "q3");
    assert!(IqSet::try_from_iq(iq_get("q3")).unwrap_err().is_item_not_found());
    let mut set_iq = iq_get("q4");
    set_iq.type_ = IqType::SetRequest;
    assert_eq!(IqSet::try_from_iq(set_iq).unwrap().id, "q4");
}

#[test]
fn run_loop_delivers_pending_responses_when_correlating() {
    let svc = service(message(), fns());
    let mut ctx = CorrelationContext::new();
    let mut scope = StanzaScope::new();
    let request = msg(Some("req-1"), MessageType::Chat);
    let ticket = ctx.register(request.get_stanza_id().unwrap().to_owned());

    // without correlation the response runs through the chain
    let plain = Standard { correlate_responses: false };
    let response = pres(Some("req-1"), PresenceType::Available);
    match plain.on_inbound(&svc, &mut ctx, &mut scope, response) {
        Action::Respond(a) => match a.reply {
            Some(Stanza::Presence(p)) => assert_eq!(p.type_, PresenceType::Error),
            other => panic!("unexpected {:?}", other),
        },
        other => panic!("unexpected {:?}", other),
    }

    let correlating = Standard { correlate_responses: true };
    let response = pres(Some("req-1"), PresenceType::Available);
    match correlating.on_inbound(&svc, &mut ctx, &mut scope, response) {
        Action::Deliver(t, s) => {
            assert_eq!(t, ticket);
            assert_eq!(s.stanza_type(), "presence");
        }
        other => panic!("unexpected {:?}", other),
    }
    // delivered once only
    let response = msg(Some("req-1"), MessageType::Chat);
    match correlating.on_inbound(&svc, &mut ctx, &mut scope, response) {
        Action::Respond(a) => {
            // the message matches and extracts nothing: no reply, no rejection
            assert!(a.reply.is_none());
            assert!(a.rejection.is_none());
        }
        other => panic!("unexpected {:?}", other),
    }
    assert!(!scope.is_set());
}

#[test]
fn custom_cause_is_kept_for_logs_and_not_sent() {
    let cause = wax::reject::CustomCause {
        name: "RateLimited".to_string(),
        detail: "RateLimited { user: 7 }".to_string(),
    };
    let svc = service(Filter::Fail(wax::reject::custom(cause)), fns());
    let mut scope = StanzaScope::new();
    let a = svc.call_stanza(&mut scope, msg(Some("9"), MessageType::Chat));
    match a.reply {
        Some(Stanza::Message(m)) => {
            let err = m.error.unwrap();
            assert_eq!(err.condition, DefinedCondition::UndefinedCondition);
            assert_eq!(err.type_, ErrorType::Cancel);
            assert!(!err.text.contains("RateLimited"));
        }
        other => panic!("unexpected {:?}", other),
    }
    let rejection = a.rejection.unwrap();
    assert_eq!(
        rejection.unhandled().map(|c| c.detail.clone()),
        Some("RateLimited { user: 7 }".to_string())
    );
}
