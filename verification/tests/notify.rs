use crm::metadata::{Content, Tpl};
use crm::notify::{
    answer_next, route, send_response, to_ts, EmailMsg, InAppMsg, Msg, NotifyError, SendRequest,
    SmsMsg,
};
use crm::time::Timestamp;

fn is_uuid_v4(s: &str) -> bool {
    let b: Vec<char> = s.chars().collect();
    b.len() == 36
        && b.iter().enumerate().all(|(i, c)| {
            if [8, 13, 18, 23].contains(&i) {
                *c == '-'
            } else {
                c.is_ascii_digit() || ('a'..='f').contains(c)
            }
        })
        && b[14] == '4'
        && "89ab".contains(b[19])
}

#[test]
fn message_ids_are_random_uuids() {
    let a = InAppMsg::fake().msg_id;
    let b = EmailMsg::fake().msg_id;
    assert!(is_uuid_v4(&a));
    assert!(is_uuid_v4(&b));
    assert_ne!(a, b);
}

#[test]
fn conversions_wrap_messages() {
    let e = EmailMsg::fake();
    match Msg::from(e.clone()) {
        Msg::Email(m) => assert_eq!(m.msg_id, e.msg_id),
        _ => panic!("not an e-mail"),
    }
    let req: SendRequest = SmsMsg::fake().into();
    assert!(matches!(req.msg, Some(Msg::Sms(_))));
    let req: SendRequest = InAppMsg::fake().into();
    assert!(matches!(req.msg, Some(Msg::InAppMsg(_))));
}

#[test]
fn route_takes_the_message_or_refuses() {
    let sms = SmsMsg::fake();
    let id = sms.msg_id.clone();
    let m = route(SendRequest::from(sms)).expect("routed");
    assert_eq!(m.msg_id(), id);
    assert_eq!(route(SendRequest { msg: None }).unwrap_err(), NotifyError::InvalidRequest);
    assert_eq!(NotifyError::InvalidRequest.message(), "invalid request");
}

#[test]
fn responses_carry_the_message_id() {
    let now = Timestamp { seconds: 10, nanos: 20 };
    let r = send_response("abc".to_string(), true, now).expect("sent");
    assert_eq!(r.msg_id, "abc");
    assert_eq!(r.timestamp, Some(now));
    let err = send_response("abc".to_string(), false, now).unwrap_err();
    assert_eq!(err, NotifyError::SendFailed);
    assert_eq!(err.message(), "Failed to send msg");
}

#[test]
fn to_ts_reads_the_clock() {
    let t = to_ts();
    assert!(t.seconds > 1_600_000_000);
    assert!((0..1_000_000_000).contains(&t.nanos));
}

#[test]
fn send_request_new_builds_an_email() {
    let contents = vec![Content::materialize(1), Content::materialize(2)];
    let recipients = vec!["a@b.c".to_string(), "d@e.f".to_string()];
    let req = SendRequest::new("Welcome".to_string(), "crm@x.y".to_string(), &recipients, &contents);
    match req.msg {
        Some(Msg::Email(e)) => {
            assert_eq!(e.subject, "Welcome");
            assert_eq!(e.sender, "crm@x.y");
            assert_eq!(e.recipients, recipients);
            assert_eq!(e.body, Tpl(&contents).to_body());
            assert!(is_uuid_v4(&e.msg_id));
        }
        _ => panic!("not an e-mail"),
    }
}

#[test]
fn sample_messages() {
    let e = EmailMsg::fake();
    assert!(is_uuid_v4(&e.msg_id));
    assert_eq!(e.recipients.len(), 1);
    assert_eq!(e.subject, "Hi");
    assert_eq!(e.body, "Hi, Girl");
    for addr in [&e.sender, &e.recipients[0]] {
        assert!(
            addr.ends_with("@example.com")
                || addr.ends_with("@example.net")
                || addr.ends_with("@example.org")
        );
    }
    let s = SmsMsg::fake();
    assert!(is_uuid_v4(&s.msg_id));
    assert_eq!(s.recipients.len(), 1);
    assert_eq!(s.body, "Hello world!");
    let a = InAppMsg::fake();
    assert!(is_uuid_v4(&a.msg_id));
    assert!(is_uuid_v4(&a.device_id));
    assert_eq!(a.title, "Hi");
    assert_eq!(a.body, "Hi, Girl");
}

#[test]
fn request_stream_is_answered_once_per_request_until_an_error() {
    let items: Vec<Result<SendRequest, String>> = vec![
        Ok(EmailMsg::fake().into()),
        Ok(SmsMsg::fake().into()),
        Ok(InAppMsg::fake().into()),
    ];
    let mut answers = Vec::new();
    let mut it = items.into_iter();
    while let Some(a) = answer_next(it.next()) {
        answers.push(a);
    }
    assert_eq!(answers.len(), 3);
    assert!(answers.iter().all(|a| a.is_ok()));

    let items: Vec<Result<SendRequest, String>> = vec![
        Ok(SendRequest { msg: None }),
        Err("broken".to_string()),
        Ok(EmailMsg::fake().into()),
    ];
    let mut answers = Vec::new();
    let mut it = items.into_iter();
    while let Some(a) = answer_next(it.next()) {
        answers.push(a);
    }
    assert_eq!(answers.len(), 1);
    assert_eq!(answers[0].as_ref().unwrap_err(), &NotifyError::InvalidRequest);
}

#[test]
fn sample_addresses_and_numbers_are_well_formed() {
    for _ in 0..20 {
        let e = EmailMsg::fake();
        for addr in [&e.sender, &e.recipients[0]] {
            let (local, domain) = addr.split_once('@').unwrap();
            assert!(!local.is_empty() && local.chars().all(|c| c.is_ascii_lowercase()));
            assert!(["example.com", "example.net", "example.org"].contains(&domain));
        }
        let s = SmsMsg::fake();
        for number in [&s.sender, &s.recipients[0]] {
            assert!(!number.is_empty());
            assert!(number.chars().all(|c| c.is_ascii_digit() || "()-. x".contains(c)));
        }
    }
}
