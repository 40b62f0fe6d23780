use carbonite::confirm::{
    after_lookup, after_marking, confirmed_status, ConfirmAction, Parameters, TokenLookup,
};
use carbonite::domain::NewSubscriber;
use carbonite::flow::{start_subscription, SubscribeAction, SubscribeProgress};
use carbonite::subscribe::{
    after_step, confirmation_email, error_chain_fmt, generate_subscription_token, response_body,
    response_status, subscription_row, token_from_samples, FormData,
    SubscribeError, SubscribeOutcome, SubscribeStep,
};
use carbonite::web::{greet, health_check};

fn form(name: &str, email: &str) -> FormData {
    FormData { name: name.to_string(), email: email.to_string() }
}

#[test]
fn valid_form_gives_a_new_subscriber() {
    let s = NewSubscriber::try_from(form("le guin", "ursula_le_guin@gmail.com")).ok().unwrap();
    assert_eq!(s.name.as_ref(), "le guin");
    assert_eq!(s.email.as_ref(), "ursula_le_guin@gmail.com");
}

#[test]
fn invalid_forms_are_bad_requests() {
    for (name, email) in [
        ("le guin", ""),
        ("", "ursula_le_guin@gmail.com"),
        ("Ursula", "definite-not-email"),
    ] {
        let err = start_subscription(form(name, email)).err().unwrap();
        assert_eq!(err.status_code(), 400);
        let result = Err(err);
        assert_eq!(response_status(&result), 400);
        assert!(!response_body(&result).is_empty());
    }
}

#[test]
fn name_is_checked_before_email() {
    let err = start_subscription(form("", "nope")).err().unwrap();
    assert_eq!(err.message(), " is invalid name");
    let err = start_subscription(form("Ursula", "definite-not-email")).err().unwrap();
    assert_eq!(err.message(), "definite-not-email is invalid email");
    assert_eq!(response_body(&Err(err)), "definite-not-email is invalid email");
}

#[test]
fn server_side_errors_are_500() {
    for e in [
        SubscribeError::SendEmailError("x".to_string()),
        SubscribeError::SubscriptionTokenError("x".to_string()),
        SubscribeError::InsertSubscriberError("x".to_string()),
        SubscribeError::TransactionCommitError("x".to_string()),
    ] {
        assert_eq!(e.status_code(), 500);
    }
    assert_eq!(response_status(&Ok(())), 200);
    assert_eq!(response_body(&Ok(())), "");
}

#[test]
fn error_messages() {
    let c = || "cause".to_string();
    assert_eq!(SubscribeError::SendEmailError(c()).message(), "Failed to send a confirmation email");
    assert_eq!(
        SubscribeError::SubscriptionTokenError(c()).message(),
        "Failed to store the confirmation token for a new subscriber"
    );
    assert_eq!(
        SubscribeError::InsertSubscriberError(c()).message(),
        "Failed to insert new subscriber in the database"
    );
    assert_eq!(
        SubscribeError::TransactionCommitError(c()).message(),
        "Failed to commit SQL transaction to store a new subscriber"
    );
    assert_eq!(SubscribeError::from("oops".to_string()).message(), "oops");
}

#[test]
fn error_causes_and_report() {
    let e = SubscribeError::SubscriptionTokenError("db down".to_string());
    assert_eq!(e.causes(), vec!["Failed to store subscription token. ".to_string(), "db down".to_string()]);
    assert_eq!(
        e.report(),
        "Failed to store the confirmation token for a new subscriber\n\nCaused by:\n\tFailed to store subscription token. \nCaused by:\n\tdb down\n"
    );
    let e = SubscribeError::SendEmailError("timeout".to_string());
    assert_eq!(e.causes(), vec!["timeout".to_string()]);
    assert!(SubscribeError::ValidationError("bad".to_string()).causes().is_empty());
    assert_eq!(SubscribeError::ValidationError("bad".to_string()).report(), "bad\n\n");
}

#[test]
fn flow_runs_all_steps_in_order() {
    let mut step = SubscribeStep::BeginTransaction;
    let mut seen = vec![step];
    loop {
        match after_step(step, Ok(())) {
            SubscribeOutcome::Next(next) => {
                step = next;
                seen.push(step);
            }
            SubscribeOutcome::Finished => break,
            SubscribeOutcome::Failed(_) => panic!("no step failed"),
        }
    }
    assert_eq!(
        seen,
        vec![
            SubscribeStep::BeginTransaction,
            SubscribeStep::InsertSubscriber,
            SubscribeStep::StoreToken,
            SubscribeStep::SendConfirmationEmail,
            SubscribeStep::CommitTransaction,
        ]
    );
}

#[test]
fn failed_step_stops_with_its_error() {
    let cases = [
        (SubscribeStep::BeginTransaction, "Failed to commit SQL transaction to store a new subscriber"),
        (SubscribeStep::InsertSubscriber, "Failed to insert new subscriber in the database"),
        (SubscribeStep::StoreToken, "Failed to store the confirmation token for a new subscriber"),
        (SubscribeStep::SendConfirmationEmail, "Failed to send a confirmation email"),
        (SubscribeStep::CommitTransaction, "Failed to commit SQL transaction to store a new subscriber"),
    ];
    for (step, message) in cases {
        match after_step(step, Err("boom".to_string())) {
            SubscribeOutcome::Failed(e) => {
                assert_eq!(e.message(), message);
                assert_eq!(e.status_code(), 500);
                assert_eq!(e.causes().last().unwrap(), "boom");
            }
            _ => panic!("a failed step ends the flow"),
        }
    }
}

#[test]
fn tokens_are_25_alphanumeric_characters() {
    for _ in 0..20 {
        let t = generate_subscription_token();
        assert_eq!(t.chars().count(), 25);
        assert!(t.chars().all(|c| c.is_ascii_alphanumeric()));
    }
}

#[test]
fn token_keeps_the_drawn_bytes_in_order() {
    assert_eq!(token_from_samples(&b"aZ09x".to_vec()), "aZ09x");
    assert_eq!(token_from_samples(&Vec::new()), "");
}

#[test]
fn new_subscriber_row_awaits_confirmation() {
    let s = NewSubscriber::try_from(form("le guin", "ursula_le_guin@gmail.com")).ok().unwrap();
    let row = subscription_row(&s);
    assert_eq!(row.email, "ursula_le_guin@gmail.com");
    assert_eq!(row.name, "le guin");
    assert_eq!(row.status, "pending_confirmation");
    assert_eq!(confirmed_status(), "confirmed");
}

#[test]
fn confirmation_email_carries_the_link_in_both_bodies() {
    let s = NewSubscriber::try_from(form("le guin", "ursula_le_guin@gmail.com")).ok().unwrap();
    let email = confirmation_email(&s, "http://127.0.0.1", "abc123");
    let link = "http://127.0.0.1/subscriptions/confirm?subscription_token=abc123";
    assert_eq!(email.recipient, "ursula_le_guin@gmail.com");
    assert_eq!(email.subject, "Welcome");
    assert_eq!(
        email.html_body,
        format!(
            "Welcome to our news letter! <br /> \n                Click <a href=\"{}\">here</a> to confirm your subscription.",
            link
        )
    );
    assert_eq!(
        email.text_body,
        format!("Welcome to our news letter!\nVisit {} to confirm your subscription", link)
    );
}

#[test]
fn error_chain_lists_the_causes() {
    assert_eq!(error_chain_fmt("top", &vec![]), "top\n\n");
    assert_eq!(
        error_chain_fmt("top", &vec!["middle".to_string(), "root".to_string()]),
        "top\n\nCaused by:\n\tmiddle\nCaused by:\n\troot\n"
    );
}

#[test]
fn confirmation_decisions() {
    assert_eq!(after_lookup(TokenLookup::QueryFailed), ConfirmAction::Respond(400));
    assert_eq!(after_lookup(TokenLookup::NotFound), ConfirmAction::Respond(401));
    assert_eq!(after_lookup(TokenLookup::Found(7)), ConfirmAction::MarkConfirmed(7));
    assert_eq!(after_marking(true), 200);
    assert_eq!(after_marking(false), 500);
    let p = Parameters { subscription_token: "t".to_string() };
    assert_eq!(p.subscription_token, "t");
}

#[test]
fn greet_and_health_check() {
    assert_eq!(greet("Ursula"), "Hello Ursula!");
    assert_eq!(greet(""), "Hello !");
    assert_eq!(health_check(), 200);
}

#[test]
fn subscription_run_stores_and_mails_the_same_token() {
    let (mut state, mut action) =
        start_subscription(form("le guin", "ursula_le_guin@gmail.com")).ok().unwrap();
    let mut inserted_id = None;
    let mut stored = None;
    let mut mailed = None;
    let mut committed = false;
    let mut drawn = 100u128;
    loop {
        match &action {
            SubscribeAction::BeginTransaction => {}
            SubscribeAction::InsertSubscriber { subscriber_id, row } => {
                assert_eq!(row.status, "pending_confirmation");
                assert_eq!(row.email, "ursula_le_guin@gmail.com");
                assert_eq!(row.name, "le guin");
                inserted_id = Some(*subscriber_id);
            }
            SubscribeAction::StoreToken { subscriber_id, token } => {
                stored = Some((*subscriber_id, token.clone()));
            }
            SubscribeAction::SendConfirmationEmail(email) => {
                assert_eq!(email.recipient, "ursula_le_guin@gmail.com");
                mailed = Some((email.html_body.clone(), email.text_body.clone()));
            }
            SubscribeAction::CommitTransaction => committed = true,
        }
        drawn += 1;
        match state.advance(Ok(()), "http://127.0.0.1", drawn) {
            SubscribeProgress::Next(s, a) => {
                state = s;
                action = a;
            }
            SubscribeProgress::Finished => break,
            SubscribeProgress::Failed(_) => panic!("no step failed"),
        }
    }
    assert!(committed);
    let (id, token) = stored.unwrap();
    assert_eq!(Some(id), inserted_id);
    assert_eq!(token.len(), 25);
    let link = format!("http://127.0.0.1/subscriptions/confirm?subscription_token={}", token);
    let (html, text) = mailed.unwrap();
    assert!(html.contains(&link));
    assert!(text.contains(&link));
}

#[test]
fn subscription_run_stops_at_the_failed_step() {
    let (state, _) = start_subscription(form("le guin", "ursula_le_guin@gmail.com")).ok().unwrap();
    match state.advance(Err("refused".to_string()), "http://x", 1) {
        SubscribeProgress::Failed(e) => {
            assert_eq!(e.message(), "Failed to commit SQL transaction to store a new subscriber");
            assert_eq!(e.causes(), vec!["refused".to_string()]);
        }
        _ => panic!("the first step failed"),
    }
}
