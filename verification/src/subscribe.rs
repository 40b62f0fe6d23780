use vstd::prelude::*;

use rand::distributions::Alphanumeric;
use rand::rngs::ThreadRng;
use rand::{thread_rng, Rng};

use crate::domain::{
    all_printable_ascii, grapheme_count, invalid_email_message, invalid_name_message, name_is_acceptable,
    valid_email_address, NewSubscriber, SubscriberEmail, SubscriberName,
};
use crate::text::push_char;

verus! {

/// The fields of a subscription form.
pub struct FormData {
    pub email: String,
    pub name: String,
}

/// Why a form is refused, if it is: the name is checked first, then the
/// address; the first that fails gives the message.
pub open spec fn form_error(form: FormData) -> Option<Seq<char>> {
    if !name_is_acceptable(form.name@, grapheme_count(form.name@)) {
        Some(invalid_name_message(form.name@))
    } else if !valid_email_address(form.email@) {
        Some(invalid_email_message(form.email@))
    } else {
        None
    }
}

/// What validating a form gives: the subscriber with the form's name and
/// address, or the message of `form_error`.
pub open spec fn form_result_ok(form: FormData, r: Result<NewSubscriber, String>) -> bool {
    match r {
        Ok(s) => form_error(form) is None && s.name@ == form.name@ && s.email@ == form.email@,
        Err(m) => form_error(form) == Some(m@),
    }
}

impl TryFrom<FormData> for NewSubscriber {
    type Error = String;

    fn try_from(value: FormData) -> (r: Result<Self, Self::Error>)
        ensures
            form_result_ok(value, r),
            r is Ok ==> value.email@.contains('@'),
            all_printable_ascii(value.name@) ==> (r is Ok <==> (name_is_acceptable(
                value.name@,
                value.name@.len(),
            ) && valid_email_address(value.email@))),
    {
        let name = SubscriberName::parse(value.name)?;
        let email = SubscriberEmail::parse(value.email)?;
        Ok(NewSubscriber { name, email })
    }
}

/// The contract of `try_from` above is stated on the impl itself; the trait's
/// generic statement is not used.
impl vstd::std_specs::convert::TryFromSpecImpl<FormData> for NewSubscriber {
    open spec fn obeys_try_from_spec() -> bool {
        false
    }

    open spec fn try_from_spec(v: FormData) -> Result<Self, String> {
        vstd::pervasive::arbitrary()
    }
}


/// Why a subscription request failed. The failures of outside steps keep the
/// text of the outside error that caused them.
#[derive(Debug)]
pub enum SubscribeError {
    /// The form did not pass validation; the text says why.
    ValidationError(String),
    /// The confirmation e-mail could not be sent.
    SendEmailError(String),
    /// The confirmation token could not be stored.
    SubscriptionTokenError(String),
    /// The subscriber could not be inserted.
    InsertSubscriberError(String),
    /// The SQL transaction could not be opened or committed.
    TransactionCommitError(String),
}

/// HTTP status `200 OK`.
pub const STATUS_OK: u16 = 200;

/// HTTP status `400 Bad Request`.
pub const STATUS_BAD_REQUEST: u16 = 400;

/// HTTP status `401 Unauthorized`.
pub const STATUS_UNAUTHORIZED: u16 = 401;

/// HTTP status `500 Internal Server Error`.
pub const STATUS_INTERNAL_SERVER_ERROR: u16 = 500;

/// The HTTP status that answers an error: a validation error is the client's
/// fault, any other is the server's.
pub open spec fn error_status(e: SubscribeError) -> u16 {
    match e {
        SubscribeError::ValidationError(_) => STATUS_BAD_REQUEST,
        _ => STATUS_INTERNAL_SERVER_ERROR,
    }
}

/// The text that an error displays.
pub open spec fn error_message(e: SubscribeError) -> Seq<char> {
    match e {
        SubscribeError::ValidationError(m) => m@,
        SubscribeError::SendEmailError(_) => "Failed to send a confirmation email"@,
        SubscribeError::SubscriptionTokenError(_) => "Failed to store the confirmation token for a new subscriber"@,
        SubscribeError::InsertSubscriberError(_) => "Failed to insert new subscriber in the database"@,
        SubscribeError::TransactionCommitError(_) => "Failed to commit SQL transaction to store a new subscriber"@,
    }
}

/// The text of the intermediate error that a failed token insert is wrapped in.
pub open spec fn token_store_failure() -> Seq<char> {
    "Failed to store subscription token. "@
}

/// The texts of an error's causes, nearest first: none for a validation
/// error; the outside error for a failed step, behind the intermediate
/// "Failed to store subscription token. " for a failed token insert.
pub open spec fn error_causes(e: SubscribeError) -> Seq<Seq<char>> {
    match e {
        SubscribeError::ValidationError(_) => Seq::empty(),
        SubscribeError::SendEmailError(c) => seq![c@],
        SubscribeError::SubscriptionTokenError(c) => seq![token_store_failure(), c@],
        SubscribeError::InsertSubscriberError(c) => seq![c@],
        SubscribeError::TransactionCommitError(c) => seq![c@],
    }
}

impl SubscribeError {
    pub fn status_code(&self) -> (r: u16)
        ensures
            r == error_status(*self),
    {
        match self {
            SubscribeError::ValidationError(_) => STATUS_BAD_REQUEST,
            _ => STATUS_INTERNAL_SERVER_ERROR,
        }
    }

    /// The text that the error displays.
    pub fn message(&self) -> (r: String)
        ensures
            r@ == error_message(*self),
    {
        match self {
            SubscribeError::ValidationError(m) => m.clone(),
            SubscribeError::SendEmailError(_) => String::from_str(
                "Failed to send a confirmation email",
            ),
            SubscribeError::SubscriptionTokenError(_) => String::from_str(
                "Failed to store the confirmation token for a new subscriber",
            ),
            SubscribeError::InsertSubscriberError(_) => String::from_str(
                "Failed to insert new subscriber in the database",
            ),
            SubscribeError::TransactionCommitError(_) => String::from_str(
                "Failed to commit SQL transaction to store a new subscriber",
            ),
        }
    }

    /// The texts of the error's causes, nearest first.
    pub fn causes(&self) -> (r: Vec<String>)
        ensures
            r@.map_values(|c: String| c@) == error_causes(*self),
    {
        let mut r: Vec<String> = Vec::new();
        match self {
            SubscribeError::ValidationError(_) => {},
            SubscribeError::SubscriptionTokenError(c) => {
                r.push(String::from_str("Failed to store subscription token. "));
                r.push(c.clone());
            },
            SubscribeError::SendEmailError(c) => r.push(c.clone()),
            SubscribeError::InsertSubscriberError(c) => r.push(c.clone()),
            SubscribeError::TransactionCommitError(c) => r.push(c.clone()),
        }
        assert(r@.map_values(|c: String| c@) =~= error_causes(*self));
        r
    }

    /// The report of the error with its chain of causes.
    pub fn report(&self) -> (r: String)
        ensures
            r@ == error_chain_text(error_message(*self), error_causes(*self)),
    {
        let message = self.message();
        let causes = self.causes();
        error_chain_fmt(message.as_str(), &causes)
    }
}

impl From<String> for SubscribeError {
    fn from(e: String) -> (r: Self)
        ensures
            r == SubscribeError::ValidationError(e),
    {
        SubscribeError::ValidationError(e)
    }
}

impl vstd::std_specs::convert::FromSpecImpl<String> for SubscribeError {
    open spec fn obeys_from_spec() -> bool {
        true
    }

    open spec fn from_spec(e: String) -> Self {
        SubscribeError::ValidationError(e)
    }
}

/// The outside operations that storing a new subscriber performs, in order.
#[derive(Debug, Clone, Copy, PartialEq, Eq, Structural)]
pub enum SubscribeStep {
    /// Open an SQL transaction.
    BeginTransaction,
    /// Insert the subscriber, with status `pending_confirmation`.
    InsertSubscriber,
    /// Store a fresh subscription token against the subscriber.
    StoreToken,
    /// Send the confirmation e-mail with the link that carries the token.
    SendConfirmationEmail,
    /// Commit the transaction.
    CommitTransaction,
}

/// Where the flow stands once a step has run.
#[derive(Debug)]
pub enum SubscribeOutcome {
    /// Perform this step next.
    Next(SubscribeStep),
    /// All steps succeeded: answer `200 OK`.
    Finished,
    /// A step failed: answer with this error.
    Failed(SubscribeError),
}

/// The error that a failed step ends the request with, keeping its cause.
pub open spec fn step_error(step: SubscribeStep, cause: String) -> SubscribeError {
    match step {
        SubscribeStep::BeginTransaction => SubscribeError::TransactionCommitError(cause),
        SubscribeStep::InsertSubscriber => SubscribeError::InsertSubscriberError(cause),
        SubscribeStep::StoreToken => SubscribeError::SubscriptionTokenError(cause),
        SubscribeStep::SendConfirmationEmail => SubscribeError::SendEmailError(cause),
        SubscribeStep::CommitTransaction => SubscribeError::TransactionCommitError(cause),
    }
}

/// The `i`-th step of the flow, counted from 0.
pub open spec fn step_at(i: nat) -> SubscribeStep {
    if i == 0 {
        SubscribeStep::BeginTransaction
    } else if i == 1 {
        SubscribeStep::InsertSubscriber
    } else if i == 2 {
        SubscribeStep::StoreToken
    } else if i == 3 {
        SubscribeStep::SendConfirmationEmail
    } else {
        SubscribeStep::CommitTransaction
    }
}

/// The number of steps of the flow.
pub open spec fn step_count() -> nat {
    5
}

/// The position of a step in the flow.
pub open spec fn step_index(step: SubscribeStep) -> nat {
    match step {
        SubscribeStep::BeginTransaction => 0,
        SubscribeStep::InsertSubscriber => 1,
        SubscribeStep::StoreToken => 2,
        SubscribeStep::SendConfirmationEmail => 3,
        SubscribeStep::CommitTransaction => 4,
    }
}

/// What follows a step that succeeded, or failed with the given cause.
pub open spec fn outcome_after(step: SubscribeStep, result: Result<(), String>) -> SubscribeOutcome {
    match result {
        Err(cause) => SubscribeOutcome::Failed(step_error(step, cause)),
        Ok(_) => if step_index(step) + 1 < step_count() {
            SubscribeOutcome::Next(step_at(step_index(step) + 1))
        } else {
            SubscribeOutcome::Finished
        },
    }
}

/// Decides what follows a step, given its result: nothing, or the text of
/// the outside error that made it fail.
pub fn after_step(step: SubscribeStep, result: Result<(), String>) -> (r: SubscribeOutcome)
    ensures
        r == outcome_after(step, result),
{
    match result {
        Err(cause) => {
            let e = match step {
                SubscribeStep::BeginTransaction => SubscribeError::TransactionCommitError(cause),
                SubscribeStep::InsertSubscriber => SubscribeError::InsertSubscriberError(cause),
                SubscribeStep::StoreToken => SubscribeError::SubscriptionTokenError(cause),
                SubscribeStep::SendConfirmationEmail => SubscribeError::SendEmailError(cause),
                SubscribeStep::CommitTransaction => SubscribeError::TransactionCommitError(cause),
            };
            SubscribeOutcome::Failed(e)
        },
        Ok(_) => match step {
            SubscribeStep::BeginTransaction => SubscribeOutcome::Next(SubscribeStep::InsertSubscriber),
            SubscribeStep::InsertSubscriber => SubscribeOutcome::Next(SubscribeStep::StoreToken),
            SubscribeStep::StoreToken => SubscribeOutcome::Next(SubscribeStep::SendConfirmationEmail),
            SubscribeStep::SendConfirmationEmail => SubscribeOutcome::Next(
                SubscribeStep::CommitTransaction,
            ),
            SubscribeStep::CommitTransaction => SubscribeOutcome::Finished,
        },
    }
}

/// The HTTP status that answers a finished or failed request.
pub fn response_status(result: &Result<(), SubscribeError>) -> (r: u16)
    ensures
        match result {
            Ok(_) => r == STATUS_OK,
            Err(e) => r == error_status(*e),
        },
{
    match result {
        Ok(_) => STATUS_OK,
        Err(e) => e.status_code(),
    }
}

/// The body that answers a finished request (empty) or a failed one (the
/// error's text).
pub fn response_body(result: &Result<(), SubscribeError>) -> (r: String)
    ensures
        match result {
            Ok(_) => r@ == Seq::<char>::empty(),
            Err(e) => r@ == error_message(*e),
        },
{
    match result {
        Ok(_) => String::new(),
        Err(e) => e.message(),
    }
}

/// The status that a new subscriber is stored with.
pub open spec fn pending_confirmation() -> Seq<char> {
    "pending_confirmation"@
}

/// The row that stores a new subscriber.
pub struct SubscriptionRow {
    pub email: String,
    pub name: String,
    pub status: String,
}

/// The row for a new subscriber: its address and name, awaiting confirmation.
pub fn subscription_row(new_subscriber: &NewSubscriber) -> (r: SubscriptionRow)
    ensures
        r.email@ == new_subscriber.email@,
        r.name@ == new_subscriber.name@,
        r.status@ == pending_confirmation(),
{
    SubscriptionRow {
        email: String::from_str(new_subscriber.email.as_ref()),
        name: String::from_str(new_subscriber.name.as_ref()),
        status: String::from_str("pending_confirmation"),
    }
}

/// Where the flow stands after running steps from the first one, with the
/// `i`-th step's result in `results[i]`; `None` while no step has run.
pub open spec fn run_flow(results: Seq<Result<(), String>>) -> Option<SubscribeOutcome>
    decreases results.len(),
{
    if results.len() == 0 {
        None
    } else {
        let last = results.len() - 1;
        match run_flow(results.take(last)) {
            None => Some(outcome_after(step_at(0), results[last])),
            Some(SubscribeOutcome::Next(step)) => Some(outcome_after(step, results[last])),
            Some(done) => Some(done),
        }
    }
}

/// The flow runs its steps in order: after `k` successes (fewer than all),
/// the next step is the `k`-th one; it finishes exactly when all five steps
/// succeeded; and at the first failure it stops with that step's error,
/// keeping the failure's cause, and answers `500`. So the transaction is
/// committed only once the subscriber was inserted, its token stored and the
/// e-mail sent.
pub proof fn lemma_flow_runs_steps_in_order(results: Seq<Result<(), String>>)
    ensures
        (forall|i: int| 0 <= i < results.len() ==> #[trigger] results[i] is Ok) ==> {
            if results.len() == 0 {
                run_flow(results) is None
            } else if results.len() < step_count() {
                run_flow(results) == Some(SubscribeOutcome::Next(step_at(results.len())))
            } else {
                run_flow(results) == Some(SubscribeOutcome::Finished)
            }
        },
        forall|k: int|
            0 <= k < results.len() && k < step_count() && #[trigger] results[k] is Err && (forall|
                i: int,
            | 0 <= i < k ==> results[i] is Ok) ==> run_flow(results) == Some(
                SubscribeOutcome::Failed(step_error(step_at(k as nat), results[k]->Err_0)),
            ),
        run_flow(results) matches Some(SubscribeOutcome::Failed(e)) ==> error_status(e)
            == STATUS_INTERNAL_SERVER_ERROR,
        run_flow(results) == Some(SubscribeOutcome::Finished) ==> results.len() >= step_count()
            && forall|i: int| 0 <= i < step_count() ==> #[trigger] results[i] is Ok,
    decreases results.len(),
{
    if results.len() > 0 {
        let last = results.len() - 1;
        let prefix = results.take(last);
        lemma_flow_runs_steps_in_order(prefix);
        assert forall|i: int| 0 <= i < prefix.len() implies prefix[i] == results[i] by {}
        if forall|i: int| 0 <= i < results.len() ==> #[trigger] results[i] is Ok {
            assert(forall|i: int| 0 <= i < prefix.len() ==> #[trigger] prefix[i] is Ok);
        }
        assert forall|k: int|
            0 <= k < results.len() && k < step_count() && #[trigger] results[k] is Err && (forall|
                i: int,
            | 0 <= i < k ==> results[i] is Ok) implies run_flow(results) == Some(
            SubscribeOutcome::Failed(step_error(step_at(k as nat), results[k]->Err_0)),
        ) by {
            if k < last {
                assert(prefix[k] is Err);
                assert forall|i: int| 0 <= i < k implies prefix[i] is Ok by {
                    assert(results[i] is Ok);
                }
            } else {
                assert forall|i: int| 0 <= i < prefix.len() implies #[trigger] prefix[i] is Ok by {
                    assert(results[i] is Ok);
                }
            }
        }
        if run_flow(results) == Some(SubscribeOutcome::Finished) {
            if run_flow(prefix) == Some(SubscribeOutcome::Finished) {
                assert forall|i: int| 0 <= i < step_count() implies #[trigger] results[i] is Ok by {
                    assert(prefix[i] is Ok);
                }
            } else {
                lemma_next_only_after_successes(prefix);
                assert forall|i: int| 0 <= i < step_count() implies #[trigger] results[i] is Ok by {
                    if i < last {
                        assert(prefix[i] is Ok);
                    }
                }
            }
        }
    }
}

/// The flow is at a step only after that many successes in a row.
pub proof fn lemma_next_only_after_successes(results: Seq<Result<(), String>>)
    ensures
        run_flow(results) matches Some(SubscribeOutcome::Next(step)) ==> {
            &&& results.len() == step_index(step)
            &&& forall|i: int| 0 <= i < results.len() ==> #[trigger] results[i] is Ok
        },
        run_flow(results) is None ==> results.len() == 0,
    decreases results.len(),
{
    if results.len() > 0 {
        let last = results.len() - 1;
        let prefix = results.take(last);
        lemma_next_only_after_successes(prefix);
        assert forall|i: int| 0 <= i < prefix.len() implies prefix[i] == results[i] by {}
    }
}

/// `rand::rngs::ThreadRng`, the generator local to the current thread.
#[verifier::external_type_specification]
#[verifier::external_body]
pub struct ExThreadRng(ThreadRng);

/// Calls `rand::thread_rng`, which hands out the thread-local generator.
#[verifier::external_body]
fn thread_generator() -> ThreadRng {
    thread_rng()
}

/// Calls `Rng::sample` with the `Alphanumeric` distribution: its source picks
/// one byte of `A`..`Z`, `a`..`z`, `0`..`9`. Which one is left to chance.
#[verifier::external_body]
fn sample_alphanumeric(rng: &mut ThreadRng) -> (b: u8)
    ensures
        is_ascii_alphanumeric(b as char),
{
    rng.sample(Alphanumeric)
}

/// An ASCII letter or digit.
pub open spec fn is_ascii_alphanumeric(c: char) -> bool {
    ('a' <= c <= 'z') || ('A' <= c <= 'Z') || ('0' <= c <= '9')
}

/// The length of a subscription token.
pub const TOKEN_LENGTH: usize = 25;

/// A token is 25 ASCII letters and digits.
pub open spec fn is_subscription_token(t: Seq<char>) -> bool {
    &&& t.len() == TOKEN_LENGTH
    &&& forall|i: int| 0 <= i < t.len() ==> is_ascii_alphanumeric(#[trigger] t[i])
}

/// The token made of the given bytes, each read as a character.
pub fn token_from_samples(samples: &Vec<u8>) -> (r: String)
    ensures
        r@ == samples@.map_values(|b: u8| b as char),
{
    let mut token = String::new();
    for i in 0..samples.len()
        invariant
            token@ == samples@.take(i as int).map_values(|b: u8| b as char),
    {
        push_char(&mut token, samples[i] as char);
        assert(samples@.take(i + 1).map_values(|b: u8| b as char) =~= samples@.take(
            i as int,
        ).map_values(|b: u8| b as char).push(samples[i as int] as char));
    }
    assert(samples@.take(samples.len() as int) =~= samples@);
    token
}

/// A fresh random subscription token: 25 bytes drawn from the letters and
/// digits, in the order drawn.
pub fn generate_subscription_token() -> (r: String)
    ensures
        is_subscription_token(r@),
{
    let mut rng = thread_generator();
    let mut samples: Vec<u8> = Vec::new();
    for i in 0..TOKEN_LENGTH
        invariant
            samples@.len() == i,
            forall|j: int| 0 <= j < i ==> is_ascii_alphanumeric(#[trigger] samples@[j] as char),
    {
        let b = sample_alphanumeric(&mut rng);
        samples.push(b);
    }
    token_from_samples(&samples)
}

/// The link that confirms a subscription:
/// `<base_url>/subscriptions/confirm?subscription_token=<token>`.
pub open spec fn confirmation_link(base_url: Seq<char>, token: Seq<char>) -> Seq<char> {
    base_url + "/subscriptions/confirm?subscription_token="@ + token
}

/// The HTML body of the confirmation e-mail around its link.
pub open spec fn confirmation_html(link: Seq<char>) -> Seq<char> {
    "Welcome to our news letter! <br /> \n                Click <a href=\""@ + link
        + "\">here</a> to confirm your subscription."@
}

/// The plain-text body of the confirmation e-mail around its link.
pub open spec fn confirmation_text(link: Seq<char>) -> Seq<char> {
    "Welcome to our news letter!\nVisit "@ + link + " to confirm your subscription"@
}

/// The subject of the confirmation e-mail.
pub open spec fn confirmation_subject() -> Seq<char> {
    "Welcome"@
}

/// The confirmation link is the base URL it was given, then the path and
/// query name `/subscriptions/confirm?subscription_token=`, then the token;
/// and each body carries the link whole, at a fixed place after its
/// greeting.
pub proof fn lemma_link_is_built_on_its_inputs(base_url: Seq<char>, token: Seq<char>)
    ensures
        ({
            let link = confirmation_link(base_url, token);
            let html = confirmation_html(link);
            let text = confirmation_text(link);
            let b = base_url.len() as int;
            let l = link.len() as int;
            &&& link.len() == base_url.len() + 42 + token.len()
            &&& link.take(b) == base_url
            &&& link.subrange(b, b + 42) == "/subscriptions/confirm?subscription_token="@
            &&& link.skip(b + 42) == token
            &&& html.len() > 67 + l
            &&& html.subrange(67, 67 + l) == link
            &&& html.take(67) == "Welcome to our news letter! <br /> \n                Click <a href=\""@
            &&& text.len() > 34 + l
            &&& text.subrange(34, 34 + l) == link
            &&& text.take(34) == "Welcome to our news letter!\nVisit "@
        }),
{
    reveal_strlit("/subscriptions/confirm?subscription_token=");
    reveal_strlit("Welcome to our news letter! <br /> \n                Click <a href=\"");
    reveal_strlit("\">here</a> to confirm your subscription.");
    reveal_strlit("Welcome to our news letter!\nVisit ");
    reveal_strlit(" to confirm your subscription");
    let link = confirmation_link(base_url, token);
    let b = base_url.len() as int;
    let l = link.len() as int;
    let mid = "/subscriptions/confirm?subscription_token="@;
    assert(link.take(b) =~= base_url);
    assert(link.subrange(b, b + 42) =~= mid);
    assert(link.skip(b + 42) =~= token);
    let html = confirmation_html(link);
    let hp = "Welcome to our news letter! <br /> \n                Click <a href=\""@;
    assert(html.subrange(67, 67 + l) =~= link);
    assert(html.take(67) =~= hp);
    let text = confirmation_text(link);
    let tp = "Welcome to our news letter!\nVisit "@;
    assert(text.subrange(34, 34 + l) =~= link);
    assert(text.take(34) =~= tp);
}

/// An e-mail that asks a new subscriber to confirm.
pub struct ConfirmationEmail {
    pub recipient: String,
    pub subject: String,
    pub html_body: String,
    pub text_body: String,
}

/// The confirmation e-mail for a new subscriber: sent to the subscriber's
/// address, both bodies carrying the same link, which holds the token.
pub fn confirmation_email(new_subscriber: &NewSubscriber, base_url: &str, subscription_token: &str) -> (r:
    ConfirmationEmail)
    ensures
        r.recipient@ == new_subscriber.email@,
        r.subject@ == confirmation_subject(),
        r.html_body@ == confirmation_html(confirmation_link(base_url@, subscription_token@)),
        r.text_body@ == confirmation_text(confirmation_link(base_url@, subscription_token@)),
{
    let mut link = String::from_str(base_url);
    link.append("/subscriptions/confirm?subscription_token=");
    link.append(subscription_token);
    let mut html_body = String::from_str("Welcome to our news letter! <br /> \n                Click <a href=\"");
    html_body.append(link.as_str());
    html_body.append("\">here</a> to confirm your subscription.");
    let mut text_body = String::from_str("Welcome to our news letter!\nVisit ");
    text_body.append(link.as_str());
    text_body.append(" to confirm your subscription");
    ConfirmationEmail {
        recipient: String::from_str(new_subscriber.email.as_ref()),
        subject: String::from_str("Welcome"),
        html_body,
        text_body,
    }
}

/// `Caused by:\n\t<cause>\n` for each cause in turn.
pub open spec fn causes_text(causes: Seq<Seq<char>>) -> Seq<char>
    decreases causes.len(),
{
    if causes.len() == 0 {
        Seq::empty()
    } else {
        causes_text(causes.drop_last()) + "Caused by:\n\t"@ + causes.last() + "\n"@
    }
}

/// The report of an error: its text, a blank line, then each cause in the
/// chain of sources.
pub open spec fn error_chain_text(error: Seq<char>, causes: Seq<Seq<char>>) -> Seq<char> {
    error + "\n\n"@ + causes_text(causes)
}

/// Reports an error with its chain of causes, given the text of the error and
/// of each of its sources, nearest first.
pub fn error_chain_fmt(error: &str, causes: &Vec<String>) -> (r: String)
    ensures
        r@ == error_chain_text(error@, causes@.map_values(|c: String| c@)),
{
    let ghost texts = causes@.map_values(|c: String| c@);
    let mut out = String::from_str(error);
    out.append("\n\n");
    for i in 0..causes.len()
        invariant
            texts == causes@.map_values(|c: String| c@),
            out@ == error@ + "\n\n"@ + causes_text(texts.take(i as int)),
    {
        out.append("Caused by:\n\t");
        out.append(causes[i].as_str());
        out.append("\n");
        assert(texts.take(i + 1).drop_last() =~= texts.take(i as int));
    }
    assert(texts.take(causes.len() as int) =~= texts);
    out
}

} // verus!
