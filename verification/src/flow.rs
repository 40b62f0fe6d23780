use vstd::prelude::*;

use crate::domain::{all_printable_ascii, name_is_acceptable, valid_email_address, NewSubscriber};
use crate::subscribe::{
    after_step, confirmation_email, confirmation_html, confirmation_link, confirmation_subject,
    confirmation_text, form_error, generate_subscription_token, is_subscription_token,
    outcome_after, pending_confirmation, step_at, step_count, step_index, subscription_row,
    ConfirmationEmail, FormData, SubscribeError, SubscribeOutcome, SubscribeStep,
    SubscriptionRow,
};

verus! {

/// What a subscription in progress holds: the subscriber, the step to
/// perform, and the id and token once they were chosen.
pub struct SubscribeStateView {
    pub step: SubscribeStep,
    pub name: Seq<char>,
    pub email: Seq<char>,
    pub subscriber_id: Option<u128>,
    pub token: Option<Seq<char>>,
}

/// A subscription in progress. The id is chosen when the subscriber is
/// inserted and the token when it is stored; both are kept for the steps
/// that follow.
pub struct SubscribeState {
    new_subscriber: NewSubscriber,
    step: SubscribeStep,
    subscriber_id: Option<u128>,
    token: Option<String>,
}

impl View for SubscribeState {
    type V = SubscribeStateView;

    closed spec fn view(&self) -> SubscribeStateView {
        SubscribeStateView {
            step: self.step,
            name: self.new_subscriber.name@,
            email: self.new_subscriber.email@,
            subscriber_id: self.subscriber_id,
            token: match self.token {
                Some(t) => Some(t@),
                None => None,
            },
        }
    }
}

/// From the insert on there is an id; from the token step on there is a
/// token.
pub open spec fn state_is_consistent(s: SubscribeStateView) -> bool {
    &&& step_index(s.step) >= 1 ==> s.subscriber_id is Some
    &&& step_index(s.step) >= 2 ==> s.token is Some && is_subscription_token(s.token->0)
}

/// The outside work of a step, with the data it works on.
pub enum SubscribeAction {
    /// Open an SQL transaction.
    BeginTransaction,
    /// Insert this row under this id.
    InsertSubscriber { subscriber_id: u128, row: SubscriptionRow },
    /// Store this token against this subscriber id.
    StoreToken { subscriber_id: u128, token: String },
    /// Send this e-mail.
    SendConfirmationEmail(ConfirmationEmail),
    /// Commit the transaction.
    CommitTransaction,
}

/// The outside work of a step, as values.
pub enum PlannedAction {
    BeginTransaction,
    InsertSubscriber { subscriber_id: u128, email: Seq<char>, name: Seq<char>, status: Seq<char> },
    StoreToken { subscriber_id: u128, token: Seq<char> },
    SendConfirmationEmail {
        recipient: Seq<char>,
        subject: Seq<char>,
        html_body: Seq<char>,
        text_body: Seq<char>,
    },
    CommitTransaction,
}

impl View for SubscribeAction {
    type V = PlannedAction;

    open spec fn view(&self) -> PlannedAction {
        match self {
            SubscribeAction::BeginTransaction => PlannedAction::BeginTransaction,
            SubscribeAction::InsertSubscriber { subscriber_id, row } => PlannedAction::InsertSubscriber {
                subscriber_id: *subscriber_id,
                email: row.email@,
                name: row.name@,
                status: row.status@,
            },
            SubscribeAction::StoreToken { subscriber_id, token } => PlannedAction::StoreToken {
                subscriber_id: *subscriber_id,
                token: token@,
            },
            SubscribeAction::SendConfirmationEmail(e) => PlannedAction::SendConfirmationEmail {
                recipient: e.recipient@,
                subject: e.subject@,
                html_body: e.html_body@,
                text_body: e.text_body@,
            },
            SubscribeAction::CommitTransaction => PlannedAction::CommitTransaction,
        }
    }
}

/// The action of the current step and the state it leaves, given the base
/// URL of the links, the id drawn for the subscriber and the token drawn for
/// it (each used only by its own step): the insert records the id, the token
/// step stores the token against that id and records it, and the e-mail
/// carries the link with the recorded token.
pub open spec fn action_for(
    s: SubscribeStateView,
    base_url: Seq<char>,
    drawn_id: u128,
    drawn_token: Seq<char>,
) -> (SubscribeStateView, PlannedAction) {
    match s.step {
        SubscribeStep::BeginTransaction => (s, PlannedAction::BeginTransaction),
        SubscribeStep::InsertSubscriber => (
            SubscribeStateView { subscriber_id: Some(drawn_id), ..s },
            PlannedAction::InsertSubscriber {
                subscriber_id: drawn_id,
                email: s.email,
                name: s.name,
                status: pending_confirmation(),
            },
        ),
        SubscribeStep::StoreToken => (
            SubscribeStateView { token: Some(drawn_token), ..s },
            PlannedAction::StoreToken { subscriber_id: s.subscriber_id->0, token: drawn_token },
        ),
        SubscribeStep::SendConfirmationEmail => (
            s,
            PlannedAction::SendConfirmationEmail {
                recipient: s.email,
                subject: confirmation_subject(),
                html_body: confirmation_html(confirmation_link(base_url, s.token->0)),
                text_body: confirmation_text(confirmation_link(base_url, s.token->0)),
            },
        ),
        SubscribeStep::CommitTransaction => (s, PlannedAction::CommitTransaction),
    }
}

/// The token drawn on reaching a state: the one recorded on reaching the
/// token step, none for the other steps.
pub open spec fn token_drawn(after: SubscribeStateView) -> Seq<char> {
    if after.step == SubscribeStep::StoreToken {
        after.token->0
    } else {
        Seq::empty()
    }
}

/// The state once its step succeeded and the flow moves to the next step,
/// before that step's data is chosen.
pub open spec fn advanced(s: SubscribeStateView) -> SubscribeStateView {
    SubscribeStateView { step: step_at(step_index(s.step) + 1), ..s }
}

/// Where a subscription stands once a step has run.
pub enum SubscribeProgress {
    /// Perform this action next, then go on from this state.
    Next(SubscribeState, SubscribeAction),
    /// All steps succeeded: answer `200 OK`.
    Finished,
    /// A step failed: answer with this error.
    Failed(SubscribeError),
}

/// Starts a subscription: the form is validated before anything else, so a
/// refused form is answered with a validation error and no outside step; an
/// accepted one gives the state at the first step and that step's action.
pub fn start_subscription(form: FormData) -> (r: Result<(SubscribeState, SubscribeAction), SubscribeError>)
    ensures
        match r {
            Ok((s, a)) => {
                &&& form_error(form) is None
                &&& a@ == PlannedAction::BeginTransaction
                &&& s@ == SubscribeStateView {
                    step: step_at(0),
                    name: form.name@,
                    email: form.email@,
                    subscriber_id: None,
                    token: None,
                }
            },
            Err(SubscribeError::ValidationError(m)) => form_error(form) == Some(m@),
            Err(_) => false,
        },
        r is Ok ==> form.email@.contains('@'),
        all_printable_ascii(form.name@) ==> (r is Ok <==> (name_is_acceptable(
            form.name@,
            form.name@.len(),
        ) && valid_email_address(form.email@))),
{
    match NewSubscriber::try_from(form) {
        Ok(s) => Ok(
            (
                SubscribeState {
                    new_subscriber: s,
                    step: SubscribeStep::BeginTransaction,
                    subscriber_id: None,
                    token: None,
                },
                SubscribeAction::BeginTransaction,
            ),
        ),
        Err(m) => Err(SubscribeError::from(m)),
    }
}

impl SubscribeState {
    #[verifier::type_invariant]
    spec fn is_consistent(self) -> bool {
        state_is_consistent(self@)
    }

    /// The step to perform.
    pub fn step(&self) -> (r: SubscribeStep)
        ensures
            r == self@.step,
    {
        self.step
    }

    /// Moves on once the current step's action ran, given its result:
    /// nothing, or the text of the outside error that made it fail. On
    /// success the next step's action comes with the state: `drawn_id` is the
    /// id drawn for the subscriber, used on reaching the insert only; on
    /// reaching the token step a fresh token is drawn.
    pub fn advance(self, result: Result<(), String>, base_url: &str, drawn_id: u128) -> (r:
        SubscribeProgress)
        ensures
            match outcome_after(self@.step, result) {
                SubscribeOutcome::Next(step) => r matches SubscribeProgress::Next(s, a) && {
                    &&& (s@, a@) == action_for(advanced(self@), base_url@, drawn_id, token_drawn(s@))
                    &&& s@.step == step
                    &&& step == SubscribeStep::StoreToken ==> is_subscription_token(s@.token->0)
                },
                SubscribeOutcome::Finished => r is Finished,
                SubscribeOutcome::Failed(e) => r == SubscribeProgress::Failed(e),
            },
    {
        proof {
            use_type_invariant(&self);
        }
        let SubscribeState { new_subscriber, step, subscriber_id, token } = self;
        match after_step(step, result) {
            SubscribeOutcome::Next(next) => {
                let (state, action) = prepare(
                    new_subscriber,
                    next,
                    subscriber_id,
                    token,
                    base_url,
                    drawn_id,
                );
                SubscribeProgress::Next(state, action)
            },
            SubscribeOutcome::Finished => SubscribeProgress::Finished,
            SubscribeOutcome::Failed(e) => SubscribeProgress::Failed(e),
        }
    }
}

/// Reaching `step`: chooses the data of its action (the id on reaching the
/// insert, a fresh token on reaching the token step) and gives the action.
fn prepare(
    new_subscriber: NewSubscriber,
    step: SubscribeStep,
    subscriber_id: Option<u128>,
    token: Option<String>,
    base_url: &str,
    drawn_id: u128,
) -> (r: (SubscribeState, SubscribeAction))
    requires
        step_index(step) >= 2 ==> subscriber_id is Some,
        step_index(step) >= 3 ==> token is Some && is_subscription_token(token->0@),
    ensures
        (r.0@, r.1@) == action_for(
            SubscribeStateView {
                step,
                name: new_subscriber.name@,
                email: new_subscriber.email@,
                subscriber_id,
                token: match token {
                    Some(t) => Some(t@),
                    None => None,
                },
            },
            base_url@,
            drawn_id,
            token_drawn(r.0@),
        ),
        step == SubscribeStep::StoreToken ==> r.0@.token is Some && is_subscription_token(
            r.0@.token->0,
        ),
{
    match step {
        SubscribeStep::BeginTransaction => (
            SubscribeState { new_subscriber, step, subscriber_id, token },
            SubscribeAction::BeginTransaction,
        ),
        SubscribeStep::InsertSubscriber => {
            let row = subscription_row(&new_subscriber);
            (
                SubscribeState { new_subscriber, step, subscriber_id: Some(drawn_id), token },
                SubscribeAction::InsertSubscriber { subscriber_id: drawn_id, row },
            )
        },
        SubscribeStep::StoreToken => {
            let id = subscriber_id.unwrap();
            let fresh = generate_subscription_token();
            let stored = fresh.clone();
            (
                SubscribeState { new_subscriber, step, subscriber_id, token: Some(fresh) },
                SubscribeAction::StoreToken { subscriber_id: id, token: stored },
            )
        },
        SubscribeStep::SendConfirmationEmail => {
            let email = confirmation_email(&new_subscriber, base_url, token.as_ref().unwrap().as_str());
            (
                SubscribeState { new_subscriber, step, subscriber_id, token },
                SubscribeAction::SendConfirmationEmail(email),
            )
        },
        SubscribeStep::CommitTransaction => (
            SubscribeState { new_subscriber, step, subscriber_id, token },
            SubscribeAction::CommitTransaction,
        ),
    }
}

/// The actions that follow state `s` in a run in which every step succeeds,
/// with `ids[k]` and `tokens[k]` the id and token drawn on the `k`-th move.
pub open spec fn planned_actions(
    s: SubscribeStateView,
    base_url: Seq<char>,
    ids: Seq<u128>,
    tokens: Seq<Seq<char>>,
) -> Seq<PlannedAction>
    decreases ids.len(),
{
    if ids.len() == 0 || tokens.len() == 0 || step_index(s.step) + 1 >= step_count() {
        Seq::empty()
    } else {
        let (after, action) = action_for(advanced(s), base_url, ids[0], tokens[0]);
        seq![action] + planned_actions(after, base_url, ids.drop_first(), tokens.drop_first())
    }
}

/// The consent flow: after opening the transaction, a successful
/// subscription inserts the subscriber under the id drawn for it with status
/// `pending_confirmation`, stores the token drawn for it against that same
/// id, e-mails the subscriber's address a link that carries that same token,
/// and commits.
pub proof fn lemma_token_is_stored_and_mailed(
    name: Seq<char>,
    email: Seq<char>,
    base_url: Seq<char>,
    ids: Seq<u128>,
    tokens: Seq<Seq<char>>,
)
    requires
        ids.len() == step_count() - 1,
        tokens.len() == step_count() - 1,
    ensures
        planned_actions(
            SubscribeStateView { step: step_at(0), name, email, subscriber_id: None, token: None },
            base_url,
            ids,
            tokens,
        ) == seq![
            PlannedAction::InsertSubscriber {
                subscriber_id: ids[0],
                email,
                name,
                status: pending_confirmation(),
            },
            PlannedAction::StoreToken { subscriber_id: ids[0], token: tokens[1] },
            PlannedAction::SendConfirmationEmail {
                recipient: email,
                subject: confirmation_subject(),
                html_body: confirmation_html(confirmation_link(base_url, tokens[1])),
                text_body: confirmation_text(confirmation_link(base_url, tokens[1])),
            },
            PlannedAction::CommitTransaction,
        ],
{
    let s0 = SubscribeStateView { step: step_at(0), name, email, subscriber_id: None, token: None };
    let s1 = action_for(advanced(s0), base_url, ids[0], tokens[0]).0;
    let s2 = action_for(advanced(s1), base_url, ids[1], tokens[1]).0;
    let s3 = action_for(advanced(s2), base_url, ids[2], tokens[2]).0;
    let s4 = action_for(advanced(s3), base_url, ids[3], tokens[3]).0;
    let i1 = ids.drop_first();
    let i2 = i1.drop_first();
    let i3 = i2.drop_first();
    let i4 = i3.drop_first();
    let t1 = tokens.drop_first();
    let t2 = t1.drop_first();
    let t3 = t2.drop_first();
    let t4 = t3.drop_first();
    assert(planned_actions(s4, base_url, i4, t4) == Seq::<PlannedAction>::empty());
    assert(planned_actions(s3, base_url, i3, t3) =~= seq![
        action_for(advanced(s3), base_url, i3[0], t3[0]).1,
    ]);
    assert(planned_actions(s2, base_url, i2, t2) =~= seq![
        action_for(advanced(s2), base_url, i2[0], t2[0]).1,
        action_for(advanced(s3), base_url, i3[0], t3[0]).1,
    ]);
    assert(planned_actions(s1, base_url, i1, t1) =~= seq![
        action_for(advanced(s1), base_url, i1[0], t1[0]).1,
        action_for(advanced(s2), base_url, i2[0], t2[0]).1,
        action_for(advanced(s3), base_url, i3[0], t3[0]).1,
    ]);
    assert(planned_actions(s0, base_url, ids, tokens) =~= seq![
        action_for(advanced(s0), base_url, ids[0], tokens[0]).1,
        action_for(advanced(s1), base_url, i1[0], t1[0]).1,
        action_for(advanced(s2), base_url, i2[0], t2[0]).1,
        action_for(advanced(s3), base_url, i3[0], t3[0]).1,
    ]);
}

} // verus!
