use vstd::prelude::*;

use crate::subscribe::{STATUS_BAD_REQUEST, STATUS_INTERNAL_SERVER_ERROR, STATUS_OK, STATUS_UNAUTHORIZED};

verus! {

/// The query of a confirmation link.
pub struct Parameters {
    pub subscription_token: String,
}

/// What looking a subscription token up in the database gave.
#[derive(Debug, Clone, Copy, PartialEq, Eq, Structural)]
pub enum TokenLookup {
    /// The query failed.
    QueryFailed,
    /// No subscriber holds the token.
    NotFound,
    /// The subscriber with this id holds the token.
    Found(u128),
}

/// What the confirmation endpoint does next.
#[derive(Debug, Clone, Copy, PartialEq, Eq, Structural)]
pub enum ConfirmAction {
    /// Mark the subscriber with this id as confirmed.
    MarkConfirmed(u128),
    /// Answer with this HTTP status.
    Respond(u16),
}

/// A failed lookup is a bad request, an unknown token is unauthorized, and a
/// known one has its subscriber marked as confirmed.
pub open spec fn action_after_lookup(lookup: TokenLookup) -> ConfirmAction {
    match lookup {
        TokenLookup::QueryFailed => ConfirmAction::Respond(STATUS_BAD_REQUEST),
        TokenLookup::NotFound => ConfirmAction::Respond(STATUS_UNAUTHORIZED),
        TokenLookup::Found(id) => ConfirmAction::MarkConfirmed(id),
    }
}

/// Decides what follows the lookup of a token.
pub fn after_lookup(lookup: TokenLookup) -> (r: ConfirmAction)
    ensures
        r == action_after_lookup(lookup),
{
    match lookup {
        TokenLookup::QueryFailed => ConfirmAction::Respond(STATUS_BAD_REQUEST),
        TokenLookup::NotFound => ConfirmAction::Respond(STATUS_UNAUTHORIZED),
        TokenLookup::Found(id) => ConfirmAction::MarkConfirmed(id),
    }
}

/// The status that confirming gives a subscriber.
pub open spec fn confirmed() -> Seq<char> {
    "confirmed"@
}

/// The status that a confirmed subscriber is marked with.
pub fn confirmed_status() -> (r: &'static str)
    ensures
        r@ == confirmed(),
{
    "confirmed"
}

/// The status once the subscriber was (`succeeded`) or could not be marked
/// as confirmed.
pub fn after_marking(succeeded: bool) -> (r: u16)
    ensures
        r == (if succeeded {
            STATUS_OK
        } else {
            STATUS_INTERNAL_SERVER_ERROR
        }),
{
    if succeeded {
        STATUS_OK
    } else {
        STATUS_INTERNAL_SERVER_ERROR
    }
}

/// The status that a confirmation request is answered with, given the lookup
/// and, when a subscriber was marked, whether that succeeded.
pub open spec fn confirm_status(lookup: TokenLookup, marked: bool) -> u16 {
    match action_after_lookup(lookup) {
        ConfirmAction::Respond(status) => status,
        ConfirmAction::MarkConfirmed(_) => if marked {
            STATUS_OK
        } else {
            STATUS_INTERNAL_SERVER_ERROR
        },
    }
}

/// Only a token that some subscriber holds can confirm, and only that
/// subscriber: the answer is `200 OK` exactly when the token was found and
/// the subscriber marked; an unknown token gets `401`, a failed query `400`.
pub proof fn lemma_confirmation_needs_known_token(lookup: TokenLookup, marked: bool)
    ensures
        confirm_status(lookup, marked) == STATUS_OK <==> (lookup is Found && marked),
        action_after_lookup(lookup) matches ConfirmAction::MarkConfirmed(id) ==> lookup
            == TokenLookup::Found(id),
        lookup is NotFound ==> confirm_status(lookup, marked) == STATUS_UNAUTHORIZED,
        lookup is QueryFailed ==> confirm_status(lookup, marked) == STATUS_BAD_REQUEST,
{
}

} // verus!
