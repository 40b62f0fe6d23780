use vstd::prelude::*;

use unicode_segmentation::UnicodeSegmentation;
use validator::ValidateEmail;

use crate::text::{all_white_space, is_blank, is_white_space};

verus! {

/// How many extended grapheme clusters (UAX #29) `s` is made of, as
/// `UnicodeSegmentation::graphemes(s, true).count()` reports it.
pub uninterp spec fn grapheme_count(s: Seq<char>) -> nat;

/// Whether `ValidateEmail::validate_email` accepts `s` (the HTML5 definition of
/// a valid e-mail address, with internationalised domains).
pub uninterp spec fn valid_email_address(s: Seq<char>) -> bool;

/// All characters of `s` are printable ASCII (`' '` to `'~'`).
pub open spec fn all_printable_ascii(s: Seq<char>) -> bool {
    forall|i: int| 0 <= i < s.len() ==> 0x20 <= (#[trigger] s[i] as u32) <= 0x7e
}

/// Calls `graphemes(true).count()` of `unicode_segmentation`. The result is
/// named `grapheme_count`. Each cluster is a non-empty run of characters, so
/// there are at most as many clusters as characters; between two printable
/// ASCII characters UAX #29 always breaks, so a string of those has one
/// cluster per character. Nothing more is said of other strings.
#[verifier::external_body]
fn count_graphemes(s: &str) -> (n: usize)
    ensures
        n == grapheme_count(s@),
        n <= s@.len(),
        all_printable_ascii(s@) ==> n == s@.len(),
{
    s.graphemes(true).count()
}

/// Calls `ValidateEmail::validate_email` of `validator` on a `String`. The
/// result is named `valid_email_address`; its source rejects the empty
/// string and any string without an `@` before it looks further.
#[verifier::external_body]
fn check_email(s: &String) -> (r: bool)
    ensures
        r == valid_email_address(s@),
        r ==> s@.contains('@'),
{
    s.validate_email()
}

/// The characters that a subscriber's name may not hold.
pub open spec fn is_forbidden_name_char(c: char) -> bool {
    c == '/' || c == '(' || c == ')' || c == '"' || c == '<' || c == '>'
}

/// `s` holds one of the characters that a name may not hold.
pub open spec fn has_forbidden_name_char(s: Seq<char>) -> bool {
    exists|i: int| 0 <= i < s.len() && is_forbidden_name_char(#[trigger] s[i])
}

/// The longest name allowed, in grapheme clusters.
pub const MAX_NAME_GRAPHEMES: usize = 256;

/// A name is accepted when it is not empty nor white space only, is at most
/// 256 grapheme clusters long (its count given as `graphemes`), and holds
/// none of `/ ( ) " < >`.
pub open spec fn name_is_acceptable(name: Seq<char>, graphemes: nat) -> bool {
    &&& !all_white_space(name)
    &&& graphemes <= MAX_NAME_GRAPHEMES
    &&& !has_forbidden_name_char(name)
}

/// A name is accepted exactly when some character of it is not white space,
/// it is at most 256 grapheme clusters long, and none of its characters is
/// one of `/ ( ) " < >`; any other character, such as an apostrophe, is
/// allowed.
pub proof fn lemma_name_acceptance(name: Seq<char>, graphemes: nat)
    ensures
        name_is_acceptable(name, graphemes) <==> {
            &&& exists|i: int| 0 <= i < name.len() && !is_white_space(#[trigger] name[i])
            &&& graphemes <= 256
            &&& forall|i: int|
                0 <= i < name.len() ==> {
                    let c = #[trigger] name[i];
                    c != '/' && c != '(' && c != ')' && c != '"' && c != '<' && c != '>'
                }
        },
{
    if name_is_acceptable(name, graphemes) {
        assert forall|i: int| 0 <= i < name.len() implies {
            let c = #[trigger] name[i];
            c != '/' && c != '(' && c != ')' && c != '"' && c != '<' && c != '>'
        } by {
            if is_forbidden_name_char(name[i]) {
                assert(has_forbidden_name_char(name));
            }
        }
    }
}

/// `<text> is invalid name`.
pub open spec fn invalid_name_message(name: Seq<char>) -> Seq<char> {
    name + seq![' ', 'i', 's', ' ', 'i', 'n', 'v', 'a', 'l', 'i', 'd', ' ', 'n', 'a', 'm', 'e']
}

/// `<text> is invalid email`.
pub open spec fn invalid_email_message(email: Seq<char>) -> Seq<char> {
    email + seq![' ', 'i', 's', ' ', 'i', 'n', 'v', 'a', 'l', 'i', 'd', ' ', 'e', 'm', 'a', 'i', 'l']
}

fn contains_forbidden_name_char(s: &str) -> (r: bool)
    ensures
        r == has_forbidden_name_char(s@),
{
    for c in it: s.chars()
        invariant
            it.seq() == s@,
            forall|j: int| 0 <= j < it.index() ==> !is_forbidden_name_char(#[trigger] s@[j]),
    {
        if c == '/' || c == '(' || c == ')' || c == '"' || c == '<' || c == '>' {
            assert(is_forbidden_name_char(s@[it.index() as int]));
            return true;
        }
    }
    false
}

/// A subscriber's name that passed validation; `parse` is the only way to
/// make one.
#[derive(Debug)]
pub struct SubscriberName(String);

impl View for SubscriberName {
    type V = Seq<char>;

    closed spec fn view(&self) -> Seq<char> {
        self.0@
    }
}

impl SubscriberName {
    /// Every name held is acceptable.
    #[verifier::type_invariant]
    spec fn is_valid(self) -> bool {
        name_is_acceptable(self.0@, grapheme_count(self.0@))
    }

    /// Decides on `name` given its number of grapheme clusters: nothing when
    /// acceptable, else the message `<name> is invalid name`.
    pub fn validate_counted(name: &str, graphemes: usize) -> (r: Result<(), String>)
        ensures
            match r {
                Ok(_) => name_is_acceptable(name@, graphemes as nat),
                Err(m) => !name_is_acceptable(name@, graphemes as nat) && m@
                    == invalid_name_message(name@),
            },
    {
        let is_empty_or_whitespace = is_blank(name);
        let is_too_long = graphemes > MAX_NAME_GRAPHEMES;
        let contains_forbidden_characters = contains_forbidden_name_char(name);
        if is_empty_or_whitespace || is_too_long || contains_forbidden_characters {
            let mut message = String::from_str(name);
            message.append(" is invalid name");
            proof {
                reveal_strlit(" is invalid name");
                assert(message@ =~= invalid_name_message(name@));
            }
            Err(message)
        } else {
            Ok(())
        }
    }

    pub fn parse(name: String) -> (r: Result<SubscriberName, String>)
        ensures
            match r {
                Ok(n) => name_is_acceptable(name@, grapheme_count(name@)) && n@ == name@,
                Err(m) => !name_is_acceptable(name@, grapheme_count(name@)) && m@
                    == invalid_name_message(name@),
            },
            all_printable_ascii(name@) ==> (r is Ok <==> name_is_acceptable(name@, name@.len())),
    {
        let graphemes = count_graphemes(name.as_str());
        match SubscriberName::validate_counted(name.as_str(), graphemes) {
            Ok(_) => Ok(SubscriberName(name)),
            Err(m) => Err(m),
        }
    }

    /// The validated name, which is acceptable.
    pub fn as_ref(&self) -> (r: &str)
        ensures
            r@ == self@,
            name_is_acceptable(r@, grapheme_count(r@)),
    {
        proof {
            use_type_invariant(self);
        }
        self.0.as_str()
    }
}

/// A subscriber's e-mail address that passed validation; `parse` is the only
/// way to make one.
#[derive(Debug)]
pub struct SubscriberEmail(String);

impl View for SubscriberEmail {
    type V = Seq<char>;

    closed spec fn view(&self) -> Seq<char> {
        self.0@
    }
}

impl SubscriberEmail {
    /// Every address held passed the e-mail check.
    #[verifier::type_invariant]
    spec fn is_valid(self) -> bool {
        valid_email_address(self.0@)
    }

    /// Decides on `email` given `valid`, the verdict of the e-mail check on
    /// it: nothing when valid, else the message `<email> is invalid email`.
    pub fn validate_verdict(email: &str, valid: bool) -> (r: Result<(), String>)
        ensures
            match r {
                Ok(_) => valid,
                Err(m) => !valid && m@ == invalid_email_message(email@),
            },
    {
        if valid {
            Ok(())
        } else {
            let mut message = String::from_str(email);
            message.append(" is invalid email");
            proof {
                reveal_strlit(" is invalid email");
                assert(message@ =~= invalid_email_message(email@));
            }
            Err(message)
        }
    }

    pub fn parse(email: String) -> (r: Result<SubscriberEmail, String>)
        ensures
            match r {
                Ok(e) => valid_email_address(email@) && e@ == email@,
                Err(m) => !valid_email_address(email@) && m@ == invalid_email_message(email@),
            },
            r is Ok ==> email@.contains('@'),
    {
        let valid = check_email(&email);
        match SubscriberEmail::validate_verdict(email.as_str(), valid) {
            Ok(_) => Ok(SubscriberEmail(email)),
            Err(m) => Err(m),
        }
    }

    /// The validated address, which passed the e-mail check.
    pub fn as_ref(&self) -> (r: &str)
        ensures
            r@ == self@,
            valid_email_address(r@),
    {
        proof {
            use_type_invariant(self);
        }
        self.0.as_str()
    }
}

/// A subscriber whose name and address both passed validation.
pub struct NewSubscriber {
    pub email: SubscriberEmail,
    pub name: SubscriberName,
}

} // verus!
