//! The subscriber's email address.

use crate::domain::verdict::{accept_or_reject, rejection};
use vstd::prelude::*;

verus! {

/// Whether the email grammar of the HTML standard, as the crate `validator`
/// implements it, accepts `s`.
pub uninterp spec fn email_grammar_accepts(s: Seq<char>) -> bool;

/// An `@` stands in `s` somewhere after the first character, so that the text
/// before the last `@` is not empty.
pub open spec fn has_local_part(s: Seq<char>) -> bool {
    exists|i: int| 0 < i < s.len() && #[trigger] s[i] == '@'
}

/// `validator::validate_email`. Trusted: the answer depends on the text alone,
/// and an accepted text holds an `@` with at least one character before its
/// last `@`, since a text without `@` is turned away at once and the part
/// before the last `@` must match a pattern that needs one character or more.
#[verifier::external_body]
fn validate_email(email: &str) -> (accepted: bool)
    ensures
        accepted == email_grammar_accepts(email@),
        accepted ==> has_local_part(email@),
{
    validator::validate_email(email)
}

/// An email address that the grammar has accepted. The text is kept exactly as
/// it was given and can only be read.
#[derive(Debug)]
pub struct SubscriberEmail(String);

impl View for SubscriberEmail {
    type V = Seq<char>;

    closed spec fn view(&self) -> Seq<char> {
        self.0@
    }
}

/// The message that rejects `input` as an email address.
pub open spec fn email_rejection(input: Seq<char>) -> Seq<char> {
    rejection(input, " is not a valid subscriber email."@)
}

/// What parsing `input` as an email address comes to: the address with the
/// very same text where the grammar accepts it, which it does only for a text
/// with a local part and an `@`, and the rejection message where it does not.
pub open spec fn email_parses_to(input: Seq<char>, res: Result<SubscriberEmail, String>) -> bool {
    if email_grammar_accepts(input) {
        res is Ok && res->Ok_0@ == input && has_local_part(input)
    } else {
        res is Err && res->Err_0@ == email_rejection(input)
    }
}

impl SubscriberEmail {
    #[verifier::type_invariant]
    spec fn holds_accepted_address(self) -> bool {
        email_grammar_accepts(self.0@) && has_local_part(self.0@)
    }

    /// Admits `email` as it stands, or rejects it with a message that quotes it.
    pub fn parse(email: String) -> (res: Result<SubscriberEmail, String>)
        ensures
            email_parses_to(email@, res),
    {
        let accepted = validate_email(email.as_str());
        match accept_or_reject(email, accepted, " is not a valid subscriber email.") {
            Ok(email) => Ok(SubscriberEmail(email)),
            Err(message) => Err(message),
        }
    }
}

impl AsRef<str> for SubscriberEmail {
    /// The text of the address, which is what was parsed and is known to be
    /// accepted by the grammar.
    fn as_ref(&self) -> (text: &str)
        ensures
            text@ == self@,
            email_grammar_accepts(text@),
            has_local_part(text@),
    {
        proof {
            use_type_invariant(self);
        }
        self.0.as_str()
    }
}

/// Two runs of the parser on one input agree: both succeed or both fail, with
/// the same stored text or the same message.
pub proof fn lemma_email_parse_is_deterministic(
    input: Seq<char>,
    first: Result<SubscriberEmail, String>,
    second: Result<SubscriberEmail, String>,
)
    requires
        email_parses_to(input, first),
        email_parses_to(input, second),
    ensures
        first is Ok <==> second is Ok,
        first is Ok ==> first->Ok_0@ == second->Ok_0@,
        first is Err ==> first->Err_0@ == second->Err_0@,
{
}

/// A parsed address holds the input and nothing else: no character is added,
/// dropped or changed on the way in.
pub proof fn lemma_email_parse_keeps_text(input: Seq<char>, res: Result<SubscriberEmail, String>)
    requires
        email_parses_to(input, res),
        res is Ok,
    ensures
        res->Ok_0@ == input,
{
}

/// Parsing succeeds on every text that the grammar accepts, and on no other.
pub proof fn lemma_email_parse_succeeds_when_accepted(
    input: Seq<char>,
    res: Result<SubscriberEmail, String>,
)
    requires
        email_parses_to(input, res),
    ensures
        res is Ok <==> email_grammar_accepts(input),
{
}

/// No text without a local part is parsed into an address; the message then
/// quotes the text.
pub proof fn lemma_email_without_local_part_is_rejected(
    input: Seq<char>,
    res: Result<SubscriberEmail, String>,
)
    requires
        email_parses_to(input, res),
        !has_local_part(input),
    ensures
        res is Err,
        res->Err_0@ == email_rejection(input),
{
}

/// A text without any `@`, the empty text among them, has no local part.
pub proof fn lemma_no_separator_no_local_part(s: Seq<char>)
    requires
        !s.contains('@'),
    ensures
        !has_local_part(s),
{
}

} // verus!
