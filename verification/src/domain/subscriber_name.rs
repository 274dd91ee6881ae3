//! The subscriber's display name.

use crate::domain::verdict::{accept_or_reject, rejection};
use crate::domain::whitespace::{all_whitespace, is_blank};
use unicode_segmentation::UnicodeSegmentation;
use vstd::prelude::*;

verus! {

/// The characters that no name may hold.
pub open spec fn forbidden_chars() -> Seq<char> {
    seq!['/', '(', ')', '"', '<', '>', '\\', '{', '}']
}

/// `c` is one of the forbidden characters.
pub open spec fn is_forbidden(c: char) -> bool {
    forbidden_chars().contains(c)
}

/// Some scalar value of `s` is a forbidden character.
pub open spec fn has_forbidden_char(s: Seq<char>) -> bool {
    exists|i: int| 0 <= i < s.len() && is_forbidden(#[trigger] s[i])
}

/// Whether `c` is one of the forbidden characters.
pub fn is_forbidden_char(c: char) -> (forbidden: bool)
    ensures
        forbidden == is_forbidden(c),
{
    proof {
        let all = forbidden_chars();
        assert(all[0] == '/' && all[1] == '(' && all[2] == ')' && all[3] == '"' && all[4] == '<');
        assert(all[5] == '>' && all[6] == '\\' && all[7] == '{' && all[8] == '}');
    }
    match c {
        '/' | '(' | ')' | '"' | '<' | '>' | '\\' | '{' | '}' => true,
        _ => false,
    }
}

/// Whether `s` holds a forbidden character anywhere.
pub fn contains_forbidden_char(s: &str) -> (found: bool)
    ensures
        found == has_forbidden_char(s@),
{
    for c in it: s.chars()
        invariant
            it.seq() == s@,
            forall|i: int| 0 <= i < it.index() ==> !is_forbidden(#[trigger] s@[i]),
    {
        if is_forbidden_char(c) {
            return true;
        }
    }
    false
}

/// The longest name accepted, counted in grapheme clusters.
pub const MAX_GRAPHEMES: usize = 256;

/// The number of extended grapheme clusters that Unicode's segmentation
/// rules find in `s`.
pub uninterp spec fn grapheme_count(s: Seq<char>) -> nat;

/// `UnicodeSegmentation::graphemes` of the crate `unicode-segmentation`, with
/// extended clusters, counted. Trusted: the count depends on the text alone,
/// and it is at most the number of scalar values in the text, because every
/// cluster covers at least one of them and no two clusters overlap.
#[verifier::external_body]
fn count_graphemes(s: &str) -> (count: usize)
    ensures
        count == grapheme_count(s@),
        count <= s@.len(),
{
    UnicodeSegmentation::graphemes(s, true).count()
}

/// Whether a name passes, given what the three checks found in it: it must not
/// be blank, must not exceed the length limit, and must hold no forbidden
/// character.
pub open spec fn acceptable(blank: bool, graphemes: nat, forbidden: bool) -> bool {
    !blank && graphemes <= MAX_GRAPHEMES && !forbidden
}

/// The rule for a name: not blank, at most [`MAX_GRAPHEMES`] grapheme
/// clusters long, and free of forbidden characters.
pub open spec fn is_valid_name(s: Seq<char>) -> bool {
    acceptable(all_whitespace(s), grapheme_count(s), has_forbidden_char(s))
}

/// What can be seen of a rejected name without counting grapheme clusters:
/// it is blank, or holds a forbidden character, or has more scalar values than
/// the limit allows clusters.
pub open spec fn has_visible_defect(s: Seq<char>) -> bool {
    all_whitespace(s) || has_forbidden_char(s) || s.len() > MAX_GRAPHEMES
}

/// Decides on a name from the findings of the three checks.
pub fn name_is_acceptable(blank: bool, graphemes: usize, forbidden: bool) -> (ok: bool)
    ensures
        ok == acceptable(blank, graphemes as nat, forbidden),
{
    !(blank || graphemes > MAX_GRAPHEMES || forbidden)
}

/// Runs the three checks on `name`, each on the whole untrimmed text, and
/// decides from their findings.
pub fn validate_name(name: &String) -> (valid: bool)
    ensures
        valid == is_valid_name(name@),
        !valid ==> has_visible_defect(name@),
{
    let is_empty_or_whitespace = is_blank(name.as_str());
    let graphemes = count_graphemes(name.as_str());
    let contains_forbidden = contains_forbidden_char(name.as_str());
    name_is_acceptable(is_empty_or_whitespace, graphemes, contains_forbidden)
}

/// A display name that has passed [`validate_name`]. The text is kept exactly
/// as it was given and can only be read.
#[derive(Debug)]
pub struct SubscriberName(String);

impl View for SubscriberName {
    type V = Seq<char>;

    closed spec fn view(&self) -> Seq<char> {
        self.0@
    }
}

/// The message that rejects `input` as a name.
pub open spec fn name_rejection(input: Seq<char>) -> Seq<char> {
    rejection(input, " is not a valid subscriber name."@)
}

/// What parsing `input` as a name comes to: the name with the very same text
/// where the rule admits it, and the rejection message where it does not,
/// which happens only to a text with a visible defect.
pub open spec fn name_parses_to(input: Seq<char>, res: Result<SubscriberName, String>) -> bool {
    if is_valid_name(input) {
        res is Ok && res->Ok_0@ == input
    } else {
        res is Err && res->Err_0@ == name_rejection(input) && has_visible_defect(input)
    }
}

impl SubscriberName {
    #[verifier::type_invariant]
    spec fn holds_valid_name(self) -> bool {
        is_valid_name(self.0@)
    }

    /// Admits `name` as it stands, or rejects it with a message that quotes it.
    pub fn parse(name: String) -> (res: Result<SubscriberName, String>)
        ensures
            name_parses_to(name@, res),
    {
        let valid = validate_name(&name);
        match accept_or_reject(name, valid, " is not a valid subscriber name.") {
            Ok(name) => Ok(SubscriberName(name)),
            Err(message) => Err(message),
        }
    }
}

impl AsRef<str> for SubscriberName {
    /// The text of the name, which is what was parsed and is known to be valid.
    fn as_ref(&self) -> (text: &str)
        ensures
            text@ == self@,
            is_valid_name(text@),
    {
        proof {
            use_type_invariant(self);
        }
        self.0.as_str()
    }
}

/// Two runs of the parser on one input agree: both succeed or both fail, with
/// the same stored text or the same message.
pub proof fn lemma_name_parse_is_deterministic(
    input: Seq<char>,
    first: Result<SubscriberName, String>,
    second: Result<SubscriberName, String>,
)
    requires
        name_parses_to(input, first),
        name_parses_to(input, second),
    ensures
        first is Ok <==> second is Ok,
        first is Ok ==> first->Ok_0@ == second->Ok_0@,
        first is Err ==> first->Err_0@ == second->Err_0@,
{
}

/// A parsed name holds the input and nothing else: it is neither trimmed nor
/// changed in any other way.
pub proof fn lemma_name_parse_keeps_text(input: Seq<char>, res: Result<SubscriberName, String>)
    requires
        name_parses_to(input, res),
        res is Ok,
    ensures
        res->Ok_0@ == input,
{
}

/// A text that is not blank, holds no forbidden character and has no more
/// scalar values than the limit allows grapheme clusters is always parsed into
/// a name, since it cannot have more clusters than scalar values.
pub proof fn lemma_short_plain_name_is_accepted(
    input: Seq<char>,
    res: Result<SubscriberName, String>,
)
    requires
        name_parses_to(input, res),
        !has_visible_defect(input),
    ensures
        res is Ok,
        res->Ok_0@ == input,
{
}

/// A text of nothing but whitespace, the empty text among them, is no name.
pub proof fn lemma_blank_name_is_rejected(input: Seq<char>)
    requires
        all_whitespace(input),
    ensures
        !is_valid_name(input),
{
}

/// One forbidden character anywhere makes a text no name, whatever else it
/// holds.
pub proof fn lemma_forbidden_char_is_rejected(input: Seq<char>, at: int)
    requires
        0 <= at < input.len(),
        is_forbidden(input[at]),
    ensures
        !is_valid_name(input),
{
}

/// No forbidden character is a name by itself.
pub proof fn lemma_lone_forbidden_char_is_rejected(c: char)
    requires
        is_forbidden(c),
    ensures
        !is_valid_name(seq![c]),
{
    lemma_forbidden_char_is_rejected(seq![c], 0);
}

/// The length limit is inclusive: with nothing else wrong, a name passes
/// exactly when it has at most [`MAX_GRAPHEMES`] grapheme clusters.
pub proof fn lemma_length_limit_is_inclusive(input: Seq<char>)
    requires
        !all_whitespace(input),
        !has_forbidden_char(input),
    ensures
        is_valid_name(input) <==> grapheme_count(input) <= MAX_GRAPHEMES,
{
}

} // verus!
