//! The ticket title and the conversion that validates it.

use crate::decimal::{decimal_text, render_decimal};
use vstd::prelude::*;

verus! {

/// The message that refuses an empty title.
pub open spec fn empty_message() -> Seq<char> {
    "The title cannot be empty"@
}

/// The message that refuses a title of more than `MAX_LENGTH` characters. It
/// spells the bound out in decimal notation.
pub open spec fn too_long_message() -> Seq<char> {
    "The title cannot be longer than "@ + decimal_text(TicketTitle::MAX_LENGTH as nat)
        + " characters"@
}

/// What the conversion owes for the text `candidate`: the text itself where
/// it is a title, else the message that says why it is none. An empty text is
/// refused as empty, whatever else could be said of it.
pub open spec fn parse_outcome(candidate: Seq<char>) -> Result<Seq<char>, Seq<char>> {
    if candidate.len() == 0 {
        Err(empty_message())
    } else if candidate.len() > TicketTitle::MAX_LENGTH {
        Err(too_long_message())
    } else {
        Ok(candidate)
    }
}

/// The text that a result of the conversion carries: the title's on success,
/// the message on failure.
pub open spec fn outcome_text(outcome: Result<TicketTitle, ParseTitleError>) -> Result<
    Seq<char>,
    Seq<char>,
> {
    match outcome {
        Ok(title) => Ok(title@),
        Err(error) => Err(error@),
    }
}

/// A ticket's title: a text of at least one and at most `MAX_LENGTH`
/// characters. Its view is that text.
#[derive(Debug)]
pub struct TicketTitle(String);

/// Why a text is no title. Its view is the message.
#[derive(Debug)]
pub struct ParseTitleError {
    message: String,
}

impl View for TicketTitle {
    type V = Seq<char>;

    closed spec fn view(&self) -> Seq<char> {
        self.0@
    }
}

impl View for ParseTitleError {
    type V = Seq<char>;

    closed spec fn view(&self) -> Seq<char> {
        self.message@
    }
}

impl ParseTitleError {
    #[verifier::type_invariant]
    spec fn well_formed(&self) -> bool {
        self.message@ == empty_message() || self.message@ == too_long_message()
    }

    /// The error for an empty title.
    fn empty() -> (error: ParseTitleError)
        ensures
            error@ == empty_message(),
    {
        ParseTitleError { message: String::from_str("The title cannot be empty") }
    }

    /// The error for a title that is too long.
    fn too_long() -> (error: ParseTitleError)
        ensures
            error@ == too_long_message(),
    {
        let bound: String = render_decimal(TicketTitle::MAX_LENGTH);
        let message: String = String::from_str("The title cannot be longer than ").concat(
            bound.as_str(),
        ).concat(" characters");
        ParseTitleError { message }
    }

    /// The message, which is one of the two that the conversion gives.
    pub fn message(&self) -> (text: &str)
        ensures
            text@ == self@,
            self@ == empty_message() || self@ == too_long_message(),
    {
        proof {
            use_type_invariant(self);
        }
        self.message.as_str()
    }

    /// The error as text to show: the message and nothing else.
    pub fn to_string(&self) -> (text: String)
        ensures
            text@ == self@,
    {
        self.message.clone()
    }
}

impl TicketTitle {
    /// The most characters a title may hold.
    pub const MAX_LENGTH: usize = 50;

    #[verifier::type_invariant]
    spec fn well_formed(&self) -> bool {
        1 <= self.0@.len() <= TicketTitle::MAX_LENGTH
    }

    /// The title's text, which has between one and `MAX_LENGTH` characters.
    pub fn as_str(&self) -> (text: &str)
        ensures
            text@ == self@,
            1 <= self@.len() <= TicketTitle::MAX_LENGTH,
    {
        proof {
            use_type_invariant(self);
        }
        self.0.as_str()
    }
}

impl<'a> TryFrom<&'a str> for TicketTitle {
    type Error = ParseTitleError;

    /// Validates `value`: the title with that very text where it has between
    /// one and `MAX_LENGTH` characters, else the error that says which bound
    /// it breaks.
    fn try_from(value: &'a str) -> (outcome: Result<TicketTitle, ParseTitleError>)
        ensures
            outcome_text(outcome) == parse_outcome(value@),
    {
        let length: usize = value.unicode_len();
        if length == 0 {
            Err(ParseTitleError::empty())
        } else if length > TicketTitle::MAX_LENGTH {
            Err(ParseTitleError::too_long())
        } else {
            Ok(TicketTitle(String::from_str(value)))
        }
    }
}

/// Two strings of the same characters need not be the same value in a
/// specification, so no spec function can name the very value that `try_from`
/// returns. `try_from_spec` is some result that carries the owed text, and
/// `try_from` states its result through views in its own `ensures`.
impl<'a> vstd::std_specs::convert::TryFromSpecImpl<&'a str> for TicketTitle {
    open spec fn obeys_try_from_spec() -> bool {
        false
    }

    open spec fn try_from_spec(value: &'a str) -> Result<TicketTitle, ParseTitleError> {
        choose|outcome: Result<TicketTitle, ParseTitleError>|
            outcome_text(outcome) == parse_outcome(value@)
    }
}

impl TryFrom<String> for TicketTitle {
    type Error = ParseTitleError;

    /// Validates an owned text as `try_from` does a borrowed one, by handing
    /// it over to that conversion.
    fn try_from(value: String) -> (outcome: Result<TicketTitle, ParseTitleError>)
        ensures
            outcome_text(outcome) == parse_outcome(value@),
    {
        value.as_str().try_into()
    }
}

/// As for a borrowed text: `try_from_spec` is some result that carries the
/// owed text, and `try_from` states its result through views.
impl vstd::std_specs::convert::TryFromSpecImpl<String> for TicketTitle {
    open spec fn obeys_try_from_spec() -> bool {
        false
    }

    open spec fn try_from_spec(value: String) -> Result<TicketTitle, ParseTitleError> {
        choose|outcome: Result<TicketTitle, ParseTitleError>|
            outcome_text(outcome) == parse_outcome(value@)
    }
}

impl Clone for TicketTitle {
    /// An independent copy with the same text.
    fn clone(&self) -> (copy: TicketTitle)
        ensures
            copy@ == self@,
    {
        proof {
            use_type_invariant(self);
        }
        TicketTitle(self.0.clone())
    }
}

impl PartialEq for TicketTitle {
    /// Whether the two titles have the same text, as `eq_spec` says.
    fn eq(&self, other: &TicketTitle) -> (equal: bool) {
        self.0 == other.0
    }
}

impl vstd::std_specs::cmp::PartialEqSpecImpl for TicketTitle {
    open spec fn obeys_eq_spec() -> bool {
        true
    }

    /// Two titles are equal exactly when their texts are.
    open spec fn eq_spec(&self, other: &TicketTitle) -> bool {
        self@ == other@
    }
}

/// The message for a title that is too long reads with the bound written out.
pub proof fn lemma_too_long_message_reads()
    ensures
        too_long_message() == "The title cannot be longer than 50 characters"@,
{
    reveal_strlit("The title cannot be longer than ");
    reveal_strlit(" characters");
    reveal_strlit("The title cannot be longer than 50 characters");
    reveal_with_fuel(decimal_text, 3);
    assert(decimal_text(50) =~= seq!['5', '0']);
    assert(too_long_message() =~= "The title cannot be longer than 50 characters"@);
}

/// An empty text is refused as empty.
pub proof fn lemma_empty_text_is_refused(
    value: &str,
    outcome: Result<TicketTitle, ParseTitleError>,
)
    requires
        value@.len() == 0,
        call_ensures(<TicketTitle as TryFrom<&str>>::try_from, (value,), outcome),
    ensures
        outcome matches Err(error) && error@ == "The title cannot be empty"@,
{
}

/// Every text of one to fifty characters is accepted, and the title holds it
/// unchanged.
pub proof fn lemma_text_within_bounds_is_accepted(
    value: &str,
    outcome: Result<TicketTitle, ParseTitleError>,
)
    requires
        1 <= value@.len() <= 50,
        call_ensures(<TicketTitle as TryFrom<&str>>::try_from, (value,), outcome),
    ensures
        outcome matches Ok(title) && title@ == value@,
{
}

/// Every text of more than fifty characters is refused, with the message that
/// names the bound.
pub proof fn lemma_text_over_bound_is_refused(
    value: &str,
    outcome: Result<TicketTitle, ParseTitleError>,
)
    requires
        value@.len() > 50,
        call_ensures(<TicketTitle as TryFrom<&str>>::try_from, (value,), outcome),
    ensures
        outcome matches Err(error) && error@
            == "The title cannot be longer than 50 characters"@,
{
    lemma_too_long_message_reads();
}

/// The conversion from an owned text and the one from a borrowed text agree:
/// on the same characters both succeed or both fail, with the same title text
/// or the same message.
pub proof fn lemma_owned_and_borrowed_agree(
    borrowed: &str,
    owned: String,
    from_borrowed: Result<TicketTitle, ParseTitleError>,
    from_owned: Result<TicketTitle, ParseTitleError>,
)
    requires
        owned@ == borrowed@,
        call_ensures(<TicketTitle as TryFrom<&str>>::try_from, (borrowed,), from_borrowed),
        call_ensures(<TicketTitle as TryFrom<String>>::try_from, (owned,), from_owned),
    ensures
        outcome_text(from_owned) == outcome_text(from_borrowed),
{
}

} // verus!
