//! Reading the suggestion out of the completion service's answer.

use crate::json::{lemma_get_skips_other_keys, parse_json, parsed_json, Json, JsonValue};
use crate::text::{trim, trimmed};
use vstd::prelude::*;

verus! {

/// The key of the answer's list of choices.
pub const CHOICES: &'static str = "choices";

/// The key of a choice's message.
pub const MESSAGE: &'static str = "message";

/// The key of a message's content.
pub const CONTENT: &'static str = "content";

/// What is said where the choices are missing.
pub const MISSING_CHOICES: &'static str = "Missing choices field";

/// What is said where the suggestion text is missing.
pub const MISSING_SUGGESTION_TEXT: &'static str = "Missing suggestion text";

/// Why an answer that is JSON yields no suggestion.
#[derive(Debug, Clone, Copy, PartialEq, Eq, Structural)]
pub enum SuggestionError {
    /// The answer has no `choices` array, or an empty one.
    MissingChoices,
    /// The first choice has no `message.content` that is a string.
    MissingSuggestionText,
}

impl SuggestionError {
    /// The characters of the message that describes `self`.
    pub open spec fn message_text(self) -> Seq<char> {
        match self {
            SuggestionError::MissingChoices => MISSING_CHOICES@,
            SuggestionError::MissingSuggestionText => MISSING_SUGGESTION_TEXT@,
        }
    }

    /// A message for the user that says which field was missing.
    pub fn message(&self) -> (r: String)
        ensures
            r@ == self.message_text(),
    {
        match self {
            SuggestionError::MissingChoices => MISSING_CHOICES.to_owned(),
            SuggestionError::MissingSuggestionText => MISSING_SUGGESTION_TEXT.to_owned(),
        }
    }
}

/// Why a response body yields no suggestion.
#[derive(Debug, Clone, Copy, PartialEq, Eq, Structural)]
pub enum ReviewError {
    /// The body is not JSON.
    Transport,
    /// The body is JSON, but lacks what is read from it.
    Suggestion(SuggestionError),
}

/// The items of `response.choices`, if that is an array.
pub open spec fn choices_of(response: JsonValue) -> Option<Seq<JsonValue>> {
    match response.get(CHOICES@) {
        Some(choices) => choices.as_array(),
        None => None,
    }
}

/// The characters of `choice.message.content`, if that is a string.
pub open spec fn content_of(choice: JsonValue) -> Option<Seq<char>> {
    match choice.get(MESSAGE@) {
        Some(message) => match message.get(CONTENT@) {
            Some(content) => content.as_str(),
            None => None,
        },
        None => None,
    }
}

/// What a JSON answer yields: the content of its first choice, trimmed, or
/// the field that is missing.
pub open spec fn suggestion_of(response: JsonValue) -> Result<Seq<char>, SuggestionError> {
    match choices_of(response) {
        Some(choices) => if choices.len() == 0 {
            Err(SuggestionError::MissingChoices)
        } else {
            match content_of(choices[0]) {
                Some(content) => Ok(trimmed(content)),
                None => Err(SuggestionError::MissingSuggestionText),
            }
        },
        None => Err(SuggestionError::MissingChoices),
    }
}

/// Where the first choice has a content that is a string, the suggestion is
/// that content without the whitespace around it.
pub proof fn lemma_content_is_suggested(
    response: JsonValue,
    choices: Seq<JsonValue>,
    content: Seq<char>,
)
    requires
        choices_of(response) == Some(choices),
        choices.len() > 0,
        content_of(choices[0]) == Some(content),
    ensures
        suggestion_of(response) == Ok::<Seq<char>, SuggestionError>(trimmed(content)),
{
}

/// A member of the answer under another key than `choices`, put in anywhere,
/// changes nothing.
pub proof fn lemma_other_fields_are_ignored(
    members: Seq<(Seq<char>, JsonValue)>,
    at: int,
    other: (Seq<char>, JsonValue),
)
    requires
        0 <= at <= members.len(),
        other.0 != CHOICES@,
    ensures
        suggestion_of(JsonValue::Object(members.insert(at, other))) == suggestion_of(
            JsonValue::Object(members),
        ),
{
    lemma_get_skips_other_keys(members, at, other, CHOICES@);
}

/// The choices are reported missing exactly where the answer has no array
/// under `choices`, or an empty one.
pub proof fn lemma_missing_choices(response: JsonValue)
    ensures
        suggestion_of(response) == Err::<Seq<char>, SuggestionError>(
            SuggestionError::MissingChoices,
        ) <==> (choices_of(response) matches Some(choices) ==> choices.len() == 0),
{
}

/// The suggestion text is reported missing exactly where there is a first
/// choice and it has no content that is a string.
pub proof fn lemma_missing_suggestion_text(response: JsonValue)
    ensures
        suggestion_of(response) == Err::<Seq<char>, SuggestionError>(
            SuggestionError::MissingSuggestionText,
        ) <==> (choices_of(response) matches Some(choices) && choices.len() > 0 && content_of(
            choices[0],
        ) is None),
{
}

/// The text of `choice.message.content`, if that is a string.
fn content(choice: &Json) -> (r: Option<&str>)
    ensures
        match r {
            Some(text) => content_of(choice@) == Some(text@),
            None => content_of(choice@) is None,
        },
{
    match choice.get(MESSAGE) {
        Some(message) => match message.get(CONTENT) {
            Some(content) => content.as_str(),
            None => None,
        },
        None => None,
    }
}

/// Reads the suggestion out of an answer: the content of the first choice,
/// without the whitespace around it.
pub fn extract_suggestion(response: &Json) -> (r: Result<String, SuggestionError>)
    ensures
        match r {
            Ok(text) => suggestion_of(response@) == Ok::<Seq<char>, SuggestionError>(text@),
            Err(e) => suggestion_of(response@) == Err::<Seq<char>, SuggestionError>(e),
        },
{
    let choices = match response.get(CHOICES) {
        Some(value) => value.as_array(),
        None => None,
    };
    match choices {
        Some(items) => {
            if items.len() == 0 {
                Err(SuggestionError::MissingChoices)
            } else {
                match content(&items[0]) {
                    Some(text) => Ok(trim(text)),
                    None => Err(SuggestionError::MissingSuggestionText),
                }
            }
        },
        None => Err(SuggestionError::MissingChoices),
    }
}

/// What a response body yields, given what the parser makes of it.
pub open spec fn review_of(parsed: Option<JsonValue>) -> Result<Seq<char>, ReviewError> {
    match parsed {
        Some(response) => match suggestion_of(response) {
            Ok(text) => Ok(text),
            Err(e) => Err(ReviewError::Suggestion(e)),
        },
        None => Err(ReviewError::Transport),
    }
}

/// Parses a response body as JSON; a body that is none is a transport error.
pub fn parse_response(body: &[u8]) -> (r: Result<Json, ReviewError>)
    ensures
        match r {
            Ok(response) => parsed_json(body@) == Some(response@),
            Err(e) => e == ReviewError::Transport && parsed_json(body@) is None,
        },
{
    match parse_json(body) {
        Ok(response) => Ok(response),
        Err(_) => Err(ReviewError::Transport),
    }
}

/// Reads the suggestion out of a response body: parses the body as JSON and
/// extracts the content of the first choice, without the whitespace around it.
pub fn review_response(body: &[u8]) -> (r: Result<String, ReviewError>)
    ensures
        match r {
            Ok(text) => review_of(parsed_json(body@)) == Ok::<Seq<char>, ReviewError>(text@),
            Err(e) => review_of(parsed_json(body@)) == Err::<Seq<char>, ReviewError>(e),
        },
{
    match parse_response(body) {
        Ok(response) => match extract_suggestion(&response) {
            Ok(text) => Ok(text),
            Err(e) => Err(ReviewError::Suggestion(e)),
        },
        Err(e) => Err(e),
    }
}

} // verus!
