//! Validation of the station form: what the user typed as name and stream
//! address either becomes the fields of a station or is refused with a reason.
//! The same rules hold when a station is added and when one is edited.

use crate::text::{
    all_ascii, ascii_lower, dashed, derive_id, derived_id, has_prefix, kept_in_id, lowercased,
    starts_with, trim, trimmed,
};
use vstd::prelude::*;

verus! {

/// Why a form was refused.
#[derive(Debug, Clone, Copy, PartialEq, Eq, Structural)]
pub enum ValidationError {
    /// The name is empty once surrounding white space is removed.
    NameRequired,
    /// The stream address is empty once surrounding white space is removed.
    UrlRequired,
    /// The stream address begins with neither `http://` nor `https://`.
    UrlScheme,
    /// No character of the name can stand in an identifier.
    InvalidName,
}

impl ValidationError {
    /// The text shown to the user.
    pub open spec fn message_text(self) -> Seq<char> {
        match self {
            ValidationError::NameRequired => "Station name is required"@,
            ValidationError::UrlRequired => "Stream URL is required"@,
            ValidationError::UrlScheme => "URL must start with http:// or https://"@,
            ValidationError::InvalidName => "Invalid station name"@,
        }
    }

    /// The text shown to the user.
    pub fn message(&self) -> (text: &'static str)
        ensures
            text@ == self.message_text(),
    {
        match self {
            ValidationError::NameRequired => "Station name is required",
            ValidationError::UrlRequired => "Stream URL is required",
            ValidationError::UrlScheme => "URL must start with http:// or https://",
            ValidationError::InvalidName => "Invalid station name",
        }
    }
}

/// The fields of a station that a valid form yields.
#[derive(Debug)]
pub struct StationFields {
    /// The identifier derived from the name.
    pub id: String,
    /// The name, without surrounding white space.
    pub name: String,
    /// The stream address, without surrounding white space.
    pub uri: String,
}

/// Station fields as plain text.
pub struct StationFieldsView {
    pub id: Seq<char>,
    pub name: Seq<char>,
    pub uri: Seq<char>,
}

impl View for StationFields {
    type V = StationFieldsView;

    open spec fn view(&self) -> StationFieldsView {
        StationFieldsView { id: self.id@, name: self.name@, uri: self.uri@ }
    }
}

/// Whether a trimmed stream address names one of the two accepted schemes.
pub open spec fn has_stream_scheme(url: Seq<char>) -> bool {
    has_prefix(url, "http://"@) || has_prefix(url, "https://"@)
}

/// What validation makes of a form. The checks come in this order: the name
/// is present, the address is present, the address has an accepted scheme,
/// the name yields a non-empty identifier.
pub open spec fn validated(name: Seq<char>, url: Seq<char>) -> Result<
    StationFieldsView,
    ValidationError,
> {
    let name = trimmed(name);
    let url = trimmed(url);
    if name.len() == 0 {
        Err(ValidationError::NameRequired)
    } else if url.len() == 0 {
        Err(ValidationError::UrlRequired)
    } else if !has_stream_scheme(url) {
        Err(ValidationError::UrlScheme)
    } else if derived_id(name).len() == 0 {
        Err(ValidationError::InvalidName)
    } else {
        Ok(StationFieldsView { id: derived_id(name), name, uri: url })
    }
}

/// The outcome of [`validate_station`] as plain text.
pub open spec fn outcome_view(outcome: Result<StationFields, ValidationError>) -> Result<
    StationFieldsView,
    ValidationError,
> {
    match outcome {
        Ok(fields) => Ok(fields@),
        Err(reason) => Err(reason),
    }
}

/// Validates a form. No connection is made: the address is only looked at.
pub fn validate_station(name: &str, url: &str) -> (outcome: Result<StationFields, ValidationError>)
    ensures
        outcome_view(outcome) == validated(name@, url@),
{
    let name = trim(name);
    let url = trim(url);
    if name.is_empty() {
        return Err(ValidationError::NameRequired);
    }
    if url.is_empty() {
        return Err(ValidationError::UrlRequired);
    }
    if !starts_with(url, "http://") && !starts_with(url, "https://") {
        return Err(ValidationError::UrlScheme);
    }
    let id = derive_id(name);
    if id.as_str().is_empty() {
        return Err(ValidationError::InvalidName);
    }
    Ok(StationFields { id, name: name.to_owned(), uri: url.to_owned() })
}

/// A character of an identifier made from ASCII text: a lower-case letter, a
/// digit or the dash.
pub open spec fn is_slug_char(c: char) -> bool {
    ('a' <= c && c <= 'z') || ('0' <= c && c <= '9') || c == '-'
}

/// Every character of a derived identifier is a letter, a digit or a dash; in
/// particular none is a space.
pub proof fn lemma_derived_id_keeps_letters_digits_dashes(name: Seq<char>)
    ensures
        forall|i: int|
            0 <= i < derived_id(name).len() ==> kept_in_id(#[trigger] derived_id(name)[i])
                && derived_id(name)[i] != ' ',
{
    let keep = |c: char| kept_in_id(c);
    let source = lowercased(name).map_values(|c: char| dashed(c));
    assert forall|i: int| 0 <= i < derived_id(name).len() implies kept_in_id(
        #[trigger] derived_id(name)[i],
    ) && derived_id(name)[i] != ' ' by {
        source.lemma_filter_pred(keep, i);
    }
}

/// The identifier derived from an ASCII name holds only lower-case ASCII
/// letters, digits and dashes.
pub proof fn lemma_derived_id_of_ascii_name(name: Seq<char>)
    requires
        all_ascii(name),
    ensures
        forall|i: int|
            0 <= i < derived_id(name).len() ==> is_slug_char(#[trigger] derived_id(name)[i]),
{
    let keep = |c: char| kept_in_id(c);
    let source = lowercased(name).map_values(|c: char| dashed(c));
    assert forall|i: int| 0 <= i < derived_id(name).len() implies is_slug_char(
        #[trigger] derived_id(name)[i],
    ) by {
        let c = derived_id(name)[i];
        source.lemma_filter_pred(keep, i);
        assert(source.filter(keep).contains(c));
        source.lemma_filter_contains_rev(keep, c);
        let j = choose|j: int| 0 <= j < source.len() && source[j] == c;
        assert(c == dashed(ascii_lower(name[j])));
    }
}

/// A form that passes validation yields an identifier without spaces, made of
/// letters, digits and dashes; for an ASCII name these are the lower-case
/// letters `a` to `z`, the digits and the dash.
pub proof fn lemma_valid_form_has_clean_id(name: Seq<char>, url: Seq<char>)
    requires
        validated(name, url) is Ok,
    ensures
        validated(name, url)->Ok_0.id.len() > 0,
        forall|i: int|
            0 <= i < validated(name, url)->Ok_0.id.len() ==> {
                let c = #[trigger] validated(name, url)->Ok_0.id[i];
                &&& c != ' '
                &&& kept_in_id(c)
                &&& all_ascii(trimmed(name)) ==> is_slug_char(c)
            },
{
    lemma_derived_id_keeps_letters_digits_dashes(trimmed(name));
    if all_ascii(trimmed(name)) {
        lemma_derived_id_of_ascii_name(trimmed(name));
    }
}

/// Validation refuses a form without a name, one without an address, and one
/// whose address has no accepted scheme, each with its own reason; and the
/// texts of the four reasons differ from one another.
pub proof fn lemma_validation_refusals(name: Seq<char>, url: Seq<char>)
    ensures
        name.len() == 0 || trimmed(name).len() == 0 ==> validated(name, url) == Err::<
            StationFieldsView,
            ValidationError,
        >(ValidationError::NameRequired),
        trimmed(name).len() > 0 && (url.len() == 0 || trimmed(url).len() == 0) ==> validated(
            name,
            url,
        ) == Err::<StationFieldsView, ValidationError>(ValidationError::UrlRequired),
        trimmed(name).len() > 0 && trimmed(url).len() > 0 && !has_stream_scheme(trimmed(url))
            ==> validated(name, url) == Err::<StationFieldsView, ValidationError>(
            ValidationError::UrlScheme,
        ),
        forall|a: ValidationError, b: ValidationError|
            a != b ==> #[trigger] a.message_text() != #[trigger] b.message_text(),
{
    reveal_strlit("Station name is required");
    reveal_strlit("Stream URL is required");
    reveal_strlit("URL must start with http:// or https://");
    reveal_strlit("Invalid station name");
    assert forall|a: ValidationError, b: ValidationError| a != b implies #[trigger] a.message_text()
        != #[trigger] b.message_text() by {
        assert(ValidationError::NameRequired.message_text().len() == 24);
        assert(ValidationError::UrlRequired.message_text().len() == 22);
        assert(ValidationError::UrlScheme.message_text().len() == 39);
        assert(ValidationError::InvalidName.message_text().len() == 20);
    }
}

} // verus!
