//! The arguments of a query, and what the adapter reads from them.

use crate::text::opt_text;
use crate::time::{parsed_instant, Timestamp};
use trustfall_core::ir::EdgeParameters;
use trustfall_core::ir::FieldValue as EngineValue;
use vstd::prelude::*;

verus! {

/// A disagreement between the schema and the adapter. None can be recovered
/// from while a query runs.
#[derive(Debug, Clone, Copy, PartialEq, Eq, Structural)]
pub enum ContractViolation {
    /// An edge that the entity's type does not have.
    UnknownEdge,
    /// A property that the entity's type does not have.
    UnknownProperty,
    /// An entity of another type than the one that was named.
    WrongVertexType,
    /// A parameter that holds a value of a type it does not accept.
    WrongParameterType,
    /// A timestamp parameter that holds text which is no RFC 3339 date and time.
    MalformedTimestamp,
}

/// A value of a property or of a parameter.
#[derive(Debug, Clone, PartialEq, Eq)]
pub enum FieldValue {
    Null,
    Text(String),
    Boolean(bool),
    Timestamp(Timestamp),
    /// A value of any other type: a number, a list, an enumeration.
    Other,
}

/// What a [`FieldValue`] says.
pub enum FieldValueView {
    Null,
    Text(Seq<char>),
    Boolean(bool),
    Timestamp(Timestamp),
    Other,
}

impl View for FieldValue {
    type V = FieldValueView;

    open spec fn view(&self) -> FieldValueView {
        match self {
            FieldValue::Null => FieldValueView::Null,
            FieldValue::Text(s) => FieldValueView::Text(s@),
            FieldValue::Boolean(b) => FieldValueView::Boolean(*b),
            FieldValue::Timestamp(t) => FieldValueView::Timestamp(*t),
            FieldValue::Other => FieldValueView::Other,
        }
    }
}

/// What an optional value says.
pub open spec fn opt_value(value: Option<FieldValue>) -> Option<FieldValueView> {
    match value {
        Some(v) => Some(v@),
        None => None,
    }
}

/// The parameters of an edge, as the query engine hands them over.
#[verifier::external_type_specification]
#[verifier::external_body]
pub struct ExEdgeParameters(EdgeParameters);

/// What the parameters of an edge hold: the value bound to each name that
/// is bound. A value that is neither null, text, a truth value nor an
/// instant stands as `Other`.
pub uninterp spec fn parameter_values(parameters: EdgeParameters) -> Map<Seq<char>, FieldValueView>;

/// Looks a name up with `EdgeParameters::get`. Trusted: the result is the
/// value bound to the name, or nothing where the name is not bound. The
/// value is handed out as a value of this library: null, text and truth
/// values as they are, an instant as `DateTime::timestamp` and
/// `DateTime::timestamp_subsec_nanos` give it, all else as `Other`.
#[verifier::external_body]
pub(crate) fn parameter(parameters: &EdgeParameters, name: &str) -> (value: Option<FieldValue>)
    ensures
        value is Some <==> parameter_values(*parameters).contains_key(name@),
        value matches Some(v) ==> v@ == parameter_values(*parameters)[name@],
{
    Some(
        match parameters.get(name)? {
            EngineValue::Null => FieldValue::Null,
            EngineValue::String(s) => FieldValue::Text(s.clone()),
            EngineValue::Boolean(b) => FieldValue::Boolean(*b),
            EngineValue::DateTimeUtc(at) => FieldValue::Timestamp(
                Timestamp { secs: at.timestamp(), nanos: at.timestamp_subsec_nanos() },
            ),
            _ => FieldValue::Other,
        },
    )
}

/// The value bound to a name, if the name is bound.
pub open spec fn bound_value(values: Map<Seq<char>, FieldValueView>, name: Seq<char>) -> Option<
    FieldValueView,
> {
    if values.contains_key(name) {
        Some(values[name])
    } else {
        None
    }
}

/// The text that a value gives to a parameter that takes text: nothing
/// where the value is missing or null.
pub open spec fn text_of(value: Option<FieldValueView>) -> Result<
    Option<Seq<char>>,
    ContractViolation,
> {
    match value {
        None => Ok(None),
        Some(FieldValueView::Null) => Ok(None),
        Some(FieldValueView::Text(s)) => Ok(Some(s)),
        Some(_) => Err(ContractViolation::WrongParameterType),
    }
}

/// The truth value that a value gives to a parameter that takes one:
/// nothing where the value is missing or null.
pub open spec fn flag_of(value: Option<FieldValueView>) -> Result<Option<bool>, ContractViolation> {
    match value {
        None => Ok(None),
        Some(FieldValueView::Null) => Ok(None),
        Some(FieldValueView::Boolean(b)) => Ok(Some(b)),
        Some(_) => Err(ContractViolation::WrongParameterType),
    }
}

/// The instant that a value gives to a parameter that takes one, where
/// `parsed` is what the value's text denotes if it holds text: nothing where
/// the value is missing or null, the instant where it holds one, and what
/// its text denotes where it holds text.
pub open spec fn instant_of(value: Option<FieldValueView>, parsed: Option<Timestamp>) -> Result<
    Option<Timestamp>,
    ContractViolation,
> {
    match value {
        None => Ok(None),
        Some(FieldValueView::Null) => Ok(None),
        Some(FieldValueView::Timestamp(t)) => Ok(Some(t)),
        Some(FieldValueView::Text(_)) => match parsed {
            Some(t) => Ok(Some(t)),
            None => Err(ContractViolation::MalformedTimestamp),
        },
        Some(_) => Err(ContractViolation::WrongParameterType),
    }
}

/// What reading the text of a value as RFC 3339 gives; nothing for a value
/// that holds no text.
pub open spec fn instant_in_text(value: Option<FieldValueView>) -> Option<Timestamp> {
    match value {
        Some(FieldValueView::Text(s)) => parsed_instant(s),
        _ => None,
    }
}

/// What a parameter that takes text holds.
pub open spec fn string_param(values: Map<Seq<char>, FieldValueView>, name: Seq<char>) -> Result<
    Option<Seq<char>>,
    ContractViolation,
> {
    text_of(bound_value(values, name))
}

/// What a parameter that takes a truth value holds.
pub open spec fn bool_param(values: Map<Seq<char>, FieldValueView>, name: Seq<char>) -> Result<
    Option<bool>,
    ContractViolation,
> {
    flag_of(bound_value(values, name))
}

/// What a parameter that takes an instant holds. The instant may be given
/// as such or as RFC 3339 text.
pub open spec fn dt_param(values: Map<Seq<char>, FieldValueView>, name: Seq<char>) -> Result<
    Option<Timestamp>,
    ContractViolation,
> {
    instant_of(bound_value(values, name), instant_in_text(bound_value(values, name)))
}

/// The text that a value gives to a parameter that takes text.
pub fn string_of_value(value: Option<FieldValue>) -> (found: Result<
    Option<String>,
    ContractViolation,
>)
    ensures
        match found {
            Ok(text) => text_of(opt_value(value)) == Ok::<_, ContractViolation>(opt_text(text)),
            Err(e) => text_of(opt_value(value)) == Err::<Option<Seq<char>>, _>(e),
        },
{
    match value {
        None => Ok(None),
        Some(FieldValue::Null) => Ok(None),
        Some(FieldValue::Text(s)) => Ok(Some(s)),
        Some(_) => Err(ContractViolation::WrongParameterType),
    }
}

/// The truth value that a value gives to a parameter that takes one.
pub fn bool_of_value(value: Option<FieldValue>) -> (found: Result<Option<bool>, ContractViolation>)
    ensures
        found == flag_of(opt_value(value)),
{
    match value {
        None => Ok(None),
        Some(FieldValue::Null) => Ok(None),
        Some(FieldValue::Boolean(b)) => Ok(Some(b)),
        Some(_) => Err(ContractViolation::WrongParameterType),
    }
}

/// The instant that a value gives to a parameter that takes one. `parsed`
/// is what the value's text denotes as RFC 3339; it is looked at only where
/// the value holds text.
pub fn timestamp_of_value(value: Option<FieldValue>, parsed: Option<Timestamp>) -> (found: Result<
    Option<Timestamp>,
    ContractViolation,
>)
    ensures
        found == instant_of(opt_value(value), parsed),
{
    match value {
        None => Ok(None),
        Some(FieldValue::Null) => Ok(None),
        Some(FieldValue::Timestamp(t)) => Ok(Some(t)),
        Some(FieldValue::Text(_)) => match parsed {
            Some(t) => Ok(Some(t)),
            None => Err(ContractViolation::MalformedTimestamp),
        },
        Some(_) => Err(ContractViolation::WrongParameterType),
    }
}

/// Reads a parameter that takes text.
pub fn extract_string_param(parameters: &EdgeParameters, name: &str) -> (found: Result<
    Option<String>,
    ContractViolation,
>)
    ensures
        match found {
            Ok(text) => string_param(parameter_values(*parameters), name@) == Ok::<
                _,
                ContractViolation,
            >(opt_text(text)),
            Err(e) => string_param(parameter_values(*parameters), name@) == Err::<
                Option<Seq<char>>,
                _,
            >(e),
        },
{
    string_of_value(parameter(parameters, name))
}

/// Reads a parameter that takes a truth value.
pub fn extract_bool_param(parameters: &EdgeParameters, name: &str) -> (found: Result<
    Option<bool>,
    ContractViolation,
>)
    ensures
        found == bool_param(parameter_values(*parameters), name@),
{
    bool_of_value(parameter(parameters, name))
}

/// Reads a parameter that takes an instant, given as such or as RFC 3339 text.
pub fn extract_dt_param(parameters: &EdgeParameters, name: &str) -> (found: Result<
    Option<Timestamp>,
    ContractViolation,
>)
    ensures
        found == dt_param(parameter_values(*parameters), name@),
{
    let value = parameter(parameters, name);
    let parsed = match &value {
        Some(FieldValue::Text(s)) => Timestamp::from_rfc3339(s.as_str()),
        _ => None,
    };
    timestamp_of_value(value, parsed)
}

} // verus!
