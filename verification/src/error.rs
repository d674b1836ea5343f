//! The failure that stops a rendering, and the message that reports it.

use vstd::prelude::*;
use vstd::string::*;

verus! {

/// Why a variable was rejected.
pub enum ValidationFailure {
    /// The default is the arbitrary value, which names no value at all.
    ArbitraryDefault { name: Seq<char>, default: Seq<char> },
    /// The default is set, and none of the accepted values equals it.
    DefaultNotInValues { name: Seq<char>, default: Seq<char>, values: Seq<Seq<char>> },
}

/// The text that `{:?}` formatting gives for a list of strings.
pub uninterp spec fn debug_list_text(values: Seq<Seq<char>>) -> Seq<char>;

/// The message for a default that is the arbitrary value.
pub open spec fn arbitrary_default_text(name: Seq<char>, default: Seq<char>) -> Seq<char> {
    "Default value '"@ + default + "' of variable '"@ + name + "' cannot be arbitrary"@
}

/// The message for a default that is missing from the accepted values,
/// which are shown as `listed`.
pub open spec fn default_not_in_values_text(
    name: Seq<char>,
    default: Seq<char>,
    listed: Seq<char>,
) -> Seq<char> {
    "Default value '"@ + default + "' not contained in values '"@ + listed
        + "' for variable '"@ + name + "'"@
}

impl ValidationFailure {
    /// The message that reports the failure: it names the variable, shows
    /// the default and, where the default is missing from the accepted
    /// values, shows the whole list.
    pub open spec fn message_text(self) -> Seq<char> {
        match self {
            ValidationFailure::ArbitraryDefault { name, default } => {
                arbitrary_default_text(name, default)
            },
            ValidationFailure::DefaultNotInValues { name, default, values } => {
                default_not_in_values_text(name, default, debug_list_text(values))
            },
        }
    }
}

/// A variable that cannot be rendered, with what is needed to mend it.
#[derive(Debug, PartialEq, Eq)]
pub enum ValidationError {
    /// The default is the arbitrary value.
    ArbitraryDefault {
        /// The name of the variable.
        name: String,
        /// The offending default.
        default: String,
    },
    /// The default is set but is none of the accepted values.
    DefaultNotInValues {
        /// The name of the variable.
        name: String,
        /// The offending default.
        default: String,
        /// The literal texts of all accepted values, in order.
        values: Vec<String>,
    },
}

impl View for ValidationError {
    type V = ValidationFailure;

    open spec fn view(&self) -> ValidationFailure {
        match *self {
            ValidationError::ArbitraryDefault { name, default } => {
                ValidationFailure::ArbitraryDefault { name: name@, default: default@ }
            },
            ValidationError::DefaultNotInValues { name, default, values } => {
                ValidationFailure::DefaultNotInValues {
                    name: name@,
                    default: default@,
                    values: values.deep_view(),
                }
            },
        }
    }
}

/// Formats a list of strings with `format!` and `{:?}`, the `Debug`
/// rendering of a vector of strings. Nothing is proved of the text; it is
/// only taken to depend on the strings alone, and is named by
/// [`debug_list_text`].
#[verifier::external_body]
fn debug_list(values: &Vec<String>) -> (listed: String)
    ensures
        listed@ == debug_list_text(values.deep_view()),
{
    format!("{:?}", values)
}

/// Builds the message for a default that is the arbitrary value.
pub fn arbitrary_default_message(name: &str, default: &str) -> (message: String)
    ensures
        message@ == arbitrary_default_text(name@, default@),
{
    let mut message = String::from_str("Default value '");
    message.append(default);
    message.append("' of variable '");
    message.append(name);
    message.append("' cannot be arbitrary");
    message
}

/// Builds the message for a default that is missing from the accepted
/// values, from the name, the default and the list as it is to be shown.
pub fn default_not_in_values_message(name: &str, default: &str, listed: &str) -> (message: String)
    ensures
        message@ == default_not_in_values_text(name@, default@, listed@),
{
    let mut message = String::from_str("Default value '");
    message.append(default);
    message.append("' not contained in values '");
    message.append(listed);
    message.append("' for variable '");
    message.append(name);
    message.append("'");
    message
}

impl ValidationError {
    /// The name of the variable that was rejected.
    pub fn variable_name(&self) -> (name: &str)
        ensures
            name@ == match self@ {
                ValidationFailure::ArbitraryDefault { name, .. } => name,
                ValidationFailure::DefaultNotInValues { name, .. } => name,
            },
    {
        match self {
            ValidationError::ArbitraryDefault { name, .. } => name.as_str(),
            ValidationError::DefaultNotInValues { name, .. } => name.as_str(),
        }
    }

    /// The message that reports the failure.
    pub fn message(&self) -> (message: String)
        ensures
            message@ == self@.message_text(),
    {
        match self {
            ValidationError::ArbitraryDefault { name, default } => {
                arbitrary_default_message(name.as_str(), default.as_str())
            },
            ValidationError::DefaultNotInValues { name, default, values } => {
                let listed = debug_list(values);
                default_not_in_values_message(name.as_str(), default.as_str(), listed.as_str())
            },
        }
    }
}

} // verus!
