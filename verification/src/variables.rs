//! The description of an environment variable: its accepted values, its
//! default and its state, with the pieces of text that are rendered from it.

use vstd::prelude::*;
use vstd::string::*;
use crate::error::{ValidationError, ValidationFailure};
use crate::model::{
    is_arbitrary_text, is_unset_text, lines_text, raw_texts, ValueModel, VariableModel,
};
use crate::text::{ensure_trailing_newline, str_ends_with_blank_line, with_blank_line};

verus! {

/// A value a variable can have, with what it means to choose it.
#[derive(Debug, PartialEq, Eq)]
pub struct Value {
    /// The actual value.
    value: String,
    /// The implications of using this value.
    description: String,
}

impl View for Value {
    type V = ValueModel;

    closed spec fn view(&self) -> ValueModel {
        ValueModel { raw: self.value@, description: self.description@ }
    }
}

impl Value {
    /// A value with the given literal text and description.
    pub fn new(value: String, description: String) -> (created: Value)
        ensures
            created@ == (ValueModel { raw: value@, description: description@ }),
    {
        Value { value, description }
    }

    /// Returns the actual value formatted for Markdown.
    pub fn get_actual_value_formatted(&self) -> (shown: String)
        ensures
            shown@ == self@.display_text(),
    {
        if self.is_unset() {
            String::from_str("unset")
        } else if self.is_arbitrary() {
            String::from_str("\\*")
        } else {
            let mut shown = String::from_str("`");
            shown.append(self.value.as_str());
            shown.append("`");
            shown
        }
    }

    /// Returns the raw actual value.
    pub fn get_actual_value_unformatted(&self) -> (raw: &str)
        ensures
            raw@ == self@.raw,
    {
        self.value.as_str()
    }

    /// Returns the description of the value.
    pub fn get_description(&self) -> (description: &str)
        ensures
            description@ == self@.description,
    {
        self.description.as_str()
    }

    /// Checks whether a string is the "unset" value.
    pub fn string_equals_unset_value(string: &str) -> (unset: bool)
        ensures
            unset == is_unset_text(string@),
    {
        string.is_empty()
    }

    /// Checks whether a string is the "arbitrary" value.
    pub fn string_equals_arbitrary_value(string: &str) -> (arbitrary: bool)
        ensures
            arbitrary == is_arbitrary_text(string@),
    {
        proof {
            reveal_strlit("*");
        }
        let arbitrary = string.unicode_len() == 1 && string.get_char(0) == '*';
        assert(arbitrary ==> string@ =~= "*"@);
        arbitrary
    }

    /// Checks whether the value is the "unset" value.
    pub fn is_unset(&self) -> (unset: bool)
        ensures
            unset == is_unset_text(self@.raw),
    {
        Value::string_equals_unset_value(self.value.as_str())
    }

    /// Checks whether the value is the "arbitrary" value.
    pub fn is_arbitrary(&self) -> (arbitrary: bool)
        ensures
            arbitrary == is_arbitrary_text(self@.raw),
    {
        Value::string_equals_arbitrary_value(self.value.as_str())
    }

    /// Formats the value into a single line for a list that starts each
    /// entry with `beginning`. The line ends with a line feed: one is added
    /// unless the description already ends with one.
    pub fn format(&self, beginning: char) -> (line: String)
        ensures
            line@ == self@.line_text(beginning),
    {
        let shown = self.get_actual_value_formatted();
        let mut line = String::new();
        line.push(beginning);
        line.append(" ");
        line.append(shown.as_str());
        line.append(" => ");
        line.append(self.description.as_str());
        ensure_trailing_newline(&mut line);
        line
    }
}

/// The state a variable can be in once it is no longer in plain use.
#[derive(PartialEq, Eq, PartialOrd, Ord, Hash, Debug, Clone, Copy, Structural)]
pub enum State {
    /// The variable is deprecated and will be removed in a future version.
    Deprecated,
    /// The variable was deprecated and is now removed.
    Removed,
}

/// The models of `values`, in order.
pub open spec fn value_models(values: Seq<Value>) -> Seq<ValueModel> {
    values.map_values(|value: Value| value@)
}

/// The full description of a variable: its name, what it is for, the values
/// it accepts and its default, and the state it is in, if any.
#[derive(Debug, PartialEq, Eq)]
pub struct Variable {
    /// The name of the variable.
    name: String,
    /// What the variable is used for.
    description: String,
    /// The allowed values this variable can have.
    values: Vec<Value>,
    /// The default value in case the variable is unset.
    default: String,
    /// Whether the variable is in a special state.
    state: Option<State>,
}

impl View for Variable {
    type V = VariableModel;

    closed spec fn view(&self) -> VariableModel {
        VariableModel {
            name: self.name@,
            description: self.description@,
            values: value_models(self.values@),
            default: self.default@,
            state: self.state,
        }
    }
}

impl Variable {
    /// A variable with the given fields. Nothing is checked here: whether
    /// the default is acceptable is found out by [`Variable::validate`].
    pub fn new(
        name: String,
        description: String,
        values: Vec<Value>,
        default: String,
        state: Option<State>,
    ) -> (created: Variable)
        ensures
            created@ == (VariableModel {
                name: name@,
                description: description@,
                values: value_models(values@),
                default: default@,
                state: state,
            }),
    {
        Variable { name, description, values, default, state }
    }

    /// Returns the name of the variable.
    pub fn get_name(&self) -> (name: &str)
        ensures
            name@ == self@.name,
    {
        self.name.as_str()
    }

    /// Returns what the variable is used for.
    pub fn get_description(&self) -> (description: &str)
        ensures
            description@ == self@.description,
    {
        self.description.as_str()
    }

    /// Returns the state of the variable, if it is in one.
    pub fn get_state(&self) -> (state: Option<State>)
        ensures
            state == self@.state,
    {
        self.state
    }

    /// Returns the default value of the variable formatted for Markdown.
    pub fn get_default_formatted(&self) -> (shown: String)
        ensures
            shown@ == self@.default_display_text(),
    {
        if Value::string_equals_unset_value(self.default.as_str()) {
            String::from_str("unset (i.e. unused)")
        } else {
            let mut shown = String::from_str("`");
            shown.append(self.default.as_str());
            shown.append("`");
            shown
        }
    }

    /// Returns the raw default value.
    pub fn get_default_unformatted(&self) -> (default: &str)
        ensures
            default@ == self@.default,
    {
        self.default.as_str()
    }

    /// Returns the default value of the variable as a `.env` file holds it:
    /// nothing where the default is unset, the raw default otherwise.
    pub fn get_default_for_env(&self) -> (default: &str)
        ensures
            default@ == self@.default,
    {
        if Value::string_equals_unset_value(self.default.as_str()) {
            proof {
                reveal_strlit("");
            }
            ""
        } else {
            self.default.as_str()
        }
    }

    /// Checks whether the variable is deprecated.
    pub fn is_deprecated(&self) -> (deprecated: bool)
        ensures
            deprecated == self@.is_deprecated(),
    {
        match self.state {
            Some(State::Deprecated) => true,
            _ => false,
        }
    }

    /// Checks whether the variable was removed.
    pub fn is_removed(&self) -> (removed: bool)
        ensures
            removed == self@.is_removed(),
    {
        match self.state {
            Some(State::Removed) => true,
            _ => false,
        }
    }

    /// Returns the values a variable can have, in the order in which they
    /// are listed.
    pub fn values(&self) -> (values: &Vec<Value>)
        ensures
            value_models(values@) == self@.values,
    {
        &self.values
    }

    /// Appends line feeds to a string until it ends with two of them. A
    /// string that already ends with two is left as it is.
    pub fn check_double_newline_ending(string: &mut String)
        ensures
            final(string)@ == with_blank_line(old(string)@),
    {
        if !str_ends_with_blank_line(string.as_str()) {
            string.push('\n');
        }
        if !str_ends_with_blank_line(string.as_str()) {
            string.push('\n');
        }
    }

    /// Provides the heading for this variable in Markdown. The heading
    /// starts with a line feed. It ends with two line feeds, unless the
    /// variable was removed: then it ends with one.
    pub fn format_heading(&self) -> (heading: String)
        ensures
            heading@ == self@.heading_text(),
    {
        proof {
            reveal_strlit("`");
            reveal_strlit(" [DEPRECATED]\n");
            reveal_strlit(" [REMOVED]\n");
            reveal_strlit("`\n\n");
            reveal_strlit("` [DEPRECATED]\n\n");
            reveal_strlit("` [REMOVED]\n");
        }
        let mut heading = String::from_str("\n##### `");
        heading.append(self.name.as_str());
        heading.append("`");
        if self.is_deprecated() {
            heading.append(" [DEPRECATED]\n");
        } else if self.is_removed() {
            heading.append(" [REMOVED]\n");
        }
        if !self.is_removed() {
            Variable::check_double_newline_ending(&mut heading);
        }
        heading
    }

    /// Provides the description of this variable in Markdown, ending with
    /// two line feeds.
    pub fn format_description(&self) -> (description: String)
        ensures
            description@ == self@.description_text(),
    {
        let mut description = self.description.clone();
        Variable::check_double_newline_ending(&mut description);
        description
    }

    /// Provides the paragraph that states the default of this variable in
    /// Markdown, ending with two line feeds.
    pub fn format_default(&self) -> (default: String)
        ensures
            default@ == self@.default_text(),
    {
        proof {
            reveal_strlit("`");
            reveal_strlit("unset (i.e. unused)");
            reveal_strlit("\n");
            reveal_strlit("\n\n");
        }
        let shown = self.get_default_formatted();
        let mut default = String::from_str("Default: ");
        default.append(shown.as_str());
        default.append("\n");
        Variable::check_double_newline_ending(&mut default);
        default
    }

    /// Provides the list of the values of this variable in Markdown, one
    /// line for each value, each starting with `bullet_prefix`.
    pub fn render_values(&self, bullet_prefix: char) -> (list: String)
        ensures
            list@ == self@.values_text(bullet_prefix),
    {
        let mut list = String::new();
        let mut index: usize = 0;
        while index < self.values.len()
            invariant
                index <= self.values.len(),
                list@ == lines_text(self@.values.take(index as int), bullet_prefix),
            decreases self.values.len() - index,
        {
            let line = self.values[index].format(bullet_prefix);
            proof {
                let before = self@.values.take(index as int);
                let after = self@.values.take(index + 1);
                assert(after.drop_last() =~= before);
            }
            list.append(line.as_str());
            index += 1;
        }
        assert(self@.values.take(index as int) =~= self@.values);
        list
    }

    /// Provides the entry of this variable in a `.env` file.
    pub fn format_for_env(&self) -> (line: String)
        ensures
            line@ == self@.env_line_text(),
    {
        let mut line = self.name.clone();
        line.append("=");
        line.append(self.get_default_for_env());
        line.append("\n\n");
        line
    }

    /// Tells whether the default is the literal text of an accepted value.
    fn default_is_accepted(&self) -> (accepted: bool)
        ensures
            accepted == self@.accepts(self@.default),
    {
        let mut index: usize = 0;
        while index < self.values.len()
            invariant
                index <= self.values.len(),
                forall|i: int| 0 <= i < index ==> (#[trigger] self@.values[i]).raw != self@.default,
            decreases self.values.len() - index,
        {
            if self.values[index].value == self.default {
                assert(self@.values[index as int].raw == self@.default);
                return true;
            }
            index += 1;
        }
        false
    }

    /// Collects the literal texts of the accepted values, in order.
    fn accepted_texts(&self) -> (texts: Vec<String>)
        ensures
            texts.deep_view() == raw_texts(self@.values),
    {
        let mut texts: Vec<String> = Vec::new();
        let mut index: usize = 0;
        while index < self.values.len()
            invariant
                index <= self.values.len(),
                texts@.len() == index,
                forall|i: int| 0 <= i < index ==> (#[trigger] texts@[i])@ == self@.values[i].raw,
            decreases self.values.len() - index,
        {
            texts.push(self.values[index].value.clone());
            index += 1;
        }
        texts
    }

    /// Checks that the variable may be rendered. A removed variable always
    /// may. Any other is rejected if its default is the arbitrary value, or
    /// if its default is set and is none of its accepted values.
    pub fn validate(&self) -> (outcome: Result<(), ValidationError>)
        ensures
            match outcome {
                Ok(_) => self@.validation() is Ok,
                Err(error) => self@.validation() == Err::<(), ValidationFailure>(error@),
            },
            outcome is Ok <==> self@.is_valid(),
            self@.is_removed() ==> outcome is Ok,
    {
        if self.is_removed() {
            return Ok(());
        }
        if Value::string_equals_arbitrary_value(self.default.as_str()) {
            return Err(
                ValidationError::ArbitraryDefault {
                    name: self.name.clone(),
                    default: self.default.clone(),
                },
            );
        }
        if !Value::string_equals_unset_value(self.default.as_str()) && !self.default_is_accepted() {
            return Err(
                ValidationError::DefaultNotInValues {
                    name: self.name.clone(),
                    default: self.default.clone(),
                    values: self.accepted_texts(),
                },
            );
        }
        Ok(())
    }
}

} // verus!
