//! The mathematical model of a variable description and of the texts that
//! are rendered from it.
//!
//! Everything here is ghost: plain sequences of characters in place of
//! strings, and spec functions that say what each rendered piece is. The
//! executable types in [`crate::variables`] are viewed as these models, and
//! their methods are specified against the functions below.

use vstd::prelude::*;
use crate::error::ValidationFailure;
use crate::text::{
    ends_with_blank_line, ends_with_more_than_blank_line, ends_with_newline, with_blank_line,
    with_trailing_newline,
};
use crate::variables::State;

verus! {

/// The default of a variable reads "unset": it is the empty text.
pub open spec fn is_unset_text(text: Seq<char>) -> bool {
    text.len() == 0
}

/// The text stands for "any value is accepted": it is exactly `*`.
pub open spec fn is_arbitrary_text(text: Seq<char>) -> bool {
    text == "*"@
}

/// One value a variable accepts.
pub struct ValueModel {
    /// The literal text of the value.
    pub raw: Seq<char>,
    /// What choosing this value implies.
    pub description: Seq<char>,
}

impl ValueModel {
    /// The value as it is shown in Markdown: the word `unset` for the empty
    /// text, an escaped asterisk for the arbitrary value, and every other
    /// text as inline code.
    pub open spec fn display_text(self) -> Seq<char> {
        if is_unset_text(self.raw) {
            "unset"@
        } else if is_arbitrary_text(self.raw) {
            "\\*"@
        } else {
            "`"@ + self.raw + "`"@
        }
    }

    /// The line that lists the value: the bullet, the shown value, an arrow
    /// and the description, closed by a line feed.
    pub open spec fn line_text(self, bullet: char) -> Seq<char> {
        with_trailing_newline(
            seq![bullet] + " "@ + self.display_text() + " => "@ + self.description,
        )
    }
}

/// The lines of `values`, in order.
pub open spec fn lines_text(values: Seq<ValueModel>, bullet: char) -> Seq<char>
    decreases values.len(),
{
    if values.len() == 0 {
        Seq::empty()
    } else {
        lines_text(values.drop_last(), bullet) + values.last().line_text(bullet)
    }
}

/// The literal texts of `values`, in order.
pub open spec fn raw_texts(values: Seq<ValueModel>) -> Seq<Seq<char>> {
    values.map_values(|value: ValueModel| value.raw)
}

/// One configuration variable.
pub struct VariableModel {
    /// The identifier, used as it stands in headings and `.env` keys.
    pub name: Seq<char>,
    /// What the variable is for.
    pub description: Seq<char>,
    /// The accepted values, in the order in which they are listed.
    pub values: Seq<ValueModel>,
    /// The value that holds when the variable is not set.
    pub default: Seq<char>,
    /// Deprecated, removed, or neither.
    pub state: Option<State>,
}

impl VariableModel {
    pub open spec fn is_deprecated(self) -> bool {
        self.state == Some(State::Deprecated)
    }

    pub open spec fn is_removed(self) -> bool {
        self.state == Some(State::Removed)
    }

    /// Some accepted value has exactly the literal text `text`.
    pub open spec fn accepts(self, text: Seq<char>) -> bool {
        exists|i: int| 0 <= i < self.values.len() && (#[trigger] self.values[i]).raw == text
    }

    /// The variable may be rendered. A removed variable always may. Any
    /// other must not have the arbitrary value as its default, and its
    /// default must be unset or one of its accepted values.
    pub open spec fn is_valid(self) -> bool {
        self.is_removed() || (!is_arbitrary_text(self.default) && (is_unset_text(self.default)
            || self.accepts(self.default)))
    }

    /// The outcome of checking the variable: the arbitrary default is
    /// reported before a default that is missing from the values.
    pub open spec fn validation(self) -> Result<(), ValidationFailure> {
        if self.is_removed() {
            Ok(())
        } else if is_arbitrary_text(self.default) {
            Err(ValidationFailure::ArbitraryDefault { name: self.name, default: self.default })
        } else if !is_unset_text(self.default) && !self.accepts(self.default) {
            Err(
                ValidationFailure::DefaultNotInValues {
                    name: self.name,
                    default: self.default,
                    values: raw_texts(self.values),
                },
            )
        } else {
            Ok(())
        }
    }

    /// The heading: an empty line, the name as inline code at the fifth
    /// level, and the marker of the state. It ends with an empty line, or
    /// for a removed variable with a single line feed.
    pub open spec fn heading_text(self) -> Seq<char> {
        let ending = match self.state {
            None => "`\n\n"@,
            Some(State::Deprecated) => "` [DEPRECATED]\n\n"@,
            Some(State::Removed) => "` [REMOVED]\n"@,
        };
        "\n##### `"@ + self.name + ending
    }

    /// The description, closed by an empty line.
    pub open spec fn description_text(self) -> Seq<char> {
        with_blank_line(self.description)
    }

    /// The default as it is shown in Markdown.
    pub open spec fn default_display_text(self) -> Seq<char> {
        if is_unset_text(self.default) {
            "unset (i.e. unused)"@
        } else {
            "`"@ + self.default + "`"@
        }
    }

    /// The paragraph that states the default, closed by an empty line.
    pub open spec fn default_text(self) -> Seq<char> {
        "Default: "@ + self.default_display_text() + "\n\n"@
    }

    /// The list of accepted values, one line each.
    pub open spec fn values_text(self, bullet: char) -> Seq<char> {
        lines_text(self.values, bullet)
    }

    /// The entry of the variable in a `.env` file: the name, an equals sign
    /// and the default as it stands, which for an unset default is nothing,
    /// followed by an empty line.
    pub open spec fn env_line_text(self) -> Seq<char> {
        self.name + "="@ + self.default + "\n\n"@
    }
}

/// The heading of a variable that was not removed ends with exactly two
/// line feeds, and so does the paragraph that states a default. The heading
/// of a removed variable ends with exactly one.
pub proof fn lemma_endings_of_heading_and_default(variable: VariableModel)
    ensures
        !variable.is_removed() ==> ends_with_blank_line(variable.heading_text())
            && !ends_with_more_than_blank_line(variable.heading_text()),
        variable.is_removed() ==> ends_with_newline(variable.heading_text())
            && !ends_with_blank_line(variable.heading_text()),
        ends_with_blank_line(variable.default_text()) && !ends_with_more_than_blank_line(
            variable.default_text(),
        ),
{
    reveal_strlit("`\n\n");
    reveal_strlit("` [DEPRECATED]\n\n");
    reveal_strlit("` [REMOVED]\n");
    reveal_strlit("\n\n");
    reveal_strlit("`");
    reveal_strlit("unset (i.e. unused)");
}

} // verus!
