//! The two documents: Markdown documentation and a `.env` file.
//!
//! Both are put together from the pieces that each variable provides, in the
//! order of the input. Every variable is checked before anything of it is
//! written, and the first one that is rejected stops the rendering.

use vstd::prelude::*;
use vstd::string::*;
use vstd::utf8::encode_utf8;
use crate::error::{ValidationError, ValidationFailure};
use crate::model::{lines_text, is_unset_text, ValueModel, VariableModel};
use crate::text::ends_with_newline;
use crate::variables::Variable;

verus! {

/// The models of `variables`, in order.
pub open spec fn variable_models(variables: Seq<Variable>) -> Seq<VariableModel> {
    variables.map_values(|variable: Variable| variable@)
}

/// The outcome of checking `variables` one after the other: the failure of
/// the first one that is rejected, if any is.
pub open spec fn validation_of_all(variables: Seq<VariableModel>) -> Result<(), ValidationFailure>
    decreases variables.len(),
{
    if variables.len() == 0 {
        Ok(())
    } else {
        match validation_of_all(variables.drop_last()) {
            Ok(_) => variables.last().validation(),
            Err(failure) => Err(failure),
        }
    }
}

/// What one variable adds to the Markdown document: for a removed variable
/// its heading alone, for any other its heading, its description, its
/// default and the list of its values.
pub open spec fn markdown_block(variable: VariableModel) -> Seq<char> {
    if variable.is_removed() {
        variable.heading_text()
    } else {
        variable.heading_text() + variable.description_text() + variable.default_text()
            + variable.values_text('-')
    }
}

/// The Markdown document for `variables`: their blocks, in order.
pub open spec fn markdown_text(variables: Seq<VariableModel>) -> Seq<char>
    decreases variables.len(),
{
    if variables.len() == 0 {
        Seq::empty()
    } else {
        markdown_text(variables.drop_last()) + markdown_block(variables.last())
    }
}

/// What one variable adds to the `.env` document: nothing if it was removed,
/// its entry otherwise.
pub open spec fn env_block(variable: VariableModel) -> Seq<char> {
    if variable.is_removed() {
        Seq::empty()
    } else {
        variable.env_line_text()
    }
}

/// The `.env` document for `variables`: their entries, in order.
pub open spec fn env_text(variables: Seq<VariableModel>) -> Seq<char>
    decreases variables.len(),
{
    if variables.len() == 0 {
        Seq::empty()
    } else {
        env_text(variables.drop_last()) + env_block(variables.last())
    }
}

/// The result of rendering `variables` as Markdown: the document, or the
/// failure of the first variable that is rejected.
pub open spec fn markdown_outcome(variables: Seq<VariableModel>) -> Result<
    Seq<char>,
    ValidationFailure,
> {
    match validation_of_all(variables) {
        Ok(_) => Ok(markdown_text(variables)),
        Err(failure) => Err(failure),
    }
}

/// The result of rendering `variables` as a `.env` file: the document, or
/// the failure of the first variable that is rejected.
pub open spec fn env_outcome(variables: Seq<VariableModel>) -> Result<
    Seq<char>,
    ValidationFailure,
> {
    match validation_of_all(variables) {
        Ok(_) => Ok(env_text(variables)),
        Err(failure) => Err(failure),
    }
}

/// A rendered document or an error, as the texts they stand for.
pub open spec fn rendering_view(rendered: Result<String, ValidationError>) -> Result<
    Seq<char>,
    ValidationFailure,
> {
    match rendered {
        Ok(document) => Ok(document@),
        Err(error) => Err(error@),
    }
}

/// A variable passes the check exactly if it is valid.
pub proof fn lemma_validation_decides_validity(variable: VariableModel)
    ensures
        variable.validation() is Ok <==> variable.is_valid(),
{
}

/// Checking a list stops at the first variable that is rejected: if all
/// before `index` pass and the one at `index` does not, its failure is the
/// outcome for the whole list, whatever follows.
pub proof fn lemma_first_rejection_decides(variables: Seq<VariableModel>, index: int)
    requires
        0 <= index < variables.len(),
        validation_of_all(variables.take(index)) is Ok,
        variables[index].validation() is Err,
    ensures
        validation_of_all(variables) == variables[index].validation(),
    decreases variables.len(),
{
    if index < variables.len() - 1 {
        assert(variables.drop_last().take(index) =~= variables.take(index));
        lemma_first_rejection_decides(variables.drop_last(), index);
    }
}

/// The lines of a list of values end with a line feed, if there are any.
pub proof fn lemma_lines_end_with_newline(values: Seq<ValueModel>, bullet: char)
    requires
        values.len() > 0,
    ensures
        ends_with_newline(lines_text(values, bullet)),
{
}

/// Every block of the Markdown document ends with a line feed.
pub proof fn lemma_markdown_block_ends_with_newline(variable: VariableModel)
    ensures
        ends_with_newline(markdown_block(variable)),
{
    reveal_strlit("` [REMOVED]\n");
    reveal_strlit("\n\n");
    if !variable.is_removed() && variable.values.len() > 0 {
        lemma_lines_end_with_newline(variable.values, '-');
    }
}

/// Renders the Markdown documentation of `variables`, in their order.
///
/// A removed variable gives its heading and nothing else. Any other gives
/// its heading, its description, its default and the list of its values,
/// each value on a line that starts with a hyphen. Every block ends with a
/// line feed and every heading starts with one, so that an empty line stands
/// between two variables.
///
/// Each variable is checked before it is written. The first one that is
/// rejected ends the rendering with its error.
pub fn render_markdown(variables: &[Variable]) -> (rendered: Result<String, ValidationError>)
    ensures
        rendering_view(rendered) == markdown_outcome(variable_models(variables@)),
        rendered matches Ok(document) ==> variables@.len() > 0 ==> ends_with_newline(document@),
{
    let ghost models = variable_models(variables@);
    let mut document = String::new();
    let mut index: usize = 0;
    while index < variables.len()
        invariant
            index <= variables.len(),
            models == variable_models(variables@),
            validation_of_all(models.take(index as int)) is Ok,
            document@ == markdown_text(models.take(index as int)),
            index > 0 ==> ends_with_newline(document@),
        decreases variables.len() - index,
    {
        let variable = &variables[index];
        proof {
            assert(models.take(index + 1).drop_last() =~= models.take(index as int));
            lemma_markdown_block_ends_with_newline(variable@);
        }
        match variable.validate() {
            Ok(_) => {},
            Err(error) => {
                proof {
                    lemma_first_rejection_decides(models, index as int);
                }
                return Err(error);
            },
        }
        let heading = variable.format_heading();
        document.append(heading.as_str());
        if !variable.is_removed() {
            let description = variable.format_description();
            let default = variable.format_default();
            let values = variable.render_values('-');
            document.append(description.as_str());
            document.append(default.as_str());
            document.append(values.as_str());
        }
        index += 1;
    }
    assert(models.take(index as int) =~= models);
    Ok(document)
}

/// Renders the `.env` file of `variables`, in their order.
///
/// A removed variable gives nothing. Any other gives its name, an equals
/// sign and its default, followed by an empty line.
///
/// Each variable is checked before it is written. The first one that is
/// rejected ends the rendering with its error.
pub fn render_env(variables: &[Variable]) -> (rendered: Result<String, ValidationError>)
    ensures
        rendering_view(rendered) == env_outcome(variable_models(variables@)),
{
    let ghost models = variable_models(variables@);
    let mut document = String::new();
    let mut index: usize = 0;
    while index < variables.len()
        invariant
            index <= variables.len(),
            models == variable_models(variables@),
            validation_of_all(models.take(index as int)) is Ok,
            document@ == env_text(models.take(index as int)),
        decreases variables.len() - index,
    {
        let variable = &variables[index];
        proof {
            assert(models.take(index + 1).drop_last() =~= models.take(index as int));
        }
        match variable.validate() {
            Ok(_) => {},
            Err(error) => {
                proof {
                    lemma_first_rejection_decides(models, index as int);
                }
                return Err(error);
            },
        }
        if !variable.is_removed() {
            let line = variable.format_for_env();
            document.append(line.as_str());
        }
        index += 1;
    }
    assert(models.take(index as int) =~= models);
    Ok(document)
}

/// The two documents that are rendered from one list of variables.
#[derive(Debug, PartialEq, Eq)]
pub struct Documents {
    /// The Markdown documentation.
    pub markdown: String,
    /// The `.env` file.
    pub env: String,
}

/// Renders both documents for `variables`, or neither: if any variable is
/// rejected, the error of the first such variable is all that is returned.
pub fn render(variables: &[Variable]) -> (rendered: Result<Documents, ValidationError>)
    ensures
        match rendered {
            Ok(documents) => {
                &&& validation_of_all(variable_models(variables@)) is Ok
                &&& documents.markdown@ == markdown_text(variable_models(variables@))
                &&& documents.env@ == env_text(variable_models(variables@))
            },
            Err(error) => validation_of_all(variable_models(variables@)) == Err::<
                (),
                ValidationFailure,
            >(error@),
        },
{
    let markdown = match render_markdown(variables) {
        Ok(document) => document,
        Err(error) => {
            return Err(error);
        },
    };
    let env = match render_env(variables) {
        Ok(document) => document,
        Err(error) => {
            return Err(error);
        },
    };
    Ok(Documents { markdown, env })
}

/// A list passes the check exactly if every variable in it is valid.
pub proof fn lemma_all_pass_iff_all_valid(variables: Seq<VariableModel>)
    ensures
        validation_of_all(variables) is Ok <==> forall|i: int|
            0 <= i < variables.len() ==> (#[trigger] variables[i]).is_valid(),
    decreases variables.len(),
{
    if variables.len() > 0 {
        let front = variables.drop_last();
        lemma_all_pass_iff_all_valid(front);
        if validation_of_all(variables) is Ok {
            assert forall|i: int| 0 <= i < variables.len() implies (#[trigger] variables[i])
                .is_valid() by {
                if i < front.len() {
                    assert(front[i].is_valid());
                }
            }
        }
    }
}

/// The Markdown document of two lists, one after the other, is the document
/// of the first followed by the document of the second.
pub proof fn lemma_markdown_text_of_concatenation(
    first: Seq<VariableModel>,
    second: Seq<VariableModel>,
)
    ensures
        markdown_text(first + second) == markdown_text(first) + markdown_text(second),
    decreases second.len(),
{
    if second.len() > 0 {
        assert((first + second).drop_last() =~= first + second.drop_last());
        lemma_markdown_text_of_concatenation(first, second.drop_last());
    }
}

/// The `.env` document of two lists, one after the other, is the document of
/// the first followed by the document of the second.
pub proof fn lemma_env_text_of_concatenation(
    first: Seq<VariableModel>,
    second: Seq<VariableModel>,
)
    ensures
        env_text(first + second) == env_text(first) + env_text(second),
    decreases second.len(),
{
    if second.len() > 0 {
        assert((first + second).drop_last() =~= first + second.drop_last());
        lemma_env_text_of_concatenation(first, second.drop_last());
    }
}

/// A removed variable, rendered alone, gives one heading that carries the
/// marker `[REMOVED]` and ends the line: no description, no default and no
/// values follow, whatever the variable holds. Its `.env` document is empty.
pub proof fn lemma_removed_variable_alone(variable: VariableModel)
    requires
        variable.is_removed(),
    ensures
        markdown_outcome(seq![variable]) == Ok::<Seq<char>, ValidationFailure>(
            "\n##### `"@ + variable.name + "` [REMOVED]\n"@,
        ),
        env_outcome(seq![variable]) == Ok::<Seq<char>, ValidationFailure>(Seq::empty()),
{
    let alone = seq![variable];
    assert(markdown_text(alone) =~= markdown_block(variable)) by {
        reveal_with_fuel(markdown_text, 2);
    }
    assert(env_text(alone) =~= env_block(variable)) by {
        reveal_with_fuel(env_text, 2);
    }
    assert(validation_of_all(alone) is Ok) by {
        reveal_with_fuel(validation_of_all, 2);
    }
}

/// A removed variable never shows in the `.env` document: taking it out of
/// the list leaves the document as it was.
pub proof fn lemma_removed_variable_adds_nothing_to_env(
    before: Seq<VariableModel>,
    variable: VariableModel,
    after: Seq<VariableModel>,
)
    requires
        variable.is_removed(),
    ensures
        env_text(before + seq![variable] + after) == env_text(before + after),
{
    let alone = seq![variable];
    assert(env_text(alone) =~= Seq::<char>::empty()) by {
        reveal_with_fuel(env_text, 2);
    }
    lemma_env_text_of_concatenation(before, alone);
    lemma_env_text_of_concatenation(before + alone, after);
    lemma_env_text_of_concatenation(before, after);
}

/// A variable that was not removed and whose default is unset gives exactly
/// one entry in the `.env` document: its name and an equals sign with
/// nothing behind it, followed by an empty line.
pub proof fn lemma_env_entry_of_unset_default(variable: VariableModel)
    requires
        !variable.is_removed(),
        is_unset_text(variable.default),
    ensures
        env_block(variable) == variable.name + "=\n\n"@,
        env_text(seq![variable]) == variable.name + "=\n\n"@,
{
    reveal_strlit("=");
    reveal_strlit("\n\n");
    reveal_strlit("=\n\n");
    let alone = seq![variable];
    assert(env_text(alone) =~= env_block(variable)) by {
        reveal_with_fuel(env_text, 2);
    }
}

/// Rendering Markdown is repeatable: whatever two renderings of the same
/// variables return, both hold the same document, byte for byte, or both
/// hold the same failure.
pub proof fn lemma_markdown_rendering_is_repeatable(
    variables: Seq<Variable>,
    first: Result<String, ValidationError>,
    second: Result<String, ValidationError>,
)
    requires
        rendering_view(first) == markdown_outcome(variable_models(variables)),
        rendering_view(second) == markdown_outcome(variable_models(variables)),
    ensures
        rendering_view(first) == rendering_view(second),
        first matches Ok(document) ==> second matches Ok(again) && document@ == again@
            && encode_utf8(document@) == encode_utf8(again@),
        first matches Err(error) ==> second matches Err(again) && error@ == again@,
{
}

/// Rendering a `.env` file is repeatable: whatever two renderings of the
/// same variables return, both hold the same document, byte for byte, or
/// both hold the same failure.
pub proof fn lemma_env_rendering_is_repeatable(
    variables: Seq<Variable>,
    first: Result<String, ValidationError>,
    second: Result<String, ValidationError>,
)
    requires
        rendering_view(first) == env_outcome(variable_models(variables)),
        rendering_view(second) == env_outcome(variable_models(variables)),
    ensures
        rendering_view(first) == rendering_view(second),
        first matches Ok(document) ==> second matches Ok(again) && document@ == again@
            && encode_utf8(document@) == encode_utf8(again@),
        first matches Err(error) ==> second matches Err(again) && error@ == again@,
{
}

} // verus!
