//! The three paths a run works on: where the descriptions are read from and
//! where the two documents are written to.

use vstd::prelude::*;
use vstd::string::*;

verus! {

/// The paths of a run, as texts.
pub struct ArgumentsModel {
    /// The path to the input YAML file.
    pub input_file_path: Seq<char>,
    /// The path to the output Markdown file.
    pub output_file_path_markdown: Seq<char>,
    /// The path to the output `.env` file.
    pub output_file_path_env: Seq<char>,
}

/// The arguments of a run.
#[derive(Debug, PartialEq, Eq)]
pub struct Arguments {
    /// The path to the input YAML file.
    input_file_path: String,
    /// The path to the output Markdown file (i.e. the documentation).
    output_file_path_markdown: String,
    /// The path to the output `*.env` file.
    output_file_path_env: String,
}

impl View for Arguments {
    type V = ArgumentsModel;

    closed spec fn view(&self) -> ArgumentsModel {
        ArgumentsModel {
            input_file_path: self.input_file_path@,
            output_file_path_markdown: self.output_file_path_markdown@,
            output_file_path_env: self.output_file_path_env@,
        }
    }
}

impl Arguments {
    /// The arguments that name the given three paths.
    pub fn new(
        input_file_path: String,
        output_file_path_markdown: String,
        output_file_path_env: String,
    ) -> (created: Arguments)
        ensures
            created@ == (ArgumentsModel {
                input_file_path: input_file_path@,
                output_file_path_markdown: output_file_path_markdown@,
                output_file_path_env: output_file_path_env@,
            }),
    {
        Arguments { input_file_path, output_file_path_markdown, output_file_path_env }
    }

    /// Returns the path to the input YAML file.
    pub fn get_input_file_path(&self) -> (path: &str)
        ensures
            path@ == self@.input_file_path,
    {
        self.input_file_path.as_str()
    }

    /// Returns the path to the output Markdown file (i.e. the documentation).
    pub fn get_output_file_path_markdown(&self) -> (path: &str)
        ensures
            path@ == self@.output_file_path_markdown,
    {
        self.output_file_path_markdown.as_str()
    }

    /// Returns the path to the output `*.env` file.
    pub fn get_output_file_path_env(&self) -> (path: &str)
        ensures
            path@ == self@.output_file_path_env,
    {
        self.output_file_path_env.as_str()
    }
}

} // verus!
