//! Run configuration: the command-line options and the per-format settings
//! consumed read-only by the renderers.

use vstd::prelude::*;
use vstd::string::StringExecFns;

verus! {

/// The command-line options of the generator.  Parsing them from an actual
/// command line happens outside the library; the renderers only read them.
#[derive(Debug, Clone)]
pub struct Arguments {
    /// The resume data file.
    pub resume_input: String,
    /// The name to use for the generated resumes.
    pub output_name: String,
    /// The name to use for the generated cover letters.  Defaults to
    /// appending `-cover_letter` to the output name.
    pub cover_letter_output_name: Option<String>,
    /// The directory in which resume files will be placed.
    pub output_dir: Option<String>,
    /// Configuration file for the various resume formats.
    pub format_config: Option<String>,
    /// Override the email in the resume data with this one.
    pub email: Option<String>,
}

impl Default for Arguments {
    fn default() -> (r: Self)
        ensures
            r.resume_input@ == Seq::<char>::empty(),
            r.output_name@ == Seq::<char>::empty(),
            r.cover_letter_output_name is None,
            r.output_dir is None,
            r.format_config is None,
            r.email is None,
    {
        Arguments {
            resume_input: String::new(),
            output_name: String::new(),
            cover_letter_output_name: None,
            output_dir: None,
            format_config: None,
            email: None,
        }
    }
}

/// Settings for the plain-text renderer.
#[derive(Debug, Clone)]
pub struct TextConfig {
    /// The column budget text is wrapped and aligned against.
    pub width: usize,
}

impl Default for TextConfig {
    fn default() -> (r: Self)
        ensures
            r.width == 100,
    {
        TextConfig { width: 100 }
    }
}

/// Settings for the typeset-document renderer.
#[derive(Debug, Clone)]
pub struct PdfConfig {
    /// The page margin handed to the geometry package.
    pub margin: String,
}

impl Default for PdfConfig {
    fn default() -> (r: Self)
        ensures
            r.margin@ == "0.75in"@,
    {
        PdfConfig { margin: String::from_str("0.75in") }
    }
}

/// Settings for the Markdown renderer.
#[derive(Debug, Clone)]
pub struct MarkdownConfig {
    /// The column budget long lines are wrapped against.
    pub width: usize,
}

impl Default for MarkdownConfig {
    fn default() -> (r: Self)
        ensures
            r.width == 120,
    {
        MarkdownConfig { width: 120 }
    }
}

/// The per-format settings, one block per renderer.
#[derive(Debug, Clone)]
pub struct FormatConfig {
    pub text_config: TextConfig,
    pub pdf_config: PdfConfig,
    pub markdown_config: MarkdownConfig,
}

impl Default for FormatConfig {
    fn default() -> (r: Self)
        ensures
            r.text_config.width == 100,
            r.pdf_config.margin@ == "0.75in"@,
            r.markdown_config.width == 120,
    {
        FormatConfig {
            text_config: TextConfig::default(),
            pdf_config: PdfConfig::default(),
            markdown_config: MarkdownConfig::default(),
        }
    }
}

/// Everything the renderers need to know about a run: the format settings
/// and the command-line options.
#[derive(Debug, Clone)]
pub struct Config {
    pub format_config: FormatConfig,
    pub args: Arguments,
}

impl Default for Config {
    fn default() -> (r: Self)
        ensures
            r.format_config.text_config.width == 100,
            r.format_config.pdf_config.margin@ == "0.75in"@,
            r.format_config.markdown_config.width == 120,
            r.args.output_name@ == Seq::<char>::empty(),
            r.args.cover_letter_output_name is None,
            r.args.output_dir is None,
            r.args.email is None,
    {
        Config { format_config: FormatConfig::default(), args: Arguments::default() }
    }
}

impl Config {
    /// Builds a configuration from already-parsed parts.  Reading the format
    /// settings from a file happens outside the library.
    pub fn new(format_config: FormatConfig, args: Arguments) -> (r: Config)
        ensures
            r.format_config == format_config,
            r.args == args,
    {
        Config { format_config, args }
    }
}

} // verus!
