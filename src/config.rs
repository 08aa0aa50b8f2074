use vstd::prelude::*;

verus! {

/// The stylesheet linked from every generated page.
pub const GITHUB_CSS_URL: &'static str =
    "https://cdnjs.cloudflare.com/ajax/libs/github-markdown-css/4.0.0/github-markdown.min.css";

/// The class that the stylesheet styles, put on the page body.
pub const MARKDOWN_CLASS: &'static str = "markdown-body";

/// What a conversion produces.
#[derive(Clone, Copy, Debug, PartialEq, Eq, Structural)]
pub enum OutputFormat {
    Html,
    Pdf,
}

/// What the file system says of the input path.
#[derive(Clone, Copy, Debug, PartialEq, Eq, Structural)]
pub enum InputStatus {
    /// A regular file.
    File,
    /// Nothing exists at the path.
    Missing,
    /// Something exists at the path, but it is not a regular file.
    NotAFile,
}

/// The file extension of each output format.
pub open spec fn extension_of(format: OutputFormat) -> Seq<char> {
    match format {
        OutputFormat::Html => "html"@,
        OutputFormat::Pdf => "pdf"@,
    }
}

/// The path `path` with the extension of its file name set to `ext`, under
/// the path syntax of the target built for (separators differ between Unix
/// and Windows builds).
pub uninterp spec fn with_extension_of(path: Seq<char>, ext: Seq<char>) -> Seq<char>;

/// Relies on std's `Path::with_extension`: the path with the extension of its
/// last component replaced by `ext`. A path made of a `str` and an ASCII
/// extension converts back to a string without loss. The call panics on an
/// extension holding a path separator, so only the two output extensions are
/// admitted.
#[verifier::external_body]
fn path_with_extension(path: &str, ext: &str) -> (r: String)
    requires
        ext@ == "html"@ || ext@ == "pdf"@,
    ensures
        r@ == with_extension_of(path@, ext@),
{
    std::path::Path::new(path).with_extension(ext).to_string_lossy().into_owned()
}

/// Where output goes when no output path is given: the input path with the
/// format's extension.
pub open spec fn default_output(input: Seq<char>, format: OutputFormat) -> Seq<char> {
    with_extension_of(input, extension_of(format))
}

pub open spec fn missing_message(input: Seq<char>) -> Seq<char> {
    "Input file '"@ + input + "' does not exist"@
}

pub open spec fn not_a_file_message(input: Seq<char>) -> Seq<char> {
    "'"@ + input + "' is not a file"@
}

/// A checked conversion request.
#[derive(Debug)]
pub struct Config {
    pub input_file: String,
    pub output_file: String,
    pub output_format: OutputFormat,
    pub css_url: String,
    pub css_class: String,
}

impl Config {
    /// Builds a conversion request for an input whose state on disk is `status`.
    /// The output path is `output_file` when given, else the input path with
    /// the format's extension.
    pub fn new(
        input_file: &str,
        output_file: Option<&str>,
        format: OutputFormat,
        status: InputStatus,
    ) -> (r: Result<Config, String>)
        ensures
            status is Missing ==> r is Err && r->Err_0@ == missing_message(input_file@),
            status is NotAFile ==> r is Err && r->Err_0@ == not_a_file_message(input_file@),
            status is File ==> r is Ok,
            r is Ok ==> r->Ok_0.input_file@ == input_file@ && r->Ok_0.output_format == format
                && r->Ok_0.css_url@ == GITHUB_CSS_URL@ && r->Ok_0.css_class@ == MARKDOWN_CLASS@
                && r->Ok_0.output_file@ == match output_file {
                Some(o) => o@,
                None => default_output(input_file@, format),
            },
    {
        match status {
            InputStatus::Missing => {
                let mut m = String::from_str("Input file '");
                m.append(input_file);
                m.append("' does not exist");
                return Err(m);
            },
            InputStatus::NotAFile => {
                let mut m = String::from_str("'");
                m.append(input_file);
                m.append("' is not a file");
                return Err(m);
            },
            InputStatus::File => {},
        }
        let output = match output_file {
            Some(o) => String::from_str(o),
            None => {
                let ext = match format {
                    OutputFormat::Html => "html",
                    OutputFormat::Pdf => "pdf",
                };
                path_with_extension(input_file, ext)
            },
        };
        Ok(
            Config {
                input_file: String::from_str(input_file),
                output_file: output,
                output_format: format,
                css_url: String::from_str(GITHUB_CSS_URL),
                css_class: String::from_str(MARKDOWN_CLASS),
            },
        )
    }
}

/// The two ways of producing a PDF; configuration fixes which one is used.
#[derive(Clone, Copy, Debug, PartialEq, Eq, Structural)]
pub enum PdfStrategy {
    /// A command-line converter run on the HTML file.
    Subprocess,
    /// A headless browser driven through its control endpoint.
    Browser,
}

/// The PDF producer a request needs: none for HTML output, the configured
/// one for PDF output.
pub fn pdf_strategy(format: OutputFormat, configured: PdfStrategy) -> (r: Option<PdfStrategy>)
    ensures
        format is Html ==> r is None,
        format is Pdf ==> r == Some(configured),
{
    match format {
        OutputFormat::Html => None,
        OutputFormat::Pdf => Some(configured),
    }
}

} // verus!
