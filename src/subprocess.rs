use vstd::prelude::*;
use crate::error::ConversionError;

verus! {

/// The command-line HTML-to-PDF converter.
pub const CONVERTER_PROGRAM: &'static str = "wkhtmltopdf";

/// What to tell the user when the converter cannot be run.
pub const CONVERTER_INSTALL_HINT: &'static str =
    "wkhtmltopdf is not installed or not on PATH. Install it with `sudo apt-get install wkhtmltopdf` (Debian/Ubuntu), `brew install --cask wkhtmltopdf` (macOS), or the installer from https://wkhtmltopdf.org/downloads.html (Windows).";

/// The views of a sequence of strings.
pub open spec fn strs_view(v: Seq<String>) -> Seq<Seq<char>> {
    v.map_values(|s: String| s@)
}

/// The arguments of the availability probe.
pub open spec fn probe_args_of() -> Seq<Seq<char>> {
    seq!["--version"@]
}

/// The arguments of a conversion: local file access, print media, 20 mm
/// margins on every side, A4 paper, UTF-8 input, then the two paths.
pub open spec fn converter_args_of(html_file: Seq<char>, pdf_file: Seq<char>) -> Seq<Seq<char>> {
    seq![
        "--enable-local-file-access"@,
        "--print-media-type"@,
        "--margin-top"@,
        "20mm"@,
        "--margin-bottom"@,
        "20mm"@,
        "--margin-left"@,
        "20mm"@,
        "--margin-right"@,
        "20mm"@,
        "--page-size"@,
        "A4"@,
        "--encoding"@,
        "UTF-8"@,
        html_file,
        pdf_file,
    ]
}

/// The arguments that ask the converter for its version.
pub fn probe_args() -> (r: Vec<String>)
    ensures
        strs_view(r@) == probe_args_of(),
{
    let r = vec![String::from_str("--version")];
    assert(strs_view(r@) =~= probe_args_of());
    r
}

/// The arguments that convert `html_file` into `pdf_file`.
pub fn converter_args(html_file: &str, pdf_file: &str) -> (r: Vec<String>)
    ensures
        strs_view(r@) == converter_args_of(html_file@, pdf_file@),
{
    let r = vec![
        String::from_str("--enable-local-file-access"),
        String::from_str("--print-media-type"),
        String::from_str("--margin-top"),
        String::from_str("20mm"),
        String::from_str("--margin-bottom"),
        String::from_str("20mm"),
        String::from_str("--margin-left"),
        String::from_str("20mm"),
        String::from_str("--margin-right"),
        String::from_str("20mm"),
        String::from_str("--page-size"),
        String::from_str("A4"),
        String::from_str("--encoding"),
        String::from_str("UTF-8"),
        String::from_str(html_file),
        String::from_str(pdf_file),
    ];
    assert(strs_view(r@) =~= converter_args_of(html_file@, pdf_file@));
    r
}

/// How a run of an external program ended.
#[derive(Debug)]
pub enum RunOutcome {
    /// The program could not be started.
    NotStarted,
    /// The program ran; `success` tells whether its exit status was zero.
    Exited { success: bool, stderr: String },
}

/// Whether the converter is usable, judged from its version probe.
pub fn probe_result(probe: &RunOutcome) -> (r: Result<(), ConversionError>)
    ensures
        r is Ok <==> (probe is Exited && probe->success),
        r is Err ==> r->Err_0 is ProcessUnavailable && r->Err_0->ProcessUnavailable_0@
            == CONVERTER_INSTALL_HINT@,
{
    match probe {
        RunOutcome::Exited { success: true, .. } => Ok(()),
        _ => Err(ConversionError::ProcessUnavailable(String::from_str(CONVERTER_INSTALL_HINT))),
    }
}

/// The result of a conversion run: success on a zero exit status, the
/// converter's standard error on any other.
pub fn conversion_result(run: RunOutcome) -> (r: Result<(), ConversionError>)
    ensures
        r is Ok <==> (run is Exited && run->success),
        run is NotStarted ==> r is Err && r->Err_0 is ProcessUnavailable
            && r->Err_0->ProcessUnavailable_0@ == CONVERTER_INSTALL_HINT@,
        run is Exited && !run->success ==> r is Err && r->Err_0 is ConversionFailure
            && r->Err_0->ConversionFailure_0@ == run->stderr@,
{
    match run {
        RunOutcome::NotStarted => Err(
            ConversionError::ProcessUnavailable(String::from_str(CONVERTER_INSTALL_HINT)),
        ),
        RunOutcome::Exited { success, stderr } => {
            if success {
                Ok(())
            } else {
                Err(ConversionError::ConversionFailure(stderr))
            }
        },
    }
}

} // verus!
