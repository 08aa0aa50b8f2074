use vstd::prelude::*;
use crate::error::{error_detail, kind_of, ConversionError, ErrorKind};
use crate::subprocess::strs_view;

verus! {

#[verifier::external_type_specification]
#[verifier::external_body]
pub struct ExDecodeError(base64::DecodeError);

/// The bytes that the standard base64 alphabet, with padding, decodes `text`
/// to, or `None` where `text` is not valid base64.
pub uninterp spec fn base64_decoded(text: Seq<char>) -> Option<Seq<u8>>;

/// Relies on `base64::decode` (standard alphabet, padding): the decoded
/// bytes, or an error where the input is not valid base64.
#[verifier::external_body]
fn decode_base64(text: &str) -> (r: Result<Vec<u8>, base64::DecodeError>)
    ensures
        r is Ok <==> base64_decoded(text@) is Some,
        r is Ok ==> r->Ok_0@ == base64_decoded(text@)->Some_0,
{
    base64::decode(text)
}

/// Relies on the `Display` impl of `base64::DecodeError` for a readable reason.
#[verifier::external_body]
fn decode_error_text(e: &base64::DecodeError) -> String {
    e.to_string()
}

/// How many browser programs are tried, in order.
pub const BROWSER_CANDIDATES: usize = 3;

/// The browser program tried at position `i`.
pub open spec fn candidate_name(i: int) -> Seq<char> {
    if i == 0 {
        "chrome"@
    } else if i == 1 {
        "chromium"@
    } else {
        "google-chrome"@
    }
}

/// The browser program tried at position `i`.
pub fn browser_candidate(i: usize) -> (r: String)
    requires
        i < BROWSER_CANDIDATES,
    ensures
        r@ == candidate_name(i as int),
{
    if i == 0 {
        String::from_str("chrome")
    } else if i == 1 {
        String::from_str("chromium")
    } else {
        String::from_str("google-chrome")
    }
}

pub open spec fn browser_args_of() -> Seq<Seq<char>> {
    seq![
        "--headless"@,
        "--disable-gpu"@,
        "--no-sandbox"@,
        "--disable-dev-shm-usage"@,
        "--remote-debugging-port=9222"@,
        "--disable-web-security"@,
        "--allow-running-insecure-content"@,
    ]
}

/// The arguments every browser candidate is started with.
pub fn browser_args() -> (r: Vec<String>)
    ensures
        strs_view(r@) == browser_args_of(),
{
    let r = vec![
        String::from_str("--headless"),
        String::from_str("--disable-gpu"),
        String::from_str("--no-sandbox"),
        String::from_str("--disable-dev-shm-usage"),
        String::from_str("--remote-debugging-port=9222"),
        String::from_str("--disable-web-security"),
        String::from_str("--allow-running-insecure-content"),
    ];
    assert(strs_view(r@) =~= browser_args_of());
    r
}

/// Milliseconds to wait after starting the browser.
pub const STARTUP_WAIT_MS: u64 = 1000;

/// Milliseconds to wait after navigating, for the page to load.
pub const LOAD_WAIT_MS: u64 = 2000;

/// The browser's control endpoint.
pub const CONTROL_ENDPOINT: &'static str = "http://localhost:9222";

pub const BROWSER_MISSING: &'static str =
    "Could not start Chrome/Chromium. Please ensure Chrome or Chromium is installed.";

pub const NO_PAGE_TARGET: &'static str = "No page target found";

pub const NO_WEBSOCKET_URL: &'static str = "No WebSocket URL found";

pub const NO_TAB_ID: &'static str = "Failed to get tab ID";

pub const NAVIGATE_FAILED: &'static str = "Failed to navigate to HTML file";

pub const PRINT_FAILED: &'static str = "Failed to generate PDF";

pub const NO_PDF_DATA: &'static str = "No PDF data received";

pub const DECODE_FAILED: &'static str = "Failed to decode PDF data: ";

pub const UNEXPECTED_REPLY: &'static str = "Unexpected reply from the browser";

/// The address of a control request.
pub open spec fn endpoint(path: Seq<char>) -> Seq<char> {
    CONTROL_ENDPOINT@ + path
}

fn endpoint_path(path: &str) -> (r: String)
    ensures
        r@ == endpoint(path@),
{
    let mut r = String::from_str(CONTROL_ENDPOINT);
    r.append(path);
    r
}

fn endpoint_url(path: &str, id: &str) -> (r: String)
    ensures
        r@ == endpoint(path@ + id@),
{
    let mut r = String::from_str(CONTROL_ENDPOINT);
    r.append(path);
    r.append(id);
    assert(r@ =~= endpoint(path@ + id@));
    r
}

/// Paper and margins of the printed page, in hundredths of an inch.
#[derive(Clone, Copy, Debug, PartialEq, Eq, Structural)]
pub struct PrintOptions {
    pub landscape: bool,
    pub display_header_footer: bool,
    pub print_background: bool,
    pub prefer_css_page_size: bool,
    pub paper_width: u32,
    pub paper_height: u32,
    pub margin_top: u32,
    pub margin_bottom: u32,
    pub margin_left: u32,
    pub margin_right: u32,
}

/// A4 portrait with backgrounds, the page size of the CSS preferred, and
/// 0.4-inch margins all round.
pub open spec fn a4_print_options() -> PrintOptions {
    PrintOptions {
        landscape: false,
        display_header_footer: false,
        print_background: true,
        prefer_css_page_size: true,
        paper_width: 827,
        paper_height: 1169,
        margin_top: 40,
        margin_bottom: 40,
        margin_left: 40,
        margin_right: 40,
    }
}

pub fn print_options() -> (r: PrintOptions)
    ensures
        r == a4_print_options(),
{
    PrintOptions {
        landscape: false,
        display_header_footer: false,
        print_background: true,
        prefer_css_page_size: true,
        paper_width: 827,
        paper_height: 1169,
        margin_top: 40,
        margin_bottom: 40,
        margin_left: 40,
        margin_right: 40,
    }
}

/// What the control endpoint lists of one target.
#[derive(Debug)]
pub struct TargetInfo {
    /// The `type` field, where it is a string.
    pub target_type: Option<String>,
    /// The `webSocketDebuggerUrl` field, where it is a string.
    pub ws_url: Option<String>,
}

pub open spec fn is_page(t: TargetInfo) -> bool {
    t.target_type is Some && t.target_type->Some_0@ == "page"@
}

/// `k` is the position of the first page target.
pub open spec fn first_page_at(ts: Seq<TargetInfo>, k: int) -> bool {
    0 <= k < ts.len() && is_page(ts[k]) && forall|j: int| 0 <= j < k ==> !is_page(#[trigger] ts[j])
}

/// The position of the first page target, if any.
pub fn find_page_target(ts: &Vec<TargetInfo>) -> (r: Option<usize>)
    ensures
        r is Some ==> first_page_at(ts@, r->Some_0 as int),
        r is None ==> forall|j: int| 0 <= j < ts@.len() ==> !is_page(#[trigger] ts@[j]),
{
    let page = String::from_str("page");
    let mut i: usize = 0;
    while i < ts.len()
        invariant
            i <= ts@.len(),
            page@ == "page"@,
            forall|j: int| 0 <= j < i ==> !is_page(#[trigger] ts@[j]),
        decreases ts@.len() - i,
    {
        if let Some(t) = &ts[i].target_type {
            if *t == page {
                return Some(i);
            }
        }
        i = i + 1;
    }
    None
}

/// Where the orchestration stands.
#[derive(Clone, Copy, Debug, PartialEq, Eq, Structural)]
pub enum Phase {
    /// About to start the browser candidate at this position.
    NotStarted(usize),
    ProcessSpawned,
    DebuggerReady,
    /// The targets were listed; a new tab was asked for.
    TargetsListed,
    TabCreated,
    Navigated,
    /// The print request is out.
    Printing,
    /// The PDF is being written.
    Writing,
    /// The outcome is known; the tab is being closed.
    ClosingTab,
    /// The outcome is known; the process is being ended.
    Killing,
    Closed,
}

/// What the caller must do next.
#[derive(Debug)]
pub enum Action {
    /// Start this browser program with [`browser_args`].
    Spawn(String),
    /// Sleep this many milliseconds.
    Wait(u64),
    /// GET this address: the target list.
    ListTargets(String),
    /// Ask this address for a new tab.
    NewTab(String),
    /// Ask `url` to load the page `page_url`.
    Navigate { url: String, page_url: String },
    /// Ask `url` for a PDF printed with `options`.
    Print { url: String, options: PrintOptions },
    /// Write these bytes to the destination PDF file.
    WritePdf(Vec<u8>),
    /// Ask this address to close the tab; the answer does not matter.
    CloseTab(String),
    /// End the browser process; whether that works does not matter.
    Kill,
    /// Nothing is left to do; the outcome is in the orchestrator.
    Finish,
}

/// What came of the last action.
#[derive(Debug)]
pub enum Event {
    Started,
    StartFailed,
    Waited,
    /// The target list.
    Targets(Vec<TargetInfo>),
    /// The `id` field of the new tab's description, where it is a string.
    TabCreated(Option<String>),
    /// Whether the navigation request got a success status.
    Navigated(bool),
    /// The status of the print request, and its `data` field where that is a string.
    PrintReply { ok: bool, data: Option<String> },
    Written,
    WriteFailed(String),
    /// The control endpoint could not be reached.
    Unreachable(String),
    /// A cleanup step was carried out, whatever came of it.
    CleanedUp,
}

/// Whether `e` is what the phase `p` waits for.
pub open spec fn expected(p: Phase, e: Event) -> bool {
    match p {
        Phase::NotStarted(_) => e is Started || e is StartFailed,
        Phase::ProcessSpawned => e is Waited,
        Phase::DebuggerReady => e is Targets,
        Phase::TargetsListed => e is TabCreated,
        Phase::TabCreated => e is Navigated,
        Phase::Navigated => e is Waited,
        Phase::Printing => e is PrintReply,
        Phase::Writing => e is Written || e is WriteFailed,
        _ => true,
    }
}

/// Drives one conversion through a headless browser.
#[derive(Debug)]
pub struct Orchestrator {
    pub phase: Phase,
    /// The HTML file to print.
    pub html_path: String,
    /// The tab that is open, if any.
    pub tab_id: Option<String>,
    /// Whether a browser process was started and not yet ended.
    pub process_live: bool,
    /// The result, once it is known.
    pub outcome: Option<Result<(), ConversionError>>,
}

pub open spec fn close_url(id: Seq<char>) -> Seq<char> {
    endpoint("/json/close/"@ + id)
}

/// The first cleanup step after the outcome of `before` was decided: close
/// the tab if one is open, else end the process if one runs, else finish.
pub open spec fn cleanup_begun(before: Orchestrator, after: Orchestrator, a: Action) -> bool {
    &&& after.outcome is Some
    &&& before.tab_id is Some ==> after.phase == Phase::ClosingTab && after.tab_id
        == before.tab_id && after.process_live && a is CloseTab && a->CloseTab_0@ == close_url(
        before.tab_id->Some_0@,
    )
    &&& before.tab_id is None && before.process_live ==> after.phase == Phase::Killing
        && after.tab_id is None && after.process_live && a is Kill
    &&& before.tab_id is None && !before.process_live ==> after.phase == Phase::Closed
        && after.tab_id is None && !after.process_live && a is Finish
}

/// The orchestration failed with an error of kind `k` and detail `detail`.
pub open spec fn failed_as(o: Orchestrator, k: ErrorKind, detail: Seq<char>) -> bool {
    &&& o.outcome is Some
    &&& o.outcome->Some_0 is Err
    &&& kind_of(o.outcome->Some_0->Err_0) == k
    &&& error_detail(o.outcome->Some_0->Err_0) == detail
}

impl Orchestrator {
    /// Which resources each phase holds, and that the outcome is known
    /// exactly in the cleanup phases.
    pub open spec fn wf(&self) -> bool {
        &&& self.outcome is Some <==> (self.phase is ClosingTab || self.phase is Killing
            || self.phase is Closed)
        &&& match self.phase {
            Phase::NotStarted(i) => i < BROWSER_CANDIDATES && !self.process_live
                && self.tab_id is None,
            Phase::ProcessSpawned | Phase::DebuggerReady | Phase::TargetsListed => self.process_live
                && self.tab_id is None,
            Phase::TabCreated | Phase::Navigated | Phase::Printing | Phase::Writing => self.process_live
                && self.tab_id is Some,
            Phase::ClosingTab => self.process_live && self.tab_id is Some,
            Phase::Killing => self.process_live && self.tab_id is None,
            Phase::Closed => !self.process_live && self.tab_id is None,
        }
    }

    /// A new orchestration for the HTML file at `html_path`, and its first
    /// action: starting the first browser candidate.
    pub fn begin(html_path: &str) -> (r: (Orchestrator, Action))
        ensures
            r.0.wf(),
            r.0.phase == Phase::NotStarted(0),
            r.0.html_path@ == html_path@,
            r.1 is Spawn && r.1->Spawn_0@ == candidate_name(0),
    {
        let o = Orchestrator {
            phase: Phase::NotStarted(0),
            html_path: String::from_str(html_path),
            tab_id: None,
            process_live: false,
            outcome: None,
        };
        (o, Action::Spawn(browser_candidate(0)))
    }

    /// Starts the cleanup once the outcome is known.
    fn wind_down(&mut self) -> (a: Action)
        requires
            old(self).outcome is Some,
            old(self).tab_id is Some ==> old(self).process_live,
        ensures
            final(self).wf(),
            final(self).outcome == old(self).outcome,
            final(self).html_path == old(self).html_path,
            cleanup_begun(*old(self), *final(self), a),
    {
        match &self.tab_id {
            Some(id) => {
                let url = endpoint_url("/json/close/", id.as_str());
                self.phase = Phase::ClosingTab;
                Action::CloseTab(url)
            },
            None => {
                if self.process_live {
                    self.phase = Phase::Killing;
                    Action::Kill
                } else {
                    self.phase = Phase::Closed;
                    Action::Finish
                }
            },
        }
    }

    /// Records the failure `e` and starts the cleanup.
    fn fail(&mut self, e: ConversionError) -> (a: Action)
        requires
            old(self).outcome is None,
            old(self).tab_id is Some ==> old(self).process_live,
        ensures
            final(self).wf(),
            final(self).outcome == Some(Err::<(), ConversionError>(e)),
            final(self).html_path == old(self).html_path,
            cleanup_begun(*old(self), *final(self), a),
    {
        self.outcome = Some(Err(e));
        self.wind_down()
    }

    /// Handles the print reply's decoded payload: the bytes are written out,
    /// a decoding failure ends the conversion.
    pub fn take_pdf(&mut self, decoded: Result<Vec<u8>, String>) -> (a: Action)
        requires
            old(self).wf(),
            old(self).phase == Phase::Printing,
        ensures
            final(self).wf(),
            final(self).html_path == old(self).html_path,
            decoded is Ok ==> final(self).phase == Phase::Writing && final(self).tab_id
                == old(self).tab_id && a is WritePdf && a->WritePdf_0@ == decoded->Ok_0@,
            decoded is Err ==> failed_as(
                *final(self),
                ErrorKind::Conversion,
                DECODE_FAILED@ + decoded->Err_0@,
            ) && cleanup_begun(*old(self), *final(self), a),
    {
        match decoded {
            Ok(bytes) => {
                self.phase = Phase::Writing;
                Action::WritePdf(bytes)
            },
            Err(reason) => {
                let mut detail = String::from_str(DECODE_FAILED);
                detail.append(reason.as_str());
                self.fail(ConversionError::ConversionFailure(detail))
            },
        }
    }

    /// Takes the result of the last action and returns the next one. Every
    /// failure, and success, first closes the open tab and ends the started
    /// process; `Finish` comes only once both are released.
    pub fn step(&mut self, event: Event) -> (a: Action)
        requires
            old(self).wf(),
        ensures
            final(self).wf(),
            final(self).html_path == old(self).html_path,
            a is Finish ==> final(self).phase == Phase::Closed && !final(self).process_live
                && final(self).tab_id is None && final(self).outcome is Some,
            old(self).outcome is Some ==> final(self).outcome == old(self).outcome,
            // the tab captured from the new-tab reply is the one navigated,
            // printed and closed
            old(self).phase != Phase::TargetsListed && old(self).phase != Phase::ClosingTab
                ==> final(self).tab_id == old(self).tab_id,
            old(self).outcome is None && final(self).outcome is Some ==> cleanup_begun(
                *old(self),
                *final(self),
                a,
            ),
            // the cleanup phases
            old(self).phase == Phase::ClosingTab ==> final(self).phase == Phase::Killing
                && final(self).tab_id is None && a is Kill,
            old(self).phase == Phase::Killing ==> final(self).phase == Phase::Closed && a is Finish,
            old(self).phase == Phase::Closed ==> *final(self) == *old(self) && a is Finish,
            // failures that can come at any working step
            old(self).outcome is None && event is Unreachable ==> failed_as(
                *final(self),
                ErrorKind::Network,
                event->Unreachable_0@,
            ),
            old(self).outcome is None && !(event is Unreachable) && !expected(old(self).phase, event)
                ==> failed_as(*final(self), ErrorKind::Remote, UNEXPECTED_REPLY@),
            // starting the browser
            old(self).phase is NotStarted && event is Started ==> final(self).phase
                == Phase::ProcessSpawned && final(self).process_live && a == Action::Wait(
                STARTUP_WAIT_MS,
            ),
            old(self).phase is NotStarted && event is StartFailed && old(self).phase->NotStarted_0 + 1
                < BROWSER_CANDIDATES ==> final(self).phase == Phase::NotStarted(
                (old(self).phase->NotStarted_0 + 1) as usize,
            ) && a is Spawn && a->Spawn_0@ == candidate_name(old(self).phase->NotStarted_0 + 1),
            old(self).phase is NotStarted && event is StartFailed && old(self).phase->NotStarted_0 + 1
                >= BROWSER_CANDIDATES ==> failed_as(
                *final(self),
                ErrorKind::Unavailable,
                BROWSER_MISSING@,
            ) && !final(self).process_live && final(self).tab_id is None && a is Finish,
            // talking to the control endpoint
            old(self).phase == Phase::ProcessSpawned && event is Waited ==> final(self).phase
                == Phase::DebuggerReady && a is ListTargets && a->ListTargets_0@ == endpoint(
                "/json"@,
            ),
            old(self).phase == Phase::DebuggerReady && event is Targets ==> {
                let ts = event->Targets_0@;
                &&& (forall|j: int| 0 <= j < ts.len() ==> !is_page(#[trigger] ts[j])) ==> failed_as(
                    *final(self),
                    ErrorKind::Remote,
                    NO_PAGE_TARGET@,
                )
                &&& forall|k: int|
                    #![trigger first_page_at(ts, k)]
                    first_page_at(ts, k) && ts[k].ws_url is None ==> failed_as(
                        *final(self),
                        ErrorKind::Remote,
                        NO_WEBSOCKET_URL@,
                    )
                &&& forall|k: int|
                    #![trigger first_page_at(ts, k)]
                    first_page_at(ts, k) && ts[k].ws_url is Some ==> final(self).phase
                        == Phase::TargetsListed && a is NewTab && a->NewTab_0@ == endpoint(
                        "/json/new"@,
                    )
            },
            old(self).phase == Phase::TargetsListed && event is TabCreated ==> match event->TabCreated_0 {
                None => failed_as(*final(self), ErrorKind::Remote, NO_TAB_ID@),
                Some(id) => final(self).phase == Phase::TabCreated && final(self).tab_id == Some(id)
                    && a is Navigate && a->Navigate_url@ == endpoint("/json/navigate/"@ + id@) && a->Navigate_page_url@
                    == "file://"@ + old(self).html_path@,
            },
            old(self).phase == Phase::TabCreated && event is Navigated ==> if event->Navigated_0 {
                final(self).phase == Phase::Navigated && a == Action::Wait(LOAD_WAIT_MS)
            } else {
                failed_as(*final(self), ErrorKind::Remote, NAVIGATE_FAILED@)
            },
            old(self).phase == Phase::Navigated && event is Waited ==> final(self).phase
                == Phase::Printing && a is Print && a->Print_url@ == endpoint(
                "/json/print/"@ + old(self).tab_id->Some_0@,
            ) && a->Print_options == a4_print_options(),
            old(self).phase == Phase::Printing && event is PrintReply ==> {
                let data = event->PrintReply_data;
                if !event->PrintReply_ok {
                    failed_as(*final(self), ErrorKind::Remote, PRINT_FAILED@)
                } else if data is None {
                    failed_as(*final(self), ErrorKind::Remote, NO_PDF_DATA@)
                } else if base64_decoded(data->Some_0@) is None {
                    final(self).outcome is Some && final(self).outcome->Some_0 is Err && kind_of(
                        final(self).outcome->Some_0->Err_0,
                    ) == ErrorKind::Conversion && error_detail(final(self).outcome->Some_0->Err_0).len()
                        >= DECODE_FAILED@.len() && error_detail(
                        final(self).outcome->Some_0->Err_0,
                    ).subrange(0, DECODE_FAILED@.len() as int) == DECODE_FAILED@
                } else {
                    final(self).phase == Phase::Writing && a is WritePdf && a->WritePdf_0@
                        == base64_decoded(data->Some_0@)->Some_0
                }
            },
            // the end of the work
            old(self).phase == Phase::Writing && event is Written ==> final(self).outcome == Some(
                Ok::<(), ConversionError>(()),
            ),
            old(self).phase == Phase::Writing && event is WriteFailed ==> failed_as(
                *final(self),
                ErrorKind::Io,
                event->WriteFailed_0@,
            ),
    {
        let phase = self.phase;
        match phase {
            Phase::ClosingTab => {
                self.tab_id = None;
                self.phase = Phase::Killing;
                return Action::Kill;
            },
            Phase::Killing => {
                self.process_live = false;
                self.phase = Phase::Closed;
                return Action::Finish;
            },
            Phase::Closed => {
                return Action::Finish;
            },
            _ => {},
        }
        if let Event::Unreachable(reason) = event {
            return self.fail(ConversionError::NetworkFailure(reason));
        }
        match phase {
            Phase::NotStarted(i) => match event {
                Event::Started => {
                    self.process_live = true;
                    self.phase = Phase::ProcessSpawned;
                    Action::Wait(STARTUP_WAIT_MS)
                },
                Event::StartFailed => {
                    if i + 1 < BROWSER_CANDIDATES {
                        self.phase = Phase::NotStarted(i + 1);
                        Action::Spawn(browser_candidate(i + 1))
                    } else {
                        self.fail(
                            ConversionError::ProcessUnavailable(String::from_str(BROWSER_MISSING)),
                        )
                    }
                },
                _ => self.unexpected(),
            },
            Phase::ProcessSpawned => match event {
                Event::Waited => {
                    self.phase = Phase::DebuggerReady;
                    Action::ListTargets(endpoint_path("/json"))
                },
                _ => self.unexpected(),
            },
            Phase::DebuggerReady => match event {
                Event::Targets(ts) => match find_page_target(&ts) {
                    None => self.fail(
                        ConversionError::RemoteProtocolFailure(String::from_str(NO_PAGE_TARGET)),
                    ),
                    Some(k) => {
                        assert forall|k2: int| #[trigger]
                            first_page_at(ts@, k2) implies k2 == k as int by {
                            if k2 < k {
                                assert(!is_page(ts@[k2]));
                            } else if k2 > k {
                                assert(!is_page(ts@[k as int]));
                            }
                        }
                        if ts[k].ws_url.is_none() {
                            self.fail(
                                ConversionError::RemoteProtocolFailure(
                                    String::from_str(NO_WEBSOCKET_URL),
                                ),
                            )
                        } else {
                            self.phase = Phase::TargetsListed;
                            Action::NewTab(endpoint_path("/json/new"))
                        }
                    },
                },
                _ => self.unexpected(),
            },
            Phase::TargetsListed => match event {
                Event::TabCreated(reply) => match reply {
                    None => self.fail(
                        ConversionError::RemoteProtocolFailure(String::from_str(NO_TAB_ID)),
                    ),
                    Some(id) => {
                        let url = endpoint_url("/json/navigate/", id.as_str());
                        let mut page_url = String::from_str("file://");
                        page_url.append(self.html_path.as_str());
                        self.tab_id = Some(id);
                        self.phase = Phase::TabCreated;
                        Action::Navigate { url, page_url }
                    },
                },
                _ => self.unexpected(),
            },
            Phase::TabCreated => match event {
                Event::Navigated(ok) => {
                    if ok {
                        self.phase = Phase::Navigated;
                        Action::Wait(LOAD_WAIT_MS)
                    } else {
                        self.fail(
                            ConversionError::RemoteProtocolFailure(
                                String::from_str(NAVIGATE_FAILED),
                            ),
                        )
                    }
                },
                _ => self.unexpected(),
            },
            Phase::Navigated => match event {
                Event::Waited => {
                    let url = match &self.tab_id {
                        Some(id) => endpoint_url("/json/print/", id.as_str()),
                        None => endpoint_url("/json/print/", ""),
                    };
                    self.phase = Phase::Printing;
                    Action::Print { url, options: print_options() }
                },
                _ => self.unexpected(),
            },
            Phase::Printing => match event {
                Event::PrintReply { ok, data } => {
                    if !ok {
                        self.fail(
                            ConversionError::RemoteProtocolFailure(String::from_str(PRINT_FAILED)),
                        )
                    } else {
                        match data {
                            None => self.fail(
                                ConversionError::RemoteProtocolFailure(
                                    String::from_str(NO_PDF_DATA),
                                ),
                            ),
                            Some(text) => {
                                let decoded = match decode_base64(text.as_str()) {
                                    Ok(bytes) => Ok(bytes),
                                    Err(e) => Err(decode_error_text(&e)),
                                };
                                let ghost reason = decoded;
                                let a = self.take_pdf(decoded);
                                proof {
                                    if reason is Err {
                                        let detail = DECODE_FAILED@ + reason->Err_0@;
                                        assert(detail.subrange(0, DECODE_FAILED@.len() as int)
                                            =~= DECODE_FAILED@);
                                    }
                                }
                                a
                            },
                        }
                    }
                },
                _ => self.unexpected(),
            },
            Phase::Writing => match event {
                Event::Written => {
                    self.outcome = Some(Ok(()));
                    self.wind_down()
                },
                Event::WriteFailed(reason) => self.fail(ConversionError::IoFailure(reason)),
                _ => self.unexpected(),
            },
            _ => self.unexpected(),
        }
    }

    /// Ends the conversion on an event that the current phase does not wait for.
    fn unexpected(&mut self) -> (a: Action)
        requires
            old(self).outcome is None,
            old(self).tab_id is Some ==> old(self).process_live,
        ensures
            final(self).wf(),
            failed_as(*final(self), ErrorKind::Remote, UNEXPECTED_REPLY@),
            final(self).html_path == old(self).html_path,
            cleanup_begun(*old(self), *final(self), a),
    {
        self.fail(ConversionError::RemoteProtocolFailure(String::from_str(UNEXPECTED_REPLY)))
    }
}

} // verus!
