//! The screen-context capture that runs every few seconds: which outside
//! work a capture asks for in which order, how each answer is judged, what
//! the captured record holds, and how the outcome of a round is reported.
//!
//! A capture lists the monitors, takes a screenshot of the first one, asks
//! which window is active, runs text recognition on the screenshot when the
//! recognition engine is installed, reads the clock and assembles the record.
//! The program around the library does each piece of outside work and hands
//! the answer back to [`CaptureProcedure::step`].
use vstd::prelude::*;

use crate::text::{blank, contains_text, is_blank, is_white_space, occurs_in};
use vstd::utf8::encode_utf8;

verus! {

/// Seconds between two capture rounds.
pub const CAPTURE_INTERVAL_SECS: u64 = 5;

/// Language the text recognition engine is asked to read.
pub const OCR_LANGUAGE: &'static str = "eng";

/// The only characters the text recognition engine is allowed to report.
pub const OCR_CHAR_WHITELIST: &'static str = "abcdefghijklmnopqrstuvwxyzABCDEFGHIJKLMNOPQRSTUVWXYZ0123456789.,:;?!@#$%&*()-_=+[]{}/\\\"'";

/// What a screen without any recognised text yields.
pub open spec fn no_text_placeholder() -> Seq<char> {
    "[Nenhum texto detectado]"@
}

/// What stands for the application and the window title when the active
/// window cannot be read.
pub open spec fn unknown_window() -> Seq<char> {
    "Unknown"@
}

/// The part of an error report that says the recognition engine is missing.
pub open spec fn engine_missing_marker() -> Seq<char> {
    "Tesseract not found"@
}

/// A moment in time: whole seconds since the Unix epoch and the nanoseconds
/// past them.
#[derive(Clone, Copy, Debug, PartialEq, Eq)]
pub struct Timestamp {
    pub secs: i64,
    pub nanos: u32,
}

/// What one capture round recorded.
#[derive(Clone, Debug, PartialEq, Eq)]
pub struct ScreenData {
    /// When the record was assembled.
    pub timestamp: Timestamp,
    /// Name of the application that owns the active window.
    pub app_name: String,
    /// Title of the active window.
    pub window_title: String,
    /// Text recognised on the screen; empty when recognition is off.
    pub ocr_text: String,
}

/// Why a capture round failed.
#[derive(Debug, PartialEq, Eq)]
pub enum CaptureError {
    /// The monitors could not be listed.
    MonitorQuery { detail: String },
    /// There is no monitor.
    NoMonitor,
    /// The screenshot could not be taken.
    Screenshot { detail: String },
    /// The screenshot could not be handed to the recognition engine.
    ImageConversion { detail: String },
    /// The recognition engine failed.
    Recognition { detail: String },
    /// The background task that ran the recognition did not finish.
    Task { detail: String },
}

/// The report line of an error.
pub open spec fn error_message(e: CaptureError) -> Seq<char> {
    match e {
        CaptureError::MonitorQuery { detail } => "Failed to get monitors: "@ + detail@,
        CaptureError::NoMonitor => "No monitor found"@,
        CaptureError::Screenshot { detail } => "Screenshot failed: "@ + detail@,
        CaptureError::ImageConversion { detail } => "Erro converter imagem p/ Tesseract: "@
            + detail@,
        CaptureError::Recognition { detail } => "Erro Tesseract (Verifique instalação): "@
            + detail@,
        CaptureError::Task { detail } => detail@,
    }
}

impl CaptureError {
    /// The report line of the error.
    pub fn message(&self) -> (m: String)
        ensures
            m@ == error_message(*self),
    {
        match self {
            CaptureError::MonitorQuery { detail } => String::from_str(
                "Failed to get monitors: ",
            ).concat(detail.as_str()),
            CaptureError::NoMonitor => String::from_str("No monitor found"),
            CaptureError::Screenshot { detail } => String::from_str("Screenshot failed: ").concat(
                detail.as_str(),
            ),
            CaptureError::ImageConversion { detail } => String::from_str(
                "Erro converter imagem p/ Tesseract: ",
            ).concat(detail.as_str()),
            CaptureError::Recognition { detail } => String::from_str(
                "Erro Tesseract (Verifique instalação): ",
            ).concat(detail.as_str()),
            CaptureError::Task { detail } => detail.clone(),
        }
    }
}

/// The text a recognition run yields: the engine's output, or the
/// placeholder when the output holds nothing but white space.
pub fn ocr_text_or_placeholder(text: String) -> (r: String)
    ensures
        blank(text@) ==> r@ == no_text_placeholder(),
        !blank(text@) ==> r == text,
{
    if is_blank(text.as_str()) {
        String::from_str("[Nenhum texto detectado]")
    } else {
        text
    }
}

/// The capture service; it knows whether the text recognition engine is
/// installed, which was found out once when it started.
#[derive(Clone, Copy, Debug, PartialEq, Eq)]
pub struct IngestionService {
    tesseract_available: bool,
}

impl IngestionService {
    /// Whether the service runs text recognition.
    pub closed spec fn ocr_enabled(&self) -> bool {
        self.tesseract_available
    }

    /// The service, given whether the recognition engine answered when it
    /// was probed.
    pub fn new(tesseract_available: bool) -> (s: Self)
        ensures
            s.ocr_enabled() == tesseract_available,
    {
        IngestionService { tesseract_available }
    }

    /// Whether the recognition engine is installed.
    pub fn is_tesseract_available(&self) -> (r: bool)
        ensures
            r == self.ocr_enabled(),
    {
        self.tesseract_available
    }

    /// A capture round that has not started yet.
    pub fn begin_capture(&self) -> (p: CaptureProcedure)
        ensures
            p.stage() == CaptureStage::Idle,
            p.ocr_enabled() == self.ocr_enabled(),
            p.app_name()@ == Seq::<char>::empty(),
            p.window_title()@ == Seq::<char>::empty(),
            p.ocr_text()@ == Seq::<char>::empty(),
            round_consistent(p),
    {
        CaptureProcedure {
            stage: CaptureStage::Idle,
            ocr_enabled: self.tesseract_available,
            app_name: String::new(),
            window_title: String::new(),
            ocr_text: String::new(),
        }
    }
}

/// Where a capture round stands.
#[derive(Clone, Copy, Debug, PartialEq, Eq, Structural)]
pub enum CaptureStage {
    /// Not started.
    Idle,
    /// Waiting for the list of monitors.
    AwaitingMonitors,
    /// Waiting for the screenshot of the first monitor.
    AwaitingScreenshot,
    /// Waiting for the active window.
    AwaitingWindow,
    /// Waiting for the recognised text.
    AwaitingText,
    /// Waiting for the time of day.
    AwaitingClock,
    /// Over, with a record or an error.
    Finished,
}

/// How far a round has come: each step raises it.
pub open spec fn stage_rank(s: CaptureStage) -> nat {
    match s {
        CaptureStage::Idle => 0,
        CaptureStage::AwaitingMonitors => 1,
        CaptureStage::AwaitingScreenshot => 2,
        CaptureStage::AwaitingWindow => 3,
        CaptureStage::AwaitingText => 4,
        CaptureStage::AwaitingClock => 5,
        CaptureStage::Finished => 6,
    }
}

/// Outside work a capture round asks for.
#[derive(Clone, Copy, Debug, PartialEq, Eq, Structural)]
pub enum CaptureRequest {
    /// List the monitors.
    ListMonitors,
    /// Take a screenshot of the monitor at this position of the list.
    CaptureMonitor { index: usize },
    /// Read the application name and title of the active window.
    ReadActiveWindow,
    /// Run text recognition on the screenshot.
    RecognizeText,
    /// Read the current time.
    ReadClock,
}

/// The answer to a piece of outside work.
#[derive(Debug, PartialEq, Eq)]
pub enum CaptureEvent {
    /// The round is to begin.
    Started,
    /// The number of monitors, or why they could not be listed.
    MonitorsListed { listed: Result<usize, String> },
    /// Whether the screenshot was taken, or why not.
    ScreenCaptured { captured: Result<(), String> },
    /// The application name and title of the active window, if they could
    /// be read.
    ActiveWindowRead { window: Option<(String, String)> },
    /// The text the engine read, or why it could not.
    TextRecognized { recognized: Result<String, CaptureError> },
    /// The current time.
    ClockRead { now: Timestamp },
}

/// What a capture round does next.
#[derive(Debug, PartialEq, Eq)]
pub enum CaptureAction {
    /// Do this outside work and hand the answer back.
    Request(CaptureRequest),
    /// The round is over, with this outcome.
    Done(Result<ScreenData, CaptureError>),
}

/// One capture round in progress.
pub struct CaptureProcedure {
    stage: CaptureStage,
    ocr_enabled: bool,
    app_name: String,
    window_title: String,
    ocr_text: String,
}

/// Whether `event` answers what a round at `stage` waits for.
pub open spec fn answers(stage: CaptureStage, event: CaptureEvent) -> bool {
    match event {
        CaptureEvent::Started => stage == CaptureStage::Idle,
        CaptureEvent::MonitorsListed { .. } => stage == CaptureStage::AwaitingMonitors,
        CaptureEvent::ScreenCaptured { .. } => stage == CaptureStage::AwaitingScreenshot,
        CaptureEvent::ActiveWindowRead { .. } => stage == CaptureStage::AwaitingWindow,
        CaptureEvent::TextRecognized { .. } => stage == CaptureStage::AwaitingText,
        CaptureEvent::ClockRead { .. } => stage == CaptureStage::AwaitingClock,
    }
}

impl CaptureProcedure {
    /// Where the round stands.
    pub closed spec fn stage(&self) -> CaptureStage {
        self.stage
    }

    /// Whether the round runs text recognition.
    pub closed spec fn ocr_enabled(&self) -> bool {
        self.ocr_enabled
    }

    /// The application name read so far.
    pub closed spec fn app_name(&self) -> String {
        self.app_name
    }

    /// The window title read so far.
    pub closed spec fn window_title(&self) -> String {
        self.window_title
    }

    /// The recognised text kept so far.
    pub closed spec fn ocr_text(&self) -> String {
        self.ocr_text
    }

    /// Where the round stands.
    pub fn current_stage(&self) -> (s: CaptureStage)
        ensures
            s == self.stage(),
    {
        self.stage
    }

    /// Whether `event` answers what the round waits for.
    pub fn expects(&self, event: &CaptureEvent) -> (r: bool)
        ensures
            r == answers(self.stage(), *event),
    {
        match event {
            CaptureEvent::Started => self.stage == CaptureStage::Idle,
            CaptureEvent::MonitorsListed { .. } => self.stage == CaptureStage::AwaitingMonitors,
            CaptureEvent::ScreenCaptured { .. } => self.stage == CaptureStage::AwaitingScreenshot,
            CaptureEvent::ActiveWindowRead { .. } => self.stage == CaptureStage::AwaitingWindow,
            CaptureEvent::TextRecognized { .. } => self.stage == CaptureStage::AwaitingText,
            CaptureEvent::ClockRead { .. } => self.stage == CaptureStage::AwaitingClock,
        }
    }

    /// Takes the answer to the work last asked for and says what comes next.
    ///
    /// Starting asks for the monitors.  An error there, or no monitor at all,
    /// ends the round; otherwise the first monitor is photographed.  A failed
    /// screenshot ends the round; otherwise the active window is read, its
    /// application and title kept, or "Unknown" for both when it could not be
    /// read.  With recognition on, the text is read next: an error ends the
    /// round, and a text of nothing but white space is kept as the
    /// placeholder; with recognition off the text is left empty.  Last, the
    /// clock is read and the round ends with the record.
    pub fn step(&mut self, event: CaptureEvent) -> (action: CaptureAction)
        requires
            answers(old(self).stage(), event),
        ensures
            final(self).ocr_enabled() == old(self).ocr_enabled(),
            stage_rank(final(self).stage()) > stage_rank(old(self).stage()),
            action is Done <==> final(self).stage() == CaptureStage::Finished,
            step_taken(*old(self), event, *final(self), action),
            round_consistent(*old(self)) ==> round_consistent(*final(self)),
    {
        match event {
            CaptureEvent::Started => {
                self.stage = CaptureStage::AwaitingMonitors;
                CaptureAction::Request(CaptureRequest::ListMonitors)
            },
            CaptureEvent::MonitorsListed { listed } => match listed {
                Err(detail) => {
                    self.stage = CaptureStage::Finished;
                    CaptureAction::Done(Err(CaptureError::MonitorQuery { detail }))
                },
                Ok(count) => {
                    if count == 0 {
                        self.stage = CaptureStage::Finished;
                        CaptureAction::Done(Err(CaptureError::NoMonitor))
                    } else {
                        self.stage = CaptureStage::AwaitingScreenshot;
                        CaptureAction::Request(CaptureRequest::CaptureMonitor { index: 0 })
                    }
                },
            },
            CaptureEvent::ScreenCaptured { captured } => match captured {
                Err(detail) => {
                    self.stage = CaptureStage::Finished;
                    CaptureAction::Done(Err(CaptureError::Screenshot { detail }))
                },
                Ok(()) => {
                    self.stage = CaptureStage::AwaitingWindow;
                    CaptureAction::Request(CaptureRequest::ReadActiveWindow)
                },
            },
            CaptureEvent::ActiveWindowRead { window } => {
                match window {
                    Some((app_name, title)) => {
                        self.app_name = app_name;
                        self.window_title = title;
                    },
                    None => {
                        self.app_name = String::from_str("Unknown");
                        self.window_title = String::from_str("Unknown");
                    },
                }
                if self.ocr_enabled {
                    self.stage = CaptureStage::AwaitingText;
                    CaptureAction::Request(CaptureRequest::RecognizeText)
                } else {
                    self.ocr_text = String::new();
                    self.stage = CaptureStage::AwaitingClock;
                    CaptureAction::Request(CaptureRequest::ReadClock)
                }
            },
            CaptureEvent::TextRecognized { recognized } => match recognized {
                Err(e) => {
                    self.stage = CaptureStage::Finished;
                    CaptureAction::Done(Err(e))
                },
                Ok(text) => {
                    proof {
                        lemma_placeholder_not_blank();
                    }
                    self.ocr_text = ocr_text_or_placeholder(text);
                    self.stage = CaptureStage::AwaitingClock;
                    CaptureAction::Request(CaptureRequest::ReadClock)
                },
            },
            CaptureEvent::ClockRead { now } => {
                self.stage = CaptureStage::Finished;
                CaptureAction::Done(
                    Ok(
                        ScreenData {
                            timestamp: now,
                            app_name: self.app_name.clone(),
                            window_title: self.window_title.clone(),
                            ocr_text: self.ocr_text.clone(),
                        },
                    ),
                )
            },
        }
    }
}

/// The transition of a capture round: `pre` took `event`, became `post` and
/// answered `action`.  Fields that a step does not mention keep their
/// values.
pub open spec fn step_taken(
    pre: CaptureProcedure,
    event: CaptureEvent,
    post: CaptureProcedure,
    action: CaptureAction,
) -> bool {
    &&& post.ocr_enabled() == pre.ocr_enabled()
    &&& match event {
        CaptureEvent::Started => {
            &&& post.stage() == CaptureStage::AwaitingMonitors
            &&& action == CaptureAction::Request(CaptureRequest::ListMonitors)
            &&& kept_window(pre, post)
            &&& post.ocr_text() == pre.ocr_text()
        },
        CaptureEvent::MonitorsListed { listed } => {
            &&& kept_window(pre, post)
            &&& post.ocr_text() == pre.ocr_text()
            &&& match listed {
                Err(detail) => {
                    &&& post.stage() == CaptureStage::Finished
                    &&& action == CaptureAction::Done(
                        Err(CaptureError::MonitorQuery { detail }),
                    )
                },
                Ok(count) => if count == 0 {
                    &&& post.stage() == CaptureStage::Finished
                    &&& action == CaptureAction::Done(Err(CaptureError::NoMonitor))
                } else {
                    &&& post.stage() == CaptureStage::AwaitingScreenshot
                    &&& action == CaptureAction::Request(CaptureRequest::CaptureMonitor { index: 0 })
                },
            }
        },
        CaptureEvent::ScreenCaptured { captured } => {
            &&& kept_window(pre, post)
            &&& post.ocr_text() == pre.ocr_text()
            &&& match captured {
                Err(detail) => {
                    &&& post.stage() == CaptureStage::Finished
                    &&& action == CaptureAction::Done(Err(CaptureError::Screenshot { detail }))
                },
                Ok(_) => {
                    &&& post.stage() == CaptureStage::AwaitingWindow
                    &&& action == CaptureAction::Request(CaptureRequest::ReadActiveWindow)
                },
            }
        },
        CaptureEvent::ActiveWindowRead { window } => {
            &&& match window {
                Some((app_name, title)) => {
                    &&& post.app_name() == app_name
                    &&& post.window_title() == title
                },
                None => {
                    &&& post.app_name()@ == unknown_window()
                    &&& post.window_title()@ == unknown_window()
                },
            }
            &&& if pre.ocr_enabled() {
                &&& post.stage() == CaptureStage::AwaitingText
                &&& action == CaptureAction::Request(CaptureRequest::RecognizeText)
                &&& post.ocr_text() == pre.ocr_text()
            } else {
                &&& post.stage() == CaptureStage::AwaitingClock
                &&& action == CaptureAction::Request(CaptureRequest::ReadClock)
                &&& post.ocr_text()@ == Seq::<char>::empty()
            }
        },
        CaptureEvent::TextRecognized { recognized } => {
            &&& kept_window(pre, post)
            &&& match recognized {
                Err(e) => {
                    &&& post.stage() == CaptureStage::Finished
                    &&& action == CaptureAction::Done(Err(e))
                    &&& post.ocr_text() == pre.ocr_text()
                },
                Ok(text) => {
                    &&& post.stage() == CaptureStage::AwaitingClock
                    &&& action == CaptureAction::Request(CaptureRequest::ReadClock)
                    &&& blank(text@) ==> post.ocr_text()@ == no_text_placeholder()
                    &&& !blank(text@) ==> post.ocr_text() == text
                },
            }
        },
        CaptureEvent::ClockRead { now } => {
            &&& post.stage() == CaptureStage::Finished
            &&& kept_window(pre, post)
            &&& post.ocr_text() == pre.ocr_text()
            &&& action matches CaptureAction::Done(Ok(data))
            &&& data.timestamp == now
            &&& data.app_name == pre.app_name()
            &&& data.window_title == pre.window_title()
            &&& data.ocr_text == pre.ocr_text()
        },
    }
}

/// What holds of every round at every stage: without recognition the round
/// never waits for text and keeps its text empty; with recognition, the text
/// it is about to record is not blank.
pub open spec fn round_consistent(p: CaptureProcedure) -> bool {
    &&& !p.ocr_enabled() ==> p.stage() != CaptureStage::AwaitingText
    &&& !p.ocr_enabled() ==> p.ocr_text()@ == Seq::<char>::empty()
    &&& p.ocr_enabled() && p.stage() == CaptureStage::AwaitingClock ==> !blank(p.ocr_text()@)
}

/// A round whose service has no recognition engine never asks for
/// recognition, and the record it yields, if any, has an empty text.
pub proof fn lemma_no_engine_no_text(
    pre: CaptureProcedure,
    event: CaptureEvent,
    post: CaptureProcedure,
    action: CaptureAction,
)
    requires
        round_consistent(pre),
        !pre.ocr_enabled(),
        answers(pre.stage(), event),
        step_taken(pre, event, post, action),
    ensures
        action != CaptureAction::Request(CaptureRequest::RecognizeText),
        action matches CaptureAction::Done(Ok(data)) ==> data.ocr_text@ == Seq::<char>::empty(),
{
}

/// With the recognition engine, a record never holds a blank text: a blank
/// recognition result is replaced by the placeholder, which is not blank.
pub proof fn lemma_recorded_text_not_blank(
    pre: CaptureProcedure,
    event: CaptureEvent,
    post: CaptureProcedure,
    action: CaptureAction,
)
    requires
        round_consistent(pre),
        pre.ocr_enabled(),
        answers(pre.stage(), event),
        step_taken(pre, event, post, action),
    ensures
        action matches CaptureAction::Done(Ok(data)) ==> !blank(data.ocr_text@),
{
}

/// The placeholder for a screen without text is not blank.
pub proof fn lemma_placeholder_not_blank()
    ensures
        !blank(no_text_placeholder()),
{
    reveal_strlit("[Nenhum texto detectado]");
    assert(!is_white_space(no_text_placeholder()[0]));
}

/// A round asks for work at most six times: every step moves it on, and it
/// is finished once it has moved six times.
pub proof fn lemma_round_is_short(s: CaptureStage)
    ensures
        stage_rank(s) <= 6,
        stage_rank(s) == 6 <==> s == CaptureStage::Finished,
{
}

/// The window fields did not change.
pub open spec fn kept_window(pre: CaptureProcedure, post: CaptureProcedure) -> bool {
    &&& post.app_name() == pre.app_name()
    &&& post.window_title() == pre.window_title()
}

/// How a capture round is reported.
#[derive(Debug, PartialEq, Eq)]
pub enum CaptureReport {
    /// A record was captured: when, for which application, and how many
    /// bytes of text were recognised.
    Captured { timestamp: Timestamp, app_name: String, text_len: usize },
    /// The recognition engine is missing.
    EngineMissing,
    /// The round failed for this reason.
    Failed { message: String },
}

/// `r` is the report of `outcome`.
pub open spec fn reported(outcome: Result<ScreenData, CaptureError>, r: CaptureReport) -> bool {
    match outcome {
        Ok(data) => r == CaptureReport::Captured {
            timestamp: data.timestamp,
            app_name: data.app_name,
            text_len: encode_utf8(data.ocr_text@).len() as usize,
        },
        Err(e) => if occurs_in(error_message(e), engine_missing_marker()) {
            r == CaptureReport::EngineMissing
        } else {
            r matches CaptureReport::Failed { message } && message@ == error_message(e)
        },
    }
}

/// The report of a round's outcome.  A captured record is reported with
/// its time, its application and the length of its text in bytes; an error
/// whose report line says that the recognition engine was not found is
/// reported as such; any other error is reported with its line.
pub fn report_capture(outcome: &Result<ScreenData, CaptureError>) -> (r: CaptureReport)
    ensures
        reported(*outcome, r),
{
    match outcome {
        Ok(data) => CaptureReport::Captured {
            timestamp: data.timestamp,
            app_name: data.app_name.clone(),
            text_len: data.ocr_text.as_str().len(),
        },
        Err(e) => {
            let message = e.message();
            if contains_text(message.as_str(), "Tesseract not found") {
                CaptureReport::EngineMissing
            } else {
                CaptureReport::Failed { message }
            }
        },
    }
}

/// A round photographs the first monitor, whatever the number of monitors,
/// and ends with "no monitor" when there is none.
pub proof fn lemma_first_monitor_photographed(
    pre: CaptureProcedure,
    count: usize,
    post: CaptureProcedure,
    action: CaptureAction,
)
    requires
        step_taken(pre, CaptureEvent::MonitorsListed { listed: Ok(count) }, post, action),
    ensures
        count > 0 ==> action == CaptureAction::Request(CaptureRequest::CaptureMonitor { index: 0 }),
        count == 0 ==> action == CaptureAction::Done(Err(CaptureError::NoMonitor)),
{
}

/// A failed piece of outside work ends the round at once, with an error
/// that keeps the reason as it was given.
pub proof fn lemma_failures_keep_their_reason(
    pre: CaptureProcedure,
    event: CaptureEvent,
    post: CaptureProcedure,
    action: CaptureAction,
)
    requires
        step_taken(pre, event, post, action),
    ensures
        event matches CaptureEvent::MonitorsListed { listed: Err(detail) } ==> action
            == CaptureAction::Done(Err(CaptureError::MonitorQuery { detail })),
        event matches CaptureEvent::ScreenCaptured { captured: Err(detail) } ==> action
            == CaptureAction::Done(Err(CaptureError::Screenshot { detail })),
        event matches CaptureEvent::TextRecognized { recognized: Err(e) } ==> action
            == CaptureAction::Done(Err(e)),
        action is Done ==> post.stage() == CaptureStage::Finished,
{
}

/// The record names the window that was read, or "Unknown" for both the
/// application and the title when none could be read; recognition follows
/// only when the engine is installed.
pub proof fn lemma_window_is_recorded(
    pre: CaptureProcedure,
    window: Option<(String, String)>,
    post: CaptureProcedure,
    action: CaptureAction,
)
    requires
        step_taken(pre, CaptureEvent::ActiveWindowRead { window }, post, action),
    ensures
        window matches Some((app, title)) ==> post.app_name() == app && post.window_title() == title,
        window is None ==> post.app_name()@ == "Unknown"@ && post.window_title()@ == "Unknown"@,
        pre.ocr_enabled() <==> action == CaptureAction::Request(CaptureRequest::RecognizeText),
        !pre.ocr_enabled() ==> action == CaptureAction::Request(CaptureRequest::ReadClock),
{
}

/// A recognised text that is not blank is kept exactly as the engine gave
/// it; a blank one becomes the placeholder.
pub proof fn lemma_recognised_text_is_kept(
    pre: CaptureProcedure,
    text: String,
    post: CaptureProcedure,
    action: CaptureAction,
)
    requires
        step_taken(pre, CaptureEvent::TextRecognized { recognized: Ok(text) }, post, action),
    ensures
        !blank(text@) ==> post.ocr_text() == text,
        blank(text@) ==> post.ocr_text()@ == "[Nenhum texto detectado]"@,
        action == CaptureAction::Request(CaptureRequest::ReadClock),
{
}

/// The record a round ends with holds the time the clock gave and the
/// application, title and text gathered before.
pub proof fn lemma_record_holds_what_was_gathered(
    pre: CaptureProcedure,
    now: Timestamp,
    post: CaptureProcedure,
    action: CaptureAction,
)
    requires
        step_taken(pre, CaptureEvent::ClockRead { now }, post, action),
    ensures
        action == CaptureAction::Done(
            Ok(
                ScreenData {
                    timestamp: now,
                    app_name: pre.app_name(),
                    window_title: pre.window_title(),
                    ocr_text: pre.ocr_text(),
                },
            ),
        ),
{
}

/// Every error's report line ends with the reason it was given, and only
/// the missing monitor has a line of its own.
pub proof fn lemma_messages_end_with_reason(e: CaptureError)
    ensures
        e matches CaptureError::MonitorQuery { detail } ==> error_message(e) == "Failed to get monitors: "@
            + detail@,
        e matches CaptureError::Screenshot { detail } ==> error_message(e) == "Screenshot failed: "@
            + detail@,
        e matches CaptureError::ImageConversion { detail } ==> error_message(e)
            == "Erro converter imagem p/ Tesseract: "@ + detail@,
        e matches CaptureError::Recognition { detail } ==> error_message(e)
            == "Erro Tesseract (Verifique instalação): "@ + detail@,
        e matches CaptureError::Task { detail } ==> error_message(e) == detail@,
        e is NoMonitor ==> error_message(e) == "No monitor found"@,
{
}

/// A captured record is reported with its own time and application and
/// the number of bytes of its text; an error is reported as a missing engine
/// exactly when its line mentions that Tesseract was not found, and
/// otherwise with its line.
pub proof fn lemma_report_follows_outcome(outcome: Result<ScreenData, CaptureError>, r: CaptureReport)
    requires
        reported(outcome, r),
    ensures
        outcome matches Ok(data) ==> (r matches CaptureReport::Captured { timestamp, app_name, text_len }
            && timestamp == data.timestamp && app_name@ == data.app_name@ && text_len
            == encode_utf8(data.ocr_text@).len() as usize),
        outcome matches Err(e) ==> (r is EngineMissing <==> occurs_in(
            error_message(e),
            "Tesseract not found"@,
        )),
        outcome matches Err(e) ==> (r is Failed <==> !occurs_in(
            error_message(e),
            "Tesseract not found"@,
        )),
        r matches CaptureReport::Failed { message } ==> outcome matches Err(e) && message@
            == error_message(e),
{
}

} // verus!
