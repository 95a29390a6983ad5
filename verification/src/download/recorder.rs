//! The decisions of a live recording run, as a state machine: the caller
//! performs each [`LiveAction`] (a metadata read, an HTTP fetch, a file
//! write, a sleep) and hands the result back as a [`LiveEvent`]. The
//! session decides which segment comes next, never fetches a segment URL it
//! has already written, counts the bytes written, and says how the run ends.

use vstd::prelude::*;
use crate::text::{blank, is_blank, to_owned_string, views};
use crate::config::AppConfig;
use crate::download::live::{
    build_headers, header_views, headers_spec, is_retryable_status, live_plan_violation, live_retryable,
    parse_url, spec_parse_url, LiveCompletionReason, LiveFailureKind, LiveOutputFacts, LivePlanV1,
    LiveRecorderOutcome, outcome_output, RecorderError, recorder_kind, recorder_message, MAX_PLAYLIST_DEPTH,
    MAX_SEGMENT_COUNT,
};
use crate::download::hls::{
    error_views, parse_playlist, playlist_spec, segment_views, LiveSegment, Playlist, PlaylistView,
};

verus! {

/// The segment URLs already written, oldest first. Once it would hold more
/// than [`MAX_SEGMENT_COUNT`] URLs it is emptied.
pub struct SegmentLog {
    urls: Vec<String>,
}

impl View for SegmentLog {
    type V = Seq<Seq<char>>;

    closed spec fn view(&self) -> Seq<Seq<char>> {
        views(self.urls@)
    }
}

/// The log after recording `u`: unchanged when `u` is there already,
/// emptied when it would grow past the limit, else `u` appended.
pub open spec fn log_record(log: Seq<Seq<char>>, u: Seq<char>) -> Seq<Seq<char>> {
    if log.contains(u) {
        log
    } else if log.len() + 1 > MAX_SEGMENT_COUNT {
        Seq::empty()
    } else {
        log.push(u)
    }
}

impl SegmentLog {
    /// Well-formed: within the limit and without repeats.
    pub open spec fn wf(&self) -> bool {
        self@.len() <= MAX_SEGMENT_COUNT && self@.no_duplicates()
    }

    /// An empty log.
    pub fn new() -> (res: SegmentLog)
        ensures
            res@ == Seq::<Seq<char>>::empty(),
            res.wf(),
    {
        let res = SegmentLog { urls: Vec::new() };
        assert(res@ =~= Seq::<Seq<char>>::empty());
        res
    }

    /// Whether `u` was written already.
    pub fn contains(&self, u: &str) -> (res: bool)
        ensures
            res == self@.contains(u@),
    {
        let mut i: usize = 0;
        while i < self.urls.len()
            invariant
                i <= self.urls@.len(),
                forall|k: int| 0 <= k < i ==> self@[k] != u@,
            decreases self.urls@.len() - i,
        {
            if crate::text::str_eq(self.urls[i].as_str(), u) {
                assert(self@[i as int] == u@);
                return true;
            }
            i = i + 1;
        }
        false
    }

    /// Number of URLs remembered.
    pub fn len(&self) -> (res: usize)
        ensures
            res == self@.len(),
    {
        self.urls.len()
    }

    /// Records that `u` was written.
    pub fn record(&mut self, u: &str)
        requires
            old(self).wf(),
        ensures
            final(self).wf(),
            final(self)@ == log_record(old(self)@, u@),
    {
        if self.contains(u) {
            return;
        }
        if self.urls.len() + 1 > MAX_SEGMENT_COUNT {
            self.urls = Vec::new();
            assert(self@ =~= Seq::<Seq<char>>::empty());
            return;
        }
        let ghost before = self@;
        self.urls.push(to_owned_string(u));
        assert(self@ =~= before.push(u@));
    }
}

/// The recording lost no segment URL it had not just emptied: every log
/// holds at most [`MAX_SEGMENT_COUNT`] URLs, and after recording `u` the log
/// holds `u` unless it was emptied.
pub proof fn lemma_log_record(log: Seq<Seq<char>>, u: Seq<char>)
    requires
        log.len() <= MAX_SEGMENT_COUNT,
    ensures
        log_record(log, u).len() <= MAX_SEGMENT_COUNT,
        log_record(log, u).contains(u) || log_record(log, u).len() == 0,
        log.contains(u) ==> log_record(log, u) == log,
{
    if !log.contains(u) && log.len() + 1 <= MAX_SEGMENT_COUNT {
        assert(log.push(u)[log.len() as int] == u);
    }
}

/// What the caller found at the output path before recording.
#[derive(Debug, Clone)]
pub enum ExistingOutput {
    /// No file there.
    Missing,
    /// A file of this many bytes.
    Found(u64),
    /// Reading the metadata failed, with the error's text.
    Error(String),
}

/// What fetching a segment gave.
#[derive(Debug, Clone, Copy, PartialEq, Eq, Structural)]
pub enum SegmentFetch {
    /// The segment's bytes, this many of them; the caller keeps them.
    Bytes(u64),
    /// Recording was stopped during the fetch.
    Stopped,
}

/// The result of an action, handed back to the session.
#[derive(Debug)]
pub enum LiveEvent {
    Existing(ExistingOutput),
    /// The playlist text and, for each of its `#EXTINF:` durations in order,
    /// the parse error when it is not a number.
    PlaylistText(Result<(String, Vec<Option<String>>), RecorderError>),
    Segment(Result<SegmentFetch, RecorderError>),
    Opened(Result<(), RecorderError>),
    Written(Result<(), RecorderError>),
    Flushed(Result<(), RecorderError>),
    Slept,
}

/// How a run ends, before the output file is closed and measured.
#[derive(Debug)]
pub enum LiveFinish {
    Completed(LiveCompletionReason),
    Stopped,
    Failed(RecorderError),
}

/// What the caller does next.
#[derive(Debug)]
pub enum LiveAction {
    /// Read the metadata of the output path.
    CheckExisting,
    /// Fetch a playlist (with retries) and hand back its text.
    FetchPlaylist(String),
    /// Fetch a segment (with retries) and keep its bytes.
    FetchSegment(String),
    /// Create the output directory and the output file.
    OpenFile,
    /// Append the kept segment bytes to the file.
    WriteSegment,
    /// Flush the file.
    Flush,
    /// Sleep for the duration text of the last segment (one second when
    /// there is none), stopping early when recording is stopped.
    Sleep(Option<String>),
    /// A non-empty output exists already: the run completes with it.
    ExistingOutput(u64),
    /// Close the file, measure it and classify the run.
    Finish(LiveFinish),
}

/// Where a session is in the run.
#[derive(Debug, Clone, Copy, PartialEq, Eq, Structural)]
pub enum LiveStage {
    AwaitExisting,
    AwaitPlaylist,
    AwaitSegment,
    AwaitOpen,
    AwaitWrite,
    AwaitFlush,
    AwaitSleep,
    Finished,
}

/// Decisions of one recording run.
pub struct LiveSession {
    pub headers: Vec<(String, String)>,
    pub playlist_url: String,
    pub current_url: String,
    pub depth: usize,
    pub log: SegmentLog,
    pub total_downloaded: u64,
    pub file_open: bool,
    pub segments: Vec<LiveSegment>,
    pub next: usize,
    pub ended: bool,
    pub sleep_text: Option<String>,
    pub pending_bytes: u64,
    pub stage: LiveStage,
}

/// Mathematical model of a [`LiveSession`].
#[verifier::ext_equal]
pub struct SessionView {
    pub headers: Seq<(Seq<char>, Seq<char>)>,
    pub playlist_url: Seq<char>,
    pub current_url: Seq<char>,
    pub depth: int,
    pub log: Seq<Seq<char>>,
    pub total: u64,
    pub file_open: bool,
    pub segments: Seq<(Seq<char>, Seq<char>)>,
    pub next: int,
    pub ended: bool,
    pub sleep_text: Option<Seq<char>>,
    pub pending_bytes: u64,
    pub stage: LiveStage,
}

/// Mathematical model of a [`LiveAction`]; a failure is its kind and detail.
pub enum ActionView {
    CheckExisting,
    FetchPlaylist(Seq<char>),
    FetchSegment(Seq<char>),
    OpenFile,
    WriteSegment,
    Flush,
    Sleep(Option<Seq<char>>),
    ExistingOutput(u64),
    Completed(LiveCompletionReason),
    Stopped,
    Failed(LiveFailureKind, Seq<char>),
}

/// The detail text carried by a recorder error.
pub open spec fn recorder_detail(e: RecorderError) -> Seq<char> {
    match e {
        RecorderError::InvalidPlan(d) => d@,
        RecorderError::InvalidPlaylist(d) => d@,
        RecorderError::NetworkRetryExhausted(d) => d@,
        RecorderError::SegmentRetryExhausted(d) => d@,
        RecorderError::FileCreate(d) => d@,
        RecorderError::FileWrite(d) => d@,
        RecorderError::FileFlush(d) => d@,
        RecorderError::FileMetadata(d) => d@,
    }
}

/// The optional text seen as a character sequence.
pub open spec fn opt_view(o: Option<String>) -> Option<Seq<char>> {
    match o {
        Some(s) => Some(s@),
        None => None,
    }
}

/// The action seen as an [`ActionView`].
pub open spec fn action_view(a: LiveAction) -> ActionView {
    match a {
        LiveAction::CheckExisting => ActionView::CheckExisting,
        LiveAction::FetchPlaylist(u) => ActionView::FetchPlaylist(u@),
        LiveAction::FetchSegment(u) => ActionView::FetchSegment(u@),
        LiveAction::OpenFile => ActionView::OpenFile,
        LiveAction::WriteSegment => ActionView::WriteSegment,
        LiveAction::Flush => ActionView::Flush,
        LiveAction::Sleep(t) => ActionView::Sleep(opt_view(t)),
        LiveAction::ExistingOutput(n) => ActionView::ExistingOutput(n),
        LiveAction::Finish(LiveFinish::Completed(r)) => ActionView::Completed(r),
        LiveAction::Finish(LiveFinish::Stopped) => ActionView::Stopped,
        LiveAction::Finish(LiveFinish::Failed(e)) => ActionView::Failed(recorder_kind(e), recorder_detail(e)),
    }
}

impl LiveSession {
    /// The session seen as a [`SessionView`].
    pub open spec fn view_of(&self) -> SessionView {
        SessionView {
            headers: header_views(self.headers@),
            playlist_url: self.playlist_url@,
            current_url: self.current_url@,
            depth: self.depth as int,
            log: self.log@,
            total: self.total_downloaded,
            file_open: self.file_open,
            segments: segment_views(self.segments@),
            next: self.next as int,
            ended: self.ended,
            sleep_text: opt_view(self.sleep_text),
            pending_bytes: self.pending_bytes,
            stage: self.stage,
        }
    }

    /// Well-formed: the log is, the segment index is in range while a
    /// segment is being handled, and the nesting depth is below the limit.
    pub open spec fn wf(&self) -> bool {
        &&& self.wf_core()
        &&& (self.stage == LiveStage::AwaitSegment || self.stage == LiveStage::AwaitOpen || self.stage
            == LiveStage::AwaitWrite) ==> self.next < self.segments@.len()
    }

    /// The part of well-formedness that does not depend on the stage.
    pub open spec fn wf_core(&self) -> bool {
        &&& self.log.wf()
        &&& self.next <= self.segments@.len()
        &&& self.depth < MAX_PLAYLIST_DEPTH
    }
}

/// Whether a session in `stage` takes `event` next.
pub open spec fn accepts_spec(stage: LiveStage, event: LiveEvent) -> bool {
    match event {
        LiveEvent::Existing(_) => stage == LiveStage::AwaitExisting,
        LiveEvent::PlaylistText(_) => stage == LiveStage::AwaitPlaylist,
        LiveEvent::Segment(_) => stage == LiveStage::AwaitSegment,
        LiveEvent::Opened(_) => stage == LiveStage::AwaitOpen,
        LiveEvent::Written(_) => stage == LiveStage::AwaitWrite,
        LiveEvent::Flushed(_) => stage == LiveStage::AwaitFlush,
        LiveEvent::Slept => stage == LiveStage::AwaitSleep,
    }
}

/// The run ends with `a`.
pub open spec fn finish_with(s: SessionView, a: ActionView) -> (SessionView, ActionView) {
    (SessionView { stage: LiveStage::Finished, ..s }, a)
}

/// Top of the recording loop: stop when asked, else fetch the playlist
/// from the start of its chain.
pub open spec fn loop_top(s: SessionView, cancelled: bool) -> (SessionView, ActionView) {
    if cancelled {
        finish_with(s, ActionView::Stopped)
    } else {
        (
            SessionView {
                depth: 0,
                current_url: s.playlist_url,
                stage: LiveStage::AwaitPlaylist,
                ..s
            },
            ActionView::FetchPlaylist(s.playlist_url),
        )
    }
}

/// After the segments of a playlist (and the flush): complete when the
/// list has ended, else sleep before the next fetch.
pub open spec fn after_flush(s: SessionView) -> (SessionView, ActionView) {
    if s.ended {
        finish_with(s, ActionView::Completed(LiveCompletionReason::StreamEnded))
    } else {
        (SessionView { stage: LiveStage::AwaitSleep, ..s }, ActionView::Sleep(s.sleep_text))
    }
}

/// Walks the segments from `next` on: each one sets the sleep duration;
/// those already written are passed over; the first new one is fetched
/// unless recording was stopped. At the end, flush an open file.
pub open spec fn advance(s: SessionView, cancelled: bool) -> (SessionView, ActionView)
    decreases s.segments.len() - s.next,
{
    if s.next < 0 || s.next >= s.segments.len() {
        if s.file_open {
            (SessionView { stage: LiveStage::AwaitFlush, ..s }, ActionView::Flush)
        } else {
            after_flush(s)
        }
    } else {
        let seg = s.segments[s.next];
        let s1 = SessionView { sleep_text: Some(seg.1), ..s };
        if s.log.contains(seg.0) {
            advance(SessionView { next: s.next + 1, ..s1 }, cancelled)
        } else if cancelled {
            finish_with(s1, ActionView::Stopped)
        } else {
            (SessionView { stage: LiveStage::AwaitSegment, ..s1 }, ActionView::FetchSegment(seg.0))
        }
    }
}

/// `a + b`, kept at `u64::MAX` when larger.
pub open spec fn sat_add(a: u64, b: u64) -> u64 {
    if a + b > u64::MAX {
        u64::MAX
    } else {
        (a + b) as u64
    }
}

/// The run fails with `e`.
pub open spec fn fail_with(s: SessionView, e: RecorderError) -> (SessionView, ActionView) {
    finish_with(s, ActionView::Failed(recorder_kind(e), recorder_detail(e)))
}

/// The run fails with an invalid playlist.
pub open spec fn fail_playlist(s: SessionView, d: Seq<char>) -> (SessionView, ActionView) {
    finish_with(s, ActionView::Failed(LiveFailureKind::InvalidPlaylist, d))
}

/// What a playlist read does to the session.
pub open spec fn on_playlist(s: SessionView, p: Result<PlaylistView, Seq<char>>, cancelled: bool) -> (
    SessionView,
    ActionView,
) {
    match p {
        Err(d) => fail_playlist(s, d),
        Ok(PlaylistView::Master(u)) => match spec_parse_url(u) {
            Err(d) => fail_playlist(s, d),
            Ok((ser, _)) => if s.depth + 1 >= MAX_PLAYLIST_DEPTH {
                fail_playlist(s, "嵌套播放列表超过最大层级"@)
            } else {
                (
                    SessionView {
                        depth: s.depth + 1,
                        current_url: ser,
                        stage: LiveStage::AwaitPlaylist,
                        ..s
                    },
                    ActionView::FetchPlaylist(ser),
                )
            },
        },
        Ok(PlaylistView::Media(segs, ended)) => if segs.len() == 0 {
            if ended && s.total > 0 {
                finish_with(s, ActionView::Completed(LiveCompletionReason::StreamEnded))
            } else if ended {
                fail_playlist(s, "ENDLIST 前没有可用分片"@)
            } else {
                fail_playlist(s, "播放列表没有分片且缺少 #EXT-X-ENDLIST"@)
            }
        } else {
            advance(
                SessionView { segments: segs, ended: ended, next: 0, sleep_text: None, ..s },
                cancelled,
            )
        },
    }
}

/// The transition of a session on an event it accepts; `cancelled` is
/// whether recording has been asked to stop.
pub open spec fn step_spec(s: SessionView, event: LiveEvent, cancelled: bool) -> (SessionView, ActionView) {
    match event {
        LiveEvent::Existing(ExistingOutput::Found(n)) => if n > 0 {
            finish_with(s, ActionView::ExistingOutput(n))
        } else {
            finish_with(s, ActionView::Failed(LiveFailureKind::InvalidPlan, "目标文件已存在但为空"@))
        },
        LiveEvent::Existing(ExistingOutput::Missing) => loop_top(s, cancelled),
        LiveEvent::Existing(ExistingOutput::Error(t)) => finish_with(
            s,
            ActionView::Failed(LiveFailureKind::FileMetadata, t@),
        ),
        LiveEvent::PlaylistText(Err(e)) => fail_with(s, e),
        LiveEvent::PlaylistText(Ok((content, errs))) => on_playlist(
            s,
            playlist_spec(s.current_url, content@, error_views(errs@)),
            cancelled,
        ),
        LiveEvent::Segment(Err(e)) => fail_with(s, e),
        LiveEvent::Segment(Ok(SegmentFetch::Stopped)) => finish_with(s, ActionView::Stopped),
        LiveEvent::Segment(Ok(SegmentFetch::Bytes(n))) => if s.file_open {
            (SessionView { pending_bytes: n, stage: LiveStage::AwaitWrite, ..s }, ActionView::WriteSegment)
        } else {
            (SessionView { pending_bytes: n, stage: LiveStage::AwaitOpen, ..s }, ActionView::OpenFile)
        },
        LiveEvent::Opened(Err(e)) => fail_with(s, e),
        LiveEvent::Opened(Ok(())) => (
            SessionView { file_open: true, stage: LiveStage::AwaitWrite, ..s },
            ActionView::WriteSegment,
        ),
        LiveEvent::Written(Err(e)) => fail_with(s, e),
        LiveEvent::Written(Ok(())) => advance(
            SessionView {
                total: sat_add(s.total, s.pending_bytes),
                log: log_record(s.log, s.segments[s.next].0),
                next: s.next + 1,
                ..s
            },
            cancelled,
        ),
        LiveEvent::Flushed(Err(e)) => fail_with(s, e),
        LiveEvent::Flushed(Ok(())) => after_flush(s),
        LiveEvent::Slept => loop_top(s, cancelled),
    }
}

/// The session a valid plan starts with.
pub open spec fn initial_view(plan: LivePlanV1) -> SessionView {
    SessionView {
        headers: headers_spec(header_views(plan.headers@))->Ok_0,
        playlist_url: spec_parse_url(plan.m3u8_url@)->Ok_0.0,
        current_url: spec_parse_url(plan.m3u8_url@)->Ok_0.0,
        depth: 0,
        log: Seq::empty(),
        total: 0,
        file_open: false,
        segments: Seq::empty(),
        next: 0,
        ended: false,
        sleep_text: None,
        pending_bytes: 0,
        stage: LiveStage::AwaitExisting,
    }
}

impl LiveSession {
    fn empty() -> (res: LiveSession)
        ensures
            res.wf(),
            res.stage == LiveStage::AwaitExisting,
            res.view_of().log == Seq::<Seq<char>>::empty(),
            res.view_of().segments == Seq::<(Seq<char>, Seq<char>)>::empty(),
            res.view_of().sleep_text is None,
            res.depth == 0 && res.total_downloaded == 0 && !res.file_open && res.next == 0
                && !res.ended && res.pending_bytes == 0,
    {
        let res = LiveSession {
            headers: Vec::new(),
            playlist_url: String::new(),
            current_url: String::new(),
            depth: 0,
            log: SegmentLog::new(),
            total_downloaded: 0,
            file_open: false,
            segments: Vec::new(),
            next: 0,
            ended: false,
            sleep_text: None,
            pending_bytes: 0,
            stage: LiveStage::AwaitExisting,
        };
        assert(res.view_of().segments =~= Seq::<(Seq<char>, Seq<char>)>::empty());
        res
    }

    /// Starts a run for `plan`: an invalid plan fails at once with its
    /// first violation; a valid one first asks for the output's metadata.
    pub fn start(plan: &LivePlanV1) -> (res: (LiveSession, LiveAction))
        ensures
            res.0.wf(),
            live_plan_violation(*plan) is None ==> res.0.view_of() == initial_view(*plan) && action_view(res.1)
                == ActionView::CheckExisting,
            live_plan_violation(*plan) matches Some(m) ==> res.0.stage == LiveStage::Finished && action_view(
                res.1,
            ) == ActionView::Failed(LiveFailureKind::InvalidPlan, m),
    {
        let mut session = LiveSession::empty();
        match plan.validate() {
            Ok(()) => {},
            Err(m) => {
                session.stage = LiveStage::Finished;
                return (session, LiveAction::Finish(LiveFinish::Failed(RecorderError::InvalidPlan(m))));
            },
        }
        let headers = match build_headers(plan) {
            Ok(h) => h,
            Err(e) => {
                session.stage = LiveStage::Finished;
                return (session, LiveAction::Finish(LiveFinish::Failed(e)));
            },
        };
        let url = match parse_url(plan.m3u8_url.as_str()) {
            Ok((u, _)) => u,
            Err(e) => {
                session.stage = LiveStage::Finished;
                return (session, LiveAction::Finish(LiveFinish::Failed(RecorderError::InvalidPlan(e))));
            },
        };
        session.headers = headers;
        session.current_url = url.clone();
        session.playlist_url = url;
        (session, LiveAction::CheckExisting)
    }

    /// Whether the session takes `event` next.
    pub fn accepts(&self, event: &LiveEvent) -> (res: bool)
        ensures
            res == accepts_spec(self.stage, *event),
    {
        match event {
            LiveEvent::Existing(_) => self.stage == LiveStage::AwaitExisting,
            LiveEvent::PlaylistText(_) => self.stage == LiveStage::AwaitPlaylist,
            LiveEvent::Segment(_) => self.stage == LiveStage::AwaitSegment,
            LiveEvent::Opened(_) => self.stage == LiveStage::AwaitOpen,
            LiveEvent::Written(_) => self.stage == LiveStage::AwaitWrite,
            LiveEvent::Flushed(_) => self.stage == LiveStage::AwaitFlush,
            LiveEvent::Slept => self.stage == LiveStage::AwaitSleep,
        }
    }

    fn finish(&mut self, f: LiveFinish) -> (res: LiveAction)
        requires
            old(self).wf(),
        ensures
            final(self).wf(),
            (final(self).view_of(), action_view(res)) == finish_with(old(self).view_of(), action_view(LiveAction::Finish(f))),
    {
        self.stage = LiveStage::Finished;
        LiveAction::Finish(f)
    }

    fn loop_top(&mut self, cancelled: bool) -> (res: LiveAction)
        requires
            old(self).wf(),
        ensures
            final(self).wf(),
            (final(self).view_of(), action_view(res)) == loop_top(old(self).view_of(), cancelled),
    {
        if cancelled {
            return self.finish(LiveFinish::Stopped);
        }
        self.depth = 0;
        self.current_url = self.playlist_url.clone();
        self.stage = LiveStage::AwaitPlaylist;
        LiveAction::FetchPlaylist(self.playlist_url.clone())
    }

    fn after_flush(&mut self) -> (res: LiveAction)
        requires
            old(self).wf(),
        ensures
            final(self).wf(),
            (final(self).view_of(), action_view(res)) == after_flush(old(self).view_of()),
    {
        if self.ended {
            return self.finish(LiveFinish::Completed(LiveCompletionReason::StreamEnded));
        }
        self.stage = LiveStage::AwaitSleep;
        LiveAction::Sleep(self.sleep_text.clone())
    }

    fn advance(&mut self, cancelled: bool) -> (res: LiveAction)
        requires
            old(self).wf_core(),
        ensures
            final(self).wf(),
            (final(self).view_of(), action_view(res)) == advance(old(self).view_of(), cancelled),
    {
        let ghost goal = advance(self.view_of(), cancelled);
        while self.next < self.segments.len()
            invariant
                self.wf_core(),
                goal == advance(self.view_of(), cancelled),
                goal == advance(old(self).view_of(), cancelled),
            decreases self.segments@.len() - self.next,
        {
            let i = self.next;
            proof {
                assert(self.view_of().segments[i as int] == (
                    self.segments@[i as int].url@,
                    self.segments@[i as int].duration_text@,
                ));
            }
            let ghost v0 = self.view_of();
            self.sleep_text = Some(self.segments[i].duration_text.clone());
            let ghost v1 = self.view_of();
            proof {
                assert(v1 =~= SessionView { sleep_text: Some(v0.segments[v0.next].1), ..v0 });
            }
            if self.log.contains(self.segments[i].url.as_str()) {
                self.next = i + 1;
                proof {
                    assert(self.view_of() =~= SessionView { next: v0.next + 1, ..v1 });
                }
            } else if cancelled {
                return self.finish(LiveFinish::Stopped);
            } else {
                self.stage = LiveStage::AwaitSegment;
                let u = self.segments[i].url.clone();
                proof {
                    assert(self.view_of() =~= SessionView { stage: LiveStage::AwaitSegment, ..v1 });
                    assert(u@ == v0.segments[v0.next].0);
                }
                return LiveAction::FetchSegment(u);
            }
        }
        if self.file_open {
            self.stage = LiveStage::AwaitFlush;
            return LiveAction::Flush;
        }
        self.stage = LiveStage::AwaitSleep;
        self.after_flush()
    }

    fn fail(&mut self, e: RecorderError) -> (res: LiveAction)
        requires
            old(self).wf(),
        ensures
            final(self).wf(),
            (final(self).view_of(), action_view(res)) == fail_with(old(self).view_of(), e),
    {
        self.finish(LiveFinish::Failed(e))
    }

    fn on_playlist(&mut self, p: Result<Playlist, RecorderError>, cancelled: bool) -> (res: LiveAction)
        requires
            old(self).wf(),
            match p {
                Ok(pl) => true,
                Err(e) => e is InvalidPlaylist,
            },
        ensures
            final(self).wf(),
            (final(self).view_of(), action_view(res)) == on_playlist(
                old(self).view_of(),
                match p {
                    Ok(pl) => Ok(crate::download::hls::playlist_view(pl)),
                    Err(e) => Err(recorder_detail(e)),
                },
                cancelled,
            ),
    {
        match p {
            Err(e) => self.fail(e),
            Ok(Playlist::Master(u)) => {
                let ser = match parse_url(u.as_str()) {
                    Ok((ser, _)) => ser,
                    Err(d) => {
                        return self.fail(RecorderError::InvalidPlaylist(d));
                    },
                };
                if self.depth + 1 >= MAX_PLAYLIST_DEPTH {
                    return self.fail(RecorderError::InvalidPlaylist(to_owned_string("嵌套播放列表超过最大层级")));
                }
                self.depth = self.depth + 1;
                self.current_url = ser.clone();
                self.stage = LiveStage::AwaitPlaylist;
                LiveAction::FetchPlaylist(ser)
            },
            Ok(Playlist::Media { segments, ended }) => {
                if segments.len() == 0 {
                    if ended && self.total_downloaded > 0 {
                        return self.finish(LiveFinish::Completed(LiveCompletionReason::StreamEnded));
                    } else if ended {
                        return self.fail(RecorderError::InvalidPlaylist(to_owned_string("ENDLIST 前没有可用分片")));
                    } else {
                        return self.fail(
                            RecorderError::InvalidPlaylist(to_owned_string("播放列表没有分片且缺少 #EXT-X-ENDLIST")),
                        );
                    }
                }
                self.segments = segments;
                self.ended = ended;
                self.next = 0;
                self.sleep_text = None;
                self.advance(cancelled)
            },
        }
    }

    /// Hands the result of the last action to the session and returns the
    /// next action, with the total of bytes written when a segment was just
    /// written (the progress to report).
    pub fn step(&mut self, event: LiveEvent, cancelled: bool) -> (res: (LiveAction, Option<u64>))
        requires
            old(self).wf(),
            accepts_spec(old(self).stage, event),
        ensures
            final(self).wf(),
            (final(self).view_of(), action_view(res.0)) == step_spec(old(self).view_of(), event, cancelled),
            res.1 == (match event {
                LiveEvent::Written(Ok(())) => Some(sat_add(old(self).total_downloaded, old(self).pending_bytes)),
                _ => None::<u64>,
            }),
    {
        match event {
            LiveEvent::Existing(ExistingOutput::Found(n)) => {
                if n > 0 {
                    (self.finish_existing(n), None)
                } else {
                    (self.fail(RecorderError::InvalidPlan(to_owned_string("目标文件已存在但为空"))), None)
                }
            },
            LiveEvent::Existing(ExistingOutput::Missing) => (self.loop_top(cancelled), None),
            LiveEvent::Existing(ExistingOutput::Error(t)) => (self.fail(RecorderError::FileMetadata(t)), None),
            LiveEvent::PlaylistText(Err(e)) => (self.fail(e), None),
            LiveEvent::PlaylistText(Ok((content, errs))) => {
                let p = parse_playlist(self.current_url.as_str(), content.as_str(), &errs);
                (self.on_playlist(p, cancelled), None)
            },
            LiveEvent::Segment(Err(e)) => (self.fail(e), None),
            LiveEvent::Segment(Ok(SegmentFetch::Stopped)) => (self.finish(LiveFinish::Stopped), None),
            LiveEvent::Segment(Ok(SegmentFetch::Bytes(n))) => {
                self.pending_bytes = n;
                if self.file_open {
                    self.stage = LiveStage::AwaitWrite;
                    (LiveAction::WriteSegment, None)
                } else {
                    self.stage = LiveStage::AwaitOpen;
                    (LiveAction::OpenFile, None)
                }
            },
            LiveEvent::Opened(Err(e)) => (self.fail(e), None),
            LiveEvent::Opened(Ok(())) => {
                self.file_open = true;
                self.stage = LiveStage::AwaitWrite;
                (LiveAction::WriteSegment, None)
            },
            LiveEvent::Written(Err(e)) => (self.fail(e), None),
            LiveEvent::Written(Ok(())) => {
                self.total_downloaded = self.total_downloaded.saturating_add(self.pending_bytes);
                let i = self.next;
                assert(i < self.segments.len());
                let u = self.segments[i].url.clone();
                self.log.record(u.as_str());
                self.next = i + 1;
                let total = self.total_downloaded;
                (self.advance(cancelled), Some(total))
            },
            LiveEvent::Flushed(Err(e)) => (self.fail(e), None),
            LiveEvent::Flushed(Ok(())) => (self.after_flush(), None),
            LiveEvent::Slept => (self.loop_top(cancelled), None),
        }
    }

    fn finish_existing(&mut self, n: u64) -> (res: LiveAction)
        requires
            old(self).wf(),
        ensures
            final(self).wf(),
            (final(self).view_of(), action_view(res)) == finish_with(old(self).view_of(), ActionView::ExistingOutput(n)),
    {
        self.stage = LiveStage::Finished;
        LiveAction::ExistingOutput(n)
    }
}

/// What reading the output file's metadata gave.
#[derive(Debug, Clone)]
pub enum FileMeta {
    Size(u64),
    NotFound,
    Error(String),
}

/// Facts of a closed output: a failed flush gives size 0 and a flush
/// error; else the measured size (0 when no file exists) or, when the
/// metadata cannot be read, size 0 and a metadata error.
pub fn close_facts(path: String, started_at: i64, ended_at: i64, flush: Result<(), String>, meta: FileMeta) -> (res:
    Result<LiveOutputFacts, (RecorderError, LiveOutputFacts)>)
    ensures
        match res {
            Ok(o) => o.path@ == path@ && o.started_at == started_at && o.ended_at == ended_at,
            Err((_, o)) => o.path@ == path@ && o.started_at == started_at && o.ended_at == ended_at
                && o.file_size == 0,
        },
        match flush {
            Err(t) => (res matches Err((e, _)) && (e matches RecorderError::FileFlush(d) && d@ == t@)),
            Ok(()) => match meta {
                FileMeta::Size(n) => (res matches Ok(o) && o.file_size == n),
                FileMeta::NotFound => (res matches Ok(o) && o.file_size == 0),
                FileMeta::Error(t) => (res matches Err((e, _)) && (e matches RecorderError::FileMetadata(d)
                    && d@ == t@)),
            },
        },
{
    match flush {
        Err(t) => {
            return Err(
                (RecorderError::FileFlush(t), LiveOutputFacts { path, file_size: 0, started_at, ended_at }),
            );
        },
        Ok(()) => {},
    }
    match meta {
        FileMeta::Size(n) => Ok(LiveOutputFacts { path, file_size: n, started_at, ended_at }),
        FileMeta::NotFound => Ok(LiveOutputFacts { path, file_size: 0, started_at, ended_at }),
        FileMeta::Error(t) => Err(
            (RecorderError::FileMetadata(t), LiveOutputFacts { path, file_size: 0, started_at, ended_at }),
        ),
    }
}

/// `primary`'s text, then `; `, then `second`'s text.
fn joined_messages(primary: &RecorderError, second: &RecorderError) -> (res: String)
    ensures
        res@ == recorder_message(*primary) + "; "@ + recorder_message(*second),
{
    let mut s = primary.message();
    s.append("; ");
    let t = second.message();
    s.append(t.as_str());
    s
}

/// How a finished run is reported, given the measured output.
/// A completion or a stop needs usable bytes: with an empty output a
/// completion fails as an invalid playlist and a stop as stopped before
/// usable bytes. A failure keeps its own kind and text unless closing
/// failed too, when the closing error's kind wins and both texts are kept.
pub fn finish_outcome(f: LiveFinish, measured: Result<LiveOutputFacts, (RecorderError, LiveOutputFacts)>) -> (res:
    LiveRecorderOutcome)
    ensures
        match measured {
            Ok(o) => outcome_output(res) == o,
            Err((_, o)) => outcome_output(res) == o,
        },
        match (f, measured) {
            (LiveFinish::Completed(r), Ok(o)) => if o.file_size > 0 {
                res matches LiveRecorderOutcome::Completed { reason, .. } && reason == r
            } else {
                res matches LiveRecorderOutcome::Failed { kind, error, .. } && kind
                    == LiveFailureKind::InvalidPlaylist && error@ == "直播结束但没有产生可用字节"@
            },
            (LiveFinish::Stopped, Ok(o)) => if o.file_size > 0 {
                res matches LiveRecorderOutcome::Completed { reason, .. } && reason
                    == LiveCompletionReason::UserStopped
            } else {
                res matches LiveRecorderOutcome::Failed { kind, error, .. } && kind
                    == LiveFailureKind::StoppedBeforeUsableBytes && error@ == "用户停止录制时尚未产生可用字节"@
            },
            (LiveFinish::Failed(p), Ok(_)) => res matches LiveRecorderOutcome::Failed { kind, error, .. } && kind
                == recorder_kind(p) && error@ == recorder_message(p),
            (LiveFinish::Failed(p), Err((c, _))) => res matches LiveRecorderOutcome::Failed { kind, error, .. }
                && kind == recorder_kind(c) && error@ == recorder_message(p) + "; "@ + recorder_message(c),
            (_, Err((c, _))) => res matches LiveRecorderOutcome::Failed { kind, error, .. } && kind
                == recorder_kind(c) && error@ == recorder_message(c),
        },
{
    match f {
        LiveFinish::Completed(reason) => match measured {
            Ok(output) => if output.file_size > 0 {
                LiveRecorderOutcome::Completed { reason, output }
            } else {
                LiveRecorderOutcome::Failed {
                    kind: LiveFailureKind::InvalidPlaylist,
                    error: to_owned_string("直播结束但没有产生可用字节"),
                    output,
                }
            },
            Err((e, output)) => LiveRecorderOutcome::Failed { kind: e.kind(), error: e.message(), output },
        },
        LiveFinish::Stopped => match measured {
            Ok(output) => if output.file_size > 0 {
                LiveRecorderOutcome::Completed { reason: LiveCompletionReason::UserStopped, output }
            } else {
                LiveRecorderOutcome::Failed {
                    kind: LiveFailureKind::StoppedBeforeUsableBytes,
                    error: to_owned_string("用户停止录制时尚未产生可用字节"),
                    output,
                }
            },
            Err((e, output)) => LiveRecorderOutcome::Failed { kind: e.kind(), error: e.message(), output },
        },
        LiveFinish::Failed(p) => match measured {
            Ok(output) => LiveRecorderOutcome::Failed { kind: p.kind(), error: p.message(), output },
            Err((c, output)) => {
                let error = joined_messages(&p, &c);
                LiveRecorderOutcome::Failed { kind: c.kind(), error, output }
            },
        },
    }
}

/// HTTP settings of a recorder derived from the application configuration.
#[derive(Debug, Clone)]
pub struct RecorderSettings {
    pub timeout_secs: u64,
    pub max_idle_per_host: usize,
    pub proxy: Option<String>,
    pub max_attempts: u32,
    pub retry_delay_ms: u64,
}

/// Recorder settings: timeout, idle connections and attempts at least 1,
/// the proxy used as written unless it is blank, 200 ms between attempts.
pub fn recorder_settings(config: &AppConfig) -> (res: RecorderSettings)
    ensures
        res.timeout_secs == (if config.timeout >= 1 { config.timeout } else { 1 }),
        res.max_idle_per_host == (if config.max_connections >= 1 { config.max_connections } else { 1 }),
        res.max_attempts == (if config.max_retries >= 1 { config.max_retries } else { 1 }),
        res.retry_delay_ms == 200,
        blank(config.proxy@) ==> res.proxy is None,
        !blank(config.proxy@) ==> (res.proxy matches Some(p) && p@ == config.proxy@),
{
    let timeout: u32 = if config.timeout >= 1 { config.timeout } else { 1 };
    let idle: u32 = if config.max_connections >= 1 { config.max_connections } else { 1 };
    let attempts: u32 = if config.max_retries >= 1 { config.max_retries } else { 1 };
    let proxy = if is_blank(config.proxy.as_str()) {
        None
    } else {
        Some(config.proxy.clone())
    };
    RecorderSettings {
        timeout_secs: timeout as u64,
        max_idle_per_host: idle as usize,
        proxy,
        max_attempts: attempts,
        retry_delay_ms: 200,
    }
}

/// What one HTTP attempt of a playlist or segment fetch gave.
#[derive(Debug, Clone)]
pub enum FetchReply {
    /// A success status whose body was read in full, of this many bytes.
    Received(u64),
    /// A success status whose body could not be read, with the error.
    BodyError(String),
    /// A status other than success: its code and its display text.
    Status(u16, String),
    /// The request failed, with the error.
    Transport(String),
}

/// What the fetch loop does after an attempt.
#[derive(Debug)]
pub enum AttemptStep {
    /// Keep the body.
    Accept,
    /// Wait the retry delay, then try again.
    Retry,
    /// Give up with this error.
    Fail(RecorderError),
}

/// Why an attempt did not succeed: whether it may be retried and the text
/// kept as the last error; `None` when the body is accepted. An empty
/// segment body counts as a failure that may be retried.
pub open spec fn attempt_failure(segment: bool, reply: FetchReply) -> Option<(bool, Seq<char>)> {
    match reply {
        FetchReply::Received(n) => if segment && n == 0 {
            Some((true, "分片响应为空"@))
        } else {
            None
        },
        FetchReply::BodyError(t) => Some((true, t@)),
        FetchReply::Transport(t) => Some((true, t@)),
        FetchReply::Status(code, text) => Some((live_retryable(code), "HTTP "@ + text@)),
    }
}

/// The decision after attempt number `attempt` (from 0) of `max_attempts`:
/// accept a usable body; retry a retryable failure while attempts remain;
/// else give up with the failure's text, as a segment or playlist error.
pub fn attempt_step(segment: bool, attempt: u32, max_attempts: u32, reply: &FetchReply) -> (res: AttemptStep)
    ensures
        match attempt_failure(segment, *reply) {
            None => res is Accept,
            Some((retryable, text)) => if retryable && attempt + 1 < max_attempts {
                res is Retry
            } else {
                res matches AttemptStep::Fail(e) && recorder_detail(e) == text && (if segment {
                    e is SegmentRetryExhausted
                } else {
                    e is NetworkRetryExhausted
                })
            },
        },
{
    let (retryable, text) = match reply {
        FetchReply::Received(n) => {
            if segment && *n == 0 {
                (true, to_owned_string("分片响应为空"))
            } else {
                return AttemptStep::Accept;
            }
        },
        FetchReply::BodyError(t) => (true, t.clone()),
        FetchReply::Transport(t) => (true, t.clone()),
        FetchReply::Status(code, t) => {
            let mut s = to_owned_string("HTTP ");
            s.append(t.as_str());
            (is_retryable_status(*code), s)
        },
    };
    if retryable && (attempt as u64) + 1 < max_attempts as u64 {
        AttemptStep::Retry
    } else if segment {
        AttemptStep::Fail(RecorderError::SegmentRetryExhausted(text))
    } else {
        AttemptStep::Fail(RecorderError::NetworkRetryExhausted(text))
    }
}

} // verus!

verus! {

/// Walking the segments leaves the log and the byte count alone, and a
/// segment it asks to fetch is one not written before.
pub proof fn lemma_advance_fetches_only_new(s: SessionView, cancelled: bool)
    ensures
        advance(s, cancelled).0.log == s.log,
        advance(s, cancelled).0.total == s.total,
        advance(s, cancelled).1 matches ActionView::FetchSegment(u) ==> !s.log.contains(u),
    decreases s.segments.len() - s.next,
{
    if 0 <= s.next < s.segments.len() {
        let seg = s.segments[s.next];
        let s1 = SessionView { sleep_text: Some(seg.1), ..s };
        if s.log.contains(seg.0) {
            lemma_advance_fetches_only_new(SessionView { next: s.next + 1, ..s1 }, cancelled);
        }
    }
}

/// No segment is downloaded twice while it is remembered: whatever the
/// event, a segment the session asks to fetch is not in the log it keeps.
pub proof fn lemma_step_fetches_only_new(s: SessionView, event: LiveEvent, cancelled: bool)
    requires
        accepts_spec(s.stage, event),
        s.next <= s.segments.len(),
        s.stage == LiveStage::AwaitWrite ==> s.next < s.segments.len(),
    ensures
        step_spec(s, event, cancelled).1 matches ActionView::FetchSegment(u) ==> !step_spec(
            s,
            event,
            cancelled,
        ).0.log.contains(u),
{
    match event {
        LiveEvent::PlaylistText(Ok((content, errs))) => {
            match playlist_spec(s.current_url, content@, error_views(errs@)) {
                Ok(PlaylistView::Media(segs, ended)) => {
                    if segs.len() > 0 {
                        lemma_advance_fetches_only_new(
                            SessionView { segments: segs, ended: ended, next: 0, sleep_text: None, ..s },
                            cancelled,
                        );
                    }
                },
                _ => {},
            }
        },
        LiveEvent::Written(Ok(())) => {
            lemma_advance_fetches_only_new(
                SessionView {
                    total: sat_add(s.total, s.pending_bytes),
                    log: log_record(s.log, s.segments[s.next].0),
                    next: s.next + 1,
                    ..s
                },
                cancelled,
            );
        },
        _ => {},
    }
}

/// The count of bytes written never goes down.
pub proof fn lemma_step_total_monotone(s: SessionView, event: LiveEvent, cancelled: bool)
    ensures
        step_spec(s, event, cancelled).0.total >= s.total,
{
    match event {
        LiveEvent::PlaylistText(Ok((content, errs))) => {
            match playlist_spec(s.current_url, content@, error_views(errs@)) {
                Ok(PlaylistView::Media(segs, ended)) => {
                    if segs.len() > 0 {
                        lemma_advance_fetches_only_new(
                            SessionView { segments: segs, ended: ended, next: 0, sleep_text: None, ..s },
                            cancelled,
                        );
                    }
                },
                _ => {},
            }
        },
        LiveEvent::Written(Ok(())) => {
            lemma_advance_fetches_only_new(
                SessionView {
                    total: sat_add(s.total, s.pending_bytes),
                    log: log_record(s.log, s.segments[s.next].0),
                    next: s.next + 1,
                    ..s
                },
                cancelled,
            );
        },
        _ => {},
    }
}

/// A segment just written is remembered: after the write the log holds
/// its URL, unless the log was emptied for growing past its limit.
pub proof fn lemma_written_segment_remembered(s: SessionView, cancelled: bool)
    requires
        s.stage == LiveStage::AwaitWrite,
        0 <= s.next < s.segments.len(),
        s.log.len() <= MAX_SEGMENT_COUNT,
    ensures
        ({
            let after = step_spec(s, LiveEvent::Written(Ok(())), cancelled).0;
            after.log.contains(s.segments[s.next].0) || after.log.len() == 0
        }),
{
    let s1 = SessionView {
        total: sat_add(s.total, s.pending_bytes),
        log: log_record(s.log, s.segments[s.next].0),
        next: s.next + 1,
        ..s
    };
    lemma_advance_fetches_only_new(s1, cancelled);
    lemma_log_record(s.log, s.segments[s.next].0);
}

/// A run that is asked to stop while waiting to fetch the playlist, or
/// after sleeping, ends as stopped without fetching anything.
pub proof fn lemma_stop_at_loop_top(s: SessionView)
    ensures
        loop_top(s, true).1 == ActionView::Stopped,
        loop_top(s, true).0.stage == LiveStage::Finished,
{
}

/// A stream that ends (a media playlist with `#EXT-X-ENDLIST` and no
/// segments left) completes the run as ended exactly when bytes were
/// already written; with none written it fails as an invalid playlist.
/// Either way the run is over.
pub proof fn lemma_ended_stream_outcome(s: SessionView, cancelled: bool)
    ensures
        ({
            let r = on_playlist(s, Ok(PlaylistView::Media(Seq::empty(), true)), cancelled);
            &&& r.0.stage == LiveStage::Finished
            &&& r.0.total == s.total
            &&& (r.1 == ActionView::Completed(LiveCompletionReason::StreamEnded) <==> s.total > 0)
            &&& (s.total == 0 ==> (r.1 matches ActionView::Failed(k, _) && k == LiveFailureKind::InvalidPlaylist))
        }),
{
}

} // verus!
