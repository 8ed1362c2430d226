//! The download task state machine.
//!
//! One task drives one item through fetch, cover retrieval, tagging and
//! placement. The decisions live here as a pure step function from state and
//! event to the next state, an optional progress emission and the actions the
//! runner performs (spawn the fetcher, fetch the cover, run the remux, rename,
//! remove a file). The runner feeds every outcome back as an event; the step
//! function is verified for every outcome, so a hung or failing external
//! process can never drive a record backwards.

use vstd::prelude::*;
use vstd::string::{StrSliceExecFns, StringExecFns};

use crate::placement::{
    ends_with_mp3, has_mp3_ext, placement_path, placement_path_spec, remux_args,
    remux_args_spec, tmp_tag_path, tmp_tag_path_spec, track_dir, track_dir_spec,
};
use crate::progress::{parse_pct, parse_pct_spec, trim_of, trim_str};
use crate::track::Track;

verus! {

/// Where a task stands. `log` accumulates the fetcher's raw output;
/// `candidate` is the last completed-file path seen in the output.
#[derive(Debug)]
pub enum TaskState {
    Queued,
    Fetching { log: String, candidate: Option<String> },
    CoverFetch { log: String, source: String },
    Tagging { log: String, source: String, cover: Option<String> },
    Placing { log: String },
    Done { log: String },
    Failed { reason: String },
}

/// What the runner reports to the task: admission, one line of fetcher
/// output (with whether the trimmed line names a file that exists), the
/// fetcher's exit, the cover fetch outcome, the remux outcome, the rename
/// outcome.
#[derive(Debug)]
pub enum TaskEvent {
    Start,
    StdoutLine { line: String, path_exists: bool },
    StderrLine { line: String },
    FetchExit { success: bool },
    CoverResult { path: Option<String> },
    TagResult { ok: bool, diagnostic: String },
    PlaceResult { ok: bool },
}

/// What the runner must perform next.
#[derive(Debug)]
pub enum TaskAction {
    RunFetcher { query: String, template: String },
    FetchCover { url: String },
    Remux { args: Vec<String>, tmp: String, source: String },
    Rename { from: String, to: String },
    RemoveFile { path: String },
}

/// One step's outcome: the next state, an optional progress emission in
/// hundredths of a percent, and the actions to perform, in order.
pub struct StepResult {
    pub state: TaskState,
    pub progress: Option<u32>,
    pub actions: Vec<TaskAction>,
}

/// Every candidate source file the machine holds ends in `.mp3`, so the
/// temporary sibling path is always defined.
pub open spec fn state_wf(s: TaskState) -> bool {
    match s {
        TaskState::Fetching { candidate: Some(c), .. } => has_mp3_ext(c@),
        TaskState::CoverFetch { source, .. } => has_mp3_ext(source@),
        TaskState::Tagging { source, .. } => has_mp3_ext(source@),
        _ => true,
    }
}

/// How far along the pipeline a state stands; `Done` and `Failed` are
/// terminal.
pub open spec fn phase_rank(s: TaskState) -> int {
    match s {
        TaskState::Queued => 0,
        TaskState::Fetching { .. } => 1,
        TaskState::CoverFetch { .. } => 2,
        TaskState::Tagging { .. } => 3,
        TaskState::Placing { .. } => 4,
        TaskState::Done { .. } => 5,
        TaskState::Failed { .. } => 5,
    }
}

pub open spec fn is_terminal(s: TaskState) -> bool {
    s is Done || s is Failed
}

/// The fetcher query: a one-result search for `<artist> - <title>`.
pub open spec fn fetch_query_spec(t: Track) -> Seq<char> {
    "ytsearch1:"@.add(t.artist@).add(" - "@).add(t.title@)
}

/// The fetcher's output template inside the target directory.
pub open spec fn fetch_template_spec(base: Seq<char>, t: Track) -> Seq<char> {
    track_dir_spec(base, t).add("/%(title)s.%(ext)s"@)
}

/// An event changed nothing.
pub open spec fn noop_step(state: TaskState, r: StepResult) -> bool {
    r.state == state && r.progress is None && r.actions@.len() == 0
}

/// The exact transition relation of the task state machine.
pub open spec fn step_spec(t: Track, base: Seq<char>, state: TaskState, event: TaskEvent,
    r: StepResult) -> bool {
    match state {
        TaskState::Queued => match event {
            TaskEvent::Start => {
                &&& (r.state matches TaskState::Fetching { log, candidate }
                        && log@ == Seq::<char>::empty() && candidate is None)
                &&& r.progress == Some(0u32)
                &&& r.actions@.len() == 1
                &&& (r.actions@[0] matches TaskAction::RunFetcher { query, template }
                        && query@ == fetch_query_spec(t)
                        && template@ == fetch_template_spec(base, t))
            },
            _ => noop_step(state, r),
        },
        TaskState::Fetching { log, candidate } => match event {
            TaskEvent::StdoutLine { line, path_exists } => {
                &&& (r.state matches TaskState::Fetching { log: l2, candidate: c2 }
                        && l2@ == log@.add(line@).add("\n"@)
                        && (if has_mp3_ext(trim_of(line@)) && path_exists {
                                c2 matches Some(c) && c@ == trim_of(line@)
                            } else {
                                c2 == candidate
                            }))
                &&& r.progress == parse_pct_spec(line@)
                &&& r.actions@.len() == 0
            },
            TaskEvent::StderrLine { line } => {
                &&& (r.state matches TaskState::Fetching { log: l2, candidate: c2 }
                        && l2@ == log@.add("[stderr] "@).add(line@).add("\n"@)
                        && c2 == candidate)
                &&& r.progress is None
                &&& r.actions@.len() == 0
            },
            TaskEvent::FetchExit { success } => {
                if !success {
                    &&& (r.state matches TaskState::Failed { reason }
                            && reason@ == "yt-dlp failed\n"@.add(log@))
                    &&& r.progress is None
                    &&& r.actions@.len() == 0
                } else {
                    match candidate {
                        None => {
                            &&& (r.state matches TaskState::Failed { reason }
                                    && reason@ == "mp3 not found\n"@.add(log@))
                            &&& r.progress is None
                            &&& r.actions@.len() == 0
                        },
                        Some(src) => {
                            &&& r.progress == Some(9000u32)
                            &&& (if t.cover_url@.len() > 0 {
                                    &&& (r.state matches TaskState::CoverFetch {
                                            log: l2, source }
                                            && l2 == log && source == src)
                                    &&& r.actions@.len() == 1
                                    &&& (r.actions@[0] matches TaskAction::FetchCover { url }
                                            && url@ == t.cover_url@)
                                } else {
                                    &&& (r.state matches TaskState::Tagging {
                                            log: l2, source, cover }
                                            && l2 == log && source == src && cover is None)
                                    &&& r.actions@.len() == 1
                                    &&& (r.actions@[0] matches TaskAction::Remux {
                                            args, tmp, source }
                                            && args.deep_view() == remux_args_spec(src@,
                                                None::<Seq<char>>, t, tmp_tag_path_spec(src@))
                                            && tmp@ == tmp_tag_path_spec(src@)
                                            && source@ == src@)
                                })
                        },
                    }
                }
            },
            _ => noop_step(state, r),
        },
        TaskState::CoverFetch { log, source } => match event {
            TaskEvent::CoverResult { path } => {
                &&& (r.state matches TaskState::Tagging { log: l2, source: s2, cover }
                        && l2 == log && s2 == source && cover == path)
                &&& r.progress is None
                &&& r.actions@.len() == 1
                &&& (r.actions@[0] matches TaskAction::Remux { args, tmp, source: s2 }
                        && args.deep_view() == remux_args_spec(source@, (match path {
                                Some(c) => Some(c@),
                                None => None,
                            }), t, tmp_tag_path_spec(source@))
                        && tmp@ == tmp_tag_path_spec(source@)
                        && s2@ == source@)
            },
            _ => noop_step(state, r),
        },
        TaskState::Tagging { log, source, cover } => match event {
            TaskEvent::TagResult { ok, diagnostic } => {
                let cleanup: Seq<TaskAction> = match cover {
                    Some(c) => seq![TaskAction::RemoveFile { path: c }],
                    None => Seq::<TaskAction>::empty(),
                };
                if ok {
                    if placement_path_spec(base, t) == source@ {
                        &&& (r.state matches TaskState::Done { log: l2 } && l2 == log)
                        &&& r.progress == Some(10000u32)
                        &&& r.actions@ == cleanup
                    } else {
                        &&& (r.state matches TaskState::Placing { log: l2 } && l2 == log)
                        &&& r.progress is None
                        &&& r.actions@.len() == cleanup.len() + 1
                        &&& r.actions@.take(cleanup.len() as int) == cleanup
                        &&& (r.actions@.last() matches TaskAction::Rename { from, to }
                                && from@ == source@
                                && to@ == placement_path_spec(base, t))
                    }
                } else {
                    &&& (r.state matches TaskState::Failed { reason }
                            && reason@ == "ffmpeg err: "@.add(diagnostic@))
                    &&& r.progress is None
                    &&& r.actions@.len() == cleanup.len() + 1
                    &&& r.actions@.take(cleanup.len() as int) == cleanup
                    &&& (r.actions@.last() matches TaskAction::RemoveFile { path }
                            && path@ == tmp_tag_path_spec(source@))
                }
            },
            _ => noop_step(state, r),
        },
        TaskState::Placing { log } => match event {
            TaskEvent::PlaceResult { .. } => {
                &&& (r.state matches TaskState::Done { log: l2 } && l2 == log)
                &&& r.progress == Some(10000u32)
                &&& r.actions@.len() == 0
            },
            _ => noop_step(state, r),
        },
        TaskState::Done { .. } => noop_step(state, r),
        TaskState::Failed { .. } => noop_step(state, r),
    }
}

/// One download task: the descriptor it drives and the directory its output
/// is placed under.
#[derive(Debug)]
pub struct DownloadTask {
    pub track: Track,
    pub base: String,
}

impl DownloadTask {
    pub fn new(track: Track, base: String) -> (r: Self)
        ensures
            r.track == track,
            r.base == base,
    {
        DownloadTask { track, base }
    }

    /// Drive the machine one event forward.
    ///
    /// Besides the exact transition relation, the contract carries the two
    /// safety laws: the phase never moves backwards and a terminal state
    /// absorbs every event; and a failed cover fetch still proceeds to
    /// tagging — a missing cover is a degraded success, never a failure.
    pub fn step(&self, state: TaskState, event: TaskEvent) -> (r: StepResult)
        requires
            state_wf(state),
        ensures
            step_spec(self.track, self.base@, state, event, r),
            state_wf(r.state),
            phase_rank(r.state) >= phase_rank(state),
            is_terminal(state) ==> noop_step(state, r),
            (state is CoverFetch && event is CoverResult) ==> r.state is Tagging,
    {
        match state {
            TaskState::Queued => match event {
                TaskEvent::Start => {
                    let mut query = "ytsearch1:".to_owned();
                    let q = self.track.yt_query();
                    query.append(q.as_str());
                    assert(query@ =~= fetch_query_spec(self.track));
                    let mut template = track_dir(self.base.as_str(), &self.track);
                    template.append("/%(title)s.%(ext)s");
                    let mut actions: Vec<TaskAction> = Vec::new();
                    actions.push(TaskAction::RunFetcher { query, template });
                    StepResult {
                        state: TaskState::Fetching { log: String::new(), candidate: None },
                        progress: Some(0),
                        actions,
                    }
                },
                _ => StepResult { state, progress: None, actions: Vec::new() },
            },
            TaskState::Fetching { log, candidate } => match event {
                TaskEvent::StdoutLine { line, path_exists } => {
                    let pct = parse_pct(line.as_str());
                    let trimmed = trim_str(line.as_str());
                    let candidate2 = if ends_with_mp3(trimmed.as_str()) && path_exists {
                        Some(trimmed)
                    } else {
                        candidate
                    };
                    let mut log2 = log;
                    log2.append(line.as_str());
                    log2.append("\n");
                    StepResult {
                        state: TaskState::Fetching { log: log2, candidate: candidate2 },
                        progress: pct,
                        actions: Vec::new(),
                    }
                },
                TaskEvent::StderrLine { line } => {
                    let mut log2 = log;
                    log2.append("[stderr] ");
                    log2.append(line.as_str());
                    log2.append("\n");
                    StepResult {
                        state: TaskState::Fetching { log: log2, candidate },
                        progress: None,
                        actions: Vec::new(),
                    }
                },
                TaskEvent::FetchExit { success } => {
                    if !success {
                        let mut reason = "yt-dlp failed\n".to_owned();
                        reason.append(log.as_str());
                        StepResult {
                            state: TaskState::Failed { reason },
                            progress: None,
                            actions: Vec::new(),
                        }
                    } else {
                        match candidate {
                            None => {
                                let mut reason = "mp3 not found\n".to_owned();
                                reason.append(log.as_str());
                                StepResult {
                                    state: TaskState::Failed { reason },
                                    progress: None,
                                    actions: Vec::new(),
                                }
                            },
                            Some(src) => {
                                if !self.track.cover_url.as_str().is_empty() {
                                    let mut actions: Vec<TaskAction> = Vec::new();
                                    actions.push(TaskAction::FetchCover {
                                        url: self.track.cover_url.clone(),
                                    });
                                    StepResult {
                                        state: TaskState::CoverFetch { log, source: src },
                                        progress: Some(9000),
                                        actions,
                                    }
                                } else {
                                    let tmp = tmp_tag_path(src.as_str());
                                    let args = remux_args(src.as_str(), None, &self.track,
                                        tmp.as_str());
                                    let mut actions: Vec<TaskAction> = Vec::new();
                                    actions.push(TaskAction::Remux {
                                        args,
                                        tmp,
                                        source: src.clone(),
                                    });
                                    StepResult {
                                        state: TaskState::Tagging {
                                            log,
                                            source: src,
                                            cover: None,
                                        },
                                        progress: Some(9000),
                                        actions,
                                    }
                                }
                            },
                        }
                    }
                },
                _ => StepResult {
                    state: TaskState::Fetching { log, candidate },
                    progress: None,
                    actions: Vec::new(),
                },
            },
            TaskState::CoverFetch { log, source } => match event {
                TaskEvent::CoverResult { path } => {
                    let tmp = tmp_tag_path(source.as_str());
                    let args = remux_args(source.as_str(), path.as_ref(), &self.track,
                        tmp.as_str());
                    let mut actions: Vec<TaskAction> = Vec::new();
                    actions.push(TaskAction::Remux {
                        args,
                        tmp,
                        source: source.clone(),
                    });
                    StepResult {
                        state: TaskState::Tagging { log, source, cover: path },
                        progress: None,
                        actions,
                    }
                },
                _ => StepResult {
                    state: TaskState::CoverFetch { log, source },
                    progress: None,
                    actions: Vec::new(),
                },
            },
            TaskState::Tagging { log, source, cover } => match event {
                TaskEvent::TagResult { ok, diagnostic } => {
                    let mut actions: Vec<TaskAction> = Vec::new();
                    let ghost cover_snapshot = cover;
                    let ghost cleanup: Seq<TaskAction> = match cover_snapshot {
                        Some(c) => seq![TaskAction::RemoveFile { path: c }],
                        None => Seq::<TaskAction>::empty(),
                    };
                    match cover {
                        Some(c) => {
                            actions.push(TaskAction::RemoveFile { path: c });
                        },
                        None => {},
                    }
                    assert(actions@ =~= cleanup);
                    if ok {
                        let target = placement_path(self.base.as_str(), &self.track);
                        if target == source {
                            StepResult {
                                state: TaskState::Done { log },
                                progress: Some(10000),
                                actions,
                            }
                        } else {
                            actions.push(TaskAction::Rename { from: source, to: target });
                            proof {
                                assert(actions@.take(cleanup.len() as int) =~= cleanup);
                            }
                            StepResult {
                                state: TaskState::Placing { log },
                                progress: None,
                                actions,
                            }
                        }
                    } else {
                        let mut reason = "ffmpeg err: ".to_owned();
                        reason.append(diagnostic.as_str());
                        let tmp = tmp_tag_path(source.as_str());
                        actions.push(TaskAction::RemoveFile { path: tmp });
                        proof {
                            assert(actions@.take(cleanup.len() as int) =~= cleanup);
                        }
                        StepResult {
                            state: TaskState::Failed { reason },
                            progress: None,
                            actions,
                        }
                    }
                },
                _ => StepResult {
                    state: TaskState::Tagging { log, source, cover },
                    progress: None,
                    actions: Vec::new(),
                },
            },
            TaskState::Placing { log } => match event {
                TaskEvent::PlaceResult { .. } => StepResult {
                    state: TaskState::Done { log },
                    progress: Some(10000),
                    actions: Vec::new(),
                },
                _ => StepResult {
                    state: TaskState::Placing { log },
                    progress: None,
                    actions: Vec::new(),
                },
            },
            TaskState::Done { log } => StepResult {
                state: TaskState::Done { log },
                progress: None,
                actions: Vec::new(),
            },
            TaskState::Failed { reason } => StepResult {
                state: TaskState::Failed { reason },
                progress: None,
                actions: Vec::new(),
            },
        }
    }
}

} // verus!
