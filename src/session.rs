use vstd::prelude::*;

use crate::error::ErrorInfo;
use crate::scalar::{Real, ZERO_BITS};

verus! {

/// Where a render session stands.
#[derive(Clone, Copy, PartialEq, Eq, Structural, Debug)]
pub enum SessionState {
    Idle,
    Rendering,
    Errored,
}

/// One progress report of the engine. `progress` lies in `[0, 1]`.
pub struct RenderProgress<I> {
    pub image: Option<I>,
    pub progress: Real,
    pub fps: Option<Real>,
    pub estimated_time_left_ms: u64,
}

/// What a render job sends to its session.
pub enum RenderMessage<I> {
    SampleRendered(RenderProgress<I>),
    Error(String),
}

/// What the user sees of the latest render.
pub struct RenderedImage<I> {
    pub image: Option<I>,
    pub progress: Real,
    pub fps: Real,
    pub estimated_time_left_ms: u64,
}

/// What the host must do after a render request: abort the job it names, if
/// any, then start the job it names, if any, with the compiled scene.
#[derive(Clone, Copy, PartialEq, Eq, Structural, Debug)]
pub struct RenderStart {
    pub abort: Option<u64>,
    pub start: Option<u64>,
}

/// The render session: at most one current job, identified by a number that
/// is never reused. Only messages of the current job reach the snapshot.
pub struct RenderControl<I> {
    pub state: SessionState,
    pub current_job: Option<u64>,
    pub next_job: u64,
    pub rendered_image: RenderedImage<I>,
    pub error_info: ErrorInfo,
}

/// Progress never moves backward. For the non-negative scalars that progress
/// takes, the order of the bit patterns is the numeric order.
pub open spec fn later_progress(old: Real, new: Real) -> Real {
    if new.bits > old.bits {
        new
    } else {
        old
    }
}

impl<I> RenderControl<I> {
    /// A job is current exactly while rendering, and its number was handed
    /// out already.
    pub open spec fn wf(&self) -> bool {
        &&& (self.state == SessionState::Rendering) == (self.current_job is Some)
        &&& (self.current_job matches Some(j) ==> j < self.next_job)
    }

    pub open spec fn spec_request(self, failure: Option<String>) -> Self {
        match failure {
            Some(message) => RenderControl {
                state: SessionState::Errored,
                current_job: None,
                next_job: self.next_job,
                rendered_image: self.rendered_image,
                error_info: ErrorInfo { show_error: true, error_message: message },
            },
            None => RenderControl {
                state: SessionState::Rendering,
                current_job: Some(self.next_job),
                next_job: (self.next_job + 1) as u64,
                rendered_image: RenderedImage {
                    progress: Real::of(ZERO_BITS),
                    ..self.rendered_image
                },
                error_info: ErrorInfo { show_error: false, ..self.error_info },
            },
        }
    }

    pub open spec fn spec_receive(self, job: u64, msg: RenderMessage<I>) -> Self {
        if self.current_job != Some(job) {
            self
        } else {
            match msg {
                RenderMessage::SampleRendered(p) => RenderControl {
                    rendered_image: RenderedImage {
                        image: if p.image is Some {
                            p.image
                        } else {
                            self.rendered_image.image
                        },
                        progress: later_progress(self.rendered_image.progress, p.progress),
                        fps: match p.fps {
                            Some(f) => f,
                            None => self.rendered_image.fps,
                        },
                        estimated_time_left_ms: p.estimated_time_left_ms,
                    },
                    ..self
                },
                RenderMessage::Error(message) => RenderControl {
                    state: SessionState::Errored,
                    current_job: None,
                    error_info: ErrorInfo { show_error: true, error_message: message },
                    ..self
                },
            }
        }
    }

    pub open spec fn spec_disconnected(self, job: u64) -> Self {
        if self.current_job != Some(job) {
            self
        } else {
            RenderControl { state: SessionState::Idle, current_job: None, ..self }
        }
    }

    /// A session with nothing rendered yet.
    pub fn new() -> (r: RenderControl<I>)
        ensures
            r.wf(),
            r.state == SessionState::Idle,
            r.current_job is None,
            r.rendered_image.image is None,
            r.rendered_image.progress == Real::of(ZERO_BITS),
            !r.error_info.show_error,
    {
        RenderControl {
            state: SessionState::Idle,
            current_job: None,
            next_job: 0,
            rendered_image: RenderedImage {
                image: None,
                progress: Real::from_bits(ZERO_BITS),
                fps: Real::from_bits(ZERO_BITS),
                estimated_time_left_ms: 0,
            },
            error_info: ErrorInfo::new(),
        }
    }

    /// A render was asked for, and the scene was compiled: `failure`
    /// holds the message if that failed. The current job, if any, is to be
    /// aborted. A failed compile leaves the session errored with no job; a
    /// successful one makes a new job, never used before, the only current one.
    pub fn render_requested(&mut self, failure: Option<String>) -> (r: RenderStart)
        requires
            old(self).wf(),
            old(self).next_job < u64::MAX,
        ensures
            final(self).wf(),
            *final(self) == old(self).spec_request(failure),
            r.abort == old(self).current_job,
            r.start == final(self).current_job,
    {
        let abort = self.current_job;
        match failure {
            Some(message) => {
                self.state = SessionState::Errored;
                self.current_job = None;
                self.error_info.show_error = true;
                self.error_info.error_message = message;
                RenderStart { abort, start: None }
            },
            None => {
                let job = self.next_job;
                self.state = SessionState::Rendering;
                self.current_job = Some(job);
                self.next_job = job + 1;
                self.rendered_image.progress = Real::from_bits(ZERO_BITS);
                self.error_info.show_error = false;
                RenderStart { abort, start: Some(job) }
            },
        }
    }

    /// A message read from the channel of `job`. A message of any job but the
    /// current one changes nothing. A progress report updates the snapshot:
    /// a new image replaces the old one, progress only moves forward, the
    /// rate changes only when given, the time left is overwritten. An error
    /// ends the job and is shown.
    pub fn receive(&mut self, job: u64, msg: RenderMessage<I>)
        requires
            old(self).wf(),
        ensures
            final(self).wf(),
            *final(self) == old(self).spec_receive(job, msg),
    {
        if self.current_job != Some(job) {
            return ;
        }
        match msg {
            RenderMessage::SampleRendered(p) => {
                match p.image {
                    Some(img) => {
                        self.rendered_image.image = Some(img);
                    },
                    None => {},
                }
                if p.progress.bits > self.rendered_image.progress.bits {
                    self.rendered_image.progress = p.progress;
                }
                match p.fps {
                    Some(f) => {
                        self.rendered_image.fps = f;
                    },
                    None => {},
                }
                self.rendered_image.estimated_time_left_ms = p.estimated_time_left_ms;
            },
            RenderMessage::Error(message) => {
                self.state = SessionState::Errored;
                self.current_job = None;
                self.error_info.show_error = true;
                self.error_info.error_message = message;
            },
        }
    }

    /// The channel of `job` was closed. For the current job that ends it and
    /// the session becomes idle; for any other job nothing changes.
    pub fn disconnected(&mut self, job: u64)
        requires
            old(self).wf(),
        ensures
            final(self).wf(),
            *final(self) == old(self).spec_disconnected(job),
    {
        if self.current_job == Some(job) {
            self.state = SessionState::Idle;
            self.current_job = None;
        }
    }

    /// Stops the current job, if any, which is returned for the host to abort.
    pub fn abort(&mut self) -> (r: Option<u64>)
        requires
            old(self).wf(),
        ensures
            final(self).wf(),
            r == old(self).current_job,
            match r {
                Some(j) => *final(self) == old(self).spec_disconnected(j),
                None => *final(self) == *old(self),
            },
    {
        let r = self.current_job;
        if let Some(j) = r {
            self.disconnected(j);
        }
        r
    }
}

/// A render request while rendering leaves exactly one current job, the new
/// one; nothing the superseded job sends afterwards, a report, an error or
/// the end of its channel, changes the session.
pub proof fn lemma_superseded_job_is_ignored<I>(
    s: RenderControl<I>,
    old_job: u64,
    msg: RenderMessage<I>,
)
    requires
        s.wf(),
        s.next_job < u64::MAX,
        s.state == SessionState::Rendering,
        s.current_job == Some(old_job),
    ensures
        s.spec_request(None).wf(),
        s.spec_request(None).current_job == Some(s.next_job),
        s.spec_request(None).current_job != Some(old_job),
        s.spec_request(None).spec_receive(old_job, msg) == s.spec_request(None),
        s.spec_request(None).spec_disconnected(old_job) == s.spec_request(None),
{
}

/// Whatever happened before, a render request whose scene compiles starts a
/// job: an error is never final.
pub proof fn lemma_request_recovers<I>(s: RenderControl<I>)
    requires
        s.wf(),
        s.next_job < u64::MAX,
    ensures
        s.spec_request(None).state == SessionState::Rendering,
        s.spec_request(None).current_job == Some(s.next_job),
        !s.spec_request(None).error_info.show_error,
{
}

} // verus!
