//! fal.ai: request bodies, the job queue protocol and its results.

use vstd::prelude::*;
use crate::error::{ErrorKind, GenaiError};
use crate::providers::{
    reply_error, spec_reply_error, Elapsed, ImageRequest, MediaOutput, VideoRequest,
};
use crate::text::{decimal, decimal_string, str_eq};

verus! {

/// The fal.ai provider, holding its API key.
pub struct FalProvider {
    pub api_key: String,
}

/// The JSON body that asks fal.ai for an image.
#[derive(Debug)]
pub struct FalImageBody {
    pub prompt: String,
    pub image_size: &'static str,
    pub num_images: u32,
    pub output_format: &'static str,
}

/// The JSON body that asks fal.ai for a video.
#[derive(Debug)]
pub struct FalVideoBody {
    pub prompt: String,
    pub duration: String,
    pub aspect_ratio: String,
}

/// What the queue answers to a submitted job.
#[derive(Debug)]
pub struct QueueSubmitResponse {
    pub request_id: String,
    pub response_url: String,
    pub status_url: String,
}

/// What the queue answers to a status poll.
#[derive(Debug)]
pub struct QueueStatusResponse {
    pub status: String,
    pub queue_position: Option<u32>,
}

/// A generated file as a result lists it: its URL, if the entry has one that
/// is a string.
#[derive(Debug)]
pub struct FalMedia {
    pub url: Option<String>,
}

/// The result of an image job: the entries of its `images` array.
#[derive(Debug)]
pub struct FalImageResult {
    pub images: Vec<FalMedia>,
}

/// The result of a video job: its `video` entry.
#[derive(Debug)]
pub struct FalVideoResult {
    pub video: FalMedia,
}

/// The image size that fal.ai is asked for: `square_hd` for 1024x1024 and
/// for any square, `landscape_16_9` when wider, `portrait_16_9` when taller.
pub open spec fn spec_image_size(width: u32, height: u32) -> Seq<char> {
    if width == 1024 && height == 1024 {
        "square_hd"@
    } else if width > height {
        "landscape_16_9"@
    } else if height > width {
        "portrait_16_9"@
    } else {
        "square_hd"@
    }
}

/// A wider request is sent as landscape, a taller one as portrait, and a
/// square one as square.
pub proof fn lemma_image_size_follows_orientation(width: u32, height: u32)
    ensures
        width > height ==> spec_image_size(width, height) == "landscape_16_9"@,
        height > width ==> spec_image_size(width, height) == "portrait_16_9"@,
        width == height ==> spec_image_size(width, height) == "square_hd"@,
{
}

/// What the queue's poll answer leads to.
#[derive(Debug)]
pub enum PollAction {
    /// Show `message`, wait, and poll `url` again.
    Poll { url: String, message: String },
    /// The job is done: fetch its result from `url`.
    Fetch { url: String },
    /// The job failed.
    Fail(GenaiError),
}

/// The action for a poll answer `status` (with its queue position) on a job
/// whose status and result live at `status_url` and `response_url`.
pub open spec fn spec_poll_action(
    status_url: Seq<char>,
    response_url: Seq<char>,
    status: Seq<char>,
    queue_position: Option<u32>,
) -> PollView {
    if status == "IN_QUEUE"@ {
        PollView::Poll(
            status_url,
            "Queued (position "@ + decimal(
                match queue_position {
                    Some(p) => p as nat,
                    None => 0,
                },
            ) + ")..."@,
        )
    } else if status == "IN_PROGRESS"@ {
        PollView::Poll(status_url, "Processing..."@)
    } else if status == "COMPLETED"@ {
        PollView::Fetch(response_url)
    } else if status == "FAILED"@ {
        PollView::Fail((ErrorKind::Transient, "fal.ai request failed during processing"@))
    } else {
        PollView::Poll(status_url, "Status: "@ + status + "..."@)
    }
}

/// Every poll goes back to the job's status URL; only a completed job leads
/// to its result URL, and only a failed one to an error (a transient one).
pub proof fn lemma_poll_targets(
    status_url: Seq<char>,
    response_url: Seq<char>,
    status: Seq<char>,
    queue_position: Option<u32>,
)
    ensures
        spec_poll_action(status_url, response_url, status, queue_position) matches PollView::Poll(
            u,
            _,
        ) ==> u == status_url,
        spec_poll_action(status_url, response_url, status, queue_position) matches PollView::Fetch(
            u,
        ) ==> u == response_url && status == "COMPLETED"@,
        spec_poll_action(status_url, response_url, status, queue_position) matches PollView::Fail(
            e,
        ) ==> e.0 == ErrorKind::Transient && status == "FAILED"@,
        status == "COMPLETED"@ ==> spec_poll_action(status_url, response_url, status, queue_position)
            == PollView::Fetch(response_url),
        status == "FAILED"@ ==> spec_poll_action(status_url, response_url, status, queue_position)
            is Fail,
{
    reveal_strlit("IN_QUEUE");
    reveal_strlit("IN_PROGRESS");
    reveal_strlit("COMPLETED");
    reveal_strlit("FAILED");
    assert("IN_QUEUE"@ != "COMPLETED"@ && "IN_QUEUE"@ != "FAILED"@) by {
        assert("IN_QUEUE"@[0] != "COMPLETED"@[0]);
        assert("IN_QUEUE"@[0] != "FAILED"@[0]);
    }
    assert("IN_PROGRESS"@ != "COMPLETED"@ && "IN_PROGRESS"@ != "FAILED"@) by {
        assert("IN_PROGRESS"@[0] != "COMPLETED"@[0]);
        assert("IN_PROGRESS"@[0] != "FAILED"@[0]);
    }
    assert("COMPLETED"@ != "FAILED"@) by {
        assert("COMPLETED"@[0] != "FAILED"@[0]);
    }
}

/// A [`PollAction`] as plain values.
pub enum PollView {
    Poll(Seq<char>, Seq<char>),
    Fetch(Seq<char>),
    Fail((ErrorKind, Seq<char>)),
}

impl View for PollAction {
    type V = PollView;

    open spec fn view(&self) -> PollView {
        match self {
            PollAction::Poll { url, message } => PollView::Poll(url@, message@),
            PollAction::Fetch { url } => PollView::Fetch(url@),
            PollAction::Fail(e) => PollView::Fail(e@),
        }
    }
}

/// A job waiting in the fal.ai queue.
#[derive(Debug)]
pub struct FalQueue {
    pub status_url: String,
    pub response_url: String,
}

impl FalQueue {
    /// The job that the queue accepted with `submitted`.
    pub fn new(submitted: QueueSubmitResponse) -> (q: FalQueue)
        ensures
            q.status_url@ == submitted.status_url@,
            q.response_url@ == submitted.response_url@,
    {
        FalQueue { status_url: submitted.status_url, response_url: submitted.response_url }
    }

    /// What to do after the poll answer `reply`: keep polling the status
    /// URL while the job is queued, in progress or in an unknown state;
    /// fetch the result once it is completed; stop with a transient error
    /// once it has failed.
    pub fn on_status(&self, reply: &QueueStatusResponse) -> (a: PollAction)
        ensures
            a@ == spec_poll_action(
                self.status_url@,
                self.response_url@,
                reply.status@,
                reply.queue_position,
            ),
    {
        let st = reply.status.as_str();
        if str_eq(st, "IN_QUEUE") {
            let pos: u32 = match reply.queue_position {
                Some(p) => p,
                None => 0,
            };
            let mut m = String::from_str("Queued (position ");
            let d = decimal_string(pos as u64);
            m.append(d.as_str());
            m.append(")...");
            PollAction::Poll { url: self.status_url.clone(), message: m }
        } else if str_eq(st, "IN_PROGRESS") {
            PollAction::Poll {
                url: self.status_url.clone(),
                message: String::from_str("Processing..."),
            }
        } else if str_eq(st, "COMPLETED") {
            PollAction::Fetch { url: self.response_url.clone() }
        } else if str_eq(st, "FAILED") {
            PollAction::Fail(
                GenaiError::Transient(String::from_str("fal.ai request failed during processing")),
            )
        } else {
            let mut m = String::from_str("Status: ");
            m.append(st);
            m.append("...");
            PollAction::Poll { url: self.status_url.clone(), message: m }
        }
    }
}

/// The first entry of a result, if it has a URL.
pub open spec fn spec_first_url(images: Seq<FalMedia>) -> Option<Seq<char>> {
    if images.len() > 0 && images[0].url is Some {
        Some(images[0].url->0@)
    } else {
        None
    }
}

impl FalProvider {
    /// The provider for the key in `FAL_KEY` (`None` when the variable is
    /// unset), or a configuration error without one.
    pub fn from_env(fal_key: Option<&str>) -> (r: Result<FalProvider, GenaiError>)
        ensures
            match fal_key {
                Some(k) => r matches Ok(p) && p.api_key@ == k@,
                None => r matches Err(e) && e@ == (
                    ErrorKind::Config,
                    "FAL_KEY environment variable not set"@,
                ),
            },
    {
        match fal_key {
            Some(k) => Ok(FalProvider { api_key: String::from_str(k) }),
            None => Err(
                GenaiError::Config(String::from_str("FAL_KEY environment variable not set")),
            ),
        }
    }

    /// The `Authorization` header: `Key ` and the API key.
    pub fn auth_header(&self) -> (h: String)
        ensures
            h@ == "Key "@ + self.api_key@,
    {
        let mut h = String::from_str("Key ");
        h.append(self.api_key.as_str());
        h
    }

    /// The queue URL to which a job for `model_id` is submitted.
    pub fn queue_url(model_id: &str) -> (u: String)
        ensures
            u@ == "https://queue.fal.run/"@ + model_id@,
    {
        let mut u = String::from_str("https://queue.fal.run/");
        u.append(model_id);
        u
    }

    /// The image size to ask for at `width` by `height`.
    pub fn image_size(width: u32, height: u32) -> (s: &'static str)
        ensures
            s@ == spec_image_size(width, height),
    {
        if width == 1024 && height == 1024 {
            "square_hd"
        } else if width > height {
            "landscape_16_9"
        } else if height > width {
            "portrait_16_9"
        } else {
            "square_hd"
        }
    }

    /// The body of an image job: the prompt, the image size for the
    /// requested dimensions, one image, PNG.
    pub fn image_body(req: &ImageRequest) -> (b: FalImageBody)
        ensures
            b.prompt@ == req.prompt@,
            b.image_size@ == spec_image_size(req.width, req.height),
            b.num_images == 1,
            b.output_format@ == "png"@,
    {
        FalImageBody {
            prompt: req.prompt.clone(),
            image_size: Self::image_size(req.width, req.height),
            num_images: 1,
            output_format: "png",
        }
    }

    /// The body of a video job: the prompt, the duration in seconds as a
    /// decimal string, the aspect ratio.
    pub fn video_body(req: &VideoRequest) -> (b: FalVideoBody)
        ensures
            b.prompt@ == req.prompt@,
            b.duration@ == decimal(req.duration_secs as nat),
            b.aspect_ratio@ == req.aspect_ratio@,
    {
        FalVideoBody {
            prompt: req.prompt.clone(),
            duration: decimal_string(req.duration_secs as u64),
            aspect_ratio: req.aspect_ratio.clone(),
        }
    }

    /// The error for a submission reply with a status other than 2xx: a
    /// rate-limit error for 429, else a transient error quoting the status
    /// and `body`.
    pub fn submit_error(code: u16, body: &str) -> (e: GenaiError)
        ensures
            e@ == spec_reply_error("fal.ai"@, code, body@),
    {
        reply_error("fal.ai", code, body)
    }

    /// The URL of the generated image: that of the first entry of `images`.
    pub fn image_url(result: &FalImageResult) -> (r: Result<String, GenaiError>)
        ensures
            match spec_first_url(result.images@) {
                Some(u) => r matches Ok(s) && s@ == u,
                None => r matches Err(e) && e@ == (
                    ErrorKind::Transient,
                    "No image URL in fal.ai response"@,
                ),
            },
    {
        if result.images.len() > 0 {
            match &result.images[0].url {
                Some(u) => {
                    return Ok(u.clone());
                },
                None => {},
            }
        }
        Err(GenaiError::Transient(String::from_str("No image URL in fal.ai response")))
    }

    /// The URL of the generated video.
    pub fn video_url(result: &FalVideoResult) -> (r: Result<String, GenaiError>)
        ensures
            match result.video.url {
                Some(u) => r matches Ok(s) && s@ == u@,
                None => r matches Err(e) && e@ == (
                    ErrorKind::Transient,
                    "No video URL in fal.ai response"@,
                ),
            },
    {
        match &result.video.url {
            Some(u) => Ok(u.clone()),
            None => Err(GenaiError::Transient(String::from_str("No video URL in fal.ai response"))),
        }
    }

    /// The record of a file that fal.ai generated with the model registered
    /// as `model_name`, saved at `path` after `elapsed`.
    pub fn media_output(model_name: &str, path: String, elapsed: Elapsed) -> (o: MediaOutput)
        ensures
            o.local_path@ == path@,
            o.provider@ == "fal"@,
            o.model@ == model_name@,
            o.elapsed == elapsed,
    {
        MediaOutput {
            local_path: path,
            provider: String::from_str("fal"),
            model: String::from_str(model_name),
            elapsed,
        }
    }
}

} // verus!
