//! First-frame thumbnails of media clips, cached as small PNG files: the
//! cache file name and the workflow that turns a media URI into a cached
//! thumbnail.

use vstd::prelude::*;
use vstd::string::*;

use crate::bitmaps::{rgb_from_raw, rgb_raster_bytes, rgb_raster_height, rgb_raster_width, RgbRaster};
use crate::hash::{fnv1a, fxhash};
use crate::raster::{padded_row_len, rows_fit, rows_unpadded, strip_row_padding};
use crate::text::{hex16, push_hex16};

verus! {

/// Thumbnail width in pixels.
pub const THUMB_WIDTH: u32 = 128;

/// Thumbnail height in pixels.
pub const THUMB_HEIGHT: u32 = 72;

/// The cache file name of the thumbnail of `uri`: `thumb-{hash:016x}.png`.
pub open spec fn thumbnail_cache_name(uri: Seq<char>) -> Seq<char> {
    "thumb-"@ + hex16(fnv1a(crate::text::utf8_of(uri))) + ".png"@
}

/// The cache file name of the thumbnail of `uri`.
pub fn thumbnail_file_name(uri: &str) -> (name: String)
    ensures
        name@ == thumbnail_cache_name(uri@),
{
    let h = fxhash(uri);
    let mut s = String::new();
    s.append("thumb-");
    push_hex16(&mut s, h);
    s.append(".png");
    proof {
        reveal_strlit("thumb-");
        reveal_strlit(".png");
    }
    assert(s@ =~= thumbnail_cache_name(uri@));
    s
}

/// Two URIs share a thumbnail file exactly when their hashes agree.
pub proof fn lemma_thumbnail_names_follow_hashes(a: Seq<char>, b: Seq<char>)
    ensures
        thumbnail_cache_name(a) == thumbnail_cache_name(b) <==> fnv1a(crate::text::utf8_of(a))
            == fnv1a(crate::text::utf8_of(b)),
{
    let ha = fnv1a(crate::text::utf8_of(a));
    let hb = fnv1a(crate::text::utf8_of(b));
    crate::text::lemma_hex16_injective(ha, hb);
    let na = thumbnail_cache_name(a);
    let nb = thumbnail_cache_name(b);
    reveal_strlit("thumb-");
    reveal_strlit(".png");
    if na == nb {
        assert(na.subrange(6, 22) =~= hex16(ha));
        assert(nb.subrange(6, 22) =~= hex16(hb));
    }
}

/// Bytes between the starts of two rows of a decoded RGB frame: rows
/// start on 4-byte boundaries.
pub open spec fn frame_stride() -> nat {
    crate::raster::round_up(3 * THUMB_WIDTH as nat, 4)
}

/// Where a thumbnail request stands: which outcome it waits for.
#[derive(Clone, Copy, Debug, PartialEq, Eq)]
pub enum ThumbnailStage {
    /// Waiting to learn whether the cache file exists.
    CheckingCache,
    /// Waiting for the first decoded frame.
    Extracting,
    /// Waiting for the PNG to be written.
    Saving,
    /// Finished; nothing more is expected.
    Done,
}

/// What the caller must do next for a thumbnail request.
#[derive(Debug)]
pub enum ThumbnailAction {
    /// Report whether `file` exists in the cache directory.
    CheckCache { file: String },
    /// Create the cache directory, decode `uri`, scale its first frame to
    /// `width` x `height` RGB with square pixels, and report the bytes of
    /// that frame (rows starting on 4-byte boundaries).
    Extract { uri: String, width: u32, height: u32 },
    /// Write `raster` as PNG to `file` in the cache directory.
    Save { file: String, raster: RgbRaster },
    /// The request is over: the cache file name, or why it failed.
    Finish(Result<String, String>),
}

/// What the caller observed while doing the last action.
#[derive(Debug)]
pub enum ThumbnailEvent {
    /// The cache file exists.
    Cached,
    /// The cache file does not exist.
    NotCached,
    /// The first frame decoded to these bytes.
    Frame(Vec<u8>),
    /// The PNG was written.
    Saved,
    /// The last action failed with this message.
    Failed(String),
}

/// A thumbnail request, as a workflow: each outcome that the caller
/// reports gives the next thing to do.
#[derive(Debug)]
pub struct ThumbnailJob {
    pub uri: String,
    /// The cache file name.
    pub file: String,
    pub stage: ThumbnailStage,
}

impl ThumbnailJob {
    /// Whether the job, at its stage, can take this outcome; a frame must
    /// hold every row of the thumbnail.
    pub open spec fn accepts(&self, event: ThumbnailEvent) -> bool {
        match self.stage {
            ThumbnailStage::CheckingCache => event is Cached || event is NotCached,
            ThumbnailStage::Extracting => match event {
                ThumbnailEvent::Frame(bytes) => rows_fit(
                    bytes@.len(),
                    3 * THUMB_WIDTH as nat,
                    frame_stride(),
                    THUMB_HEIGHT as nat,
                ),
                ThumbnailEvent::Failed(_) => true,
                _ => false,
            },
            ThumbnailStage::Saving => event is Saved || event is Failed,
            ThumbnailStage::Done => false,
        }
    }

    /// The stage and action that follow `event`: a cache hit finishes with
    /// the cache file and decodes nothing; a miss asks for the first frame;
    /// the frame, with its row padding dropped, goes to be saved; a write
    /// finishes with the cache file; a failure finishes with its message.
    pub open spec fn answers(
        &self,
        event: ThumbnailEvent,
        stage: ThumbnailStage,
        action: ThumbnailAction,
    ) -> bool {
        &&& (action is Finish) <==> stage == ThumbnailStage::Done
        &&& match event {
            ThumbnailEvent::Cached => action == ThumbnailAction::Finish(Ok(self.file)),
            ThumbnailEvent::NotCached => {
                &&& stage == ThumbnailStage::Extracting
                &&& action matches ThumbnailAction::Extract { uri, width, height }
                &&& uri == self.uri && width == THUMB_WIDTH && height == THUMB_HEIGHT
            },
            ThumbnailEvent::Frame(bytes) => {
                &&& stage == ThumbnailStage::Saving
                &&& action matches ThumbnailAction::Save { file, raster }
                &&& file == self.file
                &&& rgb_raster_width(raster) == THUMB_WIDTH
                &&& rgb_raster_height(raster) == THUMB_HEIGHT
                &&& rgb_raster_bytes(raster) == rows_unpadded(
                    bytes@,
                    3 * THUMB_WIDTH as nat,
                    frame_stride(),
                    THUMB_HEIGHT as nat,
                )
            },
            ThumbnailEvent::Saved => action == ThumbnailAction::Finish(Ok(self.file)),
            ThumbnailEvent::Failed(e) => action == ThumbnailAction::Finish(Err(e)),
        }
    }

    /// Starts the thumbnail request for `uri`; the first thing to do is to
    /// look the cache file up.
    pub fn new(uri: &str) -> (start: (ThumbnailJob, ThumbnailAction))
        ensures
            start.0.uri@ == uri@,
            start.0.file@ == thumbnail_cache_name(uri@),
            start.0.stage == ThumbnailStage::CheckingCache,
            start.1 == (ThumbnailAction::CheckCache { file: start.0.file }),
    {
        let file = thumbnail_file_name(uri);
        let job = ThumbnailJob {
            uri: String::from_str(uri),
            file: file.clone(),
            stage: ThumbnailStage::CheckingCache,
        };
        (job, ThumbnailAction::CheckCache { file })
    }

    /// Takes the outcome of the last action and gives the next one.
    pub fn step(&mut self, event: ThumbnailEvent) -> (action: ThumbnailAction)
        requires
            old(self).accepts(event),
        ensures
            final(self).uri == old(self).uri,
            final(self).file == old(self).file,
            old(self).answers(event, final(self).stage, action),
            event matches ThumbnailEvent::Failed(e) ==> action == ThumbnailAction::Finish(Err(e)),
            finished_with(action) == Some(old(self).file) <==> (event is Cached || event is Saved),
            event is Frame ==> final(self).stage == ThumbnailStage::Saving,
    {
        match event {
            ThumbnailEvent::Cached => {
                self.stage = ThumbnailStage::Done;
                ThumbnailAction::Finish(Ok(self.file.clone()))
            },
            ThumbnailEvent::NotCached => {
                self.stage = ThumbnailStage::Extracting;
                ThumbnailAction::Extract {
                    uri: self.uri.clone(),
                    width: THUMB_WIDTH,
                    height: THUMB_HEIGHT,
                }
            },
            ThumbnailEvent::Frame(bytes) => {
                let row_len: usize = 3 * (THUMB_WIDTH as usize);
                let stride = padded_row_len(row_len, 4);
                let rgb = strip_row_padding(bytes.as_slice(), row_len, stride, THUMB_HEIGHT as usize);
                match rgb_from_raw(THUMB_WIDTH, THUMB_HEIGHT, rgb) {
                    Some(raster) => {
                        self.stage = ThumbnailStage::Saving;
                        ThumbnailAction::Save { file: self.file.clone(), raster }
                    },
                    None => {
                        // The rows fill the image exactly, so this cannot happen.
                        assert(false);
                        self.stage = ThumbnailStage::Done;
                        ThumbnailAction::Finish(Err(String::new()))
                    },
                }
            },
            ThumbnailEvent::Saved => {
                self.stage = ThumbnailStage::Done;
                ThumbnailAction::Finish(Ok(self.file.clone()))
            },
            ThumbnailEvent::Failed(e) => {
                self.stage = ThumbnailStage::Done;
                ThumbnailAction::Finish(Err(e))
            },
        }
    }
}

/// The cache file that an action finishes successfully with, if it does.
pub open spec fn finished_with(action: ThumbnailAction) -> Option<String> {
    match action {
        ThumbnailAction::Finish(Ok(file)) => Some(file),
        _ => None,
    }
}

/// A thumbnail request succeeds only once the thumbnail is on disk: a
/// cache hit or a written PNG finishes with the cache file, and a failure
/// at any stage finishes with that failure.
pub proof fn lemma_thumbnail_succeeds_only_when_on_disk(
    job: ThumbnailJob,
    event: ThumbnailEvent,
    stage: ThumbnailStage,
    action: ThumbnailAction,
)
    requires
        job.accepts(event),
        job.answers(event, stage, action),
    ensures
        action is Finish && !(action matches ThumbnailAction::Finish(Err(_))) ==> (event is Cached
            || event is Saved),
        (event is Cached || event is Saved) ==> action == ThumbnailAction::Finish(Ok(job.file)),
        event matches ThumbnailEvent::Failed(e) ==> action == ThumbnailAction::Finish(Err(e)),
{
}

/// How far a thumbnail request has come.
pub open spec fn thumbnail_stage_rank(stage: ThumbnailStage) -> nat {
    match stage {
        ThumbnailStage::CheckingCache => 0,
        ThumbnailStage::Extracting => 1,
        ThumbnailStage::Saving => 2,
        ThumbnailStage::Done => 3,
    }
}

/// Every outcome moves a thumbnail request forward, so it finishes after
/// at most three outcomes.
pub proof fn lemma_thumbnail_job_progresses(
    job: ThumbnailJob,
    event: ThumbnailEvent,
    stage: ThumbnailStage,
    action: ThumbnailAction,
)
    requires
        job.accepts(event),
        job.answers(event, stage, action),
    ensures
        thumbnail_stage_rank(stage) > thumbnail_stage_rank(job.stage),
{
}

} // verus!
