use vstd::prelude::*;

use crate::action::{spec_forces_refresh, ActionTag};
use crate::errors::CaptureError;
use crate::frame::{Frame, FrameModel, RawCapture};

verus! {

/// A request must consult the capture provider exactly when its tag forces a
/// refresh or the cache slot is empty.
pub open spec fn spec_needs_refresh(slot: Option<FrameModel>, tag: ActionTag) -> bool {
    spec_forces_refresh(tag) || slot is None
}

/// The models of a provider response handed to `acquire_frame`.
pub open spec fn spec_capture_views(
    capture: Option<Result<RawCapture, CaptureError>>,
) -> Option<Result<FrameModel, CaptureError>> {
    match capture {
        Option::None => Option::None,
        Option::Some(Result::Ok(raw)) => Option::Some(Result::Ok(raw@)),
        Option::Some(Result::Err(e)) => Option::Some(Result::Err(e)),
    }
}

/// The cache slot after one request: a needed refresh with well-shaped raw
/// data replaces the slot's contents unconditionally; everything else leaves
/// the slot as it was.
pub open spec fn spec_slot_after(
    slot: Option<FrameModel>,
    tag: ActionTag,
    capture: Option<Result<FrameModel, CaptureError>>,
) -> Option<FrameModel> {
    if spec_needs_refresh(slot, tag) {
        match capture {
            Option::Some(Result::Ok(f)) => if f.wf() {
                Option::Some(f)
            } else {
                slot
            },
            _ => slot,
        }
    } else {
        slot
    }
}

/// The frame that one request yields, or the error it fails with: a needed
/// refresh propagates a provider failure, rejects ill-shaped raw data, and
/// otherwise yields the freshly captured frame; a request that needs no
/// refresh yields the cached frame untouched.
pub open spec fn spec_acquire_result(
    slot: Option<FrameModel>,
    tag: ActionTag,
    capture: Option<Result<FrameModel, CaptureError>>,
) -> Result<FrameModel, CaptureError> {
    if spec_needs_refresh(slot, tag) {
        match capture {
            Option::Some(Result::Ok(f)) => if f.wf() {
                Result::Ok(f)
            } else {
                Result::Err(CaptureError::BufferConstructionFailure)
            },
            Option::Some(Result::Err(e)) => Result::Err(e),
            Option::None => Result::Err(CaptureError::NoScreenFound),
        }
    } else {
        Result::Ok(slot.unwrap())
    }
}

/// The single-slot cache of the most recent full-display frame.  The slot is
/// absent at start, filled or replaced by any request that needs a refresh,
/// and read untouched by every other request.
pub struct ImageCache {
    pub slot: Option<Frame>,
}

impl View for ImageCache {
    type V = Option<FrameModel>;

    open spec fn view(&self) -> Option<FrameModel> {
        match self.slot {
            Option::Some(f) => Option::Some(f@),
            Option::None => Option::None,
        }
    }
}

impl ImageCache {
    /// Any frame held by the slot has pixel data matching its dimensions.
    pub open spec fn wf(&self) -> bool {
        self@ matches Some(f) ==> f.wf()
    }

    /// A cache whose slot is empty, as at process start.
    pub fn new() -> (c: ImageCache)
        ensures
            c@ is None,
            c.wf(),
    {
        ImageCache { slot: Option::None }
    }

    /// Whether the slot currently holds a frame.
    pub fn occupied(&self) -> (b: bool)
        ensures
            b == (self@ is Some),
    {
        self.slot.is_some()
    }

    /// The decision of the cache: whether serving a request with this tag
    /// must invoke the capture provider before anything can be returned.
    pub fn needs_refresh(&self, tag: &ActionTag) -> (b: bool)
        ensures
            b == spec_needs_refresh(self@, *tag),
    {
        tag.forces_refresh() || self.slot.is_none()
    }

    /// Serve one request: `capture` is the provider's response, present
    /// exactly when `needs_refresh` said the provider had to be consulted.
    /// A needed refresh validates the raw data and replaces the slot's
    /// contents unconditionally; otherwise the cached frame is returned
    /// without any capture.  On every failure the slot keeps its old value.
    pub fn acquire_frame(
        &mut self,
        tag: &ActionTag,
        capture: Option<Result<RawCapture, CaptureError>>,
    ) -> (r: Result<&Frame, CaptureError>)
        requires
            old(self).wf(),
            (capture is Some) == spec_needs_refresh(old(self)@, *tag),
        ensures
            final(self).wf(),
            final(self)@ == spec_slot_after(old(self)@, *tag, spec_capture_views(capture)),
            r matches Ok(f) ==> (spec_acquire_result(
                old(self)@,
                *tag,
                spec_capture_views(capture),
            ) matches Ok(m) && m == f@),
            r matches Err(e) ==> (spec_acquire_result(
                old(self)@,
                *tag,
                spec_capture_views(capture),
            ) matches Err(e2) && e2 == e),
    {
        if self.needs_refresh(tag) {
            match capture {
                Option::Some(Result::Ok(raw)) => match Frame::from_raw(raw) {
                    Result::Ok(frame) => {
                        self.slot = Option::Some(frame);
                        match &self.slot {
                            Option::Some(f) => Result::Ok(f),
                            // the slot was just filled
                            Option::None => Result::Err(CaptureError::NoScreenFound),
                        }
                    },
                    Result::Err(e) => Result::Err(e),
                },
                Option::Some(Result::Err(e)) => Result::Err(e),
                // under the contract a needed refresh always comes with a
                // response; kept total for unverified callers
                Option::None => Result::Err(CaptureError::NoScreenFound),
            }
        } else {
            match &self.slot {
                Option::Some(f) => Result::Ok(f),
                // under the contract the slot is occupied here; kept total
                // for unverified callers
                Option::None => Result::Err(CaptureError::NoScreenFound),
            }
        }
    }
}

/// A successful request always yields exactly the frame that the slot holds
/// once the request is done: the freshly installed frame after a needed
/// refresh, the untouched cached frame otherwise.  In particular the slot is
/// occupied after every success.
pub proof fn lemma_acquired_frame_is_cached(
    slot: Option<FrameModel>,
    tag: ActionTag,
    capture: Option<Result<FrameModel, CaptureError>>,
)
    requires
        (capture is Some) == spec_needs_refresh(slot, tag),
    ensures
        spec_acquire_result(slot, tag, capture) matches Ok(m) ==> spec_slot_after(
            slot,
            tag,
            capture,
        ) == Option::Some(m),
{
}

/// How many times one request invokes the capture provider: once when a
/// refresh is needed, never otherwise.
pub open spec fn spec_request_captures(slot: Option<FrameModel>, tag: ActionTag) -> nat {
    if spec_needs_refresh(slot, tag) {
        1
    } else {
        0
    }
}

/// The cache slot after one request whose needed capture, if any, succeeds
/// and yields `provided`.
pub open spec fn spec_step_slot(
    slot: Option<FrameModel>,
    tag: ActionTag,
    provided: FrameModel,
) -> Option<FrameModel> {
    if spec_needs_refresh(slot, tag) {
        Option::Some(provided)
    } else {
        slot
    }
}

/// Run a whole sequence of requests against the cache, every needed capture
/// succeeding; each request pairs its tag with the frame the provider would
/// return if invoked.  Yields the final slot and the total number of
/// provider invocations.
pub open spec fn spec_run(
    slot: Option<FrameModel>,
    requests: Seq<(ActionTag, FrameModel)>,
) -> (Option<FrameModel>, nat)
    decreases requests.len(),
{
    if requests.len() == 0 {
        (slot, 0)
    } else {
        let rest = spec_run(
            spec_step_slot(slot, requests[0].0, requests[0].1),
            requests.drop_first(),
        );
        (rest.0, spec_request_captures(slot, requests[0].0) + rest.1)
    }
}

/// One step of the sequence model is exactly the slot evolution that
/// `acquire_frame` ensures when the provider is consulted precisely on a
/// needed refresh and, if consulted, returns `provided` with well-shaped
/// data.
pub proof fn lemma_step_matches_acquire(
    slot: Option<FrameModel>,
    tag: ActionTag,
    provided: FrameModel,
)
    requires
        provided.wf(),
    ensures
        spec_step_slot(slot, tag, provided) == spec_slot_after(
            slot,
            tag,
            if spec_needs_refresh(slot, tag) {
                Option::Some(Result::<FrameModel, CaptureError>::Ok(provided))
            } else {
                Option::None
            },
        ),
{
}

/// Cache reuse: a request sequence tagged `[Init, Fasten, Fasten]` invokes
/// the capture provider exactly once, from any starting slot and whatever
/// frames the provider would return.
pub proof fn lemma_cache_reuse(
    slot: Option<FrameModel>,
    f1: FrameModel,
    f2: FrameModel,
    f3: FrameModel,
)
    ensures
        spec_run(
            slot,
            seq![
                (ActionTag::Init, f1),
                (ActionTag::Fasten, f2),
                (ActionTag::Fasten, f3),
            ],
        ).1 == 1,
{
    reveal_with_fuel(spec_run, 4);
    let s = seq![(ActionTag::Init, f1), (ActionTag::Fasten, f2), (ActionTag::Fasten, f3)];
    let s1 = seq![(ActionTag::Fasten, f2), (ActionTag::Fasten, f3)];
    let s2 = seq![(ActionTag::Fasten, f3)];
    assert(s.drop_first() =~= s1);
    assert(s1.drop_first() =~= s2);
    assert(s2.drop_first() =~= Seq::<(ActionTag, FrameModel)>::empty());
    assert(spec_run(Option::Some(f1), s2).1 == 0);
    assert(spec_run(Option::Some(f1), s1).1 == 0);
    assert(spec_run(slot, s).1 == 1);
}

/// Forced refresh: a request sequence tagged `[Init, Init]` invokes the
/// capture provider exactly twice, and the second captured frame entirely
/// replaces the first in the slot, with no merging.
pub proof fn lemma_forced_refresh(slot: Option<FrameModel>, f1: FrameModel, f2: FrameModel)
    ensures
        spec_run(slot, seq![(ActionTag::Init, f1), (ActionTag::Init, f2)]).1 == 2,
        spec_run(slot, seq![(ActionTag::Init, f1), (ActionTag::Init, f2)]).0 == Option::Some(f2),
{
    reveal_with_fuel(spec_run, 3);
    let s = seq![(ActionTag::Init, f1), (ActionTag::Init, f2)];
    let s1 = seq![(ActionTag::Init, f2)];
    assert(s.drop_first() =~= s1);
    assert(s1.drop_first() =~= Seq::<(ActionTag, FrameModel)>::empty());
    assert(spec_run(Option::Some(f1), s1).1 == 1);
    assert(spec_run(Option::Some(f1), s1).0 == Option::Some(f2));
}

/// Cold start: the very first request, even one whose tag merely reuses the
/// cache, invokes the capture provider exactly once, and its effect on the
/// empty cache is identical to that of a forced refresh.
pub proof fn lemma_cold_start(f: FrameModel)
    ensures
        spec_run(Option::<FrameModel>::None, seq![(ActionTag::Fasten, f)]).1 == 1,
        spec_run(Option::<FrameModel>::None, seq![(ActionTag::Fasten, f)]) == spec_run(
            Option::<FrameModel>::None,
            seq![(ActionTag::Init, f)],
        ),
{
    reveal_with_fuel(spec_run, 2);
    let s = seq![(ActionTag::Fasten, f)];
    let s1 = seq![(ActionTag::Init, f)];
    assert(s.drop_first() =~= Seq::<(ActionTag, FrameModel)>::empty());
    assert(s1.drop_first() =~= Seq::<(ActionTag, FrameModel)>::empty());
}

} // verus!
