//! Frame sequencing: from a validated request to the ordered list of what
//! is drawn, and the order in which an encoder is asked for its output.
use crate::api::{
    spec_index_of, CheckSquare, Comment, Coordinates, Date, Orientation, PlayerName, RawBody,
    RawParams, RequestBody, RequestError, RequestFrame, RequestParams,
};
use crate::assets::{BoardTheme, PieceSet};
use crate::chess::{king_to_move, spec_widen, LastMove, Square};
use shakmaty::fen::Fen;
use vstd::prelude::*;

verus! {

/// The delay of a frame that sets none, in an animation that sets none
/// either: one second, in hundredths.
pub const FALLBACK_DELAY: u16 = 100;

/// The delay with which a frame is shown: its own where it sets one, else
/// that of the animation, else the fallback.
pub open spec fn spec_effective_delay(own: Option<u16>, shared: u16) -> u16 {
    match own {
        Some(delay) => delay,
        None => if shared != 0 {
            shared
        } else {
            FALLBACK_DELAY
        },
    }
}

pub fn effective_delay(own: Option<u16>, shared: u16) -> (r: u16)
    ensures
        r == spec_effective_delay(own, shared),
        own is None ==> r > 0,
{
    match own {
        Some(delay) => delay,
        None => if shared != 0 {
            shared
        } else {
            FALLBACK_DELAY
        },
    }
}

/// The delays of an animation's frames, in the order of the frames.
pub open spec fn spec_timeline(delays: Seq<Option<u16>>, shared: u16) -> Seq<u16> {
    Seq::new(delays.len(), |i: int| spec_effective_delay(delays[i], shared))
}

/// Where a single frame sets a delay of its own, that frame is shown with
/// it and every other frame with the delay of the animation.
pub proof fn lemma_delay_inheritance(delays: Seq<Option<u16>>, shared: u16, at: int, own: u16)
    requires
        shared != 0,
        0 <= at < delays.len(),
        delays[at] == Some(own),
        forall|i: int| 0 <= i < delays.len() && i != at ==> delays[i] is None,
    ensures
        spec_timeline(delays, shared).len() == delays.len(),
        spec_timeline(delays, shared)[at] == own,
        forall|i: int|
            0 <= i < delays.len() && i != at ==> #[trigger] spec_timeline(delays, shared)[i]
                == shared,
{
}

/// Column and row, on the pixel grid, of the square of an index that may
/// be absent.
pub open spec fn spec_place(orientation: Orientation, index: Option<int>) -> Option<(int, int)> {
    match index {
        Some(i) => Some(
            (orientation.spec_fold(i % 8, 7 - i % 8), orientation.spec_fold(7 - i / 8, i / 8)),
        ),
        None => None,
    }
}

/// A point of the pixel grid that may be absent, in integers.
pub open spec fn spec_point(point: Option<(usize, usize)>) -> Option<(int, int)> {
    match point {
        Some(p) => Some((p.0 as int, p.1 as int)),
        None => None,
    }
}

/// Column and row of a square that may be absent.
pub fn place(orientation: Orientation, square: Option<Square>) -> (r: Option<(usize, usize)>)
    ensures
        spec_point(r) == spec_place(orientation, spec_index_of(square)),
        r matches Some(p) ==> p.0 < 8 && p.1 < 8,
{
    match square {
        Some(square) => Some(orientation.project(square)),
        None => None,
    }
}

/// What is drawn for one frame: the position, the places of the squares
/// that the last move left and reached, the place of the check mark, and
/// the delay, which a still has not.
#[derive(Debug)]
pub struct RenderFrame {
    pub position: Fen,
    pub moved_from: Option<(usize, usize)>,
    pub moved_to: Option<(usize, usize)>,
    pub checked: Option<(usize, usize)>,
    pub delay: Option<u16>,
}

/// The index of the square that a move leaves, if there is a move and it
/// leaves one.
pub open spec fn spec_left(last_move: Option<LastMove>) -> Option<int> {
    match last_move {
        Some(m) => m.spec_from(),
        None => None,
    }
}

/// The index of the square that a move reaches, if there is a move and it
/// reaches one.
pub open spec fn spec_reached(last_move: Option<LastMove>) -> Option<int> {
    match last_move {
        Some(m) => m.spec_to(),
        None => None,
    }
}

impl RenderFrame {
    /// Whether the frame draws a position with its marks as seen from a
    /// side, given the index of the square of the king of the side to move.
    pub open spec fn spec_draws(
        self,
        position: Fen,
        last_move: Option<LastMove>,
        check: CheckSquare,
        orientation: Orientation,
        king: Option<int>,
    ) -> bool {
        &&& self.position == position
        &&& spec_point(self.moved_from) == spec_place(orientation, spec_left(last_move))
        &&& spec_point(self.moved_to) == spec_place(orientation, spec_reached(last_move))
        &&& spec_point(self.checked) == spec_place(orientation, check.spec_resolve(king))
    }

    /// Puts a frame together from a position, its marks and the square of
    /// the king of the side to move.
    pub fn with_king(
        position: Fen,
        last_move: Option<LastMove>,
        check: CheckSquare,
        orientation: Orientation,
        king: Option<Square>,
        delay: Option<u16>,
    ) -> (r: RenderFrame)
        ensures
            r.spec_draws(position, last_move, check, orientation, spec_index_of(king)),
            r.delay == delay,
    {
        let (from, to) = match last_move {
            Some(LastMove::Normal { from, to }) => (Some(from), Some(to)),
            Some(LastMove::Put { to }) => (None, Some(to)),
            Some(LastMove::Null) => (None, None),
            None => (None, None),
        };
        RenderFrame {
            position,
            moved_from: place(orientation, from),
            moved_to: place(orientation, to),
            checked: place(orientation, check.resolve(king)),
            delay,
        }
    }

    /// Puts a frame together from a position and its marks.
    pub fn new(
        position: Fen,
        last_move: Option<LastMove>,
        check: CheckSquare,
        orientation: Orientation,
        delay: Option<u16>,
    ) -> (r: RenderFrame)
        ensures
            r.spec_draws(
                position,
                last_move,
                check,
                orientation,
                spec_widen(king_to_move(position)),
            ),
            r.delay == delay,
    {
        let king = crate::chess::king_square(&position);
        RenderFrame::with_king(position, last_move, check, orientation, king, delay)
    }
}

/// The delays that the frames of a request set for themselves.
pub open spec fn spec_own_delays(frames: Seq<RequestFrame>) -> Seq<Option<u16>> {
    Seq::new(frames.len(), |i: int| frames[i].delay)
}

/// The one frame of a still request. It has no delay.
pub fn resolve_still(params: RequestParams) -> (r: RenderFrame)
    ensures
        r.spec_draws(
            params.fen,
            params.last_move,
            params.check,
            params.orientation,
            spec_widen(king_to_move(params.fen)),
        ),
        r.delay is None,
{
    RenderFrame::new(params.fen, params.last_move, params.check, params.orientation, None)
}

/// Whether frames are those of an animation, one for each frame sent and
/// in the order sent, each with the delay with which it is shown.
pub open spec fn spec_animates(
    resolved: Seq<RenderFrame>,
    frames: Seq<RequestFrame>,
    orientation: Orientation,
    shared: u16,
) -> bool {
    &&& resolved.len() == frames.len()
    &&& forall|i: int|
        0 <= i < resolved.len() ==> {
            &&& (#[trigger] resolved[i]).spec_draws(
                frames[i].fen,
                frames[i].last_move,
                frames[i].check,
                orientation,
                spec_widen(king_to_move(frames[i].fen)),
            )
            &&& resolved[i].delay == Some(spec_timeline(spec_own_delays(frames), shared)[i])
        }
}

/// The frames of an animation, from the frames sent, the side from which
/// the board is seen and the shared delay.
pub fn resolve_frames(frames: Vec<RequestFrame>, orientation: Orientation, shared: u16) -> (r: Vec<
    RenderFrame,
>)
    ensures
        spec_animates(r@, frames@, orientation, shared),
{
    let ghost sent = frames@;
    let mut resolved: Vec<RenderFrame> = Vec::new();
    for frame in it: frames
        invariant
            it.seq() == sent,
            resolved@.len() == it.index(),
            forall|j: int|
                0 <= j < it.index() ==> {
                    &&& (#[trigger] resolved@[j]).spec_draws(
                        sent[j].fen,
                        sent[j].last_move,
                        sent[j].check,
                        orientation,
                        spec_widen(king_to_move(sent[j].fen)),
                    )
                    &&& resolved@[j].delay == Some(
                        spec_timeline(spec_own_delays(sent), shared)[j],
                    )
                },
    {
        let delay: u16 = effective_delay(frame.delay, shared);
        resolved.push(
            RenderFrame::new(frame.fen, frame.last_move, frame.check, orientation, Some(delay)),
        );
    }
    resolved
}

/// The frames of an animation request.
pub fn resolve_animation(body: RequestBody) -> (r: Vec<RenderFrame>)
    ensures
        spec_animates(r@, body.frames@, body.orientation, body.delay),
{
    let orientation = body.orientation;
    let shared: u16 = body.delay;
    resolve_frames(body.frames, orientation, shared)
}

/// What the frames of a still request share.
pub open spec fn spec_still_layout(params: RequestParams) -> Layout {
    Layout {
        white: params.white,
        black: params.black,
        date: params.date,
        comment: params.comment,
        orientation: params.orientation,
        theme: params.theme,
        piece: params.piece,
        coordinates: params.coordinates,
    }
}

/// What the frames of an animation request share.
pub open spec fn spec_animation_layout(body: RequestBody) -> Layout {
    Layout {
        white: body.white,
        black: body.black,
        date: body.date,
        comment: body.comment,
        orientation: body.orientation,
        theme: body.theme,
        piece: body.piece,
        coordinates: body.coordinates,
    }
}

/// What an encoder is asked for next.
#[derive(Debug, Copy, Clone, PartialEq, Eq, Structural)]
pub enum Step {
    /// The header and whatever the whole image shares.
    Preamble,
    /// The image data of the frame at this place.
    Frame(usize),
    /// The end of the image.
    Trailer,
    /// Nothing: the image is complete.
    Complete,
}

/// The step at a place of the order in which an image of so many frames is
/// encoded: the preamble once, every frame in order, the trailer, and
/// nothing from then on.
pub open spec fn spec_step(frames: int, issued: int) -> Step {
    if issued <= 0 {
        Step::Preamble
    } else if issued <= frames {
        Step::Frame((issued - 1) as usize)
    } else if issued == frames + 1 {
        Step::Trailer
    } else {
        Step::Complete
    }
}

/// What all frames of an image share: the captions, the side from which
/// the board is seen, the sprite sheet and whether coordinates are drawn.
#[derive(Debug)]
pub struct Layout {
    pub white: Option<PlayerName>,
    pub black: Option<PlayerName>,
    pub date: Option<Date>,
    pub comment: Option<Comment>,
    pub orientation: Orientation,
    pub theme: BoardTheme,
    pub piece: PieceSet,
    pub coordinates: Coordinates,
}

/// An image that is being encoded frame by frame: what its frames share,
/// its frames, and how far the encoder has been driven. It is walked
/// through once.
#[derive(Debug)]
pub struct Render {
    layout: Layout,
    frames: Vec<RenderFrame>,
    next: Step,
}

impl Render {
    #[verifier::type_invariant]
    spec fn inv(self) -> bool {
        self.next matches Step::Frame(index) ==> index < self.frames@.len()
    }

    /// The frames of the image, in order.
    pub closed spec fn spec_frames(self) -> Seq<RenderFrame> {
        self.frames@
    }

    /// The number of steps handed out so far, counted up to the first that
    /// asks for nothing.
    pub closed spec fn spec_issued(self) -> int {
        match self.next {
            Step::Preamble => 0,
            Step::Frame(index) => index + 1,
            Step::Trailer => self.frames@.len() as int + 1,
            Step::Complete => self.frames@.len() as int + 2,
        }
    }

    /// What the frames of the image share.
    pub closed spec fn spec_layout(self) -> Layout {
        self.layout
    }

    /// An image of the given frames, of which nothing is encoded yet.
    pub fn new(layout: Layout, frames: Vec<RenderFrame>) -> (r: Render)
        ensures
            r.spec_layout() == layout,
            r.spec_frames() == frames@,
            r.spec_issued() == 0,
    {
        Render { layout, frames, next: Step::Preamble }
    }

    pub fn layout(&self) -> (r: &Layout)
        ensures
            *r == self.spec_layout(),
    {
        &self.layout
    }

    /// The still image of a request: one frame.
    pub fn new_image(params: RequestParams) -> (r: Render)
        ensures
            r.spec_frames().len() == 1,
            r.spec_frames()[0].spec_draws(
                params.fen,
                params.last_move,
                params.check,
                params.orientation,
                spec_widen(king_to_move(params.fen)),
            ),
            r.spec_frames()[0].delay is None,
            r.spec_issued() == 0,
            r.spec_layout() == spec_still_layout(params),
    {
        let layout = Layout {
            white: params.white,
            black: params.black,
            date: params.date,
            comment: params.comment,
            orientation: params.orientation,
            theme: params.theme,
            piece: params.piece,
            coordinates: params.coordinates,
        };
        let mut frames: Vec<RenderFrame> = Vec::new();
        frames.push(
            RenderFrame::new(params.fen, params.last_move, params.check, params.orientation, None),
        );
        Render::new(layout, frames)
    }

    /// The animation of a request: its frames in the order sent.
    pub fn new_animation(body: RequestBody) -> (r: Render)
        ensures
            spec_animates(r.spec_frames(), body.frames@, body.orientation, body.delay),
            r.spec_issued() == 0,
            r.spec_layout() == spec_animation_layout(body),
    {
        let layout = Layout {
            white: body.white,
            black: body.black,
            date: body.date,
            comment: body.comment,
            orientation: body.orientation,
            theme: body.theme,
            piece: body.piece,
            coordinates: body.coordinates,
        };
        let orientation = body.orientation;
        let frames = resolve_frames(body.frames, orientation, body.delay);
        Render::new(layout, frames)
    }

    /// Reads a still request and sets up its image. A request that is
    /// refused gives no image: nothing of it is resolved or encoded.
    pub fn still(raw: &RawParams) -> (r: Result<Render, RequestError>)
        ensures
            match r {
                Ok(render) => {
                    &&& RequestParams::spec_error(*raw) is None
                    &&& render.spec_issued() == 0
                    &&& render.spec_frames().len() == 1
                    &&& render.spec_frames()[0].delay is None
                    &&& exists|params: RequestParams|
                        {
                            &&& #[trigger] params.spec_reads(*raw)
                            &&& render.spec_layout() == spec_still_layout(params)
                            &&& render.spec_frames()[0].spec_draws(
                                params.fen,
                                params.last_move,
                                params.check,
                                params.orientation,
                                spec_widen(king_to_move(params.fen)),
                            )
                        }
                },
                Err(error) => RequestParams::spec_error(*raw) == Some(error),
            },
    {
        match RequestParams::parse(raw) {
            Ok(params) => {
                let ghost read = params;
                let render = Render::new_image(params);
                assert(read.spec_reads(*raw));
                Ok(render)
            },
            Err(error) => Err(error),
        }
    }

    /// Reads an animation request and sets up its image. A request that is
    /// refused gives no image: nothing of it is resolved or encoded.
    pub fn animation(raw: &RawBody) -> (r: Result<Render, RequestError>)
        ensures
            match r {
                Ok(render) => {
                    &&& RequestBody::spec_outer_error(*raw) is None
                    &&& render.spec_issued() == 0
                    &&& render.spec_frames().len() == raw.frames@.len()
                    &&& exists|body: RequestBody|
                        {
                            &&& #[trigger] body.spec_reads(*raw)
                            &&& render.spec_layout() == spec_animation_layout(body)
                            &&& spec_animates(
                                render.spec_frames(),
                                body.frames@,
                                body.orientation,
                                body.delay,
                            )
                        }
                },
                Err(error) => RequestBody::spec_refused(*raw, error),
            },
    {
        match RequestBody::parse(raw) {
            Ok(body) => {
                let ghost read = body;
                let render = Render::new_animation(body);
                assert(read.spec_reads(*raw));
                Ok(render)
            },
            Err(error) => Err(error),
        }
    }

    pub fn len(&self) -> (r: usize)
        ensures
            r == self.spec_frames().len(),
    {
        self.frames.len()
    }

    /// The frame at a place, where there is one.
    pub fn frame(&self, index: usize) -> (r: Option<&RenderFrame>)
        ensures
            r is Some <==> index < self.spec_frames().len(),
            r matches Some(frame) ==> *frame == self.spec_frames()[index as int],
    {
        if index < self.frames.len() {
            Some(&self.frames[index])
        } else {
            None
        }
    }

    /// Hands out the next step and moves on. Once the image is complete it
    /// stays so.
    pub fn next_step(&mut self) -> (r: Step)
        ensures
            r == spec_step(old(self).spec_frames().len() as int, old(self).spec_issued()),
            final(self).spec_frames() == old(self).spec_frames(),
            final(self).spec_issued() == if r == Step::Complete {
                old(self).spec_issued()
            } else {
                old(self).spec_issued() + 1
            },
    {
        proof {
            use_type_invariant(&*self);
        }
        let count: usize = self.frames.len();
        let step = self.next;
        match step {
            Step::Preamble => {
                self.next = if count > 0 {
                    Step::Frame(0)
                } else {
                    Step::Trailer
                };
            },
            Step::Frame(index) => {
                self.next = if index + 1 < count {
                    Step::Frame(index + 1)
                } else {
                    Step::Trailer
                };
            },
            Step::Trailer => {
                self.next = Step::Complete;
            },
            Step::Complete => {},
        }
        step
    }
}

} // verus!
