//! Turns a scene of static blocks and launched balls into the frames of a video: the rules
//! that end a simulation, the projection of the world onto pixels, the drawing of each frame
//! and the hand-over of every frame, in order, to the video encoder.

use crate::clock::{
    clock_run, clock_start, clock_step, lemma_run_ends, lemma_run_ends_when_all_stop,
    lemma_run_keeps_wf, Beat, Clock,
};
use crate::codec::FrameEncoder;
use crate::file_loader::{LevelDescriptor, UserColor, UserLoc, UserMove};
use crate::frame::{extent_fits, uniform_pixels, Frame, RgbImage, Rgba, MAX_EXTENT};
use crate::motion::{
    all_done, all_finished, assess, out_of_bounds, verdicts_of, Body, MotionState, Verdict,
};
use crate::utils::{
    background_ink, blocks_painted, draw_blocks, draw_user, rgba8_to_rgb8, user_painted,
    without_alpha,
};
use vstd::prelude::*;
use vstd::string::*;

pub mod cli;
pub mod clock;
pub mod codec;
pub mod file_loader;
pub mod frame;
pub mod motion;
pub mod paint;
pub mod utils;

verus! {

/// Why a render came to nothing.
#[derive(Debug, PartialEq)]
pub enum RendererError {
    /// A failure that has no kind of its own.
    Unspecified(String),
    /// The frame size is not one that can be rendered.
    ConfigError(String),
    /// The encoder did not start.
    EncoderInit(String),
    /// The encoder did not take a frame.
    EncodeFailure(String),
    /// The container could not be closed over the encoded stream.
    MuxFinalize(String),
}

/// How to render: the size of the frames, the limit on their number, and whether to report
/// each tick.
#[derive(Clone, Copy, Debug, PartialEq, Eq, Structural)]
pub struct Context {
    pub frame_width: u32,
    pub frame_height: u32,
    pub max_frames: u32,
    pub debug: bool,
}

impl RendererError {
    /// The text of the error: its kind, a colon, and what went wrong.
    pub fn to_string(&self) -> (text: String)
        ensures
            text@ == match *self {
                RendererError::Unspecified(msg) => "Unspecified: "@ + msg@,
                RendererError::ConfigError(msg) => "CongifError: "@ + msg@,
                RendererError::EncoderInit(msg) => "EncoderInit: "@ + msg@,
                RendererError::EncodeFailure(msg) => "EncodeFailure: "@ + msg@,
                RendererError::MuxFinalize(msg) => "MuxFinalize: "@ + msg@,
            },
    {
        match self {
            RendererError::Unspecified(msg) => String::from_str("Unspecified: ").concat(
                msg.as_str(),
            ),
            RendererError::ConfigError(msg) => String::from_str("CongifError: ").concat(
                msg.as_str(),
            ),
            RendererError::EncoderInit(msg) => String::from_str("EncoderInit: ").concat(
                msg.as_str(),
            ),
            RendererError::EncodeFailure(msg) => String::from_str("EncodeFailure: ").concat(
                msg.as_str(),
            ),
            RendererError::MuxFinalize(msg) => String::from_str("MuxFinalize: ").concat(
                msg.as_str(),
            ),
        }
    }
}

/// What is wrong with a frame size, if anything: a width under one, else a height under one.
pub open spec fn config_fault(ctx: Context) -> Option<Seq<char>> {
    if ctx.frame_width < 1 {
        Some("Frame Width must be greater than 0"@)
    } else if ctx.frame_height < 1 {
        Some("Frame Height must be greater than 0"@)
    } else {
        None
    }
}

/// Accepts a frame size of at least one pixel each way, and refuses any other.
pub fn validate(ctx: &Context) -> (checked: Result<(), RendererError>)
    ensures
        checked.is_ok() <==> config_fault(*ctx) is None,
        config_fault(*ctx) matches Some(text) ==> (checked matches Err(
            RendererError::ConfigError(msg),
        ) && msg@ == text),
{
    if ctx.frame_width < 1 {
        return Err(
            RendererError::ConfigError(String::from_str("Frame Width must be greater than 0")),
        );
    }
    if ctx.frame_height < 1 {
        return Err(
            RendererError::ConfigError(String::from_str("Frame Height must be greater than 0")),
        );
    }
    Ok(())
}

/// The colours of the balls of a scene, in order.
pub open spec fn colors_of(users: Seq<UserMove>) -> Seq<UserColor> {
    Seq::new(users.len(), |i: int| users[i].color)
}

/// The buffer that every frame of a scene starts from: the background colour all over,
/// with the outlines of the blocks on it.
pub open spec fn backdrop_of(level: LevelDescriptor, width: u32, height: u32) -> Seq<u8> {
    blocks_painted(
        width,
        uniform_pixels(width, height, background_ink()),
        level.blocks@,
        width,
        height,
    )
}

/// The buffer after a ball has been drawn for each body, first body first, each in the
/// colour at its place in `colors` and fully opaque. Later balls cover earlier ones.
pub open spec fn balls_painted(
    frame_width: u32,
    frame_height: u32,
    pixels: Seq<u8>,
    bodies: Seq<Body>,
    colors: Seq<UserColor>,
    width: u32,
    height: u32,
) -> Seq<u8>
    decreases bodies.len(),
{
    if bodies.len() == 0 {
        pixels
    } else {
        let color = colors[bodies.len() - 1];
        user_painted(
            frame_width,
            frame_height,
            balls_painted(
                frame_width,
                frame_height,
                pixels,
                bodies.drop_last(),
                colors,
                width,
                height,
            ),
            UserLoc { x: bodies.last().x, y: bodies.last().y },
            Rgba { r: color.r, g: color.g, b: color.b, a: 255 },
            width,
            height,
        )
    }
}

/// Draws a ball for each body, in order, each at the body's position.
pub fn draw_users(
    frame: &mut Frame,
    bodies: &Vec<Body>,
    colors: &Vec<UserColor>,
    width: u32,
    height: u32,
)
    requires
        old(frame).wf(),
        width <= MAX_EXTENT,
        height <= MAX_EXTENT,
        bodies@.len() == colors@.len(),
    ensures
        final(frame).wf(),
        final(frame).width == old(frame).width,
        final(frame).height == old(frame).height,
        final(frame)@ == balls_painted(
            old(frame).width,
            old(frame).height,
            old(frame)@,
            bodies@,
            colors@,
            width,
            height,
        ),
{
    let mut i: usize = 0;
    while i < bodies.len()
        invariant
            i <= bodies@.len(),
            bodies@.len() == colors@.len(),
            frame.wf(),
            frame.width == old(frame).width,
            frame.height == old(frame).height,
            width <= MAX_EXTENT,
            height <= MAX_EXTENT,
            frame@ == balls_painted(
                old(frame).width,
                old(frame).height,
                old(frame)@,
                bodies@.subrange(0, i as int),
                colors@,
                width,
                height,
            ),
        decreases bodies@.len() - i,
    {
        let at = UserLoc { x: bodies[i].x, y: bodies[i].y };
        let color = Rgba { r: colors[i].r, g: colors[i].g, b: colors[i].b, a: 255 };
        draw_user(frame, &at, color, width, height);
        proof {
            let done = bodies@.subrange(0, i as int + 1);
            assert(done.drop_last() =~= bodies@.subrange(0, i as int));
            assert(done.last() == bodies@[i as int]);
        }
        i = i + 1;
    }
    assert(bodies@.subrange(0, i as int) =~= bodies@);
}

/// A render under way: the clock, the backdrop that every frame starts from, the colours
/// of the balls, the encoder and the stream encoded so far.
pub struct Run {
    pub ctx: Context,
    pub clock: Clock,
    pub colors: Vec<UserColor>,
    pub backdrop: Frame,
    pub encoder: FrameEncoder,
    pub stream: Vec<u8>,
    /// The encoder did not take a frame. Such a run is over, holds no stream and gives
    /// no track.
    pub failed: bool,
}

/// What one tick of a render gave.
pub struct Tick {
    /// Whether the tick took place, and whether its number exceeds the limit.
    pub beat: Beat,
    /// The judgement on each ball, in order. The world must halt the balls that it names.
    pub verdicts: Vec<Verdict>,
    /// The frame that was drawn and handed to the encoder, without its alpha channel.
    pub frame: Option<RgbImage>,
}

/// An encoded video track, ready to be put into a container.
#[derive(Debug)]
pub struct Track {
    /// Width of the frames, in pixels.
    pub width: i32,
    /// Height of the frames, in pixels.
    pub height: i32,
    /// Whether each unit of the stream stands behind its length in four bytes, and not
    /// behind a start code.
    pub length_prefixed: bool,
    /// The title that the container shows for the track.
    pub name: String,
    /// The encoded frames, one after the other, each unit behind a start code.
    pub stream: Vec<u8>,
}

impl Run {
    /// The parts of a render fit together: backdrop and encoder have the frame size of the
    /// context, and the clock its limit.
    pub open spec fn wf(&self) -> bool {
        &&& self.clock.wf()
        &&& self.clock.max_frames == self.ctx.max_frames
        &&& self.backdrop.wf()
        &&& self.backdrop.width == self.ctx.frame_width
        &&& self.backdrop.height == self.ctx.frame_height
        &&& self.encoder.wf()
        &&& self.encoder.width == self.ctx.frame_width
        &&& self.encoder.height == self.ctx.frame_height
        &&& self.failed ==> self.clock.quit && self.stream@.len() == 0
    }

    /// The frame of a tick in which the world reports `bodies`, as the encoder gets it.
    pub open spec fn frame_of(&self, bodies: Seq<Body>) -> Seq<u8> {
        without_alpha(
            balls_painted(
                self.ctx.frame_width,
                self.ctx.frame_height,
                self.backdrop@,
                bodies,
                self.colors@,
                self.ctx.frame_width,
                self.ctx.frame_height,
            ),
        )
    }

    /// Whether the render is over: no tick follows.
    pub fn quit(&self) -> (over: bool)
        ensures
            over == self.clock.quit,
    {
        self.clock.quit
    }

    /// Whether the render has failed: a frame was not taken by the encoder.
    pub fn failed(&self) -> (failed: bool)
        ensures
            failed == self.failed,
    {
        self.failed
    }

    /// How many ticks have taken place.
    pub fn count(&self) -> (ticks: u64)
        ensures
            ticks == self.clock.count,
    {
        self.clock.count
    }

    /// One tick, after the world has stepped and reports `bodies`, one for each ball of
    /// the scene in order.
    ///
    /// The tick is counted, every ball is judged, and the run ends with this tick if its
    /// number exceeds the limit or no ball is still under way. Whether it ends or not,
    /// the frame of the tick is drawn from these same reports and goes to the encoder. A
    /// frame that the encoder does not take ends the run with an error: the run has
    /// failed, and what was encoded before is thrown away, so that nothing is left of it
    /// but the error. On a run that is over, a tick does nothing.
    pub fn tick(&mut self, bodies: &Vec<Body>) -> (ticked: Result<Tick, RendererError>)
        requires
            old(self).wf(),
            bodies@.len() == old(self).colors@.len(),
        ensures
            final(self).wf(),
            final(self).ctx == old(self).ctx,
            final(self).colors@ == old(self).colors@,
            final(self).backdrop == old(self).backdrop,
            old(self).clock.quit ==> *final(self) == *old(self) && (ticked matches Ok(tick)
                && !tick.beat.ran && !tick.beat.over_limit && tick.verdicts@.len() == 0
                && tick.frame is None),
            !old(self).clock.quit ==> {
                let stepped = clock_step(old(self).clock, all_done(verdicts_of(bodies@)));
                match ticked {
                    Ok(tick) => {
                        &&& final(self).clock == stepped
                        &&& tick.beat.ran
                        &&& tick.beat.over_limit == (stepped.count > old(self).ctx.max_frames)
                        &&& tick.verdicts@ == verdicts_of(bodies@)
                        &&& forall|i: int|
                            0 <= i < bodies@.len() && out_of_bounds(#[trigger] bodies@[i])
                                ==> tick.verdicts@[i].state == MotionState::OutOfBounds
                        &&& (tick.frame matches Some(image) && image.wf() && image.width
                            == old(self).ctx.frame_width && image.height == old(
                            self,
                        ).ctx.frame_height && image@ == old(self).frame_of(bodies@))
                        &&& old(self).stream@.is_prefix_of(final(self).stream@)
                        &&& !final(self).failed
                    },
                    Err(error) => {
                        &&& error is EncodeFailure
                        &&& final(self).clock == Clock { quit: true, ..stepped }
                        &&& final(self).failed
                        &&& final(self).stream@.len() == 0
                    },
                }
            },
            old(self).ctx.frame_width % 2 != 0 || old(self).ctx.frame_height % 2 != 0 ==> (
            old(self).clock.quit || ticked.is_err()),
    {
        if self.clock.quit {
            return Ok(
                Tick {
                    beat: Beat { ran: false, over_limit: false },
                    verdicts: Vec::new(),
                    frame: None,
                },
            );
        }
        let verdicts: Vec<Verdict> = assess(bodies);
        let all_stopped: bool = all_finished(&verdicts);
        let beat: Beat = self.clock.tick(all_stopped);
        let mut frame: Frame = self.backdrop.duplicate();
        draw_users(&mut frame, bodies, &self.colors, self.ctx.frame_width, self.ctx.frame_height);
        let image: RgbImage = rgba8_to_rgb8(frame);
        match self.encoder.encode(&image, &mut self.stream) {
            Ok(()) => Ok(Tick { beat, verdicts, frame: Some(image) }),
            Err(error) => {
                self.clock.quit = true;
                self.failed = true;
                self.stream.clear();
                Err(error)
            },
        }
    }

    /// Ends the render and gives what the container is made from: the encoded stream,
    /// which holds the chunks of all frames in order, the frame size and the track's
    /// title. Only a run that is over and has not failed can be finished, and only once,
    /// since finishing uses it up.
    pub fn finish(self) -> (track: Track)
        requires
            self.wf(),
            self.clock.quit,
            !self.failed,
        ensures
            track.stream@ == self.stream@,
            track.width == self.ctx.frame_width,
            track.height == self.ctx.frame_height,
            !track.length_prefixed,
            track.name@ == "Generated Video"@,
    {
        Track {
            width: self.ctx.frame_width as i32,
            height: self.ctx.frame_height as i32,
            length_prefixed: false,
            name: String::from_str("Generated Video"),
            stream: self.stream,
        }
    }
}

/// A run as `render` opens it for a scene: well formed, with the clock at its start, the
/// colours of the scene's balls, the scene's backdrop, and nothing encoded yet.
pub open spec fn opens(run: Run, level: LevelDescriptor, ctx: Context) -> bool {
    &&& run.wf()
    &&& run.ctx == ctx
    &&& run.clock == clock_start(ctx.max_frames)
    &&& run.colors@ == colors_of(level.users@)
    &&& run.backdrop@ == backdrop_of(level, ctx.frame_width, ctx.frame_height)
    &&& run.stream@.len() == 0
    &&& !run.failed
}

/// Two renders of equal scenes with one configuration, whose worlds report alike, go
/// alike: they take the same number of ticks, quit alike, and hand the same frame to
/// the encoder in every tick. What the encoder makes of the frames is not part of this.
pub proof fn lemma_renders_agree(
    a: Run,
    b: Run,
    level_a: LevelDescriptor,
    level_b: LevelDescriptor,
    ctx: Context,
    reports: Seq<Seq<Body>>,
)
    requires
        level_a.blocks@ == level_b.blocks@,
        level_a.users@ == level_b.users@,
        opens(a, level_a, ctx),
        opens(b, level_b, ctx),
    ensures
        clock_run(a.clock, stops_of(reports)) == clock_run(b.clock, stops_of(reports)),
        forall|k: int|
            0 <= k < reports.len() ==> a.frame_of(#[trigger] reports[k]) == b.frame_of(
                reports[k],
            ),
{
}

/// Whether every ball was done, tick by tick, in a run in which the world reports
/// `reports[k]` in the tick that follows `k` earlier ones.
pub open spec fn stops_of(reports: Seq<Seq<Body>>) -> Seq<bool> {
    Seq::new(reports.len(), |k: int| all_done(verdicts_of(reports[k])))
}

/// Every render ends: whatever the world reports, the run has quit after one tick more
/// than the limit at the latest; and if in some tick every ball is done, or there is no
/// ball, it has quit with that tick, within the limit if the tick is.
pub proof fn lemma_render_ends(max_frames: u32, reports: Seq<Seq<Body>>)
    ensures
        reports.len() > max_frames ==> clock_run(clock_start(max_frames), stops_of(reports)).quit,
        clock_run(clock_start(max_frames), stops_of(reports)).count <= max_frames + 1,
        forall|k: int|
            0 <= k < reports.len() && all_done(verdicts_of(#[trigger] reports[k])) ==> {
                &&& clock_run(clock_start(max_frames), stops_of(reports)).quit
                &&& clock_run(clock_start(max_frames), stops_of(reports)).count <= k + 1
                &&& k < max_frames ==> clock_run(
                    clock_start(max_frames),
                    stops_of(reports),
                ).count <= max_frames
            },
{
    let stops = stops_of(reports);
    lemma_run_keeps_wf(clock_start(max_frames), stops);
    if reports.len() > max_frames {
        lemma_run_ends(max_frames, stops);
    }
    assert forall|k: int|
        0 <= k < reports.len() && all_done(verdicts_of(#[trigger] reports[k])) implies {
        &&& clock_run(clock_start(max_frames), stops).quit
        &&& clock_run(clock_start(max_frames), stops).count <= k + 1
        &&& k < max_frames ==> clock_run(clock_start(max_frames), stops).count <= max_frames
    } by {
        lemma_run_ends_when_all_stop(max_frames, stops, k);
    }
}

/// How a tick moves the clock and what it draws depend on the frame size, the backdrop,
/// the colours, the clock and the reports of that tick, and not on the encoder or on the
/// stream: two runs that agree in the former agree in both.
pub proof fn lemma_tick_depends_on_its_inputs(a: Run, b: Run, bodies: Seq<Body>)
    requires
        a.ctx == b.ctx,
        a.clock == b.clock,
        a.backdrop@ == b.backdrop@,
        a.colors@ == b.colors@,
    ensures
        clock_step(a.clock, all_done(verdicts_of(bodies))) == clock_step(
            b.clock,
            all_done(verdicts_of(bodies)),
        ),
        a.frame_of(bodies) == b.frame_of(bodies),
{
}

/// Whether frames of this size can be held and drawn on.
pub fn frame_fits(width: u32, height: u32) -> (fits: bool)
    ensures
        fits == extent_fits(width, height, 4),
{
    if width > MAX_EXTENT || height > MAX_EXTENT {
        return false;
    }
    assert(width * height <= 0x0100_0000 * 0x0100_0000) by (nonlinear_arith)
        requires
            width <= 0x0100_0000,
            height <= 0x0100_0000,
    ;
    let bytes: u64 = width as u64 * height as u64 * 4;
    bytes as u128 <= usize::MAX as u128
}

/// What becomes of an opened render once the encoder has or has not started.
pub fn open_run(
    ctx: Context,
    colors: Vec<UserColor>,
    backdrop: Frame,
    started: Result<FrameEncoder, RendererError>,
) -> (opened: Result<Run, RendererError>)
    ensures
        opened.is_ok() <==> started.is_ok(),
        opened matches Ok(run) ==> (run.ctx == ctx && run.clock == clock_start(ctx.max_frames)
            && run.colors == colors && run.backdrop == backdrop && Ok::<
            FrameEncoder,
            RendererError,
        >(run.encoder) == started && run.stream@.len() == 0 && !run.failed),
        opened matches Err(error) ==> Err::<FrameEncoder, RendererError>(error) == started,
{
    match started {
        Ok(encoder) => Ok(
            Run {
                ctx,
                clock: Clock::new(ctx.max_frames),
                colors,
                backdrop,
                encoder,
                stream: Vec::new(),
                failed: false,
            },
        ),
        Err(error) => Err(error),
    }
}

/// Opens the render of a scene.
///
/// A frame size under one pixel either way is refused first, before anything is set up;
/// then one too large to hold or to draw on. After that the backdrop is painted and the
/// encoder started, and it is the encoder's to say whether it starts. The caller then
/// lets the world step and calls `Run::tick`, turn by turn, until `Run::quit`, and takes
/// the stream with `Run::finish`.
pub fn render(leveldata: &LevelDescriptor, ctx: Context) -> (opened: Result<Run, RendererError>)
    ensures
        config_fault(ctx) matches Some(text) ==> (opened matches Err(
            RendererError::ConfigError(msg),
        ) && msg@ == text),
        config_fault(ctx) is None && !extent_fits(ctx.frame_width, ctx.frame_height, 4) ==> (
        opened matches Err(RendererError::Unspecified(msg)) && msg@ == "Frame is too large"@),
        config_fault(ctx) is None && extent_fits(ctx.frame_width, ctx.frame_height, 4)
            ==> match opened {
            Ok(run) => opens(run, *leveldata, ctx),
            Err(error) => error is EncoderInit,
        },
{
    match validate(&ctx) {
        Ok(()) => {},
        Err(error) => {
            return Err(error);
        },
    }
    if !frame_fits(ctx.frame_width, ctx.frame_height) {
        return Err(RendererError::Unspecified(String::from_str("Frame is too large")));
    }
    let mut backdrop: Frame = Frame::filled(
        ctx.frame_width,
        ctx.frame_height,
        Rgba { r: 15, g: 15, b: 15, a: 255 },
    );
    draw_blocks(&mut backdrop, &leveldata.blocks, ctx.frame_width, ctx.frame_height);
    let mut colors: Vec<UserColor> = Vec::with_capacity(leveldata.users.len());
    let mut i: usize = 0;
    while i < leveldata.users.len()
        invariant
            i <= leveldata.users@.len(),
            colors@.len() == i,
            forall|j: int| 0 <= j < i ==> #[trigger] colors@[j] == leveldata.users@[j].color,
        decreases leveldata.users@.len() - i,
    {
        colors.push(leveldata.users[i].color);
        i = i + 1;
    }
    assert(colors@ =~= colors_of(leveldata.users@));
    let started = FrameEncoder::start(ctx.frame_width, ctx.frame_height);
    open_run(ctx, colors, backdrop, started)
}

} // verus!
