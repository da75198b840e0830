use renderer::codec::FrameEncoder;
use renderer::file_loader::{BLVec2, LevelDescriptor, LocationScale, UserColor, UserLoc, UserMove};
use renderer::frame::{Frame, Rgba};
use renderer::motion::{Body, MotionState, Verdict};
use renderer::utils::{draw_blocks, draw_user, rgba8_to_rgb8};
use renderer::{draw_users, frame_fits, render, validate, Context, RendererError, Run};

fn ctx(width: u32, height: u32, max_frames: u32) -> Context {
    Context { frame_width: width, frame_height: height, max_frames, debug: false }
}

fn user(r: u8, g: u8, b: u8) -> UserMove {
    UserMove {
        location: UserLoc { x: 0, y: 0 },
        rotation: 0,
        power: 0,
        color: UserColor { r, g, b },
    }
}

fn level(users: Vec<UserMove>) -> LevelDescriptor {
    LevelDescriptor { blocks: Vec::new(), users }
}

fn moving(x: i32, y: i32) -> Body {
    Body { x, y, vx: 5000, vy: 0, moving: true }
}

fn at_rest(x: i32, y: i32) -> Body {
    Body { x, y, vx: 0, vy: 0, moving: false }
}

fn open(level: &LevelDescriptor, ctx: Context) -> Run {
    match render(level, ctx) {
        Ok(run) => run,
        Err(error) => panic!("{}", error.to_string()),
    }
}

fn pixel(image: &renderer::frame::RgbImage, x: u32, y: u32) -> (u8, u8, u8) {
    let at = ((y * image.width + x) * 3) as usize;
    (image.pixels[at], image.pixels[at + 1], image.pixels[at + 2])
}

#[test]
fn zero_width_is_a_config_error() {
    let result = render(&level(vec![user(1, 2, 3)]), ctx(0, 1080, 600));
    match result {
        Err(RendererError::ConfigError(msg)) => {
            assert_eq!(msg, "Frame Width must be greater than 0")
        }
        _ => panic!("a frame without width was not refused"),
    }
}

#[test]
fn zero_height_is_a_config_error() {
    match render(&LevelDescriptor::empty(), ctx(1920, 0, 600)) {
        Err(RendererError::ConfigError(msg)) => {
            assert_eq!(msg, "Frame Height must be greater than 0")
        }
        _ => panic!("a frame without height was not refused"),
    }
}

#[test]
fn width_is_looked_at_before_height() {
    match render(&LevelDescriptor::empty(), ctx(0, 0, 600)) {
        Err(RendererError::ConfigError(msg)) => {
            assert_eq!(msg, "Frame Width must be greater than 0")
        }
        _ => panic!("a frame without extent was not refused"),
    }
}

#[test]
fn validate_accepts_one_pixel() {
    assert_eq!(validate(&ctx(1, 1, 0)), Ok(()));
    assert_eq!(validate(&ctx(1920, 1080, 600)), Ok(()));
    assert_eq!(validate(&ctx(u32::MAX, u32::MAX, u32::MAX)), Ok(()));
    assert_eq!(
        validate(&ctx(0, 1, 600)),
        Err(RendererError::ConfigError("Frame Width must be greater than 0".to_string()))
    );
    assert_eq!(
        validate(&ctx(1, 0, 600)),
        Err(RendererError::ConfigError("Frame Height must be greater than 0".to_string()))
    );
}

#[test]
fn frame_too_large_is_refused_unspecified() {
    match render(&LevelDescriptor::empty(), ctx(0x0100_0001, 2, 600)) {
        Err(RendererError::Unspecified(msg)) => assert_eq!(msg, "Frame is too large"),
        _ => panic!("a frame wider than the limit was not refused"),
    }
    match render(&LevelDescriptor::empty(), ctx(2, u32::MAX, 600)) {
        Err(RendererError::Unspecified(_)) => {}
        _ => panic!("a frame higher than the limit was not refused"),
    }
    assert!(frame_fits(0x0100_0000, 1));
    assert!(!frame_fits(0x0100_0001, 1));
    assert!(!frame_fits(1, 0x0100_0001));
    assert!(frame_fits(1920, 1080));
    assert!(frame_fits(0, 0));
}

#[test]
fn encoder_that_does_not_start_is_an_init_error() {
    match FrameEncoder::start(5000, 5000) {
        Err(RendererError::EncoderInit(msg)) => assert!(!msg.is_empty()),
        Err(_) => panic!("another kind of error than a failed start"),
        Ok(_) => panic!("an encoder started for a frame of five thousand pixels each way"),
    }
    match FrameEncoder::start(64, 0) {
        Err(RendererError::EncoderInit(_)) => {}
        _ => panic!("an encoder started for a frame without height"),
    }
}

#[test]
fn encoder_keeps_the_size_it_was_started_for() {
    let encoder = match FrameEncoder::start(64, 48) {
        Ok(encoder) => encoder,
        Err(error) => panic!("{}", error.to_string()),
    };
    assert_eq!(encoder.width, 64);
    assert_eq!(encoder.height, 48);
}

#[test]
fn encoder_refuses_a_frame_of_another_size() {
    let mut encoder = FrameEncoder::start(64, 48).ok().unwrap();
    let image = rgba8_to_rgb8(Frame::new(32, 48));
    let mut stream = vec![1u8, 2, 3];
    match encoder.encode(&image, &mut stream) {
        Err(RendererError::EncodeFailure(_)) => {}
        _ => panic!("a frame of another size was not refused"),
    }
    assert_eq!(stream, vec![1u8, 2, 3]);
}

#[test]
fn encoder_appends_to_the_stream() {
    let mut encoder = FrameEncoder::start(64, 48).ok().unwrap();
    let image = rgba8_to_rgb8(Frame::filled(64, 48, Rgba { r: 200, g: 100, b: 50, a: 255 }));
    let mut stream = vec![9u8, 8, 7];
    assert_eq!(encoder.encode(&image, &mut stream), Ok(()));
    assert!(stream.len() > 3);
    assert_eq!(&stream[..3], &[9, 8, 7]);
    // An encoded stream opens with a start code.
    assert_eq!(&stream[3..7], &[0, 0, 0, 1]);
}

#[test]
fn odd_frame_size_fails_at_the_first_encode() {
    let mut run = open(&level(vec![user(1, 2, 3)]), ctx(63, 48, 600));
    match run.tick(&vec![moving(0, 0)]) {
        Err(RendererError::EncodeFailure(_)) => {}
        _ => panic!("a frame of odd width went through"),
    }
    assert!(run.quit());
    assert!(run.failed());
    assert_eq!(run.count(), 1);
    assert!(run.stream.is_empty());
}

#[test]
fn failed_run_keeps_nothing_of_what_was_encoded() {
    let mut run = open(&level(vec![user(1, 2, 3)]), ctx(64, 47, 600));
    // Bytes in the stream stand for frames encoded before the one that fails.
    run.stream = vec![0, 0, 0, 1, 9, 9];
    assert!(!run.failed());
    match run.tick(&vec![moving(0, 0)]) {
        Err(RendererError::EncodeFailure(_)) => {}
        _ => panic!("a frame of odd height went through"),
    }
    assert!(run.failed());
    assert!(run.quit());
    assert_eq!(run.count(), 1);
    assert!(run.stream.is_empty());
    // A tick on the failed run does nothing more.
    let idle = run.tick(&vec![moving(200, 0)]).ok().unwrap();
    assert!(!idle.beat.ran);
    assert!(idle.frame.is_none());
    assert!(run.failed());
    assert_eq!(run.count(), 1);
    assert!(run.stream.is_empty());
}

#[test]
fn empty_scene_ends_on_the_first_tick() {
    let mut run = open(&LevelDescriptor::empty(), ctx(64, 48, 600));
    assert!(!run.quit());
    assert_eq!(run.count(), 0);
    let tick = run.tick(&Vec::new()).ok().unwrap();
    assert!(tick.beat.ran);
    assert!(!tick.beat.over_limit);
    assert!(tick.verdicts.is_empty());
    assert!(run.quit());
    assert_eq!(run.count(), 1);
    // The single frame is the background alone.
    let image = tick.frame.unwrap();
    assert_eq!(image.width, 64);
    assert_eq!(image.height, 48);
    assert_eq!(image.pixels, vec![15u8; 64 * 48 * 3]);
    assert!(!run.finish().stream.is_empty());
}

#[test]
fn single_stationary_actor_ends_after_one_tick() {
    let mut run = open(&level(vec![user(0, 128, 255)]), ctx(64, 48, 600));
    let tick = run.tick(&vec![Body { x: 0, y: 0, vx: 0, vy: 0, moving: true }]).ok().unwrap();
    assert_eq!(tick.verdicts, vec![Verdict { state: MotionState::Settled, halt: true }]);
    assert!(run.quit());
    assert_eq!(run.count(), 1);
    assert_eq!(pixel(&tick.frame.unwrap(), 32, 24), (0, 128, 255));
}

#[test]
fn two_actors_colliding_end_within_the_limit() {
    let mut run = open(&level(vec![user(255, 0, 0), user(0, 0, 255)]), ctx(64, 48, 600));
    let mut ticks = 0;
    // Toward each other, apart again at seven tenths of the speed, then slowing to rest.
    let mut left = Body { x: -1000, y: 0, vx: 2000, vy: 0, moving: true };
    let mut right = Body { x: 1000, y: 0, vx: -2000, vy: 0, moving: true };
    while !run.quit() {
        left.x += left.vx / 60;
        right.x += right.vx / 60;
        if right.x - left.x <= 1000 {
            left.vx = -1400;
            right.vx = 1400;
        } else if left.vx < 0 {
            left.vx = left.vx * 9 / 10;
            right.vx = right.vx * 9 / 10;
        }
        let tick = run.tick(&vec![left, right]).ok().unwrap();
        ticks += 1;
        assert_eq!(tick.verdicts.len(), 2);
        for verdict in tick.verdicts.iter() {
            if verdict.halt {
                left.vx = 0;
                right.vx = 0;
            }
        }
    }
    assert!(ticks >= 2);
    assert!(ticks <= 600);
    assert_eq!(run.count(), ticks);
}

#[test]
fn out_of_bounds_escape_ends_well_before_the_limit() {
    let mut run = open(&level(vec![user(9, 9, 9)]), ctx(64, 48, 600));
    let mut x = 0;
    let mut states = Vec::new();
    while !run.quit() {
        x += 30_000;
        let tick = run.tick(&vec![Body { x, y: 0, vx: 1_800_000, vy: 0, moving: true }]);
        states.push(tick.ok().unwrap().verdicts[0].state);
    }
    // 180, 210: the seventh step is the first beyond 200 units.
    assert_eq!(run.count(), 7);
    assert_eq!(states[..6], vec![MotionState::Moving; 6][..]);
    assert_eq!(states[6], MotionState::OutOfBounds);
}

#[test]
fn scene_that_never_settles_ends_one_tick_beyond_the_limit() {
    let mut run = open(&level(vec![user(9, 9, 9)]), ctx(32, 32, 5));
    let mut over = Vec::new();
    let mut lengths = Vec::new();
    while !run.quit() {
        let tick = run.tick(&vec![moving(0, 0)]).ok().unwrap();
        assert!(tick.frame.is_some());
        over.push(tick.beat.over_limit);
        lengths.push(run.stream.len());
    }
    assert_eq!(run.count(), 6);
    assert_eq!(over, vec![false, false, false, false, false, true]);
    for pair in lengths.windows(2) {
        assert!(pair[0] <= pair[1]);
    }
    assert!(lengths[0] > 0);
}

#[test]
fn limit_of_one_frame_takes_two_ticks() {
    let mut run = open(&level(vec![user(9, 9, 9)]), ctx(32, 32, 1));
    assert!(run.tick(&vec![moving(0, 0)]).is_ok());
    assert!(!run.quit());
    let tick = run.tick(&vec![moving(100, 0)]).ok().unwrap();
    assert!(tick.beat.over_limit);
    assert!(run.quit());
    assert_eq!(run.count(), 2);
}

#[test]
fn tick_on_a_run_that_is_over_does_nothing() {
    let mut run = open(&level(vec![user(9, 9, 9)]), ctx(32, 32, 10));
    run.tick(&vec![at_rest(0, 0)]).ok().unwrap();
    assert!(run.quit());
    let stream = run.stream.clone();
    let tick = run.tick(&vec![moving(0, 0)]).ok().unwrap();
    assert!(!tick.beat.ran);
    assert!(!tick.beat.over_limit);
    assert!(tick.verdicts.is_empty());
    assert!(tick.frame.is_none());
    assert_eq!(run.count(), 1);
    assert_eq!(run.stream, stream);
}

#[test]
fn stream_keeps_the_chunks_in_order() {
    let mut run = open(&level(vec![user(250, 250, 250)]), ctx(64, 48, 600));
    run.tick(&vec![moving(-1000, 0)]).ok().unwrap();
    let first = run.stream.clone();
    run.tick(&vec![moving(0, 500)]).ok().unwrap();
    let second = run.stream.clone();
    run.tick(&vec![at_rest(1000, 0)]).ok().unwrap();
    assert!(!first.is_empty());
    assert!(second.len() >= first.len());
    assert_eq!(&second[..first.len()], &first[..]);
    assert_eq!(&run.stream[..second.len()], &second[..]);
    assert_eq!(&first[..4], &[0, 0, 0, 1]);
    let whole = run.stream.clone();
    let track = run.finish();
    assert_eq!(track.stream, whole);
    assert_eq!(track.width, 64);
    assert_eq!(track.height, 48);
    assert!(!track.length_prefixed);
    assert_eq!(track.name, "Generated Video");
}

#[test]
fn same_scene_and_reports_give_the_same_stream() {
    let mut streams = Vec::new();
    for _ in 0..2 {
        let scene = LevelDescriptor {
            blocks: vec![LocationScale {
                name: "wall".to_string(),
                location: BLVec2 { x: 0, y: 500 },
                scale: BLVec2 { x: 2000, y: 200 },
            }],
            users: vec![user(10, 200, 30)],
        };
        let mut run = open(&scene, ctx(64, 48, 3));
        let mut x = -900;
        while !run.quit() {
            x += 300;
            run.tick(&vec![moving(x, 0)]).ok().unwrap();
        }
        streams.push(run.finish().stream);
    }
    assert_eq!(streams[0], streams[1]);
}

#[test]
fn actor_at_the_origin_is_drawn_on_the_middle_pixel() {
    for (width, height) in [(64u32, 48u32), (100, 60), (34, 22)] {
        let mut run = open(&level(vec![user(1, 2, 3)]), ctx(width, height, 600));
        let tick = run.tick(&vec![at_rest(0, 0)]).ok().unwrap();
        let image = tick.frame.unwrap();
        assert_eq!(pixel(&image, width / 2, height / 2), (1, 2, 3));
        assert_eq!(pixel(&image, width / 2 + 10, height / 2), (1, 2, 3));
        assert_eq!(pixel(&image, width / 2 - 10, height / 2), (1, 2, 3));
        assert_eq!(pixel(&image, width / 2 + 11, height / 2), (15, 15, 15));
        assert_eq!(pixel(&image, 0, 0), (15, 15, 15));
    }
}

#[test]
fn frame_is_drawn_from_the_reports_of_its_own_tick() {
    let mut run = open(&level(vec![user(1, 2, 3)]), ctx(64, 48, 600));
    let first = run.tick(&vec![moving(-1000, 0)]).ok().unwrap().frame.unwrap();
    let second = run.tick(&vec![moving(1000, 0)]).ok().unwrap().frame.unwrap();
    assert_eq!(pixel(&first, 12, 24), (1, 2, 3));
    assert_eq!(pixel(&first, 52, 24), (15, 15, 15));
    assert_eq!(pixel(&second, 52, 24), (1, 2, 3));
    assert_eq!(pixel(&second, 12, 24), (15, 15, 15));
}

#[test]
fn ball_out_of_bounds_is_finished_in_the_tick_that_draws_it() {
    let mut run = open(&level(vec![user(1, 2, 3), user(4, 5, 6)]), ctx(64, 48, 600));
    let tick = run
        .tick(&vec![
            Body { x: 0, y: 200_001, vx: 90_000, vy: 90_000, moving: true },
            moving(0, 0),
        ])
        .ok()
        .unwrap();
    assert_eq!(tick.verdicts[0], Verdict { state: MotionState::OutOfBounds, halt: false });
    assert!(tick.verdicts[0].state.is_finished());
    assert_eq!(tick.verdicts[1].state, MotionState::Moving);
    assert!(!run.quit());
}

#[test]
fn later_actors_cover_earlier_ones_and_the_blocks() {
    let scene = LevelDescriptor {
        blocks: vec![LocationScale {
            name: String::new(),
            location: BLVec2 { x: 0, y: 0 },
            scale: BLVec2 { x: 500, y: 500 },
        }],
        users: vec![user(255, 0, 0), user(0, 0, 255)],
    };
    let mut run = open(&scene, ctx(64, 48, 600));
    // The block's outline runs through (22, 14) .. (42, 34) on the backdrop.
    assert_eq!(run.backdrop.get_pixel(22, 14), Rgba { r: 255, g: 0, b: 0, a: 255 });
    assert_eq!(run.backdrop.get_pixel(32, 24), Rgba { r: 15, g: 15, b: 15, a: 255 });
    let image = run.tick(&vec![moving(-250, 0), moving(250, 0)]).ok().unwrap().frame.unwrap();
    // Centres at 27 and 37: the second ball lies over the first where they overlap.
    assert_eq!(pixel(&image, 32, 24), (0, 0, 255));
    assert_eq!(pixel(&image, 20, 24), (255, 0, 0));
    assert_eq!(pixel(&image, 44, 24), (0, 0, 255));
    // The outline shows where no ball lies, and is covered where one does.
    assert_eq!(pixel(&image, 22, 14), (255, 0, 0));
    assert_eq!(pixel(&image, 42, 34), (255, 0, 0));
    assert_eq!(pixel(&image, 42, 24), (0, 0, 255));
    // The backdrop itself is untouched by a tick.
    assert_eq!(run.backdrop.get_pixel(32, 24), Rgba { r: 15, g: 15, b: 15, a: 255 });
}

#[test]
fn draw_users_draws_each_in_its_own_colour() {
    let mut frame = Frame::filled(64, 48, Rgba { r: 15, g: 15, b: 15, a: 255 });
    let bodies = vec![moving(-1000, 0), moving(1000, 0)];
    let colors = vec![UserColor { r: 1, g: 2, b: 3 }, UserColor { r: 4, g: 5, b: 6 }];
    draw_users(&mut frame, &bodies, &colors, 64, 48);
    assert_eq!(frame.get_pixel(12, 24), Rgba { r: 1, g: 2, b: 3, a: 255 });
    assert_eq!(frame.get_pixel(52, 24), Rgba { r: 4, g: 5, b: 6, a: 255 });
    let mut by_hand = Frame::filled(64, 48, Rgba { r: 15, g: 15, b: 15, a: 255 });
    draw_user(&mut by_hand, &UserLoc { x: -1000, y: 0 }, Rgba { r: 1, g: 2, b: 3, a: 255 }, 64, 48);
    draw_user(&mut by_hand, &UserLoc { x: 1000, y: 0 }, Rgba { r: 4, g: 5, b: 6, a: 255 }, 64, 48);
    assert_eq!(frame.pixels, by_hand.pixels);
}

#[test]
fn backdrop_is_the_background_with_the_blocks() {
    let scene = LevelDescriptor {
        blocks: vec![LocationScale {
            name: String::new(),
            location: BLVec2 { x: 0, y: 0 },
            scale: BLVec2 { x: 1000, y: 1000 },
        }],
        users: Vec::new(),
    };
    let run = open(&scene, ctx(64, 48, 600));
    // Twice the scale each way: from 32 - 20 to 32 + 20 across, 24 -+ 20 down.
    assert_eq!(run.backdrop.get_pixel(12, 4), Rgba { r: 255, g: 0, b: 0, a: 255 });
    assert_eq!(run.backdrop.get_pixel(52, 44), Rgba { r: 255, g: 0, b: 0, a: 255 });
    assert_eq!(run.backdrop.get_pixel(22, 14), Rgba { r: 15, g: 15, b: 15, a: 255 });
    assert!(!run.failed);
    let mut by_hand = Frame::filled(64, 48, Rgba { r: 15, g: 15, b: 15, a: 255 });
    draw_blocks(&mut by_hand, &scene.blocks, 64, 48);
    assert_eq!(run.backdrop.pixels, by_hand.pixels);
    assert_eq!(run.ctx, ctx(64, 48, 600));
    assert!(run.colors.is_empty());
    assert!(run.stream.is_empty());
}

#[test]
fn error_text_names_the_kind() {
    assert_eq!(RendererError::Unspecified("a".to_string()).to_string(), "Unspecified: a");
    assert_eq!(RendererError::ConfigError("b".to_string()).to_string(), "CongifError: b");
    assert_eq!(RendererError::EncoderInit("c".to_string()).to_string(), "EncoderInit: c");
    assert_eq!(RendererError::EncodeFailure("d".to_string()).to_string(), "EncodeFailure: d");
    assert_eq!(RendererError::MuxFinalize(String::new()).to_string(), "MuxFinalize: ");
}
