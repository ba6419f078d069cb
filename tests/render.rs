use wallpaper_core::controller::{OpenGLRenderer, WallpaperController};
use wallpaper_core::error::RenderError;
use wallpaper_core::pacing::Pacer;
use wallpaper_core::pixels::{convert_sample, copy_sample, frame_buffer, swap_red_blue};
use wallpaper_core::render::{Phase, RenderWorker, TickAction};
use wallpaper_core::source::{pull_action, Clip, PullAction, ReadOutcome};
use wallpaper_core::stream::{frame_duration_ns, split_packed, Negotiation, PixelFormat, StreamInfo};
use wallpaper_core::surface::{
    background_ex_style, embed_outcome, is_worker_layer, Release, Surface,
};

const MS: u64 = 1_000_000;

fn packed(high: u64, low: u64) -> u64 {
    (high << 32) | low
}

fn test_clip(frames: usize) -> Vec<Option<Vec<u8>>> {
    (0..frames).map(|i| Some(vec![i as u8; 8])).collect()
}

#[test]
fn clip_24fps_loops_after_ten_frames() {
    let info = StreamInfo::from_attributes(packed(4, 2), Some(packed(24, 1)));
    assert_eq!(info.frame_duration(), 41_666_666);
    assert!(info.frame_duration() > 41 * MS && info.frame_duration() < 42 * MS);
    let mut clip = Clip::open(info, test_clip(10)).unwrap();
    let pulled: Vec<Vec<u8>> = (0..15).map(|_| clip.next_frame().unwrap()).collect();
    for k in 0..5 {
        assert_eq!(pulled[10 + k], pulled[k]);
    }
    assert_eq!(pulled[9], vec![9u8; 8]);
    assert_eq!(pulled[10], vec![0u8; 8]);
}

#[test]
fn stream_info_is_stable_across_pulls() {
    let info = StreamInfo::from_attributes(packed(1920, 1080), Some(packed(30000, 1001)));
    let mut clip = Clip::open(info, test_clip(3)).unwrap();
    for _ in 0..7 {
        let _ = clip.next_frame();
        assert_eq!(clip.info().native_resolution(), (1920, 1080));
        assert_eq!(clip.info().frame_duration(), 33_366_666);
    }
    assert_eq!(clip.frame_count(), 3);
}

#[test]
fn nonexistent_file_fails_to_open_synchronously() {
    let started = OpenGLRenderer::new("C:/no/such/video.mp4".to_string(), false);
    assert_eq!(started.err(), Some(RenderError::OpenFailed));
    let mut controller = WallpaperController::new();
    let result = controller.start("C:/no/such/video.mp4".to_string(), false);
    assert_eq!(result.err(), Some(RenderError::OpenFailed));
    assert!(!controller.is_active());
    assert_eq!(RenderError::OpenFailed.message(), "could not open the video file");
}

#[test]
fn corrupted_frame_is_skipped_and_playback_goes_on() {
    let mut frames = test_clip(5);
    frames[2] = None;
    let info = StreamInfo::from_attributes(packed(2, 1), Some(packed(25, 1)));
    let mut clip = Clip::open(info, frames).unwrap();
    let mut screen: Vec<u8> = vec![0xff; 8];
    let mut results = Vec::new();
    for _ in 0..5 {
        match clip.next_frame() {
            Ok(frame) => {
                copy_sample(&mut screen, &frame);
                results.push(true);
            }
            Err(e) => {
                assert_eq!(e, RenderError::TransientDecodeError);
                assert!(!e.is_fatal());
                assert_eq!(screen, vec![1u8; 8]);
                results.push(false);
            }
        }
    }
    assert_eq!(results, vec![true, true, false, true, true]);
    assert_eq!(screen, vec![4u8; 8]);
    assert_eq!(clip.next_frame().unwrap(), vec![0u8; 8]);
}

#[test]
fn empty_clip_cannot_be_opened() {
    let info = StreamInfo::from_attributes(0, None);
    assert_eq!(Clip::open(info, Vec::new()).err(), Some(RenderError::OpenFailed));
}

#[test]
fn degenerate_rates_fall_back_to_thirty_fps() {
    assert_eq!(frame_duration_ns(30, 0), 33_333_333);
    assert_eq!(frame_duration_ns(0, 1), 33_333_333);
    assert_eq!(frame_duration_ns(30, 1), 33_333_333);
    assert_eq!(frame_duration_ns(60, 1), 16_666_666);
    let info = StreamInfo::from_attributes(packed(640, 480), None);
    assert_eq!(info.frame_duration(), 33_333_333);
    assert_eq!(info.native_resolution(), (640, 480));
    assert_eq!(split_packed(packed(7, 9)), (7, 9));
}

#[test]
fn negotiation_takes_first_accepted_format() {
    let mut n = Negotiation::start();
    assert_eq!(n.pending_format(), Some(PixelFormat::Rgb32));
    n = n.record(false);
    assert_eq!(n.pending_format(), Some(PixelFormat::Rgb24));
    n = n.record(false);
    assert_eq!(n.pending_format(), Some(PixelFormat::Nv12));
    n = n.record(true);
    assert_eq!(n, Negotiation::Settled(PixelFormat::Nv12));
    assert_eq!(n.record(false), n);
}

#[test]
fn negotiation_exhausts_when_nothing_is_accepted() {
    let mut n = Negotiation::start();
    for _ in 0..4 {
        n = n.record(false);
    }
    assert_eq!(n, Negotiation::Exhausted);
    assert_eq!(n.pending_format(), None);
}

#[test]
fn pacer_never_grants_faster_than_the_frame_rate() {
    let d = 40 * MS;
    let mut pacer = Pacer::new(d, 0);
    let mut granted = Vec::new();
    let mut now = 0;
    while now <= 1000 * MS {
        if pacer.take_slot(now) {
            granted.push(now);
        }
        now += 10 * MS;
    }
    assert_eq!(granted.len(), 25);
    assert_eq!(granted[0], 40 * MS);
    for w in granted.windows(2) {
        assert!(w[1] - w[0] >= d);
    }
    let window = 200 * MS;
    for start in (0..=1000 * MS).step_by((10 * MS) as usize) {
        let inside = granted.iter().filter(|&&t| t >= start && t <= start + window).count() as u64;
        assert!(inside <= window / d + 1);
    }
}

#[test]
fn pacer_is_due_only_after_one_duration() {
    let pacer = Pacer::new(100, 1000);
    assert!(!pacer.is_due(1099));
    assert!(pacer.is_due(1100));
    assert!(!pacer.is_due(10));
}

#[test]
fn stop_reaches_stopped_within_one_iteration() {
    let mut worker = RenderWorker::new();
    assert_eq!(worker.phase(), Phase::Starting);
    let info = StreamInfo::from_attributes(packed(2, 2), Some(packed(25, 1)));
    worker.finish_start(Ok(info), 0);
    assert_eq!(worker.phase(), Phase::Running);
    assert_eq!(worker.tick(false, false, 10 * MS), TickAction::Idle);
    assert_eq!(worker.tick(false, false, 40 * MS), TickAction::DrawFrame);
    assert_eq!(worker.tick(true, false, 100 * MS), TickAction::Teardown);
    assert_eq!(worker.phase(), Phase::Stopping);
    worker.finish_teardown(None);
    assert_eq!(worker.phase(), Phase::Stopped);
    assert_eq!(worker.failure(), None);
}

#[test]
fn quit_message_ends_the_session() {
    let mut worker = RenderWorker::new();
    worker.finish_start(Ok(StreamInfo::from_attributes(0, None)), 0);
    assert_eq!(worker.tick(false, true, 1), TickAction::Teardown);
    assert_eq!(worker.phase(), Phase::Stopping);
}

#[test]
fn start_failure_stops_with_the_error() {
    let mut worker = RenderWorker::new();
    worker.finish_start(Err(RenderError::ShellIntegrationFailed), 0);
    assert_eq!(worker.phase(), Phase::Stopped);
    assert_eq!(worker.failure(), Some(RenderError::ShellIntegrationFailed));
}

#[test]
fn surface_failure_is_fatal() {
    let mut worker = RenderWorker::new();
    worker.finish_start(Ok(StreamInfo::from_attributes(0, None)), 0);
    worker.on_surface_failure();
    assert_eq!(worker.phase(), Phase::Stopping);
    worker.finish_teardown(Some(RenderError::SurfaceFailure));
    assert_eq!(worker.failure(), Some(RenderError::SurfaceFailure));
    assert!(RenderError::SurfaceFailure.is_fatal());
}

#[test]
fn read_outcomes_map_to_actions() {
    assert_eq!(pull_action(ReadOutcome::Sample), PullAction::Present);
    assert_eq!(pull_action(ReadOutcome::EndOfStream), PullAction::ReopenAndRead);
    assert_eq!(pull_action(ReadOutcome::Failed), PullAction::SkipTick);
    assert_eq!(RenderWorker::new().on_read(ReadOutcome::Failed), PullAction::SkipTick);
}

#[test]
fn destroying_or_stopping_twice_is_harmless() {
    let mut surface = Surface::create(1920, 1080);
    assert_eq!(surface.destroy(), Release::DeviceAndWindow);
    assert_eq!(surface.destroy(), Release::Nothing);
    assert!(surface.destroyed);

    let mut controller = WallpaperController::new();
    assert!(controller.start("a.mp4".to_string(), true).unwrap().is_none());
    let first = controller.stop().unwrap();
    assert!(first.should_stop());
    assert!(controller.stop().is_none());

    let mut session = OpenGLRenderer::new("b.mp4".to_string(), true).unwrap();
    session.stop();
    session.stop();
    assert!(session.should_stop());
    assert_eq!(session.video_path(), "b.mp4");
}

#[test]
fn starting_again_stops_the_previous_session() {
    let mut controller = WallpaperController::new();
    assert!(controller.start("a.mp4".to_string(), true).unwrap().is_none());
    let previous = controller.start("b.mp4".to_string(), true).unwrap().unwrap();
    assert!(previous.should_stop());
    assert_eq!(previous.video_path(), "a.mp4");
    assert!(controller.is_active());
}

#[test]
fn embedding_needs_shell_and_worker_layer() {
    assert_eq!(embed_outcome(true, true), Ok(()));
    assert_eq!(embed_outcome(false, true), Err(RenderError::ShellIntegrationFailed));
    assert_eq!(embed_outcome(true, false), Err(RenderError::ShellIntegrationFailed));
    assert!(is_worker_layer(&"WorkerW".to_string(), true));
    assert!(!is_worker_layer(&"WorkerW".to_string(), false));
    assert!(!is_worker_layer(&"Progman".to_string(), true));
    let mut surface = Surface::create(800, 600);
    surface.record_embedding(Err(RenderError::ShellIntegrationFailed));
    assert!(!surface.embedded);
    surface.record_embedding(Ok(()));
    assert!(surface.embedded);
}

#[test]
fn tool_window_style_bits() {
    assert_eq!(background_ex_style(0), 0x80);
    assert_eq!(background_ex_style(0x0004_0000), 0x80);
    assert_eq!(background_ex_style(0x0004_0108), 0x188);
}

#[test]
fn channel_swap_and_copy() {
    let mut frame = vec![1, 2, 3, 4, 5, 6, 7, 8, 9, 10];
    swap_red_blue(&mut frame);
    assert_eq!(frame, vec![3, 2, 1, 4, 7, 6, 5, 8, 9, 10]);
    let mut buffer = frame_buffer(1, 2);
    assert_eq!(buffer, vec![0u8; 8]);
    copy_sample(&mut buffer, &[9, 9, 9]);
    assert_eq!(buffer, vec![9, 9, 9, 0, 0, 0, 0, 0]);
    copy_sample(&mut buffer, &[1; 20]);
    assert_eq!(buffer, vec![1u8; 8]);
}

#[test]
fn finished_negotiation_outcomes() {
    assert_eq!(Negotiation::Settled(PixelFormat::Yuy2).outcome(), Ok(PixelFormat::Yuy2));
    assert_eq!(Negotiation::Exhausted.outcome(), Err(RenderError::OpenFailed));
    assert_eq!(Negotiation::start().outcome(), Err(RenderError::OpenFailed));
}

#[test]
fn start_failure_reaches_the_caller() {
    let mut session = OpenGLRenderer::new("a.mp4".to_string(), true).unwrap();
    assert_eq!(session.start_failure(), None);
    session.record_start(Err(RenderError::ShellIntegrationFailed));
    assert_eq!(session.start_failure(), Some(RenderError::ShellIntegrationFailed));
    assert!(session.should_stop());

    let mut controller = WallpaperController::new();
    controller.start("a.mp4".to_string(), true).unwrap();
    assert_eq!(controller.record_start(Ok(())), Ok(()));
    assert!(controller.is_active());
    assert_eq!(
        controller.record_start(Err(RenderError::SurfaceFailure)),
        Err(RenderError::SurfaceFailure)
    );
    assert!(!controller.is_active());
}

#[test]
fn samples_are_converted_per_format() {
    // 32-bit: blue, green, red kept, fourth byte cleared.
    let mut buffer = frame_buffer(2, 1);
    convert_sample(&mut buffer, PixelFormat::Rgb32, &[1, 2, 3, 4, 5, 6, 7, 8], 2, 1);
    assert_eq!(buffer, vec![1, 2, 3, 0, 5, 6, 7, 0]);
    // 24-bit: three bytes a pixel widened to four.
    let mut buffer = frame_buffer(2, 1);
    convert_sample(&mut buffer, PixelFormat::Rgb24, &[1, 2, 3, 4, 5, 6], 2, 1);
    assert_eq!(buffer, vec![1, 2, 3, 0, 4, 5, 6, 0]);
    // A short sample leaves the missing pixel as it was.
    let mut buffer = vec![9u8; 8];
    convert_sample(&mut buffer, PixelFormat::Rgb24, &[1, 2, 3], 2, 1);
    assert_eq!(buffer, vec![1, 2, 3, 0, 9, 9, 9, 9]);
    // NV12 white and black: luma 235 and 16 with neutral chroma.
    let mut buffer = frame_buffer(2, 2);
    convert_sample(&mut buffer, PixelFormat::Nv12, &[235, 16, 235, 16, 128, 128], 2, 2);
    assert_eq!(buffer, vec![255, 255, 255, 0, 0, 0, 0, 0, 255, 255, 255, 0, 0, 0, 0, 0]);
    // YUY2: two pixels share the chroma.
    let mut buffer = frame_buffer(2, 1);
    convert_sample(&mut buffer, PixelFormat::Yuy2, &[16, 128, 235, 128], 2, 1);
    assert_eq!(buffer, vec![0, 0, 0, 0, 255, 255, 255, 0]);
    assert_eq!(wallpaper_core::pixels::yuv_pixel(81, 90, 240), (0, 0, 255));
}
