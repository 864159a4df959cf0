use std::cell::Cell;

use bela::context::{Buffers, Context, FrameInfo};
use bela::error::Error;
use bela::{AppData, Bela, Phase, UserData};

type Cb<D> = fn(&mut Context<f32>, &mut D);
type SetupCb<D> = fn(&mut Context<f32>, &mut D) -> Result<(), Error>;

fn context() -> Context<f32> {
    let info = FrameInfo {
        audio_frames: 1,
        audio_in_channels: 1,
        audio_out_channels: 1,
        audio_sample_rate: 44100.0,
        analog_frames: 0,
        analog_in_channels: 0,
        analog_out_channels: 0,
        analog_sample_rate: 0.0,
        digital_frames: 1,
        digital_channels: 16,
        digital_sample_rate: 44100.0,
        audio_frames_elapsed: 0,
        multiplexer_channels: 0,
        multiplexer_starting_channel: 0,
        multiplexer_enabled: 0,
        flags: 0,
    };
    let buffers = Buffers {
        audio_in: vec![0.0],
        audio_out: vec![0.0],
        analog_in: Vec::new(),
        analog_out: Vec::new(),
        multiplexer_analog_in: Vec::new(),
        digital: vec![0],
    };
    Context::new(info, buffers).expect("sizes fit")
}

#[test]
fn new_application_is_uninitialized() {
    let b = Bela::new(3u8);
    assert_eq!(b.phase(), Phase::Uninitialized);
    assert_eq!(*b.user_data(), 3);
}

#[test]
fn start_before_init_fails_without_native_call() {
    let called = Cell::new(false);
    let mut b = Bela::new(0u32);
    let r = b.start_audio(|| {
        called.set(true);
        0
    });
    assert_eq!(r, Err(Error::Start));
    assert!(!called.get());
    assert_eq!(b.phase(), Phase::Uninitialized);
}

#[test]
fn init_status_decides() {
    let mut b = Bela::new(0u32);
    assert_eq!(b.init_audio(|_| -1), Err(Error::Init));
    assert_eq!(b.phase(), Phase::Uninitialized);
    assert_eq!(b.init_audio(|u| {
        *u = 9;
        0
    }), Ok(()));
    assert_eq!(b.phase(), Phase::Initialized);
    assert_eq!(*b.user_data(), 9);
}

#[test]
fn start_status_decides() {
    let mut b = Bela::new(());
    b.init_audio(|_| 0).unwrap();
    assert_eq!(b.start_audio(|| 1), Err(Error::Start));
    assert_eq!(b.phase(), Phase::Initialized);
    assert_eq!(b.start_audio(|| 0), Ok(()));
    assert_eq!(b.phase(), Phase::Running);
}

#[test]
fn stop_and_cleanup_always_reach_native() {
    let calls = Cell::new(0);
    let mut b = Bela::new(());
    b.init_audio(|_| 0).unwrap();
    b.start_audio(|| 0).unwrap();
    assert!(!b.should_stop(|| 0));
    assert!(b.should_stop(|| 2));
    b.stop_audio(|| calls.set(calls.get() + 1));
    assert_eq!(b.phase(), Phase::Stopped);
    b.stop_audio(|| calls.set(calls.get() + 1));
    assert_eq!(b.phase(), Phase::Stopped);
    b.cleanup_audio(|| calls.set(calls.get() + 1));
    assert_eq!(b.phase(), Phase::Stopped);
    b.cleanup_audio(|| calls.set(calls.get() + 1));
    assert_eq!(b.phase(), Phase::Stopped);
    assert_eq!(calls.get(), 4);
    // Cleanup keeps the application initialized: start goes to the native layer.
    let started = Cell::new(false);
    assert_eq!(b.start_audio(|| {
        started.set(true);
        0
    }), Ok(()));
    assert!(started.get());
    assert_eq!(b.phase(), Phase::Running);
}

#[test]
fn cleanup_before_init_keeps_uninitialized() {
    let mut b = Bela::new(());
    b.cleanup_audio(|| {});
    assert_eq!(b.phase(), Phase::Uninitialized);
    assert_eq!(b.start_audio(|| 0), Err(Error::Start));
}

#[test]
fn render_counter_counts_and_wraps() {
    let render: Cb<usize> = |_c, n| *n = n.wrapping_add(1);
    let mut app = AppData::new(0usize, render, None::<SetupCb<usize>>, None::<Cb<usize>>);
    let mut c = context();
    for _ in 0..1024 {
        app.render_fn(&mut c);
    }
    assert_eq!(app.data, 1024);

    let mut app = AppData::new(usize::MAX, render, None::<SetupCb<usize>>, None::<Cb<usize>>);
    app.render_fn(&mut c);
    assert_eq!(app.data, 0);
    for _ in 0..1023 {
        app.render_fn(&mut c);
    }
    assert_eq!(app.data, 1023);
}

#[test]
fn failing_setup_fails_init_and_never_renders() {
    let renders = Cell::new(0u32);
    let mut render = |_c: &mut Context<f32>, _d: &mut u8| renders.set(renders.get() + 1);
    let mut setup = |_c: &mut Context<f32>, _d: &mut u8| -> Result<(), Error> { Err(Error::Init) };
    let app = AppData::new(0u8, &mut render, Some(&mut setup), None::<Cb<u8>>);
    let mut b = Bela::new(app);
    // A native layer that runs setup and goes on to render only if it succeeded.
    let r = b.init_audio(|ud| {
        let mut c = context();
        match ud.setup_fn(&mut c) {
            Ok(()) => {
                ud.render_fn(&mut c);
                0
            }
            Err(_) => 1,
        }
    });
    assert_eq!(r, Err(Error::Init));
    assert_eq!(b.phase(), Phase::Uninitialized);
    assert_eq!(renders.get(), 0);
}

#[test]
fn missing_setup_succeeds_and_cleanup_runs() {
    let cleaned = Cell::new(false);
    let render: Cb<u8> = |_c, _d| {};
    let mut cleanup = |_c: &mut Context<f32>, d: &mut u8| {
        *d = 42;
        cleaned.set(true);
    };
    let mut app = AppData::new(1u8, render, None::<SetupCb<u8>>, Some(&mut cleanup));
    let mut c = context();
    assert_eq!(app.setup_fn(&mut c), Ok(()));
    app.cleanup_fn(&mut c);
    assert!(cleaned.get());
    assert_eq!(app.data, 42);
}

#[test]
fn setters_replace_callbacks() {
    let first: Cb<u32> = |_c, d| *d += 1;
    let second: Cb<u32> = |_c, d| *d += 10;
    let ok: SetupCb<u32> = |_c, _d| Ok(());
    let fail: SetupCb<u32> = |_c, _d| Err(Error::Init);
    let mut b = Bela::new(AppData::new(0u32, first, Some(ok), None::<Cb<u32>>));
    b.set_render(second);
    b.set_setup(fail);
    b.set_cleanup(first);
    let mut c = context();
    b.user_data_mut().render_fn(&mut c);
    assert_eq!(b.user_data().data, 10);
    assert_eq!(b.user_data_mut().setup_fn(&mut c), Err(Error::Init));
    b.user_data_mut().cleanup_fn(&mut c);
    assert_eq!(b.user_data().data, 11);
}

#[test]
fn app_data_setters() {
    let first: Cb<u32> = |_c, d| *d += 1;
    let second: Cb<u32> = |_c, d| *d += 2;
    let fail: SetupCb<u32> = |_c, _d| Err(Error::Start);
    let mut app = AppData::new(0u32, first, None::<SetupCb<u32>>, None::<Cb<u32>>);
    app.set_render_fn(second);
    app.set_setup_fn(Some(fail));
    app.set_cleanup_fn(Some(second));
    let mut c = context();
    app.render_fn(&mut c);
    app.cleanup_fn(&mut c);
    assert_eq!(app.data, 4);
    assert_eq!(app.setup_fn(&mut c), Err(Error::Start));
    app.set_setup_fn(None);
    assert_eq!(app.setup_fn(&mut c), Ok(()));
}

#[test]
fn error_messages() {
    assert_eq!(Error::Init.message(), "Error: Init.");
    assert_eq!(Error::Start.message(), "Error: Start.");
    assert_eq!(Error::Stop.message(), "Error: Stop.");
    assert_eq!(Error::Cleanup.message(), "Error: Cleanup.");
    assert_eq!(Error::Task.message(), "Error: Task.");
}

#[test]
fn error_descriptions() {
    assert_eq!(Error::Init.description(), "Bela_initAudio error");
    assert_eq!(Error::Start.description(), "Bela_startAudio error");
    assert_eq!(Error::Stop.description(), "Bela_stopAudio error");
    assert_eq!(Error::Cleanup.description(), "Bela_cleanupAudio error");
    assert_eq!(Error::Task.description(), "Bela_scheduleAuxiliaryTask error");
}
