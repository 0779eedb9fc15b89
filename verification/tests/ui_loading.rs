use lazyjira::ui::components::loading::{InlineLoader, LoadingIndicator, SpinnerStyle};

#[test]
fn test_spinner_style_frames() {
    assert_eq!(SpinnerStyle::Braille.frames().len(), 10);
    assert_eq!(SpinnerStyle::Simple.frames().len(), 4);
    assert_eq!(SpinnerStyle::Dots.frames().len(), 8);
}

#[test]
fn test_loading_indicator_new() {
    let loader = LoadingIndicator::new();
    assert_eq!(loader.message(), "Loading...");
    assert!(!loader.is_active());
}

#[test]
fn test_loading_indicator_with_message() {
    let loader = LoadingIndicator::with_message("Fetching issues...");
    assert_eq!(loader.message(), "Fetching issues...");
}

#[test]
fn test_loading_indicator_with_style() {
    let loader = LoadingIndicator::new().with_style(SpinnerStyle::Simple);
    assert_eq!(loader.spinner_style, SpinnerStyle::Simple);
}

#[test]
fn test_loading_indicator_start_stop() {
    let mut loader = LoadingIndicator::new();
    assert!(!loader.is_active());

    loader.start();
    assert!(loader.is_active());

    loader.stop();
    assert!(!loader.is_active());
}

#[test]
fn test_loading_indicator_start_with_message() {
    let mut loader = LoadingIndicator::new();
    loader.start_with_message("Custom message");
    assert!(loader.is_active());
    assert_eq!(loader.message(), "Custom message");
}

#[test]
fn test_loading_indicator_tick() {
    let mut loader = LoadingIndicator::new();
    loader.start();

    let initial_frame = loader.spinner_frame();
    loader.tick();
    let next_frame = loader.spinner_frame();

    // Should advance to next frame
    assert_ne!(initial_frame, next_frame);
}

#[test]
fn test_loading_indicator_tick_inactive() {
    let mut loader = LoadingIndicator::new();
    let initial_state = loader.spinner_state;
    loader.tick();
    // Should not advance when inactive
    assert_eq!(loader.spinner_state, initial_state);
}

#[test]
fn test_loading_indicator_tick_wraps() {
    let mut loader = LoadingIndicator::new();
    loader.start();

    // Tick through all frames
    for _ in 0..SpinnerStyle::Braille.frames().len() {
        loader.tick();
    }

    // Should wrap back to first frame
    assert_eq!(loader.spinner_state, 0);
}

#[test]
fn test_loading_indicator_text() {
    let mut loader = LoadingIndicator::new();
    loader.start();
    let text = loader.text();
    assert!(text.contains("Loading..."));
}

#[test]
fn test_loading_indicator_text_inactive() {
    let loader = LoadingIndicator::new();
    let text = loader.text();
    assert!(text.is_empty());
}

#[test]
fn test_inline_loader_new() {
    let loader = InlineLoader::new();
    assert!(!loader.is_active());
}

#[test]
fn test_inline_loader_start_stop() {
    let mut loader = InlineLoader::new();
    loader.start();
    assert!(loader.is_active());

    loader.stop();
    assert!(!loader.is_active());
}

#[test]
fn test_inline_loader_tick() {
    let mut loader = InlineLoader::new();
    loader.start();

    let initial_state = loader.spinner_state;
    loader.tick();
    assert_ne!(loader.spinner_state, initial_state);
}

#[test]
fn test_inline_loader_frame() {
    let mut loader = InlineLoader::new();
    assert_eq!(loader.frame(), " "); // Inactive

    loader.start();
    let frame = loader.frame();
    assert!(SpinnerStyle::Braille.frames().contains(&frame));
}

#[test]
fn spinner_frames_exact() {
    assert_eq!(SpinnerStyle::Simple.frames(), vec!["|", "/", "-", "\\"]);
    let mut loader = LoadingIndicator::new().with_style(SpinnerStyle::Simple);
    loader.start();
    assert_eq!(loader.spinner_frame(), "|");
    loader.tick();
    assert_eq!(loader.spinner_frame(), "/");
    assert_eq!(loader.text(), "/ Loading...");
}
