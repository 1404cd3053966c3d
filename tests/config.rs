use coil_engine::{Config, EngineError, EventLoop, GameConfig, InputStrategy, TimeSpan};

#[test]
fn test_game_config_defaults() {
    let config = GameConfig::new();
    assert_eq!(config.target_fps, 60);
    assert!(!config.debug_mode);
    assert!(config.vsync);
    assert_eq!(config.max_frame_time, TimeSpan::from_millis(50));
}

#[test]
fn test_game_config_builder() {
    let config = GameConfig::new()
        .with_target_fps(120)
        .with_debug_mode(true)
        .with_max_frame_time(TimeSpan::from_millis(100));

    assert_eq!(config.target_fps, 120);
    assert!(config.debug_mode);
    assert_eq!(config.max_frame_time, TimeSpan::from_millis(100));
}

#[test]
fn test_config_validation() {
    let valid_config = GameConfig::new();
    assert!(valid_config.validate().is_ok());

    let invalid_config = GameConfig::new().with_target_fps(0);
    assert!(invalid_config.validate().is_err());

    let zero_frame_time_config = GameConfig::new().with_max_frame_time(TimeSpan::zero());
    assert!(zero_frame_time_config.validate().is_err());
}

#[test]
fn test_frame_duration() {
    // One sixtieth and one thirtieth of a second, in whole nanoseconds.
    let config = GameConfig::new().with_target_fps(60);
    let expected = TimeSpan::from_nanos(1_000_000_000 / 60);
    assert_eq!(config.frame_duration(), expected);

    let config = GameConfig::new().with_target_fps(30);
    let expected = TimeSpan::from_nanos(1_000_000_000 / 30);
    assert_eq!(config.frame_duration(), expected);
}

#[test]
fn test_game_config_with_event_loop() {
    let config = GameConfig::new().add_config(Config::TargetFps(30));

    assert!(config.validate().is_ok());
    assert_eq!(config.target_fps, 30);
}

#[test]
fn test_event_loop_creation() {
    let config = GameConfig::new();
    match EventLoop::new(&config) {
        Ok(_) => {}
        Err(EngineError::Input(_)) => {}
        Err(e) => {
            panic!("Unexpected error type: {:?}", e);
        }
    }
}

#[test]
fn frame_duration_values() {
    assert_eq!(GameConfig::new().frame_duration().as_nanos(), 16_666_666);
    assert_eq!(GameConfig::new().with_target_fps(1).frame_duration().as_nanos(), 1_000_000_000);
    assert_eq!(GameConfig::new().with_target_fps(1000).frame_duration().as_millis(), 1);
}

#[test]
fn zero_fps_is_rejected_before_the_loop_is_built() {
    let config = GameConfig::new().with_target_fps(0);
    assert!(matches!(config.validate(), Err(EngineError::Config(_))));
    assert!(matches!(EventLoop::new(&config), Err(EngineError::Config(_))));
}

#[test]
fn zero_max_frame_time_is_a_config_error() {
    let config = GameConfig::new().with_max_frame_time(TimeSpan::zero());
    assert!(matches!(config.validate(), Err(EngineError::Config(_))));
    assert!(matches!(EventLoop::new(&config), Err(EngineError::Config(_))));
}

#[test]
fn frame_rate_beyond_clock_resolution_is_a_config_error() {
    let config = GameConfig::new().with_target_fps(1_000_000_001);
    assert!(matches!(config.validate(), Err(EngineError::Config(_))));
    assert!(GameConfig::new().with_target_fps(1_000_000_000).validate().is_ok());
}

#[test]
fn add_config_applies_each_setting() {
    let config = GameConfig::new()
        .add_config(Config::InputStrategy(InputStrategy::FrameBudgeted))
        .add_config(Config::MaxFrameTime(TimeSpan::from_millis(20)))
        .add_config(Config::DebugMode(true))
        .add_config(Config::Vsync(false))
        .add_config(Config::ScreenSize(100, 40));
    assert_eq!(config.target_fps, 60);
    assert_eq!(config.input_strategy, InputStrategy::FrameBudgeted);
    assert_eq!(config.max_frame_time, TimeSpan::from_millis(20));
    assert!(config.debug_mode);
    assert!(!config.vsync);
    assert_eq!(config.screen_size, (100, 40));
    assert_eq!(GameConfig::default(), GameConfig::new());
    assert_eq!(GameConfig::new().screen_size, (80, 24));
}

#[test]
fn builders_set_strategy_and_vsync() {
    let config = GameConfig::new()
        .with_input_strategy(InputStrategy::Timeout(TimeSpan::from_millis(5)))
        .with_vsync(false);
    assert_eq!(config.input_strategy.timeout(), TimeSpan::from_millis(5));
    assert!(!config.vsync);
}
