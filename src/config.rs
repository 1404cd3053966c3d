//! Engine configuration: frame rate, frame-time ceiling, input strategy and
//! screen size.
use crate::errors::EngineError;
use crate::input::InputStrategy;
use crate::time::{TimeSpan, NANOS_PER_MILLI, NANOS_PER_SEC};
use vstd::prelude::*;

verus! {

/// One setting, to be applied with `GameConfig::add_config`.
#[derive(Clone, Copy, Debug, PartialEq, Eq, Structural)]
pub enum Config {
    TargetFps(u32),
    InputStrategy(InputStrategy),
    MaxFrameTime(TimeSpan),
    DebugMode(bool),
    Vsync(bool),
    ScreenSize(u16, u16),
}

/// Settings of one run of the event loop.
#[derive(Clone, Copy, Debug, PartialEq, Eq)]
pub struct GameConfig {
    /// Fixed-timestep updates per second.
    pub target_fps: u32,
    /// How long each frame waits for input.
    pub input_strategy: InputStrategy,
    /// The most simulated time one loop iteration may account for.
    pub max_frame_time: TimeSpan,
    pub debug_mode: bool,
    pub vsync: bool,
    /// Width and height of the cell grid.
    pub screen_size: (u16, u16),
}

impl GameConfig {
    /// The configuration `new` produces.
    pub open spec fn spec_default() -> GameConfig {
        GameConfig {
            target_fps: 60,
            input_strategy: InputStrategy::NonBlocking,
            max_frame_time: TimeSpan { nanos: (50 * NANOS_PER_MILLI) as u64 },
            debug_mode: false,
            vsync: true,
            screen_size: (80, 24),
        }
    }

    /// A configuration the event loop can run with: a positive frame rate whose
    /// frame lasts at least one nanosecond, and a positive frame-time ceiling.
    pub open spec fn is_valid(&self) -> bool {
        &&& 0 < self.target_fps <= NANOS_PER_SEC
        &&& self.max_frame_time.nanos > 0
    }

    /// Length of one fixed timestep, in nanoseconds.
    pub open spec fn frame_nanos(&self) -> nat
        recommends
            self.target_fps > 0,
    {
        (NANOS_PER_SEC / (self.target_fps as u64)) as nat
    }

    /// What applying one setting makes of this configuration.
    pub open spec fn with_setting(self, c: Config) -> GameConfig {
        match c {
            Config::TargetFps(f) => GameConfig { target_fps: f, ..self },
            Config::InputStrategy(s) => GameConfig { input_strategy: s, ..self },
            Config::MaxFrameTime(t) => GameConfig { max_frame_time: t, ..self },
            Config::DebugMode(d) => GameConfig { debug_mode: d, ..self },
            Config::Vsync(v) => GameConfig { vsync: v, ..self },
            Config::ScreenSize(w, h) => GameConfig { screen_size: (w, h), ..self },
        }
    }

    /// Sixty frames per second, a 50 ms frame-time ceiling, non-blocking input,
    /// vsync on, debug off, and an 80 by 24 screen.
    pub fn new() -> (r: GameConfig)
        ensures
            r == Self::spec_default(),
    {
        GameConfig {
            target_fps: 60,
            input_strategy: InputStrategy::NonBlocking,
            max_frame_time: TimeSpan::from_millis(50),
            debug_mode: false,
            vsync: true,
            screen_size: (80, 24),
        }
    }

    pub fn with_target_fps(self, fps: u32) -> (r: GameConfig)
        ensures
            r == (GameConfig { target_fps: fps, ..self }),
    {
        GameConfig { target_fps: fps, ..self }
    }

    pub fn with_input_strategy(self, strategy: InputStrategy) -> (r: GameConfig)
        ensures
            r == (GameConfig { input_strategy: strategy, ..self }),
    {
        GameConfig { input_strategy: strategy, ..self }
    }

    pub fn with_max_frame_time(self, max_time: TimeSpan) -> (r: GameConfig)
        ensures
            r == (GameConfig { max_frame_time: max_time, ..self }),
    {
        GameConfig { max_frame_time: max_time, ..self }
    }

    pub fn with_debug_mode(self, debug: bool) -> (r: GameConfig)
        ensures
            r == (GameConfig { debug_mode: debug, ..self }),
    {
        GameConfig { debug_mode: debug, ..self }
    }

    pub fn with_vsync(self, vsync: bool) -> (r: GameConfig)
        ensures
            r == (GameConfig { vsync: vsync, ..self }),
    {
        GameConfig { vsync: vsync, ..self }
    }

    /// Applies one setting and leaves the others as they are.
    pub fn add_config(self, c: Config) -> (r: GameConfig)
        ensures
            r == self.with_setting(c),
    {
        match c {
            Config::TargetFps(f) => GameConfig { target_fps: f, ..self },
            Config::InputStrategy(s) => GameConfig { input_strategy: s, ..self },
            Config::MaxFrameTime(t) => GameConfig { max_frame_time: t, ..self },
            Config::DebugMode(d) => GameConfig { debug_mode: d, ..self },
            Config::Vsync(v) => GameConfig { vsync: v, ..self },
            Config::ScreenSize(w, h) => GameConfig { screen_size: (w, h), ..self },
        }
    }

    /// Checks the configuration before anything is built from it: a zero frame
    /// rate, a rate too high for a frame to last one nanosecond, or a zero
    /// frame-time ceiling is a configuration error.
    pub fn validate(&self) -> (r: Result<(), EngineError>)
        ensures
            r is Ok <==> self.is_valid(),
            r is Err ==> r->Err_0 is Config,
    {
        if self.target_fps == 0 {
            return Err(EngineError::Config(String::from_str("target fps must be greater than zero")));
        }
        if self.target_fps as u64 > NANOS_PER_SEC {
            return Err(EngineError::Config(String::from_str("target fps must not exceed one frame per nanosecond")));
        }
        if self.max_frame_time.is_zero() {
            return Err(EngineError::Config(String::from_str("max frame time must be greater than zero")));
        }
        Ok(())
    }

    /// One fixed timestep: a second divided by the frame rate, rounded down to
    /// whole nanoseconds.
    pub fn frame_duration(&self) -> (r: TimeSpan)
        requires
            self.target_fps > 0,
        ensures
            r.nanos == self.frame_nanos(),
    {
        TimeSpan::from_nanos(NANOS_PER_SEC / (self.target_fps as u64))
    }
}

impl Default for GameConfig {
    fn default() -> (r: GameConfig)
        ensures
            r == GameConfig::spec_default(),
    {
        GameConfig::new()
    }
}

} // verus!
