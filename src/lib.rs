//! A fixed-timestep terminal application loop: frame scheduling, input
//! queueing and a double-buffered, diffing cell renderer.
pub mod clock;
pub mod config;
pub mod game;
pub mod errors;
pub mod event_loop;
pub mod input;
pub mod life;
pub mod renderer;
pub mod time;

pub use clock::FrameClock;
pub use config::{Config, GameConfig};
pub use game::Game;
pub use errors::EngineError;
pub use event_loop::{Command, EventLoop, Phase, Signal};
pub use input::{EventQueue, InputStrategy};
pub use life::{GameOfLife, Grid, PauseMenu};
pub use renderer::{BasicRenderer, Cell, CellUpdate, Color, Renderer};
pub use time::TimeSpan;
