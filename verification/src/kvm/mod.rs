pub mod timers;
pub mod util;
pub mod shared_memory;
pub mod sys;
pub mod bootstrap;
pub mod clock;
pub mod laws;
