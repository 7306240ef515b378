use vstd::prelude::*;

verus! {

/// How a run is to be executed: for how many rendered frames, and whether the
/// guest is reset before the first of them.
#[derive(Clone, Copy, Debug, PartialEq, Eq)]
pub struct AppConfig {
    /// The number of rendered frames after which the run stops; `None` lets it
    /// go on until the guest asks to stop.
    pub num_frames: Option<usize>,
    /// Whether the guest's start-reset hook is called when the run begins.
    pub reset_on_start: bool,
}

impl AppConfig {
    /// The standard policy: no frame budget, and a reset when the run begins.
    pub fn new() -> (config: Self)
        ensures
            config.num_frames is None,
            config.reset_on_start,
    {
        AppConfig { num_frames: None, reset_on_start: true }
    }

    /// The same policy with the frame budget replaced by `x`.
    pub fn frames(self, x: Option<usize>) -> (config: Self)
        ensures
            config.num_frames == x,
            config.reset_on_start == self.reset_on_start,
    {
        AppConfig { num_frames: x, reset_on_start: self.reset_on_start }
    }

    /// The same policy with the reset at the start switched on or off.
    pub fn reset_when_run(self, doit: bool) -> (config: Self)
        ensures
            config.num_frames == self.num_frames,
            config.reset_on_start == doit,
    {
        AppConfig { num_frames: self.num_frames, reset_on_start: doit }
    }
}

} // verus!
