//! Render configuration: output path, worker count and recursion depth,
//! with the validation the renderer applies before a run.

use vstd::prelude::*;

verus! {

/// The recursion ceiling imposed on the shading depth, guarding the stack
/// against pathological scene descriptions.
pub const MAX_DEPTH: usize = 32;

/// What a render run is asked to produce: the image path, how many worker
/// threads trace pixels, and how many reflection or refraction bounces the
/// shading kernel may take.
#[derive(Debug)]
pub struct Config {
    pub output: String,
    pub threads: usize,
    pub depth: usize,
}

/// Why a configuration was rejected.
#[derive(Clone, Copy, PartialEq, Eq, Structural, Debug)]
pub enum ConfigError {
    /// A render needs at least one worker.
    ZeroThreads,
}

impl Config {
    /// A configuration from its parts.
    pub fn new(output: String, threads: usize, depth: usize) -> (c: Config)
        ensures
            c.output == output,
            c.threads == threads,
            c.depth == depth,
    {
        Config { output, threads, depth }
    }

    /// The configuration checked against what a render can run with: a
    /// thread count of zero is rejected, and the depth is clamped to
    /// [`MAX_DEPTH`]. Everything else passes through unchanged.
    pub fn sanitized(self) -> (r: Result<Config, ConfigError>)
        ensures
            self.threads == 0 <==> r is Err,
            r is Err ==> r->Err_0 == ConfigError::ZeroThreads,
            r is Ok ==> r->Ok_0.output == self.output,
            r is Ok ==> r->Ok_0.threads == self.threads,
            r is Ok ==> r->Ok_0.depth == if self.depth > MAX_DEPTH {
                MAX_DEPTH as int
            } else {
                self.depth as int
            },
    {
        if self.threads == 0 {
            Err(ConfigError::ZeroThreads)
        } else {
            let depth: usize = if self.depth > MAX_DEPTH {
                MAX_DEPTH
            } else {
                self.depth
            };
            Ok(Config { output: self.output, threads: self.threads, depth })
        }
    }
}

impl Default for Config {
    /// One worker, no recursive bounces, writing `output.png`.
    fn default() -> (c: Config)
        ensures
            c.output@ == "output.png"@,
            c.threads == 1,
            c.depth == 0,
    {
        Config { output: "output.png".to_owned(), threads: 1, depth: 0 }
    }
}

} // verus!
