//! How many threads the runtime gets and how many downloads run at once.

use vstd::prelude::*;

verus! {

/// The worker threads of the runtime.
#[derive(Clone, Copy, Debug)]
pub enum Threads {
    /// As many as the machine runs in parallel.
    Auto,
    /// This many, but at least one.
    Fixed(usize),
}

impl Threads {
    /// The number of worker threads on a machine that runs `available` threads in parallel, or
    /// that does not say how many.
    pub open spec fn count(self, available: Option<usize>) -> usize {
        match self {
            Threads::Auto => match available {
                Some(n) => n,
                None => 4,
            },
            Threads::Fixed(n) => if n > 1 {
                n
            } else {
                1
            },
        }
    }

    /// The number of worker threads.
    pub fn resolve(self, available: Option<usize>) -> (threads: usize)
        requires
            available != Some(0usize),
        ensures
            threads == self.count(available),
            threads >= 1,
    {
        match self {
            Threads::Auto => match available {
                Some(n) => n,
                None => 4,
            },
            Threads::Fixed(n) => if n > 1 {
                n
            } else {
                1
            },
        }
    }
}

/// What a downloader is built from: two independent knobs.
#[derive(Clone, Copy, Debug)]
pub struct Settings {
    pub threads: Threads,
    pub max_concurrent: usize,
}

impl Default for Settings {
    fn default() -> (settings: Self)
        ensures
            settings.threads == Threads::Auto,
            settings.max_concurrent == 3,
    {
        Settings { threads: Threads::Auto, max_concurrent: 3 }
    }
}

} // verus!
