use vstd::prelude::*;

verus! {

/// Nominal length given to a track whose length cannot be read: three minutes.
pub const DEFAULT_DURATION_MS: u64 = 180000;

/// One playable item: display name, location handed to the audio engine, and
/// nominal length in milliseconds.
#[derive(Clone, Debug)]
pub struct Song {
    pub name: String,
    pub path: String,
    pub duration_ms: u64,
}

impl Song {
    pub fn new(name: String, path: String, duration_ms: u64) -> (r: Song)
        ensures
            r.name@ == name@,
            r.path@ == path@,
            r.duration_ms == duration_ms,
    {
        Song { name, path, duration_ms }
    }
}

} // verus!
