//! A radio station as the station directory describes it.

use vstd::prelude::*;

verus! {

/// The data associated with a radio station: its stream URLs, its name and
/// the directory's bookkeeping about it.
#[derive(Debug)]
pub struct Station {
    pub stationuuid: String,
    pub name: String,
    pub url: String,
    pub url_resolved: String,
    pub homepage: String,
    pub favicon: String,
    pub tags: String,
    pub country: String,
    pub state: String,
    pub language: String,
    pub votes: i32,
    pub lastchangetime: String,
    pub codec: String,
    pub bitrate: u32,
    pub lastcheckoktime: String,
    pub clicktimestamp: String,
    pub clickcount: u32,
    pub clicktrend: i32,
}

impl Station {
    /// The URL to stream: the directory's resolved one, which follows the
    /// playlist or redirect that `url` may point to.
    pub fn stream_url(&self) -> (r: &str)
        ensures
            r@ == self.url_resolved@,
    {
        self.url_resolved.as_str()
    }
}

} // verus!
