//! The configuration watcher's decision logic and the render settings.
//!
//! Reading the configuration file and its modification time is I/O and
//! stays outside the library; the watcher only decides, from a modification
//! time handed in, whether a new render pass is due.

use vstd::prelude::*;
use crate::sprite::CameraSettings;

verus! {

/// One render request: camera, image size, mesh source and options.
pub struct RenderSettings {
    pub just_updated: Option<bool>,
    pub camera_settings: CameraSettings,
    pub image_width: u32,
    pub image_height: u32,
    pub mesh_file: String,
    pub blacken_normal_map: bool,
}

/// Watches one configuration file: remembers the modification time of the
/// last accepted configuration.
pub struct CfgWatcher {
    file: &'static str,
    last_updated: Option<u64>,
}

/// The model of a watcher: the file name and the last accepted time.
pub struct WatchV {
    pub file: Seq<char>,
    pub last_updated: Option<int>,
}

impl View for CfgWatcher {
    type V = WatchV;

    closed spec fn view(&self) -> WatchV {
        WatchV {
            file: self.file@,
            last_updated: match self.last_updated {
                Some(t) => Some(t as int),
                None => None,
            },
        }
    }
}

impl CfgWatcher {
    /// A watcher for the given file that has accepted nothing yet.
    pub fn new(file: &'static str) -> (r: CfgWatcher)
        ensures
            r@.last_updated is None,
            r@.file == file@,
    {
        CfgWatcher { file, last_updated: None }
    }

    /// The watched file's name.
    pub fn file(&self) -> (r: &'static str)
        ensures
            r@ == self@.file,
    {
        self.file
    }

    /// Decide whether a configuration modified at `modified_at` is news:
    /// yes on the first observation and whenever it is strictly newer than
    /// the last accepted one, and then remember it.
    pub fn observe(&mut self, modified_at: u64) -> (fresh: bool)
        ensures
            fresh == match old(self)@.last_updated {
                None => true,
                Some(last) => last < modified_at as int,
            },
            final(self)@.last_updated == if fresh {
                Some(modified_at as int)
            } else {
                old(self)@.last_updated
            },
            final(self)@.file == old(self)@.file,
    {
        match self.last_updated {
            Some(last_execution) => {
                if last_execution < modified_at {
                    self.last_updated = Some(modified_at);
                    true
                } else {
                    false
                }
            },
            None => {
                self.last_updated = Some(modified_at);
                true
            },
        }
    }
}

} // verus!
