//! The settings of the puppet source that OBS shows, and how an update from the
//! OBS properties dialog changes them.
use vstd::prelude::*;

verus! {

/// The state of a puppet source that its settings decide.
#[derive(Debug, Clone, PartialEq, Eq)]
pub struct SourceSettings {
    /// The puppet's `.ora` file, once one is chosen.
    pub path: Option<String>,
    /// The size of the texture that the puppet is drawn into, in pixels.
    pub width: u32,
    pub height: u32,
    /// The camera that the tracker watches.
    pub camera_index: u8,
    /// Whether the tracker shows the features it detects.
    pub show_features: bool,
}

/// The values that one settings update carries; `None` where the update has no value.
#[derive(Debug, Clone, PartialEq, Eq)]
pub struct SettingsUpdate {
    pub path: Option<String>,
    pub width: Option<u32>,
    pub height: Option<u32>,
    pub camera_index: Option<u8>,
    pub show_features: Option<bool>,
}

/// The settings after `update`: the path is replaced (and cleared when the update
/// has none); the size changes only when the update carries both a width and a
/// height; the camera index and the show-features flag change where the update
/// carries them.
pub open spec fn updated(old: SourceSettings, update: SettingsUpdate) -> SourceSettings {
    let (width, height) = match (update.width, update.height) {
        (Some(w), Some(h)) => (w, h),
        _ => (old.width, old.height),
    };
    SourceSettings {
        path: update.path,
        width,
        height,
        camera_index: match update.camera_index {
            Some(c) => c,
            None => old.camera_index,
        },
        show_features: match update.show_features {
            Some(s) => s,
            None => old.show_features,
        },
    }
}

impl SourceSettings {
    /// The settings of a new source before OBS hands it its saved values: no path, a
    /// 100 by 100 texture, camera 0, features not shown.
    pub fn new() -> (settings: SourceSettings)
        ensures
            settings.path is None,
            settings.width == 100,
            settings.height == 100,
            settings.camera_index == 0,
            !settings.show_features,
    {
        SourceSettings { path: None, width: 100, height: 100, camera_index: 0, show_features: false }
    }

    /// Applies an update from OBS. Returns whether the texture has to be made anew
    /// (the update carried both a width and a height).
    pub fn update(&mut self, update: SettingsUpdate) -> (resized: bool)
        ensures
            *final(self) == updated(*old(self), update),
            resized == (update.width is Some && update.height is Some),
    {
        let ghost before = *self;
        let ghost u = update;
        let SettingsUpdate { path, width, height, camera_index, show_features } = update;
        self.path = path;
        let mut resized = false;
        if let Some(w) = width {
            if let Some(h) = height {
                self.width = w;
                self.height = h;
                resized = true;
            }
        }
        if let Some(c) = camera_index {
            self.camera_index = c;
        }
        if let Some(s) = show_features {
            self.show_features = s;
        }
        proof {
            assert(*self == updated(before, u));
        }
        resized
    }
}

/// An update changes the size only when it carries both a width and a height, and
/// then to exactly those; the path becomes the update's; the camera index and the
/// show-features flag change only where the update carries them, to those values.
pub proof fn lemma_update_fields(old: SourceSettings, update: SettingsUpdate)
    ensures
        !(update.width is Some && update.height is Some) ==> updated(old, update).width
            == old.width && updated(old, update).height == old.height,
        (update.width is Some && update.height is Some) ==> updated(old, update).width
            == update.width->0 && updated(old, update).height == update.height->0,
        updated(old, update).path == update.path,
        update.camera_index is None ==> updated(old, update).camera_index == old.camera_index,
        update.camera_index matches Some(c) ==> updated(old, update).camera_index == c,
        update.show_features is None ==> updated(old, update).show_features == old.show_features,
        update.show_features matches Some(f) ==> updated(old, update).show_features == f,
{
}

/// Applying the same update twice leaves the settings as applying it once does.
pub proof fn lemma_update_idempotent(settings: SourceSettings, update: SettingsUpdate)
    ensures
        updated(updated(settings, update), update) == updated(settings, update),
{
}

/// A later update that carries every value overrides whatever an earlier one set.
pub proof fn lemma_full_update_overrides(
    settings: SourceSettings,
    first: SettingsUpdate,
    second: SettingsUpdate,
)
    requires
        second.width is Some,
        second.height is Some,
        second.camera_index is Some,
        second.show_features is Some,
    ensures
        updated(updated(settings, first), second) == updated(settings, second),
{
}

} // verus!
