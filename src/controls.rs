//! The rules behind the playback controls: which speaker icon a volume level
//! shows, and how the mute button remembers the level it silenced.

use vstd::prelude::*;

verus! {

/// The speaker icon shown for a volume level.
#[derive(Clone, Copy, Debug, PartialEq, Eq, Structural)]
pub enum VolumeIcon {
    /// Level 0.
    Muted,
    /// Levels 1 to 30.
    Low,
    /// Levels 31 to 70.
    Medium,
    /// Any other level.
    High,
}

/// The icon for level `v`.
pub open spec fn icon_for(v: int) -> VolumeIcon {
    if v == 0 {
        VolumeIcon::Muted
    } else if 1 <= v <= 30 {
        VolumeIcon::Low
    } else if 31 <= v <= 70 {
        VolumeIcon::Medium
    } else {
        VolumeIcon::High
    }
}

/// Picks the speaker icon for a volume level.
pub fn volume_icon(volume: i32) -> (r: VolumeIcon)
    ensures
        r == icon_for(volume as int),
{
    if volume == 0 {
        VolumeIcon::Muted
    } else if 1 <= volume && volume <= 30 {
        VolumeIcon::Low
    } else if 31 <= volume && volume <= 70 {
        VolumeIcon::Medium
    } else {
        VolumeIcon::High
    }
}

/// The volume slider and the level it held before it was muted.
#[derive(Clone, Copy, Debug, PartialEq, Eq, Structural)]
pub struct VolumeSlider {
    /// The level the slider shows.
    pub on_slider: i32,
    /// The level to go back to when the mute button is pressed again.
    pub before_mute: i32,
}

impl VolumeSlider {
    /// A slider at `volume`, which is also the level to unmute to.
    pub fn new(volume: i32) -> (r: Self)
        ensures
            r.on_slider == volume,
            r.before_mute == volume,
    {
        VolumeSlider { on_slider: volume, before_mute: volume }
    }

    /// The mute button: a sounding slider is remembered and set to 0; a muted
    /// one goes back to the remembered level. Returns the new level.
    pub fn toggle_mute(&mut self) -> (r: i32)
        ensures
            old(self).on_slider != 0 ==> *final(self) == (VolumeSlider {
                on_slider: 0,
                before_mute: old(self).on_slider,
            }),
            old(self).on_slider == 0 ==> *final(self) == (VolumeSlider {
                on_slider: old(self).before_mute,
                before_mute: old(self).before_mute,
            }),
            r == final(self).on_slider,
    {
        if self.on_slider != 0 {
            self.before_mute = self.on_slider;
            self.on_slider = 0;
        } else {
            self.on_slider = self.before_mute;
        }
        self.on_slider
    }

    /// The speaker icon for the slider's level.
    pub fn icon(&self) -> (r: VolumeIcon)
        ensures
            r == icon_for(self.on_slider as int),
    {
        volume_icon(self.on_slider)
    }
}

} // verus!
