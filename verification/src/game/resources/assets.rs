//! The sounds and pictures of the match, by name.

use vstd::prelude::*;

verus! {

/// A sound or a picture that the front end loads for the match.
#[derive(Debug, Clone, Copy, PartialEq, Eq, Hash, Structural)]
pub enum Asset {
    MainThemeAudio,
    MenuAudio,
    ClickAudio,
    MenuTransitionAudio,
    ShootAudio,
    DodgeAudio,
    BuffAudio,
    DamageAudio,
    StateChangeAudio,
    HandSpritesheet,
    BgSprite,
    HealthSpritesheet,
    ManaSpritesheet,
    StaminaSpritesheet,
}

impl Asset {
    /// Where the asset lies, below the directory of assets.
    pub fn path(&self) -> (path: &'static str)
        ensures
            path@ == self.spec_path(),
    {
        match *self {
            Asset::MainThemeAudio => "audios/main-theme.wav",
            Asset::MenuAudio => "audios/menu-audio.wav",
            Asset::ClickAudio => "audios/click.wav",
            Asset::MenuTransitionAudio => "audios/menu-transition.wav",
            Asset::ShootAudio => "audios/shoot.wav",
            Asset::DodgeAudio => "audios/dodge.wav",
            Asset::BuffAudio => "audios/buff.wav",
            Asset::DamageAudio => "audios/damage.wav",
            Asset::StateChangeAudio => "audios/state-change.wav",
            Asset::HandSpritesheet => "images/hand_spritesheet.png",
            Asset::BgSprite => "images/bg.png",
            Asset::HealthSpritesheet => "images/health.png",
            Asset::ManaSpritesheet => "images/mana.png",
            Asset::StaminaSpritesheet => "images/stamina.png",
        }
    }

    /// The path of the asset as a sequence of characters.
    pub open spec fn spec_path(&self) -> Seq<char> {
        match *self {
            Asset::MainThemeAudio => "audios/main-theme.wav"@,
            Asset::MenuAudio => "audios/menu-audio.wav"@,
            Asset::ClickAudio => "audios/click.wav"@,
            Asset::MenuTransitionAudio => "audios/menu-transition.wav"@,
            Asset::ShootAudio => "audios/shoot.wav"@,
            Asset::DodgeAudio => "audios/dodge.wav"@,
            Asset::BuffAudio => "audios/buff.wav"@,
            Asset::DamageAudio => "audios/damage.wav"@,
            Asset::StateChangeAudio => "audios/state-change.wav"@,
            Asset::HandSpritesheet => "images/hand_spritesheet.png"@,
            Asset::BgSprite => "images/bg.png"@,
            Asset::HealthSpritesheet => "images/health.png"@,
            Asset::ManaSpritesheet => "images/mana.png"@,
            Asset::StaminaSpritesheet => "images/stamina.png"@,
        }
    }
}

} // verus!
