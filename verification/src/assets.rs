//! The keys of the images and sounds, and where each of them is found.

use vstd::prelude::*;

verus! {

#[derive(Copy, Clone, Eq, PartialEq, Hash, Debug, Structural)]
pub enum ImageKey {
    Creatures,
    Fish,
    Features,
    RainDrop,
    Icons,
    SpaceBar,
    Logo,
    PlayButton,
    CreditsButton,
    ExitButton,
    Ships,
    BlackPixel,
    Credits,
}

#[derive(Copy, Clone, Eq, PartialEq, Hash, Debug, Structural)]
pub enum SfxKey {
    ButtonHover,
    ButtonPress,
    WhaleBreath,
    WhaleBreach,
    Gull,
    ShipAmbient,
    ShipHorn,
    OceanAmbient,
    RainAmbient,
    AdultWhaleSong,
    BabyWhaleSong,
}

#[derive(Copy, Clone, Eq, PartialEq, Hash, Debug, Structural)]
pub enum SoundtrackKey {
    Menu,
    Gameplay,
}

/// The path of an image below the assets directory.
pub open spec fn image_path(key: ImageKey) -> Seq<char> {
    match key {
        ImageKey::Credits => "images/credits.png"@,
        ImageKey::Icons => "images/icons.png"@,
        ImageKey::SpaceBar => "images/space_bar.png"@,
        ImageKey::RainDrop => "images/rain.png"@,
        ImageKey::Fish => "images/fish.png"@,
        ImageKey::Logo => "images/logo.png"@,
        ImageKey::PlayButton => "images/play_button.png"@,
        ImageKey::CreditsButton => "images/credits_button.png"@,
        ImageKey::ExitButton => "images/exit_button.png"@,
        ImageKey::Creatures => "images/creatures.png"@,
        ImageKey::Features => "images/features.png"@,
        ImageKey::Ships => "images/ships.png"@,
        ImageKey::BlackPixel => "images/black_pixel.png"@,
    }
}

/// The path of a sound effect below the assets directory.
pub open spec fn sfx_path(key: SfxKey) -> Seq<char> {
    match key {
        SfxKey::WhaleBreath => "audio/sfx/whale_breath.ogg"@,
        SfxKey::AdultWhaleSong => "audio/sfx/498708__mbari_mars__mars_20161221h00_hs2p1_2.ogg"@,
        SfxKey::BabyWhaleSong => "audio/sfx/498708__mbari_mars__mars_20161221h00_hs2p1.ogg"@,
        SfxKey::Gull => "audio/sfx/166707__snapper4298__seagull-2.ogg"@,
        SfxKey::WhaleBreach => "audio/sfx/563021__cookiespolicy__water-puddle-splash.ogg"@,
        SfxKey::ButtonHover => "audio/sfx/button_hover.ogg"@,
        SfxKey::OceanAmbient => "audio/sfx/ocean_ambient.ogg"@,
        SfxKey::ButtonPress => "audio/sfx/button_press.ogg"@,
        SfxKey::ShipAmbient => "audio/sfx/ship_noise.ogg"@,
        SfxKey::ShipHorn => "audio/sfx/ship_horn.ogg"@,
        SfxKey::RainAmbient => "audio/sfx/501242__shelbyshark__lightrainthunder.ogg"@,
    }
}

/// The path of a soundtrack below the assets directory.
pub open spec fn soundtrack_path(key: SoundtrackKey) -> Seq<char> {
    match key {
        SoundtrackKey::Menu => "audio/soundtracks/calm_winds.ogg"@,
        SoundtrackKey::Gameplay => "audio/soundtracks/menu_score.ogg"@,
    }
}

impl ImageKey {
    /// Where the image is loaded from.
    pub fn path(&self) -> (path: &'static str)
        ensures
            path@ == image_path(*self),
    {
        match self {
            ImageKey::Credits => "images/credits.png",
            ImageKey::Icons => "images/icons.png",
            ImageKey::SpaceBar => "images/space_bar.png",
            ImageKey::RainDrop => "images/rain.png",
            ImageKey::Fish => "images/fish.png",
            ImageKey::Logo => "images/logo.png",
            ImageKey::PlayButton => "images/play_button.png",
            ImageKey::CreditsButton => "images/credits_button.png",
            ImageKey::ExitButton => "images/exit_button.png",
            ImageKey::Creatures => "images/creatures.png",
            ImageKey::Features => "images/features.png",
            ImageKey::Ships => "images/ships.png",
            ImageKey::BlackPixel => "images/black_pixel.png",
        }
    }

    /// Every image.
    pub fn all() -> (keys: [ImageKey; 13])
        ensures
            forall|key: ImageKey| #[trigger] keys@.contains(key),
    {
        let keys = [
            ImageKey::Credits,
            ImageKey::Icons,
            ImageKey::SpaceBar,
            ImageKey::RainDrop,
            ImageKey::Fish,
            ImageKey::Logo,
            ImageKey::PlayButton,
            ImageKey::CreditsButton,
            ImageKey::ExitButton,
            ImageKey::Creatures,
            ImageKey::Features,
            ImageKey::Ships,
            ImageKey::BlackPixel,
        ];
        assert forall|key: ImageKey| #[trigger] keys@.contains(key) by {
            let i: int = match key {
                ImageKey::Credits => 0,
                ImageKey::Icons => 1,
                ImageKey::SpaceBar => 2,
                ImageKey::RainDrop => 3,
                ImageKey::Fish => 4,
                ImageKey::Logo => 5,
                ImageKey::PlayButton => 6,
                ImageKey::CreditsButton => 7,
                ImageKey::ExitButton => 8,
                ImageKey::Creatures => 9,
                ImageKey::Features => 10,
                ImageKey::Ships => 11,
                ImageKey::BlackPixel => 12,
            };
            assert(keys@[i] == key);
        }
        keys
    }
}

impl SfxKey {
    /// Where the sound effect is loaded from.
    pub fn path(&self) -> (path: &'static str)
        ensures
            path@ == sfx_path(*self),
    {
        match self {
            SfxKey::WhaleBreath => "audio/sfx/whale_breath.ogg",
            SfxKey::AdultWhaleSong => "audio/sfx/498708__mbari_mars__mars_20161221h00_hs2p1_2.ogg",
            SfxKey::BabyWhaleSong => "audio/sfx/498708__mbari_mars__mars_20161221h00_hs2p1.ogg",
            SfxKey::Gull => "audio/sfx/166707__snapper4298__seagull-2.ogg",
            SfxKey::WhaleBreach => "audio/sfx/563021__cookiespolicy__water-puddle-splash.ogg",
            SfxKey::ButtonHover => "audio/sfx/button_hover.ogg",
            SfxKey::OceanAmbient => "audio/sfx/ocean_ambient.ogg",
            SfxKey::ButtonPress => "audio/sfx/button_press.ogg",
            SfxKey::ShipAmbient => "audio/sfx/ship_noise.ogg",
            SfxKey::ShipHorn => "audio/sfx/ship_horn.ogg",
            SfxKey::RainAmbient => "audio/sfx/501242__shelbyshark__lightrainthunder.ogg",
        }
    }

    /// Every sound effect.
    pub fn all() -> (keys: [SfxKey; 11])
        ensures
            forall|key: SfxKey| #[trigger] keys@.contains(key),
    {
        let keys = [
            SfxKey::WhaleBreath,
            SfxKey::AdultWhaleSong,
            SfxKey::BabyWhaleSong,
            SfxKey::Gull,
            SfxKey::WhaleBreach,
            SfxKey::ButtonHover,
            SfxKey::OceanAmbient,
            SfxKey::ButtonPress,
            SfxKey::ShipAmbient,
            SfxKey::ShipHorn,
            SfxKey::RainAmbient,
        ];
        assert forall|key: SfxKey| #[trigger] keys@.contains(key) by {
            let i: int = match key {
                SfxKey::WhaleBreath => 0,
                SfxKey::AdultWhaleSong => 1,
                SfxKey::BabyWhaleSong => 2,
                SfxKey::Gull => 3,
                SfxKey::WhaleBreach => 4,
                SfxKey::ButtonHover => 5,
                SfxKey::OceanAmbient => 6,
                SfxKey::ButtonPress => 7,
                SfxKey::ShipAmbient => 8,
                SfxKey::ShipHorn => 9,
                SfxKey::RainAmbient => 10,
            };
            assert(keys@[i] == key);
        }
        keys
    }
}

impl SoundtrackKey {
    /// Where the soundtrack is loaded from.
    pub fn path(&self) -> (path: &'static str)
        ensures
            path@ == soundtrack_path(*self),
    {
        match self {
            SoundtrackKey::Menu => "audio/soundtracks/calm_winds.ogg",
            SoundtrackKey::Gameplay => "audio/soundtracks/menu_score.ogg",
        }
    }

    /// Every soundtrack.
    pub fn all() -> (keys: [SoundtrackKey; 2])
        ensures
            forall|key: SoundtrackKey| #[trigger] keys@.contains(key),
    {
        let keys = [SoundtrackKey::Menu, SoundtrackKey::Gameplay];
        assert forall|key: SoundtrackKey| #[trigger] keys@.contains(key) by {
            let i: int = match key {
                SoundtrackKey::Menu => 0,
                SoundtrackKey::Gameplay => 1,
            };
            assert(keys@[i] == key);
        }
        keys
    }
}

} // verus!
