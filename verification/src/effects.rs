//! The abstract presentation effects the interpreter emits, and the
//! removal filters carried by the hide/stop effects. The host realizes
//! each effect; the library only decides which effects a step produces.

use vstd::prelude::*;

use crate::num::Milli;

verus! {

/// The four mutually exclusive audio categories.
#[derive(Clone, Copy, Debug, PartialEq, Eq, Structural)]
pub enum AudioCategory {
    Bgm,
    Se,
    Ambience,
    Voice,
}

/// The three texture families.
#[derive(Clone, Copy, Debug, PartialEq, Eq, Structural)]
pub enum TextureCategory {
    Bg,
    Event,
    Sprite,
}

/// Which textures a hide effect removes.
#[derive(Clone, Debug, PartialEq)]
pub struct TextureFilter {
    /// Only this category; absent means every category.
    pub category: Option<TextureCategory>,
    /// Only entities this name matches; absent means all of them.
    pub ident: Option<String>,
    /// Whether `ident` may match the label as well as the layer.
    pub match_label: bool,
}

#[verifier::ext_equal]
pub struct TextureFilterV {
    pub category: Option<TextureCategory>,
    pub ident: Option<Seq<char>>,
    pub match_label: bool,
}

impl View for TextureFilter {
    type V = TextureFilterV;

    open spec fn view(&self) -> TextureFilterV {
        TextureFilterV {
            category: self.category,
            ident: self.ident.deep_view(),
            match_label: self.match_label,
        }
    }
}

/// Which characters a hide effect removes.
#[derive(Clone, Debug, PartialEq)]
pub struct CharacterFilter {
    /// Only entities this name matches; absent means all of them.
    pub ident: Option<String>,
    /// Whether `ident` may match the label as well as the layer.
    pub match_label: bool,
}

#[verifier::ext_equal]
pub struct CharacterFilterV {
    pub ident: Option<Seq<char>>,
    pub match_label: bool,
}

impl View for CharacterFilter {
    type V = CharacterFilterV;

    open spec fn view(&self) -> CharacterFilterV {
        CharacterFilterV { ident: self.ident.deep_view(), match_label: self.match_label }
    }
}

/// Which non-voice clips a stop effect fades out.
#[derive(Clone, Debug, PartialEq)]
pub struct SoundFilter {
    /// Only this category; absent means every non-voice category.
    pub category: Option<AudioCategory>,
    /// Only clips started under this label; absent means all of them.
    pub label: Option<String>,
}

#[verifier::ext_equal]
pub struct SoundFilterV {
    pub category: Option<AudioCategory>,
    pub label: Option<Seq<char>>,
}

impl View for SoundFilter {
    type V = SoundFilterV;

    open spec fn view(&self) -> SoundFilterV {
        SoundFilterV { category: self.category, label: self.label.deep_view() }
    }
}

/// Whether a texture with the given category, label and layer falls
/// under the filter.
pub open spec fn spec_texture_filter_matches(
    f: TextureFilterV,
    category: TextureCategory,
    label: Seq<char>,
    layer: Seq<char>,
) -> bool {
    (match f.category {
        None => true,
        Some(c) => c == category,
    }) && (match f.ident {
        None => true,
        Some(l) => if f.match_label {
            label == l || layer == l
        } else {
            layer == l
        },
    })
}

/// Decides whether a texture entity falls under the filter.
pub fn texture_filter_matches(
    f: &TextureFilter,
    category: TextureCategory,
    label: &String,
    layer: &String,
) -> (r: bool)
    ensures
        r == spec_texture_filter_matches(f@, category, label@, layer@),
{
    let cat_ok = match &f.category {
        None => true,
        Some(c) => *c == category,
    };
    let ident_ok = match &f.ident {
        None => true,
        Some(l) => if f.match_label {
            label.eq(l) || layer.eq(l)
        } else {
            layer.eq(l)
        },
    };
    cat_ok && ident_ok
}

/// Whether a character with the given label and layer falls under the
/// filter: the layer always counts, the label only when asked for.
pub open spec fn spec_character_filter_matches(
    f: CharacterFilterV,
    label: Seq<char>,
    layer: Seq<char>,
) -> bool {
    match f.ident {
        None => true,
        Some(l) => (f.match_label && label == l) || layer == l,
    }
}

/// Decides whether a character entity falls under the filter.
pub fn character_filter_matches(f: &CharacterFilter, label: &String, layer: &String) -> (r: bool)
    ensures
        r == spec_character_filter_matches(f@, label@, layer@),
{
    match &f.ident {
        None => true,
        Some(l) => (f.match_label && label.eq(l)) || layer.eq(l),
    }
}

/// Whether a clip with the given category and label falls under the
/// filter; a voice clip never does, voices being stopped, not faded.
pub open spec fn spec_sound_filter_matches(
    f: SoundFilterV,
    category: AudioCategory,
    label: Seq<char>,
) -> bool {
    &&& match f.category {
        None => true,
        Some(c) => c == category,
    }
    &&& match f.label {
        None => true,
        Some(l) => label == l,
    }
    &&& category != AudioCategory::Voice
}

/// Decides whether a playing clip falls under the filter.
pub fn sound_filter_matches(f: &SoundFilter, category: AudioCategory, label: &String) -> (r: bool)
    ensures
        r == spec_sound_filter_matches(f@, category, label@),
{
    let cat_ok = match &f.category {
        None => true,
        Some(c) => *c == category,
    };
    let label_ok = match &f.label {
        None => true,
        Some(l) => label.eq(l),
    };
    cat_ok && label_ok && category != AudioCategory::Voice
}

/// One discrete presentation effect, consumed by the host in order.
#[derive(Clone, Debug, PartialEq)]
pub enum Effect {
    /// Show a dialogue line under a speaker name; the text reveals
    /// progressively on the host's side of the reveal ticker.
    ShowDialogue { char_name: String, text: String },
    /// Spawn the character, or update its motion if it is on stage.
    /// Quantities are thousandths.
    SpawnOrUpdateCharacter {
        label: String,
        motion: String,
        layer: String,
        x: Milli,
        y: Milli,
        z: Milli,
        scale_x: Milli,
        scale_y: Milli,
    },
    /// Show a texture. `category` is the command's own kind, used by
    /// later removals; `file_kind` says which asset family `file`
    /// belongs to, the entry's type overriding the command's.
    ShowTexture {
        category: TextureCategory,
        label: String,
        layer: String,
        file: String,
        file_kind: TextureCategory,
        x: Milli,
        y: Milli,
        z: Milli,
        scale_x: Milli,
        scale_y: Milli,
    },
    /// Remove every texture the filter matches.
    HideTexture { filter: TextureFilter },
    /// Remove every character the filter matches.
    HideCharacter { filter: CharacterFilter },
    /// Start a clip; `volume` is in thousandths.
    PlaySound { category: AudioCategory, label: String, file: String, volume: Milli, looped: bool },
    /// Fade out, over `fade` thousandths of a second, every non-voice
    /// clip the filter matches.
    StopSound { filter: SoundFilter, fade: Milli },
    /// Start a voice clip; `volume` is in thousandths.
    PlayVoice { file: String, volume: Milli, looped: bool },
    /// Stop the in-flight voice clip at once; voices never overlap.
    StopVoice,
    /// Cover the scene with `color`, fading over `duration` thousandths
    /// of a second, in when `fade_out` is false and out when it is true.
    FadeOverlay { color: String, duration: Milli, fade_out: bool },
    /// Suspend stepping for `duration` thousandths of a second.
    Wait { duration: Milli },
    /// The cursor ran off the end: the scenario is over.
    ScenarioEnded,
}

#[verifier::ext_equal]
pub enum EffectV {
    ShowDialogue { char_name: Seq<char>, text: Seq<char> },
    SpawnOrUpdateCharacter {
        label: Seq<char>,
        motion: Seq<char>,
        layer: Seq<char>,
        x: int,
        y: int,
        z: int,
        scale_x: int,
        scale_y: int,
    },
    ShowTexture {
        category: TextureCategory,
        label: Seq<char>,
        layer: Seq<char>,
        file: Seq<char>,
        file_kind: TextureCategory,
        x: int,
        y: int,
        z: int,
        scale_x: int,
        scale_y: int,
    },
    HideTexture { filter: TextureFilterV },
    HideCharacter { filter: CharacterFilterV },
    PlaySound {
        category: AudioCategory,
        label: Seq<char>,
        file: Seq<char>,
        volume: int,
        looped: bool,
    },
    StopSound { filter: SoundFilterV, fade: int },
    PlayVoice { file: Seq<char>, volume: int, looped: bool },
    StopVoice,
    FadeOverlay { color: Seq<char>, duration: int, fade_out: bool },
    Wait { duration: int },
    ScenarioEnded,
}

impl View for Effect {
    type V = EffectV;

    open spec fn view(&self) -> EffectV {
        match self {
            Effect::ShowDialogue { char_name, text } => EffectV::ShowDialogue {
                char_name: char_name@,
                text: text@,
            },
            Effect::SpawnOrUpdateCharacter { label, motion, layer, x, y, z, scale_x, scale_y } => {
                EffectV::SpawnOrUpdateCharacter {
                    label: label@,
                    motion: motion@,
                    layer: layer@,
                    x: x.0 as int,
                    y: y.0 as int,
                    z: z.0 as int,
                    scale_x: scale_x.0 as int,
                    scale_y: scale_y.0 as int,
                }
            },
            Effect::ShowTexture {
                category,
                label,
                layer,
                file,
                file_kind,
                x,
                y,
                z,
                scale_x,
                scale_y,
            } => EffectV::ShowTexture {
                category: *category,
                label: label@,
                layer: layer@,
                file: file@,
                file_kind: *file_kind,
                x: x.0 as int,
                y: y.0 as int,
                z: z.0 as int,
                scale_x: scale_x.0 as int,
                scale_y: scale_y.0 as int,
            },
            Effect::HideTexture { filter } => EffectV::HideTexture { filter: filter@ },
            Effect::HideCharacter { filter } => EffectV::HideCharacter { filter: filter@ },
            Effect::PlaySound { category, label, file, volume, looped } => EffectV::PlaySound {
                category: *category,
                label: label@,
                file: file@,
                volume: volume.0 as int,
                looped: *looped,
            },
            Effect::StopSound { filter, fade } => EffectV::StopSound {
                filter: filter@,
                fade: fade.0 as int,
            },
            Effect::PlayVoice { file, volume, looped } => EffectV::PlayVoice {
                file: file@,
                volume: volume.0 as int,
                looped: *looped,
            },
            Effect::StopVoice => EffectV::StopVoice,
            Effect::FadeOverlay { color, duration, fade_out } => EffectV::FadeOverlay {
                color: color@,
                duration: duration.0 as int,
                fade_out: *fade_out,
            },
            Effect::Wait { duration } => EffectV::Wait { duration: duration.0 as int },
            Effect::ScenarioEnded => EffectV::ScenarioEnded,
        }
    }
}

impl DeepView for Effect {
    type V = EffectV;

    open spec fn deep_view(&self) -> EffectV {
        self.view()
    }
}

} // verus!
