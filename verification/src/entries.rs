//! The five chapter-configuration entry kinds, each a record of optional
//! string-typed cells read from a row map by column name.

use vstd::prelude::*;

use crate::doc::{Row, RowV};
use crate::table::Table;

verus! {

/// Looks `k` up in a row map.
pub open spec fn spec_mget(m: Map<Seq<char>, Seq<char>>, k: Seq<char>) -> Option<Seq<char>> {
    if m.contains_key(k) {
        Some(m[k])
    } else {
        None
    }
}

/// Looks a named column up in a row map, cloning the cell.
pub(crate) fn mget(t: &Table<String>, key: &str) -> (r: Option<String>)
    ensures
        r.deep_view() == spec_mget(t@, key@),
{
    let k = String::from_str(key);
    match t.get(&k) {
        Some(v) => Some(v.clone()),
        None => None,
    }
}

/// One `character` table entry.
pub struct CharacterEntry {
    pub label: Option<String>,
    pub name_text: Option<String>,
    pub pattern: Option<String>,
    pub x: Option<String>,
    pub y: Option<String>,
    pub z: Option<String>,
    pub pivot: Option<String>,
    pub scale: Option<String>,
    pub conditional: Option<String>,
    pub file_name: Option<String>,
    pub sub_file_name: Option<String>,
    pub file_type: Option<String>,
    pub animation: Option<String>,
    pub render_texture: Option<String>,
    pub render_rect: Option<String>,
    pub eye_blink: Option<String>,
    pub lip_synch: Option<String>,
    pub icon: Option<String>,
    pub icon_sub_file_name: Option<String>,
    pub icon_rect: Option<String>,
}

#[verifier::ext_equal]
pub struct CharacterEntryV {
    pub label: Option<Seq<char>>,
    pub name_text: Option<Seq<char>>,
    pub pattern: Option<Seq<char>>,
    pub x: Option<Seq<char>>,
    pub y: Option<Seq<char>>,
    pub z: Option<Seq<char>>,
    pub pivot: Option<Seq<char>>,
    pub scale: Option<Seq<char>>,
    pub conditional: Option<Seq<char>>,
    pub file_name: Option<Seq<char>>,
    pub sub_file_name: Option<Seq<char>>,
    pub file_type: Option<Seq<char>>,
    pub animation: Option<Seq<char>>,
    pub render_texture: Option<Seq<char>>,
    pub render_rect: Option<Seq<char>>,
    pub eye_blink: Option<Seq<char>>,
    pub lip_synch: Option<Seq<char>>,
    pub icon: Option<Seq<char>>,
    pub icon_sub_file_name: Option<Seq<char>>,
    pub icon_rect: Option<Seq<char>>,
}

impl View for CharacterEntry {
    type V = CharacterEntryV;

    open spec fn view(&self) -> CharacterEntryV {
        CharacterEntryV {
            label: self.label.deep_view(),
            name_text: self.name_text.deep_view(),
            pattern: self.pattern.deep_view(),
            x: self.x.deep_view(),
            y: self.y.deep_view(),
            z: self.z.deep_view(),
            pivot: self.pivot.deep_view(),
            scale: self.scale.deep_view(),
            conditional: self.conditional.deep_view(),
            file_name: self.file_name.deep_view(),
            sub_file_name: self.sub_file_name.deep_view(),
            file_type: self.file_type.deep_view(),
            animation: self.animation.deep_view(),
            render_texture: self.render_texture.deep_view(),
            render_rect: self.render_rect.deep_view(),
            eye_blink: self.eye_blink.deep_view(),
            lip_synch: self.lip_synch.deep_view(),
            icon: self.icon.deep_view(),
            icon_sub_file_name: self.icon_sub_file_name.deep_view(),
            icon_rect: self.icon_rect.deep_view(),
        }
    }
}

impl DeepView for CharacterEntry {
    type V = CharacterEntryV;

    open spec fn deep_view(&self) -> CharacterEntryV {
        self.view()
    }
}

/// The `character` entry read from one row map.
pub open spec fn spec_character_entry(m: Map<Seq<char>, Seq<char>>, row: RowV) -> CharacterEntryV {
    CharacterEntryV {
        label: if row.strings.len() > 2 {
            Some(row.strings[2])
        } else {
            None
        },
        name_text: spec_mget(m, "NameText"@),
        pattern: spec_mget(m, "Pattern"@),
        x: spec_mget(m, "X"@),
        y: spec_mget(m, "Y"@),
        z: spec_mget(m, "Z"@),
        pivot: spec_mget(m, "Pivot"@),
        scale: spec_mget(m, "Scale"@),
        conditional: spec_mget(m, "Conditional"@),
        file_name: spec_mget(m, "FileName"@),
        sub_file_name: spec_mget(m, "SubFileName"@),
        file_type: spec_mget(m, "FileType"@),
        animation: spec_mget(m, "Animation"@),
        render_texture: spec_mget(m, "RenderTexture"@),
        render_rect: spec_mget(m, "RenderRect"@),
        eye_blink: spec_mget(m, "EyeBlink"@),
        lip_synch: spec_mget(m, "LipSynch"@),
        icon: spec_mget(m, "Icon"@),
        icon_sub_file_name: spec_mget(m, "IconSubFileName"@),
        icon_rect: spec_mget(m, "IconRect"@),
    }
}

pub(crate) fn character_entry_of(m: &Table<String>, row: &Row) -> (e: CharacterEntry)
    ensures
        e@ == spec_character_entry(m@, row@),
{
    CharacterEntry {
        label: if row.strings.len() > 2 {
            Some(row.strings[2].clone())
        } else {
            None
        },
        name_text: mget(m, "NameText"),
        pattern: mget(m, "Pattern"),
        x: mget(m, "X"),
        y: mget(m, "Y"),
        z: mget(m, "Z"),
        pivot: mget(m, "Pivot"),
        scale: mget(m, "Scale"),
        conditional: mget(m, "Conditional"),
        file_name: mget(m, "FileName"),
        sub_file_name: mget(m, "SubFileName"),
        file_type: mget(m, "FileType"),
        animation: mget(m, "Animation"),
        render_texture: mget(m, "RenderTexture"),
        render_rect: mget(m, "RenderRect"),
        eye_blink: mget(m, "EyeBlink"),
        lip_synch: mget(m, "LipSynch"),
        icon: mget(m, "Icon"),
        icon_sub_file_name: mget(m, "IconSubFileName"),
        icon_rect: mget(m, "IconRect"),
    }
}

/// One `layer` table entry.
pub struct LayerEntry {
    pub entry_type: Option<String>,
    pub x: Option<String>,
    pub y: Option<String>,
    pub order: Option<String>,
    pub layer_mask: Option<String>,
    pub scale_x: Option<String>,
    pub scale_y: Option<String>,
    pub flip_x: Option<String>,
    pub flip_y: Option<String>,
    pub width: Option<String>,
    pub height: Option<String>,
    pub border_left: Option<String>,
    pub border_right: Option<String>,
    pub border_top: Option<String>,
    pub border_bottom: Option<String>,
    pub align: Option<String>,
}

#[verifier::ext_equal]
pub struct LayerEntryV {
    pub entry_type: Option<Seq<char>>,
    pub x: Option<Seq<char>>,
    pub y: Option<Seq<char>>,
    pub order: Option<Seq<char>>,
    pub layer_mask: Option<Seq<char>>,
    pub scale_x: Option<Seq<char>>,
    pub scale_y: Option<Seq<char>>,
    pub flip_x: Option<Seq<char>>,
    pub flip_y: Option<Seq<char>>,
    pub width: Option<Seq<char>>,
    pub height: Option<Seq<char>>,
    pub border_left: Option<Seq<char>>,
    pub border_right: Option<Seq<char>>,
    pub border_top: Option<Seq<char>>,
    pub border_bottom: Option<Seq<char>>,
    pub align: Option<Seq<char>>,
}

impl View for LayerEntry {
    type V = LayerEntryV;

    open spec fn view(&self) -> LayerEntryV {
        LayerEntryV {
            entry_type: self.entry_type.deep_view(),
            x: self.x.deep_view(),
            y: self.y.deep_view(),
            order: self.order.deep_view(),
            layer_mask: self.layer_mask.deep_view(),
            scale_x: self.scale_x.deep_view(),
            scale_y: self.scale_y.deep_view(),
            flip_x: self.flip_x.deep_view(),
            flip_y: self.flip_y.deep_view(),
            width: self.width.deep_view(),
            height: self.height.deep_view(),
            border_left: self.border_left.deep_view(),
            border_right: self.border_right.deep_view(),
            border_top: self.border_top.deep_view(),
            border_bottom: self.border_bottom.deep_view(),
            align: self.align.deep_view(),
        }
    }
}

impl DeepView for LayerEntry {
    type V = LayerEntryV;

    open spec fn deep_view(&self) -> LayerEntryV {
        self.view()
    }
}

/// The `layer` entry read from one row map.
pub open spec fn spec_layer_entry(m: Map<Seq<char>, Seq<char>>) -> LayerEntryV {
    LayerEntryV {
        entry_type: spec_mget(m, "Type"@),
        x: spec_mget(m, "X"@),
        y: spec_mget(m, "Y"@),
        order: spec_mget(m, "Order"@),
        layer_mask: spec_mget(m, "LayerMask"@),
        scale_x: spec_mget(m, "ScaleX"@),
        scale_y: spec_mget(m, "ScaleY"@),
        flip_x: spec_mget(m, "FlipX"@),
        flip_y: spec_mget(m, "FlipY"@),
        width: spec_mget(m, "Width"@),
        height: spec_mget(m, "Height"@),
        border_left: spec_mget(m, "BorderLeft"@),
        border_right: spec_mget(m, "BorderRight"@),
        border_top: spec_mget(m, "BorderTop"@),
        border_bottom: spec_mget(m, "BorderBottom"@),
        align: spec_mget(m, "Align"@),
    }
}

pub(crate) fn layer_entry_of(m: &Table<String>) -> (e: LayerEntry)
    ensures
        e@ == spec_layer_entry(m@),
{
    LayerEntry {
        entry_type: mget(m, "Type"),
        x: mget(m, "X"),
        y: mget(m, "Y"),
        order: mget(m, "Order"),
        layer_mask: mget(m, "LayerMask"),
        scale_x: mget(m, "ScaleX"),
        scale_y: mget(m, "ScaleY"),
        flip_x: mget(m, "FlipX"),
        flip_y: mget(m, "FlipY"),
        width: mget(m, "Width"),
        height: mget(m, "Height"),
        border_left: mget(m, "BorderLeft"),
        border_right: mget(m, "BorderRight"),
        border_top: mget(m, "BorderTop"),
        border_bottom: mget(m, "BorderBottom"),
        align: mget(m, "Align"),
    }
}

/// One `param` table entry.
pub struct ParamEntry {
    pub entry_type: Option<String>,
    pub value: Option<String>,
    pub file_type: Option<String>,
}

#[verifier::ext_equal]
pub struct ParamEntryV {
    pub entry_type: Option<Seq<char>>,
    pub value: Option<Seq<char>>,
    pub file_type: Option<Seq<char>>,
}

impl View for ParamEntry {
    type V = ParamEntryV;

    open spec fn view(&self) -> ParamEntryV {
        ParamEntryV {
            entry_type: self.entry_type.deep_view(),
            value: self.value.deep_view(),
            file_type: self.file_type.deep_view(),
        }
    }
}

impl DeepView for ParamEntry {
    type V = ParamEntryV;

    open spec fn deep_view(&self) -> ParamEntryV {
        self.view()
    }
}

/// The `param` entry read from one row map.
pub open spec fn spec_param_entry(m: Map<Seq<char>, Seq<char>>) -> ParamEntryV {
    ParamEntryV {
        entry_type: spec_mget(m, "Type"@),
        value: spec_mget(m, "Value"@),
        file_type: spec_mget(m, "FileType"@),
    }
}

pub(crate) fn param_entry_of(m: &Table<String>) -> (e: ParamEntry)
    ensures
        e@ == spec_param_entry(m@),
{
    ParamEntry {
        entry_type: mget(m, "Type"),
        value: mget(m, "Value"),
        file_type: mget(m, "FileType"),
    }
}

/// One `sound` table entry.
pub struct SoundEntry {
    pub title: Option<String>,
    pub entry_type: Option<String>,
    pub file_name: Option<String>,
    pub intro_time: Option<String>,
    pub volume: Option<String>,
}

#[verifier::ext_equal]
pub struct SoundEntryV {
    pub title: Option<Seq<char>>,
    pub entry_type: Option<Seq<char>>,
    pub file_name: Option<Seq<char>>,
    pub intro_time: Option<Seq<char>>,
    pub volume: Option<Seq<char>>,
}

impl View for SoundEntry {
    type V = SoundEntryV;

    open spec fn view(&self) -> SoundEntryV {
        SoundEntryV {
            title: self.title.deep_view(),
            entry_type: self.entry_type.deep_view(),
            file_name: self.file_name.deep_view(),
            intro_time: self.intro_time.deep_view(),
            volume: self.volume.deep_view(),
        }
    }
}

impl DeepView for SoundEntry {
    type V = SoundEntryV;

    open spec fn deep_view(&self) -> SoundEntryV {
        self.view()
    }
}

/// The `sound` entry read from one row map.
pub open spec fn spec_sound_entry(m: Map<Seq<char>, Seq<char>>) -> SoundEntryV {
    SoundEntryV {
        title: spec_mget(m, "Title"@),
        entry_type: spec_mget(m, "Type"@),
        file_name: spec_mget(m, "FileName"@),
        intro_time: spec_mget(m, "IntroTime"@),
        volume: spec_mget(m, "Volume"@),
    }
}

pub(crate) fn sound_entry_of(m: &Table<String>) -> (e: SoundEntry)
    ensures
        e@ == spec_sound_entry(m@),
{
    SoundEntry {
        title: mget(m, "Title"),
        entry_type: mget(m, "Type"),
        file_name: mget(m, "FileName"),
        intro_time: mget(m, "IntroTime"),
        volume: mget(m, "Volume"),
    }
}

/// One `texture` table entry.
pub struct TextureEntry {
    pub entry_type: Option<String>,
    pub file_name: Option<String>,
    pub file_type: Option<String>,
    pub x: Option<String>,
    pub y: Option<String>,
    pub z: Option<String>,
    pub pivot: Option<String>,
    pub scale: Option<String>,
    pub conditional: Option<String>,
    pub sub_file_name: Option<String>,
    pub animation: Option<String>,
    pub render_texture: Option<String>,
    pub render_rect: Option<String>,
    pub thumbnail: Option<String>,
    pub cg_categolly: Option<String>,
}

#[verifier::ext_equal]
pub struct TextureEntryV {
    pub entry_type: Option<Seq<char>>,
    pub file_name: Option<Seq<char>>,
    pub file_type: Option<Seq<char>>,
    pub x: Option<Seq<char>>,
    pub y: Option<Seq<char>>,
    pub z: Option<Seq<char>>,
    pub pivot: Option<Seq<char>>,
    pub scale: Option<Seq<char>>,
    pub conditional: Option<Seq<char>>,
    pub sub_file_name: Option<Seq<char>>,
    pub animation: Option<Seq<char>>,
    pub render_texture: Option<Seq<char>>,
    pub render_rect: Option<Seq<char>>,
    pub thumbnail: Option<Seq<char>>,
    pub cg_categolly: Option<Seq<char>>,
}

impl View for TextureEntry {
    type V = TextureEntryV;

    open spec fn view(&self) -> TextureEntryV {
        TextureEntryV {
            entry_type: self.entry_type.deep_view(),
            file_name: self.file_name.deep_view(),
            file_type: self.file_type.deep_view(),
            x: self.x.deep_view(),
            y: self.y.deep_view(),
            z: self.z.deep_view(),
            pivot: self.pivot.deep_view(),
            scale: self.scale.deep_view(),
            conditional: self.conditional.deep_view(),
            sub_file_name: self.sub_file_name.deep_view(),
            animation: self.animation.deep_view(),
            render_texture: self.render_texture.deep_view(),
            render_rect: self.render_rect.deep_view(),
            thumbnail: self.thumbnail.deep_view(),
            cg_categolly: self.cg_categolly.deep_view(),
        }
    }
}

impl DeepView for TextureEntry {
    type V = TextureEntryV;

    open spec fn deep_view(&self) -> TextureEntryV {
        self.view()
    }
}

/// The `texture` entry read from one row map.
pub open spec fn spec_texture_entry(m: Map<Seq<char>, Seq<char>>) -> TextureEntryV {
    TextureEntryV {
        entry_type: spec_mget(m, "Type"@),
        file_name: spec_mget(m, "FileName"@),
        file_type: spec_mget(m, "FileType"@),
        x: spec_mget(m, "X"@),
        y: spec_mget(m, "Y"@),
        z: spec_mget(m, "Z"@),
        pivot: spec_mget(m, "Pivot"@),
        scale: spec_mget(m, "Scale"@),
        conditional: spec_mget(m, "Conditional"@),
        sub_file_name: spec_mget(m, "SubFileName"@),
        animation: spec_mget(m, "Animation"@),
        render_texture: spec_mget(m, "RenderTexture"@),
        render_rect: spec_mget(m, "RenderRect"@),
        thumbnail: spec_mget(m, "Thumbnail"@),
        cg_categolly: spec_mget(m, "CgCategolly"@),
    }
}

pub(crate) fn texture_entry_of(m: &Table<String>) -> (e: TextureEntry)
    ensures
        e@ == spec_texture_entry(m@),
{
    TextureEntry {
        entry_type: mget(m, "Type"),
        file_name: mget(m, "FileName"),
        file_type: mget(m, "FileType"),
        x: mget(m, "X"),
        y: mget(m, "Y"),
        z: mget(m, "Z"),
        pivot: mget(m, "Pivot"),
        scale: mget(m, "Scale"),
        conditional: mget(m, "Conditional"),
        sub_file_name: mget(m, "SubFileName"),
        animation: mget(m, "Animation"),
        render_texture: mget(m, "RenderTexture"),
        render_rect: mget(m, "RenderRect"),
        thumbnail: mget(m, "Thumbnail"),
        cg_categolly: mget(m, "CgCategolly"),
    }
}

} // verus!
