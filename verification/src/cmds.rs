//! One script node turned into its step outcome: the effects it emits,
//! the runtime binding it adds, the wait or fade it starts, the dialogue
//! it displays, and whether the dispatch loop stops after it.

use vstd::prelude::*;

use crate::chars::{chars_of, has_prefix, string_of_range, str_eq};
use crate::effects::{
    AudioCategory, CharacterFilter, Effect, EffectV, SoundFilter, TextureCategory, TextureFilter,
};
use crate::entries::LayerEntryV;
use crate::num::{
    find_char, find_char_in, lemma_find_char, num_or, pick, spec_num_or, spec_pick, Milli,
};
use crate::table::Table;
use crate::text::{normalize, spec_normalize};
use crate::utage4::{Node, NodeV, VNConfig, VNConfigV};

verus! {

/// An absent optional string read as the empty string.
pub open spec fn spec_or_empty(o: Option<Seq<char>>) -> Seq<char> {
    match o {
        Some(s) => s,
        None => Seq::empty(),
    }
}

pub(crate) fn opt_or_empty(o: &Option<String>) -> (r: String)
    ensures
        r@ == spec_or_empty(o.deep_view()),
{
    match o {
        Some(s) => s.clone(),
        None => String::new(),
    }
}

/// A negative duration read as zero: timers never run backwards.
pub open spec fn spec_clamp0(t: int) -> int {
    if t < 0 {
        0
    } else {
        t
    }
}

pub(crate) fn clamp0(t: Milli) -> (r: Milli)
    ensures
        r.0 == spec_clamp0(t.0 as int),
{
    if t.0 < 0 {
        Milli(0)
    } else {
        t
    }
}

/// A sound file reference with its four-character extension replaced by
/// `.m4a`; a shorter name is kept whole.
pub open spec fn spec_m4a_of(f: Seq<char>) -> Seq<char> {
    if f.len() >= 4 {
        f.subrange(0, f.len() - 4) + ".m4a"@
    } else {
        f + ".m4a"@
    }
}

pub(crate) fn m4a_name(f: &String) -> (r: String)
    ensures
        r@ == spec_m4a_of(f@),
{
    let v = chars_of(f.as_str());
    let stem_to = if v.len() >= 4 {
        v.len() - 4
    } else {
        v.len()
    };
    let mut r = string_of_range(&v, 0, stem_to);
    r.append(".m4a");
    proof {
        if v@.len() < 4 {
            assert(v@.subrange(0, v@.len() as int) =~= v@);
        }
    }
    r
}

/// A voice reference with the `.m4a` extension appended.
pub open spec fn spec_voice_file(v: Seq<char>) -> Seq<char> {
    v + ".m4a"@
}

pub(crate) fn voice_file(v: &String) -> (r: String)
    ensures
        r@ == spec_voice_file(v@),
{
    let mut r = v.clone();
    r.append(".m4a");
    r
}

/// The pieces of `s` between occurrences of `sep`; empty pieces are
/// kept, so the piece count is always one more than the separator
/// count.
pub open spec fn spec_split(s: Seq<char>, sep: char) -> Seq<Seq<char>>
    decreases s.len(),
{
    match find_char(s, sep) {
        None => seq![s],
        Some(e) => {
            proof {
                lemma_find_char(s, sep);
            }
            seq![s.subrange(0, e)] + spec_split(s.skip(e + 1), sep)
        },
    }
}

pub(crate) fn split_char(s: &String, sep: char) -> (r: Vec<String>)
    ensures
        r.deep_view() == spec_split(s@, sep),
{
    let v = chars_of(s.as_str());
    let n = v.len();
    let mut r: Vec<String> = Vec::new();
    let mut i: usize = 0;
    proof {
        assert(v@.skip(0) =~= v@);
    }
    let mut fin = false;
    while !fin
        invariant
            n == v@.len(),
            0 <= i <= n,
            !fin ==> r.deep_view() + spec_split(v@.skip(i as int), sep) == spec_split(v@, sep),
            fin ==> r.deep_view() == spec_split(v@, sep),
        decreases n - i + (if fin {
            0int
        } else {
            1int
        }),
    {
        let ghost rest = v@.skip(i as int);
        match find_char_in(&v, i, n, sep) {
            Some(e) => {
                proof {
                    assert(rest =~= v@.subrange(i as int, n as int));
                    assert(rest.subrange(0, e - i) =~= v@.subrange(i as int, e as int));
                    assert(rest.skip(e - i + 1) =~= v@.skip(e + 1));
                }
                let ghost before = r.deep_view();
                let piece = string_of_range(&v, i, e);
                let ghost pv = piece@;
                r.push(piece);
                proof {
                    assert(r.deep_view() =~= before + seq![pv]);
                    assert(before + seq![pv] + spec_split(v@.skip(e + 1), sep) =~= before + (seq![
                        pv,
                    ] + spec_split(v@.skip(e + 1), sep)));
                }
                i = e + 1;
            },
            None => {
                proof {
                    assert(rest =~= v@.subrange(i as int, n as int));
                }
                let ghost before = r.deep_view();
                let piece = string_of_range(&v, i, n);
                let ghost pv = piece@;
                r.push(piece);
                proof {
                    assert(r.deep_view() =~= before + seq![pv]);
                    assert(spec_split(rest, sep) == seq![rest]);
                    assert(pv == rest);
                    assert(before + seq![pv] =~= before + seq![rest]);
                }
                fin = true;
            },
        }
    }
    r
}

/// `s` with every non-overlapping occurrence of `pat` removed, scanning
/// left to right.
pub open spec fn spec_remove_sub(s: Seq<char>, pat: Seq<char>) -> Seq<char>
    decreases s.len(),
{
    if s.len() == 0 {
        Seq::empty()
    } else if pat.len() > 0 && has_prefix(s, pat) {
        spec_remove_sub(s.skip(pat.len() as int), pat)
    } else {
        seq![s[0]] + spec_remove_sub(s.drop_first(), pat)
    }
}

/// `s` with every occurrence of the character `c` removed.
pub open spec fn spec_remove_char(s: Seq<char>, c: char) -> Seq<char>
    decreases s.len(),
{
    if s.len() == 0 {
        Seq::empty()
    } else if s[0] == c {
        spec_remove_char(s.drop_first(), c)
    } else {
        seq![s[0]] + spec_remove_char(s.drop_first(), c)
    }
}

pub(crate) fn remove_sub(s: &String, pat: &str) -> (r: String)
    requires
        pat@.len() > 0,
    ensures
        r@ == spec_remove_sub(s@, pat@),
{
    let v = chars_of(s.as_str());
    let p = chars_of(pat);
    let n = v.len();
    let mut out: Vec<char> = Vec::new();
    let mut i: usize = 0;
    proof {
        assert(v@.skip(0) =~= v@);
    }
    while i < n
        invariant
            n == v@.len(),
            p@ == pat@,
            p@.len() > 0,
            0 <= i <= n,
            out@ + spec_remove_sub(v@.skip(i as int), pat@) == spec_remove_sub(v@, pat@),
        decreases n - i,
    {
        let ghost rest = v@.skip(i as int);
        proof {
            assert(rest[0] == v@[i as int]);
            assert(rest.drop_first() =~= v@.skip(i + 1));
        }
        let hit = if p.len() <= n - i {
            crate::chars::match_at(&v, &p, i)
        } else {
            false
        };
        proof {
            if p@.len() <= rest.len() {
                assert(rest.subrange(0, p@.len() as int) =~= v@.subrange(
                    i as int,
                    i + p@.len(),
                ));
            }
        }
        if hit {
            proof {
                assert(rest.skip(p@.len() as int) =~= v@.skip(i + p@.len()));
            }
            i += p.len();
        } else {
            out.push(v[i]);
            proof {
                assert(out@ + spec_remove_sub(v@.skip(i + 1), pat@) =~= out@.drop_last() + (seq![
                    rest[0],
                ] + spec_remove_sub(rest.drop_first(), pat@)));
            }
            i += 1;
        }
    }
    proof {
        assert(v@.skip(n as int).len() == 0);
        assert(out@ + spec_remove_sub(v@.skip(n as int), pat@) =~= out@);
    }
    string_of_range(&out, 0, out.len())
}

pub(crate) fn remove_char(s: &String, c: char) -> (r: String)
    ensures
        r@ == spec_remove_char(s@, c),
{
    let v = chars_of(s.as_str());
    let n = v.len();
    let mut out: Vec<char> = Vec::new();
    let mut i: usize = 0;
    proof {
        assert(v@.skip(0) =~= v@);
    }
    while i < n
        invariant
            n == v@.len(),
            0 <= i <= n,
            out@ + spec_remove_char(v@.skip(i as int), c) == spec_remove_char(v@, c),
        decreases n - i,
    {
        let ghost rest = v@.skip(i as int);
        proof {
            assert(rest[0] == v@[i as int]);
            assert(rest.drop_first() =~= v@.skip(i + 1));
        }
        if v[i] != c {
            out.push(v[i]);
            proof {
                assert(out@ + spec_remove_char(v@.skip(i + 1), c) =~= out@.drop_last() + (seq![
                    rest[0],
                ] + spec_remove_char(rest.drop_first(), c)));
            }
        }
        i += 1;
    }
    proof {
        assert(v@.skip(n as int).len() == 0);
        assert(out@ + spec_remove_char(v@.skip(n as int), c) =~= out@);
    }
    string_of_range(&out, 0, out.len())
}

/// The outcome of one node: its effects, in order, and what it changes
/// of the session state.
#[verifier::ext_equal]
pub struct StepV {
    pub effects: Seq<EffectV>,
    pub binding: Option<(Seq<char>, Seq<char>)>,
    pub wait: Option<int>,
    pub reveal: Option<Seq<char>>,
    pub fade: Option<int>,
    pub stop: bool,
}

pub struct StepOut {
    pub effects: Vec<Effect>,
    pub binding: Option<(String, String)>,
    pub wait: Option<Milli>,
    pub reveal: Option<String>,
    pub fade: Option<Milli>,
    pub stop: bool,
}

pub open spec fn opt_milli_view(o: Option<Milli>) -> Option<int> {
    match o {
        Some(m) => Some(m.0 as int),
        None => None,
    }
}

impl View for StepOut {
    type V = StepV;

    open spec fn view(&self) -> StepV {
        StepV {
            effects: self.effects.deep_view(),
            binding: self.binding.deep_view(),
            wait: opt_milli_view(self.wait),
            reveal: self.reveal.deep_view(),
            fade: opt_milli_view(self.fade),
            stop: self.stop,
        }
    }
}

/// A step that only emits effects and moves on.
pub open spec fn plain_step(effects: Seq<EffectV>) -> StepV {
    StepV { effects, binding: None, wait: None, reveal: None, fade: None, stop: false }
}

/// The layer entry named by `arg3`, if any.
pub open spec fn spec_layer_of(cfg: VNConfigV, arg3: Option<Seq<char>>) -> Option<LayerEntryV> {
    let name = spec_or_empty(arg3);
    if cfg.layer.contains_key(name) {
        Some(cfg.layer[name])
    } else {
        None
    }
}

/// A dialogue node: play its voice, spawn or update its character, and
/// show its text. The step stops exactly when the node carries text.
pub open spec fn spec_default_step(cfg: VNConfigV, params: Map<Seq<char>, Seq<char>>, node: NodeV) -> StepV {
    let raw = spec_or_empty(node.arg1);
    let voice_effects: Seq<EffectV> = match node.voice {
        Some(v) => seq![
            EffectV::StopVoice,
            EffectV::PlayVoice { file: spec_voice_file(v), volume: 1000, looped: false },
        ],
        None => Seq::empty(),
    };
    let found = cfg.character.contains_key(raw);
    let char_name: Seq<char> = if found && node.arg2 is Some {
        match cfg.character[raw].name_text {
            Some(nt) => spec_normalize(nt, params, cfg.param),
            None => raw,
        }
    } else {
        raw
    };
    let spawn_effects: Seq<EffectV> = if found && node.arg2 is Some {
        let e = cfg.character[raw];
        let layer_name = spec_or_empty(node.arg3);
        let le = spec_layer_of(cfg, node.arg3);
        let lx = match le {
            Some(l) => l.x,
            None => None,
        };
        let ly = match le {
            Some(l) => l.y,
            None => None,
        };
        let lo = match le {
            Some(l) => l.order,
            None => None,
        };
        let lsx = match le {
            Some(l) => l.scale_x,
            None => None,
        };
        let lsy = match le {
            Some(l) => l.scale_y,
            None => None,
        };
        seq![
            EffectV::SpawnOrUpdateCharacter {
                label: raw,
                motion: node.arg2->0,
                layer: layer_name,
                x: spec_num_or(spec_pick(node.arg4, spec_pick(e.x, lx)), 0),
                y: spec_num_or(spec_pick(node.arg5, spec_pick(e.y, ly)), 0),
                z: spec_num_or(spec_pick(e.z, lo), 0),
                scale_x: spec_num_or(spec_pick(e.scale, lsx), 1000),
                scale_y: spec_num_or(spec_pick(e.scale, lsy), 1000),
            },
        ]
    } else {
        Seq::empty()
    };
    let dialogue_effects: Seq<EffectV> = match node.text {
        Some(t) => seq![
            EffectV::ShowDialogue {
                char_name: char_name,
                text: spec_normalize(t, params, cfg.param),
            },
        ],
        None => Seq::empty(),
    };
    StepV {
        effects: voice_effects + spawn_effects + dialogue_effects,
        binding: None,
        wait: None,
        reveal: match node.text {
            Some(t) => Some(spec_normalize(t, params, cfg.param)),
            None => None,
        },
        fade: None,
        stop: node.text is Some,
    }
}

/// A `Bg`, `BgEvent` or `Sprite` node: show the named texture with its
/// resolved placement, or nothing when the label is unknown.
pub open spec fn spec_img_cmd(cfg: VNConfigV, node: NodeV, kind: TextureCategory) -> Seq<EffectV> {
    let lookup = if kind == TextureCategory::Sprite {
        spec_or_empty(node.arg2)
    } else {
        spec_or_empty(node.arg1)
    };
    if cfg.texture.contains_key(lookup) {
        let e = cfg.texture[lookup];
        let file_kind = match e.entry_type {
            Some(t) => if t == "Bg"@ {
                TextureCategory::Bg
            } else if t == "Event"@ {
                TextureCategory::Event
            } else if t == "Sprite"@ {
                TextureCategory::Sprite
            } else {
                kind
            },
            None => kind,
        };
        let le = spec_layer_of(cfg, node.arg3);
        let lx = match le {
            Some(l) => l.x,
            None => None,
        };
        let ly = match le {
            Some(l) => l.y,
            None => None,
        };
        let lo = match le {
            Some(l) => l.order,
            None => None,
        };
        let lsx = match le {
            Some(l) => l.scale_x,
            None => None,
        };
        let lsy = match le {
            Some(l) => l.scale_y,
            None => None,
        };
        seq![
            EffectV::ShowTexture {
                category: kind,
                label: spec_or_empty(node.arg1),
                layer: spec_or_empty(node.arg3),
                file: spec_or_empty(e.file_name),
                file_kind: file_kind,
                x: spec_num_or(spec_pick(node.arg4, spec_pick(e.x, lx)), 0),
                y: spec_num_or(spec_pick(node.arg5, spec_pick(e.y, ly)), 0),
                z: spec_num_or(spec_pick(e.z, lo), 0),
                scale_x: spec_num_or(spec_pick(e.scale, lsx), 1000),
                scale_y: spec_num_or(spec_pick(e.scale, lsy), 1000),
            },
        ]
    } else {
        Seq::empty()
    }
}

/// A `CharacterOff` or the character half of a `LayerOff`.
pub open spec fn spec_character_off(node: NodeV, match_label: bool) -> Seq<EffectV> {
    seq![
        EffectV::HideCharacter {
            filter: crate::effects::CharacterFilterV { ident: node.arg1, match_label },
        },
    ]
}

/// A `BgOff` or `BgEventOff`: every texture of the category goes.
pub open spec fn spec_bg_off(kind: TextureCategory) -> Seq<EffectV> {
    seq![
        EffectV::HideTexture {
            filter: crate::effects::TextureFilterV {
                category: Some(kind),
                ident: None,
                match_label: false,
            },
        },
    ]
}

/// A `SpriteOff`: `AllSpriteObjects` and an absent argument both mean
/// every sprite; otherwise the argument matches label or layer.
pub open spec fn spec_sprite_off(node: NodeV) -> Seq<EffectV> {
    let ident: Option<Seq<char>> = match node.arg1 {
        None => None,
        Some(l) => if l == "AllSpriteObjects"@ {
            None
        } else {
            Some(l)
        },
    };
    seq![
        EffectV::HideTexture {
            filter: crate::effects::TextureFilterV {
                category: Some(TextureCategory::Sprite),
                ident,
                match_label: true,
            },
        },
    ]
}

/// A `LayerOff`: characters and textures on the layer go.
pub open spec fn spec_layer_off(node: NodeV) -> Seq<EffectV> {
    spec_character_off(node, false) + seq![
        EffectV::HideTexture {
            filter: crate::effects::TextureFilterV {
                category: None,
                ident: node.arg1,
                match_label: false,
            },
        },
    ]
}

/// The loop flag of a sound node: the category's own default, overridden
/// by an explicit `TRUE` or `FALSE`.
pub open spec fn spec_loop_flag(arg2: Option<Seq<char>>, default_loop: bool) -> bool {
    match arg2 {
        Some(s) => if s == "TRUE"@ {
            true
        } else if s == "FALSE"@ {
            false
        } else {
            default_loop
        },
        None => default_loop,
    }
}

/// An `Se`, `Bgm` or `Ambience` node: fade out the category's playing
/// clip where at most one may play, then start the named one; an
/// unknown label does nothing.
pub open spec fn spec_sound_cmd(cfg: VNConfigV, node: NodeV, cat: AudioCategory) -> Seq<EffectV> {
    let label = spec_or_empty(node.arg1);
    if cfg.sound.contains_key(label) {
        let e = cfg.sound[label];
        let volume = spec_num_or(spec_pick(node.arg3, e.volume), 1000);
        let looped = spec_loop_flag(node.arg2, cat != AudioCategory::Se);
        let stops: Seq<EffectV> = if cat == AudioCategory::Bgm || cat == AudioCategory::Ambience {
            seq![
                EffectV::StopSound {
                    filter: crate::effects::SoundFilterV { category: Some(cat), label: None },
                    fade: spec_clamp0(spec_num_or(node.arg5, 200)),
                },
            ]
        } else {
            Seq::empty()
        };
        stops + seq![
            EffectV::PlaySound {
                category: cat,
                label: label,
                file: spec_m4a_of(spec_or_empty(e.file_name)),
                volume: volume,
                looped: looped,
            },
        ]
    } else {
        Seq::empty()
    }
}

/// A `StopSe`, `StopBgm` or `StopAmbience` node, or one part of a
/// `StopSound`: fade out what the filter matches.
pub open spec fn spec_stop_sound_item(
    node: NodeV,
    cat: Option<AudioCategory>,
    ignore_label: bool,
) -> Seq<EffectV> {
    seq![
        EffectV::StopSound {
            filter: crate::effects::SoundFilterV {
                category: cat,
                label: if ignore_label {
                    None
                } else {
                    node.arg1
                },
            },
            fade: spec_clamp0(spec_num_or(node.arg6, 200)),
        },
    ]
}

/// The categories a `StopSound` argument names: absent means music and
/// ambience, `All` everything, and otherwise a comma-separated list.
pub open spec fn spec_stop_parts(arg1: Option<Seq<char>>) -> Seq<Seq<char>> {
    match arg1 {
        None => seq!["Bgm"@, "Ambience"@],
        Some(s) => if s == "All"@ {
            seq!["All"@]
        } else {
            spec_split(s, ',')
        },
    }
}

pub open spec fn spec_stop_parts_effects(parts: Seq<Seq<char>>, node: NodeV) -> Seq<EffectV>
    decreases parts.len(),
{
    if parts.len() == 0 {
        Seq::empty()
    } else {
        let p = parts[0];
        if p == "All"@ {
            seq![EffectV::StopVoice] + spec_stop_sound_item(node, None, true)
        } else {
            let here: Seq<EffectV> = if p == "Se"@ {
                spec_stop_sound_item(node, Some(AudioCategory::Se), true)
            } else if p == "Bgm"@ {
                spec_stop_sound_item(node, Some(AudioCategory::Bgm), true)
            } else if p == "Ambience"@ {
                spec_stop_sound_item(node, Some(AudioCategory::Ambience), true)
            } else if p == "Voice"@ {
                seq![EffectV::StopVoice]
            } else {
                Seq::empty()
            };
            here + spec_stop_parts_effects(parts.drop_first(), node)
        }
    }
}

/// A `StopSound` node; a list of more than four parts is ignored whole.
pub open spec fn spec_stop_sound(node: NodeV) -> Seq<EffectV> {
    let parts = spec_stop_parts(node.arg1);
    if parts.len() > 4 {
        Seq::empty()
    } else {
        spec_stop_parts_effects(parts, node)
    }
}

/// A `Voice` node: stop the in-flight voice and start this one; a node
/// without a voice reference does nothing.
pub open spec fn spec_voice_cmd(node: NodeV) -> Seq<EffectV> {
    match node.voice {
        Some(v) => seq![
            EffectV::StopVoice,
            EffectV::PlayVoice {
                file: spec_voice_file(v),
                volume: spec_num_or(node.arg3, 1000),
                looped: spec_loop_flag(node.arg2, false),
            },
        ],
        None => Seq::empty(),
    }
}

/// A `Param` node's binding: the argument, with literal quote escapes
/// removed, split at its first `=`; both sides must be non-empty, and
/// plain quotes are removed from the value.
pub open spec fn spec_param_pair(arg1: Option<Seq<char>>) -> Option<(Seq<char>, Seq<char>)> {
    let pattern = spec_remove_sub(spec_or_empty(arg1), "\\\""@);
    match find_char(pattern, '=') {
        None => None,
        Some(e) => {
            let k = pattern.subrange(0, e);
            let v = pattern.subrange(e + 1, pattern.len() as int);
            if k.len() > 0 && v.len() > 0 {
                Some((k, spec_remove_char(v, '"')))
            } else {
                None
            }
        },
    }
}

/// A `FadeIn` or `FadeOut` node: cover the scene and pause the reveal
/// for the fade's duration.
pub open spec fn spec_fade_cmd(node: NodeV, fade_out: bool) -> (Seq<EffectV>, int) {
    let color = match node.arg1 {
        Some(c) => c,
        None => "#FFFFFF"@,
    };
    let d = spec_clamp0(spec_num_or(node.arg6, 200));
    (seq![EffectV::FadeOverlay { color, duration: d, fade_out }], d)
}

/// The wait a `Wait` node starts, in thousandths; unparsable and absent
/// arguments mean a tenth of a second, and negatives mean none at all.
pub open spec fn spec_wait_duration(node: NodeV) -> int {
    spec_clamp0(spec_num_or(node.arg6, 100))
}

/// What one node does to the session, by its command.
pub open spec fn spec_step_node(cfg: VNConfigV, params: Map<Seq<char>, Seq<char>>, node: NodeV) -> StepV {
    match node.command {
        None => spec_default_step(cfg, params, node),
        Some(c) => {
            if c == "CharacterOff"@ {
                plain_step(spec_character_off(node, true))
            } else if c == "Bg"@ {
                plain_step(spec_img_cmd(cfg, node, TextureCategory::Bg))
            } else if c == "BgEvent"@ {
                plain_step(spec_img_cmd(cfg, node, TextureCategory::Event))
            } else if c == "Sprite"@ {
                plain_step(spec_img_cmd(cfg, node, TextureCategory::Sprite))
            } else if c == "BgOff"@ {
                plain_step(spec_bg_off(TextureCategory::Bg))
            } else if c == "BgEventOff"@ {
                plain_step(spec_bg_off(TextureCategory::Event))
            } else if c == "SpriteOff"@ {
                plain_step(spec_sprite_off(node))
            } else if c == "LayerOff"@ {
                plain_step(spec_layer_off(node))
            } else if c == "Se"@ {
                plain_step(spec_sound_cmd(cfg, node, AudioCategory::Se))
            } else if c == "Bgm"@ {
                plain_step(spec_sound_cmd(cfg, node, AudioCategory::Bgm))
            } else if c == "Ambience"@ {
                plain_step(spec_sound_cmd(cfg, node, AudioCategory::Ambience))
            } else if c == "StopSe"@ {
                plain_step(spec_stop_sound_item(node, Some(AudioCategory::Se), false))
            } else if c == "StopBgm"@ {
                plain_step(spec_stop_sound_item(node, Some(AudioCategory::Bgm), false))
            } else if c == "StopAmbience"@ {
                plain_step(spec_stop_sound_item(node, Some(AudioCategory::Ambience), false))
            } else if c == "Voice"@ {
                plain_step(spec_voice_cmd(node))
            } else if c == "StopVoice"@ {
                plain_step(seq![EffectV::StopVoice])
            } else if c == "StopSound"@ {
                plain_step(spec_stop_sound(node))
            } else if c == "Wait"@ {
                let d = spec_wait_duration(node);
                StepV {
                    effects: seq![EffectV::Wait { duration: d }],
                    binding: None,
                    wait: Some(d),
                    reveal: None,
                    fade: None,
                    stop: true,
                }
            } else if c == "FadeOut"@ {
                let (effects, d) = spec_fade_cmd(node, true);
                StepV { effects, binding: None, wait: None, reveal: None, fade: Some(d), stop: false }
            } else if c == "FadeIn"@ {
                let (effects, d) = spec_fade_cmd(node, false);
                StepV { effects, binding: None, wait: None, reveal: None, fade: Some(d), stop: false }
            } else if c == "Param"@ {
                StepV {
                    effects: Seq::empty(),
                    binding: spec_param_pair(node.arg1),
                    wait: None,
                    reveal: None,
                    fade: None,
                    stop: false,
                }
            } else {
                plain_step(Seq::empty())
            }
        },
    }
}

/// Plays the voice, spawns or updates the character, and shows the
/// dialogue line of a command-less node.
pub fn default_cmd(cfg: &VNConfig, params: &Table<String>, node: &Node) -> (st: StepOut)
    ensures
        st@ == spec_default_step(cfg@, params@, node@),
{
    let raw = opt_or_empty(&node.arg1);
    let mut effects: Vec<Effect> = Vec::new();
    match &node.voice {
        Some(v) => {
            effects.push(Effect::StopVoice);
            effects.push(
                Effect::PlayVoice { file: voice_file(v), volume: Milli(1000), looped: false },
            );
        },
        None => {},
    }
    let char_entry = cfg.character.get(&raw);
    let char_name: String = match (&char_entry, &node.arg2) {
        (Some(e), Some(motion)) => {
            let layer_name = opt_or_empty(&node.arg3);
            let layer = cfg.layer.get(&layer_name);
            let lx = match layer {
                Some(l) => l.x.as_ref(),
                None => None,
            };
            let ly = match layer {
                Some(l) => l.y.as_ref(),
                None => None,
            };
            let lo = match layer {
                Some(l) => l.order.as_ref(),
                None => None,
            };
            let lsx = match layer {
                Some(l) => l.scale_x.as_ref(),
                None => None,
            };
            let lsy = match layer {
                Some(l) => l.scale_y.as_ref(),
                None => None,
            };
            effects.push(
                Effect::SpawnOrUpdateCharacter {
                    label: raw.clone(),
                    motion: motion.clone(),
                    layer: layer_name,
                    x: num_or(pick(node.arg4.as_ref(), pick(e.x.as_ref(), lx)), Milli(0)),
                    y: num_or(pick(node.arg5.as_ref(), pick(e.y.as_ref(), ly)), Milli(0)),
                    z: num_or(pick(e.z.as_ref(), lo), Milli(0)),
                    scale_x: num_or(pick(e.scale.as_ref(), lsx), Milli(1000)),
                    scale_y: num_or(pick(e.scale.as_ref(), lsy), Milli(1000)),
                },
            );
            match &e.name_text {
                Some(nt) => normalize(nt.as_str(), params, cfg),
                None => raw.clone(),
            }
        },
        _ => raw.clone(),
    };
    let (reveal, stop): (Option<String>, bool) = match &node.text {
        Some(t) => {
            let norm = normalize(t.as_str(), params, cfg);
            effects.push(Effect::ShowDialogue { char_name, text: norm.clone() });
            (Some(norm), true)
        },
        None => (None, false),
    };
    let st = StepOut { effects, binding: None, wait: None, reveal, fade: None, stop };
    proof {
        assert(st@.effects =~= spec_default_step(cfg@, params@, node@).effects);
        assert(st@ =~= spec_default_step(cfg@, params@, node@));
    }
    st
}

/// Shows the texture a `Bg`, `BgEvent` or `Sprite` node names.
pub fn img_cmd(cfg: &VNConfig, node: &Node, kind: TextureCategory) -> (effects: Vec<Effect>)
    ensures
        effects.deep_view() == spec_img_cmd(cfg@, node@, kind),
{
    let mut effects: Vec<Effect> = Vec::new();
    let lookup = if kind == TextureCategory::Sprite {
        opt_or_empty(&node.arg2)
    } else {
        opt_or_empty(&node.arg1)
    };
    match cfg.texture.get(&lookup) {
        Some(e) => {
            let file_kind = match &e.entry_type {
                Some(t) => {
                    if str_eq(t.as_str(), "Bg") {
                        TextureCategory::Bg
                    } else if str_eq(t.as_str(), "Event") {
                        TextureCategory::Event
                    } else if str_eq(t.as_str(), "Sprite") {
                        TextureCategory::Sprite
                    } else {
                        kind
                    }
                },
                None => kind,
            };
            let layer_name = opt_or_empty(&node.arg3);
            let layer = cfg.layer.get(&layer_name);
            let lx = match layer {
                Some(l) => l.x.as_ref(),
                None => None,
            };
            let ly = match layer {
                Some(l) => l.y.as_ref(),
                None => None,
            };
            let lo = match layer {
                Some(l) => l.order.as_ref(),
                None => None,
            };
            let lsx = match layer {
                Some(l) => l.scale_x.as_ref(),
                None => None,
            };
            let lsy = match layer {
                Some(l) => l.scale_y.as_ref(),
                None => None,
            };
            effects.push(
                Effect::ShowTexture {
                    category: kind,
                    label: opt_or_empty(&node.arg1),
                    layer: layer_name,
                    file: opt_or_empty(&e.file_name),
                    file_kind,
                    x: num_or(pick(node.arg4.as_ref(), pick(e.x.as_ref(), lx)), Milli(0)),
                    y: num_or(pick(node.arg5.as_ref(), pick(e.y.as_ref(), ly)), Milli(0)),
                    z: num_or(pick(e.z.as_ref(), lo), Milli(0)),
                    scale_x: num_or(pick(e.scale.as_ref(), lsx), Milli(1000)),
                    scale_y: num_or(pick(e.scale.as_ref(), lsy), Milli(1000)),
                },
            );
        },
        None => {},
    }
    proof {
        assert(effects.deep_view() =~= spec_img_cmd(cfg@, node@, kind));
    }
    effects
}

/// Removes characters by label or layer.
pub fn character_off_cmd(node: &Node, match_label: bool) -> (effects: Vec<Effect>)
    ensures
        effects.deep_view() == spec_character_off(node@, match_label),
{
    let mut effects: Vec<Effect> = Vec::new();
    effects.push(
        Effect::HideCharacter {
            filter: CharacterFilter { ident: node.arg1.clone(), match_label },
        },
    );
    proof {
        assert(effects.deep_view() =~= spec_character_off(node@, match_label));
    }
    effects
}

/// Removes every texture of one category.
pub fn bg_off_cmd(kind: TextureCategory) -> (effects: Vec<Effect>)
    ensures
        effects.deep_view() == spec_bg_off(kind),
{
    let mut effects: Vec<Effect> = Vec::new();
    effects.push(
        Effect::HideTexture {
            filter: TextureFilter { category: Some(kind), ident: None, match_label: false },
        },
    );
    proof {
        assert(effects.deep_view() =~= spec_bg_off(kind));
    }
    effects
}

/// Removes sprites by label or layer; `AllSpriteObjects` means all.
pub fn sprite_off_cmd(node: &Node) -> (effects: Vec<Effect>)
    ensures
        effects.deep_view() == spec_sprite_off(node@),
{
    let ident: Option<String> = match &node.arg1 {
        None => None,
        Some(l) => {
            if str_eq(l.as_str(), "AllSpriteObjects") {
                None
            } else {
                Some(l.clone())
            }
        },
    };
    let mut effects: Vec<Effect> = Vec::new();
    effects.push(
        Effect::HideTexture {
            filter: TextureFilter {
                category: Some(TextureCategory::Sprite),
                ident,
                match_label: true,
            },
        },
    );
    proof {
        assert(effects.deep_view() =~= spec_sprite_off(node@));
    }
    effects
}

/// Clears a whole layer: its characters and its textures.
pub fn layer_off_cmd(node: &Node) -> (effects: Vec<Effect>)
    ensures
        effects.deep_view() == spec_layer_off(node@),
{
    let mut effects = character_off_cmd(node, false);
    effects.push(
        Effect::HideTexture {
            filter: TextureFilter { category: None, ident: node.arg1.clone(), match_label: false },
        },
    );
    proof {
        assert(effects.deep_view() =~= spec_layer_off(node@));
    }
    effects
}

fn loop_flag(arg2: &Option<String>, default_loop: bool) -> (r: bool)
    ensures
        r == spec_loop_flag(arg2.deep_view(), default_loop),
{
    match arg2 {
        Some(s) => {
            if str_eq(s.as_str(), "TRUE") {
                true
            } else if str_eq(s.as_str(), "FALSE") {
                false
            } else {
                default_loop
            }
        },
        None => default_loop,
    }
}

/// Starts a clip of one category, fading out its exclusive predecessor.
pub fn sound_cmd(cfg: &VNConfig, node: &Node, cat: AudioCategory) -> (effects: Vec<Effect>)
    ensures
        effects.deep_view() == spec_sound_cmd(cfg@, node@, cat),
{
    let mut effects: Vec<Effect> = Vec::new();
    let label = opt_or_empty(&node.arg1);
    match cfg.sound.get(&label) {
        Some(e) => {
            let volume = num_or(pick(node.arg3.as_ref(), e.volume.as_ref()), Milli(1000));
            let looped = loop_flag(&node.arg2, cat != AudioCategory::Se);
            if cat == AudioCategory::Bgm || cat == AudioCategory::Ambience {
                effects.push(
                    Effect::StopSound {
                        filter: SoundFilter { category: Some(cat), label: None },
                        fade: clamp0(num_or(node.arg5.as_ref(), Milli(200))),
                    },
                );
            }
            let file = m4a_name(&opt_or_empty(&e.file_name));
            effects.push(
                Effect::PlaySound { category: cat, label: label, file, volume, looped },
            );
        },
        None => {},
    }
    proof {
        assert(effects.deep_view() =~= spec_sound_cmd(cfg@, node@, cat));
    }
    effects
}

/// Fades out the clips one stop filter matches.
pub fn stop_sound_item_cmd(node: &Node, cat: Option<AudioCategory>, ignore_label: bool) -> (effects:
    Vec<Effect>)
    ensures
        effects.deep_view() == spec_stop_sound_item(node@, cat, ignore_label),
{
    let mut effects: Vec<Effect> = Vec::new();
    let label: Option<String> = if ignore_label {
        None
    } else {
        node.arg1.clone()
    };
    effects.push(
        Effect::StopSound {
            filter: SoundFilter { category: cat, label },
            fade: clamp0(num_or(node.arg6.as_ref(), Milli(200))),
        },
    );
    proof {
        assert(effects.deep_view() =~= spec_stop_sound_item(node@, cat, ignore_label));
    }
    effects
}

/// Stops the categories a `StopSound` node lists.
pub fn stop_sound_cmd(node: &Node) -> (effects: Vec<Effect>)
    ensures
        effects.deep_view() == spec_stop_sound(node@),
{
    let parts: Vec<String> = match &node.arg1 {
        None => {
            let mut v: Vec<String> = Vec::new();
            v.push(String::from_str("Bgm"));
            v.push(String::from_str("Ambience"));
            v
        },
        Some(s) => {
            if str_eq(s.as_str(), "All") {
                let mut v: Vec<String> = Vec::new();
                v.push(String::from_str("All"));
                v
            } else {
                split_char(s, ',')
            }
        },
    };
    proof {
        assert(parts.deep_view() =~= spec_stop_parts(node@.arg1));
    }
    let mut effects: Vec<Effect> = Vec::new();
    if parts.len() > 4 {
        return effects;
    }
    let ghost ps = parts.deep_view();
    let mut i: usize = 0;
    proof {
        assert(ps.skip(0) =~= ps);
    }
    while i < parts.len()
        invariant
            ps == parts.deep_view(),
            ps == spec_stop_parts(node@.arg1),
            ps.len() == parts.len(),
            ps.len() <= 4,
            0 <= i <= parts.len(),
            effects.deep_view() + spec_stop_parts_effects(ps.skip(i as int), node@)
                == spec_stop_parts_effects(ps, node@),
        decreases parts.len() - i,
    {
        let ghost before = effects.deep_view();
        proof {
            assert(ps.skip(i as int)[0] == ps[i as int]);
            assert(ps.skip(i as int).drop_first() =~= ps.skip(i + 1));
        }
        let p = &parts[i];
        if str_eq(p.as_str(), "All") {
            effects.push(Effect::StopVoice);
            let mut more = stop_sound_item_cmd(node, None, true);
            effects.append(&mut more);
            proof {
                assert(effects.deep_view() =~= spec_stop_parts_effects(ps, node@));
            }
            return effects;
        } else if str_eq(p.as_str(), "Se") {
            let mut more = stop_sound_item_cmd(node, Some(AudioCategory::Se), true);
            effects.append(&mut more);
        } else if str_eq(p.as_str(), "Bgm") {
            let mut more = stop_sound_item_cmd(node, Some(AudioCategory::Bgm), true);
            effects.append(&mut more);
        } else if str_eq(p.as_str(), "Ambience") {
            let mut more = stop_sound_item_cmd(node, Some(AudioCategory::Ambience), true);
            effects.append(&mut more);
        } else if str_eq(p.as_str(), "Voice") {
            effects.push(Effect::StopVoice);
        }
        proof {
            assert(effects.deep_view() + spec_stop_parts_effects(ps.skip(i + 1), node@)
                =~= before + (spec_stop_parts_effects(ps.skip(i as int), node@)));
        }
        i += 1;
    }
    proof {
        assert(ps.skip(i as int).len() == 0);
        assert(effects.deep_view() + spec_stop_parts_effects(ps.skip(i as int), node@)
            =~= effects.deep_view());
    }
    effects
}

/// Stops the in-flight voice and starts the node's voice clip.
pub fn voice_cmd(node: &Node) -> (effects: Vec<Effect>)
    ensures
        effects.deep_view() == spec_voice_cmd(node@),
{
    let mut effects: Vec<Effect> = Vec::new();
    match &node.voice {
        Some(v) => {
            effects.push(Effect::StopVoice);
            effects.push(
                Effect::PlayVoice {
                    file: voice_file(v),
                    volume: num_or(node.arg3.as_ref(), Milli(1000)),
                    looped: loop_flag(&node.arg2, false),
                },
            );
        },
        None => {},
    }
    proof {
        assert(effects.deep_view() =~= spec_voice_cmd(node@));
    }
    effects
}

/// Stops the in-flight voice clip.
pub fn stop_voice_cmd() -> (effects: Vec<Effect>)
    ensures
        effects.deep_view() == seq![EffectV::StopVoice],
{
    let mut effects: Vec<Effect> = Vec::new();
    effects.push(Effect::StopVoice);
    proof {
        assert(effects.deep_view() =~= seq![EffectV::StopVoice]);
    }
    effects
}

/// Reads a `Param` node's `key=value` binding, if it is well formed.
#[verifier::rlimit(60)]
pub fn param_cmd(node: &Node) -> (r: Option<(String, String)>)
    ensures
        r.deep_view() == spec_param_pair(node@.arg1),
{
    proof {
        reveal_strlit("\\\"");
    }
    let pattern_s = remove_sub(&opt_or_empty(&node.arg1), "\\\"");
    let pattern = chars_of(pattern_s.as_str());
    let n = pattern.len();
    match find_char_in(&pattern, 0, n, '=') {
        None => {
            proof {
                assert(pattern@.subrange(0, n as int) =~= pattern@);
            }
            None
        },
        Some(e) => {
            proof {
                assert(pattern@.subrange(0, n as int) =~= pattern@);
            }
            if e > 0 && e + 1 < n {
                let k = string_of_range(&pattern, 0, e);
                let v = string_of_range(&pattern, e + 1, n);
                Some((k, remove_char(&v, '"')))
            } else {
                None
            }
        },
    }
}

/// Emits a fade overlay and reports its duration.
pub fn fade_overlay_cmd(node: &Node, fade_out: bool) -> (r: (Vec<Effect>, Milli))
    ensures
        r.0.deep_view() == spec_fade_cmd(node@, fade_out).0,
        r.1.0 == spec_fade_cmd(node@, fade_out).1,
{
    let color = match &node.arg1 {
        Some(c) => c.clone(),
        None => String::from_str("#FFFFFF"),
    };
    let d = clamp0(num_or(node.arg6.as_ref(), Milli(200)));
    let mut effects: Vec<Effect> = Vec::new();
    effects.push(Effect::FadeOverlay { color, duration: d, fade_out });
    proof {
        assert(effects.deep_view() =~= spec_fade_cmd(node@, fade_out).0);
    }
    (effects, d)
}

fn plain_out(effects: Vec<Effect>) -> (st: StepOut)
    ensures
        st@ == plain_step(effects.deep_view()),
{
    StepOut { effects, binding: None, wait: None, reveal: None, fade: None, stop: false }
}

/// Performs one node: dispatches on its command and reports the step's
/// outcome.
pub fn step_node(cfg: &VNConfig, params: &Table<String>, node: &Node) -> (st: StepOut)
    ensures
        st@ == spec_step_node(cfg@, params@, node@),
{
    match &node.command {
        None => default_cmd(cfg, params, node),
        Some(c) => {
            let cs = c.as_str();
            if str_eq(cs, "CharacterOff") {
                plain_out(character_off_cmd(node, true))
            } else if str_eq(cs, "Bg") {
                plain_out(img_cmd(cfg, node, TextureCategory::Bg))
            } else if str_eq(cs, "BgEvent") {
                plain_out(img_cmd(cfg, node, TextureCategory::Event))
            } else if str_eq(cs, "Sprite") {
                plain_out(img_cmd(cfg, node, TextureCategory::Sprite))
            } else if str_eq(cs, "BgOff") {
                plain_out(bg_off_cmd(TextureCategory::Bg))
            } else if str_eq(cs, "BgEventOff") {
                plain_out(bg_off_cmd(TextureCategory::Event))
            } else if str_eq(cs, "SpriteOff") {
                plain_out(sprite_off_cmd(node))
            } else if str_eq(cs, "LayerOff") {
                plain_out(layer_off_cmd(node))
            } else if str_eq(cs, "Se") {
                plain_out(sound_cmd(cfg, node, AudioCategory::Se))
            } else if str_eq(cs, "Bgm") {
                plain_out(sound_cmd(cfg, node, AudioCategory::Bgm))
            } else if str_eq(cs, "Ambience") {
                plain_out(sound_cmd(cfg, node, AudioCategory::Ambience))
            } else if str_eq(cs, "StopSe") {
                plain_out(stop_sound_item_cmd(node, Some(AudioCategory::Se), false))
            } else if str_eq(cs, "StopBgm") {
                plain_out(stop_sound_item_cmd(node, Some(AudioCategory::Bgm), false))
            } else if str_eq(cs, "StopAmbience") {
                plain_out(stop_sound_item_cmd(node, Some(AudioCategory::Ambience), false))
            } else if str_eq(cs, "Voice") {
                plain_out(voice_cmd(node))
            } else if str_eq(cs, "StopVoice") {
                plain_out(stop_voice_cmd())
            } else if str_eq(cs, "StopSound") {
                plain_out(stop_sound_cmd(node))
            } else if str_eq(cs, "Wait") {
                let d = clamp0(num_or(node.arg6.as_ref(), Milli(100)));
                let mut effects: Vec<Effect> = Vec::new();
                effects.push(Effect::Wait { duration: d });
                proof {
                    assert(effects.deep_view() =~= seq![
                        EffectV::Wait { duration: spec_wait_duration(node@) },
                    ]);
                }
                StepOut {
                    effects,
                    binding: None,
                    wait: Some(d),
                    reveal: None,
                    fade: None,
                    stop: true,
                }
            } else if str_eq(cs, "FadeOut") {
                let (effects, d) = fade_overlay_cmd(node, true);
                StepOut {
                    effects,
                    binding: None,
                    wait: None,
                    reveal: None,
                    fade: Some(d),
                    stop: false,
                }
            } else if str_eq(cs, "FadeIn") {
                let (effects, d) = fade_overlay_cmd(node, false);
                StepOut {
                    effects,
                    binding: None,
                    wait: None,
                    reveal: None,
                    fade: Some(d),
                    stop: false,
                }
            } else if str_eq(cs, "Param") {
                StepOut {
                    effects: Vec::new(),
                    binding: param_cmd(node),
                    wait: None,
                    reveal: None,
                    fade: None,
                    stop: false,
                }
            } else {
                plain_out(Vec::new())
            }
        },
    }
}

} // verus!
