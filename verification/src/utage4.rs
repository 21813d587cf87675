//! The scenario-script loader: turns the wire-shaped documents into the
//! chapter configuration tables and the ordered node sequence.
//!
//! A malformed document never fails loudly: `parse_chapter` degrades to an
//! empty configuration and `parse_book` to an empty node sequence, so that
//! playback tolerates upstream tool corruption.

use vstd::prelude::*;

use crate::chars::{chars_of, contains_sub, contains_sub_chars};
use crate::doc::{parse_doc, spec_doc_of, Grid, GridV, RootV, Row, RowV};
use crate::entries::{
    character_entry_of, layer_entry_of, mget, param_entry_of, sound_entry_of, spec_character_entry,
    spec_layer_entry, spec_mget, spec_param_entry, spec_sound_entry, spec_texture_entry,
    texture_entry_of, CharacterEntry, CharacterEntryV, LayerEntry, LayerEntryV, ParamEntry,
    ParamEntryV, SoundEntry, SoundEntryV, TextureEntry, TextureEntryV,
};
use crate::table::Table;

verus! {

/// The column-name-to-cell map of one row: a header column contributes
/// its cell when both the column name and the cell are non-empty; a
/// repeated column name keeps the cell of its last occurrence.
pub open spec fn spec_row_map(headers: Seq<Seq<char>>, cells: Seq<Seq<char>>) -> Map<
    Seq<char>,
    Seq<char>,
>
    decreases headers.len(),
{
    if headers.len() == 0 {
        Map::empty()
    } else {
        let m = spec_row_map(headers.drop_last(), cells);
        let i = headers.len() - 1;
        if headers[i].len() > 0 && i < cells.len() && cells[i].len() > 0 {
            m.insert(headers[i], cells[i])
        } else {
            m
        }
    }
}

pub proof fn lemma_row_map_finite(headers: Seq<Seq<char>>, cells: Seq<Seq<char>>)
    ensures
        spec_row_map(headers, cells).dom().finite(),
    decreases headers.len(),
{
    if headers.len() > 0 {
        lemma_row_map_finite(headers.drop_last(), cells);
    }
}

/// Maps the named columns of one row to the row's cells, skipping empty
/// column names and empty cells.
pub fn row_to_map(row: &Row, headers: &Vec<String>) -> (m: Table<String>)
    ensures
        m@ == spec_row_map(headers.deep_view(), row@.strings),
{
    let ghost hs = headers.deep_view();
    let ghost cs = row@.strings;
    let mut m: Table<String> = Table::new();
    let mut i: usize = 0;
    proof {
        assert(hs.subrange(0, 0) =~= Seq::<Seq<char>>::empty());
    }
    while i < headers.len()
        invariant
            hs == headers.deep_view(),
            cs == row@.strings,
            hs.len() == headers.len(),
            cs.len() == row.strings.len(),
            0 <= i <= headers.len(),
            m@ == spec_row_map(hs.subrange(0, i as int), cs),
        decreases headers.len() - i,
    {
        proof {
            assert(hs.subrange(0, i + 1).drop_last() =~= hs.subrange(0, i as int));
            assert(hs.subrange(0, i + 1).last() == hs[i as int]);
        }
        if !headers[i].as_str().is_empty() && i < row.strings.len() && !row.strings[i]
            .as_str()
            .is_empty() {
            m = m.insert(headers[i].clone(), row.strings[i].clone());
        }
        i += 1;
    }
    proof {
        assert(hs.subrange(0, hs.len() as int) =~= hs);
    }
    m
}

/// One script instruction, the wire-level shape of a row.
#[derive(Clone, Debug)]
pub struct Node {
    pub command: Option<String>,
    pub arg1: Option<String>,
    pub arg2: Option<String>,
    pub arg3: Option<String>,
    pub arg4: Option<String>,
    pub arg5: Option<String>,
    pub arg6: Option<String>,
    pub wait_type: Option<String>,
    pub text: Option<String>,
    pub page_ctrl: Option<String>,
    pub voice: Option<String>,
    pub window_type: Option<String>,
}

#[verifier::ext_equal]
pub struct NodeV {
    pub command: Option<Seq<char>>,
    pub arg1: Option<Seq<char>>,
    pub arg2: Option<Seq<char>>,
    pub arg3: Option<Seq<char>>,
    pub arg4: Option<Seq<char>>,
    pub arg5: Option<Seq<char>>,
    pub arg6: Option<Seq<char>>,
    pub wait_type: Option<Seq<char>>,
    pub text: Option<Seq<char>>,
    pub page_ctrl: Option<Seq<char>>,
    pub voice: Option<Seq<char>>,
    pub window_type: Option<Seq<char>>,
}

impl View for Node {
    type V = NodeV;

    open spec fn view(&self) -> NodeV {
        NodeV {
            command: self.command.deep_view(),
            arg1: self.arg1.deep_view(),
            arg2: self.arg2.deep_view(),
            arg3: self.arg3.deep_view(),
            arg4: self.arg4.deep_view(),
            arg5: self.arg5.deep_view(),
            arg6: self.arg6.deep_view(),
            wait_type: self.wait_type.deep_view(),
            text: self.text.deep_view(),
            page_ctrl: self.page_ctrl.deep_view(),
            voice: self.voice.deep_view(),
            window_type: self.window_type.deep_view(),
        }
    }
}

impl DeepView for Node {
    type V = NodeV;

    open spec fn deep_view(&self) -> NodeV {
        self.view()
    }
}

/// The all-absent node.
pub open spec fn empty_node() -> NodeV {
    NodeV {
        command: None,
        arg1: None,
        arg2: None,
        arg3: None,
        arg4: None,
        arg5: None,
        arg6: None,
        wait_type: None,
        text: None,
        page_ctrl: None,
        voice: None,
        window_type: None,
    }
}

impl Default for Node {
    fn default() -> (r: Node)
        ensures
            r@ == empty_node(),
    {
        Node {
            command: None,
            arg1: None,
            arg2: None,
            arg3: None,
            arg4: None,
            arg5: None,
            arg6: None,
            wait_type: None,
            text: None,
            page_ctrl: None,
            voice: None,
            window_type: None,
        }
    }
}

/// The node read from one row map, each field from its named column.
pub open spec fn spec_node_of(m: Map<Seq<char>, Seq<char>>) -> NodeV {
    NodeV {
        command: spec_mget(m, "Command"@),
        arg1: spec_mget(m, "Arg1"@),
        arg2: spec_mget(m, "Arg2"@),
        arg3: spec_mget(m, "Arg3"@),
        arg4: spec_mget(m, "Arg4"@),
        arg5: spec_mget(m, "Arg5"@),
        arg6: spec_mget(m, "Arg6"@),
        wait_type: spec_mget(m, "WaitType"@),
        text: spec_mget(m, "Text"@),
        page_ctrl: spec_mget(m, "PageCtrl"@),
        voice: spec_mget(m, "Voice"@),
        window_type: spec_mget(m, "WindowType"@),
    }
}

fn node_of_map(m: &Table<String>) -> (n: Node)
    ensures
        n@ == spec_node_of(m@),
{
    Node {
        command: mget(m, "Command"),
        arg1: mget(m, "Arg1"),
        arg2: mget(m, "Arg2"),
        arg3: mget(m, "Arg3"),
        arg4: mget(m, "Arg4"),
        arg5: mget(m, "Arg5"),
        arg6: mget(m, "Arg6"),
        wait_type: mget(m, "WaitType"),
        text: mget(m, "Text"),
        page_ctrl: mget(m, "PageCtrl"),
        voice: mget(m, "Voice"),
        window_type: mget(m, "WindowType"),
    }
}

/// What row `i` of grid `g` contributes to the node sequence: nothing for
/// the header row, a commented-out row, or a row whose map is empty.
pub open spec fn spec_book_row(g: GridV, i: int) -> Seq<NodeV> {
    let row = g.rows[i];
    let headers = g.rows[g.header_row].strings;
    if i == g.header_row || row.is_comment_out == 1 {
        Seq::empty()
    } else {
        let m = spec_row_map(headers, row.strings);
        if m == Map::<Seq<char>, Seq<char>>::empty() {
            Seq::empty()
        } else {
            seq![spec_node_of(m)]
        }
    }
}

pub open spec fn spec_book_grid_rows(g: GridV, n: int) -> Seq<NodeV>
    decreases n,
{
    if n <= 0 {
        Seq::empty()
    } else {
        spec_book_grid_rows(g, n - 1) + spec_book_row(g, n - 1)
    }
}

/// The nodes of one grid, in row order; a grid whose header row is out of
/// range contributes nothing.
pub open spec fn spec_book_grid(g: GridV) -> Seq<NodeV> {
    if 0 <= g.header_row < g.rows.len() {
        spec_book_grid_rows(g, g.rows.len() as int)
    } else {
        Seq::empty()
    }
}

pub open spec fn spec_book_grids(gs: Seq<GridV>, n: int) -> Seq<NodeV>
    decreases n,
{
    if n <= 0 {
        Seq::empty()
    } else {
        spec_book_grids(gs, n - 1) + spec_book_grid(gs[n - 1])
    }
}

/// The node sequence a book document denotes: every grid contributes its
/// rows in order, and a malformed document denotes the empty sequence.
pub open spec fn spec_book(doc: Option<RootV>) -> Seq<NodeV> {
    match doc {
        Some(root) => spec_book_grids(root.setting_list, root.setting_list.len() as int),
        None => Seq::empty(),
    }
}

/// Parses a book document into its node sequence, in document row order.
/// A malformed document yields the empty sequence.
pub fn parse_book(content: String) -> (nodes: Vec<Node>)
    ensures
        nodes.deep_view() == spec_book(spec_doc_of(content@)),
{
    let mut nodes: Vec<Node> = Vec::new();
    let doc = match parse_doc(content.as_str()) {
        Some(d) => d,
        None => {
            return nodes;
        },
    };
    let ghost gs = doc@.setting_list;
    let mut gi: usize = 0;
    while gi < doc.setting_list.len()
        invariant
            gs == doc@.setting_list,
            gs.len() == doc.setting_list.len(),
            0 <= gi <= doc.setting_list.len(),
            nodes.deep_view() == spec_book_grids(gs, gi as int),
        decreases doc.setting_list.len() - gi,
    {
        let grid = &doc.setting_list[gi];
        let ghost g = grid@;
        if grid.header_row < grid.rows.len() {
            let mut ri: usize = 0;
            while ri < grid.rows.len()
                invariant
                    gs == doc@.setting_list,
                    gs.len() == doc.setting_list.len(),
                    gi < doc.setting_list.len(),
                    g == doc.setting_list[gi as int]@,
                    g.rows.len() == grid.rows.len(),
                    grid == &doc.setting_list[gi as int],
                    0 <= g.header_row < g.rows.len(),
                    0 <= ri <= grid.rows.len(),
                    nodes.deep_view() == spec_book_grids(gs, gi as int) + spec_book_grid_rows(
                        g,
                        ri as int,
                    ),
                decreases grid.rows.len() - ri,
            {
                let row = &grid.rows[ri];
                if ri != grid.header_row && row.is_comment_out != 1 {
                    let m = row_to_map(row, &grid.rows[grid.header_row].strings);
                    proof {
                        lemma_row_map_finite(g.rows[g.header_row].strings, g.rows[ri as int].strings);
                    }
                    if m.len() > 0 {
                        let ghost before = nodes.deep_view();
                        let n = node_of_map(&m);
                        let ghost nv = n@;
                        nodes.push(n);
                        proof {
                            if m@ == Map::<Seq<char>, Seq<char>>::empty() {
                                assert(m@.dom() =~= Set::<Seq<char>>::empty());
                            }
                            assert(nodes.deep_view() =~= before + seq![nv]);
                            assert(spec_book_row(g, ri as int) == seq![nv]);
                        }
                    } else {
                        proof {
                            assert(m@.dom() =~= Set::<Seq<char>>::empty());
                            assert(m@ =~= Map::<Seq<char>, Seq<char>>::empty());
                            assert(spec_book_row(g, ri as int) == Seq::<NodeV>::empty());
                        }
                    }
                }
                proof {
                    assert(nodes.deep_view() =~= spec_book_grids(gs, gi as int)
                        + spec_book_grid_rows(g, ri + 1));
                }
                ri += 1;
            }
        }
        gi += 1;
    }
    proof {
        assert(gs.len() as int == gs.len());
    }
    nodes
}

/// The aggregate chapter configuration: five label-keyed entry tables.
pub struct VNConfig {
    pub character: Table<CharacterEntry>,
    pub layer: Table<LayerEntry>,
    pub param: Table<ParamEntry>,
    pub sound: Table<SoundEntry>,
    pub texture: Table<TextureEntry>,
}

#[verifier::ext_equal]
pub struct VNConfigV {
    pub character: Map<Seq<char>, CharacterEntryV>,
    pub layer: Map<Seq<char>, LayerEntryV>,
    pub param: Map<Seq<char>, ParamEntryV>,
    pub sound: Map<Seq<char>, SoundEntryV>,
    pub texture: Map<Seq<char>, TextureEntryV>,
}

impl View for VNConfig {
    type V = VNConfigV;

    open spec fn view(&self) -> VNConfigV {
        VNConfigV {
            character: self.character@,
            layer: self.layer@,
            param: self.param@,
            sound: self.sound@,
            texture: self.texture@,
        }
    }
}

/// The configuration with all five tables empty.
pub open spec fn empty_config() -> VNConfigV {
    VNConfigV {
        character: Map::empty(),
        layer: Map::empty(),
        param: Map::empty(),
        sound: Map::empty(),
        texture: Map::empty(),
    }
}

impl Default for VNConfig {
    fn default() -> (r: VNConfig)
        ensures
            r@ == empty_config(),
    {
        VNConfig {
            character: Table::new(),
            layer: Table::new(),
            param: Table::new(),
            sound: Table::new(),
            texture: Table::new(),
        }
    }
}

/// What row `i` of grid `g` contributes to an entry table: nothing for
/// the header row, a commented-out row, a row whose map is empty, or a
/// row whose key column is absent or empty; otherwise the built entry is
/// bound to the key, overwriting an earlier binding.
pub open spec fn spec_entry_row<E>(
    t: Map<Seq<char>, E>,
    g: GridV,
    key_col: Seq<char>,
    build: spec_fn(Map<Seq<char>, Seq<char>>, RowV) -> E,
    i: int,
) -> Map<Seq<char>, E> {
    let row = g.rows[i];
    let headers = g.rows[g.header_row].strings;
    if i == g.header_row || row.is_comment_out == 1 {
        t
    } else {
        let m = spec_row_map(headers, row.strings);
        if m == Map::<Seq<char>, Seq<char>>::empty() {
            t
        } else {
            match spec_mget(m, key_col) {
                Some(name) => if name.len() > 0 {
                    t.insert(name, build(m, row))
                } else {
                    t
                },
                None => t,
            }
        }
    }
}

pub open spec fn spec_entry_rows<E>(
    t: Map<Seq<char>, E>,
    g: GridV,
    key_col: Seq<char>,
    build: spec_fn(Map<Seq<char>, Seq<char>>, RowV) -> E,
    n: int,
) -> Map<Seq<char>, E>
    decreases n,
{
    if n <= 0 {
        t
    } else {
        spec_entry_row(spec_entry_rows(t, g, key_col, build, n - 1), g, key_col, build, n - 1)
    }
}

pub open spec fn character_build() -> spec_fn(Map<Seq<char>, Seq<char>>, RowV) -> CharacterEntryV {
    |m: Map<Seq<char>, Seq<char>>, row: RowV| spec_character_entry(m, row)
}

pub open spec fn layer_build() -> spec_fn(Map<Seq<char>, Seq<char>>, RowV) -> LayerEntryV {
    |m: Map<Seq<char>, Seq<char>>, row: RowV| spec_layer_entry(m)
}

pub open spec fn param_build() -> spec_fn(Map<Seq<char>, Seq<char>>, RowV) -> ParamEntryV {
    |m: Map<Seq<char>, Seq<char>>, row: RowV| spec_param_entry(m)
}

pub open spec fn sound_build() -> spec_fn(Map<Seq<char>, Seq<char>>, RowV) -> SoundEntryV {
    |m: Map<Seq<char>, Seq<char>>, row: RowV| spec_sound_entry(m)
}

pub open spec fn texture_build() -> spec_fn(Map<Seq<char>, Seq<char>>, RowV) -> TextureEntryV {
    |m: Map<Seq<char>, Seq<char>>, row: RowV| spec_texture_entry(m)
}

/// What one grid contributes to the configuration. The grid name is
/// matched by substring containment against the five known table names,
/// in a fixed order; an unmatched or header-less grid contributes
/// nothing.
pub open spec fn spec_apply_grid(cfg: VNConfigV, g: GridV) -> VNConfigV {
    if !(0 <= g.header_row < g.rows.len()) {
        cfg
    } else if contains_sub(g.name, "cfg_character.xlsx:Character"@) {
        VNConfigV {
            character: spec_entry_rows(
                cfg.character,
                g,
                "CharacterName"@,
                character_build(),
                g.rows.len() as int,
            ),
            ..cfg
        }
    } else if contains_sub(g.name, "cfg_layer.xlsx:Layer"@) {
        VNConfigV {
            layer: spec_entry_rows(cfg.layer, g, "LayerName"@, layer_build(), g.rows.len() as int),
            ..cfg
        }
    } else if contains_sub(g.name, "cfg_param.xlsx:Param"@) {
        VNConfigV {
            param: spec_entry_rows(cfg.param, g, "Label"@, param_build(), g.rows.len() as int),
            ..cfg
        }
    } else if contains_sub(g.name, "cfg_sound.xlsx:Sound"@) {
        VNConfigV {
            sound: spec_entry_rows(cfg.sound, g, "Label"@, sound_build(), g.rows.len() as int),
            ..cfg
        }
    } else if contains_sub(g.name, "cfg_texture.xlsx:Texture"@) {
        VNConfigV {
            texture: spec_entry_rows(cfg.texture, g, "Label"@, texture_build(), g.rows.len() as int),
            ..cfg
        }
    } else {
        cfg
    }
}

pub open spec fn spec_chapter_grids(gs: Seq<GridV>, n: int) -> VNConfigV
    decreases n,
{
    if n <= 0 {
        empty_config()
    } else {
        spec_apply_grid(spec_chapter_grids(gs, n - 1), gs[n - 1])
    }
}

/// The configuration a chapter document denotes; a malformed document
/// denotes the empty configuration.
pub open spec fn spec_chapter(doc: Option<RootV>) -> VNConfigV {
    match doc {
        Some(root) => spec_chapter_grids(root.setting_list, root.setting_list.len() as int),
        None => empty_config(),
    }
}


fn character_rows(t: Table<CharacterEntry>, grid: &Grid) -> (r: Table<CharacterEntry>)
    requires
        grid.header_row < grid.rows.len(),
    ensures
        r@ == spec_entry_rows(t@, grid@, "CharacterName"@, character_build(), grid@.rows.len() as int),
{
    let ghost g = grid@;
    let ghost t0 = t@;
    let mut t = t;
    let mut ri: usize = 0;
    while ri < grid.rows.len()
        invariant
            g == grid@,
            g.rows.len() == grid.rows.len(),
            grid.header_row < grid.rows.len(),
            0 <= ri <= grid.rows.len(),
            t@ == spec_entry_rows(t0, g, "CharacterName"@, character_build(), ri as int),
        decreases grid.rows.len() - ri,
    {
        let row = &grid.rows[ri];
        if ri != grid.header_row && row.is_comment_out != 1 {
            let m = row_to_map(row, &grid.rows[grid.header_row].strings);
            proof {
                lemma_row_map_finite(g.rows[g.header_row as int].strings, g.rows[ri as int].strings);
            }
            if m.len() > 0 {
                proof {
                    if m@ == Map::<Seq<char>, Seq<char>>::empty() {
                        assert(m@.dom() =~= Set::<Seq<char>>::empty());
                    }
                }
                match mget(&m, "CharacterName") {
                    Some(name) => {
                        if !name.as_str().is_empty() {
                            let e = character_entry_of(&m, row);
                            t = t.insert(name, e);
                        }
                    },
                    None => {},
                }
            } else {
                proof {
                    assert(m@.dom() =~= Set::<Seq<char>>::empty());
                    assert(m@ =~= Map::<Seq<char>, Seq<char>>::empty());
                }
            }
        }
        ri += 1;
    }
    t
}

fn layer_rows(t: Table<LayerEntry>, grid: &Grid) -> (r: Table<LayerEntry>)
    requires
        grid.header_row < grid.rows.len(),
    ensures
        r@ == spec_entry_rows(t@, grid@, "LayerName"@, layer_build(), grid@.rows.len() as int),
{
    let ghost g = grid@;
    let ghost t0 = t@;
    let mut t = t;
    let mut ri: usize = 0;
    while ri < grid.rows.len()
        invariant
            g == grid@,
            g.rows.len() == grid.rows.len(),
            grid.header_row < grid.rows.len(),
            0 <= ri <= grid.rows.len(),
            t@ == spec_entry_rows(t0, g, "LayerName"@, layer_build(), ri as int),
        decreases grid.rows.len() - ri,
    {
        let row = &grid.rows[ri];
        if ri != grid.header_row && row.is_comment_out != 1 {
            let m = row_to_map(row, &grid.rows[grid.header_row].strings);
            proof {
                lemma_row_map_finite(g.rows[g.header_row as int].strings, g.rows[ri as int].strings);
            }
            if m.len() > 0 {
                proof {
                    if m@ == Map::<Seq<char>, Seq<char>>::empty() {
                        assert(m@.dom() =~= Set::<Seq<char>>::empty());
                    }
                }
                match mget(&m, "LayerName") {
                    Some(name) => {
                        if !name.as_str().is_empty() {
                            let e = layer_entry_of(&m);
                            t = t.insert(name, e);
                        }
                    },
                    None => {},
                }
            } else {
                proof {
                    assert(m@.dom() =~= Set::<Seq<char>>::empty());
                    assert(m@ =~= Map::<Seq<char>, Seq<char>>::empty());
                }
            }
        }
        ri += 1;
    }
    t
}

fn param_rows(t: Table<ParamEntry>, grid: &Grid) -> (r: Table<ParamEntry>)
    requires
        grid.header_row < grid.rows.len(),
    ensures
        r@ == spec_entry_rows(t@, grid@, "Label"@, param_build(), grid@.rows.len() as int),
{
    let ghost g = grid@;
    let ghost t0 = t@;
    let mut t = t;
    let mut ri: usize = 0;
    while ri < grid.rows.len()
        invariant
            g == grid@,
            g.rows.len() == grid.rows.len(),
            grid.header_row < grid.rows.len(),
            0 <= ri <= grid.rows.len(),
            t@ == spec_entry_rows(t0, g, "Label"@, param_build(), ri as int),
        decreases grid.rows.len() - ri,
    {
        let row = &grid.rows[ri];
        if ri != grid.header_row && row.is_comment_out != 1 {
            let m = row_to_map(row, &grid.rows[grid.header_row].strings);
            proof {
                lemma_row_map_finite(g.rows[g.header_row as int].strings, g.rows[ri as int].strings);
            }
            if m.len() > 0 {
                proof {
                    if m@ == Map::<Seq<char>, Seq<char>>::empty() {
                        assert(m@.dom() =~= Set::<Seq<char>>::empty());
                    }
                }
                match mget(&m, "Label") {
                    Some(name) => {
                        if !name.as_str().is_empty() {
                            let e = param_entry_of(&m);
                            t = t.insert(name, e);
                        }
                    },
                    None => {},
                }
            } else {
                proof {
                    assert(m@.dom() =~= Set::<Seq<char>>::empty());
                    assert(m@ =~= Map::<Seq<char>, Seq<char>>::empty());
                }
            }
        }
        ri += 1;
    }
    t
}

fn sound_rows(t: Table<SoundEntry>, grid: &Grid) -> (r: Table<SoundEntry>)
    requires
        grid.header_row < grid.rows.len(),
    ensures
        r@ == spec_entry_rows(t@, grid@, "Label"@, sound_build(), grid@.rows.len() as int),
{
    let ghost g = grid@;
    let ghost t0 = t@;
    let mut t = t;
    let mut ri: usize = 0;
    while ri < grid.rows.len()
        invariant
            g == grid@,
            g.rows.len() == grid.rows.len(),
            grid.header_row < grid.rows.len(),
            0 <= ri <= grid.rows.len(),
            t@ == spec_entry_rows(t0, g, "Label"@, sound_build(), ri as int),
        decreases grid.rows.len() - ri,
    {
        let row = &grid.rows[ri];
        if ri != grid.header_row && row.is_comment_out != 1 {
            let m = row_to_map(row, &grid.rows[grid.header_row].strings);
            proof {
                lemma_row_map_finite(g.rows[g.header_row as int].strings, g.rows[ri as int].strings);
            }
            if m.len() > 0 {
                proof {
                    if m@ == Map::<Seq<char>, Seq<char>>::empty() {
                        assert(m@.dom() =~= Set::<Seq<char>>::empty());
                    }
                }
                match mget(&m, "Label") {
                    Some(name) => {
                        if !name.as_str().is_empty() {
                            let e = sound_entry_of(&m);
                            t = t.insert(name, e);
                        }
                    },
                    None => {},
                }
            } else {
                proof {
                    assert(m@.dom() =~= Set::<Seq<char>>::empty());
                    assert(m@ =~= Map::<Seq<char>, Seq<char>>::empty());
                }
            }
        }
        ri += 1;
    }
    t
}

fn texture_rows(t: Table<TextureEntry>, grid: &Grid) -> (r: Table<TextureEntry>)
    requires
        grid.header_row < grid.rows.len(),
    ensures
        r@ == spec_entry_rows(t@, grid@, "Label"@, texture_build(), grid@.rows.len() as int),
{
    let ghost g = grid@;
    let ghost t0 = t@;
    let mut t = t;
    let mut ri: usize = 0;
    while ri < grid.rows.len()
        invariant
            g == grid@,
            g.rows.len() == grid.rows.len(),
            grid.header_row < grid.rows.len(),
            0 <= ri <= grid.rows.len(),
            t@ == spec_entry_rows(t0, g, "Label"@, texture_build(), ri as int),
        decreases grid.rows.len() - ri,
    {
        let row = &grid.rows[ri];
        if ri != grid.header_row && row.is_comment_out != 1 {
            let m = row_to_map(row, &grid.rows[grid.header_row].strings);
            proof {
                lemma_row_map_finite(g.rows[g.header_row as int].strings, g.rows[ri as int].strings);
            }
            if m.len() > 0 {
                proof {
                    if m@ == Map::<Seq<char>, Seq<char>>::empty() {
                        assert(m@.dom() =~= Set::<Seq<char>>::empty());
                    }
                }
                match mget(&m, "Label") {
                    Some(name) => {
                        if !name.as_str().is_empty() {
                            let e = texture_entry_of(&m);
                            t = t.insert(name, e);
                        }
                    },
                    None => {},
                }
            } else {
                proof {
                    assert(m@.dom() =~= Set::<Seq<char>>::empty());
                    assert(m@ =~= Map::<Seq<char>, Seq<char>>::empty());
                }
            }
        }
        ri += 1;
    }
    t
}

fn apply_grid(cfg: VNConfig, grid: &Grid) -> (r: VNConfig)
    ensures
        r@ == spec_apply_grid(cfg@, grid@),
{
    if grid.header_row >= grid.rows.len() {
        return cfg;
    }
    let name_chars = chars_of(grid.name.as_str());
    let VNConfig { mut character, mut layer, mut param, mut sound, mut texture } = cfg;
    if contains_sub_chars(&name_chars, &chars_of("cfg_character.xlsx:Character")) {
        character = character_rows(character, grid);
    } else if contains_sub_chars(&name_chars, &chars_of("cfg_layer.xlsx:Layer")) {
        layer = layer_rows(layer, grid);
    } else if contains_sub_chars(&name_chars, &chars_of("cfg_param.xlsx:Param")) {
        param = param_rows(param, grid);
    } else if contains_sub_chars(&name_chars, &chars_of("cfg_sound.xlsx:Sound")) {
        sound = sound_rows(sound, grid);
    } else if contains_sub_chars(&name_chars, &chars_of("cfg_texture.xlsx:Texture")) {
        texture = texture_rows(texture, grid);
    }
    VNConfig { character, layer, param, sound, texture }
}

/// Parses a chapter document into the configuration tables. A malformed
/// document yields the default, all-empty configuration.
pub fn parse_chapter(content: String) -> (cfg: VNConfig)
    ensures
        cfg@ == spec_chapter(spec_doc_of(content@)),
{
    let mut cfg = VNConfig::default();
    let doc = match parse_doc(content.as_str()) {
        Some(d) => d,
        None => {
            return cfg;
        },
    };
    let ghost gs = doc@.setting_list;
    let mut gi: usize = 0;
    while gi < doc.setting_list.len()
        invariant
            gs == doc@.setting_list,
            gs.len() == doc.setting_list.len(),
            0 <= gi <= doc.setting_list.len(),
            cfg@ == spec_chapter_grids(gs, gi as int),
        decreases doc.setting_list.len() - gi,
    {
        cfg = apply_grid(cfg, &doc.setting_list[gi]);
        gi += 1;
    }
    cfg
}

/// A commented-out row never contributes, regardless of its content:
/// not a node to a book, and not an entry to a configuration table.
pub proof fn lemma_comment_row_ignored<E>(
    g: GridV,
    i: int,
    t: Map<Seq<char>, E>,
    key_col: Seq<char>,
    build: spec_fn(Map<Seq<char>, Seq<char>>, RowV) -> E,
)
    requires
        0 <= i < g.rows.len(),
        g.rows[i].is_comment_out == 1,
    ensures
        spec_book_row(g, i) == Seq::<NodeV>::empty(),
        spec_entry_row(t, g, key_col, build, i) == t,
{
}

/// The header row itself never contributes a node or an entry.
pub proof fn lemma_header_row_ignored<E>(
    g: GridV,
    t: Map<Seq<char>, E>,
    key_col: Seq<char>,
    build: spec_fn(Map<Seq<char>, Seq<char>>, RowV) -> E,
)
    ensures
        spec_book_row(g, g.header_row) == Seq::<NodeV>::empty(),
        spec_entry_row(t, g, key_col, build, g.header_row) == t,
{
}

/// A document that does not parse — malformed JSON or the wrong wire
/// shape — denotes the default result: a configuration with all five
/// tables empty, and an empty node sequence.
pub proof fn lemma_malformed_document_defaults(s: Seq<char>)
    requires
        spec_doc_of(s) is None,
    ensures
        spec_chapter(spec_doc_of(s)) == empty_config(),
        spec_book(spec_doc_of(s)) == Seq::<NodeV>::empty(),
{
}

} // verus!
