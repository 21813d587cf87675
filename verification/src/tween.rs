//! The tween micro-grammar: a `Tween` command's arguments parsed into a
//! target, a tween kind, a `key=value` parameter bag, an easing curve and
//! an optional loop mode.

use vstd::prelude::*;

use crate::chars::{chars_of, has_prefix, has_prefix_chars, range_eq, str_eq, string_of_range};
use crate::num::{find_char, find_char_in, parse_milli, parse_u32_range, spec_parse_milli, spec_parse_u32, Milli};
use crate::utage4::{Node, NodeV};

verus! {

/// The tween kinds the interpreter knows.
#[derive(Clone, Copy, Debug, PartialEq, Eq, Structural)]
pub enum TweenType {
    MoveBy,
    PunchPosition,
    ShakePosition,
    ColorTo,
}

/// The optional parameters of a tween, numeric ones in thousandths.
#[derive(Clone, Debug, PartialEq)]
pub struct TweenParams {
    pub time: Option<Milli>,
    pub speed: Option<Milli>,
    pub delay: Option<Milli>,
    pub x: Option<Milli>,
    pub y: Option<Milli>,
    pub z: Option<Milli>,
    pub islocal: Option<bool>,
    pub color: Option<String>,
    pub alpha: Option<Milli>,
    pub r: Option<Milli>,
    pub g: Option<Milli>,
    pub b: Option<Milli>,
    pub a: Option<Milli>,
}

#[verifier::ext_equal]
pub struct TweenParamsV {
    pub time: Option<int>,
    pub speed: Option<int>,
    pub delay: Option<int>,
    pub x: Option<int>,
    pub y: Option<int>,
    pub z: Option<int>,
    pub islocal: Option<bool>,
    pub color: Option<Seq<char>>,
    pub alpha: Option<int>,
    pub r: Option<int>,
    pub g: Option<int>,
    pub b: Option<int>,
    pub a: Option<int>,
}

pub open spec fn milli_view(o: Option<Milli>) -> Option<int> {
    match o {
        Some(m) => Some(m.0 as int),
        None => None,
    }
}

impl View for TweenParams {
    type V = TweenParamsV;

    open spec fn view(&self) -> TweenParamsV {
        TweenParamsV {
            time: milli_view(self.time),
            speed: milli_view(self.speed),
            delay: milli_view(self.delay),
            x: milli_view(self.x),
            y: milli_view(self.y),
            z: milli_view(self.z),
            islocal: self.islocal,
            color: self.color.deep_view(),
            alpha: milli_view(self.alpha),
            r: milli_view(self.r),
            g: milli_view(self.g),
            b: milli_view(self.b),
            a: milli_view(self.a),
        }
    }
}

/// The all-absent parameter bag.
pub open spec fn empty_params() -> TweenParamsV {
    TweenParamsV {
        time: None,
        speed: None,
        delay: None,
        x: None,
        y: None,
        z: None,
        islocal: None,
        color: None,
        alpha: None,
        r: None,
        g: None,
        b: None,
        a: None,
    }
}

impl Default for TweenParams {
    fn default() -> (r: TweenParams)
        ensures
            r@ == empty_params(),
    {
        TweenParams {
            time: None,
            speed: None,
            delay: None,
            x: None,
            y: None,
            z: None,
            islocal: None,
            color: None,
            alpha: None,
            r: None,
            g: None,
            b: None,
            a: None,
        }
    }
}

/// The easing curves the interpreter knows; `Linear` is the default.
#[derive(Clone, Copy, Debug, PartialEq, Eq, Structural)]
pub enum EaseType {
    Linear,
    EaseInQuart,
}

impl Default for EaseType {
    fn default() -> (r: EaseType)
        ensures
            r == EaseType::Linear,
    {
        EaseType::Linear
    }
}

/// A repeat mode with an optional iteration count.
#[derive(Clone, Copy, Debug, PartialEq, Eq, Structural)]
pub enum LoopType {
    Loop(Option<u32>),
    PingPong(Option<u32>),
}

/// One parsed `Tween` command.
#[derive(Clone, Debug, PartialEq)]
pub struct Tween {
    pub target: String,
    pub tween_type: TweenType,
    pub params: TweenParams,
    pub ease_type: EaseType,
    pub loop_type: Option<LoopType>,
}

#[verifier::ext_equal]
pub struct TweenV {
    pub target: Seq<char>,
    pub tween_type: TweenType,
    pub params: TweenParamsV,
    pub ease_type: EaseType,
    pub loop_type: Option<LoopType>,
}

impl View for Tween {
    type V = TweenV;

    open spec fn view(&self) -> TweenV {
        TweenV {
            target: self.target@,
            tween_type: self.tween_type,
            params: self.params@,
            ease_type: self.ease_type,
            loop_type: self.loop_type,
        }
    }
}

/// The tween kind a name denotes, `None` for an unknown name.
pub open spec fn spec_parse_tween_type(s: Seq<char>) -> Option<TweenType> {
    if s == "MoveBy"@ {
        Some(TweenType::MoveBy)
    } else if s == "PunchPosition"@ {
        Some(TweenType::PunchPosition)
    } else if s == "ShakePosition"@ {
        Some(TweenType::ShakePosition)
    } else if s == "ColorTo"@ {
        Some(TweenType::ColorTo)
    } else {
        None
    }
}

/// Maps a tween-kind name to its kind, `None` for an unknown name.
pub fn parse_tween_type(s: &str) -> (r: Option<TweenType>)
    ensures
        r == spec_parse_tween_type(s@),
{
    if str_eq(s, "MoveBy") {
        Some(TweenType::MoveBy)
    } else if str_eq(s, "PunchPosition") {
        Some(TweenType::PunchPosition)
    } else if str_eq(s, "ShakePosition") {
        Some(TweenType::ShakePosition)
    } else if str_eq(s, "ColorTo") {
        Some(TweenType::ColorTo)
    } else {
        None
    }
}

/// The easing curve a name denotes; every unknown name means `Linear`.
pub open spec fn spec_parse_ease_type(s: Seq<char>) -> EaseType {
    if s == "easeInQuart"@ {
        EaseType::EaseInQuart
    } else {
        EaseType::Linear
    }
}

/// Maps an easing name to its curve, `Linear` for an unknown name.
pub fn parse_ease_type(s: &str) -> (r: EaseType)
    ensures
        r == spec_parse_ease_type(s@),
{
    if str_eq(s, "easeInQuart") {
        EaseType::EaseInQuart
    } else {
        EaseType::Linear
    }
}

/// The loop mode a string denotes: a `loop` prefix or a `pingPong`
/// prefix selects the mode, and a count follows only after `loop=` or
/// `pingPong=` and only when it parses.
pub open spec fn spec_parse_loop_type(s: Seq<char>) -> Option<LoopType> {
    if has_prefix(s, "loop"@) {
        let count = if has_prefix(s, "loop="@) {
            match spec_parse_u32(s.skip(5)) {
                Some(n) => Some(n as u32),
                None => None,
            }
        } else {
            None
        };
        Some(LoopType::Loop(count))
    } else if has_prefix(s, "pingPong"@) {
        let count = if has_prefix(s, "pingPong="@) {
            match spec_parse_u32(s.skip(9)) {
                Some(n) => Some(n as u32),
                None => None,
            }
        } else {
            None
        };
        Some(LoopType::PingPong(count))
    } else {
        None
    }
}

/// Maps a loop-mode string to its mode, `None` when neither prefix fits.
pub fn parse_loop_type(s: &str) -> (r: Option<LoopType>)
    ensures
        r == spec_parse_loop_type(s@),
{
    let v = chars_of(s);
    let n = v.len();
    proof {
        reveal_strlit("loop=");
        reveal_strlit("pingPong=");
    }
    if has_prefix_chars(&v, &chars_of("loop")) {
        let count: Option<u32> = if has_prefix_chars(&v, &chars_of("loop=")) {
            proof {
                assert(v@.skip(5) =~= v@.subrange(5, n as int));
            }
            parse_u32_range(&v, 5, n)
        } else {
            None
        };
        Some(LoopType::Loop(count))
    } else if has_prefix_chars(&v, &chars_of("pingPong")) {
        let count: Option<u32> = if has_prefix_chars(&v, &chars_of("pingPong=")) {
            proof {
                assert(v@.skip(9) =~= v@.subrange(9, n as int));
            }
            parse_u32_range(&v, 9, n)
        } else {
            None
        };
        Some(LoopType::PingPong(count))
    } else {
        None
    }
}

/// The characters `split_whitespace` breaks tokens on.
pub open spec fn is_space(c: char) -> bool {
    c == ' ' || c == '\t' || c == '\n' || c == '\r' || c == '\u{b}' || c == '\u{c}' || c
        == '\u{85}' || c == '\u{a0}' || c == '\u{1680}' || ('\u{2000}' <= c && c <= '\u{200a}') || c
        == '\u{2028}' || c == '\u{2029}' || c == '\u{202f}' || c == '\u{205f}' || c == '\u{3000}'
}

fn is_space_char(c: char) -> (r: bool)
    ensures
        r == is_space(c),
{
    c == ' ' || c == '\t' || c == '\n' || c == '\r' || c == '\u{b}' || c == '\u{c}' || c
        == '\u{85}' || c == '\u{a0}' || c == '\u{1680}' || ('\u{2000}' <= c && c <= '\u{200a}') || c
        == '\u{2028}' || c == '\u{2029}' || c == '\u{202f}' || c == '\u{205f}' || c == '\u{3000}'
}

/// The length of the leading non-space run of `s`.
pub open spec fn token_len(s: Seq<char>) -> int
    decreases s.len(),
{
    if s.len() == 0 || is_space(s[0]) {
        0
    } else {
        1 + token_len(s.drop_first())
    }
}

pub proof fn lemma_token_len(s: Seq<char>)
    ensures
        0 <= token_len(s) <= s.len(),
        forall|i: int| 0 <= i < token_len(s) ==> !is_space(#[trigger] s[i]),
        token_len(s) < s.len() ==> is_space(s[token_len(s)]),
    decreases s.len(),
{
    if s.len() > 0 && !is_space(s[0]) {
        lemma_token_len(s.drop_first());
        assert(forall|i: int|
            1 <= i < token_len(s) ==> s[i] == s.drop_first()[i - 1] && !is_space(
                #[trigger] s[i],
            ));
    }
}

/// One `key=value` token applied to the parameter bag: a known key sets
/// its field from the value, overwriting it with absence when the value
/// does not parse; an unknown key or a token without `=` changes
/// nothing.
pub open spec fn spec_tween_token(p: TweenParamsV, tok: Seq<char>) -> TweenParamsV {
    match find_char(tok, '=') {
        None => p,
        Some(e) => {
            let key = tok.subrange(0, e);
            let value = tok.subrange(e + 1, tok.len() as int);
            let num = spec_parse_milli(value);
            if key == "time"@ {
                TweenParamsV { time: num, ..p }
            } else if key == "speed"@ {
                TweenParamsV { speed: num, ..p }
            } else if key == "delay"@ {
                TweenParamsV { delay: num, ..p }
            } else if key == "x"@ {
                TweenParamsV { x: num, ..p }
            } else if key == "y"@ {
                TweenParamsV { y: num, ..p }
            } else if key == "z"@ {
                TweenParamsV { z: num, ..p }
            } else if key == "islocal"@ {
                TweenParamsV { islocal: spec_parse_bool(value), ..p }
            } else if key == "color"@ {
                TweenParamsV { color: Some(value), ..p }
            } else if key == "alpha"@ {
                TweenParamsV { alpha: num, ..p }
            } else if key == "r"@ {
                TweenParamsV { r: num, ..p }
            } else if key == "g"@ {
                TweenParamsV { g: num, ..p }
            } else if key == "b"@ {
                TweenParamsV { b: num, ..p }
            } else if key == "a"@ {
                TweenParamsV { a: num, ..p }
            } else {
                p
            }
        },
    }
}

/// What a boolean value string denotes: exactly `true` or `false`.
pub open spec fn spec_parse_bool(s: Seq<char>) -> Option<bool> {
    if s == "true"@ {
        Some(true)
    } else if s == "false"@ {
        Some(false)
    } else {
        None
    }
}

/// The parameter bag after folding every whitespace-separated token of
/// `s`, in order, over `p`.
pub open spec fn spec_tween_fold(p: TweenParamsV, s: Seq<char>) -> TweenParamsV
    decreases s.len(),
{
    if s.len() == 0 {
        p
    } else if is_space(s[0]) {
        spec_tween_fold(p, s.drop_first())
    } else {
        let e = token_len(s);
        proof {
            lemma_token_len(s);
        }
        spec_tween_fold(spec_tween_token(p, s.subrange(0, e)), s.skip(e))
    }
}

/// What a tween parameter string denotes.
pub open spec fn spec_tween_params(s: Seq<char>) -> TweenParamsV {
    spec_tween_fold(empty_params(), s)
}

fn apply_token(p: TweenParams, v: &Vec<char>, from: usize, to: usize) -> (r: TweenParams)
    requires
        from <= to <= v@.len(),
    ensures
        r@ == spec_tween_token(p@, v@.subrange(from as int, to as int)),
{
    let ghost tok = v@.subrange(from as int, to as int);
    match find_char_in(v, from, to, '=') {
        None => p,
        Some(i) => {
            proof {
                assert(tok.subrange(0, i - from) =~= v@.subrange(from as int, i as int));
                assert(tok.subrange(i - from + 1, tok.len() as int) =~= v@.subrange(
                    i + 1,
                    to as int,
                ));
            }
            let value = string_of_range(v, i + 1, to);
            let num = parse_milli(value.as_str());
            let mut q = p;
            if range_eq(v, from, i, "time") {
                q.time = num;
            } else if range_eq(v, from, i, "speed") {
                q.speed = num;
            } else if range_eq(v, from, i, "delay") {
                q.delay = num;
            } else if range_eq(v, from, i, "x") {
                q.x = num;
            } else if range_eq(v, from, i, "y") {
                q.y = num;
            } else if range_eq(v, from, i, "z") {
                q.z = num;
            } else if range_eq(v, from, i, "islocal") {
                q.islocal = if str_eq(value.as_str(), "true") {
                    Some(true)
                } else if str_eq(value.as_str(), "false") {
                    Some(false)
                } else {
                    None
                };
            } else if range_eq(v, from, i, "color") {
                q.color = Some(value);
            } else if range_eq(v, from, i, "alpha") {
                q.alpha = num;
            } else if range_eq(v, from, i, "r") {
                q.r = num;
            } else if range_eq(v, from, i, "g") {
                q.g = num;
            } else if range_eq(v, from, i, "b") {
                q.b = num;
            } else if range_eq(v, from, i, "a") {
                q.a = num;
            }
            q
        },
    }
}

/// Parses a space-separated `key=value` parameter string; unknown keys
/// and malformed tokens are passed over.
pub fn parse_tween_params(s: &str) -> (r: TweenParams)
    ensures
        r@ == spec_tween_params(s@),
{
    let v = chars_of(s);
    let n = v.len();
    let mut p = TweenParams::default();
    let mut i: usize = 0;
    proof {
        assert(v@.skip(0) =~= v@);
    }
    while i < n
        invariant
            n == v@.len(),
            0 <= i <= n,
            spec_tween_fold(p@, v@.skip(i as int)) == spec_tween_params(v@),
        decreases n - i,
    {
        proof {
            assert(v@.skip(i as int)[0] == v@[i as int]);
            assert(v@.skip(i as int).drop_first() =~= v@.skip(i + 1));
        }
        if is_space_char(v[i]) {
            i += 1;
        } else {
            let ghost rest = v@.skip(i as int);
            let mut j: usize = i + 1;
            while j < n && !is_space_char(v[j])
                invariant
                    i < j <= n == v@.len(),
                    rest == v@.skip(i as int),
                    forall|k: int| 0 <= k < j - i ==> !is_space(#[trigger] rest[k]),
                decreases n - j,
            {
                proof {
                    assert(rest[j + 1 - i - 1] == v@[j as int]);
                }
                j += 1;
            }
            proof {
                lemma_token_len(rest);
                if j < n {
                    assert(rest[j - i] == v@[j as int]);
                    assert(is_space(rest[j - i]));
                }
                assert(token_len(rest) == j - i);
                assert(rest.subrange(0, j - i) =~= v@.subrange(i as int, j as int));
                assert(rest.skip(j - i) =~= v@.skip(j as int));
            }
            p = apply_token(p, &v, i, j);
            i = j;
        }
    }
    proof {
        assert(v@.skip(n as int).len() == 0);
    }
    p
}

/// What a node denotes as a tween: `None` unless the command is `Tween`
/// with a target and a known tween kind; parameters, easing and loop
/// mode come from the later arguments, absent ones meaning defaults.
pub open spec fn spec_tween_of(n: NodeV) -> Option<TweenV> {
    if n.command != Some("Tween"@) {
        None
    } else {
        match (n.arg1, n.arg2) {
            (Some(target), Some(kind)) => match spec_parse_tween_type(kind) {
                Some(tt) => Some(
                    TweenV {
                        target: target,
                        tween_type: tt,
                        params: match n.arg3 {
                            Some(ps) => spec_tween_params(ps),
                            None => empty_params(),
                        },
                        ease_type: match n.arg4 {
                            Some(es) => spec_parse_ease_type(es),
                            None => EaseType::Linear,
                        },
                        loop_type: match n.arg5 {
                            Some(ls) => spec_parse_loop_type(ls),
                            None => None,
                        },
                    },
                ),
                None => None,
            },
            _ => None,
        }
    }
}

impl Tween {
    /// Reads a `Tween` command node into its parsed form; any other
    /// node, a missing target or an unknown tween kind gives `None`.
    pub fn new(node: &Node) -> (r: Option<Tween>)
        ensures
            match r {
                Some(t) => spec_tween_of(node@) == Some(t@),
                None => spec_tween_of(node@) is None,
            },
    {
        match &node.command {
            Some(c) if str_eq(c.as_str(), "Tween") => {},
            _ => {
                return None;
            },
        }
        let target = match &node.arg1 {
            Some(t) => t.clone(),
            None => {
                return None;
            },
        };
        let tween_type = match &node.arg2 {
            Some(k) => match parse_tween_type(k.as_str()) {
                Some(tt) => tt,
                None => {
                    return None;
                },
            },
            None => {
                return None;
            },
        };
        let params = match &node.arg3 {
            Some(ps) => parse_tween_params(ps.as_str()),
            None => TweenParams::default(),
        };
        let ease_type = match &node.arg4 {
            Some(es) => parse_ease_type(es.as_str()),
            None => EaseType::Linear,
        };
        let loop_type = match &node.arg5 {
            Some(ls) => parse_loop_type(ls.as_str()),
            None => None,
        };
        Some(Tween { target, tween_type, params, ease_type, loop_type })
    }
}

} // verus!
