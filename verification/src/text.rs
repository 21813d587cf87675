//! Dialogue tag normalization: a single left-to-right scan that rewrites
//! every `<...>` tag. `<interval=...>` becomes a fixed ellipsis,
//! `<param=KEY>` becomes the runtime binding of `KEY`, falling back to
//! the chapter configuration's `param` table and then to nothing, and
//! any other tag is stripped. Tags never nest; a `<` closes at the
//! nearest `>`, and a `<` with no `>` after it passes through unchanged.

use vstd::prelude::*;

use crate::chars::{chars_of, has_prefix, has_prefix_chars, string_of_range};
use crate::entries::ParamEntryV;
use crate::num::{find_char, find_char_in, lemma_find_char};
use crate::table::Table;
use crate::utage4::VNConfig;

verus! {

/// What one whole tag (from `<` to its `>`) is replaced with.
pub open spec fn spec_tag_replacement(
    tag: Seq<char>,
    params: Map<Seq<char>, Seq<char>>,
    cfg_param: Map<Seq<char>, ParamEntryV>,
) -> Seq<char> {
    if has_prefix(tag, "<interval="@) {
        "……"@
    } else if has_prefix(tag, "<param="@) {
        if tag.len() <= "<param="@.len() + 1 {
            Seq::empty()
        } else {
            let key = tag.subrange("<param="@.len() as int, tag.len() - 1);
            if params.contains_key(key) {
                params[key]
            } else if cfg_param.contains_key(key) && cfg_param[key].value is Some {
                cfg_param[key].value->0
            } else {
                Seq::empty()
            }
        }
    } else {
        Seq::empty()
    }
}

/// The normalized form of a dialogue text, scanned left to right.
pub open spec fn spec_normalize(
    s: Seq<char>,
    params: Map<Seq<char>, Seq<char>>,
    cfg_param: Map<Seq<char>, ParamEntryV>,
) -> Seq<char>
    decreases s.len(),
{
    if s.len() == 0 {
        Seq::empty()
    } else if s[0] != '<' {
        seq![s[0]] + spec_normalize(s.drop_first(), params, cfg_param)
    } else {
        match find_char(s, '>') {
            None => seq![s[0]] + spec_normalize(s.drop_first(), params, cfg_param),
            Some(j) => {
                proof {
                    lemma_find_char(s, '>');
                }
                spec_tag_replacement(s.subrange(0, j + 1), params, cfg_param) + spec_normalize(
                    s.skip(j + 1),
                    params,
                    cfg_param,
                )
            },
        }
    }
}

fn push_str(out: &mut Vec<char>, s: &String)
    ensures
        final(out)@ == old(out)@ + s@,
{
    let v = chars_of(s.as_str());
    let mut j: usize = 0;
    proof {
        assert(out@ + v@.subrange(0, 0) =~= out@);
    }
    while j < v.len()
        invariant
            0 <= j <= v.len(),
            out@ == old(out)@ + v@.subrange(0, j as int),
        decreases v.len() - j,
    {
        out.push(v[j]);
        proof {
            assert(old(out)@ + v@.subrange(0, j + 1) =~= (old(out)@ + v@.subrange(
                0,
                j as int,
            )).push(v@[j as int]));
        }
        j += 1;
    }
    proof {
        assert(v@.subrange(0, v@.len() as int) =~= v@);
        assert(v@ == s@);
    }
}

/// The replacement text of the tag `v[from..to]`, resolving `<param=...>`
/// keys against the runtime bindings first and the chapter `param` table
/// second.
fn tag_replacement(
    v: &Vec<char>,
    from: usize,
    to: usize,
    params: &Table<String>,
    cfg: &VNConfig,
) -> (r: String)
    requires
        from <= to <= v@.len(),
    ensures
        r@ == spec_tag_replacement(v@.subrange(from as int, to as int), params@, cfg@.param),
{
    let ghost tag = v@.subrange(from as int, to as int);
    proof {
        reveal_strlit("<interval=");
        reveal_strlit("<param=");
    }
    let interval_pat = chars_of("<interval=");
    let param_pat = chars_of("<param=");
    let sub = sub_range(v, from, to);
    proof {
        assert(sub@ == tag);
    }
    if has_prefix_chars(&sub, &interval_pat) {
        String::from_str("……")
    } else if has_prefix_chars(&sub, &param_pat) {
        if to - from <= 8 {
            String::new()
        } else {
            let key = string_of_range(v, from + 7, to - 1);
            proof {
                assert(tag.subrange(7, tag.len() - 1) =~= v@.subrange(from + 7, to - 1));
            }
            match params.get(&key) {
                Some(val) => val.clone(),
                None => match cfg.param.get(&key) {
                    Some(entry) => match &entry.value {
                        Some(val) => val.clone(),
                        None => String::new(),
                    },
                    None => String::new(),
                },
            }
        }
    } else {
        String::new()
    }
}

/// The characters `v[from..to]` as their own vector.
fn sub_range(v: &Vec<char>, from: usize, to: usize) -> (r: Vec<char>)
    requires
        from <= to <= v@.len(),
    ensures
        r@ == v@.subrange(from as int, to as int),
{
    let mut r: Vec<char> = Vec::new();
    let mut j: usize = from;
    proof {
        assert(v@.subrange(from as int, from as int) =~= Seq::<char>::empty());
    }
    while j < to
        invariant
            from <= j <= to <= v@.len(),
            r@ == v@.subrange(from as int, j as int),
        decreases to - j,
    {
        r.push(v[j]);
        proof {
            assert(v@.subrange(from as int, j + 1) =~= r@);
        }
        j += 1;
    }
    r
}

/// Rewrites every `<...>` tag of a dialogue text: `<interval=...>` to an
/// ellipsis, `<param=KEY>` to the value bound to `KEY`, and any other
/// tag to nothing. Text outside tags passes through unchanged.
pub fn normalize(text: &str, params: &Table<String>, cfg: &VNConfig) -> (r: String)
    ensures
        r@ == spec_normalize(text@, params@, cfg@.param),
{
    let v = chars_of(text);
    let n = v.len();
    let mut out: Vec<char> = Vec::new();
    let mut i: usize = 0;
    proof {
        assert(v@.skip(0) =~= v@);
        assert(out@ + spec_normalize(v@, params@, cfg@.param) =~= spec_normalize(
            v@,
            params@,
            cfg@.param,
        ));
    }
    while i < n
        invariant
            n == v@.len(),
            0 <= i <= n,
            out@ + spec_normalize(v@.skip(i as int), params@, cfg@.param) == spec_normalize(
                v@,
                params@,
                cfg@.param,
            ),
        decreases n - i,
    {
        let ghost rest = v@.skip(i as int);
        proof {
            assert(rest[0] == v@[i as int]);
            assert(rest.drop_first() =~= v@.skip(i + 1));
        }
        if v[i] != '<' {
            out.push(v[i]);
            proof {
                assert(out@ + spec_normalize(v@.skip(i + 1), params@, cfg@.param)
                    =~= out@.drop_last() + (seq![rest[0]] + spec_normalize(
                    rest.drop_first(),
                    params@,
                    cfg@.param,
                )));
            }
            i += 1;
        } else {
            match find_char_in(&v, i, n, '>') {
                None => {
                    proof {
                        assert(rest =~= v@.subrange(i as int, n as int));
                    }
                    out.push(v[i]);
                    proof {
                        assert(out@ + spec_normalize(v@.skip(i + 1), params@, cfg@.param)
                            =~= out@.drop_last() + (seq![rest[0]] + spec_normalize(
                            rest.drop_first(),
                            params@,
                            cfg@.param,
                        )));
                    }
                    i += 1;
                },
                Some(j) => {
                    proof {
                        assert(rest =~= v@.subrange(i as int, n as int));
                        assert(rest.subrange(0, j - i + 1) =~= v@.subrange(i as int, j + 1));
                        assert(rest.skip(j - i + 1) =~= v@.skip(j + 1));
                    }
                    let rep = tag_replacement(&v, i, j + 1, params, cfg);
                    let ghost before = out@;
                    push_str(&mut out, &rep);
                    proof {
                        assert(out@ + spec_normalize(v@.skip(j + 1), params@, cfg@.param)
                            =~= before + (rep@ + spec_normalize(
                            v@.skip(j + 1),
                            params@,
                            cfg@.param,
                        )));
                    }
                    i = j + 1;
                },
            }
        }
    }
    proof {
        assert(v@.skip(n as int).len() == 0);
        assert(out@ + spec_normalize(v@.skip(n as int), params@, cfg@.param) =~= out@);
    }
    let r = string_of_range(&out, 0, out.len());
    proof {
        assert(out@.subrange(0, out@.len() as int) =~= out@);
    }
    r
}

} // verus!
