//! The scenario interpreter: a step-driven state machine over the parsed
//! node sequence. External signals (activate, advance, abort, set-fast,
//! tick) move it between idle, running, awaiting-input and waiting, and
//! each step emits the effects the host realizes.

use vstd::prelude::*;

use crate::chars::{chars_of, string_of_range};
use crate::cmds::{opt_milli_view, spec_step_node, step_node, StepOut, StepV};
use crate::effects::{Effect, EffectV};
use crate::num::Milli;
use crate::table::Table;
use crate::utage4::{Node, NodeV, VNConfig, VNConfigV};

verus! {

/// How often the reveal ticker uncovers one more character, in
/// thousandths of a second.
pub const REVEAL_INTERVAL: i64 = 60;

/// The observable session state.
#[derive(Clone, Copy, Debug, PartialEq, Eq, Structural)]
pub enum VNState {
    Idle,
    Running,
    AwaitingInput,
    Waiting,
}

/// The whole session: the read-only configuration and node sequence,
/// and the mutable cursor, bindings, pacing timers and reveal progress.
pub struct Interpreter {
    pub config: VNConfig,
    pub nodes: Vec<Node>,
    pub active: bool,
    pub offset: usize,
    pub params: Table<String>,
    pub fast: bool,
    pub wait_timer: Option<Milli>,
    pub reveal_text: Vec<char>,
    pub reveal_index: usize,
    pub reveal_acc: Milli,
    pub fade_timer: Option<Milli>,
}

#[verifier::ext_equal]
pub struct InterpV {
    pub config: VNConfigV,
    pub nodes: Seq<NodeV>,
    pub active: bool,
    pub offset: int,
    pub params: Map<Seq<char>, Seq<char>>,
    pub fast: bool,
    pub wait_timer: Option<int>,
    pub reveal_text: Seq<char>,
    pub reveal_index: int,
    pub reveal_acc: int,
    pub fade_timer: Option<int>,
}

impl View for Interpreter {
    type V = InterpV;

    open spec fn view(&self) -> InterpV {
        InterpV {
            config: self.config@,
            nodes: self.nodes.deep_view(),
            active: self.active,
            offset: self.offset as int,
            params: self.params@,
            fast: self.fast,
            wait_timer: opt_milli_view(self.wait_timer),
            reveal_text: self.reveal_text@,
            reveal_index: self.reveal_index as int,
            reveal_acc: self.reveal_acc.0 as int,
            fade_timer: opt_milli_view(self.fade_timer),
        }
    }
}

/// The discarded session: idle, cursor at the start, no bindings, no
/// timers, nothing to reveal. Configuration and nodes stay loaded.
pub open spec fn spec_reset(s: InterpV) -> InterpV {
    InterpV {
        active: false,
        offset: 0,
        params: Map::empty(),
        fast: false,
        wait_timer: None,
        reveal_text: Seq::empty(),
        reveal_index: 0,
        reveal_acc: 0,
        fade_timer: None,
        ..s
    }
}

pub open spec fn max_int(a: int, b: int) -> int {
    if a >= b {
        a
    } else {
        b
    }
}

/// The session after one node's outcome is applied: the cursor moves by
/// one, a binding lands in the runtime parameters, a wait or fade timer
/// starts, and a displayed dialogue resets the reveal.
pub open spec fn spec_apply_step(s: InterpV, st: StepV) -> InterpV {
    InterpV {
        offset: s.offset + 1,
        params: match st.binding {
            Some(kv) => s.params.insert(kv.0, kv.1),
            None => s.params,
        },
        wait_timer: st.wait,
        reveal_text: match st.reveal {
            Some(t) => t,
            None => s.reveal_text,
        },
        reveal_index: match st.reveal {
            Some(_) => 0,
            None => s.reveal_index,
        },
        reveal_acc: match st.reveal {
            Some(_) => 0,
            None => s.reveal_acc,
        },
        fade_timer: match st.fade {
            Some(d) => Some(
                max_int(
                    match s.fade_timer {
                        Some(f) => f,
                        None => 0,
                    },
                    d,
                ),
            ),
            None => s.fade_timer,
        },
        ..s
    }
}

/// The dispatch loop: nodes perform in order until one displays a
/// dialogue or starts a wait; a cursor at the end discards the session
/// and signals its completion.
pub open spec fn spec_dispatch(s: InterpV) -> (InterpV, Seq<EffectV>)
    decreases s.nodes.len() - s.offset,
{
    if !s.active {
        (s, Seq::empty())
    } else if s.offset < 0 || s.offset >= s.nodes.len() {
        (spec_reset(s), seq![EffectV::ScenarioEnded])
    } else {
        let st = spec_step_node(s.config, s.params, s.nodes[s.offset]);
        let s1 = spec_apply_step(s, st);
        if st.stop {
            (s1, st.effects)
        } else {
            let r = spec_dispatch(s1);
            (r.0, st.effects + r.1)
        }
    }
}

/// One proceed step, taken when no wait suspends the session: an
/// unfinished reveal is first skipped to its end without moving the
/// cursor; otherwise the dispatch loop runs.
pub open spec fn spec_advance_step(s: InterpV) -> (InterpV, Seq<EffectV>) {
    if s.reveal_index < s.reveal_text.len() {
        (InterpV { reveal_index: s.reveal_text.len() as int, ..s }, Seq::empty())
    } else {
        spec_dispatch(s)
    }
}

/// The advance signal: nothing while idle or while a wait runs without
/// fast-forward; otherwise one proceed step.
pub open spec fn spec_advance(s: InterpV) -> (InterpV, Seq<EffectV>) {
    if !s.active {
        (s, Seq::empty())
    } else if s.wait_timer is Some && !s.fast {
        (s, Seq::empty())
    } else {
        spec_advance_step(InterpV { wait_timer: None, ..s })
    }
}

/// The reveal ticker: paused under a fade overlay, otherwise it
/// uncovers one character per elapsed interval, up to the whole text.
pub open spec fn spec_reveal_tick(s: InterpV, delta: int) -> InterpV {
    if s.fade_timer is Some {
        s
    } else {
        let acc = s.reveal_acc + delta;
        let k = acc / (REVEAL_INTERVAL as int);
        InterpV {
            reveal_index: if s.reveal_index + k >= s.reveal_text.len() {
                s.reveal_text.len() as int
            } else {
                s.reveal_index + k
            },
            reveal_acc: acc % (REVEAL_INTERVAL as int),
            ..s
        }
    }
}

/// The fade overlay running down; it clears when it elapses.
pub open spec fn spec_fade_tick(s: InterpV, delta: int) -> InterpV {
    match s.fade_timer {
        Some(f) => if f <= delta {
            InterpV { fade_timer: None, ..s }
        } else {
            InterpV { fade_timer: Some(f - delta), ..s }
        },
        None => s,
    }
}

/// The time signal: the reveal and fade timers run; fast-forward
/// releases any wait and proceeds every tick, and an elapsing wait
/// proceeds by itself.
pub open spec fn spec_tick(s: InterpV, delta: int) -> (InterpV, Seq<EffectV>) {
    if !s.active {
        (s, Seq::empty())
    } else {
        let s2 = spec_fade_tick(spec_reveal_tick(s, delta), delta);
        if s.fast {
            spec_advance_step(InterpV { wait_timer: None, ..s2 })
        } else {
            match s.wait_timer {
                Some(w) => if w <= delta {
                    spec_advance_step(InterpV { wait_timer: None, ..s2 })
                } else {
                    (InterpV { wait_timer: Some(w - delta), ..s2 }, Seq::empty())
                },
                None => (s2, Seq::empty()),
            }
        }
    }
}

/// The session freshly activated on a book: running from the first
/// node, with cleared bindings, flags and timers.
pub open spec fn spec_activate(s: InterpV, nodes: Seq<NodeV>) -> InterpV {
    InterpV {
        nodes,
        active: true,
        offset: 0,
        params: Map::empty(),
        fast: false,
        wait_timer: None,
        reveal_text: Seq::empty(),
        reveal_index: 0,
        reveal_acc: 0,
        fade_timer: None,
        ..s
    }
}

/// The observable state: idle without a session, waiting under a wait
/// timer, awaiting input while a dialogue is on screen, else running.
pub open spec fn spec_state(s: InterpV) -> VNState {
    if !s.active {
        VNState::Idle
    } else if s.wait_timer is Some {
        VNState::Waiting
    } else if s.reveal_text.len() > 0 {
        VNState::AwaitingInput
    } else {
        VNState::Running
    }
}

impl Interpreter {
    /// The machine-level validity of a session: the reveal accumulator
    /// stays below one interval.
    pub open spec fn wf(&self) -> bool {
        0 <= self@.reveal_acc < REVEAL_INTERVAL
    }

    /// A fresh, idle interpreter over a chapter configuration.
    pub fn new(config: VNConfig) -> (r: Interpreter)
        ensures
            r@ == (InterpV {
                config: config@,
                nodes: Seq::empty(),
                active: false,
                offset: 0,
                params: Map::empty(),
                fast: false,
                wait_timer: None,
                reveal_text: Seq::empty(),
                reveal_index: 0,
                reveal_acc: 0,
                fade_timer: None,
            }),
            r.wf(),
    {
        let r = Interpreter {
            config,
            nodes: Vec::new(),
            active: false,
            offset: 0,
            params: Table::new(),
            fast: false,
            wait_timer: None,
            reveal_text: Vec::new(),
            reveal_index: 0,
            reveal_acc: Milli(0),
            fade_timer: None,
        };
        proof {
            assert(r@ =~= (InterpV {
                config: r.config@,
                nodes: Seq::empty(),
                active: false,
                offset: 0,
                params: Map::empty(),
                fast: false,
                wait_timer: None,
                reveal_text: Seq::empty(),
                reveal_index: 0,
                reveal_acc: 0,
                fade_timer: None,
            }));
        }
        r
    }

    /// Starts a scenario over the given book.
    pub fn activate(&mut self, nodes: Vec<Node>)
        ensures
            final(self)@ == spec_activate(old(self)@, nodes.deep_view()),
            final(self).wf(),
    {
        let ghost nv = nodes.deep_view();
        self.nodes = nodes;
        self.active = true;
        self.offset = 0;
        self.params = Table::new();
        self.fast = false;
        self.wait_timer = None;
        self.reveal_text = Vec::new();
        self.reveal_index = 0;
        self.reveal_acc = Milli(0);
        self.fade_timer = None;
        proof {
            assert(self@ =~= spec_activate(old(self)@, nv));
        }
    }

    /// Discards the session unconditionally; doing it twice leaves the
    /// same idle state as doing it once.
    pub fn abort(&mut self)
        ensures
            final(self)@ == spec_reset(old(self)@),
            final(self).wf(),
    {
        self.active = false;
        self.offset = 0;
        self.params = Table::new();
        self.fast = false;
        self.wait_timer = None;
        self.reveal_text = Vec::new();
        self.reveal_index = 0;
        self.reveal_acc = Milli(0);
        self.fade_timer = None;
        proof {
            assert(self@ =~= spec_reset(old(self)@));
        }
    }

    /// Sets or clears the fast-forward flag.
    pub fn set_fast(&mut self, fast: bool)
        ensures
            final(self)@ == (InterpV { fast, ..old(self)@ }),
    {
        self.fast = fast;
        proof {
            assert(self@ =~= (InterpV { fast, ..old(self)@ }));
        }
    }

    /// The observable state of the session.
    pub fn state(&self) -> (r: VNState)
        ensures
            r == spec_state(self@),
    {
        if !self.active {
            VNState::Idle
        } else if self.wait_timer.is_some() {
            VNState::Waiting
        } else if self.reveal_text.len() > 0 {
            VNState::AwaitingInput
        } else {
            VNState::Running
        }
    }

    /// How many characters of the current dialogue are revealed.
    pub fn revealed_count(&self) -> (r: usize)
        ensures
            r == if self@.reveal_index >= self@.reveal_text.len() {
                self@.reveal_text.len() as int
            } else {
                self@.reveal_index
            },
    {
        if self.reveal_index >= self.reveal_text.len() {
            self.reveal_text.len()
        } else {
            self.reveal_index
        }
    }

    /// Whether the current dialogue is fully revealed.
    pub fn reveal_finished(&self) -> (r: bool)
        ensures
            r == (self@.reveal_index >= self@.reveal_text.len()),
    {
        self.reveal_index >= self.reveal_text.len()
    }

    /// The revealed prefix of the current dialogue.
    pub fn revealed_text(&self) -> (r: String)
        ensures
            r@ == self@.reveal_text.subrange(
                0,
                if self@.reveal_index >= self@.reveal_text.len() {
                    self@.reveal_text.len() as int
                } else {
                    self@.reveal_index
                },
            ),
    {
        let end = self.revealed_count();
        string_of_range(&self.reveal_text, 0, end)
    }

    /// Runs the dispatch loop. The session must be running with no wait
    /// pending and the reveal finished.
    fn dispatch(&mut self) -> (effects: Vec<Effect>)
        requires
            old(self).wf(),
            old(self)@.active,
        ensures
            final(self).wf(),
            final(self)@ == spec_dispatch(old(self)@).0,
            effects.deep_view() == spec_dispatch(old(self)@).1,
    {
        let ghost s0 = self@;
        let mut effects: Vec<Effect> = Vec::new();
        let mut done = false;
        let mut ended = false;
        proof {
            assert(effects.deep_view() =~= Seq::<EffectV>::empty());
            assert(Seq::<EffectV>::empty() + spec_dispatch(s0).1 =~= spec_dispatch(s0).1);
        }
        while !done
            invariant
                self.wf(),
                self@.nodes == s0.nodes,
                self@.config == s0.config,
                !done ==> self@.active,
                !done ==> !ended,
                !done ==> spec_dispatch(s0) == (
                    spec_dispatch(self@).0,
                    effects.deep_view() + spec_dispatch(self@).1,
                ),
                done && ended ==> spec_dispatch(s0) == (spec_reset(self@), effects.deep_view()),
                done && !ended ==> spec_dispatch(s0) == (self@, effects.deep_view()),
            decreases (if self@.offset <= self@.nodes.len() {
                self@.nodes.len() - self@.offset
            } else {
                0int
            }) + (if done {
                0int
            } else {
                1int
            }),
        {
            if self.offset >= self.nodes.len() {
                let ghost before = effects.deep_view();
                effects.push(Effect::ScenarioEnded);
                ended = true;
                done = true;
                proof {
                    assert(effects.deep_view() =~= before + seq![EffectV::ScenarioEnded]);
                }
            } else {
                let ghost pre = self@;
                let st = step_node(&self.config, &self.params, &self.nodes[self.offset]);
                let ghost stv = st@;
                let StepOut { effects: mut st_effects, binding, wait, reveal, fade, stop } = st;
                match binding {
                    Some((k, v)) => {
                        let mut t: Table<String> = Table::new();
                        core::mem::swap(&mut self.params, &mut t);
                        self.params = t.insert(k, v);
                    },
                    None => {},
                }
                self.wait_timer = wait;
                match reveal {
                    Some(text) => {
                        self.reveal_text = chars_of(text.as_str());
                        self.reveal_index = 0;
                        self.reveal_acc = Milli(0);
                    },
                    None => {},
                }
                match fade {
                    Some(d) => {
                        let cur: i64 = match self.fade_timer {
                            Some(f) => f.0,
                            None => 0,
                        };
                        self.fade_timer = Some(
                            Milli(
                                if d.0 >= cur {
                                    d.0
                                } else {
                                    cur
                                },
                            ),
                        );
                    },
                    None => {},
                }
                self.offset = self.offset + 1;
                let ghost before = effects.deep_view();
                effects.append(&mut st_effects);
                proof {
                    assert(self@ =~= spec_apply_step(pre, stv));
                    assert(effects.deep_view() == before + stv.effects);
                    assert((before + stv.effects) + spec_dispatch(self@).1 =~= before + (stv.effects
                        + spec_dispatch(self@).1));
                }
                if stop {
                    done = true;
                }
            }
        }
        if ended {
            self.active = false;
            self.offset = 0;
            self.params = Table::new();
            self.fast = false;
            self.wait_timer = None;
            self.reveal_text = Vec::new();
            self.reveal_index = 0;
            self.reveal_acc = Milli(0);
            self.fade_timer = None;
            proof {
                assert(self@ =~= spec_reset(spec_dispatch(s0).0));
                assert(spec_reset(spec_dispatch(s0).0) =~= spec_dispatch(s0).0);
            }
        }
        effects
    }

    /// One proceed step: skip an unfinished reveal, else dispatch.
    fn advance_step(&mut self) -> (effects: Vec<Effect>)
        requires
            old(self).wf(),
            old(self)@.active,
        ensures
            final(self).wf(),
            final(self)@ == spec_advance_step(old(self)@).0,
            effects.deep_view() == spec_advance_step(old(self)@).1,
    {
        if self.reveal_index < self.reveal_text.len() {
            self.reveal_index = self.reveal_text.len();
            let effects: Vec<Effect> = Vec::new();
            proof {
                assert(self@ =~= (InterpV {
                    reveal_index: old(self)@.reveal_text.len() as int,
                    ..old(self)@
                }));
            }
            effects
        } else {
            self.dispatch()
        }
    }

    /// The proceed signal: does nothing while idle or while a wait runs
    /// without fast-forward; otherwise skips the reveal or dispatches.
    pub fn advance(&mut self) -> (effects: Vec<Effect>)
        requires
            old(self).wf(),
        ensures
            final(self).wf(),
            final(self)@ == spec_advance(old(self)@).0,
            effects.deep_view() == spec_advance(old(self)@).1,
    {
        if !self.active {
            let effects: Vec<Effect> = Vec::new();
            return effects;
        }
        match self.wait_timer {
            Some(_) => {
                if !self.fast {
                    let effects: Vec<Effect> = Vec::new();
                    return effects;
                }
                self.wait_timer = None;
            },
            None => {},
        }
        proof {
            assert(self@ =~= (InterpV { wait_timer: None, ..old(self)@ }));
        }
        self.advance_step()
    }

    /// The time signal: runs the reveal and fade tickers, counts the
    /// wait down, and proceeds when fast-forward or an elapsed wait
    /// releases the session.
    pub fn tick(&mut self, delta: Milli) -> (effects: Vec<Effect>)
        requires
            old(self).wf(),
            0 <= delta.0 <= 1000000000000,
        ensures
            final(self).wf(),
            final(self)@ == spec_tick(old(self)@, delta.0 as int).0,
            effects.deep_view() == spec_tick(old(self)@, delta.0 as int).1,
    {
        if !self.active {
            let effects: Vec<Effect> = Vec::new();
            return effects;
        }
        let was_fast = self.fast;
        let had_wait = self.wait_timer;
        let paused = match self.fade_timer {
            Some(_) => true,
            None => false,
        };
        if !paused {
            let acc: i64 = self.reveal_acc.0 + delta.0;
            let k: i64 = acc / REVEAL_INTERVAL;
            let len = self.reveal_text.len();
            let idx = self.reveal_index;
            if idx >= len || (k as u64) >= ((len - idx) as u64) {
                self.reveal_index = len;
            } else {
                self.reveal_index = idx + (k as usize);
            }
            self.reveal_acc = Milli(acc % REVEAL_INTERVAL);
        }
        proof {
            assert(self@ =~= spec_reveal_tick(old(self)@, delta.0 as int));
        }
        let ghost s1 = self@;
        match self.fade_timer {
            Some(f) => {
                if f.0 <= delta.0 {
                    self.fade_timer = None;
                } else {
                    self.fade_timer = Some(Milli(f.0 - delta.0));
                }
            },
            None => {},
        }
        proof {
            assert(self@ =~= spec_fade_tick(s1, delta.0 as int));
        }
        if was_fast {
            self.wait_timer = None;
            proof {
                assert(self@ =~= (InterpV {
                    wait_timer: None,
                    ..spec_fade_tick(s1, delta.0 as int)
                }));
            }
            self.advance_step()
        } else {
            match had_wait {
                Some(w) => {
                    if w.0 <= delta.0 {
                        self.wait_timer = None;
                        proof {
                            assert(self@ =~= (InterpV {
                                wait_timer: None,
                                ..spec_fade_tick(s1, delta.0 as int)
                            }));
                        }
                        self.advance_step()
                    } else {
                        self.wait_timer = Some(Milli(w.0 - delta.0));
                        let effects: Vec<Effect> = Vec::new();
                        proof {
                            assert(self@ =~= (InterpV {
                                wait_timer: Some(w.0 - delta.0),
                                ..spec_fade_tick(s1, delta.0 as int)
                            }));
                        }
                        effects
                    }
                },
                None => {
                    let effects: Vec<Effect> = Vec::new();
                    effects
                },
            }
        }
    }
}

/// Aborting is idempotent: a second abort leaves exactly the idle state
/// the first left — empty runtime bindings, no wait timer, cursor at
/// the start — whatever state the session was in.
pub proof fn lemma_abort_idempotent(s: InterpV)
    ensures
        spec_reset(spec_reset(s)) == spec_reset(s),
        spec_state(spec_reset(s)) == VNState::Idle,
        spec_reset(s).params == Map::<Seq<char>, Seq<char>>::empty(),
        spec_reset(s).wait_timer is None,
        spec_reset(s).offset == 0,
{
    assert(spec_reset(spec_reset(s)) =~= spec_reset(s));
}

} // verus!
