use vstd::prelude::*;
use crate::config::{Configuration, ConfigError, HostFacts, dimensions_of, resolution_dimensions};
use crate::grid::GridShape;

verus! {

/// Whether the flow field is computed once for the whole run or afresh
/// before every advection sub-step, with the noise's time axis advancing.
#[derive(PartialEq, Eq, Structural, Debug, Clone, Copy)]
pub enum FlowPolicy {
    Static,
    Dynamic,
}

/// A validated run: the grid it works on, how many frames it renders, how
/// many advection sub-steps precede each frame, and how the flow evolves.
pub struct RunPlan {
    pub shape: GridShape,
    pub frames: usize,
    pub sub_steps: usize,
    pub policy: FlowPolicy,
    pub randomize_offsets: bool,
}

/// Where a run stands: the frame being computed, the sub-steps of it done,
/// and whether a flow field for the next sub-step is in place.
#[derive(PartialEq, Eq, Structural, Debug, Clone, Copy)]
pub struct RunState {
    pub frame: usize,
    pub step: usize,
    pub flow_ready: bool,
}

/// What the host does next. `GenerateFlowField` names the sub-step that the
/// field is for; its noise time offset grows with `frame * sub_steps + step`.
#[derive(PartialEq, Eq, Structural, Debug, Clone, Copy)]
pub enum Action {
    GenerateFlowField { frame: usize, step: usize },
    Advect,
    RenderFrame { frame: usize },
    Finish,
}

/// Validates a configuration and turns it into a plan. No plan, and so no
/// grid, exists for a configuration that breaks a rule.
pub fn plan_run(config: &Configuration, facts: &HostFacts) -> (r: Result<RunPlan, ConfigError>)
    ensures
        r is Ok <==> config.first_violation(*facts) is None,
        r matches Err(e) ==> config.first_violation(*facts) == Some(e),
        r matches Ok(p) ==> {
            &&& p.wf()
            &&& (p.shape.width, p.shape.height) == dimensions_of(config.target_resolution)
            &&& p.frames == config.frames_number
            &&& p.sub_steps == config.simulation_factor
            &&& p.policy == (if config.dynamize_flow_field {
                FlowPolicy::Dynamic
            } else {
                FlowPolicy::Static
            })
            &&& p.randomize_offsets == config.randomize_flow_field
        },
{
    match config.check(facts) {
        Err(e) => Err(e),
        Ok(()) => {
            let (width, height) = match resolution_dimensions(config.target_resolution) {
                Some(d) => d,
                None => {
                    return Err(ConfigError::UnsupportedResolution);
                },
            };
            assert(width * height <= 8294400);
            let policy = if config.dynamize_flow_field {
                FlowPolicy::Dynamic
            } else {
                FlowPolicy::Static
            };
            Ok(
                RunPlan {
                    shape: GridShape { width, height },
                    frames: config.frames_number,
                    sub_steps: config.simulation_factor,
                    policy,
                    randomize_offsets: config.randomize_flow_field,
                },
            )
        },
    }
}

impl RunPlan {
    pub open spec fn wf(&self) -> bool {
        &&& self.shape.wf()
        &&& self.frames > 0
        &&& self.sub_steps > 0
    }

    pub open spec fn is_static(&self) -> bool {
        self.policy == FlowPolicy::Static
    }

    /// The states a run passes through.
    pub open spec fn valid_state(&self, s: RunState) -> bool {
        &&& s.frame <= self.frames
        &&& s.step <= self.sub_steps
        &&& s.frame == self.frames ==> s.step == 0
        &&& !self.is_static() && (s.frame == self.frames || s.step == self.sub_steps)
            ==> !s.flow_ready
        &&& self.is_static() && (s.frame > 0 || s.step > 0) ==> s.flow_ready
    }

    pub open spec fn initial() -> RunState {
        RunState { frame: 0, step: 0, flow_ready: false }
    }

    pub open spec fn finished(&self, s: RunState) -> bool {
        s.frame == self.frames
    }

    /// One decision of the driving loop: render once all sub-steps of a
    /// frame are done, else make sure a flow field is in place, else advect.
    /// A static flow field stays in place; a dynamic one is used once.
    pub open spec fn transition(&self, s: RunState) -> (Action, RunState) {
        if s.frame == self.frames {
            (Action::Finish, s)
        } else if s.step == self.sub_steps {
            (Action::RenderFrame { frame: s.frame }, RunState { frame: (s.frame + 1) as usize, step: 0, ..s })
        } else if !s.flow_ready {
            (Action::GenerateFlowField { frame: s.frame, step: s.step }, RunState { flow_ready: true, ..s })
        } else {
            (Action::Advect, RunState { step: (s.step + 1) as usize, flow_ready: self.is_static(), ..s })
        }
    }

    /// Advection sub-steps performed before state `s`.
    pub open spec fn advections(&self, s: RunState) -> int {
        s.frame * self.sub_steps + s.step
    }

    /// Frames rendered before state `s`.
    pub open spec fn renders(&self, s: RunState) -> int {
        s.frame as int
    }

    /// Flow fields generated before state `s`.
    pub open spec fn generations(&self, s: RunState) -> int {
        if self.is_static() {
            if s.flow_ready { 1 } else { 0 }
        } else {
            self.advections(s) + if s.flow_ready { 1int } else { 0 }
        }
    }

    /// Decisions left before the run finishes.
    pub open spec fn remaining(&self, s: RunState) -> int {
        (self.frames - s.frame) * (2 * self.sub_steps + 2) - 2 * s.step + if s.flow_ready {
            0int
        } else {
            1
        }
    }

    /// The state a run starts in.
    pub fn start(&self) -> (r: RunState)
        ensures
            r == Self::initial(),
            self.wf() ==> self.valid_state(r),
    {
        RunState { frame: 0, step: 0, flow_ready: false }
    }

    /// The next action of the run and the state after it.
    pub fn next(&self, s: RunState) -> (r: (Action, RunState))
        requires
            self.wf(),
            self.valid_state(s),
        ensures
            r == self.transition(s),
            self.valid_state(r.1),
    {
        proof {
            self.lemma_transition(s);
        }
        if s.frame == self.frames {
            (Action::Finish, s)
        } else if s.step == self.sub_steps {
            (Action::RenderFrame { frame: s.frame }, RunState { frame: s.frame + 1, step: 0, flow_ready: s.flow_ready })
        } else if !s.flow_ready {
            (
                Action::GenerateFlowField { frame: s.frame, step: s.step },
                RunState { frame: s.frame, step: s.step, flow_ready: true },
            )
        } else {
            let keep = match self.policy {
                FlowPolicy::Static => true,
                FlowPolicy::Dynamic => false,
            };
            (Action::Advect, RunState { frame: s.frame, step: s.step + 1, flow_ready: keep })
        }
    }

    /// Each decision keeps the run in a valid state, counts exactly the work
    /// it asks for, and, until the run finishes, brings the finish closer.
    pub proof fn lemma_transition(&self, s: RunState)
        requires
            self.wf(),
            self.valid_state(s),
        ensures
            ({
                let (a, t) = self.transition(s);
                &&& self.valid_state(t)
                &&& self.advections(t) == self.advections(s) + if a is Advect { 1int } else { 0 }
                &&& self.renders(t) == self.renders(s) + if a is RenderFrame { 1int } else { 0 }
                &&& self.generations(t) == self.generations(s) + if a is GenerateFlowField {
                    1int
                } else {
                    0
                }
                &&& (a is Finish <==> self.finished(s))
                &&& a is Finish ==> t == s
                &&& !self.finished(s) ==> 0 <= self.remaining(t) < self.remaining(s)
            }),
    {
        let (a, t) = self.transition(s);
        let k = 2 * self.sub_steps + 2;
        if !self.finished(s) {
            assert((self.frames - s.frame) * k >= k) by (nonlinear_arith)
                requires
                    self.frames - s.frame >= 1,
                    k >= 0,
            ;
            assert((self.frames - t.frame) * k >= 0) by (nonlinear_arith)
                requires
                    self.frames - t.frame >= 0,
                    k >= 0,
            ;
            if a is RenderFrame {
                assert((self.frames - s.frame) * k == (self.frames - t.frame) * k + k)
                    by (nonlinear_arith)
                    requires
                        t.frame == s.frame + 1,
                ;
                assert(self.advections(t) == self.advections(s)) by (nonlinear_arith)
                    requires
                        t.frame == s.frame + 1,
                        s.step == self.sub_steps,
                        t.step == 0,
                ;
            }
        }
    }

    /// A run starts with nothing done, and every run that reaches its end has
    /// advected `frames * sub_steps` times and rendered every frame once; it
    /// generated the flow field once if it is static, and once before every
    /// advection if it is dynamic.
    pub proof fn lemma_totals(&self, s: RunState)
        requires
            self.wf(),
            self.valid_state(s),
            self.finished(s),
        ensures
            self.advections(Self::initial()) == 0,
            self.renders(Self::initial()) == 0,
            self.generations(Self::initial()) == 0,
            self.advections(s) == self.frames * self.sub_steps,
            self.renders(s) == self.frames,
            self.generations(s) == if self.is_static() {
                1
            } else {
                self.frames * self.sub_steps
            },
    {
    }
}

} // verus!
