//! The per-drawable pipeline wrapper: a bind-group layout and bind group built
//! once, and a graphics pipeline slot that is either empty or holds a pipeline
//! whose creation reported no validation error.
use vstd::prelude::*;

use crate::binding::BindingSlot;

verus! {

/// Which bind group a draw binds at a group index.
#[derive(Clone, Copy, Debug, PartialEq, Eq, Structural)]
pub enum BindGroupSource {
    /// The drawable's own bind group.
    Own,
    /// The bind group that the renderer shares with every drawable.
    Universal,
}

/// One command that a draw issues into the render pass.
#[derive(Clone, Copy, Debug, PartialEq, Eq, Structural)]
pub enum DrawStep {
    /// Bind the installed graphics pipeline.
    SetPipeline,
    /// Push the per-frame constants to every shader stage at this offset.
    PushConstants { offset: u32 },
    /// Bind a bind group at a group index.
    SetBindGroup { group: u32, source: BindGroupSource },
    /// Let the drawable emit its own commands.
    DrawDrawable,
}

/// Index of the drawable's own bind group in the pipeline layout.
pub const OWN_GROUP: u32 = 0;

/// Index of the shared bind group in the pipeline layout.
pub const UNIVERSAL_GROUP: u32 = 1;

/// The commands of one draw, in the order in which they are issued.
pub open spec fn draw_sequence() -> Seq<DrawStep> {
    seq![
        DrawStep::SetPipeline,
        DrawStep::PushConstants { offset: 0 },
        DrawStep::SetBindGroup { group: OWN_GROUP, source: BindGroupSource::Own },
        DrawStep::SetBindGroup { group: UNIVERSAL_GROUP, source: BindGroupSource::Universal },
        DrawStep::DrawDrawable,
    ]
}

/// The pipeline slot after a creation attempt: the attempted pipeline when it
/// was created and no validation error was captured, else the slot as it was.
pub open spec fn after_creation<P, E, V>(
    slot: Option<P>,
    attempt: Result<P, E>,
    validation_error: Option<V>,
) -> Option<P> {
    match attempt {
        Ok(p) => if validation_error is None {
            Some(p)
        } else {
            slot
        },
        Err(_) => slot,
    }
}

/// The pipeline state of one drawable: `L` is its bind-group layout, `G` its
/// bind group and `P` a graphics pipeline.
pub struct DrawablePipeline<L, G, P> {
    name: String,
    bindings: Vec<BindingSlot>,
    bind_group_layout: L,
    bind_group: G,
    render_pipeline: Option<P>,
}

impl<L, G, P> DrawablePipeline<L, G, P> {
    pub closed spec fn spec_name(&self) -> Seq<char> {
        self.name@
    }

    pub closed spec fn spec_bindings(&self) -> Seq<BindingSlot> {
        self.bindings@
    }

    pub closed spec fn spec_layout(&self) -> L {
        self.bind_group_layout
    }

    pub closed spec fn spec_group(&self) -> G {
        self.bind_group
    }

    /// The installed graphics pipeline, if any.
    pub closed spec fn installed(&self) -> Option<P> {
        self.render_pipeline
    }

    /// Wraps a drawable's bind-group layout and bind group, built from the
    /// binding table `bindings`. No pipeline is installed yet.
    pub fn new(name: String, bindings: Vec<BindingSlot>, bind_group_layout: L, bind_group: G) -> (r:
        Self)
        ensures
            r.spec_name() == name@,
            r.spec_bindings() == bindings@,
            r.spec_layout() == bind_group_layout,
            r.spec_group() == bind_group,
            r.installed() is None,
    {
        DrawablePipeline { name, bindings, bind_group_layout, bind_group, render_pipeline: None }
    }

    /// Commits a creation attempt: installs the pipeline only when it was
    /// created and the validation scope captured no error. A failed attempt
    /// leaves an earlier pipeline in place.
    pub fn create_pipeline<E, V>(&mut self, attempt: Result<P, E>, validation_error: Option<V>)
        ensures
            final(self).installed() == after_creation(old(self).installed(), attempt, validation_error),
            final(self).spec_name() == old(self).spec_name(),
            final(self).spec_bindings() == old(self).spec_bindings(),
            final(self).spec_layout() == old(self).spec_layout(),
            final(self).spec_group() == old(self).spec_group(),
    {
        if validation_error.is_none() {
            match attempt {
                Ok(pipeline) => {
                    self.render_pipeline = Some(pipeline);
                },
                Err(_) => {},
            }
        }
    }

    /// Whether a graphics pipeline is installed, so that the drawable may draw.
    pub fn ready(&self) -> (r: bool)
        ensures
            r == self.installed() is Some,
    {
        self.render_pipeline.is_some()
    }

    /// The commands of one draw, in order: bind the pipeline, push the
    /// constants at offset zero, bind the own group at index zero and the shared
    /// group at index one, then hand over to the drawable.
    pub fn draw(&self) -> (steps: Vec<DrawStep>)
        requires
            self.installed() is Some,
        ensures
            steps@ == draw_sequence(),
    {
        let mut steps: Vec<DrawStep> = Vec::new();
        steps.push(DrawStep::SetPipeline);
        steps.push(DrawStep::PushConstants { offset: 0 });
        steps.push(DrawStep::SetBindGroup { group: OWN_GROUP, source: BindGroupSource::Own });
        steps.push(
            DrawStep::SetBindGroup { group: UNIVERSAL_GROUP, source: BindGroupSource::Universal },
        );
        steps.push(DrawStep::DrawDrawable);
        assert(steps@ =~= draw_sequence());
        steps
    }

    pub fn name(&self) -> (r: &str)
        ensures
            r@ == self.spec_name(),
    {
        self.name.as_str()
    }

    pub fn bindings(&self) -> (r: &Vec<BindingSlot>)
        ensures
            r@ == self.spec_bindings(),
    {
        &self.bindings
    }

    pub fn bind_group_layout(&self) -> (r: &L)
        ensures
            *r == self.spec_layout(),
    {
        &self.bind_group_layout
    }

    pub fn bind_group(&self) -> (r: &G)
        ensures
            *r == self.spec_group(),
    {
        &self.bind_group
    }

    /// The installed graphics pipeline, if any.
    pub fn render_pipeline(&self) -> (r: Option<&P>)
        ensures
            match r {
                Some(p) => self.installed() == Some(*p),
                None => self.installed() is None,
            },
    {
        self.render_pipeline.as_ref()
    }
}

/// A creation attempt that failed, because the pipeline could not be created
/// (a shader module was not found) or because validation reported an error,
/// leaves the pipeline slot as it was: an empty slot stays empty and an
/// installed pipeline stays installed.
pub proof fn lemma_failed_creation_keeps_slot<P, E, V>(
    slot: Option<P>,
    attempt: Result<P, E>,
    validation_error: Option<V>,
)
    requires
        attempt is Err || validation_error is Some,
    ensures
        after_creation(slot, attempt, validation_error) == slot,
{
}

/// After a successful creation, a later failed attempt keeps the pipeline
/// that the successful one installed, so the drawable stays ready.
pub proof fn lemma_success_survives_failure<P, E, V>(
    slot: Option<P>,
    pipeline: P,
    no_error: Option<V>,
    later: Result<P, E>,
    later_error: Option<V>,
)
    requires
        no_error is None,
        later is Err || later_error is Some,
    ensures
        after_creation(after_creation(slot, Ok::<P, E>(pipeline), no_error), later, later_error)
            == Some(pipeline),
{
}

/// Positions, in registration order, of the pipelines that are ready.
pub open spec fn ready_positions<L, G, P>(pipelines: Seq<DrawablePipeline<L, G, P>>) -> Seq<int>
    decreases pipelines.len(),
{
    if pipelines.len() == 0 {
        Seq::empty()
    } else {
        let before = ready_positions(pipelines.drop_last());
        if pipelines.last().installed() is Some {
            before.push(pipelines.len() - 1)
        } else {
            before
        }
    }
}

/// The pipelines that a frame draws, in registration order: every ready one,
/// and no other.
pub fn frame_order<L, G, P>(pipelines: &Vec<DrawablePipeline<L, G, P>>) -> (r: Vec<usize>)
    ensures
        r@.len() == ready_positions(pipelines@).len(),
        forall|k: int| 0 <= k < r@.len() ==> r@[k] == ready_positions(pipelines@)[k],
{
    let mut r: Vec<usize> = Vec::new();
    let mut i: usize = 0;
    while i < pipelines.len()
        invariant
            i <= pipelines@.len(),
            r@.len() == ready_positions(pipelines@.take(i as int)).len(),
            forall|k: int|
                0 <= k < r@.len() ==> r@[k] == ready_positions(pipelines@.take(i as int))[k],
        decreases pipelines@.len() - i,
    {
        assert(pipelines@.take(i + 1).drop_last() =~= pipelines@.take(i as int));
        assert(pipelines@.take(i + 1).last() == pipelines@[i as int]);
        if pipelines[i].ready() {
            r.push(i);
        }
        i += 1;
    }
    assert(pipelines@.take(pipelines@.len() as int) =~= pipelines@);
    r
}

} // verus!
