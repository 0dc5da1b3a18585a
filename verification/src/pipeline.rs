//! The pipeline sets of the renderer: the set that serves frames and the
//! set it replaced, kept to fall back on. A set changes as a whole or not
//! at all, and every pass of both sets was built for the bind group
//! layout that is bound.

use crate::shader::{CompiledShader, EntryPointView, WorkgroupSize};
use vstd::prelude::*;

verus! {

/// Most passes in a set, so that the two timestamp queries of each pass
/// can be numbered in 32 bits.
pub const MAX_PASSES: usize = 0x7fff_ffff;

/// One compute pass: a pipeline built by the device for an entry point,
/// the workgroup size that the entry point declares, and the precision
/// mode of the prelude and the layout that it was built for.
pub struct Pass<P> {
    pub pipeline: P,
    pub workgroup_size: WorkgroupSize,
    pub pass_f32: bool,
}

/// Why a compiled shader cannot be loaded.
#[derive(Clone, Copy, Debug, PartialEq, Eq, Structural)]
pub enum DeviceError {
    /// The shader was compiled for another precision mode than that of
    /// the layout that is bound.
    PrecisionMismatch,
    /// The pipelines handed over are not one for each compute entry point.
    PipelineCountMismatch,
    /// The shader has more compute entry points than a set can hold.
    TooManyPasses,
    /// An entry point declares no threads along x or y, so no grid of
    /// workgroups can cover the viewport.
    EmptyWorkgroup,
}

/// What a rollback did.
#[derive(Clone, Copy, Debug, PartialEq, Eq, Structural)]
pub enum Rollback {
    /// The previous set serves frames again.
    Restored,
    /// There was no previous set: no pass is active.
    NothingToRestore,
}

/// The current pipeline set and the previous one.
pub struct PipelineManager<P> {
    current: Vec<Pass<P>>,
    previous: Option<Vec<Pass<P>>>,
}

/// Whether a workgroup size can tile a viewport.
pub open spec fn tiles(size: WorkgroupSize) -> bool {
    size.x > 0 && size.y > 0
}

/// Whether a pipeline set can be run: it is small enough and each of its
/// passes can tile a viewport.
pub open spec fn runnable<P>(passes: Seq<Pass<P>>) -> bool {
    &&& passes.len() <= MAX_PASSES
    &&& forall|i: int| 0 <= i < passes.len() ==> tiles(#[trigger] passes[i].workgroup_size)
}

/// Whether every pass of a set was built for a precision mode.
pub open spec fn built_for<P>(passes: Seq<Pass<P>>, pass_f32: bool) -> bool {
    forall|i: int| 0 <= i < passes.len() ==> (#[trigger] passes[i]).pass_f32 == pass_f32
}

/// Whether each of the entry points can tile a viewport.
pub open spec fn all_tile(entry_points: Seq<EntryPointView>) -> bool {
    forall|i: int|
        0 <= i < entry_points.len() ==> tiles(#[trigger] entry_points[i].workgroup_size)
}

/// Why pipelines cannot be loaded for the given entry points, if they
/// cannot.
pub open spec fn load_error(
    entry_points: Seq<EntryPointView>,
    pipelines: nat,
    shader_f32: bool,
    layout_f32: bool,
) -> Option<DeviceError> {
    if shader_f32 != layout_f32 {
        Some(DeviceError::PrecisionMismatch)
    } else if pipelines != entry_points.len() {
        Some(DeviceError::PipelineCountMismatch)
    } else if pipelines > MAX_PASSES {
        Some(DeviceError::TooManyPasses)
    } else if !all_tile(entry_points) {
        Some(DeviceError::EmptyWorkgroup)
    } else {
        None
    }
}

/// The passes of a shader: each pipeline with the workgroup size of the
/// entry point at the same place, all built for one precision mode.
pub open spec fn passes_of<P>(
    entry_points: Seq<EntryPointView>,
    pipelines: Seq<P>,
    pass_f32: bool,
) -> Seq<Pass<P>> {
    Seq::new(
        pipelines.len(),
        |i: int|
            Pass {
                pipeline: pipelines[i],
                workgroup_size: entry_points[i].workgroup_size,
                pass_f32,
            },
    )
}

/// The two pipeline sets as values.
pub struct PipelineSets<P> {
    pub current: Seq<Pass<P>>,
    pub previous: Option<Seq<Pass<P>>>,
}

impl<P> PipelineSets<P> {
    /// No shader loaded yet.
    pub open spec fn empty() -> Self {
        PipelineSets { current: Seq::empty(), previous: None }
    }

    /// A new set takes over; the set it replaces is kept.
    pub open spec fn swap(self, passes: Seq<Pass<P>>) -> Self {
        PipelineSets { current: passes, previous: Some(self.current) }
    }

    /// The previous set takes over again, once. With no previous set, no
    /// pass stays active.
    pub open spec fn revert(self) -> Self {
        match self.previous {
            Some(passes) => PipelineSets { current: passes, previous: None },
            None => PipelineSets { current: Seq::empty(), previous: None },
        }
    }

    /// Whether both sets can be run.
    pub open spec fn wf(self) -> bool {
        &&& runnable(self.current)
        &&& self.previous matches Some(passes) ==> runnable(passes)
    }

    /// Whether every pass of both sets was built for a precision mode.
    pub open spec fn fits(self, pass_f32: bool) -> bool {
        &&& built_for(self.current, pass_f32)
        &&& self.previous matches Some(passes) ==> built_for(passes, pass_f32)
    }
}

impl<P> View for PipelineManager<P> {
    type V = PipelineSets<P>;

    closed spec fn view(&self) -> PipelineSets<P> {
        PipelineSets {
            current: self.current@,
            previous: match self.previous {
                Some(passes) => Some(passes@),
                None => None,
            },
        }
    }
}

impl<P> PipelineManager<P> {
    /// Whether both sets can be run. Every manager built and changed by
    /// the functions below is well formed.
    pub open spec fn wf(&self) -> bool {
        self@.wf()
    }

    /// A manager with no shader loaded.
    pub fn new() -> (manager: Self)
        ensures
            manager@ == PipelineSets::<P>::empty(),
            manager.wf(),
    {
        PipelineManager { current: Vec::new(), previous: None }
    }

    /// Loads the pipelines built for a compiled shader, one for each of
    /// its entry points in order, against the layout of the given
    /// precision mode. On success they become the current set and the set
    /// they replace becomes the previous one. On failure nothing changes.
    pub fn load(&mut self, shader: &CompiledShader, pipelines: Vec<P>, layout_f32: bool) -> (loaded:
        Result<(), DeviceError>)
        requires
            old(self).wf(),
        ensures
            final(self).wf(),
            old(self)@.fits(layout_f32) ==> final(self)@.fits(layout_f32),
            match loaded {
                Ok(()) => load_error(
                    shader.entry_points.deep_view(),
                    pipelines@.len(),
                    shader.pass_f32,
                    layout_f32,
                ) is None && final(self)@ == old(self)@.swap(
                    passes_of(shader.entry_points.deep_view(), pipelines@, layout_f32),
                ),
                Err(error) => load_error(
                    shader.entry_points.deep_view(),
                    pipelines@.len(),
                    shader.pass_f32,
                    layout_f32,
                ) == Some(error) && final(self)@ == old(self)@,
            },
    {
        if shader.pass_f32 != layout_f32 {
            return Err(DeviceError::PrecisionMismatch);
        }
        let count: usize = pipelines.len();
        if count != shader.entry_points.len() {
            return Err(DeviceError::PipelineCountMismatch);
        }
        if count > MAX_PASSES {
            return Err(DeviceError::TooManyPasses);
        }
        let ghost entry_points = shader.entry_points.deep_view();
        let mut i: usize = 0;
        while i < count
            invariant
                i <= count,
                count == shader.entry_points.len(),
                count == pipelines@.len(),
                count <= MAX_PASSES,
                entry_points == shader.entry_points.deep_view(),
                forall|j: int| 0 <= j < i ==> tiles(#[trigger] entry_points[j].workgroup_size),
                *self == *old(self),
                self.wf(),
                shader.pass_f32 == layout_f32,
            decreases count - i,
        {
            let size = shader.entry_points[i].workgroup_size;
            if size.x == 0 || size.y == 0 {
                assert(!tiles(entry_points[i as int].workgroup_size));
                return Err(DeviceError::EmptyWorkgroup);
            }
            i = i + 1;
        }
        let ghost handed = pipelines@;
        let mut passes: Vec<Pass<P>> = Vec::new();
        for pipeline in it: pipelines
            invariant
                it.seq() == handed,
                handed.len() == shader.entry_points.len(),
                entry_points == shader.entry_points.deep_view(),
                passes@ =~= passes_of(entry_points, handed.take(it.index() as int), layout_f32),
        {
            let at: usize = passes.len();
            passes.push(
                Pass {
                    pipeline,
                    workgroup_size: shader.entry_points[at].workgroup_size,
                    pass_f32: layout_f32,
                },
            );
        }
        assert(handed.take(handed.len() as int) =~= handed);
        let mut taken: Vec<Pass<P>> = Vec::new();
        core::mem::swap(&mut self.current, &mut taken);
        self.previous = Some(taken);
        self.current = passes;
        Ok(())
    }

    /// Drops both sets: no pass is active and there is nothing to fall
    /// back on.
    pub fn clear(&mut self)
        ensures
            final(self)@ == PipelineSets::<P>::empty(),
            final(self).wf(),
    {
        self.current = Vec::new();
        self.previous = None;
    }

    /// Takes the previous set back, after the device has rejected the
    /// current one. The previous set is used up by this.
    pub fn rollback(&mut self) -> (outcome: Rollback)
        requires
            old(self).wf(),
        ensures
            final(self).wf(),
            forall|pass_f32: bool| old(self)@.fits(pass_f32) ==> #[trigger] final(self)@.fits(pass_f32),
            final(self)@ == old(self)@.revert(),
            outcome == Rollback::Restored <==> old(self)@.previous is Some,
    {
        match self.previous.take() {
            Some(passes) => {
                self.current = passes;
                Rollback::Restored
            },
            None => {
                self.current = Vec::new();
                Rollback::NothingToRestore
            },
        }
    }

    /// The passes that serve frames, in the order in which they run.
    pub fn current_passes(&self) -> (passes: &[Pass<P>])
        ensures
            passes@ == self@.current,
    {
        self.current.as_slice()
    }

    /// Whether a previous set is kept to fall back on.
    pub fn has_previous(&self) -> (kept: bool)
        ensures
            kept == self@.previous is Some,
    {
        self.previous.is_some()
    }
}

/// Loading a set and then rolling back brings back the set that was
/// current before the load.
pub proof fn lemma_rollback_undoes_load<P>(sets: PipelineSets<P>, passes: Seq<Pass<P>>)
    ensures
        sets.swap(passes).revert().current == sets.current,
{
}

/// A rollback uses the previous set up: a second one in a row leaves no
/// pass active.
pub proof fn lemma_rollback_twice<P>(sets: PipelineSets<P>)
    ensures
        sets.revert().revert() == PipelineSets::<P>::empty(),
{
}

} // verus!
