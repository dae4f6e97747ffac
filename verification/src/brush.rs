//! The brush stage: what it declares to the GPU once, the block of push constants it
//! builds for every frame, and the life cycle that decides when a dispatch may be
//! recorded.
//!
//! The stage creates nothing itself. Its owner creates the binding layout and the
//! compute pipeline from the declarations given here and reports how that went; the
//! stage keeps track of whether dispatches may refer to them.

use vstd::prelude::*;
use crate::geometry::Point;

verus! {

/// The kind of resource that a binding slot takes.
#[derive(Clone, Copy, Debug, PartialEq, Eq, Structural)]
pub enum DescriptorKind {
    StorageImage,
    SampledImage,
    UniformBuffer,
    StorageBuffer,
}

/// The pipeline stage that sees a binding or a range of push constants.
#[derive(Clone, Copy, Debug, PartialEq, Eq, Structural)]
pub enum ShaderStage {
    Vertex,
    Fragment,
    Compute,
}

/// One slot of a binding layout.
#[derive(Clone, Copy, Debug, PartialEq, Eq, Structural)]
pub struct LayoutBinding {
    pub slot: u32,
    pub count: u32,
    pub kind: DescriptorKind,
    pub stage: ShaderStage,
}

/// A range of push-constant bytes and the stage that reads it.
#[derive(Clone, Copy, Debug, PartialEq, Eq, Structural)]
pub struct PushRange {
    pub stage: ShaderStage,
    pub offset: u32,
    pub size: u32,
}

/// The block handed to the compute program with every dispatch: the cursor, as two
/// four-byte coordinates.
#[derive(Clone, Copy, Debug, PartialEq, Eq, Structural)]
pub struct PushConstants {
    pub cursor: Point,
}

/// The size of `PushConstants` in bytes.
pub const PUSH_CONSTANTS_SIZE: u32 = 8;

/// The slot of the image that the brush stamps onto.
pub const TARGET_IMAGE_SLOT: u32 = 0;

/// One compute dispatch: the target image is bound at `image_slot` with a push
/// descriptor, and `push_constants` goes with it.
#[derive(Clone, Copy, Debug, PartialEq, Eq, Structural)]
pub struct Dispatch {
    pub image_slot: u32,
    pub push_constants: PushConstants,
}

/// Where the stage is in its life.
#[derive(Clone, Copy, Debug, PartialEq, Eq, Structural)]
pub enum StagePhase {
    /// Nothing has been created yet.
    Uninitialized,
    /// Layout and pipeline exist; dispatches may refer to them.
    Ready,
    /// Layout and pipeline have been given up; nothing may refer to them again.
    Destroyed,
}

/// Why the stage refused.
#[derive(Clone, Copy, Debug, PartialEq, Eq, Structural)]
pub enum BrushError {
    /// The stage was initialized before, or is already destroyed.
    AlreadyInitialized,
    /// The binding layout could not be created.
    LayoutCreation,
    /// The compute pipeline could not be built.
    PipelineBuild,
    /// There is no layout and pipeline to dispatch with.
    NotReady,
}

/// The one binding the brush program takes: a storage image at slot 0, for the compute
/// stage alone.
pub open spec fn target_binding() -> LayoutBinding {
    LayoutBinding {
        slot: TARGET_IMAGE_SLOT,
        count: 1,
        kind: DescriptorKind::StorageImage,
        stage: ShaderStage::Compute,
    }
}

/// The push-constant range of the brush program: the whole block, from offset 0, for
/// the compute stage alone.
pub open spec fn cursor_range() -> PushRange {
    PushRange { stage: ShaderStage::Compute, offset: 0, size: PUSH_CONSTANTS_SIZE }
}

/// The dispatch that stamps the brush at `cursor`.
pub open spec fn dispatch_at(cursor: Point) -> Dispatch {
    Dispatch { image_slot: TARGET_IMAGE_SLOT, push_constants: PushConstants { cursor } }
}

/// The bindings to create the layout from.
pub fn binding_declarations() -> (bindings: Vec<LayoutBinding>)
    ensures
        bindings@ == seq![target_binding()],
{
    let mut bindings: Vec<LayoutBinding> = Vec::new();
    bindings.push(LayoutBinding {
        slot: TARGET_IMAGE_SLOT,
        count: 1,
        kind: DescriptorKind::StorageImage,
        stage: ShaderStage::Compute,
    });
    assert(bindings@ =~= seq![target_binding()]);
    bindings
}

/// The push-constant range to build the pipeline with.
pub fn push_constant_range() -> (range: PushRange)
    ensures
        range == cursor_range(),
{
    PushRange { stage: ShaderStage::Compute, offset: 0, size: PUSH_CONSTANTS_SIZE }
}

/// What `initialize` answers in a stage that is in `phase`, given how the two
/// creations went.
pub open spec fn initialize_outcome(phase: StagePhase, layout_created: bool, pipeline_built: bool) -> Result<(), BrushError> {
    if phase != StagePhase::Uninitialized {
        Err(BrushError::AlreadyInitialized)
    } else if !layout_created {
        Err(BrushError::LayoutCreation)
    } else if !pipeline_built {
        Err(BrushError::PipelineBuild)
    } else {
        Ok(())
    }
}

/// The brush stage's life cycle.
#[derive(Debug)]
pub struct BrushStage {
    phase: StagePhase,
}

impl BrushStage {
    /// Where the stage is in its life.
    pub closed spec fn phase(&self) -> StagePhase {
        self.phase
    }

    /// A stage for which nothing has been created.
    pub fn new() -> (stage: BrushStage)
        ensures
            stage.phase() == StagePhase::Uninitialized,
    {
        BrushStage { phase: StagePhase::Uninitialized }
    }

    /// Where the stage is in its life.
    pub fn current_phase(&self) -> (phase: StagePhase)
        ensures
            phase == self.phase(),
    {
        self.phase
    }

    /// Takes the owner's report on the creation of the binding layout and of the
    /// pipeline. The stage becomes ready if both exist and it was never initialized;
    /// in every other case it stays as it was and says why.
    pub fn initialize(&mut self, layout_created: bool, pipeline_built: bool) -> (outcome: Result<(), BrushError>)
        ensures
            outcome == initialize_outcome(old(self).phase(), layout_created, pipeline_built),
            outcome is Ok ==> final(self).phase() == StagePhase::Ready,
            outcome is Err ==> final(self).phase() == old(self).phase(),
    {
        match self.phase {
            StagePhase::Uninitialized => {
                if !layout_created {
                    Err(BrushError::LayoutCreation)
                } else if !pipeline_built {
                    Err(BrushError::PipelineBuild)
                } else {
                    self.phase = StagePhase::Ready;
                    Ok(())
                }
            },
            _ => Err(BrushError::AlreadyInitialized),
        }
    }

    /// Builds this frame's dispatch: the push constants are a copy of `cursor`, and the
    /// target image goes to slot 0. A stage that is not ready records nothing.
    pub fn record_dispatch(&self, cursor: Point) -> (outcome: Result<Dispatch, BrushError>)
        ensures
            self.phase() == StagePhase::Ready ==> outcome == Ok::<Dispatch, BrushError>(dispatch_at(cursor)),
            self.phase() != StagePhase::Ready ==> outcome == Err::<Dispatch, BrushError>(BrushError::NotReady),
    {
        match self.phase {
            StagePhase::Ready => Ok(Dispatch {
                image_slot: TARGET_IMAGE_SLOT,
                push_constants: PushConstants { cursor },
            }),
            _ => Err(BrushError::NotReady),
        }
    }

    /// Gives up layout and pipeline. Answers whether the owner has anything to release:
    /// that is so exactly once, for a stage that was ready.
    pub fn destroy(&mut self) -> (release: bool)
        ensures
            release == (old(self).phase() == StagePhase::Ready),
            release ==> final(self).phase() == StagePhase::Destroyed,
            !release ==> final(self).phase() == old(self).phase(),
    {
        match self.phase {
            StagePhase::Ready => {
                self.phase = StagePhase::Destroyed;
                true
            },
            _ => false,
        }
    }
}

} // verus!
