use brush_editor::brush::{
    binding_declarations, push_constant_range, BrushError, BrushStage, DescriptorKind, Dispatch,
    LayoutBinding, PushRange, PushConstants, ShaderStage, StagePhase, PUSH_CONSTANTS_SIZE,
    TARGET_IMAGE_SLOT,
};
use brush_editor::geometry::Point;

#[test]
fn layout_has_one_storage_image_at_slot_zero_for_compute() {
    assert_eq!(
        binding_declarations(),
        vec![LayoutBinding {
            slot: 0,
            count: 1,
            kind: DescriptorKind::StorageImage,
            stage: ShaderStage::Compute,
        }]
    );
    assert_eq!(TARGET_IMAGE_SLOT, 0);
}

#[test]
fn push_constant_range_covers_the_block_from_offset_zero() {
    assert_eq!(
        push_constant_range(),
        PushRange { stage: ShaderStage::Compute, offset: 0, size: 8 }
    );
    assert_eq!(PUSH_CONSTANTS_SIZE as usize, std::mem::size_of::<PushConstants>());
    assert_eq!(PUSH_CONSTANTS_SIZE as usize, std::mem::size_of::<(f32, f32)>());
}

#[test]
fn new_stage_is_uninitialized_and_records_nothing() {
    let stage = BrushStage::new();
    assert_eq!(stage.current_phase(), StagePhase::Uninitialized);
    assert_eq!(stage.record_dispatch(Point::new(1, 2)), Err(BrushError::NotReady));
}

#[test]
fn initialize_makes_the_stage_ready() {
    let mut stage = BrushStage::new();
    assert_eq!(stage.initialize(true, true), Ok(()));
    assert_eq!(stage.current_phase(), StagePhase::Ready);
}

#[test]
fn layout_failure_is_reported_and_leaves_the_stage_unready() {
    let mut stage = BrushStage::new();
    assert_eq!(stage.initialize(false, true), Err(BrushError::LayoutCreation));
    assert_eq!(stage.initialize(false, false), Err(BrushError::LayoutCreation));
    assert_eq!(stage.current_phase(), StagePhase::Uninitialized);
    assert_eq!(stage.record_dispatch(Point::new(1, 2)), Err(BrushError::NotReady));
}

#[test]
fn pipeline_failure_is_reported_and_leaves_the_stage_unready() {
    let mut stage = BrushStage::new();
    assert_eq!(stage.initialize(true, false), Err(BrushError::PipelineBuild));
    assert_eq!(stage.current_phase(), StagePhase::Uninitialized);
}

#[test]
fn stage_is_initialized_once() {
    let mut stage = BrushStage::new();
    assert_eq!(stage.initialize(true, true), Ok(()));
    assert_eq!(stage.initialize(true, true), Err(BrushError::AlreadyInitialized));
    assert_eq!(stage.initialize(false, false), Err(BrushError::AlreadyInitialized));
    assert_eq!(stage.current_phase(), StagePhase::Ready);
}

#[test]
fn dispatch_carries_the_cursor_and_the_image_slot() {
    let mut stage = BrushStage::new();
    stage.initialize(true, true).unwrap();
    assert_eq!(
        stage.record_dispatch(Point::new(-17, 250)),
        Ok(Dispatch { image_slot: 0, push_constants: PushConstants { cursor: Point::new(-17, 250) } })
    );
}

#[test]
fn stage_is_destroyed_once_and_dispatches_nothing_afterwards() {
    let mut stage = BrushStage::new();
    assert!(!stage.destroy());
    assert_eq!(stage.current_phase(), StagePhase::Uninitialized);
    stage.initialize(true, true).unwrap();
    assert!(stage.destroy());
    assert_eq!(stage.current_phase(), StagePhase::Destroyed);
    assert!(!stage.destroy());
    assert_eq!(stage.record_dispatch(Point::new(0, 0)), Err(BrushError::NotReady));
    assert_eq!(stage.initialize(true, true), Err(BrushError::AlreadyInitialized));
}
