use render_pipeline::passes::{PassId, PassInputs, PassDescriptor, Passes, PASS_COUNT};
use render_pipeline::targets::{PixelFormat, RenderTargets, TargetHandle, TargetSlot};

fn handle(slot: TargetSlot, generation: u64) -> TargetHandle {
    TargetHandle { slot, generation }
}

#[test]
fn scene_pass_holds_no_handle_and_has_depth() {
    let passes = Passes::wire(&RenderTargets::new(640, 480, 0));
    assert_eq!(
        passes.scene(),
        PassDescriptor {
            id: PassId::Scene,
            inputs: PassInputs::Empty,
            color_format: PixelFormat::Rgba16Float,
            depth_format: Some(PixelFormat::Depth32Float),
        }
    );
}

#[test]
fn bright_pass_samples_color() {
    let passes = Passes::wire(&RenderTargets::new(640, 480, 1));
    assert_eq!(
        passes.bright_pass(),
        PassDescriptor {
            id: PassId::BrightPass,
            inputs: PassInputs::Single(handle(TargetSlot::Color, 1)),
            color_format: PixelFormat::Rgba16Float,
            depth_format: None,
        }
    );
}

#[test]
fn first_blur_stage_samples_the_bright_pass_target() {
    let targets = RenderTargets::new(640, 480, 0);
    let passes = Passes::wire(&targets);
    assert_eq!(
        passes.bloom_blur()[0].inputs,
        PassInputs::Single(targets.bright_pass().handle)
    );
}

#[test]
fn each_later_blur_stage_samples_the_stage_before() {
    let targets = RenderTargets::new(640, 480, 6);
    let passes = Passes::wire(&targets);
    let blur = passes.bloom_blur();
    assert_eq!(blur.len(), 16);
    for stage in 1..16 {
        assert_eq!(blur[stage].id, PassId::Blur(stage));
        assert_eq!(
            blur[stage].inputs,
            PassInputs::Single(targets.bloom_blur()[stage - 1].handle)
        );
        assert_eq!(blur[stage].color_format, PixelFormat::Rgba16Float);
        assert_eq!(blur[stage].depth_format, None);
    }
}

#[test]
fn no_blur_stage_samples_its_own_target() {
    let targets = RenderTargets::new(640, 480, 0);
    let passes = Passes::wire(&targets);
    for stage in 0..16 {
        assert!(!passes.bloom_blur()[stage].inputs.reads(targets.bloom_blur()[stage].handle));
    }
}

#[test]
fn add_pass_samples_the_first_two_stages() {
    let passes = Passes::wire(&RenderTargets::new(640, 480, 2));
    assert_eq!(
        passes.bloom_add(),
        PassDescriptor {
            id: PassId::Add,
            inputs: PassInputs::Pair(handle(TargetSlot::Blur(0), 2), handle(TargetSlot::Blur(1), 2)),
            color_format: PixelFormat::Rgba16Float,
            depth_format: None,
        }
    );
}

#[test]
fn each_copy_pass_samples_its_own_stage() {
    let passes = Passes::wire(&RenderTargets::new(640, 480, 2));
    let copies = passes.bloom_copy();
    assert_eq!(copies.len(), 16);
    for stage in 0..16 {
        assert_eq!(
            copies[stage],
            PassDescriptor {
                id: PassId::Copy(stage),
                inputs: PassInputs::Single(handle(TargetSlot::Blur(stage), 2)),
                color_format: PixelFormat::Rgba16Float,
                depth_format: None,
            }
        );
    }
}

#[test]
fn compose_samples_color_and_bloom_and_writes_the_presentation_format() {
    let passes = Passes::wire(&RenderTargets::new(640, 480, 8));
    assert_eq!(
        passes.compose(),
        PassDescriptor {
            id: PassId::Compose,
            inputs: PassInputs::Pair(handle(TargetSlot::Color, 8), handle(TargetSlot::Bloom, 8)),
            color_format: PixelFormat::Presentation,
            depth_format: None,
        }
    );
}

#[test]
fn every_input_is_a_target_of_the_set() {
    let targets = RenderTargets::new(640, 480, 11);
    let passes = Passes::wire(&targets);
    for pass in passes.construction_order() {
        match pass.inputs {
            PassInputs::Empty => assert_eq!(pass.id, PassId::Scene),
            PassInputs::Single(a) => assert!(targets.issues(a)),
            PassInputs::Pair(a, b) => {
                assert!(targets.issues(a));
                assert!(targets.issues(b));
            }
        }
    }
}

#[test]
fn construction_order_is_scene_bright_cascade_add_copies_compose() {
    let passes = Passes::wire(&RenderTargets::new(640, 480, 0));
    let order = passes.construction_order();
    assert_eq!(PASS_COUNT, 36);
    assert_eq!(order.len(), 36);
    assert_eq!(order[0], passes.scene());
    assert_eq!(order[1], passes.bright_pass());
    for stage in 0..16 {
        assert_eq!(order[2 + stage], passes.bloom_blur()[stage]);
        assert_eq!(order[19 + stage], passes.bloom_copy()[stage]);
    }
    assert_eq!(order[18], passes.bloom_add());
    assert_eq!(order[35], passes.compose());
}

#[test]
fn get_knows_every_valid_pass_and_no_other() {
    let passes = Passes::wire(&RenderTargets::new(640, 480, 0));
    assert_eq!(passes.get(PassId::Scene), Some(passes.scene()));
    assert_eq!(passes.get(PassId::BrightPass), Some(passes.bright_pass()));
    assert_eq!(passes.get(PassId::Blur(15)), Some(passes.bloom_blur()[15]));
    assert_eq!(passes.get(PassId::Add), Some(passes.bloom_add()));
    assert_eq!(passes.get(PassId::Copy(0)), Some(passes.bloom_copy()[0]));
    assert_eq!(passes.get(PassId::Compose), Some(passes.compose()));
    assert_eq!(passes.get(PassId::Blur(16)), None);
    assert_eq!(passes.get(PassId::Copy(16)), None);
    assert!(PassId::Copy(15).is_valid());
    assert!(!PassId::Copy(16).is_valid());
    assert!(!PassId::Blur(usize::MAX).is_valid());
}

#[test]
fn reads_tells_which_handles_a_pass_samples() {
    let a = handle(TargetSlot::Color, 0);
    let b = handle(TargetSlot::Bloom, 0);
    let c = handle(TargetSlot::Color, 1);
    assert!(!PassInputs::Empty.reads(a));
    assert!(PassInputs::Single(a).reads(a));
    assert!(!PassInputs::Single(a).reads(b));
    assert!(!PassInputs::Single(a).reads(c));
    assert!(PassInputs::Pair(a, b).reads(a));
    assert!(PassInputs::Pair(a, b).reads(b));
    assert!(!PassInputs::Pair(a, b).reads(c));
}
