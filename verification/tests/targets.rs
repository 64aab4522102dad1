use render_pipeline::targets::{
    PixelFormat, RenderTarget, RenderTargets, Size, TargetDescriptor, TargetHandle, TargetSlot,
    TextureDimension, TextureUsage, BLOOM_DOWNSAMPLE, BLUR_STAGES, TARGET_COUNT,
};

fn bloom_slots() -> Vec<TargetSlot> {
    let mut slots = vec![TargetSlot::BrightPass];
    for stage in 0..BLUR_STAGES {
        slots.push(TargetSlot::Blur(stage));
    }
    slots.push(TargetSlot::Bloom);
    slots
}

#[test]
fn constants_are_as_documented() {
    assert_eq!(BLOOM_DOWNSAMPLE, 4);
    assert_eq!(BLUR_STAGES, 16);
    assert_eq!(TARGET_COUNT, 20);
}

#[test]
fn downsampled_divides_each_extent_by_four() {
    let size = Size { width: 1280, height: 720 };
    assert_eq!(size.downsampled(), Size { width: 320, height: 180 });
}

#[test]
fn downsampled_rounds_down() {
    assert_eq!(Size { width: 1283, height: 723 }.downsampled(), Size { width: 320, height: 180 });
    assert_eq!(Size { width: 7, height: 4 }.downsampled(), Size { width: 1, height: 1 });
    assert_eq!(Size { width: 3, height: 3 }.downsampled(), Size { width: 0, height: 0 });
    assert_eq!(Size { width: 0, height: 0 }.downsampled(), Size { width: 0, height: 0 });
}

#[test]
fn downsampled_at_the_largest_size() {
    let size = Size { width: u32::MAX, height: u32::MAX };
    assert_eq!(size.downsampled(), Size { width: 1_073_741_823, height: 1_073_741_823 });
}

#[test]
fn render_target_descriptor_is_a_plain_2d_image() {
    let descriptor = TargetDescriptor::render_target(640, 480, PixelFormat::Rgba16Float);
    assert_eq!(
        descriptor,
        TargetDescriptor {
            width: 640,
            height: 480,
            depth_or_array_layers: 1,
            mip_level_count: 1,
            sample_count: 1,
            dimension: TextureDimension::D2,
            format: PixelFormat::Rgba16Float,
            usage: TextureUsage { texture_binding: true, render_attachment: true },
        }
    );
}

#[test]
fn color_and_depth_have_the_output_size() {
    let targets = RenderTargets::new(640, 480, 0);
    let color = targets.color();
    let depth = targets.depth();
    assert_eq!((color.descriptor.width, color.descriptor.height), (640, 480));
    assert_eq!((depth.descriptor.width, depth.descriptor.height), (640, 480));
    assert_eq!(color.descriptor.format, PixelFormat::Rgba16Float);
    assert_eq!(depth.descriptor.format, PixelFormat::Depth32Float);
    assert_eq!(color.handle, TargetHandle { slot: TargetSlot::Color, generation: 0 });
    assert_eq!(depth.handle, TargetHandle { slot: TargetSlot::Depth, generation: 0 });
}

#[test]
fn bloom_family_has_a_quarter_of_each_extent() {
    let targets = RenderTargets::new(1280, 720, 0);
    for slot in bloom_slots() {
        let target = targets.get(slot).unwrap();
        assert_eq!((target.descriptor.width, target.descriptor.height), (320, 180));
    }
}

#[test]
fn bloom_family_is_allocated_alike() {
    let targets = RenderTargets::new(1023, 767, 3);
    let expected = TargetDescriptor::render_target(255, 191, PixelFormat::Rgba16Float);
    for slot in bloom_slots() {
        assert_eq!(targets.get(slot).unwrap().descriptor, expected);
    }
    assert_eq!(targets.bright_pass().descriptor, expected);
    assert_eq!(targets.bloom().descriptor, expected);
}

#[test]
fn cascade_has_sixteen_targets_in_stage_order() {
    let targets = RenderTargets::new(640, 480, 5);
    let cascade = targets.bloom_blur();
    assert_eq!(cascade.len(), 16);
    for (stage, target) in cascade.iter().enumerate() {
        assert_eq!(target.handle, TargetHandle { slot: TargetSlot::Blur(stage), generation: 5 });
        assert_eq!(
            target.descriptor,
            TargetDescriptor::render_target(160, 120, PixelFormat::Rgba16Float)
        );
    }
}

#[test]
fn get_knows_every_valid_slot_and_no_other() {
    let targets = RenderTargets::new(640, 480, 0);
    assert_eq!(targets.get(TargetSlot::Color), Some(targets.color()));
    assert_eq!(targets.get(TargetSlot::Depth), Some(targets.depth()));
    assert_eq!(targets.get(TargetSlot::BrightPass), Some(targets.bright_pass()));
    assert_eq!(targets.get(TargetSlot::Bloom), Some(targets.bloom()));
    assert_eq!(targets.get(TargetSlot::Blur(15)), Some(targets.bloom_blur()[15]));
    assert_eq!(targets.get(TargetSlot::Blur(16)), None);
    assert_eq!(targets.get(TargetSlot::Blur(usize::MAX)), None);
}

#[test]
fn allocation_order_is_color_depth_bright_cascade_bloom() {
    let targets = RenderTargets::new(640, 480, 2);
    let order: Vec<RenderTarget> = targets.allocation_order();
    assert_eq!(order.len(), 20);
    assert_eq!(order[0], targets.color());
    assert_eq!(order[1], targets.depth());
    assert_eq!(order[2], targets.bright_pass());
    for stage in 0..16 {
        assert_eq!(order[3 + stage], targets.bloom_blur()[stage]);
    }
    assert_eq!(order[19], targets.bloom());
    for (position, target) in order.iter().enumerate() {
        assert_eq!(TargetSlot::at(position), Some(target.handle.slot));
        assert_eq!(target.handle.generation, 2);
    }
}

#[test]
fn slot_at_ends_after_the_last_target() {
    assert_eq!(TargetSlot::at(0), Some(TargetSlot::Color));
    assert_eq!(TargetSlot::at(1), Some(TargetSlot::Depth));
    assert_eq!(TargetSlot::at(2), Some(TargetSlot::BrightPass));
    assert_eq!(TargetSlot::at(3), Some(TargetSlot::Blur(0)));
    assert_eq!(TargetSlot::at(18), Some(TargetSlot::Blur(15)));
    assert_eq!(TargetSlot::at(19), Some(TargetSlot::Bloom));
    assert_eq!(TargetSlot::at(20), None);
    assert_eq!(TargetSlot::at(usize::MAX), None);
}

#[test]
fn slot_validity_and_family() {
    assert!(TargetSlot::Color.is_valid());
    assert!(TargetSlot::Blur(15).is_valid());
    assert!(!TargetSlot::Blur(16).is_valid());
    assert!(!TargetSlot::Color.is_bloom_family());
    assert!(!TargetSlot::Depth.is_bloom_family());
    assert!(TargetSlot::BrightPass.is_bloom_family());
    assert!(TargetSlot::Blur(0).is_bloom_family());
    assert!(TargetSlot::Bloom.is_bloom_family());
    assert_eq!(TargetSlot::Depth.format(), PixelFormat::Depth32Float);
    assert_eq!(TargetSlot::Bloom.format(), PixelFormat::Rgba16Float);
}

#[test]
fn set_reports_size_and_generation() {
    let targets = RenderTargets::new(800, 600, 9);
    assert_eq!(targets.size(), Size { width: 800, height: 600 });
    assert_eq!(targets.generation(), 9);
    assert_eq!(targets.to_set().size, Size { width: 800, height: 600 });
    assert_eq!(targets.to_set().generation, 9);
}

#[test]
fn handles_of_another_generation_are_not_issued() {
    let targets = RenderTargets::new(640, 480, 4);
    assert!(targets.issues(TargetHandle { slot: TargetSlot::Bloom, generation: 4 }));
    assert!(targets.issues(targets.bloom_blur()[7].handle));
    assert!(!targets.issues(TargetHandle { slot: TargetSlot::Bloom, generation: 3 }));
    assert!(!targets.issues(TargetHandle { slot: TargetSlot::Bloom, generation: 5 }));
    assert!(!targets.issues(TargetHandle { slot: TargetSlot::Blur(16), generation: 4 }));
}

#[test]
fn too_small_an_output_leaves_the_bloom_family_empty() {
    let targets = RenderTargets::new(3, 2, 0);
    assert_eq!((targets.color().descriptor.width, targets.color().descriptor.height), (3, 2));
    assert_eq!((targets.bloom().descriptor.width, targets.bloom().descriptor.height), (0, 0));
}

#[test]
fn target_labels() {
    assert_eq!(TargetSlot::Color.label(), "Color Texture");
    assert_eq!(TargetSlot::Depth.label(), "Depth Texture");
    assert_eq!(TargetSlot::BrightPass.label(), "Bright Pass Texture");
    assert_eq!(TargetSlot::Blur(0).label(), "Blur Texture 0");
    assert_eq!(TargetSlot::Blur(9).label(), "Blur Texture 9");
    assert_eq!(TargetSlot::Blur(10).label(), "Blur Texture 10");
    assert_eq!(TargetSlot::Blur(15).label(), "Blur Texture 15");
    assert_eq!(TargetSlot::Bloom.label(), "Bloom Texture");
}
