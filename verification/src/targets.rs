//! The intermediate images ("render targets") of the pipeline.

use crate::text::{numbered, spec_decimal};
use vstd::prelude::*;

verus! {

/// Factor between the output resolution and the bloom-family resolution.
pub const BLOOM_DOWNSAMPLE: u32 = 4;

/// Number of stages in the blur cascade.
pub const BLUR_STAGES: usize = 16;

/// Number of targets in a full set: colour, depth, bright-pass, the cascade, bloom.
pub const TARGET_COUNT: usize = 20;

/// An output resolution in pixels.
#[derive(Clone, Copy, Debug, PartialEq, Eq, Structural)]
pub struct Size {
    pub width: u32,
    pub height: u32,
}

impl Size {
    /// The resolution of the bloom family: each extent divided by
    /// [`BLOOM_DOWNSAMPLE`], rounded down.
    pub open spec fn spec_downsampled(self) -> Size {
        Size {
            width: (self.width / BLOOM_DOWNSAMPLE) as u32,
            height: (self.height / BLOOM_DOWNSAMPLE) as u32,
        }
    }

    /// The resolution of the bloom family for this output size.
    #[verifier::when_used_as_spec(spec_downsampled)]
    pub fn downsampled(self) -> (r: Size)
        ensures
            r == self.spec_downsampled(),
    {
        Size { width: self.width / BLOOM_DOWNSAMPLE, height: self.height / BLOOM_DOWNSAMPLE }
    }
}

/// Pixel formats the pipeline works with.
#[derive(Clone, Copy, Debug, PartialEq, Eq, Structural)]
pub enum PixelFormat {
    /// High dynamic range colour, four 16-bit float channels.
    Rgba16Float,
    /// 32-bit float depth.
    Depth32Float,
    /// Whatever format was negotiated for the presentation surface.
    Presentation,
}

/// Dimensionality of an image.
#[derive(Clone, Copy, Debug, PartialEq, Eq, Structural)]
pub enum TextureDimension {
    D1,
    D2,
    D3,
}

/// What an image may be used for.
#[derive(Clone, Copy, Debug, PartialEq, Eq, Structural)]
pub struct TextureUsage {
    /// It can be sampled by a pass.
    pub texture_binding: bool,
    /// It can be the output of a render-pass scope.
    pub render_attachment: bool,
}

/// The place of a target in the set.
#[derive(Clone, Copy, Debug, PartialEq, Eq, Hash, Structural)]
pub enum TargetSlot {
    /// HDR scene colour at full resolution.
    Color,
    /// Scene depth at full resolution.
    Depth,
    /// Bright-pass extraction, the seed of the bloom.
    BrightPass,
    /// Output of one stage of the blur cascade.
    Blur(usize),
    /// The combined bloom image.
    Bloom,
}

impl TargetSlot {
    /// A slot names a target of the set; a cascade slot does so only below
    /// [`BLUR_STAGES`].
    pub open spec fn spec_is_valid(self) -> bool {
        match self {
            TargetSlot::Blur(stage) => stage < BLUR_STAGES,
            _ => true,
        }
    }

    /// Whether the slot names a target of the set.
    #[verifier::when_used_as_spec(spec_is_valid)]
    pub fn is_valid(self) -> (r: bool)
        ensures
            r == self.spec_is_valid(),
    {
        match self {
            TargetSlot::Blur(stage) => stage < BLUR_STAGES,
            _ => true,
        }
    }

    /// The bloom family: bright-pass, every cascade stage and the bloom image.
    pub open spec fn spec_is_bloom_family(self) -> bool {
        match self {
            TargetSlot::Color | TargetSlot::Depth => false,
            _ => true,
        }
    }

    /// Whether the slot belongs to the bloom family.
    #[verifier::when_used_as_spec(spec_is_bloom_family)]
    pub fn is_bloom_family(self) -> (r: bool)
        ensures
            r == self.spec_is_bloom_family(),
    {
        match self {
            TargetSlot::Color | TargetSlot::Depth => false,
            _ => true,
        }
    }

    /// Depth is stored as depth; every other target is HDR colour.
    pub open spec fn spec_format(self) -> PixelFormat {
        match self {
            TargetSlot::Depth => PixelFormat::Depth32Float,
            _ => PixelFormat::Rgba16Float,
        }
    }

    /// The format the target in this slot is stored in.
    #[verifier::when_used_as_spec(spec_format)]
    pub fn format(self) -> (r: PixelFormat)
        ensures
            r == self.spec_format(),
    {
        match self {
            TargetSlot::Depth => PixelFormat::Depth32Float,
            _ => PixelFormat::Rgba16Float,
        }
    }

    /// The name under which the target is known to the graphics device.
    pub open spec fn spec_label(self) -> Seq<char> {
        match self {
            TargetSlot::Color => "Color Texture"@,
            TargetSlot::Depth => "Depth Texture"@,
            TargetSlot::BrightPass => "Bright Pass Texture"@,
            TargetSlot::Blur(stage) => "Blur Texture "@ + spec_decimal(stage as nat),
            TargetSlot::Bloom => "Bloom Texture"@,
        }
    }

    /// The name under which the target is known to the graphics device.
    pub fn label(self) -> (r: String)
        ensures
            r@ == self.spec_label(),
    {
        match self {
            TargetSlot::Color => String::from_str("Color Texture"),
            TargetSlot::Depth => String::from_str("Depth Texture"),
            TargetSlot::BrightPass => String::from_str("Bright Pass Texture"),
            TargetSlot::Blur(stage) => numbered("Blur Texture ", stage),
            TargetSlot::Bloom => String::from_str("Bloom Texture"),
        }
    }

    /// Position of a valid slot in the order of allocation: colour, depth,
    /// bright-pass, the cascade in stage order, bloom.
    pub open spec fn spec_ordinal(self) -> int {
        match self {
            TargetSlot::Color => 0,
            TargetSlot::Depth => 1,
            TargetSlot::BrightPass => 2,
            TargetSlot::Blur(stage) => 3 + stage,
            TargetSlot::Bloom => 3 + BLUR_STAGES,
        }
    }

    /// The slot allocated at a position; the inverse of [`Self::spec_ordinal`].
    pub open spec fn spec_at(position: int) -> TargetSlot {
        if position == 0 {
            TargetSlot::Color
        } else if position == 1 {
            TargetSlot::Depth
        } else if position == 2 {
            TargetSlot::BrightPass
        } else if position < 3 + BLUR_STAGES {
            TargetSlot::Blur((position - 3) as usize)
        } else {
            TargetSlot::Bloom
        }
    }

    /// The slot at a position of the order of allocation, if there is one.
    pub fn at(position: usize) -> (r: Option<TargetSlot>)
        ensures
            position < TARGET_COUNT ==> r == Some(Self::spec_at(position as int)),
            position >= TARGET_COUNT ==> r.is_none(),
    {
        if position == 0 {
            Some(TargetSlot::Color)
        } else if position == 1 {
            Some(TargetSlot::Depth)
        } else if position == 2 {
            Some(TargetSlot::BrightPass)
        } else if position < 3 + BLUR_STAGES {
            Some(TargetSlot::Blur(position - 3))
        } else if position == 3 + BLUR_STAGES {
            Some(TargetSlot::Bloom)
        } else {
            None
        }
    }
}

/// Names one target of one generation of the set.
///
/// Every resize replaces the whole set and starts a new generation, so a
/// handle that was issued before a resize names nothing afterwards.
#[derive(Clone, Copy, Debug, PartialEq, Eq, Hash, Structural)]
pub struct TargetHandle {
    pub slot: TargetSlot,
    pub generation: u64,
}

/// What the graphics device is asked to allocate for one target.
#[derive(Clone, Copy, Debug, PartialEq, Eq, Structural)]
pub struct TargetDescriptor {
    pub width: u32,
    pub height: u32,
    pub depth_or_array_layers: u32,
    pub mip_level_count: u32,
    pub sample_count: u32,
    pub dimension: TextureDimension,
    pub format: PixelFormat,
    pub usage: TextureUsage,
}

impl TargetDescriptor {
    /// A render target is a single-layer, single-mip, single-sample 2D image
    /// that passes can both render into and sample from.
    pub open spec fn spec_render_target(width: u32, height: u32, format: PixelFormat) -> TargetDescriptor {
        TargetDescriptor {
            width,
            height,
            depth_or_array_layers: 1,
            mip_level_count: 1,
            sample_count: 1,
            dimension: TextureDimension::D2,
            format,
            usage: TextureUsage { texture_binding: true, render_attachment: true },
        }
    }

    /// What is allocated for a render target of the given extent and format.
    #[verifier::when_used_as_spec(spec_render_target)]
    pub fn render_target(width: u32, height: u32, format: PixelFormat) -> (r: TargetDescriptor)
        ensures
            r == Self::spec_render_target(width, height, format),
    {
        TargetDescriptor {
            width,
            height,
            depth_or_array_layers: 1,
            mip_level_count: 1,
            sample_count: 1,
            dimension: TextureDimension::D2,
            format,
            usage: TextureUsage { texture_binding: true, render_attachment: true },
        }
    }
}

/// One target of the set: its handle and what is allocated for it.
#[derive(Clone, Copy, Debug, PartialEq, Eq, Structural)]
pub struct RenderTarget {
    pub handle: TargetHandle,
    pub descriptor: TargetDescriptor,
}

/// The mathematical content of a [`RenderTargets`] value. The output size and
/// the generation determine every target of the set.
#[derive(Clone, Copy, Debug, PartialEq, Eq, Structural)]
pub struct TargetSet {
    pub size: Size,
    pub generation: u64,
}

impl TargetSet {
    /// Full resolution for colour and depth, the downsampled resolution for
    /// the bloom family.
    pub open spec fn extent(self, slot: TargetSlot) -> Size {
        if slot.spec_is_bloom_family() {
            self.size.spec_downsampled()
        } else {
            self.size
        }
    }

    /// What is allocated for the target in a slot.
    pub open spec fn descriptor(self, slot: TargetSlot) -> TargetDescriptor {
        TargetDescriptor::spec_render_target(
            self.extent(slot).width,
            self.extent(slot).height,
            slot.spec_format(),
        )
    }

    /// The handle that names the target in a slot.
    pub open spec fn handle(self, slot: TargetSlot) -> TargetHandle {
        TargetHandle { slot, generation: self.generation }
    }

    /// The target in a slot.
    pub open spec fn target(self, slot: TargetSlot) -> RenderTarget {
        RenderTarget { handle: self.handle(slot), descriptor: self.descriptor(slot) }
    }

    /// A handle names a target of this set.
    pub open spec fn issues(self, handle: TargetHandle) -> bool {
        handle.slot.spec_is_valid() && handle.generation == self.generation
    }

    /// The cascade's targets in stage order.
    pub open spec fn cascade(self) -> Seq<RenderTarget> {
        Seq::new(BLUR_STAGES as nat, |stage: int| self.target(TargetSlot::Blur(stage as usize)))
    }

    /// Every target of the set in the order in which it is allocated.
    pub open spec fn allocation_order(self) -> Seq<RenderTarget> {
        Seq::new(TARGET_COUNT as nat, |position: int| self.target(TargetSlot::spec_at(position)))
    }
}

/// The set of intermediate images, sized from the output resolution.
///
/// A value is made whole and never changed afterwards: a resize makes a new
/// set of a new generation.
#[derive(Debug)]
pub struct RenderTargets {
    size: Size,
    generation: u64,
    color: RenderTarget,
    depth: RenderTarget,
    bright_pass: RenderTarget,
    bloom_blur: Vec<RenderTarget>,
    bloom: RenderTarget,
}

impl View for RenderTargets {
    type V = TargetSet;

    closed spec fn view(&self) -> TargetSet {
        TargetSet { size: self.size, generation: self.generation }
    }
}

impl RenderTargets {
    #[verifier::type_invariant]
    spec fn well_formed(self) -> bool {
        &&& self.color == self@.target(TargetSlot::Color)
        &&& self.depth == self@.target(TargetSlot::Depth)
        &&& self.bright_pass == self@.target(TargetSlot::BrightPass)
        &&& self.bloom_blur@ == self@.cascade()
        &&& self.bloom == self@.target(TargetSlot::Bloom)
    }

    /// Describes one target of a set.
    fn create_render_target(set: TargetSet, slot: TargetSlot) -> (r: RenderTarget)
        ensures
            r == set.target(slot),
    {
        let extent: Size = if slot.is_bloom_family() {
            set.size.downsampled()
        } else {
            set.size
        };
        RenderTarget {
            handle: TargetHandle { slot, generation: set.generation },
            descriptor: TargetDescriptor::render_target(extent.width, extent.height, slot.format()),
        }
    }

    /// The whole set for an output of `width` by `height` pixels: colour and
    /// depth at full resolution, then bright-pass, the cascade and bloom at a
    /// quarter of each extent.
    pub fn new(width: u32, height: u32, generation: u64) -> (r: RenderTargets)
        ensures
            r@ == (TargetSet { size: Size { width, height }, generation }),
    {
        let size = Size { width, height };
        let set = TargetSet { size, generation };
        let color = Self::create_render_target(set, TargetSlot::Color);
        let depth = Self::create_render_target(set, TargetSlot::Depth);
        let bright_pass = Self::create_render_target(set, TargetSlot::BrightPass);
        let mut bloom_blur: Vec<RenderTarget> = Vec::new();
        let mut stage: usize = 0;
        while stage < BLUR_STAGES
            invariant
                stage <= BLUR_STAGES,
                bloom_blur@.len() == stage,
                forall|i: int| 0 <= i < stage ==> bloom_blur@[i] == set.target(TargetSlot::Blur(i as usize)),
            decreases BLUR_STAGES - stage,
        {
            bloom_blur.push(Self::create_render_target(set, TargetSlot::Blur(stage)));
            stage = stage + 1;
        }
        let bloom = Self::create_render_target(set, TargetSlot::Bloom);
        assert(bloom_blur@ =~= set.cascade());
        RenderTargets { size, generation, color, depth, bright_pass, bloom_blur, bloom }
    }

    /// Size and generation, which determine the whole set.
    pub fn to_set(&self) -> (r: TargetSet)
        ensures
            r == self@,
    {
        TargetSet { size: self.size, generation: self.generation }
    }

    /// The output resolution the set was sized from.
    pub fn size(&self) -> (r: Size)
        ensures
            r == self@.size,
    {
        self.size
    }

    /// The generation the set belongs to.
    pub fn generation(&self) -> (r: u64)
        ensures
            r == self@.generation,
    {
        self.generation
    }

    /// HDR scene colour at the output size.
    pub fn color(&self) -> (r: RenderTarget)
        ensures
            r == self@.target(TargetSlot::Color),
    {
        proof {
            use_type_invariant(self);
        }
        self.color
    }

    /// Scene depth at the output size.
    pub fn depth(&self) -> (r: RenderTarget)
        ensures
            r == self@.target(TargetSlot::Depth),
    {
        proof {
            use_type_invariant(self);
        }
        self.depth
    }

    /// The bright-pass target, the seed of the bloom.
    pub fn bright_pass(&self) -> (r: RenderTarget)
        ensures
            r == self@.target(TargetSlot::BrightPass),
    {
        proof {
            use_type_invariant(self);
        }
        self.bright_pass
    }

    /// The cascade's targets in stage order.
    pub fn bloom_blur(&self) -> (r: &Vec<RenderTarget>)
        ensures
            r@ == self@.cascade(),
    {
        proof {
            use_type_invariant(self);
        }
        &self.bloom_blur
    }

    /// The combined bloom image.
    pub fn bloom(&self) -> (r: RenderTarget)
        ensures
            r == self@.target(TargetSlot::Bloom),
    {
        proof {
            use_type_invariant(self);
        }
        self.bloom
    }

    /// The target in a slot; `None` for a cascade stage that does not exist.
    pub fn get(&self, slot: TargetSlot) -> (r: Option<RenderTarget>)
        ensures
            r == if slot.spec_is_valid() {
                Some(self@.target(slot))
            } else {
                None
            },
    {
        proof {
            use_type_invariant(self);
        }
        match slot {
            TargetSlot::Color => Some(self.color),
            TargetSlot::Depth => Some(self.depth),
            TargetSlot::BrightPass => Some(self.bright_pass),
            TargetSlot::Blur(stage) => {
                if stage < BLUR_STAGES {
                    Some(self.bloom_blur[stage])
                } else {
                    None
                }
            },
            TargetSlot::Bloom => Some(self.bloom),
        }
    }

    /// Whether a handle names a target of this set.
    pub fn issues(&self, handle: TargetHandle) -> (r: bool)
        ensures
            r == self@.issues(handle),
    {
        handle.slot.is_valid() && handle.generation == self.generation
    }

    /// Every target in the order in which the device is asked for it.
    pub fn allocation_order(&self) -> (r: Vec<RenderTarget>)
        ensures
            r@ == self@.allocation_order(),
    {
        proof {
            use_type_invariant(self);
        }
        let mut order: Vec<RenderTarget> = Vec::new();
        order.push(self.color);
        order.push(self.depth);
        order.push(self.bright_pass);
        let mut stage: usize = 0;
        while stage < BLUR_STAGES
            invariant
                stage <= BLUR_STAGES,
                self.bloom_blur@ == self@.cascade(),
                order@.len() == 3 + stage,
                forall|k: int| 0 <= k < 3 + stage ==> order@[k] == self@.target(TargetSlot::spec_at(k)),
            decreases BLUR_STAGES - stage,
        {
            order.push(self.bloom_blur[stage]);
            stage = stage + 1;
        }
        order.push(self.bloom);
        assert(order@ =~= self@.allocation_order());
        order
    }
}

/// A target of the bloom family has a quarter of each output extent, rounded
/// down, whatever the output size.
pub proof fn lemma_bloom_resolution(set: TargetSet, slot: TargetSlot)
    requires
        slot.spec_is_bloom_family(),
    ensures
        set.descriptor(slot).width == set.size.width / 4,
        set.descriptor(slot).height == set.size.height / 4,
        4 * set.descriptor(slot).width <= set.size.width < 4 * set.descriptor(slot).width + 4,
        4 * set.descriptor(slot).height <= set.size.height < 4 * set.descriptor(slot).height + 4,
{
}

/// Colour and depth have the output size itself.
pub proof fn lemma_full_resolution(set: TargetSet, slot: TargetSlot)
    requires
        !slot.spec_is_bloom_family(),
    ensures
        set.descriptor(slot).width == set.size.width,
        set.descriptor(slot).height == set.size.height,
{
}

/// Any two targets of the bloom family of one set are allocated alike: the
/// same resolution, the same format, the same usage. The output of any stage
/// can therefore feed any other.
pub proof fn lemma_bloom_family_uniform(set: TargetSet, a: TargetSlot, b: TargetSlot)
    requires
        a.spec_is_bloom_family(),
        b.spec_is_bloom_family(),
    ensures
        set.descriptor(a) == set.descriptor(b),
        set.descriptor(a).format == PixelFormat::Rgba16Float,
{
}

/// The order of allocation holds every target of the set exactly once: a
/// valid slot stands at its ordinal, and nothing else stands anywhere.
pub proof fn lemma_allocation_order_complete(set: TargetSet)
    ensures
        set.allocation_order().len() == TARGET_COUNT,
        forall|slot: TargetSlot|
            slot.spec_is_valid() ==> {
                &&& 0 <= #[trigger] slot.spec_ordinal() < TARGET_COUNT
                &&& set.allocation_order()[slot.spec_ordinal()] == set.target(slot)
            },
        forall|position: int|
            0 <= position < TARGET_COUNT ==> {
                let slot = (#[trigger] set.allocation_order()[position]).handle.slot;
                &&& slot.spec_is_valid()
                &&& slot.spec_ordinal() == position
            },
{
}

} // verus!
