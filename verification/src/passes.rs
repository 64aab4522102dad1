//! The passes of the pipeline and the targets each one samples.

use crate::targets::{PixelFormat, RenderTargets, TargetHandle, TargetSet, TargetSlot, BLUR_STAGES};
use vstd::prelude::*;

verus! {

/// Number of pass instances: scene, bright-pass, the cascade, the additive
/// combine, one copy per cascade stage, compose.
pub const PASS_COUNT: usize = 36;

/// Names one pass instance of the pipeline.
#[derive(Clone, Copy, Debug, PartialEq, Eq, Hash, Structural)]
pub enum PassId {
    /// Draws the scene into colour and depth.
    Scene,
    /// Keeps the pixels of the colour target above the luminance threshold.
    BrightPass,
    /// One stage of the blur cascade.
    Blur(usize),
    /// Sums two cascade stages into the bloom image in one draw.
    Add,
    /// Copies one cascade stage into the bloom image.
    Copy(usize),
    /// Blends colour and bloom into the presented image.
    Compose,
}

impl PassId {
    /// A cascade or copy pass exists only for a stage below [`BLUR_STAGES`].
    pub open spec fn spec_is_valid(self) -> bool {
        match self {
            PassId::Blur(stage) => stage < BLUR_STAGES,
            PassId::Copy(stage) => stage < BLUR_STAGES,
            _ => true,
        }
    }

    /// Whether the pass is one of the pipeline.
    #[verifier::when_used_as_spec(spec_is_valid)]
    pub fn is_valid(self) -> (r: bool)
        ensures
            r == self.spec_is_valid(),
    {
        match self {
            PassId::Blur(stage) => stage < BLUR_STAGES,
            PassId::Copy(stage) => stage < BLUR_STAGES,
            _ => true,
        }
    }

    /// Position of a valid pass in the order of construction; the inverse of
    /// [`Self::spec_at`].
    pub open spec fn spec_ordinal(self) -> int {
        match self {
            PassId::Scene => 0,
            PassId::BrightPass => 1,
            PassId::Blur(stage) => 2 + stage,
            PassId::Add => 2 + BLUR_STAGES,
            PassId::Copy(stage) => 3 + BLUR_STAGES + stage,
            PassId::Compose => 3 + 2 * BLUR_STAGES,
        }
    }

    /// The pass built at a position of the order of construction: scene,
    /// bright-pass, the cascade in stage order, add, the copies in stage
    /// order, compose.
    pub open spec fn spec_at(position: int) -> PassId {
        if position == 0 {
            PassId::Scene
        } else if position == 1 {
            PassId::BrightPass
        } else if position < 2 + BLUR_STAGES {
            PassId::Blur((position - 2) as usize)
        } else if position == 2 + BLUR_STAGES {
            PassId::Add
        } else if position < 3 + 2 * BLUR_STAGES {
            PassId::Copy((position - 3 - BLUR_STAGES) as usize)
        } else {
            PassId::Compose
        }
    }
}

/// How the cascade is merged into the bloom image.
#[derive(Clone, Copy, Debug, PartialEq, Eq, Structural)]
pub enum CombineStrategy {
    /// One draw of the additive pass.
    Additive,
    /// One draw per cascade stage, accumulated by blending, in stage order.
    CopyAccumulate,
}

/// The target views a pass samples from.
#[derive(Clone, Copy, Debug, PartialEq, Eq, Structural)]
pub enum PassInputs {
    Empty,
    Single(TargetHandle),
    Pair(TargetHandle, TargetHandle),
}

impl PassInputs {
    /// The pass samples the target that `handle` names.
    pub open spec fn spec_reads(self, handle: TargetHandle) -> bool {
        match self {
            PassInputs::Empty => false,
            PassInputs::Single(a) => a == handle,
            PassInputs::Pair(a, b) => a == handle || b == handle,
        }
    }

    /// Whether the pass samples the target that `handle` names.
    #[verifier::when_used_as_spec(spec_reads)]
    pub fn reads(self, handle: TargetHandle) -> (r: bool)
        ensures
            r == self.spec_reads(handle),
    {
        match self {
            PassInputs::Empty => false,
            PassInputs::Single(a) => a == handle,
            PassInputs::Pair(a, b) => a == handle || b == handle,
        }
    }
}

/// What a pass instance is built from.
#[derive(Clone, Copy, Debug, PartialEq, Eq, Structural)]
pub struct PassDescriptor {
    pub id: PassId,
    pub inputs: PassInputs,
    /// Format of the colour output the pass is compiled for.
    pub color_format: PixelFormat,
    /// Format of the depth attachment the pass is compiled for, if it has one.
    pub depth_format: Option<PixelFormat>,
}

/// The target a cascade stage blurs: the bright-pass target for the first
/// stage, the output of the previous stage for every other.
pub open spec fn spec_blur_source(stage: usize) -> TargetSlot {
    if stage == 0 {
        TargetSlot::BrightPass
    } else {
        TargetSlot::Blur((stage - 1) as usize)
    }
}

/// The targets of `set` that a pass samples.
pub open spec fn spec_inputs(set: TargetSet, id: PassId) -> PassInputs {
    match id {
        PassId::Scene => PassInputs::Empty,
        PassId::BrightPass => PassInputs::Single(set.handle(TargetSlot::Color)),
        PassId::Blur(stage) => PassInputs::Single(set.handle(spec_blur_source(stage))),
        PassId::Add => PassInputs::Pair(
            set.handle(TargetSlot::Blur(0)),
            set.handle(TargetSlot::Blur(1)),
        ),
        PassId::Copy(stage) => PassInputs::Single(set.handle(TargetSlot::Blur(stage))),
        PassId::Compose => PassInputs::Pair(
            set.handle(TargetSlot::Color),
            set.handle(TargetSlot::Bloom),
        ),
    }
}

/// The pass `id` as it is wired to `set`. Every pass writes HDR colour except
/// compose, which writes the presentation format; only the scene pass has a
/// depth attachment.
pub open spec fn spec_pass(set: TargetSet, id: PassId) -> PassDescriptor {
    PassDescriptor {
        id,
        inputs: spec_inputs(set, id),
        color_format: if id == PassId::Compose {
            PixelFormat::Presentation
        } else {
            PixelFormat::Rgba16Float
        },
        depth_format: if id == PassId::Scene {
            Some(PixelFormat::Depth32Float)
        } else {
            None
        },
    }
}

/// The cascade passes wired to `set`, in stage order.
pub open spec fn spec_blur_passes(set: TargetSet) -> Seq<PassDescriptor> {
    Seq::new(BLUR_STAGES as nat, |stage: int| spec_pass(set, PassId::Blur(stage as usize)))
}

/// The copy passes wired to `set`, in stage order.
pub open spec fn spec_copy_passes(set: TargetSet) -> Seq<PassDescriptor> {
    Seq::new(BLUR_STAGES as nat, |stage: int| spec_pass(set, PassId::Copy(stage as usize)))
}

/// Every pass wired to `set`, in the order of construction.
pub open spec fn spec_construction_order(set: TargetSet) -> Seq<PassDescriptor> {
    Seq::new(PASS_COUNT as nat, |position: int| spec_pass(set, PassId::spec_at(position)))
}

/// The pass instances of the pipeline, wired to one set of targets.
///
/// A pass never owns an image; it holds handles into the set. The value is
/// made whole from a set and never rewired: a new set calls for new passes.
#[derive(Debug)]
pub struct Passes {
    set: TargetSet,
    scene: PassDescriptor,
    bright_pass: PassDescriptor,
    bloom_blur: Vec<PassDescriptor>,
    bloom_add: PassDescriptor,
    bloom_copy: Vec<PassDescriptor>,
    compose: PassDescriptor,
}

impl View for Passes {
    type V = TargetSet;

    /// The set of targets the passes are wired to.
    closed spec fn view(&self) -> TargetSet {
        self.set
    }
}

impl Passes {
    #[verifier::type_invariant]
    spec fn well_formed(self) -> bool {
        &&& self.scene == spec_pass(self.set, PassId::Scene)
        &&& self.bright_pass == spec_pass(self.set, PassId::BrightPass)
        &&& self.bloom_blur@ == spec_blur_passes(self.set)
        &&& self.bloom_add == spec_pass(self.set, PassId::Add)
        &&& self.bloom_copy@ == spec_copy_passes(self.set)
        &&& self.compose == spec_pass(self.set, PassId::Compose)
    }

    /// A pass that writes HDR colour and has no depth attachment.
    fn hdr_pass(id: PassId, inputs: PassInputs) -> (r: PassDescriptor)
        ensures
            r == (PassDescriptor { id, inputs, color_format: PixelFormat::Rgba16Float, depth_format: None }),
    {
        PassDescriptor { id, inputs, color_format: PixelFormat::Rgba16Float, depth_format: None }
    }

    /// Wires every pass to `targets`. The cascade is built stage by stage:
    /// each stage takes the output of the stage built just before it.
    pub fn wire(targets: &RenderTargets) -> (r: Passes)
        ensures
            r@ == targets@,
    {
        let set = targets.to_set();
        let color = targets.color().handle;
        let bloom = targets.bloom().handle;
        let cascade = targets.bloom_blur();

        let scene = PassDescriptor {
            id: PassId::Scene,
            inputs: PassInputs::Empty,
            color_format: PixelFormat::Rgba16Float,
            depth_format: Some(PixelFormat::Depth32Float),
        };
        let bright_pass = Self::hdr_pass(PassId::BrightPass, PassInputs::Single(color));

        let mut bloom_blur: Vec<PassDescriptor> = Vec::new();
        let mut source = targets.bright_pass().handle;
        let mut stage: usize = 0;
        while stage < BLUR_STAGES
            invariant
                stage <= BLUR_STAGES,
                cascade@ == set.cascade(),
                source == set.handle(spec_blur_source(stage)),
                bloom_blur@.len() == stage,
                forall|i: int| 0 <= i < stage ==> bloom_blur@[i] == spec_pass(set, PassId::Blur(i as usize)),
            decreases BLUR_STAGES - stage,
        {
            bloom_blur.push(Self::hdr_pass(PassId::Blur(stage), PassInputs::Single(source)));
            source = cascade[stage].handle;
            stage = stage + 1;
        }

        let bloom_add = Self::hdr_pass(
            PassId::Add,
            PassInputs::Pair(cascade[0].handle, cascade[1].handle),
        );

        let mut bloom_copy: Vec<PassDescriptor> = Vec::new();
        let mut stage: usize = 0;
        while stage < BLUR_STAGES
            invariant
                stage <= BLUR_STAGES,
                cascade@ == set.cascade(),
                bloom_copy@.len() == stage,
                forall|i: int| 0 <= i < stage ==> bloom_copy@[i] == spec_pass(set, PassId::Copy(i as usize)),
            decreases BLUR_STAGES - stage,
        {
            bloom_copy.push(Self::hdr_pass(PassId::Copy(stage), PassInputs::Single(cascade[stage].handle)));
            stage = stage + 1;
        }

        let compose = PassDescriptor {
            id: PassId::Compose,
            inputs: PassInputs::Pair(color, bloom),
            color_format: PixelFormat::Presentation,
            depth_format: None,
        };
        assert(bloom_blur@ =~= spec_blur_passes(set));
        assert(bloom_copy@ =~= spec_copy_passes(set));
        Passes { set, scene, bright_pass, bloom_blur, bloom_add, bloom_copy, compose }
    }

    /// The pass that draws the scene.
    pub fn scene(&self) -> (r: PassDescriptor)
        ensures
            r == spec_pass(self@, PassId::Scene),
    {
        proof {
            use_type_invariant(self);
        }
        self.scene
    }

    /// The pass that extracts the bright pixels of the colour target.
    pub fn bright_pass(&self) -> (r: PassDescriptor)
        ensures
            r == spec_pass(self@, PassId::BrightPass),
    {
        proof {
            use_type_invariant(self);
        }
        self.bright_pass
    }

    /// The cascade passes in stage order.
    pub fn bloom_blur(&self) -> (r: &Vec<PassDescriptor>)
        ensures
            r@ == spec_blur_passes(self@),
    {
        proof {
            use_type_invariant(self);
        }
        &self.bloom_blur
    }

    /// The pass that sums the first two cascade stages.
    pub fn bloom_add(&self) -> (r: PassDescriptor)
        ensures
            r == spec_pass(self@, PassId::Add),
    {
        proof {
            use_type_invariant(self);
        }
        self.bloom_add
    }

    /// The copy passes in stage order.
    pub fn bloom_copy(&self) -> (r: &Vec<PassDescriptor>)
        ensures
            r@ == spec_copy_passes(self@),
    {
        proof {
            use_type_invariant(self);
        }
        &self.bloom_copy
    }

    /// The pass that blends colour and bloom into the presented image.
    pub fn compose(&self) -> (r: PassDescriptor)
        ensures
            r == spec_pass(self@, PassId::Compose),
    {
        proof {
            use_type_invariant(self);
        }
        self.compose
    }

    /// The pass with a given name; `None` for a stage that does not exist.
    pub fn get(&self, id: PassId) -> (r: Option<PassDescriptor>)
        ensures
            r == if id.spec_is_valid() {
                Some(spec_pass(self@, id))
            } else {
                None
            },
    {
        proof {
            use_type_invariant(self);
        }
        match id {
            PassId::Scene => Some(self.scene),
            PassId::BrightPass => Some(self.bright_pass),
            PassId::Blur(stage) => {
                if stage < BLUR_STAGES {
                    Some(self.bloom_blur[stage])
                } else {
                    None
                }
            },
            PassId::Add => Some(self.bloom_add),
            PassId::Copy(stage) => {
                if stage < BLUR_STAGES {
                    Some(self.bloom_copy[stage])
                } else {
                    None
                }
            },
            PassId::Compose => Some(self.compose),
        }
    }

    /// Every pass in the order in which it is built.
    pub fn construction_order(&self) -> (r: Vec<PassDescriptor>)
        ensures
            r@ == spec_construction_order(self@),
    {
        proof {
            use_type_invariant(self);
        }
        let mut order: Vec<PassDescriptor> = Vec::new();
        order.push(self.scene);
        order.push(self.bright_pass);
        let mut stage: usize = 0;
        while stage < BLUR_STAGES
            invariant
                stage <= BLUR_STAGES,
                self.bloom_blur@ == spec_blur_passes(self@),
                order@.len() == 2 + stage,
                forall|k: int| 0 <= k < 2 + stage ==> order@[k] == spec_pass(self@, PassId::spec_at(k)),
            decreases BLUR_STAGES - stage,
        {
            order.push(self.bloom_blur[stage]);
            stage = stage + 1;
        }
        order.push(self.bloom_add);
        let mut stage: usize = 0;
        while stage < BLUR_STAGES
            invariant
                stage <= BLUR_STAGES,
                self.bloom_copy@ == spec_copy_passes(self@),
                order@.len() == 3 + BLUR_STAGES + stage,
                forall|k: int|
                    0 <= k < 3 + BLUR_STAGES + stage ==> order@[k] == spec_pass(
                        self@,
                        PassId::spec_at(k),
                    ),
            decreases BLUR_STAGES - stage,
        {
            order.push(self.bloom_copy[stage]);
            stage = stage + 1;
        }
        order.push(self.compose);
        assert(order@ =~= spec_construction_order(self@));
        order
    }
}

/// A pass samples only targets of the set it is wired to.
pub proof fn lemma_inputs_are_issued(set: TargetSet, id: PassId, handle: TargetHandle)
    requires
        id.spec_is_valid(),
        spec_inputs(set, id).spec_reads(handle),
    ensures
        set.issues(handle),
{
}

/// The order of construction holds every pass exactly once: a valid pass
/// stands at its ordinal, and nothing else stands anywhere.
pub proof fn lemma_construction_order_complete(set: TargetSet)
    ensures
        spec_construction_order(set).len() == PASS_COUNT,
        forall|id: PassId|
            id.spec_is_valid() ==> {
                &&& 0 <= #[trigger] id.spec_ordinal() < PASS_COUNT
                &&& spec_construction_order(set)[id.spec_ordinal()] == spec_pass(set, id)
            },
        forall|position: int|
            0 <= position < PASS_COUNT ==> {
                let id = (#[trigger] spec_construction_order(set)[position]).id;
                &&& id.spec_is_valid()
                &&& id.spec_ordinal() == position
            },
{
}

/// The scene pass is the one pass that holds no handle to a target.
pub proof fn lemma_only_scene_holds_no_handle(set: TargetSet, id: PassId)
    requires
        id.spec_is_valid(),
    ensures
        spec_inputs(set, id) == PassInputs::Empty <==> id == PassId::Scene,
{
}

} // verus!
