//! One frame as the sequence of requests made to the graphics device.

use crate::passes::{spec_inputs, spec_pass, CombineStrategy, PassId, PassInputs};
use crate::targets::{PixelFormat, TargetHandle, TargetSet, TargetSlot, BLUR_STAGES};
use crate::text::{numbered, spec_decimal};
use vstd::prelude::*;

verus! {

/// Number of render-pass scopes in a frame: scene, bright-pass, the cascade,
/// combine, compose.
pub const SCOPE_COUNT: usize = 20;

/// Number of scopes recorded before the surface image is acquired: all but
/// compose.
pub const OFFSCREEN_SCOPE_COUNT: usize = 19;

/// Number of commands in a frame.
pub const FRAME_LENGTH: usize = 27;

/// What happens to a colour attachment when its scope begins.
#[derive(Clone, Copy, Debug, PartialEq, Eq, Structural)]
pub enum ColorLoad {
    /// Keep what the image holds.
    Load,
    /// Clear every channel to zero.
    ClearTransparent,
}

/// What happens to a depth attachment when its scope begins.
#[derive(Clone, Copy, Debug, PartialEq, Eq, Structural)]
pub enum DepthLoad {
    /// Keep what the image holds.
    Load,
    /// Clear to the far plane, depth one.
    ClearFar,
}

/// Load and store behaviour of a colour attachment.
#[derive(Clone, Copy, Debug, PartialEq, Eq, Structural)]
pub struct ColorOps {
    pub load: ColorLoad,
    /// Whether the result is kept when the scope ends.
    pub store: bool,
}

/// Load and store behaviour of a depth attachment.
#[derive(Clone, Copy, Debug, PartialEq, Eq, Structural)]
pub struct DepthOps {
    pub load: DepthLoad,
    /// Whether the result is kept when the scope ends.
    pub store: bool,
}

/// Where a scope writes colour.
#[derive(Clone, Copy, Debug, PartialEq, Eq, Structural)]
pub enum OutputTarget {
    /// A target of the set.
    Target(TargetHandle),
    /// The image acquired from the presentation surface for this frame.
    Surface,
}

/// The colour output of a scope.
#[derive(Clone, Copy, Debug, PartialEq, Eq, Structural)]
pub struct ColorAttachment {
    pub target: OutputTarget,
    pub ops: ColorOps,
}

/// The depth buffer of a scope.
#[derive(Clone, Copy, Debug, PartialEq, Eq, Structural)]
pub struct DepthAttachment {
    pub target: TargetHandle,
    pub ops: DepthOps,
}

/// Names one render-pass scope of a frame.
#[derive(Clone, Copy, Debug, PartialEq, Eq, Hash, Structural)]
pub enum ScopeKind {
    Scene,
    BrightPass,
    Blur(usize),
    Combine,
    Compose,
}

impl ScopeKind {
    /// A cascade scope exists only for a stage below [`BLUR_STAGES`].
    pub open spec fn spec_is_valid(self) -> bool {
        match self {
            ScopeKind::Blur(stage) => stage < BLUR_STAGES,
            _ => true,
        }
    }

    /// Whether the scope is one of a frame.
    #[verifier::when_used_as_spec(spec_is_valid)]
    pub fn is_valid(self) -> (r: bool)
        ensures
            r == self.spec_is_valid(),
    {
        match self {
            ScopeKind::Blur(stage) => stage < BLUR_STAGES,
            _ => true,
        }
    }

    /// The name under which the scope is known to the graphics device.
    pub open spec fn spec_label(self) -> Seq<char> {
        match self {
            ScopeKind::Scene => "Particle Render Pass"@,
            ScopeKind::BrightPass => "Bright Pass Render Pass"@,
            ScopeKind::Blur(stage) => "Bloom Blur Render Pass "@ + spec_decimal(stage as nat),
            ScopeKind::Combine => "Bloom Combine Render Pass"@,
            ScopeKind::Compose => "Compose Render Pass"@,
        }
    }

    /// The name under which the scope is known to the graphics device.
    pub fn label(self) -> (r: String)
        ensures
            r@ == self.spec_label(),
    {
        match self {
            ScopeKind::Scene => String::from_str("Particle Render Pass"),
            ScopeKind::BrightPass => String::from_str("Bright Pass Render Pass"),
            ScopeKind::Blur(stage) => numbered("Bloom Blur Render Pass ", stage),
            ScopeKind::Combine => String::from_str("Bloom Combine Render Pass"),
            ScopeKind::Compose => String::from_str("Compose Render Pass"),
        }
    }

    /// The scope recorded at a position: scene, bright-pass, the cascade in
    /// stage order, combine, compose.
    pub open spec fn spec_at(position: int) -> ScopeKind {
        if position == 0 {
            ScopeKind::Scene
        } else if position == 1 {
            ScopeKind::BrightPass
        } else if position < 2 + BLUR_STAGES {
            ScopeKind::Blur((position - 2) as usize)
        } else if position == 2 + BLUR_STAGES {
            ScopeKind::Combine
        } else {
            ScopeKind::Compose
        }
    }

    /// Position of a valid scope in the frame; the inverse of [`Self::spec_at`].
    pub open spec fn spec_ordinal(self) -> int {
        match self {
            ScopeKind::Scene => 0,
            ScopeKind::BrightPass => 1,
            ScopeKind::Blur(stage) => 2 + stage,
            ScopeKind::Combine => 2 + BLUR_STAGES,
            ScopeKind::Compose => 3 + BLUR_STAGES,
        }
    }
}

/// One render-pass scope: where it writes, how the attachments are loaded and
/// stored, and which passes draw into it, in order.
#[derive(Debug, PartialEq, Eq)]
pub struct Scope {
    pub kind: ScopeKind,
    pub color: ColorAttachment,
    pub depth: Option<DepthAttachment>,
    pub draws: Vec<PassId>,
}

/// The mathematical content of a [`Scope`].
pub struct ScopeView {
    pub kind: ScopeKind,
    pub color: ColorAttachment,
    pub depth: Option<DepthAttachment>,
    pub draws: Seq<PassId>,
}

impl View for Scope {
    type V = ScopeView;

    open spec fn view(&self) -> ScopeView {
        ScopeView { kind: self.kind, color: self.color, depth: self.depth, draws: self.draws@ }
    }
}

impl DeepView for Scope {
    type V = ScopeView;

    open spec fn deep_view(&self) -> ScopeView {
        self.view()
    }
}

/// One request of a frame.
#[derive(Debug, PartialEq, Eq)]
pub enum FrameCommand {
    /// Write the pass's parameters for this frame.
    Update(PassId),
    /// Open the command sequence.
    BeginRecording,
    /// Record one render-pass scope.
    Scope(Scope),
    /// Take the next image of the presentation surface, waiting until there
    /// is one. Where the surface hands out none, the frame is lost: nothing
    /// that follows in the frame can be carried out.
    AcquireSurface,
    /// Close the command sequence and hand it to the queue.
    Submit,
    /// Show the acquired image.
    Present,
}

/// The mathematical content of a [`FrameCommand`].
pub enum FrameStep {
    Update(PassId),
    BeginRecording,
    Scope(ScopeView),
    AcquireSurface,
    Submit,
    Present,
}

impl View for FrameCommand {
    type V = FrameStep;

    open spec fn view(&self) -> FrameStep {
        match self {
            FrameCommand::Update(pass) => FrameStep::Update(*pass),
            FrameCommand::BeginRecording => FrameStep::BeginRecording,
            FrameCommand::Scope(scope) => FrameStep::Scope(scope@),
            FrameCommand::AcquireSurface => FrameStep::AcquireSurface,
            FrameCommand::Submit => FrameStep::Submit,
            FrameCommand::Present => FrameStep::Present,
        }
    }
}

impl DeepView for FrameCommand {
    type V = FrameStep;

    open spec fn deep_view(&self) -> FrameStep {
        self.view()
    }
}

/// Every colour attachment is cleared to transparent and kept.
pub open spec fn spec_color_ops() -> ColorOps {
    ColorOps { load: ColorLoad::ClearTransparent, store: true }
}

/// The depth attachment is cleared to the far plane and discarded: depth is
/// of use only inside the scene scope.
pub open spec fn spec_depth_ops() -> DepthOps {
    DepthOps { load: DepthLoad::ClearFar, store: false }
}

/// Where a scope writes colour.
pub open spec fn spec_output(set: TargetSet, kind: ScopeKind) -> OutputTarget {
    match kind {
        ScopeKind::Scene => OutputTarget::Target(set.handle(TargetSlot::Color)),
        ScopeKind::BrightPass => OutputTarget::Target(set.handle(TargetSlot::BrightPass)),
        ScopeKind::Blur(stage) => OutputTarget::Target(set.handle(TargetSlot::Blur(stage))),
        ScopeKind::Combine => OutputTarget::Target(set.handle(TargetSlot::Bloom)),
        ScopeKind::Compose => OutputTarget::Surface,
    }
}

/// The format of what a scope writes colour into.
pub open spec fn spec_output_format(set: TargetSet, kind: ScopeKind) -> PixelFormat {
    match spec_output(set, kind) {
        OutputTarget::Target(handle) => set.descriptor(handle.slot).format,
        OutputTarget::Surface => PixelFormat::Presentation,
    }
}

/// The draws of the combine scope under a strategy.
pub open spec fn spec_combine_draws(strategy: CombineStrategy) -> Seq<PassId> {
    match strategy {
        CombineStrategy::Additive => seq![PassId::Add],
        CombineStrategy::CopyAccumulate => Seq::new(
            BLUR_STAGES as nat,
            |stage: int| PassId::Copy(stage as usize),
        ),
    }
}

/// The passes that draw into a scope, in order.
pub open spec fn spec_draws(strategy: CombineStrategy, kind: ScopeKind) -> Seq<PassId> {
    match kind {
        ScopeKind::Scene => seq![PassId::Scene],
        ScopeKind::BrightPass => seq![PassId::BrightPass],
        ScopeKind::Blur(stage) => seq![PassId::Blur(stage)],
        ScopeKind::Combine => spec_combine_draws(strategy),
        ScopeKind::Compose => seq![PassId::Compose],
    }
}

/// A scope of a frame that renders into `set`.
pub open spec fn spec_scope(set: TargetSet, strategy: CombineStrategy, kind: ScopeKind) -> ScopeView {
    ScopeView {
        kind,
        color: ColorAttachment { target: spec_output(set, kind), ops: spec_color_ops() },
        depth: if kind == ScopeKind::Scene {
            Some(DepthAttachment { target: set.handle(TargetSlot::Depth), ops: spec_depth_ops() })
        } else {
            None
        },
        draws: spec_draws(strategy, kind),
    }
}

/// The scopes recorded before the surface image is acquired, in order.
pub open spec fn spec_offscreen_scopes(set: TargetSet, strategy: CombineStrategy) -> Seq<FrameStep> {
    Seq::new(
        OFFSCREEN_SCOPE_COUNT as nat,
        |position: int| FrameStep::Scope(spec_scope(set, strategy, ScopeKind::spec_at(position))),
    )
}

/// The passes that have parameters of their own for each frame, in the order
/// in which they are written.
pub open spec fn spec_updates() -> Seq<FrameStep> {
    seq![
        FrameStep::Update(PassId::Scene),
        FrameStep::Update(PassId::BrightPass),
        FrameStep::Update(PassId::Compose),
    ]
}

/// One frame: the updates, the opening of the command sequence, every
/// offscreen scope, the acquisition of the surface image, the compose scope
/// into that image, one submission and one presentation.
pub open spec fn spec_frame(set: TargetSet, strategy: CombineStrategy) -> Seq<FrameStep> {
    spec_updates() + seq![FrameStep::BeginRecording] + spec_offscreen_scopes(set, strategy) + seq![
        FrameStep::AcquireSurface,
        FrameStep::Scope(spec_scope(set, strategy, ScopeKind::Compose)),
        FrameStep::Submit,
        FrameStep::Present,
    ]
}

impl ColorOps {
    /// Clear to transparent when the scope begins, keep the result when it ends.
    pub fn clear_and_store() -> (r: ColorOps)
        ensures
            r == spec_color_ops(),
    {
        ColorOps { load: ColorLoad::ClearTransparent, store: true }
    }
}

impl DepthOps {
    /// Clear to the far plane when the scope begins, drop the result when it ends.
    pub fn clear_and_discard() -> (r: DepthOps)
        ensures
            r == spec_depth_ops(),
    {
        DepthOps { load: DepthLoad::ClearFar, store: false }
    }
}

impl Scope {
    /// A scope that clears `target`, lets `draws` draw into it and keeps the
    /// result. It has no depth attachment.
    pub fn color_only(kind: ScopeKind, target: OutputTarget, draws: Vec<PassId>) -> (r: Scope)
        ensures
            r@ == (ScopeView {
                kind,
                color: ColorAttachment { target, ops: spec_color_ops() },
                depth: None,
                draws: draws@,
            }),
    {
        Scope {
            kind,
            color: ColorAttachment { target, ops: ColorOps::clear_and_store() },
            depth: None,
            draws,
        }
    }

    /// A scope like [`Self::color_only`] with a depth attachment that is
    /// cleared to the far plane and discarded when the scope ends.
    pub fn color_and_depth(
        kind: ScopeKind,
        target: OutputTarget,
        depth: TargetHandle,
        draws: Vec<PassId>,
    ) -> (r: Scope)
        ensures
            r@ == (ScopeView {
                kind,
                color: ColorAttachment { target, ops: spec_color_ops() },
                depth: Some(DepthAttachment { target: depth, ops: spec_depth_ops() }),
                draws: draws@,
            }),
    {
        Scope {
            kind,
            color: ColorAttachment { target, ops: ColorOps::clear_and_store() },
            depth: Some(DepthAttachment { target: depth, ops: DepthOps::clear_and_discard() }),
            draws,
        }
    }
}

/// Position of a valid scope among the commands of a frame.
pub open spec fn spec_scope_position(kind: ScopeKind) -> int {
    if kind == ScopeKind::Compose {
        FRAME_LENGTH - 3
    } else {
        4 + kind.spec_ordinal()
    }
}

/// The scope that writes a target in every frame.
pub open spec fn spec_producer(slot: TargetSlot) -> ScopeKind {
    match slot {
        TargetSlot::Color => ScopeKind::Scene,
        TargetSlot::Depth => ScopeKind::Scene,
        TargetSlot::BrightPass => ScopeKind::BrightPass,
        TargetSlot::Blur(stage) => ScopeKind::Blur(stage),
        TargetSlot::Bloom => ScopeKind::Combine,
    }
}

/// A frame records every scope exactly once and in a fixed order: scene,
/// bright-pass, the cascade stage by stage, combine, compose. Each valid scope
/// stands at its position, no other command of the frame is a scope, and a
/// scope that comes earlier in that order stands earlier in the frame.
pub proof fn lemma_every_scope_once(set: TargetSet, strategy: CombineStrategy)
    ensures
        spec_frame(set, strategy).len() == FRAME_LENGTH,
        forall|kind: ScopeKind|
            kind.spec_is_valid() ==> {
                &&& 0 <= #[trigger] spec_scope_position(kind) < FRAME_LENGTH
                &&& spec_frame(set, strategy)[spec_scope_position(kind)] == FrameStep::Scope(
                    spec_scope(set, strategy, kind),
                )
            },
        forall|position: int|
            0 <= position < FRAME_LENGTH && (#[trigger] spec_frame(set, strategy)[position]) is Scope ==> {
                let scope = spec_frame(set, strategy)[position]->Scope_0;
                &&& scope.kind.spec_is_valid()
                &&& spec_scope_position(scope.kind) == position
            },
        forall|a: ScopeKind, b: ScopeKind|
            a.spec_is_valid() && b.spec_is_valid() && a.spec_ordinal() < b.spec_ordinal() ==> (
            #[trigger] spec_scope_position(a)) < #[trigger] spec_scope_position(b),
{
    let frame = spec_frame(set, strategy);
    let offscreen = spec_offscreen_scopes(set, strategy);
    assert forall|kind: ScopeKind| kind.spec_is_valid() implies {
        &&& 0 <= #[trigger] spec_scope_position(kind) < FRAME_LENGTH
        &&& frame[spec_scope_position(kind)] == FrameStep::Scope(spec_scope(set, strategy, kind))
    } by {
        if kind != ScopeKind::Compose {
            assert(ScopeKind::spec_at(kind.spec_ordinal()) == kind);
            assert(frame[spec_scope_position(kind)] == offscreen[kind.spec_ordinal()]);
        }
    }
    assert forall|position: int|
        0 <= position < FRAME_LENGTH && (#[trigger] frame[position]) is Scope implies {
        let scope = frame[position]->Scope_0;
        &&& scope.kind.spec_is_valid()
        &&& spec_scope_position(scope.kind) == position
    } by {
        if 4 <= position < 4 + OFFSCREEN_SCOPE_COUNT {
            assert(frame[position] == offscreen[position - 4]);
        }
    }
}

/// Around the scopes a frame holds, each exactly once and at a fixed place:
/// the three updates and the opening of the command sequence before the first
/// scope; the acquisition of the surface image after the last offscreen scope
/// and before compose; one submission and then one presentation at the end.
pub proof fn lemma_frame_envelope(set: TargetSet, strategy: CombineStrategy)
    ensures
        spec_frame(set, strategy)[0] == FrameStep::Update(PassId::Scene),
        spec_frame(set, strategy)[1] == FrameStep::Update(PassId::BrightPass),
        spec_frame(set, strategy)[2] == FrameStep::Update(PassId::Compose),
        spec_frame(set, strategy)[3] == FrameStep::BeginRecording,
        spec_frame(set, strategy)[FRAME_LENGTH - 4] == FrameStep::AcquireSurface,
        spec_frame(set, strategy)[FRAME_LENGTH - 2] == FrameStep::Submit,
        spec_frame(set, strategy)[FRAME_LENGTH - 1] == FrameStep::Present,
        forall|position: int|
            0 <= position < FRAME_LENGTH ==> {
                let step = #[trigger] spec_frame(set, strategy)[position];
                &&& step is Update <==> position < 3
                &&& step is BeginRecording <==> position == 3
                &&& step is Scope <==> 4 <= position < FRAME_LENGTH - 4 || position == FRAME_LENGTH - 3
                &&& step is AcquireSurface <==> position == FRAME_LENGTH - 4
                &&& step is Submit <==> position == FRAME_LENGTH - 2
                &&& step is Present <==> position == FRAME_LENGTH - 1
            },
{
    let frame = spec_frame(set, strategy);
    let offscreen = spec_offscreen_scopes(set, strategy);
    assert forall|position: int| 4 <= position < FRAME_LENGTH - 4 implies #[trigger] frame[position]
        == offscreen[position - 4] by {}
}

/// The combine scope holds one draw of the additive pass, or one draw of each
/// copy pass in stage order, as the strategy says. Every other scope holds one
/// draw of the pass it is named after. Every draw names a pass that exists.
pub proof fn lemma_draws_per_scope(strategy: CombineStrategy, kind: ScopeKind)
    requires
        kind.spec_is_valid(),
    ensures
        kind == ScopeKind::Combine && strategy == CombineStrategy::Additive ==> {
            spec_draws(strategy, kind) == seq![PassId::Add]
        },
        kind == ScopeKind::Combine && strategy == CombineStrategy::CopyAccumulate ==> {
            &&& spec_draws(strategy, kind).len() == BLUR_STAGES
            &&& forall|stage: int|
                0 <= stage < BLUR_STAGES ==> #[trigger] spec_draws(strategy, kind)[stage] == PassId::Copy(
                    stage as usize,
                )
        },
        kind != ScopeKind::Combine ==> spec_draws(strategy, kind).len() == 1,
        forall|draw: int|
            0 <= draw < spec_draws(strategy, kind).len() ==> (#[trigger] spec_draws(
                strategy,
                kind,
            )[draw]).spec_is_valid(),
{
}

/// In every scope of a frame the colour attachment is cleared to transparent
/// and kept. Only the scene scope has a depth attachment; it is the depth
/// target, cleared to the far plane and discarded.
pub proof fn lemma_attachment_ops(set: TargetSet, strategy: CombineStrategy, position: int)
    requires
        0 <= position < FRAME_LENGTH,
        spec_frame(set, strategy)[position] is Scope,
    ensures
        ({
            let scope = spec_frame(set, strategy)[position]->Scope_0;
            &&& scope.color.ops == (ColorOps { load: ColorLoad::ClearTransparent, store: true })
            &&& scope.depth is Some <==> scope.kind == ScopeKind::Scene
            &&& scope.depth matches Some(depth) ==> {
                &&& depth.target == set.handle(TargetSlot::Depth)
                &&& depth.ops == (DepthOps { load: DepthLoad::ClearFar, store: false })
            }
        }),
{
    lemma_every_scope_once(set, strategy);
    let scope = spec_frame(set, strategy)[position]->Scope_0;
    assert(spec_frame(set, strategy)[spec_scope_position(scope.kind)] == FrameStep::Scope(
        spec_scope(set, strategy, scope.kind),
    ));
}

/// The cascade is feed-forward: the first stage samples the bright-pass
/// target, every later stage samples what the scope of the stage before it
/// writes, and no stage samples what its own scope writes.
pub proof fn lemma_cascade_feeds_forward(set: TargetSet, strategy: CombineStrategy, stage: usize)
    requires
        stage < BLUR_STAGES,
    ensures
        ({
            let inputs = spec_pass(set, PassId::Blur(stage)).inputs;
            let own = spec_scope(set, strategy, ScopeKind::Blur(stage));
            let previous = spec_scope(set, strategy, ScopeKind::Blur((stage - 1) as usize));
            &&& inputs is Single
            &&& stage == 0 ==> inputs->Single_0 == set.target(TargetSlot::BrightPass).handle
            &&& stage > 0 ==> OutputTarget::Target(inputs->Single_0) == previous.color.target
            &&& OutputTarget::Target(inputs->Single_0) != own.color.target
        }),
{
}

/// Whatever a pass samples while it draws into a scope is a target of the
/// set, was written by a scope that stands earlier in the same frame, and is
/// not what its own scope writes: within a scope a target is read or written,
/// never both.
pub proof fn lemma_reads_follow_writes(
    set: TargetSet,
    strategy: CombineStrategy,
    kind: ScopeKind,
    draw: int,
    handle: TargetHandle,
)
    requires
        kind.spec_is_valid(),
        0 <= draw < spec_draws(strategy, kind).len(),
        spec_inputs(set, spec_draws(strategy, kind)[draw]).spec_reads(handle),
    ensures
        set.issues(handle),
        spec_producer(handle.slot).spec_is_valid(),
        spec_output(set, spec_producer(handle.slot)) == OutputTarget::Target(handle),
        spec_scope_position(spec_producer(handle.slot)) < spec_scope_position(kind),
        spec_output(set, kind) != OutputTarget::Target(handle),
{
}

/// Every image a frame writes is a target of the set it renders into; only
/// compose writes elsewhere, into the surface image.
pub proof fn lemma_outputs_are_issued(set: TargetSet, kind: ScopeKind)
    requires
        kind.spec_is_valid(),
    ensures
        kind == ScopeKind::Compose <==> spec_output(set, kind) == OutputTarget::Surface,
        spec_output(set, kind) matches OutputTarget::Target(handle) ==> set.issues(handle),
{
}

/// No two scopes of a frame write the same image.
pub proof fn lemma_each_output_written_once(set: TargetSet, a: ScopeKind, b: ScopeKind)
    requires
        a.spec_is_valid(),
        b.spec_is_valid(),
        spec_output(set, a) == spec_output(set, b),
    ensures
        a == b,
{
}

/// A pass draws only into attachments of the formats it was built for: its
/// colour format is that of the image its scope writes, and it has a depth
/// format exactly when the scope has a depth attachment, that of the depth
/// target.
pub proof fn lemma_formats_agree(set: TargetSet, strategy: CombineStrategy, kind: ScopeKind, draw: int)
    requires
        kind.spec_is_valid(),
        0 <= draw < spec_draws(strategy, kind).len(),
    ensures
        ({
            let pass = spec_pass(set, spec_draws(strategy, kind)[draw]);
            let scope = spec_scope(set, strategy, kind);
            &&& pass.color_format == spec_output_format(set, kind)
            &&& pass.depth_format is Some <==> scope.depth is Some
            &&& scope.depth matches Some(depth) ==> pass.depth_format == Some(
                set.descriptor(depth.target.slot).format,
            )
        }),
{
}

/// Inside the bloom chain a pass reads and writes images that are allocated
/// alike: every cascade stage, every copy and the additive combine sample
/// images of the resolution and format they write.
pub proof fn lemma_bloom_chain_keeps_its_extent(
    set: TargetSet,
    strategy: CombineStrategy,
    kind: ScopeKind,
    draw: int,
    handle: TargetHandle,
)
    requires
        kind.spec_is_valid(),
        kind is Blur || kind == ScopeKind::Combine,
        0 <= draw < spec_draws(strategy, kind).len(),
        spec_inputs(set, spec_draws(strategy, kind)[draw]).spec_reads(handle),
    ensures
        spec_output(set, kind) is Target,
        set.descriptor(spec_output(set, kind)->Target_0.slot) == set.descriptor(handle.slot),
{
}

} // verus!
