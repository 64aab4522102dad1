//! The orchestrator: it owns the target set and the passes, replaces both on
//! a resize, and lays out each frame.

use crate::frame::{
    spec_combine_draws, spec_frame, spec_scope, FrameCommand, FrameStep, OutputTarget, Scope,
    ScopeKind,
};
use crate::passes::{
    lemma_construction_order_complete, spec_blur_passes, spec_construction_order,
    spec_copy_passes, spec_inputs, spec_pass, CombineStrategy, PassDescriptor, PassId, PassInputs,
    Passes, PASS_COUNT,
};
use crate::targets::{
    lemma_allocation_order_complete, PixelFormat, RenderTarget, RenderTargets, Size, TargetHandle,
    TargetSet, TargetSlot, TextureUsage, BLUR_STAGES, TARGET_COUNT,
};
use vstd::prelude::*;

verus! {

/// What was found while a graphics context was negotiated for the window.
#[derive(Clone, Copy, Debug, PartialEq, Eq, Structural)]
pub struct Negotiation {
    /// An adapter compatible with the window's surface was found.
    pub adapter_found: bool,
    /// The surface names a presentation format for that adapter.
    pub format_found: bool,
    /// The adapter handed out a device and its queue.
    pub device_granted: bool,
}

/// Why no renderer could be made. Each is fatal: there is no degraded mode.
#[derive(Clone, Copy, Debug, PartialEq, Eq, Structural)]
pub enum InitError {
    NoAdapter,
    NoSurfaceFormat,
    NoDevice,
}

impl InitError {
    /// The words the failure is reported with. A refused device has none of
    /// its own: the adapter's answer is passed on as it is.
    pub open spec fn spec_context(self) -> Option<Seq<char>> {
        match self {
            InitError::NoAdapter => Some("No adapter found"@),
            InitError::NoSurfaceFormat => Some("No preferred format found"@),
            InitError::NoDevice => None,
        }
    }

    /// The words the failure is reported with, if it has words of its own.
    pub fn context(self) -> (r: Option<&'static str>)
        ensures
            r is Some == self.spec_context() is Some,
            r matches Some(words) ==> Some(words@) == self.spec_context(),
    {
        match self {
            InitError::NoAdapter => Some("No adapter found"),
            InitError::NoSurfaceFormat => Some("No preferred format found"),
            InitError::NoDevice => None,
        }
    }
}

impl Negotiation {
    /// The first thing that was missing, in the order in which a context is
    /// negotiated: adapter, presentation format, device.
    pub open spec fn spec_failure(self) -> Option<InitError> {
        if !self.adapter_found {
            Some(InitError::NoAdapter)
        } else if !self.format_found {
            Some(InitError::NoSurfaceFormat)
        } else if !self.device_granted {
            Some(InitError::NoDevice)
        } else {
            None
        }
    }

    /// The first thing that was missing, if anything was.
    #[verifier::when_used_as_spec(spec_failure)]
    pub fn failure(self) -> (r: Option<InitError>)
        ensures
            r == self.spec_failure(),
    {
        if !self.adapter_found {
            Some(InitError::NoAdapter)
        } else if !self.format_found {
            Some(InitError::NoSurfaceFormat)
        } else if !self.device_granted {
            Some(InitError::NoDevice)
        } else {
            None
        }
    }
}

/// When the presentation surface shows a new image.
#[derive(Clone, Copy, Debug, PartialEq, Eq, Structural)]
pub enum PresentMode {
    Immediate,
    Mailbox,
    /// In step with the display: frames queue up and the caller is held back.
    Fifo,
}

/// How the presentation surface is set up for an output size.
#[derive(Clone, Copy, Debug, PartialEq, Eq, Structural)]
pub struct SurfaceConfiguration {
    pub usage: TextureUsage,
    pub format: PixelFormat,
    pub width: u32,
    pub height: u32,
    pub present_mode: PresentMode,
}

impl SurfaceConfiguration {
    /// The surface is only ever rendered into, in its negotiated format, at
    /// the output size, in step with the display.
    pub open spec fn spec_for_size(size: Size) -> SurfaceConfiguration {
        SurfaceConfiguration {
            usage: TextureUsage { texture_binding: false, render_attachment: true },
            format: PixelFormat::Presentation,
            width: size.width,
            height: size.height,
            present_mode: PresentMode::Fifo,
        }
    }

    /// How the surface is set up for an output of `size`.
    #[verifier::when_used_as_spec(spec_for_size)]
    pub fn for_size(size: Size) -> (r: SurfaceConfiguration)
        ensures
            r == Self::spec_for_size(size),
    {
        SurfaceConfiguration {
            usage: TextureUsage { texture_binding: false, render_attachment: true },
            format: PixelFormat::Presentation,
            width: size.width,
            height: size.height,
            present_mode: PresentMode::Fifo,
        }
    }
}

/// One request made to the graphics device while resources are set up.
#[derive(Clone, Copy, Debug, PartialEq, Eq, Structural)]
pub enum SetupCommand {
    ConfigureSurface(SurfaceConfiguration),
    CreateTarget(RenderTarget),
    BuildPass(PassDescriptor),
}

/// The generation that follows `generation`. It differs from `generation`
/// for every value, also where the counter starts over.
pub open spec fn spec_next_generation(generation: u64) -> u64 {
    if generation == u64::MAX {
        0
    } else {
        (generation + 1) as u64
    }
}

/// The mathematical content of a [`Renderer`].
pub struct RendererView {
    pub size: Size,
    pub generation: u64,
    pub strategy: CombineStrategy,
}

impl RendererView {
    /// The set of targets the renderer owns.
    pub open spec fn targets(self) -> TargetSet {
        TargetSet { size: self.size, generation: self.generation }
    }

    /// What a renderer holds once it is made for an output size.
    pub open spec fn initial(size: Size) -> RendererView {
        RendererView { size, generation: 0, strategy: CombineStrategy::CopyAccumulate }
    }

    /// What a renderer holds after a resize.
    pub open spec fn resized(self, size: Size) -> RendererView {
        RendererView {
            size,
            generation: spec_next_generation(self.generation),
            strategy: self.strategy,
        }
    }

    /// The requests that allocate every target, in allocation order.
    pub open spec fn target_requests(self) -> Seq<SetupCommand> {
        self.targets().allocation_order().map_values(
            |target: RenderTarget| SetupCommand::CreateTarget(target),
        )
    }

    /// The requests that build every pass, in construction order.
    pub open spec fn pass_requests(self) -> Seq<SetupCommand> {
        spec_construction_order(self.targets()).map_values(
            |pass: PassDescriptor| SetupCommand::BuildPass(pass),
        )
    }

    /// Everything a fresh renderer needs: the surface set up, every target
    /// allocated, every pass built.
    pub open spec fn setup(self) -> Seq<SetupCommand> {
        seq![SetupCommand::ConfigureSurface(SurfaceConfiguration::spec_for_size(self.size))]
            + self.target_requests() + self.pass_requests()
    }

    /// Everything that is replaced by a resize: the surface set up anew, every
    /// target allocated anew, and every pass but the scene pass built anew.
    /// The scene pass holds no handle to a target and stays as it is.
    pub open spec fn rebuild(self) -> Seq<SetupCommand> {
        seq![SetupCommand::ConfigureSurface(SurfaceConfiguration::spec_for_size(self.size))]
            + self.target_requests() + self.pass_requests().skip(1)
    }

    /// The frame this renderer lays out.
    pub open spec fn frame(self) -> Seq<FrameStep> {
        spec_frame(self.targets(), self.strategy)
    }
}

/// Owns the target set and the passes wired to it.
///
/// There is no renderer before [`Renderer::new`] succeeds and none after the
/// value is dropped. In between it is ready to lay out a frame at any time,
/// also right after a resize: targets and passes are replaced together, so a
/// frame never names a target of a set that is gone.
#[derive(Debug)]
pub struct Renderer {
    strategy: CombineStrategy,
    render_targets: RenderTargets,
    passes: Passes,
}

impl View for Renderer {
    type V = RendererView;

    closed spec fn view(&self) -> RendererView {
        RendererView {
            size: self.render_targets@.size,
            generation: self.render_targets@.generation,
            strategy: self.strategy,
        }
    }
}

impl Renderer {
    /// Every pass is wired to the set that the renderer owns now.
    #[verifier::type_invariant]
    spec fn well_formed(self) -> bool {
        self.passes@ == self.render_targets@
    }

    /// Makes the renderer for a window of `size`, given what the negotiation
    /// of its graphics context found. It fails exactly when something was
    /// missing, with the first thing that was.
    pub fn new(negotiation: Negotiation, size: Size) -> (r: Result<Renderer, InitError>)
        ensures
            match negotiation.spec_failure() {
                Some(error) => r == Err::<Renderer, InitError>(error),
                None => r matches Ok(renderer) && renderer@ == RendererView::initial(size),
            },
    {
        match negotiation.failure() {
            Some(error) => Err(error),
            None => {
                let render_targets = RenderTargets::new(size.width, size.height, 0);
                let passes = Passes::wire(&render_targets);
                Ok(Renderer { strategy: CombineStrategy::CopyAccumulate, render_targets, passes })
            },
        }
    }

    /// The output size the targets are sized from.
    pub fn size(&self) -> (r: Size)
        ensures
            r == self@.size,
    {
        self.render_targets.size()
    }

    /// The generation of the target set in use; it changes with every resize.
    pub fn generation(&self) -> (r: u64)
        ensures
            r == self@.generation,
    {
        self.render_targets.generation()
    }

    /// How the cascade is merged into the bloom image.
    pub fn combine_strategy(&self) -> (r: CombineStrategy)
        ensures
            r == self@.strategy,
    {
        self.strategy
    }

    /// Chooses how the cascade is merged from the next frame on. Targets and
    /// passes stay: both strategies are built at all times.
    pub fn set_combine_strategy(&mut self, strategy: CombineStrategy)
        ensures
            final(self)@ == (RendererView { strategy, ..old(self)@ }),
    {
        proof {
            use_type_invariant(&*self);
        }
        self.strategy = strategy;
    }

    /// The target set in use.
    pub fn render_targets(&self) -> (r: &RenderTargets)
        ensures
            r@ == self@.targets(),
    {
        &self.render_targets
    }

    /// The passes, wired to the target set in use.
    pub fn passes(&self) -> (r: &Passes)
        ensures
            r@ == self@.targets(),
    {
        proof {
            use_type_invariant(self);
        }
        &self.passes
    }

    /// How the surface is set up for the current output size.
    pub fn surface_configuration(&self) -> (r: SurfaceConfiguration)
        ensures
            r == SurfaceConfiguration::spec_for_size(self@.size),
    {
        SurfaceConfiguration::for_size(self.render_targets.size())
    }

    /// Appends the requests that set up the surface and allocate every target.
    fn request_surface_and_targets(&self, commands: &mut Vec<SetupCommand>)
        requires
            old(commands)@.len() == 0,
        ensures
            final(commands)@ == seq![
                SetupCommand::ConfigureSurface(SurfaceConfiguration::spec_for_size(self@.size)),
            ] + self@.target_requests(),
    {
        commands.push(SetupCommand::ConfigureSurface(self.surface_configuration()));
        let order = self.render_targets.allocation_order();
        let mut position: usize = 0;
        while position < order.len()
            invariant
                position <= order@.len(),
                order@ == self@.targets().allocation_order(),
                commands@.len() == 1 + position,
                commands@[0] == SetupCommand::ConfigureSurface(
                    SurfaceConfiguration::spec_for_size(self@.size),
                ),
                forall|k: int|
                    0 <= k < position ==> commands@[1 + k] == SetupCommand::CreateTarget(order@[k]),
            decreases order@.len() - position,
        {
            commands.push(SetupCommand::CreateTarget(order[position]));
            position = position + 1;
        }
        assert(commands@ =~= seq![
            SetupCommand::ConfigureSurface(SurfaceConfiguration::spec_for_size(self@.size)),
        ] + self@.target_requests());
    }

    /// Appends the requests that build the passes from position `first` of the
    /// construction order on.
    fn request_passes(&self, first: usize, commands: &mut Vec<SetupCommand>)
        requires
            first <= PASS_COUNT,
        ensures
            final(commands)@ == old(commands)@ + self@.pass_requests().skip(first as int),
    {
        let order = self.passes().construction_order();
        let ghost before = commands@;
        let mut position: usize = first;
        while position < order.len()
            invariant
                first <= position <= order@.len(),
                order@ == spec_construction_order(self@.targets()),
                commands@.len() == before.len() + position - first,
                forall|k: int| 0 <= k < before.len() ==> commands@[k] == before[k],
                forall|k: int|
                    first <= k < position ==> commands@[before.len() + k - first]
                        == SetupCommand::BuildPass(order@[k]),
            decreases order@.len() - position,
        {
            commands.push(SetupCommand::BuildPass(order[position]));
            position = position + 1;
        }
        assert(commands@ =~= before + self@.pass_requests().skip(first as int));
    }

    /// The requests that bring a fresh renderer's resources into being, in
    /// order: the surface, the targets, the passes.
    pub fn setup(&self) -> (commands: Vec<SetupCommand>)
        ensures
            commands@ == self@.setup(),
    {
        let mut commands: Vec<SetupCommand> = Vec::new();
        self.request_surface_and_targets(&mut commands);
        self.request_passes(0, &mut commands);
        assert(self@.pass_requests().skip(0) =~= self@.pass_requests());
        commands
    }

    /// Replaces the target set by one of a new generation sized for `size`,
    /// wires every pass to it, and returns the requests that replace the
    /// resources of the old set, in order.
    pub fn resize(&mut self, size: Size) -> (commands: Vec<SetupCommand>)
        ensures
            final(self)@ == old(self)@.resized(size),
            commands@ == final(self)@.rebuild(),
    {
        let generation: u64 = self.render_targets.generation();
        let next: u64 = if generation == u64::MAX {
            0
        } else {
            generation + 1
        };
        let render_targets = RenderTargets::new(size.width, size.height, next);
        let passes = Passes::wire(&render_targets);
        *self = Renderer { strategy: self.strategy, render_targets, passes };
        let mut commands: Vec<SetupCommand> = Vec::new();
        self.request_surface_and_targets(&mut commands);
        self.request_passes(1, &mut commands);
        commands
    }

    /// Lays out one frame: the updates of the passes that have parameters of
    /// their own, then every scope in the order of its dependencies, with the
    /// surface image acquired just before compose writes into it, then one
    /// submission and one presentation.
    pub fn render(&self) -> (frame: Vec<FrameCommand>)
        ensures
            frame.deep_view() == self@.frame(),
    {
        proof {
            use_type_invariant(self);
        }
        let ghost set = self@.targets();
        let ghost strategy = self@.strategy;
        let targets = &self.render_targets;
        let passes = &self.passes;
        let cascade = targets.bloom_blur();
        let blur_passes = passes.bloom_blur();

        let mut frame: Vec<FrameCommand> = Vec::new();
        frame.push(FrameCommand::Update(passes.scene().id));
        frame.push(FrameCommand::Update(passes.bright_pass().id));
        frame.push(FrameCommand::Update(passes.compose().id));
        frame.push(FrameCommand::BeginRecording);

        frame.push(
            FrameCommand::Scope(
                Scope::color_and_depth(
                    ScopeKind::Scene,
                    OutputTarget::Target(targets.color().handle),
                    targets.depth().handle,
                    Self::single_draw(passes.scene().id),
                ),
            ),
        );
        frame.push(
            FrameCommand::Scope(
                Scope::color_only(
                    ScopeKind::BrightPass,
                    OutputTarget::Target(targets.bright_pass().handle),
                    Self::single_draw(passes.bright_pass().id),
                ),
            ),
        );
        assert(frame@[4]@ == FrameStep::Scope(spec_scope(set, strategy, ScopeKind::spec_at(0))));
        assert(frame@[5]@ == FrameStep::Scope(spec_scope(set, strategy, ScopeKind::spec_at(1))));

        let mut stage: usize = 0;
        while stage < BLUR_STAGES
            invariant
                stage <= BLUR_STAGES,
                set == self@.targets(),
                strategy == self@.strategy,
                cascade@ == set.cascade(),
                blur_passes@ == spec_blur_passes(set),
                frame@.len() == 6 + stage,
                forall|k: int| 0 <= k < 4 ==> (#[trigger] frame@[k])@ == self@.frame()[k],
                forall|k: int| 4 <= k < 6 + stage ==> (#[trigger] frame@[k])@ == FrameStep::Scope(
                    spec_scope(set, strategy, ScopeKind::spec_at(k - 4)),
                ),
            decreases BLUR_STAGES - stage,
        {
            frame.push(
                FrameCommand::Scope(
                    Scope::color_only(
                        ScopeKind::Blur(stage),
                        OutputTarget::Target(cascade[stage].handle),
                        Self::single_draw(blur_passes[stage].id),
                    ),
                ),
            );
            stage = stage + 1;
        }

        let draws = self.combine_draws();
        frame.push(
            FrameCommand::Scope(
                Scope::color_only(ScopeKind::Combine, OutputTarget::Target(targets.bloom().handle), draws),
            ),
        );
        frame.push(FrameCommand::AcquireSurface);
        frame.push(
            FrameCommand::Scope(
                Scope::color_only(
                    ScopeKind::Compose,
                    OutputTarget::Surface,
                    Self::single_draw(passes.compose().id),
                ),
            ),
        );
        frame.push(FrameCommand::Submit);
        frame.push(FrameCommand::Present);
        assert(frame.deep_view() =~= self@.frame());
        frame
    }

    /// The draws of a scope into which one pass draws once.
    fn single_draw(pass: PassId) -> (draws: Vec<PassId>)
        ensures
            draws@ == seq![pass],
    {
        let mut draws: Vec<PassId> = Vec::new();
        draws.push(pass);
        assert(draws@ =~= seq![pass]);
        draws
    }

    /// The passes that draw into the combine scope under the strategy in
    /// force, in order.
    fn combine_draws(&self) -> (draws: Vec<PassId>)
        ensures
            draws@ == spec_combine_draws(self@.strategy),
    {
        let passes = self.passes();
        match self.strategy {
            CombineStrategy::Additive => Self::single_draw(passes.bloom_add().id),
            CombineStrategy::CopyAccumulate => {
                let copies = passes.bloom_copy();
                let mut draws: Vec<PassId> = Vec::new();
                let mut stage: usize = 0;
                while stage < copies.len()
                    invariant
                        stage <= copies@.len(),
                        copies@ == spec_copy_passes(self@.targets()),
                        draws@.len() == stage,
                        forall|i: int| 0 <= i < stage ==> draws@[i] == PassId::Copy(i as usize),
                    decreases copies@.len() - stage,
                {
                    draws.push(copies[stage].id);
                    stage = stage + 1;
                }
                assert(draws@ =~= spec_combine_draws(self@.strategy));
                draws
            },
        }
    }
}

/// After a resize every target has the new output size, or a quarter of each
/// of its extents in the bloom family, and belongs to a new generation: no
/// handle that was issued before the resize names a target afterwards.
pub proof fn lemma_resize_replaces_every_target(before: RendererView, size: Size, slot: TargetSlot)
    ensures
        ({
            let after = before.resized(size);
            let descriptor = after.targets().descriptor(slot);
            &&& slot.spec_is_bloom_family() ==> {
                &&& descriptor.width == size.width / 4
                &&& descriptor.height == size.height / 4
            }
            &&& !slot.spec_is_bloom_family() ==> {
                &&& descriptor.width == size.width
                &&& descriptor.height == size.height
            }
            &&& after.generation != before.generation
            &&& !after.targets().issues(before.targets().handle(slot))
        }),
{
}

/// A pass that was wired before a resize samples a target that is gone after
/// it, and the pass of the same name wired after it samples another: every
/// pass that holds a handle has to be built anew.
pub proof fn lemma_resize_outdates_passes(
    before: RendererView,
    size: Size,
    id: PassId,
    handle: TargetHandle,
)
    requires
        id.spec_is_valid(),
        spec_inputs(before.targets(), id).spec_reads(handle),
    ensures
        !before.resized(size).targets().issues(handle),
        !spec_inputs(before.resized(size).targets(), id).spec_reads(handle),
{
}

/// What a resize asks for leaves nothing of the old set in use: after the
/// surface is set up anew, every target is allocated, each at its place in the
/// order of allocation, and then every pass that holds a handle is built, each
/// one place before its place in the order of construction.
pub proof fn lemma_rebuild_is_complete(view: RendererView)
    ensures
        view.rebuild().len() == TARGET_COUNT + PASS_COUNT,
        view.rebuild()[0] == SetupCommand::ConfigureSurface(
            SurfaceConfiguration::spec_for_size(view.size),
        ),
        forall|slot: TargetSlot|
            slot.spec_is_valid() ==> #[trigger] view.rebuild()[1 + slot.spec_ordinal()]
                == SetupCommand::CreateTarget(view.targets().target(slot)),
        forall|id: PassId|
            id.spec_is_valid() && spec_inputs(view.targets(), id) != PassInputs::Empty
                ==> #[trigger] view.rebuild()[TARGET_COUNT + id.spec_ordinal()]
                == SetupCommand::BuildPass(spec_pass(view.targets(), id)),
{
    let set = view.targets();
    lemma_allocation_order_complete(set);
    lemma_construction_order_complete(set);
    assert forall|slot: TargetSlot| slot.spec_is_valid() implies #[trigger] view.rebuild()[1
        + slot.spec_ordinal()] == SetupCommand::CreateTarget(set.target(slot)) by {
        assert(view.rebuild()[1 + slot.spec_ordinal()] == view.target_requests()[slot.spec_ordinal()]);
    }
    assert forall|id: PassId|
        id.spec_is_valid() && spec_inputs(set, id) != PassInputs::Empty implies #[trigger] view.rebuild()[
        TARGET_COUNT + id.spec_ordinal()] == SetupCommand::BuildPass(spec_pass(set, id)) by {
        let place = id.spec_ordinal();
        assert(id != PassId::Scene);
        assert(view.rebuild()[TARGET_COUNT + place] == view.pass_requests().skip(1)[place - 1]);
    }
}

/// What a fresh renderer asks for: the surface set up, then every target at
/// its place in the order of allocation, then every pass at its place in the
/// order of construction.
pub proof fn lemma_setup_is_complete(view: RendererView)
    ensures
        view.setup().len() == 1 + TARGET_COUNT + PASS_COUNT,
        view.setup()[0] == SetupCommand::ConfigureSurface(
            SurfaceConfiguration::spec_for_size(view.size),
        ),
        forall|slot: TargetSlot|
            slot.spec_is_valid() ==> #[trigger] view.setup()[1 + slot.spec_ordinal()]
                == SetupCommand::CreateTarget(view.targets().target(slot)),
        forall|id: PassId|
            id.spec_is_valid() ==> #[trigger] view.setup()[1 + TARGET_COUNT + id.spec_ordinal()]
                == SetupCommand::BuildPass(spec_pass(view.targets(), id)),
{
    let set = view.targets();
    lemma_allocation_order_complete(set);
    lemma_construction_order_complete(set);
    assert forall|slot: TargetSlot| slot.spec_is_valid() implies #[trigger] view.setup()[1
        + slot.spec_ordinal()] == SetupCommand::CreateTarget(set.target(slot)) by {
        assert(view.setup()[1 + slot.spec_ordinal()] == view.target_requests()[slot.spec_ordinal()]);
    }
    assert forall|id: PassId| id.spec_is_valid() implies #[trigger] view.setup()[1 + TARGET_COUNT
        + id.spec_ordinal()] == SetupCommand::BuildPass(spec_pass(set, id)) by {
        assert(view.setup()[1 + TARGET_COUNT + id.spec_ordinal()] == view.pass_requests()[id.spec_ordinal()]);
    }
}

} // verus!
