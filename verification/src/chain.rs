use crate::queue_family::{QueueFamilyIndices, SharingMode};
use crate::surface::{negotiate, Capabilities, Extent, SurfaceConfiguration, SurfaceFormat};
use vstd::prelude::*;

verus! {

/// Code of the 16-bit depth format with unsigned normalised values.
pub const FORMAT_D16_UNORM: u32 = 124;

/// Number of samples for each pixel of a multisampled attachment.
pub const SAMPLE_COUNT: u32 = 8;

/// What the platform is asked for when a chain is built.
#[derive(Clone, Copy, Debug, PartialEq, Eq, Structural)]
pub struct ChainRequest {
    pub configuration: SurfaceConfiguration,
    /// Array layers of each image.
    pub layers: u32,
    pub sharing: SharingMode,
    /// Pixels that other windows cover need not be rendered.
    pub clipped: bool,
    /// Generation of the chain that the new one replaces, if there is one.
    pub retire: Option<u64>,
}

/// The attachments that a render target is made of.
#[derive(Clone, Copy, Debug, PartialEq, Eq, Structural)]
pub enum AttachmentLayout {
    /// The chain image alone, as the colour attachment.
    SingleColor,
    /// A multisampled colour attachment and a multisampled depth attachment,
    /// resolved into the chain image.
    MultisampledColorDepth { samples: u32, depth_format: u32 },
}

/// What happens to an attachment's contents when a pass begins.
#[derive(Clone, Copy, Debug, PartialEq, Eq, Structural)]
pub enum LoadOp {
    Clear,
    DontCare,
}

/// What happens to an attachment's contents when a pass ends.
#[derive(Clone, Copy, Debug, PartialEq, Eq, Structural)]
pub enum StoreOp {
    Store,
    DontCare,
}

/// One attachment of a render pass.
#[derive(Clone, Copy, Debug, PartialEq, Eq, Structural)]
pub struct AttachmentDescription {
    pub load: LoadOp,
    pub store: StoreOp,
    pub format: u32,
    pub samples: u32,
}

/// A render pass with a single subpass: its attachments and the roles they play.
#[derive(Clone, Debug)]
pub struct RenderPassDescription {
    pub attachments: Vec<AttachmentDescription>,
    /// Index of the colour attachment.
    pub color: usize,
    /// Index of the depth attachment, where the pass has one.
    pub depth_stencil: Option<usize>,
    /// Index of the attachment that the colour attachment is resolved into.
    pub resolve: Option<usize>,
}

/// What is drawn into a target.
#[derive(Clone, Copy, Debug, PartialEq, Eq, Structural)]
pub enum Geometry {
    /// The vertex buffer, taken in order.
    Vertices,
    /// The vertex buffer, addressed through the index buffer.
    Indexed,
}

/// The fixed pipeline that every command sequence draws with.
#[derive(Clone, Copy, Debug, PartialEq, Eq, Structural)]
pub struct PipelineDescription {
    pub layout: AttachmentLayout,
    pub geometry: Geometry,
    /// Each image has a descriptor set of its own, bound when it is drawn.
    pub descriptors_per_image: bool,
}

/// The presentable images of one chain generation. All of them have the
/// chain's format and extent.
#[derive(Clone, Debug)]
pub struct ImageChain {
    pub images: Vec<u64>,
    pub generation: u64,
    pub extent: Extent,
    pub format: SurfaceFormat,
}

/// The mathematical content of an image chain.
pub struct ImageChainView {
    pub images: Seq<u64>,
    pub generation: nat,
    pub extent: Extent,
    pub format: SurfaceFormat,
}

/// One render target: the chain image it ends in and the attachments around it.
#[derive(Clone, Copy, Debug, PartialEq, Eq, Structural)]
pub struct RenderTarget {
    /// Position of the image in its chain.
    pub index: usize,
    /// Handle of the chain image.
    pub image: u64,
    pub extent: Extent,
    pub format: u32,
    pub layout: AttachmentLayout,
}

/// One render target for each image of a chain, in the chain's order.
#[derive(Clone, Debug)]
pub struct RenderTargetSet {
    pub generation: u64,
    pub targets: Vec<RenderTarget>,
}

/// The recorded commands for one image: clear the target, draw, end the pass.
#[derive(Clone, Copy, Debug, PartialEq, Eq, Structural)]
pub struct CommandSequence {
    /// Position of the render target that the pass renders into.
    pub target: usize,
    pub layout: AttachmentLayout,
    pub geometry: Geometry,
    /// Position of the descriptor set that is bound for the draw, if any.
    pub descriptor_set: Option<usize>,
}

/// One step of a command sequence.
#[derive(Clone, Copy, Debug, PartialEq, Eq, Structural)]
pub enum Command {
    /// Begin the pass on a target, clearing what its layout says is cleared.
    BeginRenderPass { target: usize, layout: AttachmentLayout },
    Draw { descriptor_set: Option<usize> },
    DrawIndexed { descriptor_set: Option<usize> },
    EndRenderPass,
}

/// One command sequence for each render target, in the targets' order.
#[derive(Clone, Debug)]
pub struct CommandSequenceSet {
    pub generation: u64,
    pub sequences: Vec<CommandSequence>,
}

impl AttachmentLayout {
    /// The multisampled layout with the usual sample count and depth format.
    pub fn multisampled() -> (layout: AttachmentLayout)
        ensures
            layout == (AttachmentLayout::MultisampledColorDepth {
                samples: SAMPLE_COUNT,
                depth_format: FORMAT_D16_UNORM,
            }),
    {
        AttachmentLayout::MultisampledColorDepth {
            samples: SAMPLE_COUNT,
            depth_format: FORMAT_D16_UNORM,
        }
    }

    /// The attachments of a pass with this layout that renders in `color_format`.
    pub open spec fn attachments(self, color_format: u32) -> Seq<AttachmentDescription> {
        match self {
            AttachmentLayout::SingleColor => seq![
                AttachmentDescription {
                    load: LoadOp::Clear,
                    store: StoreOp::Store,
                    format: color_format,
                    samples: 1,
                },
            ],
            AttachmentLayout::MultisampledColorDepth { samples, depth_format } => seq![
                AttachmentDescription {
                    load: LoadOp::Clear,
                    store: StoreOp::Store,
                    format: color_format,
                    samples: samples,
                },
                AttachmentDescription {
                    load: LoadOp::Clear,
                    store: StoreOp::DontCare,
                    format: depth_format,
                    samples: samples,
                },
                AttachmentDescription {
                    load: LoadOp::DontCare,
                    store: StoreOp::Store,
                    format: color_format,
                    samples: 1,
                },
            ],
        }
    }

    /// Index of the depth attachment, where the layout has one.
    pub open spec fn depth_index(self) -> Option<usize> {
        match self {
            AttachmentLayout::SingleColor => None,
            AttachmentLayout::MultisampledColorDepth { .. } => Some(1usize),
        }
    }

    /// Index of the resolve attachment, where the layout has one.
    pub open spec fn resolve_index(self) -> Option<usize> {
        match self {
            AttachmentLayout::SingleColor => None,
            AttachmentLayout::MultisampledColorDepth { .. } => Some(2usize),
        }
    }
}

impl View for ImageChain {
    type V = ImageChainView;

    open spec fn view(&self) -> ImageChainView {
        ImageChainView {
            images: self.images@,
            generation: self.generation as nat,
            extent: self.extent,
            format: self.format,
        }
    }
}

impl ImageChainView {
    /// The render target of the image at `index`.
    pub open spec fn target(self, layout: AttachmentLayout, index: int) -> RenderTarget {
        RenderTarget {
            index: index as usize,
            image: self.images[index],
            extent: self.extent,
            format: self.format.format,
            layout: layout,
        }
    }

    /// The render targets of the chain: one for each image, in order.
    pub open spec fn targets(self, layout: AttachmentLayout) -> Seq<RenderTarget> {
        Seq::new(self.images.len(), |index: int| self.target(layout, index))
    }

    /// The command sequences of the chain: one for each image, in order.
    pub open spec fn sequences(self, pipeline: PipelineDescription) -> Seq<CommandSequence> {
        pipeline.sequences(self.images.len())
    }

    /// The chain was built with the given configuration.
    pub open spec fn matches(self, configuration: SurfaceConfiguration) -> bool {
        self.extent == configuration.extent && self.format == configuration.format
    }
}

impl PipelineDescription {
    /// The command sequence that renders into the target at `index`.
    pub open spec fn sequence(self, index: int) -> CommandSequence {
        CommandSequence {
            target: index as usize,
            layout: self.layout,
            geometry: self.geometry,
            descriptor_set: if self.descriptors_per_image {
                Some(index as usize)
            } else {
                None
            },
        }
    }
}

impl PipelineDescription {
    /// The command sequences for `count` targets, in the targets' order.
    pub open spec fn sequences(self, count: nat) -> Seq<CommandSequence> {
        Seq::new(count, |index: int| self.sequence(index))
    }
}

impl CommandSequence {
    /// The steps of the sequence, in the order in which they are recorded.
    pub open spec fn steps(self) -> Seq<Command> {
        seq![
            Command::BeginRenderPass { target: self.target, layout: self.layout },
            match self.geometry {
                Geometry::Vertices => Command::Draw { descriptor_set: self.descriptor_set },
                Geometry::Indexed => Command::DrawIndexed { descriptor_set: self.descriptor_set },
            },
            Command::EndRenderPass,
        ]
    }

    /// The steps of the sequence, in the order in which they are recorded.
    pub fn commands(&self) -> (commands: Vec<Command>)
        ensures
            commands@ == self.steps(),
    {
        let mut commands: Vec<Command> = Vec::new();
        commands.push(Command::BeginRenderPass { target: self.target, layout: self.layout });
        match self.geometry {
            Geometry::Vertices => commands.push(
                Command::Draw { descriptor_set: self.descriptor_set },
            ),
            Geometry::Indexed => commands.push(
                Command::DrawIndexed { descriptor_set: self.descriptor_set },
            ),
        }
        commands.push(Command::EndRenderPass);
        assert(commands@ =~= self.steps());
        commands
    }
}

impl ImageChain {
    /// Builds the chain of the given generation from the images that the
    /// platform created for a configuration.
    pub fn build(configuration: &SurfaceConfiguration, images: Vec<u64>, generation: u64) -> (chain:
        ImageChain)
        ensures
            chain@.images == images@,
            chain@.generation == generation,
            chain@.matches(*configuration),
    {
        ImageChain {
            images,
            generation,
            extent: configuration.extent,
            format: configuration.format,
        }
    }

    /// Number of images in the chain.
    pub fn len(&self) -> (count: usize)
        ensures
            count == self@.images.len(),
    {
        self.images.len()
    }
}

impl RenderTargetSet {
    /// Number of render targets.
    pub fn len(&self) -> (count: usize)
        ensures
            count == self.targets@.len(),
    {
        self.targets.len()
    }
}

impl CommandSequenceSet {
    /// Number of command sequences.
    pub fn len(&self) -> (count: usize)
        ensures
            count == self.sequences@.len(),
    {
        self.sequences.len()
    }
}

impl ChainRequest {
    /// What the platform is asked for: images of a single layer, shared
    /// between the graphics and the present family where these differ,
    /// clipped, and replacing the chain of generation `previous` where
    /// there is one.
    pub open spec fn of(
        configuration: SurfaceConfiguration,
        indices: QueueFamilyIndices,
        previous: Option<u64>,
    ) -> ChainRequest {
        ChainRequest {
            configuration: configuration,
            layers: 1,
            sharing: indices.sharing(),
            clipped: true,
            retire: previous,
        }
    }

    /// Puts together what the platform is asked for when a chain of the
    /// given configuration is built.
    pub fn new(
        configuration: SurfaceConfiguration,
        indices: &QueueFamilyIndices,
        previous: Option<u64>,
    ) -> (request: ChainRequest)
        ensures
            request == ChainRequest::of(configuration, *indices, previous),
    {
        ChainRequest {
            configuration,
            layers: 1,
            sharing: indices.sharing_mode(),
            clipped: true,
            retire: previous,
        }
    }
}

/// Negotiates the configuration of a chain and puts together what the
/// platform is asked for when the chain is built.
pub fn create_swap_chain(
    capabilities: &Capabilities,
    drawable: Extent,
    indices: &QueueFamilyIndices,
    previous: Option<u64>,
) -> (request: ChainRequest)
    requires
        capabilities.usable(),
    ensures
        request == ChainRequest::of(capabilities.negotiated(drawable), *indices, previous),
{
    ChainRequest::new(negotiate(capabilities, drawable), indices, previous)
}

/// Describes the render pass for a layout and the chain's colour format.
pub fn create_render_pass(layout: AttachmentLayout, color_format: u32) -> (pass:
    RenderPassDescription)
    ensures
        pass.attachments@ == layout.attachments(color_format),
        pass.color == 0,
        pass.depth_stencil == layout.depth_index(),
        pass.resolve == layout.resolve_index(),
{
    let mut attachments: Vec<AttachmentDescription> = Vec::new();
    match layout {
        AttachmentLayout::SingleColor => {
            attachments.push(
                AttachmentDescription {
                    load: LoadOp::Clear,
                    store: StoreOp::Store,
                    format: color_format,
                    samples: 1,
                },
            );
            assert(attachments@ =~= layout.attachments(color_format));
            RenderPassDescription { attachments, color: 0, depth_stencil: None, resolve: None }
        },
        AttachmentLayout::MultisampledColorDepth { samples, depth_format } => {
            attachments.push(
                AttachmentDescription {
                    load: LoadOp::Clear,
                    store: StoreOp::Store,
                    format: color_format,
                    samples,
                },
            );
            attachments.push(
                AttachmentDescription {
                    load: LoadOp::Clear,
                    store: StoreOp::DontCare,
                    format: depth_format,
                    samples,
                },
            );
            attachments.push(
                AttachmentDescription {
                    load: LoadOp::DontCare,
                    store: StoreOp::Store,
                    format: color_format,
                    samples: 1,
                },
            );
            assert(attachments@ =~= layout.attachments(color_format));
            RenderPassDescription {
                attachments,
                color: 0,
                depth_stencil: Some(1),
                resolve: Some(2),
            }
        },
    }
}

/// Builds one render target for each image of the chain, in the chain's
/// order and under the chain's generation.
pub fn create_framebuffers(chain: &ImageChain, layout: AttachmentLayout) -> (set: RenderTargetSet)
    ensures
        set.generation == chain.generation,
        set.targets@ == chain@.targets(layout),
        set.targets@.len() == chain@.images.len(),
{
    let mut targets: Vec<RenderTarget> = Vec::new();
    let mut i: usize = 0;
    while i < chain.images.len()
        invariant
            i <= chain.images@.len(),
            targets@.len() == i,
            forall|j: int| 0 <= j < i ==> targets@[j] == chain@.target(layout, j),
        decreases chain.images@.len() - i,
    {
        targets.push(
            RenderTarget {
                index: i,
                image: chain.images[i],
                extent: chain.extent,
                format: chain.format.format,
                layout,
            },
        );
        i += 1;
    }
    assert(targets@ =~= chain@.targets(layout));
    RenderTargetSet { generation: chain.generation, targets }
}

/// Records one command sequence for each render target, in the targets'
/// order and under the targets' generation.
pub fn create_command_buffers(targets: &RenderTargetSet, pipeline: &PipelineDescription) -> (set:
    CommandSequenceSet)
    ensures
        set.generation == targets.generation,
        set.sequences@ == pipeline.sequences(targets.targets@.len()),
        set.sequences@.len() == targets.targets@.len(),
{
    let mut sequences: Vec<CommandSequence> = Vec::new();
    let mut i: usize = 0;
    while i < targets.targets.len()
        invariant
            i <= targets.targets@.len(),
            sequences@.len() == i,
            forall|j: int| 0 <= j < i ==> #[trigger] sequences@[j] == pipeline.sequence(j),
        decreases targets.targets@.len() - i,
    {
        sequences.push(
            CommandSequence {
                target: i,
                layout: pipeline.layout,
                geometry: pipeline.geometry,
                descriptor_set: if pipeline.descriptors_per_image {
                    Some(i)
                } else {
                    None
                },
            },
        );
        i += 1;
    }
    assert(sequences@ =~= pipeline.sequences(targets.targets@.len()));
    CommandSequenceSet { generation: targets.generation, sequences }
}

} // verus!
