use vstd::prelude::*;

verus! {

/// The entry point of the vertex stage.
pub const ENTRY_VERT: &'static str = "vert";

/// The entry point of the fragment stage.
pub const ENTRY_FRAG: &'static str = "frag";

/// What may be bound at a binding of a bind group.
#[derive(Clone, Copy, Debug, PartialEq, Eq, Structural)]
pub enum BindingType {
    /// A two-dimensional texture of filterable numbers, not multisampled.
    Texture2D,
    /// A sampler that filters.
    FilteringSampler,
}

/// One binding of a bind group as the shader declares it; every binding is
/// visible to the vertex and the fragment stage.
#[derive(Clone, Copy, Debug, PartialEq, Eq, Structural)]
pub struct LayoutEntry {
    pub binding: u32,
    pub ty: BindingType,
}

/// The resources of bind group 0, each named by the handle under which the
/// driver keeps it.
#[derive(Clone, Copy, Debug, PartialEq, Eq, Structural)]
pub struct BindGroupLayout0 {
    pub color_texture: u64,
    pub color_sampler: u64,
}

/// Bind group 0 with its resources bound.
#[derive(Clone, Copy, Debug, PartialEq, Eq, Structural)]
pub struct BindGroup0(pub BindGroupLayout0);

/// All bind groups of the shader.
#[derive(Clone, Copy, Debug)]
pub struct BindGroups<'a> {
    pub bind_group0: &'a BindGroup0,
}

/// What a shader module is made of: its text in the shading language, and
/// a label, if it has one.
#[derive(Clone, Copy, Debug)]
pub struct ShaderModuleDescriptor<'a> {
    pub label: Option<&'a str>,
    pub source: &'a str,
}

/// The vertex stage: its entry point and the number of vertex buffers it reads.
#[derive(Clone, Copy, Debug)]
pub struct VertexEntry<const N: usize> {
    pub entry_point: &'static str,
}

/// The vertex stage as a pipeline takes it.
#[derive(Clone, Copy, Debug)]
pub struct VertexState {
    pub entry_point: &'static str,
    pub buffers: usize,
}

/// How the vertices of a draw form triangles.
#[derive(Clone, Copy, Debug, PartialEq, Eq, Structural)]
pub enum Topology {
    TriangleStrip,
}

/// One step of a render pass.
#[derive(Clone, Copy, Debug, PartialEq, Eq, Structural)]
pub enum Command {
    /// Use the pipeline of the pass.
    SetPipeline,
    /// Bind the resources of a group at an index.
    SetBindGroup { index: u32, group: BindGroup0 },
    /// Draw the vertices `first_vertex` up to `end_vertex` for the
    /// instances `first_instance` up to `end_instance`.
    Draw { first_vertex: u32, end_vertex: u32, first_instance: u32, end_instance: u32 },
}

/// The steps recorded for a render pass, in order. The driver replays them
/// on the graphics device.
pub struct RenderPass {
    pub commands: Vec<Command>,
}

/// The pass that copies the rendered picture onto the screen with one
/// triangle strip.
#[derive(Clone, Copy, Debug)]
pub struct Fullscreen {
    pub vertex: VertexState,
    pub fragment_entry: &'static str,
    pub topology: Topology,
    pub bind_groups: usize,
}

impl View for RenderPass {
    type V = Seq<Command>;

    open spec fn view(&self) -> Seq<Command> {
        self.commands@
    }
}

/// The bindings of group 0: the texture at 0, the sampler at 1.
pub open spec fn layout0() -> Seq<LayoutEntry> {
    seq![
        LayoutEntry { binding: 0, ty: BindingType::Texture2D },
        LayoutEntry { binding: 1, ty: BindingType::FilteringSampler },
    ]
}

/// The steps that draw the picture `source` over the whole target.
pub open spec fn fullscreen_steps(group: BindGroup0) -> Seq<Command> {
    seq![
        Command::SetPipeline,
        Command::SetBindGroup { index: 0, group },
        Command::Draw { first_vertex: 0, end_vertex: 3, first_instance: 0, end_instance: 1 },
    ]
}

impl RenderPass {
    /// A pass with nothing recorded.
    pub fn new() -> (r: RenderPass)
        ensures
            r@ == Seq::<Command>::empty(),
    {
        RenderPass { commands: Vec::new() }
    }

    /// Records one more step.
    pub fn record(&mut self, command: Command)
        ensures
            final(self)@ == old(self)@.push(command),
    {
        self.commands.push(command);
    }
}

impl BindGroup0 {
    /// The bindings that the shader declares for group 0.
    pub fn get_bind_group_layout() -> (r: Vec<LayoutEntry>)
        ensures
            r@ == layout0(),
    {
        let mut r: Vec<LayoutEntry> = Vec::new();
        r.push(LayoutEntry { binding: 0, ty: BindingType::Texture2D });
        r.push(LayoutEntry { binding: 1, ty: BindingType::FilteringSampler });
        proof {
            assert(r@ =~= layout0());
        }
        r
    }

    /// Group 0 with the given resources bound.
    pub fn from_bindings(bindings: BindGroupLayout0) -> (r: Self)
        ensures
            r == BindGroup0(bindings),
    {
        BindGroup0(bindings)
    }

    /// Binds the group at index 0 in a pass.
    pub fn set(&self, render_pass: &mut RenderPass)
        ensures
            final(render_pass)@ == old(render_pass)@.push(
                Command::SetBindGroup { index: 0, group: *self },
            ),
    {
        render_pass.record(Command::SetBindGroup { index: 0, group: *self });
    }
}

impl<'a> BindGroups<'a> {
    /// Binds every group in a pass.
    pub fn set(&self, pass: &mut RenderPass)
        ensures
            final(pass)@ == old(pass)@.push(
                Command::SetBindGroup { index: 0, group: *self.bind_group0 },
            ),
    {
        self.bind_group0.set(pass);
    }
}

/// Binds every group of the shader in a pass.
pub fn set_bind_groups(pass: &mut RenderPass, bind_group0: &BindGroup0)
    ensures
        final(pass)@ == old(pass)@.push(Command::SetBindGroup { index: 0, group: *bind_group0 }),
{
    bind_group0.set(pass);
}

/// The vertex stage for a pipeline.
pub fn vertex_state<const N: usize>(entry: &VertexEntry<N>) -> (r: VertexState)
    ensures
        r.entry_point == entry.entry_point,
        r.buffers == N,
{
    VertexState { entry_point: entry.entry_point, buffers: N }
}

/// The vertex stage of the shader: it reads no vertex buffer.
pub fn vert_entry() -> (r: VertexEntry<0>)
    ensures
        r.entry_point == ENTRY_VERT,
{
    VertexEntry { entry_point: ENTRY_VERT }
}

/// The module of the shader whose text is `source`: the text as it
/// stands, without a label.
pub fn create_shader_module<'a>(source: &'a str) -> (r: ShaderModuleDescriptor<'a>)
    ensures
        r.source == source,
        r.label is None,
{
    ShaderModuleDescriptor { label: None, source }
}

/// The bind group layouts of the pipeline, one list of bindings per group.
pub fn create_pipeline_layout() -> (r: Vec<Vec<LayoutEntry>>)
    ensures
        r@.len() == 1,
        r@[0]@ == layout0(),
{
    let mut r: Vec<Vec<LayoutEntry>> = Vec::new();
    r.push(BindGroup0::get_bind_group_layout());
    r
}

impl Fullscreen {
    /// The pass: vertex and fragment stage of the shader, one bind group,
    /// and a triangle strip.
    pub fn new() -> (r: Fullscreen)
        ensures
            r.vertex.entry_point == ENTRY_VERT,
            r.vertex.buffers == 0,
            r.fragment_entry == ENTRY_FRAG,
            r.topology == Topology::TriangleStrip,
            r.bind_groups == 1,
    {
        let layout = create_pipeline_layout();
        let entry = vert_entry();
        let vertex = vertex_state(&entry);
        Fullscreen {
            vertex,
            fragment_entry: ENTRY_FRAG,
            topology: Topology::TriangleStrip,
            bind_groups: layout.len(),
        }
    }

    /// Records the steps that draw the picture behind `source`, read
    /// through `sampler`, over the whole target: three vertices, once.
    pub fn draw(&self, pass: &mut RenderPass, source: u64, sampler: u64)
        ensures
            final(pass)@ == old(pass)@ + fullscreen_steps(
                BindGroup0(BindGroupLayout0 { color_texture: source, color_sampler: sampler }),
            ),
    {
        let binding = BindGroup0::from_bindings(
            BindGroupLayout0 { color_texture: source, color_sampler: sampler },
        );
        pass.record(Command::SetPipeline);
        set_bind_groups(pass, &binding);
        pass.record(
            Command::Draw { first_vertex: 0, end_vertex: 3, first_instance: 0, end_instance: 1 },
        );
        proof {
            assert(pass@ =~= old(pass)@ + fullscreen_steps(binding));
        }
    }
}

} // verus!
