//! The mask node: plans the commands of one mask pass for one view.
//!
//! The node holds the render phases of the current frame, keyed by view. The
//! caller refreshes them with `update`, asks `run` for the commands of a view,
//! and performs those commands in order on the GPU.

use std::collections::HashMap;
use vstd::prelude::*;

verus! {

broadcast use vstd::std_specs::hash::group_hash_axioms;

/// Handle of a texture view owned by the renderer.
#[derive(Clone, Copy, Debug, PartialEq, Eq, Hash)]
pub struct TextureViewId(pub u64);

/// The two externally owned mask targets.
#[derive(Clone, Copy, Debug, PartialEq, Eq, Hash)]
pub struct MaskTextures {
    /// The multisampled target that the pass draws into.
    pub multisample_target: TextureViewId,
    /// The single-sample target that the pass resolves into.
    pub resolved_target: TextureViewId,
}

/// One draw unit of a phase, prepared upstream: the entity of the mesh and the
/// handle of the pipeline that was specialized for it.
#[derive(Clone, Copy, Debug, PartialEq, Eq, Hash)]
pub struct DrawItem {
    pub entity: u64,
    pub pipeline: u64,
}

/// The draw items of one view, in the order they are to be drawn.
#[derive(Clone, Debug, PartialEq, Eq, Hash)]
pub struct RenderPhase {
    pub items: Vec<DrawItem>,
}

/// What a graph slot carries.
#[derive(Clone, Copy, Debug, PartialEq, Eq, Hash)]
pub enum SlotType {
    Buffer,
    TextureView,
    Sampler,
    Entity,
}

/// Declaration of one graph slot.
#[derive(Clone, Debug, PartialEq, Eq, Hash)]
pub struct SlotInfo {
    pub name: String,
    pub slot_type: SlotType,
}

/// Mathematical value of a [`SlotInfo`].
pub struct SlotInfoView {
    pub name: Seq<char>,
    pub slot_type: SlotType,
}

impl View for SlotInfo {
    type V = SlotInfoView;

    open spec fn view(&self) -> SlotInfoView {
        SlotInfoView { name: self.name@, slot_type: self.slot_type }
    }
}

/// A color with 8 bits per channel.
#[derive(Clone, Copy, Debug, PartialEq, Eq, Hash)]
pub struct ClearColor {
    pub red: u8,
    pub green: u8,
    pub blue: u8,
    pub alpha: u8,
}

/// What happens to an attachment when a pass begins.
#[derive(Clone, Copy, Debug, PartialEq, Eq, Hash)]
pub enum LoadOp {
    Clear(ClearColor),
    Load,
}

/// One color attachment of a render pass.
#[derive(Clone, Copy, Debug, PartialEq, Eq, Hash)]
pub struct ColorAttachment {
    pub view: TextureViewId,
    pub resolve_target: Option<TextureViewId>,
    pub load: LoadOp,
    pub store: bool,
}

/// Description of a render pass.
#[derive(Clone, Debug, PartialEq, Eq, Hash)]
pub struct PassDescriptor {
    pub label: String,
    pub color_attachment: ColorAttachment,
    pub depth_stencil_attachment: Option<TextureViewId>,
}

/// Mathematical value of a [`PassDescriptor`].
pub struct PassDescriptorView {
    pub label: Seq<char>,
    pub color_attachment: ColorAttachment,
    pub depth_stencil_attachment: Option<TextureViewId>,
}

impl View for PassDescriptor {
    type V = PassDescriptorView;

    open spec fn view(&self) -> PassDescriptorView {
        PassDescriptorView {
            label: self.label@,
            color_attachment: self.color_attachment,
            depth_stencil_attachment: self.depth_stencil_attachment,
        }
    }
}

/// One step of a mask pass, for the caller to perform.
#[derive(Clone, Debug, PartialEq, Eq, Hash)]
pub enum Command {
    /// Assign a texture view to a named output slot of the node.
    SetOutput { slot: String, view: TextureViewId },
    /// Open a render pass.
    BeginPass(PassDescriptor),
    /// Draw one item inside the open pass.
    Draw(DrawItem),
    /// Close the open pass, which resolves the multisampled target.
    EndPass,
}

/// Mathematical value of a [`Command`].
pub enum CommandView {
    SetOutput { slot: Seq<char>, view: TextureViewId },
    BeginPass(PassDescriptorView),
    Draw(DrawItem),
    EndPass,
}

impl View for Command {
    type V = CommandView;

    open spec fn view(&self) -> CommandView {
        match *self {
            Command::SetOutput { slot, view } => CommandView::SetOutput { slot: slot@, view },
            Command::BeginPass(desc) => CommandView::BeginPass(desc@),
            Command::Draw(item) => CommandView::Draw(item),
            Command::EndPass => CommandView::EndPass,
        }
    }
}

/// The values of a list of commands, in order.
pub open spec fn commands_view(commands: Seq<Command>) -> Seq<CommandView> {
    Seq::new(commands.len(), |i: int| commands[i]@)
}

/// The background of the mask: black, which reads as "not covered".
pub open spec fn background() -> ClearColor {
    ClearColor { red: 0, green: 0, blue: 0, alpha: 255 }
}

/// The render pass of a mask: it clears the multisampled target to the
/// background, stores what is drawn, resolves into the single-sample target,
/// and binds no depth/stencil attachment.
pub open spec fn mask_pass(textures: MaskTextures) -> PassDescriptorView {
    PassDescriptorView {
        label: "outline_stencil_render_pass"@,
        color_attachment: ColorAttachment {
            view: textures.multisample_target,
            resolve_target: Some(textures.resolved_target),
            load: LoadOp::Clear(background()),
            store: true,
        },
        depth_stencil_attachment: None,
    }
}

/// The command that assigns the resolved mask to the output slot.
pub open spec fn set_mask_output(textures: MaskTextures) -> CommandView {
    CommandView::SetOutput { slot: MeshMaskNode::OUT_MASK@, view: textures.resolved_target }
}

/// The commands of a pass that draws `items`: assign the output, open the
/// pass, draw each item in order, close the pass.
pub open spec fn pass_commands(textures: MaskTextures, items: Seq<DrawItem>) -> Seq<CommandView> {
    seq![set_mask_output(textures), CommandView::BeginPass(mask_pass(textures))] + Seq::new(
        items.len(),
        |i: int| CommandView::Draw(items[i]),
    ) + seq![CommandView::EndPass]
}

/// The commands of one node run: with no phase for the view, only the output
/// assignment; with a phase, the whole pass over its items.
pub open spec fn run_commands(
    phases: Map<u64, RenderPhase>,
    view: u64,
    textures: MaskTextures,
) -> Seq<CommandView> {
    if phases.contains_key(view) {
        pass_commands(textures, phases[view].items@)
    } else {
        seq![set_mask_output(textures)]
    }
}

/// The items that a list of commands draws, in the order it draws them.
pub open spec fn drawn_items(commands: Seq<CommandView>) -> Seq<DrawItem>
    decreases commands.len(),
{
    if commands.len() == 0 {
        Seq::empty()
    } else {
        let before = drawn_items(commands.drop_last());
        match commands.last() {
            CommandView::Draw(item) => before.push(item),
            _ => before,
        }
    }
}

/// The number of passes that a list of commands opens.
pub open spec fn passes_opened(commands: Seq<CommandView>) -> nat
    decreases commands.len(),
{
    if commands.len() == 0 {
        0
    } else {
        let before = passes_opened(commands.drop_last());
        match commands.last() {
            CommandView::BeginPass(_) => before + 1,
            _ => before,
        }
    }
}

/// The commands of a pass up to, and without, the command that closes it.
pub open spec fn open_pass_commands(textures: MaskTextures, items: Seq<DrawItem>) -> Seq<
    CommandView,
> {
    seq![set_mask_output(textures), CommandView::BeginPass(mask_pass(textures))] + Seq::new(
        items.len(),
        |i: int| CommandView::Draw(items[i]),
    )
}

proof fn lemma_open_pass_draws(textures: MaskTextures, items: Seq<DrawItem>)
    ensures
        drawn_items(open_pass_commands(textures, items)) == items,
        passes_opened(open_pass_commands(textures, items)) == 1,
    decreases items.len(),
{
    let commands = open_pass_commands(textures, items);
    if items.len() == 0 {
        let first = seq![set_mask_output(textures)];
        assert(commands.drop_last() =~= first);
        assert(first.drop_last() =~= Seq::<CommandView>::empty());
        assert(drawn_items(first.drop_last()) =~= Seq::<DrawItem>::empty());
        assert(passes_opened(first.drop_last()) == 0);
        assert(drawn_items(first) =~= Seq::<DrawItem>::empty());
        assert(passes_opened(first) == 0);
        assert(drawn_items(commands) =~= items);
    } else {
        lemma_open_pass_draws(textures, items.drop_last());
        assert(commands.drop_last() =~= open_pass_commands(textures, items.drop_last()));
        assert(commands.last() == CommandView::Draw(items.last()));
        assert(drawn_items(commands) =~= items.drop_last().push(items.last()));
        assert(items.drop_last().push(items.last()) =~= items);
    }
}

/// A pass over `items` opens one render pass, clears it to the background
/// when it opens it, before any item is drawn, and draws each item of `items`
/// once, in the order of `items`.
pub proof fn lemma_pass_draws_each_item_once(textures: MaskTextures, items: Seq<DrawItem>)
    ensures
        drawn_items(pass_commands(textures, items)) == items,
        passes_opened(pass_commands(textures, items)) == 1,
        pass_commands(textures, items)[0] == set_mask_output(textures),
        pass_commands(textures, items)[1] == CommandView::BeginPass(mask_pass(textures)),
        mask_pass(textures).color_attachment.load == LoadOp::Clear(background()),
        mask_pass(textures).depth_stencil_attachment is None,
        pass_commands(textures, items).last() == CommandView::EndPass,
{
    let commands = pass_commands(textures, items);
    lemma_open_pass_draws(textures, items);
    assert(commands.drop_last() =~= open_pass_commands(textures, items));
}

/// A run for a view without a phase assigns the output slot, opens no pass
/// and draws nothing; a run for a view with a phase is the pass over the
/// items of that phase.
pub proof fn lemma_run_follows_the_phase(
    phases: Map<u64, RenderPhase>,
    view: u64,
    textures: MaskTextures,
)
    ensures
        run_commands(phases, view, textures)[0] == set_mask_output(textures),
        !phases.contains_key(view) ==> {
            &&& run_commands(phases, view, textures).len() == 1
            &&& passes_opened(run_commands(phases, view, textures)) == 0
            &&& drawn_items(run_commands(phases, view, textures)) == Seq::<DrawItem>::empty()
        },
        phases.contains_key(view) ==> {
            &&& passes_opened(run_commands(phases, view, textures)) == 1
            &&& drawn_items(run_commands(phases, view, textures)) == phases[view].items@
        },
{
    if phases.contains_key(view) {
        lemma_pass_draws_each_item_once(textures, phases[view].items@);
    } else {
        let only = seq![set_mask_output(textures)];
        assert(only.drop_last() =~= Seq::<CommandView>::empty());
        assert(drawn_items(only.drop_last()) =~= Seq::<DrawItem>::empty());
        assert(passes_opened(only.drop_last()) == 0);
        assert(drawn_items(only) =~= Seq::<DrawItem>::empty());
    }
}

/// Render-graph node that produces the mask of a view.
pub struct MeshMaskNode {
    phases: HashMap<u64, RenderPhase>,
}

impl View for MeshMaskNode {
    type V = Map<u64, RenderPhase>;

    /// The phases the node holds, by view.
    closed spec fn view(&self) -> Map<u64, RenderPhase> {
        self.phases@
    }
}

impl MeshMaskNode {
    /// Name of the input slot: the view to render the mask for.
    pub const IN_VIEW: &'static str = "view";

    /// Name of the output slot: the resolved mask, one 8-bit channel.
    pub const OUT_MASK: &'static str = "mask";

    /// A node over the phases of the scene it is made for: a run finds them
    /// without an update in between.
    pub fn new(phases: HashMap<u64, RenderPhase>) -> (node: MeshMaskNode)
        ensures
            node@ == phases@,
    {
        MeshMaskNode { phases }
    }

    /// The one input slot: the view entity.
    pub fn input(&self) -> (slots: Vec<SlotInfo>)
        ensures
            slots@.len() == 1,
            slots@[0]@ == (SlotInfoView { name: MeshMaskNode::IN_VIEW@, slot_type: SlotType::Entity }),
    {
        vec![SlotInfo { name: Self::IN_VIEW.to_owned(), slot_type: SlotType::Entity }]
    }

    /// The one output slot: the mask texture view.
    pub fn output(&self) -> (slots: Vec<SlotInfo>)
        ensures
            slots@.len() == 1,
            slots@[0]@ == (SlotInfoView { name: MeshMaskNode::OUT_MASK@, slot_type: SlotType::TextureView }),
    {
        vec![SlotInfo { name: Self::OUT_MASK.to_owned(), slot_type: SlotType::TextureView }]
    }

    /// Replaces the phases the node holds by those of the current frame.
    pub fn update(&mut self, phases: HashMap<u64, RenderPhase>)
        ensures
            final(self)@ == phases@,
    {
        self.phases = phases;
    }

    /// The phase registered for `view`, if there is one.
    pub fn phase(&self, view: u64) -> (found: Option<&RenderPhase>)
        ensures
            found is Some <==> self@.contains_key(view),
            found is Some ==> *found->Some_0 == self@[view],
    {
        self.phases.get(&view)
    }

    /// The command that assigns the resolved mask to the output slot. Every
    /// run begins with it; it does not depend on the view.
    pub fn output_assignment(&self, textures: &MaskTextures) -> (command: Command)
        ensures
            command@ == set_mask_output(*textures),
    {
        Command::SetOutput { slot: Self::OUT_MASK.to_owned(), view: textures.resolved_target }
    }

    /// Plans the mask pass of `view`. The output slot is assigned first,
    /// whether or not anything is drawn. With a phase for the view, the pass
    /// is opened with a clear to the background, every item of the phase is
    /// drawn once, in phase order, and the pass is closed. Without one, no pass
    /// is opened and nothing is cleared: the resolved target then still holds
    /// what the last pass left in it.
    pub fn run(&self, view: u64, textures: &MaskTextures) -> (plan: Vec<Command>)
        ensures
            commands_view(plan@) == run_commands(self@, view, *textures),
            plan@.len() >= 1,
            plan@[0]@ == set_mask_output(*textures),
            !self@.contains_key(view) ==> plan@.len() == 1,
            self@.contains_key(view) ==> {
                let items = self@[view].items@;
                &&& plan@.len() == items.len() + 3
                &&& plan@[1]@ == CommandView::BeginPass(mask_pass(*textures))
                &&& forall|i: int| 0 <= i < items.len() ==> (#[trigger] plan@[i + 2])@ == CommandView::Draw(items[i])
                &&& plan@[items.len() as int + 2]@ == CommandView::EndPass
            },
    {
        let mut plan: Vec<Command> = Vec::new();
        plan.push(self.output_assignment(textures));
        let phase = match self.phases.get(&view) {
            Some(phase) => phase,
            None => {
                assert(commands_view(plan@) =~= run_commands(self@, view, *textures));
                return plan;
            },
        };
        plan.push(
            Command::BeginPass(
                PassDescriptor {
                    label: "outline_stencil_render_pass".to_owned(),
                    color_attachment: ColorAttachment {
                        view: textures.multisample_target,
                        resolve_target: Some(textures.resolved_target),
                        load: LoadOp::Clear(ClearColor { red: 0, green: 0, blue: 0, alpha: 255 }),
                        store: true,
                    },
                    depth_stencil_attachment: None,
                },
            ),
        );
        let ghost items = phase.items@;
        let mut i: usize = 0;
        while i < phase.items.len()
            invariant
                i <= phase.items.len(),
                items == phase.items@,
                plan@.len() == i + 2,
                plan@[0]@ == set_mask_output(*textures),
                plan@[1]@ == CommandView::BeginPass(mask_pass(*textures)),
                forall|j: int| 0 <= j < i ==> (#[trigger] plan@[j + 2])@ == CommandView::Draw(items[j]),
            decreases phase.items.len() - i,
        {
            plan.push(Command::Draw(phase.items[i]));
            i += 1;
        }
        plan.push(Command::EndPass);
        proof {
            let want = pass_commands(*textures, items);
            let got = commands_view(plan@);
            assert(got.len() == want.len());
            assert forall|k: int| 0 <= k < got.len() implies got[k] == want[k] by {
                if 2 <= k < items.len() + 2 {
                    assert(plan@[(k - 2) + 2]@ == CommandView::Draw(items[k - 2]));
                }
            }
            assert(got =~= want);
        }
        plan
    }
}

} // verus!
