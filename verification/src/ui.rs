//! The visual tree, modeled as plain data: a flat list of nodes, each tagged
//! with the role it plays. A host renderer draws the list; this library only
//! creates, rotates and removes nodes.

use vstd::prelude::*;
use crate::timer::clamped_add;

verus! {

/// A layout dimension of a node.
#[derive(Clone, Copy, Debug, PartialEq, Eq, Structural)]
pub enum Dimension {
    Auto,
    Px(u32),
    Percent(u32),
}

/// How children are placed along an axis.
#[derive(Clone, Copy, Debug, PartialEq, Eq, Structural)]
pub enum Alignment {
    Start,
    Center,
}

/// The main axis along which children flow.
#[derive(Clone, Copy, Debug, PartialEq, Eq, Structural)]
pub enum FlowDirection {
    Row,
    Column,
}

/// Whether a node is placed in the normal flow or at an absolute offset.
#[derive(Clone, Copy, Debug, PartialEq, Eq, Structural)]
pub enum Positioning {
    Relative,
    Absolute,
}

/// A color; each channel is in thousandths of full intensity (0 to 1000).
#[derive(Clone, Copy, Debug, PartialEq, Eq, Structural)]
pub struct Rgb {
    pub red: u16,
    pub green: u16,
    pub blue: u16,
}

/// The role a node plays. The four loading-screen roles are removed together
/// when the loading screen is torn down.
#[derive(Clone, Copy, Debug, PartialEq, Eq, Structural)]
pub enum NodeKind {
    /// The camera spawned once at startup; it outlives both states.
    Camera,
    /// The full-viewport container behind the loading screen.
    LoadingRoot,
    /// The "Loading..." label.
    LoadingText,
    /// The fixed-size box holding the spinner.
    SpinnerFrame,
    /// The circular element that rotates each frame.
    Spinner,
    /// The "Game Started!" label shown once play begins.
    GameLabel,
}

/// One visual node, as plain data.
#[derive(Clone, Copy, Debug)]
pub struct Node {
    pub id: u64,
    pub kind: NodeKind,
    /// The id of the parent node, if any.
    pub parent: Option<u64>,
    pub width: Dimension,
    pub height: Dimension,
    pub margin_top_px: u32,
    pub align_items: Alignment,
    pub justify_content: Alignment,
    pub direction: FlowDirection,
    pub positioning: Positioning,
    pub top_px: u32,
    pub left_px: u32,
    pub background: Option<Rgb>,
    pub border_px: u32,
    /// Corners rounded all the way to a circle.
    pub fully_rounded: bool,
    pub font_size: u32,
    pub text_color: Option<Rgb>,
    /// Accumulated clockwise rotation about the depth axis, in milliradians.
    /// The displayed angle is the negation of this value (the convention in
    /// use counts counter-clockwise as positive), reduced modulo a full turn
    /// by the renderer.
    pub spin_mrad: u64,
}

/// A node with every field at its resting value.
pub open spec fn blank(id: u64, kind: NodeKind) -> Node {
    Node {
        id,
        kind,
        parent: None,
        width: Dimension::Auto,
        height: Dimension::Auto,
        margin_top_px: 0,
        align_items: Alignment::Start,
        justify_content: Alignment::Start,
        direction: FlowDirection::Row,
        positioning: Positioning::Relative,
        top_px: 0,
        left_px: 0,
        background: None,
        border_px: 0,
        fully_rounded: false,
        font_size: 0,
        text_color: None,
        spin_mrad: 0,
    }
}

/// The startup camera.
pub open spec fn camera_node(id: u64) -> Node {
    blank(id, NodeKind::Camera)
}

/// The loading screen's root: a dark full-viewport container with its
/// children centered in a column.
pub open spec fn loading_root_node(id: u64) -> Node {
    Node {
        width: Dimension::Percent(100),
        height: Dimension::Percent(100),
        align_items: Alignment::Center,
        justify_content: Alignment::Center,
        direction: FlowDirection::Column,
        background: Some(Rgb { red: 100, green: 100, blue: 100 }),
        ..blank(id, NodeKind::LoadingRoot)
    }
}

/// The "Loading..." label, in white.
pub open spec fn loading_text_node(id: u64, parent: u64) -> Node {
    Node {
        parent: Some(parent),
        font_size: 60,
        text_color: Some(Rgb { red: 1000, green: 1000, blue: 1000 }),
        ..blank(id, NodeKind::LoadingText)
    }
}

/// The fixed-size box the spinner sits in.
pub open spec fn spinner_frame_node(id: u64, parent: u64) -> Node {
    Node {
        parent: Some(parent),
        width: Dimension::Px(50),
        height: Dimension::Px(50),
        margin_top_px: 30,
        ..blank(id, NodeKind::SpinnerFrame)
    }
}

/// The spinner: a circular-bordered element filling its frame, not yet
/// rotated.
pub open spec fn spinner_node(id: u64, parent: u64) -> Node {
    Node {
        parent: Some(parent),
        width: Dimension::Percent(100),
        height: Dimension::Percent(100),
        border_px: 5,
        fully_rounded: true,
        ..blank(id, NodeKind::Spinner)
    }
}

/// The "Game Started!" label, in white, anchored near the top-left corner.
pub open spec fn game_label_node(id: u64) -> Node {
    Node {
        positioning: Positioning::Absolute,
        top_px: 50,
        left_px: 50,
        font_size: 40,
        text_color: Some(Rgb { red: 1000, green: 1000, blue: 1000 }),
        ..blank(id, NodeKind::GameLabel)
    }
}

/// The four nodes the loading screen is made of, with ids taken in order
/// starting from `id`.
pub open spec fn loading_subtree(id: u64) -> Seq<Node> {
    seq![
        loading_root_node(id),
        loading_text_node((id + 1) as u64, id),
        spinner_frame_node((id + 2) as u64, id),
        spinner_node((id + 3) as u64, (id + 2) as u64),
    ]
}

/// Whether a node belongs to the loading screen.
pub open spec fn is_loading_tagged(n: Node) -> bool {
    n.kind == NodeKind::LoadingRoot || n.kind == NodeKind::LoadingText
        || n.kind == NodeKind::SpinnerFrame || n.kind == NodeKind::Spinner
}

/// The text a node displays. Only the two label kinds carry text.
pub open spec fn text_of(kind: NodeKind) -> Seq<char> {
    match kind {
        NodeKind::LoadingText => "Loading..."@,
        NodeKind::GameLabel => "Game Started!"@,
        _ => Seq::empty(),
    }
}

/// Returns the text a node of the given kind displays.
pub fn label_text(kind: NodeKind) -> (r: String)
    ensures
        r@ == text_of(kind),
{
    match kind {
        NodeKind::LoadingText => "Loading...".to_owned(),
        NodeKind::GameLabel => "Game Started!".to_owned(),
        _ => String::new(),
    }
}

/// `n` rotated clockwise by `amount` milliradians if it is a spinner, and
/// unchanged otherwise. Accumulation clamps at the top of the range.
pub open spec fn spin_node(n: Node, amount: int) -> Node {
    if n.kind == NodeKind::Spinner {
        Node { spin_mrad: clamped_add(n.spin_mrad, amount), ..n }
    } else {
        n
    }
}

/// Every node, with each spinner rotated clockwise by `amount` milliradians.
pub open spec fn rotated(nodes: Seq<Node>, amount: int) -> Seq<Node> {
    Seq::new(nodes.len(), |i: int| spin_node(nodes[i], amount))
}

/// The node list after the loading screen is torn down: the loading-tagged
/// nodes are gone and everything else keeps its value and relative order.
pub open spec fn loading_exit(nodes: Seq<Node>) -> Seq<Node>
    decreases nodes.len(),
{
    if nodes.len() == 0 {
        nodes
    } else {
        let rest = loading_exit(nodes.drop_last());
        if is_loading_tagged(nodes.last()) {
            rest
        } else {
            rest.push(nodes.last())
        }
    }
}

/// Whether a node belongs to the loading screen.
pub fn node_is_loading_tagged(n: &Node) -> (r: bool)
    ensures
        r == is_loading_tagged(*n),
{
    match n.kind {
        NodeKind::LoadingRoot => true,
        NodeKind::LoadingText => true,
        NodeKind::SpinnerFrame => true,
        NodeKind::Spinner => true,
        _ => false,
    }
}

/// The visual tree: the nodes currently alive, and the id the next spawned
/// node will get. Ids are handed out in spawn order and never reused.
pub struct World {
    pub nodes: Vec<Node>,
    pub next_id: u64,
}

impl World {
    /// An empty tree.
    pub fn new() -> (w: World)
        ensures
            w.nodes@ == Seq::<Node>::empty(),
            w.next_id == 0,
    {
        World { nodes: Vec::new(), next_id: 0 }
    }

    /// Startup: spawns the camera, which outlives both states.
    pub fn setup(&mut self)
        requires
            old(self).next_id < u64::MAX,
        ensures
            final(self).nodes@ == old(self).nodes@.push(camera_node(old(self).next_id)),
            final(self).next_id == old(self).next_id + 1,
    {
        let node = blank_node(self.next_id, NodeKind::Camera);
        self.nodes.push(node);
        self.next_id = self.next_id + 1;
    }

    /// Enter hook of the loading state: spawns the loading screen, a dark
    /// full-viewport container holding the "Loading..." label and the spinner
    /// in its frame.
    pub fn setup_loading_screen(&mut self)
        requires
            old(self).next_id <= u64::MAX - 4,
        ensures
            final(self).nodes@ == old(self).nodes@ + loading_subtree(old(self).next_id),
            final(self).next_id == old(self).next_id + 4,
    {
        let root_id = self.next_id;

        let mut root = blank_node(root_id, NodeKind::LoadingRoot);
        root.width = Dimension::Percent(100);
        root.height = Dimension::Percent(100);
        root.align_items = Alignment::Center;
        root.justify_content = Alignment::Center;
        root.direction = FlowDirection::Column;
        root.background = Some(Rgb { red: 100, green: 100, blue: 100 });
        self.nodes.push(root);

        let mut text = blank_node(root_id + 1, NodeKind::LoadingText);
        text.parent = Some(root_id);
        text.font_size = 60;
        text.text_color = Some(Rgb { red: 1000, green: 1000, blue: 1000 });
        self.nodes.push(text);

        let mut frame = blank_node(root_id + 2, NodeKind::SpinnerFrame);
        frame.parent = Some(root_id);
        frame.width = Dimension::Px(50);
        frame.height = Dimension::Px(50);
        frame.margin_top_px = 30;
        self.nodes.push(frame);

        let mut spinner = blank_node(root_id + 3, NodeKind::Spinner);
        spinner.parent = Some(root_id + 2);
        spinner.width = Dimension::Percent(100);
        spinner.height = Dimension::Percent(100);
        spinner.border_px = 5;
        spinner.fully_rounded = true;
        self.nodes.push(spinner);

        self.next_id = self.next_id + 4;

        proof {
            assert(final(self).nodes@ =~= old(self).nodes@ + loading_subtree(old(self).next_id));
        }
    }

    /// Exit hook of the loading state: removes every loading-tagged node and
    /// keeps everything else in order. Removing nothing is fine, so calling
    /// this again when the screen is already gone changes nothing.
    pub fn cleanup_loading_screen(&mut self)
        ensures
            final(self).nodes@ == loading_exit(old(self).nodes@),
            final(self).next_id == old(self).next_id,
            forall|i: int|
                0 <= i < final(self).nodes@.len() ==> !is_loading_tagged(final(self).nodes@[i]),
    {
        let n = self.nodes.len();
        let mut kept: Vec<Node> = Vec::new();
        let mut i: usize = 0;
        while i < n
            invariant
                i <= n,
                n == self.nodes@.len(),
                self.nodes@ == old(self).nodes@,
                self.next_id == old(self).next_id,
                kept@ == loading_exit(old(self).nodes@.take(i as int)),
            decreases n - i,
        {
            let node = self.nodes[i];
            proof {
                assert(old(self).nodes@.take(i + 1).drop_last() =~= old(self).nodes@.take(
                    i as int,
                ));
            }
            if !node_is_loading_tagged(&node) {
                kept.push(node);
            }
            i = i + 1;
        }
        proof {
            assert(old(self).nodes@.take(n as int) =~= old(self).nodes@);
        }
        self.nodes = kept;
        proof {
            lemma_loading_exit_untagged(old(self).nodes@);
        }
    }

    /// Enter hook of the playing state: spawns the "Game Started!" label.
    pub fn setup_game(&mut self)
        requires
            old(self).next_id < u64::MAX,
        ensures
            final(self).nodes@ == old(self).nodes@.push(game_label_node(old(self).next_id)),
            final(self).next_id == old(self).next_id + 1,
    {
        let mut label = blank_node(self.next_id, NodeKind::GameLabel);
        label.positioning = Positioning::Absolute;
        label.top_px = 50;
        label.left_px = 50;
        label.font_size = 40;
        label.text_color = Some(Rgb { red: 1000, green: 1000, blue: 1000 });
        self.nodes.push(label);
        self.next_id = self.next_id + 1;
    }

    /// Per-frame visual effect: every spinner turns clockwise by twice the
    /// elapsed time, in milliradians per millisecond. A zero delta rotates
    /// nothing.
    pub fn rotate_spinners(&mut self, delta: u64)
        ensures
            final(self).nodes@ == rotated(old(self).nodes@, 2 * (delta as int)),
            final(self).next_id == old(self).next_id,
    {
        let amount: u64 = match delta.checked_mul(2) {
            Some(a) => a,
            None => u64::MAX,
        };
        let n = self.nodes.len();
        let mut updated: Vec<Node> = Vec::new();
        let mut i: usize = 0;
        while i < n
            invariant
                i <= n,
                n == self.nodes@.len(),
                self.nodes@ == old(self).nodes@,
                self.next_id == old(self).next_id,
                updated@.len() == i,
                amount == if 2 * (delta as int) > u64::MAX { u64::MAX as int } else {
                    2 * (delta as int)
                },
                forall|j: int|
                    0 <= j < i ==> updated@[j] == spin_node(
                        old(self).nodes@[j],
                        2 * (delta as int),
                    ),
            decreases n - i,
        {
            let mut node = self.nodes[i];
            if node.kind == NodeKind::Spinner {
                node.spin_mrad = node.spin_mrad.saturating_add(amount);
            }
            updated.push(node);
            i = i + 1;
        }
        self.nodes = updated;
        proof {
            assert(final(self).nodes@ =~= rotated(old(self).nodes@, 2 * (delta as int)));
        }
    }

    /// Whether some node of the given kind is alive.
    pub fn has_node_kind(&self, kind: NodeKind) -> (r: bool)
        ensures
            r == exists|i: int| 0 <= i < self.nodes@.len() && self.nodes@[i].kind == kind,
    {
        let n = self.nodes.len();
        let mut i: usize = 0;
        while i < n
            invariant
                i <= n,
                n == self.nodes@.len(),
                forall|j: int| 0 <= j < i ==> self.nodes@[j].kind != kind,
            decreases n - i,
        {
            if self.nodes[i].kind == kind {
                return true;
            }
            i = i + 1;
        }
        false
    }
}

/// A node with every field at its resting value.
fn blank_node(id: u64, kind: NodeKind) -> (n: Node)
    ensures
        n == blank(id, kind),
{
    Node {
        id,
        kind,
        parent: None,
        width: Dimension::Auto,
        height: Dimension::Auto,
        margin_top_px: 0,
        align_items: Alignment::Start,
        justify_content: Alignment::Start,
        direction: FlowDirection::Row,
        positioning: Positioning::Relative,
        top_px: 0,
        left_px: 0,
        background: None,
        border_px: 0,
        fully_rounded: false,
        font_size: 0,
        text_color: None,
        spin_mrad: 0,
    }
}

/// No loading-tagged node survives the exit hook.
pub proof fn lemma_loading_exit_untagged(nodes: Seq<Node>)
    ensures
        forall|i: int|
            0 <= i < loading_exit(nodes).len() ==> !is_loading_tagged(loading_exit(nodes)[i]),
    decreases nodes.len(),
{
    if nodes.len() > 0 {
        lemma_loading_exit_untagged(nodes.drop_last());
        let rest = loading_exit(nodes.drop_last());
        assert forall|i: int|
            0 <= i < loading_exit(nodes).len() implies !is_loading_tagged(
            loading_exit(nodes)[i],
        ) by {
            if i < rest.len() {
                assert(loading_exit(nodes)[i] == rest[i]);
            }
        }
    }
}

} // verus!
