//! Placement of a layered model's nodes on a canvas, in whole pixels.

use vstd::prelude::*;

verus! {

/// Quotient of `a` by a positive `b`, rounded towards zero.
pub open spec fn div_toward_zero(a: int, b: int) -> int
    recommends
        b > 0,
{
    if a >= 0 {
        a / b
    } else {
        -((-a) / b)
    }
}

/// The product of two coordinates, which a wider integer always holds.
fn product(a: i32, b: i32) -> (p: i64)
    ensures
        p == a * b,
{
    assert(-0x4000_0000_0000_0000 <= a * b <= 0x4000_0000_0000_0000) by (nonlinear_arith)
        requires
            -0x8000_0000 <= a <= 0x7fff_ffff,
            -0x8000_0000 <= b <= 0x7fff_ffff,
    ;
    (a as i64) * (b as i64)
}

/// Whether a wide value can be held in a coordinate.
fn narrow(v: i64) -> (ok: bool)
    ensures
        ok == LayoutConfig::fits(v as int),
{
    -0x8000_0000 <= v && v <= 0x7fff_ffff
}

/// Spacing and canvas size from which every node position is derived.
#[derive(Copy, Clone, Debug, PartialEq, Eq, Structural)]
pub struct LayoutConfig {
    pub layer_spacing: i32,
    pub node_spacing: i32,
    pub node_radius: i32,
    pub canvas_width: i32,
    pub canvas_height: i32,
}

impl LayoutConfig {
    /// Vertical distance between the centres of two neighbouring nodes.
    pub open spec fn pitch(&self) -> int {
        self.node_radius * 2 + self.node_spacing
    }

    /// Horizontal position of the layer with the given number.
    pub open spec fn layer_x(&self, layer_number: int) -> int {
        self.layer_spacing * layer_number + 50
    }

    /// Height spanned by the centres of `num_nodes` stacked nodes.
    pub open spec fn column_height(&self, num_nodes: int) -> int {
        (num_nodes - 1) * self.pitch()
    }

    /// Vertical position of the first node of a column of `num_nodes` nodes
    /// that is centred on the canvas.
    pub open spec fn layer_start_y(&self, num_nodes: int) -> int {
        div_toward_zero(self.canvas_height - self.column_height(num_nodes), 2)
    }

    /// Vertical position of the node with the given index in a column that
    /// starts at `layer_start_y`.
    pub open spec fn node_y(&self, node_index: int, layer_start_y: int) -> int {
        node_index * self.pitch() + layer_start_y
    }

    /// `v` can be held in a coordinate.
    pub open spec fn fits(v: int) -> bool {
        i32::MIN <= v <= i32::MAX
    }

    /// Every step of computing a layer's horizontal position stays within
    /// the range of a coordinate.
    pub open spec fn can_place_layer(&self, layer_number: int) -> bool {
        &&& Self::fits(self.layer_spacing * layer_number)
        &&& Self::fits(self.layer_x(layer_number))
    }

    /// Every step of computing the node distance stays within the range of a
    /// coordinate.
    pub open spec fn pitch_fits(&self) -> bool {
        &&& Self::fits(self.node_radius * 2)
        &&& Self::fits(self.pitch())
    }

    /// Every step of centring a column of `num_nodes` nodes stays within the
    /// range of a coordinate.
    pub open spec fn can_stack(&self, num_nodes: int) -> bool {
        &&& self.pitch_fits()
        &&& Self::fits(num_nodes - 1)
        &&& Self::fits(self.column_height(num_nodes))
        &&& Self::fits(self.canvas_height - self.column_height(num_nodes))
    }

    /// Every step of computing a node's vertical position stays within the
    /// range of a coordinate.
    pub open spec fn can_place_node(&self, node_index: int, layer_start_y: int) -> bool {
        &&& self.pitch_fits()
        &&& Self::fits(node_index * self.pitch())
        &&& Self::fits(self.node_y(node_index, layer_start_y))
    }

    /// Decides `can_place_layer`.
    pub fn places_layer(&self, layer_number: i32) -> (ok: bool)
        ensures
            ok == self.can_place_layer(layer_number as int),
    {
        let offset: i64 = product(self.layer_spacing, layer_number);
        narrow(offset) && narrow(offset + 50)
    }

    /// Decides `pitch_fits`.
    pub fn pitch_in_range(&self) -> (ok: bool)
        ensures
            ok == self.pitch_fits(),
    {
        let diameter: i64 = product(self.node_radius, 2);
        narrow(diameter) && narrow(diameter + self.node_spacing as i64)
    }

    /// Decides `can_stack`.
    pub fn stacks(&self, num_nodes: i32) -> (ok: bool)
        ensures
            ok == self.can_stack(num_nodes as int),
    {
        if !self.pitch_in_range() || num_nodes == i32::MIN {
            return false;
        }
        let pitch: i32 = self.node_radius * 2 + self.node_spacing;
        let height: i64 = product(num_nodes - 1, pitch);
        narrow(height) && narrow(self.canvas_height as i64 - height)
    }

    /// Decides `can_place_node`.
    pub fn places_node(&self, node_index: i32, layer_start_y: i32) -> (ok: bool)
        ensures
            ok == self.can_place_node(node_index as int, layer_start_y as int),
    {
        if !self.pitch_in_range() {
            return false;
        }
        let pitch: i32 = self.node_radius * 2 + self.node_spacing;
        let offset: i64 = product(node_index, pitch);
        narrow(offset) && narrow(offset + layer_start_y as i64)
    }

    /// The default spacing on a canvas of the given size.
    pub fn new(canvas_width: i32, canvas_height: i32) -> (config: Self)
        ensures
            config == (LayoutConfig {
                layer_spacing: 200,
                node_spacing: 50,
                node_radius: 25,
                canvas_width,
                canvas_height,
            }),
    {
        Self { layer_spacing: 200, node_spacing: 50, node_radius: 25, canvas_width, canvas_height }
    }

    /// Horizontal position of the layer with the given number: layers stand
    /// `layer_spacing` apart, the first of them 50 from the left edge.
    pub fn get_layer_x(&self, layer_number: i32) -> (x: i32)
        requires
            self.can_place_layer(layer_number as int),
        ensures
            x == self.layer_x(layer_number as int),
    {
        self.layer_spacing * layer_number + 50
    }

    /// Vertical position of the first node of a column of `num_nodes` nodes:
    /// half of what the canvas height leaves over (or lacks) beside the
    /// column, rounded towards zero.
    pub fn get_layer_start_y(&self, num_nodes: i32) -> (y: i32)
        requires
            self.can_stack(num_nodes as int),
        ensures
            y == self.layer_start_y(num_nodes as int),
    {
        let total_layer_height: i32 = (num_nodes - 1) * (self.node_radius * 2 + self.node_spacing);
        (self.canvas_height - total_layer_height) / 2
    }

    /// Vertical position of the node with the given index in a column that
    /// starts at `layer_start_y`: one diameter and one spacing further down
    /// for each node before it.
    pub fn get_node_y(&self, node_index: i32, layer_start_y: i32) -> (y: i32)
        requires
            self.can_place_node(node_index as int, layer_start_y as int),
        ensures
            y == self.node_y(node_index as int, layer_start_y as int),
    {
        node_index * (self.node_radius * 2 + self.node_spacing) + layer_start_y
    }
}

/// The column of nodes that stands for one layer of a model.
#[derive(Copy, Clone, Debug, PartialEq, Eq, Structural)]
pub struct Nodes {
    /// Number of units of the layer.
    pub node_count: usize,
    pub radius: i32,
    /// Position of the layer in the model, from zero.
    pub layer_number: i32,
    pub config: LayoutConfig,
    /// Vertical position of the column's first node.
    pub layer_start_y: i32,
}

impl Nodes {
    /// The column of `node_count` nodes for the layer with the given number,
    /// centred on the canvas of `config`.
    pub open spec fn column(node_count: usize, layer_number: i32, config: LayoutConfig) -> Nodes {
        Nodes {
            node_count,
            radius: config.node_radius,
            layer_number,
            config,
            layer_start_y: config.layer_start_y(node_count as int) as i32,
        }
    }

    /// The column for a layer of `node_count` units, with the radius of
    /// `config` and centred on its canvas.
    pub fn new(node_count: usize, layer_number: i32, config: LayoutConfig) -> (nodes: Self)
        requires
            node_count <= i32::MAX,
            config.can_stack(node_count as int),
        ensures
            nodes == Self::column(node_count, layer_number, config),
            nodes.layer_start_y == config.layer_start_y(node_count as int),
    {
        let radius = config.node_radius;
        let layer_start_y = config.get_layer_start_y(node_count as i32);
        Self { node_count, radius, layer_number, config, layer_start_y }
    }

    /// Centre of the node with the given index: the layer's horizontal
    /// position, and the vertical position of that node in the column.
    pub fn get_node_position(&self, node_index: usize) -> (position: (i32, i32))
        requires
            node_index <= i32::MAX,
            self.config.can_place_layer(self.layer_number as int),
            self.config.can_place_node(node_index as int, self.layer_start_y as int),
        ensures
            position.0 == self.config.layer_x(self.layer_number as int),
            position.1 == self.config.node_y(node_index as int, self.layer_start_y as int),
    {
        let x = self.config.get_layer_x(self.layer_number);
        let y = self.config.get_node_y(node_index as i32, self.layer_start_y);
        (x, y)
    }

    /// The centre of every node of the column can be held in coordinates.
    pub open spec fn positionable(&self) -> bool {
        &&& self.node_count <= i32::MAX
        &&& self.node_count > 0 ==> self.config.can_place_layer(self.layer_number as int)
        &&& forall|i: int|
            0 <= i < self.node_count ==> #[trigger] self.config.can_place_node(
                i,
                self.layer_start_y as int,
            )
    }

    /// The centres of all nodes of the column, first to last. `None` exactly
    /// where one of them cannot be held in coordinates.
    pub fn positions(&self) -> (centres: Option<Vec<(i32, i32)>>)
        ensures
            centres is Some <==> self.positionable(),
            centres matches Some(c) ==> c@.len() == self.node_count && forall|i: int|
                0 <= i < c@.len() ==> (#[trigger] c@[i]).0 == self.config.layer_x(
                    self.layer_number as int,
                ) && c@[i].1 == self.config.node_y(i, self.layer_start_y as int),
    {
        if self.node_count > 0x7fff_ffff {
            return None;
        }
        let mut centres: Vec<(i32, i32)> = Vec::new();
        if self.node_count == 0 {
            return Some(centres);
        }
        if !self.config.places_layer(self.layer_number) {
            return None;
        }
        let mut i: usize = 0;
        while i < self.node_count
            invariant
                i <= self.node_count <= i32::MAX,
                self.config.can_place_layer(self.layer_number as int),
                centres@.len() == i,
                forall|k: int|
                    0 <= k < i ==> #[trigger] self.config.can_place_node(
                        k,
                        self.layer_start_y as int,
                    ),
                forall|k: int|
                    0 <= k < i ==> (#[trigger] centres@[k]).0 == self.config.layer_x(
                        self.layer_number as int,
                    ) && centres@[k].1 == self.config.node_y(k, self.layer_start_y as int),
            decreases self.node_count - i,
        {
            if !self.config.places_node(i as i32, self.layer_start_y) {
                return None;
            }
            centres.push(self.get_node_position(i));
            i += 1;
        }
        Some(centres)
    }
}

/// A column can be built for every layer, and the layers can be numbered.
pub open spec fn placeable(layer_sizes: Seq<usize>, config: LayoutConfig) -> bool {
    &&& layer_sizes.len() <= i32::MAX
    &&& forall|i: int|
        0 <= i < layer_sizes.len() ==> (#[trigger] layer_sizes[i]) <= i32::MAX && config.can_stack(
            layer_sizes[i] as int,
        )
}

/// One column of nodes for each layer of a model, in the order of the layers:
/// the layer at position `i` has `layer_sizes[i]` units and gets number `i`.
/// `None` exactly where a column's start cannot be held in a coordinate.
pub fn place_layers(layer_sizes: &Vec<usize>, config: LayoutConfig) -> (columns: Option<Vec<Nodes>>)
    ensures
        columns is Some <==> placeable(layer_sizes@, config),
        columns matches Some(c) ==> c@.len() == layer_sizes@.len() && forall|i: int|
            0 <= i < c@.len() ==> #[trigger] c@[i] == Nodes::column(layer_sizes@[i], i as i32, config),
{
    if layer_sizes.len() > 0x7fff_ffff {
        return None;
    }
    let mut columns: Vec<Nodes> = Vec::new();
    let mut i: usize = 0;
    while i < layer_sizes.len()
        invariant
            i <= layer_sizes@.len() <= i32::MAX,
            columns@.len() == i,
            forall|k: int|
                0 <= k < i ==> (#[trigger] layer_sizes@[k]) <= i32::MAX && config.can_stack(
                    layer_sizes@[k] as int,
                ),
            forall|k: int|
                0 <= k < i ==> #[trigger] columns@[k] == Nodes::column(
                    layer_sizes@[k],
                    k as i32,
                    config,
                ),
        decreases layer_sizes@.len() - i,
    {
        let size: usize = layer_sizes[i];
        if size > 0x7fff_ffff || !config.stacks(size as i32) {
            return None;
        }
        columns.push(Nodes::new(size, i as i32, config));
        i += 1;
    }
    Some(columns)
}

} // verus!
