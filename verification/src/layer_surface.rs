//! The Wayland layer surface that hosts the pet, and its click-through
//! input region.
use vstd::prelude::*;
use crate::physics::PetPhysics;

verus! {

/// The layer of the compositor's stack a surface lives in.
#[derive(Debug, Clone, Copy, PartialEq, Eq, Structural)]
pub enum WaylandLayer {
    Top,
    Bottom,
    Overlay,
    Background,
}

/// An edge of the output a layer surface can be anchored to.
#[derive(Debug, Clone, Copy, PartialEq, Eq, Structural)]
pub enum WaylandEdge {
    Top,
    Bottom,
    Left,
    Right,
}

impl WaylandEdge {
    /// The edge's bit in the layer-shell anchor bitfield.
    pub open spec fn bit_spec(self) -> u32 {
        match self {
            WaylandEdge::Top => 1,
            WaylandEdge::Bottom => 2,
            WaylandEdge::Left => 4,
            WaylandEdge::Right => 8,
        }
    }

    /// The edge's bit in the layer-shell anchor bitfield.
    pub fn bit(self) -> (r: u32)
        ensures
            r == self.bit_spec(),
    {
        match self {
            WaylandEdge::Top => 1,
            WaylandEdge::Bottom => 2,
            WaylandEdge::Left => 4,
            WaylandEdge::Right => 8,
        }
    }
}

/// How the layer surface is set up.
#[derive(Debug, Clone, Copy, PartialEq, Eq, Structural)]
pub struct LayerSurfaceConfig {
    pub width: u32,
    pub height: u32,
    pub layer: WaylandLayer,
    /// A bitfield of `WaylandEdge` bits.
    pub anchored_edges: u32,
}

/// Keeps the layer surface's configuration and its input region: the box
/// where clicks land on the pet rather than pass through to the windows
/// below.
#[derive(Debug, Clone, Copy)]
pub struct WaylandLayerSurfaceManager {
    pub config: LayerSurfaceConfig,
    pub is_wayland_active: bool,
    pub current_input_region: Option<(i32, i32, i32, i32)>,
}

impl WaylandLayerSurfaceManager {
    /// A manager for a surface of `width` by `height` pixels on the top
    /// layer, anchored to the bottom, left and right edges, with no input
    /// region yet; `is_wayland_active` tells whether a Wayland display is
    /// present.
    pub fn new(width: u32, height: u32, is_wayland_active: bool) -> (m: Self)
        ensures
            m.config.width == width,
            m.config.height == height,
            m.config.layer == WaylandLayer::Top,
            m.config.anchored_edges == WaylandEdge::Bottom.bit_spec() | WaylandEdge::Left.bit_spec()
                | WaylandEdge::Right.bit_spec(),
            m.is_wayland_active == is_wayland_active,
            m.current_input_region is None,
    {
        WaylandLayerSurfaceManager {
            config: LayerSurfaceConfig {
                width,
                height,
                layer: WaylandLayer::Top,
                anchored_edges: WaylandEdge::Bottom.bit() | WaylandEdge::Left.bit()
                    | WaylandEdge::Right.bit(),
            },
            is_wayland_active,
            current_input_region: None,
        }
    }

    /// The input region the compositor is to be given
    /// (`wl_surface.set_input_region`): the recorded box, when a Wayland
    /// display is present; nothing otherwise.
    pub open spec fn region_for_compositor(self) -> Option<(i32, i32, i32, i32)> {
        if self.is_wayland_active {
            self.current_input_region
        } else {
            None
        }
    }

    /// Sets the surface's input region to the pet's bounding box, so that
    /// clicks outside it pass through to the windows below, and returns that
    /// box. With a Wayland display present the box is then the region the
    /// compositor is to be given (`input_region_to_apply`).
    pub fn update_input_region(&mut self, physics: &PetPhysics) -> (r: (i32, i32, i32, i32))
        requires
            physics.box_fits(),
        ensures
            (r.0 as int, r.1 as int, r.2 as int, r.3 as int) == physics.bbox(),
            final(self).current_input_region == Some(r),
            final(self).config == old(self).config,
            final(self).is_wayland_active == old(self).is_wayland_active,
            final(self).region_for_compositor() == (if old(self).is_wayland_active {
                Some(r)
            } else {
                None
            }),
    {
        let bbox = physics.bounding_box();
        self.current_input_region = Some(bbox);
        bbox
    }

    /// The input region the program is to hand the compositor: the current
    /// region while a Wayland display is present.
    pub fn input_region_to_apply(&self) -> (r: Option<(i32, i32, i32, i32)>)
        ensures
            r == self.region_for_compositor(),
    {
        if self.is_wayland_active {
            self.current_input_region
        } else {
            None
        }
    }
}

} // verus!
