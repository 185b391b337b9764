//! The scene's structural state: which spheres and lights exist, in which
//! order, and how the orbiting light is coupled to its visible proxy sphere.
//!
//! Positions, radii and colors are carried as the bit patterns of their
//! `f32` components, so that what moves where is exact and provable here
//! while the arithmetic on the values stays with the renderer front end,
//! which converts with `to_bits`/`from_bits` and mirrors this state.

use vstd::prelude::*;

verus! {

/// A 3-vector carried as the bit patterns of its three `f32` components.
#[derive(Clone, Copy, PartialEq, Eq, Debug, Structural)]
pub struct Vec3Bits {
    pub x: u32,
    pub y: u32,
    pub z: u32,
}

/// The scene's contents, in insertion order: one entry per sphere in the
/// three sphere columns, one entry per light. The first light's visible
/// proxy is the first sphere; `apply_light_orbit` keeps the two coupled.
pub struct SceneState {
    pub sphere_centers: Vec<Vec3Bits>,
    pub sphere_radii: Vec<u32>,
    pub sphere_colors: Vec<Vec3Bits>,
    pub light_positions: Vec<Vec3Bits>,
}

/// The explicit link between the first light and its proxy sphere: where a
/// light exists, the first sphere sits exactly at the first light's position.
pub open spec fn proxy_coupled(s: &SceneState) -> bool {
    s.light_positions@.len() > 0 ==> {
        &&& s.sphere_centers@.len() > 0
        &&& s.sphere_centers@[0] == s.light_positions@[0]
    }
}

impl SceneState {
    /// An empty scene: no spheres, no lights.
    pub fn new() -> (s: SceneState)
        ensures
            s.sphere_centers@ == Seq::<Vec3Bits>::empty(),
            s.sphere_radii@ == Seq::<u32>::empty(),
            s.sphere_colors@ == Seq::<Vec3Bits>::empty(),
            s.light_positions@ == Seq::<Vec3Bits>::empty(),
    {
        SceneState {
            sphere_centers: Vec::new(),
            sphere_radii: Vec::new(),
            sphere_colors: Vec::new(),
            light_positions: Vec::new(),
        }
    }

    /// Appends a sphere; earlier spheres and the lights are untouched.
    pub fn add_sphere(&mut self, center: Vec3Bits, radius: u32, color: Vec3Bits)
        ensures
            final(self).sphere_centers@ == old(self).sphere_centers@.push(center),
            final(self).sphere_radii@ == old(self).sphere_radii@.push(radius),
            final(self).sphere_colors@ == old(self).sphere_colors@.push(color),
            final(self).light_positions@ == old(self).light_positions@,
    {
        self.sphere_centers.push(center);
        self.sphere_radii.push(radius);
        self.sphere_colors.push(color);
    }

    /// Appends a light; earlier lights and the spheres are untouched.
    pub fn add_light(&mut self, position: Vec3Bits)
        ensures
            final(self).light_positions@ == old(self).light_positions@.push(position),
            final(self).sphere_centers@ == old(self).sphere_centers@,
            final(self).sphere_radii@ == old(self).sphere_radii@,
            final(self).sphere_colors@ == old(self).sphere_colors@,
    {
        self.light_positions.push(position);
    }

    /// The per-frame orbit step. With no lights it is a no-op. Otherwise the
    /// first light moves to the computed orbit x and z while keeping its own
    /// y, the first sphere — the light's visible proxy — is set to exactly
    /// the same position, and nothing else changes.
    pub fn apply_light_orbit(&mut self, orbit_x: u32, orbit_z: u32)
        requires
            old(self).light_positions@.len() > 0 ==> old(self).sphere_centers@.len() > 0,
        ensures
            old(self).light_positions@.len() == 0 ==> *final(self) == *old(self),
            old(self).light_positions@.len() > 0 ==> {
                &&& final(self).light_positions@[0] == (Vec3Bits {
                    x: orbit_x,
                    y: old(self).light_positions@[0].y,
                    z: orbit_z,
                })
                &&& final(self).sphere_centers@[0] == final(self).light_positions@[0]
                &&& final(self).light_positions@.skip(1) == old(self).light_positions@.skip(1)
                &&& final(self).sphere_centers@.skip(1) == old(self).sphere_centers@.skip(1)
                &&& final(self).light_positions@.len() == old(self).light_positions@.len()
                &&& final(self).sphere_centers@.len() == old(self).sphere_centers@.len()
                &&& final(self).sphere_radii@ == old(self).sphere_radii@
                &&& final(self).sphere_colors@ == old(self).sphere_colors@
            },
            proxy_coupled(final(self)),
    {
        if self.light_positions.len() == 0 {
            return;
        }
        let old_first = self.light_positions[0];
        let new_pos = Vec3Bits { x: orbit_x, y: old_first.y, z: orbit_z };
        self.light_positions.set(0, new_pos);
        self.sphere_centers.set(0, new_pos);
        proof {
            assert(self.light_positions@.skip(1) =~= old(self).light_positions@.skip(1));
            assert(self.sphere_centers@.skip(1) =~= old(self).sphere_centers@.skip(1));
        }
    }
}

} // verus!
