//! The resource arena: the single owning store of every resource record,
//! addressed by opaque integer ids.
//!
//! Ids for each kind are assigned monotonically starting at 1 (0 is
//! reserved for "empty/none") and are never reused.  A record with id `n`
//! sits at index `n - 1` of its table, so a table's length determines the
//! next id.  Lookups by an unknown id return nothing, and mutating
//! operations on an unknown id are silent no-ops: absence of effect is
//! this design's only failure mode.

use vstd::prelude::*;
use crate::platform::area::Area;
use crate::platform::draw_list::{DrawItem, DrawList, DrawListId};
use crate::platform::event::Event;
use crate::platform::geometry::{Geometry, GeometryId};
use crate::platform::gpu_info::GpuInfo;
use crate::platform::math::Mat4;
use crate::platform::pass::{Pass, PassClearColor, PassId, PassParent};
use crate::platform::shader::{Shader, ShaderId};
use crate::platform::texture::{Texture, TextureFormat, TextureId};
use crate::platform::window::{WindowHandle, WindowId};
use crate::draw::rect::Rect;

verus! {

/// One hit-test record: a rectangle and the draw list that drew it.
#[derive(Clone, Copy, Debug, PartialEq, Eq, Structural)]
pub struct AreaData {
    pub rect: Rect,
    pub draw_list_id: Option<DrawListId>,
}

/// The arena.  Every table is owned exclusively by this one value and is
/// only ever grown; ids are indexes shifted by one.
pub struct Cx {
    pub windows: Vec<WindowHandle>,
    pub passes: Vec<Pass>,
    pub draw_lists: Vec<DrawList>,
    pub textures: Vec<Texture>,
    pub geometries: Vec<Geometry>,
    pub shaders: Vec<Shader>,
    pub areas: Vec<AreaData>,
    pub gpu_info: GpuInfo,
    pub debug: crate::platform::debug::Debug,
}

impl Cx {
    /// Arena well-formedness: the record at index `i` of each table
    /// carries id `i + 1`.
    pub open spec fn wf(self) -> bool {
        &&& forall|i: int|
            0 <= i < self.windows@.len() ==> (#[trigger] self.windows@[i]).window_id.0 == i + 1
        &&& forall|i: int| 0 <= i < self.passes@.len() ==> (#[trigger] self.passes@[i]).pass_id.0 == i + 1
        &&& forall|i: int|
            0 <= i < self.draw_lists@.len() ==> (#[trigger] self.draw_lists@[i]).draw_list_id.0 == i
                + 1
        &&& forall|i: int|
            0 <= i < self.textures@.len() ==> (#[trigger] self.textures@[i]).texture_id.0 == i + 1
        &&& forall|i: int|
            0 <= i < self.geometries@.len() ==> (#[trigger] self.geometries@[i]).geometry_id.0 == i
                + 1
        &&& forall|i: int|
            0 <= i < self.shaders@.len() ==> (#[trigger] self.shaders@[i]).shader_id.0 == i + 1
    }

    /// The pass a pass id refers to, if the arena knows it.
    pub open spec fn spec_pass(self, pass_id: PassId) -> Option<Pass> {
        if 1 <= pass_id.0 <= self.passes@.len() {
            Some(self.passes@[pass_id.0 - 1])
        } else {
            None
        }
    }

    /// The draw list a draw-list id refers to, if the arena knows it.
    pub open spec fn spec_draw_list(self, draw_list_id: DrawListId) -> Option<DrawList> {
        if 1 <= draw_list_id.0 <= self.draw_lists@.len() {
            Some(self.draw_lists@[draw_list_id.0 - 1])
        } else {
            None
        }
    }

    /// The hit-test record an area handle refers to, if the arena knows
    /// it.
    pub open spec fn spec_area(self, area: Area) -> Option<AreaData> {
        if 1 <= area.0 <= self.areas@.len() {
            Some(self.areas@[area.0 - 1])
        } else {
            None
        }
    }

    /// True when everything outside the draw-list table is unchanged
    /// between the two arena states.
    pub open spec fn only_draw_lists_changed(self, other: Cx) -> bool {
        &&& other.windows == self.windows
        &&& other.passes == self.passes
        &&& other.textures == self.textures
        &&& other.geometries == self.geometries
        &&& other.shaders == self.shaders
        &&& other.areas == self.areas
        &&& other.gpu_info == self.gpu_info
        &&& other.debug == self.debug
    }

    /// True when everything outside the area table is unchanged between
    /// the two arena states.
    pub open spec fn only_areas_changed(self, other: Cx) -> bool {
        &&& other.windows == self.windows
        &&& other.passes == self.passes
        &&& other.draw_lists == self.draw_lists
        &&& other.textures == self.textures
        &&& other.geometries == self.geometries
        &&& other.shaders == self.shaders
        &&& other.gpu_info == self.gpu_info
        &&& other.debug == self.debug
    }

    /// True when everything outside the pass table is unchanged between
    /// the two arena states.
    pub open spec fn only_passes_changed(self, other: Cx) -> bool {
        &&& other.windows == self.windows
        &&& other.draw_lists == self.draw_lists
        &&& other.textures == self.textures
        &&& other.geometries == self.geometries
        &&& other.shaders == self.shaders
        &&& other.areas == self.areas
        &&& other.gpu_info == self.gpu_info
        &&& other.debug == self.debug
    }

    pub fn new() -> (r: Self)
        ensures
            r.windows@.len() == 0,
            r.passes@.len() == 0,
            r.draw_lists@.len() == 0,
            r.textures@.len() == 0,
            r.geometries@.len() == 0,
            r.shaders@.len() == 0,
            r.areas@.len() == 0,
            r.wf(),
    {
        Self {
            windows: Vec::new(),
            passes: Vec::new(),
            draw_lists: Vec::new(),
            textures: Vec::new(),
            geometries: Vec::new(),
            shaders: Vec::new(),
            areas: Vec::new(),
            gpu_info: GpuInfo::new(),
            debug: crate::platform::debug::Debug::new(),
        }
    }

    /// Allocates the next window id and inserts a default-valued window
    /// record.  The title and extent are for the embedding backend; the
    /// record itself starts with the default geometry.
    pub fn create_window(&mut self, title: &str, width: u32, height: u32) -> (r: WindowId)
        requires
            old(self).windows@.len() < usize::MAX,
        ensures
            r.0 == old(self).windows@.len() + 1,
            r.0 >= 1,
            final(self).windows@.len() == r.0,
            final(self).windows@.subrange(0, old(self).windows@.len() as int) == old(
                self,
            ).windows@,
            final(self).windows@.last().window_id == r,
            final(self).windows@.last().title@ == "mix Window"@,
            final(self).windows@.last().inner_size == (crate::platform::math::Vec2 {
                x: 800,
                y: 600,
            }),
            final(self).windows@.last().dpi_factor == 1000,
            final(self).passes == old(self).passes,
            final(self).draw_lists == old(self).draw_lists,
            final(self).textures == old(self).textures,
            final(self).geometries == old(self).geometries,
            final(self).shaders == old(self).shaders,
            final(self).areas == old(self).areas,
            final(self).gpu_info == old(self).gpu_info,
            final(self).debug == old(self).debug,
            old(self).wf() ==> final(self).wf(),
    {
        let _ = title;
        let _ = width;
        let _ = height;
        let window_id = WindowId(self.windows.len() + 1);
        let window_handle = WindowHandle::new(window_id);
        self.windows.push(window_handle);
        proof {
            assert(final(self).windows@.subrange(0, old(self).windows@.len() as int) == old(
                self,
            ).windows@);
        }
        window_id
    }

    /// Allocates the next pass id and inserts a default-valued pass
    /// record.
    pub fn create_pass(&mut self) -> (r: PassId)
        requires
            old(self).passes@.len() < usize::MAX,
        ensures
            r.0 == old(self).passes@.len() + 1,
            r.0 >= 1,
            final(self).passes@.len() == r.0,
            final(self).passes@.subrange(0, old(self).passes@.len() as int) == old(self).passes@,
            final(self).passes@.last().pass_id == r,
            final(self).passes@.last().parent == PassParent::NoParent,
            final(self).passes@.last().main_draw_list_id is None,
            final(self).passes@.last().clear_color is None,
            old(self).only_passes_changed(*final(self)),
            old(self).wf() ==> final(self).wf(),
    {
        let pass_id = PassId(self.passes.len() + 1);
        let pass = Pass::new(pass_id);
        self.passes.push(pass);
        proof {
            assert(final(self).passes@.subrange(0, old(self).passes@.len() as int) == old(
                self,
            ).passes@);
        }
        pass_id
    }

    /// Allocates the next draw-list id and inserts an empty draw list
    /// with the identity transform.
    pub fn create_draw_list(&mut self) -> (r: DrawListId)
        requires
            old(self).draw_lists@.len() < usize::MAX,
        ensures
            r.0 == old(self).draw_lists@.len() + 1,
            r.0 >= 1,
            final(self).draw_lists@.len() == r.0,
            final(self).draw_lists@.subrange(0, old(self).draw_lists@.len() as int) == old(
                self,
            ).draw_lists@,
            final(self).draw_lists@.last().draw_list_id == r,
            final(self).draw_lists@.last().draw_items@.len() == 0,
            final(self).draw_lists@.last().view_transform.is_identity(),
            old(self).only_draw_lists_changed(*final(self)),
            old(self).wf() ==> final(self).wf(),
    {
        let draw_list_id = DrawListId(self.draw_lists.len() + 1);
        let draw_list = DrawList::new(draw_list_id);
        self.draw_lists.push(draw_list);
        proof {
            assert(final(self).draw_lists@.subrange(0, old(self).draw_lists@.len() as int) == old(
                self,
            ).draw_lists@);
        }
        draw_list_id
    }

    /// Allocates the next texture id, inserts the record, and returns a
    /// copy of it.
    pub fn create_texture(&mut self, width: usize, height: usize, format: TextureFormat) -> (r:
        Texture)
        requires
            old(self).textures@.len() < usize::MAX,
        ensures
            r.texture_id.0 == old(self).textures@.len() + 1,
            r.texture_id.0 >= 1,
            r.width == width,
            r.height == height,
            r.format == format,
            final(self).textures@.len() == r.texture_id.0,
            final(self).textures@.subrange(0, old(self).textures@.len() as int) == old(
                self,
            ).textures@,
            final(self).textures@.last() == r,
            final(self).windows == old(self).windows,
            final(self).passes == old(self).passes,
            final(self).draw_lists == old(self).draw_lists,
            final(self).geometries == old(self).geometries,
            final(self).shaders == old(self).shaders,
            final(self).areas == old(self).areas,
            final(self).gpu_info == old(self).gpu_info,
            final(self).debug == old(self).debug,
            old(self).wf() ==> final(self).wf(),
    {
        let texture_id = TextureId(self.textures.len() + 1);
        let texture = Texture::new(texture_id, width, height, format);
        self.textures.push(texture);
        proof {
            assert(final(self).textures@.subrange(0, old(self).textures@.len() as int) == old(
                self,
            ).textures@);
            assert(final(self).textures@.last() == texture);
        }
        texture
    }

    /// Allocates the next geometry id and inserts an empty geometry
    /// record.
    pub fn create_geometry(&mut self) -> (r: GeometryId)
        requires
            old(self).geometries@.len() < usize::MAX,
        ensures
            r.0 == old(self).geometries@.len() + 1,
            r.0 >= 1,
            final(self).geometries@.len() == r.0,
            final(self).geometries@.subrange(0, old(self).geometries@.len() as int) == old(
                self,
            ).geometries@,
            final(self).geometries@.last().geometry_id == r,
            final(self).geometries@.last().vertices@.len() == 0,
            final(self).geometries@.last().indices@.len() == 0,
            final(self).geometries@.last().vertex_attributes@.len() == 0,
            final(self).windows == old(self).windows,
            final(self).passes == old(self).passes,
            final(self).draw_lists == old(self).draw_lists,
            final(self).textures == old(self).textures,
            final(self).shaders == old(self).shaders,
            final(self).areas == old(self).areas,
            final(self).gpu_info == old(self).gpu_info,
            final(self).debug == old(self).debug,
            old(self).wf() ==> final(self).wf(),
    {
        let geometry_id = GeometryId(self.geometries.len() + 1);
        let geometry = Geometry::new(geometry_id);
        self.geometries.push(geometry);
        proof {
            assert(final(self).geometries@.subrange(0, old(self).geometries@.len() as int) == old(
                self,
            ).geometries@);
        }
        geometry_id
    }

    /// Allocates the next shader id and inserts an empty shader record.
    pub fn create_shader(&mut self) -> (r: ShaderId)
        requires
            old(self).shaders@.len() < usize::MAX,
        ensures
            r.0 == old(self).shaders@.len() + 1,
            r.0 >= 1,
            final(self).shaders@.len() == r.0,
            final(self).shaders@.subrange(0, old(self).shaders@.len() as int) == old(
                self,
            ).shaders@,
            final(self).shaders@.last().shader_id == r,
            final(self).shaders@.last().vertex_shader@.len() == 0,
            final(self).shaders@.last().fragment_shader@.len() == 0,
            final(self).shaders@.last().uniforms@.len() == 0,
            final(self).windows == old(self).windows,
            final(self).passes == old(self).passes,
            final(self).draw_lists == old(self).draw_lists,
            final(self).textures == old(self).textures,
            final(self).geometries == old(self).geometries,
            final(self).areas == old(self).areas,
            final(self).gpu_info == old(self).gpu_info,
            final(self).debug == old(self).debug,
            old(self).wf() ==> final(self).wf(),
    {
        let shader_id = ShaderId(self.shaders.len() + 1);
        let shader = Shader::new(shader_id);
        self.shaders.push(shader);
        proof {
            assert(final(self).shaders@.subrange(0, old(self).shaders@.len() as int) == old(
                self,
            ).shaders@);
        }
        shader_id
    }

    /// Allocates the next area handle and inserts a zero-initialized
    /// hit-test record.
    pub fn create_area(&mut self) -> (r: Area)
        requires
            old(self).areas@.len() < usize::MAX,
        ensures
            r.0 == old(self).areas@.len() + 1,
            r.0 >= 1,
            final(self).areas@.len() == r.0,
            final(self).areas@.subrange(0, old(self).areas@.len() as int) == old(self).areas@,
            final(self).areas@.last().rect == Rect::spec_zero(),
            final(self).areas@.last().draw_list_id is None,
            old(self).only_areas_changed(*final(self)),
            old(self).wf() ==> final(self).wf(),
    {
        let area = Area(self.areas.len() + 1);
        let area_data = AreaData { rect: Rect::zero(), draw_list_id: None };
        self.areas.push(area_data);
        proof {
            assert(final(self).areas@.subrange(0, old(self).areas@.len() as int) == old(
                self,
            ).areas@);
        }
        area
    }

    /// Looks a pass up by id; an unknown id yields nothing.
    pub fn pass(&self, pass_id: PassId) -> (r: Option<&Pass>)
        ensures
            match r {
                Some(p) => self.spec_pass(pass_id) == Some(*p),
                None => self.spec_pass(pass_id) is None,
            },
    {
        if 1 <= pass_id.0 && pass_id.0 <= self.passes.len() {
            Some(&self.passes[pass_id.0 - 1])
        } else {
            None
        }
    }

    /// Looks a draw list up by id; an unknown id yields nothing.
    pub fn draw_list(&self, draw_list_id: DrawListId) -> (r: Option<&DrawList>)
        ensures
            match r {
                Some(l) => self.spec_draw_list(draw_list_id) == Some(*l),
                None => self.spec_draw_list(draw_list_id) is None,
            },
    {
        if 1 <= draw_list_id.0 && draw_list_id.0 <= self.draw_lists.len() {
            Some(&self.draw_lists[draw_list_id.0 - 1])
        } else {
            None
        }
    }

    /// Looks a hit-test record up by handle; an unknown handle yields
    /// nothing.
    pub fn area_data(&self, area: Area) -> (r: Option<&AreaData>)
        ensures
            match r {
                Some(d) => self.spec_area(area) == Some(*d),
                None => self.spec_area(area) is None,
            },
    {
        if 1 <= area.0 && area.0 <= self.areas.len() {
            Some(&self.areas[area.0 - 1])
        } else {
            None
        }
    }

    /// Sets an area's rectangle; a no-op on an unknown handle.
    pub fn set_area_rect(&mut self, area: Area, x: i64, y: i64, width: i64, height: i64)
        ensures
            old(self).only_areas_changed(*final(self)),
            match old(self).spec_area(area) {
                Some(d) => final(self).areas@ == old(self).areas@.update(
                    area.0 - 1,
                    AreaData {
                        rect: Rect {
                            pos: crate::platform::math::Vec2 { x, y },
                            size: crate::platform::math::Vec2 { x: width, y: height },
                        },
                        draw_list_id: d.draw_list_id,
                    },
                ),
                None => final(self).areas == old(self).areas,
            },
    {
        if 1 <= area.0 && area.0 <= self.areas.len() {
            let idx = area.0 - 1;
            let draw_list_id = self.areas[idx].draw_list_id;
            self.areas.set(idx, AreaData { rect: Rect::new(x, y, width, height), draw_list_id });
        }
    }

    /// Sets the draw list an area belongs to; a no-op on an unknown
    /// handle.
    pub fn set_area_draw_list(&mut self, area: Area, draw_list_id: DrawListId)
        ensures
            old(self).only_areas_changed(*final(self)),
            match old(self).spec_area(area) {
                Some(d) => final(self).areas@ == old(self).areas@.update(
                    area.0 - 1,
                    AreaData { rect: d.rect, draw_list_id: Some(draw_list_id) },
                ),
                None => final(self).areas == old(self).areas,
            },
    {
        if 1 <= area.0 && area.0 <= self.areas.len() {
            let idx = area.0 - 1;
            let rect = self.areas[idx].rect;
            self.areas.set(idx, AreaData { rect, draw_list_id: Some(draw_list_id) });
        }
    }

    /// Points a pass at the window it renders into; a no-op on an unknown
    /// pass id.
    pub fn set_pass_window_parent(&mut self, pass_id: PassId, window_id: WindowId)
        ensures
            old(self).only_passes_changed(*final(self)),
            match old(self).spec_pass(pass_id) {
                Some(p) => final(self).passes@ == old(self).passes@.update(
                    pass_id.0 - 1,
                    Pass { parent: PassParent::Window(window_id), ..p },
                ),
                None => final(self).passes == old(self).passes,
            },
    {
        if 1 <= pass_id.0 && pass_id.0 <= self.passes.len() {
            let idx = pass_id.0 - 1;
            let p = &mut self.passes[idx];
            p.set_window_parent(window_id);
            proof {
                assert(final(self).passes@ == old(self).passes@.update(
                    pass_id.0 - 1,
                    Pass { parent: PassParent::Window(window_id), ..old(self).passes@[pass_id.0 - 1] },
                ));
            }
        }
    }

    /// Sets a pass's clear color; a no-op on an unknown pass id.
    pub fn set_pass_clear_color(&mut self, pass_id: PassId, clear_color: PassClearColor)
        ensures
            old(self).only_passes_changed(*final(self)),
            match old(self).spec_pass(pass_id) {
                Some(p) => final(self).passes@ == old(self).passes@.update(
                    pass_id.0 - 1,
                    Pass { clear_color: Some(clear_color), ..p },
                ),
                None => final(self).passes == old(self).passes,
            },
    {
        if 1 <= pass_id.0 && pass_id.0 <= self.passes.len() {
            let idx = pass_id.0 - 1;
            let p = &mut self.passes[idx];
            p.set_clear_color(clear_color);
            proof {
                assert(final(self).passes@ == old(self).passes@.update(
                    pass_id.0 - 1,
                    Pass { clear_color: Some(clear_color), ..old(self).passes@[pass_id.0 - 1] },
                ));
            }
        }
    }

    /// Points a pass at its main draw list; a no-op on an unknown pass
    /// id.
    pub fn set_pass_main_draw_list(&mut self, pass_id: PassId, draw_list_id: DrawListId)
        ensures
            old(self).only_passes_changed(*final(self)),
            match old(self).spec_pass(pass_id) {
                Some(p) => final(self).passes@ == old(self).passes@.update(
                    pass_id.0 - 1,
                    Pass { main_draw_list_id: Some(draw_list_id), ..p },
                ),
                None => final(self).passes == old(self).passes,
            },
    {
        if 1 <= pass_id.0 && pass_id.0 <= self.passes.len() {
            let idx = pass_id.0 - 1;
            let p = &mut self.passes[idx];
            p.set_main_draw_list(draw_list_id);
            proof {
                assert(final(self).passes@ == old(self).passes@.update(
                    pass_id.0 - 1,
                    Pass {
                        main_draw_list_id: Some(draw_list_id),
                        ..old(self).passes@[pass_id.0 - 1]
                    },
                ));
            }
        }
    }

    /// Empties a draw list's item sequence, keeping its id and transform,
    /// and reports whether the list exists.
    pub fn clear_draw_list(&mut self, draw_list_id: DrawListId) -> (found: bool)
        ensures
            old(self).only_draw_lists_changed(*final(self)),
            found == (old(self).spec_draw_list(draw_list_id) is Some),
            match old(self).spec_draw_list(draw_list_id) {
                Some(l) => {
                    &&& final(self).draw_lists@.len() == old(self).draw_lists@.len()
                    &&& final(self).draw_lists@ == old(self).draw_lists@.update(
                        draw_list_id.0 - 1,
                        final(self).draw_lists@[draw_list_id.0 - 1],
                    )
                    &&& final(self).draw_lists@[draw_list_id.0 - 1].draw_list_id == l.draw_list_id
                    &&& final(self).draw_lists@[draw_list_id.0 - 1].view_transform
                        == l.view_transform
                    &&& final(self).draw_lists@[draw_list_id.0 - 1].draw_items@.len() == 0
                },
                None => final(self).draw_lists == old(self).draw_lists,
            },
    {
        if 1 <= draw_list_id.0 && draw_list_id.0 <= self.draw_lists.len() {
            let idx = draw_list_id.0 - 1;
            let l = &mut self.draw_lists[idx];
            l.clear();
            true
        } else {
            false
        }
    }

    /// Appends one item to a draw list; a no-op on an unknown id.
    pub fn add_draw_item(&mut self, draw_list_id: DrawListId, draw_item: DrawItem)
        ensures
            old(self).only_draw_lists_changed(*final(self)),
            match old(self).spec_draw_list(draw_list_id) {
                Some(l) => final(self).draw_lists@ == old(self).draw_lists@.update(
                    draw_list_id.0 - 1,
                    DrawList {
                        draw_list_id: l.draw_list_id,
                        draw_items: final(self).draw_lists@[draw_list_id.0 - 1].draw_items,
                        view_transform: l.view_transform,
                    },
                ) && final(self).draw_lists@[draw_list_id.0 - 1].draw_items@ == l.draw_items@.push(
                    draw_item,
                ),
                None => final(self).draw_lists == old(self).draw_lists,
            },
    {
        if 1 <= draw_list_id.0 && draw_list_id.0 <= self.draw_lists.len() {
            let idx = draw_list_id.0 - 1;
            let l = &mut self.draw_lists[idx];
            l.add_draw_item(draw_item);
        }
    }

    /// Stores a draw list's view transform; a no-op on an unknown id.
    pub fn set_view_transform(&mut self, draw_list_id: DrawListId, view_transform: Mat4)
        ensures
            old(self).only_draw_lists_changed(*final(self)),
            match old(self).spec_draw_list(draw_list_id) {
                Some(l) => final(self).draw_lists@ == old(self).draw_lists@.update(
                    draw_list_id.0 - 1,
                    DrawList {
                        draw_list_id: l.draw_list_id,
                        draw_items: l.draw_items,
                        view_transform: final(self).draw_lists@[draw_list_id.0
                            - 1].view_transform,
                    },
                ) && final(self).draw_lists@[draw_list_id.0 - 1].view_transform == view_transform,
                None => final(self).draw_lists == old(self).draw_lists,
            },
    {
        if 1 <= draw_list_id.0 && draw_list_id.0 <= self.draw_lists.len() {
            let idx = draw_list_id.0 - 1;
            let l = &mut self.draw_lists[idx];
            l.set_view_transform(view_transform);
        }
    }

    /// Replaces a shader record wholesale; a no-op on an unknown id.
    pub fn set_shader(&mut self, shader_id: ShaderId, shader: Shader)
        ensures
            final(self).windows == old(self).windows,
            final(self).passes == old(self).passes,
            final(self).draw_lists == old(self).draw_lists,
            final(self).textures == old(self).textures,
            final(self).geometries == old(self).geometries,
            final(self).areas == old(self).areas,
            final(self).gpu_info == old(self).gpu_info,
            final(self).debug == old(self).debug,
            if 1 <= shader_id.0 <= old(self).shaders@.len() {
                final(self).shaders@ == old(self).shaders@.update(shader_id.0 - 1, shader)
            } else {
                final(self).shaders == old(self).shaders
            },
            old(self).wf() && shader.shader_id == shader_id ==> final(self).wf(),
    {
        if 1 <= shader_id.0 && shader_id.0 <= self.shaders.len() {
            let idx = shader_id.0 - 1;
            self.shaders.set(idx, shader);
        }
    }

    /// Replaces a geometry record wholesale; a no-op on an unknown id.
    pub fn set_geometry(&mut self, geometry_id: GeometryId, geometry: Geometry)
        ensures
            final(self).windows == old(self).windows,
            final(self).passes == old(self).passes,
            final(self).draw_lists == old(self).draw_lists,
            final(self).textures == old(self).textures,
            final(self).shaders == old(self).shaders,
            final(self).areas == old(self).areas,
            final(self).gpu_info == old(self).gpu_info,
            final(self).debug == old(self).debug,
            if 1 <= geometry_id.0 <= old(self).geometries@.len() {
                final(self).geometries@ == old(self).geometries@.update(geometry_id.0 - 1, geometry)
            } else {
                final(self).geometries == old(self).geometries
            },
            old(self).wf() && geometry.geometry_id == geometry_id ==> final(self).wf(),
    {
        if 1 <= geometry_id.0 && geometry_id.0 <= self.geometries.len() {
            let idx = geometry_id.0 - 1;
            self.geometries.set(idx, geometry);
        }
    }
}

/// Ids already assigned by a well-formed arena are nonzero and strictly
/// increase with their position in the table: successive `create` calls
/// hand out fresh, strictly larger ids, and never 0.
pub proof fn lemma_arena_ids_monotonic(cx: Cx)
    requires
        cx.wf(),
    ensures
        forall|i: int, j: int|
            0 <= i < j < cx.passes@.len() ==> (#[trigger] cx.passes@[i]).pass_id.0 < (
            #[trigger] cx.passes@[j]).pass_id.0,
        forall|i: int| 0 <= i < cx.passes@.len() ==> (#[trigger] cx.passes@[i]).pass_id.0 != 0,
        forall|i: int, j: int|
            0 <= i < j < cx.windows@.len() ==> (#[trigger] cx.windows@[i]).window_id.0 < (
            #[trigger] cx.windows@[j]).window_id.0,
        forall|i: int| 0 <= i < cx.windows@.len() ==> (#[trigger] cx.windows@[i]).window_id.0 != 0,
        forall|i: int, j: int|
            0 <= i < j < cx.draw_lists@.len() ==> (#[trigger] cx.draw_lists@[i]).draw_list_id.0 < (
            #[trigger] cx.draw_lists@[j]).draw_list_id.0,
        forall|i: int|
            0 <= i < cx.draw_lists@.len() ==> (#[trigger] cx.draw_lists@[i]).draw_list_id.0 != 0,
        forall|i: int, j: int|
            0 <= i < j < cx.textures@.len() ==> (#[trigger] cx.textures@[i]).texture_id.0 < (
            #[trigger] cx.textures@[j]).texture_id.0,
        forall|i: int|
            0 <= i < cx.textures@.len() ==> (#[trigger] cx.textures@[i]).texture_id.0 != 0,
        forall|i: int, j: int|
            0 <= i < j < cx.geometries@.len() ==> (#[trigger] cx.geometries@[i]).geometry_id.0 < (
            #[trigger] cx.geometries@[j]).geometry_id.0,
        forall|i: int|
            0 <= i < cx.geometries@.len() ==> (#[trigger] cx.geometries@[i]).geometry_id.0 != 0,
        forall|i: int, j: int|
            0 <= i < j < cx.shaders@.len() ==> (#[trigger] cx.shaders@[i]).shader_id.0 < (
            #[trigger] cx.shaders@[j]).shader_id.0,
        forall|i: int| 0 <= i < cx.shaders@.len() ==> (#[trigger] cx.shaders@[i]).shader_id.0 != 0,
{
}

/// What one tick of the frame loop must do with a batch of polled events:
/// how many to dispatch in order, whether a shutdown ends the loop after
/// that dispatch, and whether a resize forces an extra draw pass.
#[derive(Clone, Copy, Debug, PartialEq, Eq, Structural)]
pub struct FramePlan {
    pub dispatch_count: usize,
    pub shutdown: bool,
    pub needs_redraw: bool,
}

/// The plan for a batch of events: every event up to and including the
/// first `Shutdown` is dispatched, a `Shutdown` ends the loop, and any
/// dispatched `WindowResize` forces an extra draw pass.
pub open spec fn spec_plan(events: Seq<Event>) -> FramePlan
    decreases events.len(),
{
    if events.len() == 0 {
        FramePlan { dispatch_count: 0, shutdown: false, needs_redraw: false }
    } else {
        let prev = spec_plan(events.drop_last());
        if prev.shutdown {
            prev
        } else {
            match events.last() {
                Event::Shutdown => FramePlan {
                    dispatch_count: (prev.dispatch_count + 1) as usize,
                    shutdown: true,
                    needs_redraw: prev.needs_redraw,
                },
                Event::WindowResize { .. } => FramePlan {
                    dispatch_count: (prev.dispatch_count + 1) as usize,
                    shutdown: false,
                    needs_redraw: true,
                },
                _ => FramePlan {
                    dispatch_count: (prev.dispatch_count + 1) as usize,
                    shutdown: false,
                    needs_redraw: prev.needs_redraw,
                },
            }
        }
    }
}

/// Bounds on a plan: no more events are dispatched than exist, and
/// without a shutdown every event is dispatched.
pub proof fn lemma_plan_bounds(events: Seq<Event>)
    requires
        events.len() <= usize::MAX,
    ensures
        spec_plan(events).dispatch_count <= events.len(),
        !spec_plan(events).shutdown ==> spec_plan(events).dispatch_count == events.len(),
    decreases events.len(),
{
    if events.len() > 0 {
        lemma_plan_bounds(events.drop_last());
    }
}

/// What a plan's flags mean over the batch: a shutdown is planned exactly
/// when a `Shutdown` event stands among the dispatched prefix, only the
/// last dispatched event can be one, and an extra draw is forced exactly
/// when a `WindowResize` stands among that prefix.
pub proof fn lemma_plan_characterization(events: Seq<Event>)
    requires
        events.len() <= usize::MAX,
    ensures
        spec_plan(events).shutdown == exists|i: int|
            0 <= i < spec_plan(events).dispatch_count && events[i] is Shutdown,
        forall|i: int|
            0 <= i < spec_plan(events).dispatch_count && events[i] is Shutdown ==> i + 1
                == spec_plan(events).dispatch_count,
        spec_plan(events).needs_redraw == exists|i: int|
            0 <= i < spec_plan(events).dispatch_count && events[i] is WindowResize,
    decreases events.len(),
{
    lemma_plan_bounds(events);
    if events.len() > 0 {
        let prev = spec_plan(events.drop_last());
        let plan = spec_plan(events);
        lemma_plan_bounds(events.drop_last());
        lemma_plan_characterization(events.drop_last());
        assert(forall|i: int|
            0 <= i < events.len() - 1 ==> #[trigger] events[i] == events.drop_last()[i]);
        // A planned shutdown has a witness among the dispatched prefix.
        if plan.shutdown {
            if prev.shutdown {
                let i = choose|i: int|
                    0 <= i < prev.dispatch_count && events.drop_last()[i] is Shutdown;
                assert(events[i] is Shutdown);
            } else {
                assert(events[plan.dispatch_count - 1] is Shutdown);
            }
        }
        // Without a planned shutdown the dispatched prefix holds none.
        if !plan.shutdown {
            assert forall|i: int|
                0 <= i < plan.dispatch_count implies !(#[trigger] events[i] is Shutdown) by {
                if i < events.len() - 1 {
                    assert(events[i] == events.drop_last()[i]);
                    if events.drop_last()[i] is Shutdown {
                        assert(0 <= i < prev.dispatch_count && events.drop_last()[i] is Shutdown);
                        assert(prev.shutdown);
                    }
                }
            }
        }
        // Only the last dispatched event can be a shutdown.
        assert forall|i: int|
            0 <= i < plan.dispatch_count && (#[trigger] events[i] is Shutdown) implies i + 1
            == plan.dispatch_count by {
            if prev.shutdown {
                assert(events[i] == events.drop_last()[i]);
            } else {
                if i < plan.dispatch_count - 1 {
                    assert(events[i] == events.drop_last()[i]);
                    assert(0 <= i < prev.dispatch_count && events.drop_last()[i] is Shutdown);
                    assert(prev.shutdown);
                }
            }
        }
        // A forced redraw has a resize witness among the dispatched prefix.
        if plan.needs_redraw {
            if prev.needs_redraw {
                let i = choose|i: int|
                    0 <= i < prev.dispatch_count && events.drop_last()[i] is WindowResize;
                assert(events[i] is WindowResize);
            } else {
                assert(events[plan.dispatch_count - 1] is WindowResize);
            }
        }
        // Without a forced redraw the dispatched prefix holds no resize.
        if !plan.needs_redraw {
            assert forall|i: int|
                0 <= i < plan.dispatch_count implies !(#[trigger] events[i] is WindowResize) by {
                if i < events.len() - 1 {
                    assert(events[i] == events.drop_last()[i]);
                    if events.drop_last()[i] is WindowResize {
                        assert(0 <= i < prev.dispatch_count && events.drop_last()[i]
                            is WindowResize);
                        assert(prev.needs_redraw);
                    }
                }
            }
        }
    }
}

/// Decides what one tick of the frame loop does with a polled batch of
/// events.  The embedding loop dispatches the first `dispatch_count`
/// events in order, stops for good if `shutdown` holds, and otherwise
/// draws once more first if `needs_redraw` holds.
pub fn plan_frame(events: &Vec<Event>) -> (r: FramePlan)
    ensures
        r == spec_plan(events@),
{
    let mut plan = FramePlan { dispatch_count: 0, shutdown: false, needs_redraw: false };
    let n = events.len();
    let mut i: usize = 0;
    while i < n
        invariant
            i <= n == events@.len(),
            plan == spec_plan(events@.subrange(0, i as int)),
            plan.dispatch_count <= i,
        decreases n - i,
    {
        proof {
            assert(events@.subrange(0, i + 1).drop_last() == events@.subrange(0, i as int));
            assert(events@.subrange(0, i + 1).last() == events@[i as int]);
            lemma_plan_bounds(events@.subrange(0, i as int));
        }
        if !plan.shutdown {
            match &events[i] {
                Event::Shutdown => {
                    plan.dispatch_count += 1;
                    plan.shutdown = true;
                },
                Event::WindowResize { .. } => {
                    plan.dispatch_count += 1;
                    plan.needs_redraw = true;
                },
                _ => {
                    plan.dispatch_count += 1;
                },
            }
        }
        i += 1;
    }
    proof {
        assert(events@.subrange(0, n as int) == events@);
    }
    plan
}

} // verus!
