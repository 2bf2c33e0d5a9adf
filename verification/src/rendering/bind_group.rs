//! Bind-group assembly: the declared layout of resource bindings (which
//! slot binds what kind of resource, visible to which shader stage), and
//! the materialized set that binds concrete resources to such a layout.

use vstd::prelude::*;

use crate::rendering::canvas::Canvas;

verus! {

/// The shader stages a binding is visible to.
#[derive(Clone, Copy, PartialEq, Eq, Debug)]
pub enum ShaderStages {
    Vertex,
    Fragment,
    VertexFragment,
}

/// The kind of resource a slot binds.
#[derive(Clone, Copy, PartialEq, Eq, Debug)]
pub enum BindingType {
    Buffer,
    Texture,
    Sampler,
}

/// One declared binding: slot index, visibility, and resource kind.
#[derive(Clone, Copy, PartialEq, Eq, Debug)]
pub struct BindGroupLayoutEntry {
    pub binding: u32,
    pub visibility: ShaderStages,
    pub ty: BindingType,
    pub count: Option<u32>,
}

/// Builds one declared binding.
pub struct LayoutEntry {}

impl LayoutEntry {
    pub fn new(binding: u32, visibility: ShaderStages, ty: BindingType) -> (r: BindGroupLayoutEntry)
        ensures
            r == (BindGroupLayoutEntry { binding, visibility, ty, count: None }),
    {
        BindGroupLayoutEntry { binding, visibility, ty, count: None }
    }
}

/// A concrete resource handed to a slot.  Texture views and samplers are
/// driver-side objects; the engine refers to them by handle.
#[derive(Clone, Copy, PartialEq, Eq, Debug)]
pub enum BindingResource {
    Buffer { size: usize },
    TextureView(u64),
    Sampler(u64),
}

/// Whether a concrete resource is of the kind a slot declares.
pub open spec fn resource_matches(ty: BindingType, r: BindingResource) -> bool {
    match ty {
        BindingType::Buffer => r is Buffer,
        BindingType::Texture => r is TextureView,
        BindingType::Sampler => r is Sampler,
    }
}

/// One materialized binding: slot index and the resource bound to it.
#[derive(Clone, Copy, PartialEq, Eq, Debug)]
pub struct BindGroupEntry {
    pub binding: u32,
    pub resource: BindingResource,
}

/// Builds one materialized binding.
pub struct GroupEntry {}

impl GroupEntry {
    /// Binds a buffer in its entirety to a slot.
    pub fn new(binding: u32, buffer: &crate::rendering::buffer::Buffer) -> (r: BindGroupEntry)
        ensures
            r == (BindGroupEntry {
                binding,
                resource: BindingResource::Buffer { size: buffer.contents.len() },
            }),
    {
        BindGroupEntry {
            binding,
            resource: BindingResource::Buffer { size: buffer.contents.len() },
        }
    }

    /// Binds an arbitrary resource to a slot.
    pub fn new_binding_resource(binding: u32, resource: BindingResource) -> (r: BindGroupEntry)
        ensures
            r == (BindGroupEntry { binding, resource }),
    {
        BindGroupEntry { binding, resource }
    }
}

/// A declared binding layout: the ordered list of declared slots.
#[derive(PartialEq, Eq, Debug)]
pub struct BindGroupLayout {
    pub entries: Vec<BindGroupLayoutEntry>,
    pub label: Option<&'static str>,
}

impl Clone for BindGroupLayout {
    fn clone(&self) -> (r: Self)
        ensures
            r.entries@ == self.entries@,
            r.label == self.label,
    {
        let mut entries: Vec<BindGroupLayoutEntry> = Vec::new();
        let mut i: usize = 0;
        while i < self.entries.len()
            invariant
                i <= self.entries.len(),
                entries@ == self.entries@.take(i as int),
            decreases self.entries.len() - i,
        {
            entries.push(self.entries[i]);
            proof {
                assert(self.entries@.take(i as int + 1) =~= self.entries@.take(i as int).push(
                    self.entries@[i as int],
                ));
            }
            i = i + 1;
        }
        proof {
            assert(self.entries@.take(self.entries@.len() as int) =~= self.entries@);
        }
        BindGroupLayout { entries, label: self.label }
    }
}

/// A materialized binding set: the layout it was made for and the resource
/// bound to each declared slot.
#[derive(PartialEq, Eq, Debug)]
pub struct BindGroup {
    pub layout: BindGroupLayout,
    pub entries: Vec<BindGroupEntry>,
    pub label: Option<&'static str>,
}

/// Whether some materialized entry binds `slot` with a resource of kind `ty`.
pub open spec fn slot_bound(entries: Seq<BindGroupEntry>, slot: u32, ty: BindingType) -> bool {
    exists|i: int|
        0 <= i < entries.len() && entries[i].binding == slot && resource_matches(
            ty,
            entries[i].resource,
        )
}

/// Every declared slot is materialized with a resource of its declared
/// kind.  Omission of a declared slot is a usage error.
pub open spec fn covers(
    layout_entries: Seq<BindGroupLayoutEntry>,
    entries: Seq<BindGroupEntry>,
) -> bool {
    forall|i: int|
        0 <= i < layout_entries.len() ==> slot_bound(
            entries,
            #[trigger] layout_entries[i].binding,
            layout_entries[i].ty,
        )
}

/// Builds a layout and, on request, a binding set materializing it.
pub struct BindGroupBuilder {}

impl BindGroupBuilder {
    /// Declares a layout from `layout_entries` and, when `group` is set,
    /// materializes `group_entries` against it.  A layout may be declared
    /// without ever being materialized; materializing demands that every
    /// declared slot is bound with a resource of the declared kind.
    pub fn new(
        canvas: &Canvas,
        layout_entries: Vec<BindGroupLayoutEntry>,
        group_entries: Vec<BindGroupEntry>,
        label: Option<&'static str>,
        group: bool,
    ) -> (r: (BindGroupLayout, Option<BindGroup>))
        requires
            group ==> covers(layout_entries@, group_entries@),
        ensures
            r.0.entries@ == layout_entries@,
            r.0.label == label,
            !group ==> r.1 is None,
            group ==> (r.1 matches Some(g) && g.layout.entries@ == layout_entries@
                && g.entries@ == group_entries@ && g.label == label && covers(
                g.layout.entries@,
                g.entries@,
            )),
    {
        let _ = canvas;
        let group_layout = BindGroupLayout { entries: layout_entries, label };

        if !group {
            return (group_layout, None);
        }

        let made = BindGroup { layout: group_layout.clone(), entries: group_entries, label };

        (group_layout, Some(made))
    }
}

} // verus!
