//! Vertex buffer descriptions and the tagged list a render node keeps them in.

use smallvec::SmallVec;
use std::any::TypeId;
use vstd::prelude::*;

verus! {

/// How many vertex buffers a render node holds before its list moves to the
/// heap.
pub const VERTX_BUFFER_STACK_LIMIT: usize = 3;

#[verifier::external_type_specification]
#[verifier::external_body]
pub struct ExTypeId(TypeId);

#[verifier::external_type_specification]
#[verifier::external_body]
pub struct ExVertexAttribute(wgpu::VertexAttribute);

#[verifier::external_type_specification]
#[verifier::external_body]
pub struct ExVertexStepMode(wgpu::VertexStepMode);

/// The layout of one vertex buffer: the distance between two vertices, whether
/// the buffer advances per vertex or per instance, and the attributes of a
/// vertex.
#[derive(Debug, PartialEq, Eq)]
pub struct VertexBufferDescriptor {
    pub stride: u64,
    pub step_mode: wgpu::VertexStepMode,
    pub attributes: Vec<wgpu::VertexAttribute>,
}

/// A `VertexBufferDescriptor` as a mathematical value.
pub struct VertexBufferDescriptorView {
    pub stride: u64,
    pub step_mode: wgpu::VertexStepMode,
    pub attributes: Seq<wgpu::VertexAttribute>,
}

impl View for VertexBufferDescriptor {
    type V = VertexBufferDescriptorView;

    open spec fn view(&self) -> VertexBufferDescriptorView {
        VertexBufferDescriptorView {
            stride: self.stride,
            step_mode: self.step_mode,
            attributes: self.attributes@,
        }
    }
}

impl Clone for VertexBufferDescriptor {
    /// A copy with the same stride, step mode and attributes.
    fn clone(&self) -> (copy: VertexBufferDescriptor)
        ensures
            copy@ == self@,
    {
        let mut attributes: Vec<wgpu::VertexAttribute> = Vec::new();
        let mut i: usize = 0;
        while i < self.attributes.len()
            invariant
                i <= self.attributes.len(),
                attributes@ == self.attributes@.take(i as int),
            decreases self.attributes.len() - i,
        {
            attributes.push(self.attributes[i]);
            i = i + 1;
        }
        assert(attributes@ =~= self.attributes@);
        VertexBufferDescriptor { stride: self.stride, step_mode: self.step_mode, attributes }
    }
}

/// A type of vertex that knows the layout of the buffer it is stored in.
pub trait VertexBufferData: 'static {
    /// The layout of a buffer of such vertices, as a mathematical value. An
    /// impl that is verified says here what `get_descriptor` gives; one that
    /// is not leaves it open.
    open spec fn descriptor() -> VertexBufferDescriptorView {
        arbitrary()
    }

    /// The layout of a buffer of such vertices.
    fn get_descriptor() -> (descriptor: VertexBufferDescriptor)
        ensures
            descriptor@ == Self::descriptor(),
    ;
}

/// The vertex buffers of a render node in the order in which they were
/// added, each with the tag of its vertex type. A `smallvec::SmallVec` with
/// room for `VERTX_BUFFER_STACK_LIMIT` entries before it allocates.
#[verifier::external_body]
pub struct VertexBufferList {
    entries: SmallVec<[(TypeId, VertexBufferDescriptor); VERTX_BUFFER_STACK_LIMIT]>,
}

/// The entries of a list, oldest first.
pub uninterp spec fn vertex_buffer_entries(list: VertexBufferList) -> Seq<
    (TypeId, VertexBufferDescriptor),
>;

impl View for VertexBufferList {
    type V = Seq<(TypeId, VertexBufferDescriptorView)>;

    /// The tag and the layout of every entry, oldest first.
    open spec fn view(&self) -> Seq<(TypeId, VertexBufferDescriptorView)> {
        vertex_buffer_entries(*self).map_values(
            |entry: (TypeId, VertexBufferDescriptor)| (entry.0, entry.1@),
        )
    }
}

/// The layouts of tagged entries, in their order.
pub open spec fn layouts_of(entries: Seq<(TypeId, VertexBufferDescriptorView)>) -> Seq<
    VertexBufferDescriptorView,
> {
    entries.map_values(|entry: (TypeId, VertexBufferDescriptorView)| entry.1)
}

/// The views of descriptors, in their order.
pub open spec fn views_of(descriptors: Seq<VertexBufferDescriptor>) -> Seq<
    VertexBufferDescriptorView,
> {
    descriptors.map_values(|d: VertexBufferDescriptor| d@)
}

/// Calls `std::any::TypeId::of`. Nothing is claimed about the tag.
#[verifier::external_body]
pub(crate) fn type_tag<T: 'static>() -> (tag: TypeId) {
    TypeId::of::<T>()
}

impl VertexBufferList {
    /// Calls `SmallVec::new`, which makes an empty vector.
    #[verifier::external_body]
    pub(crate) fn new() -> (list: VertexBufferList)
        ensures
            vertex_buffer_entries(list) == Seq::<(TypeId, VertexBufferDescriptor)>::empty(),
    {
        VertexBufferList { entries: SmallVec::new() }
    }

    /// Calls `SmallVec::push`, which appends one item at the end.
    #[verifier::external_body]
    pub(crate) fn push(&mut self, tag: TypeId, descriptor: VertexBufferDescriptor)
        ensures
            vertex_buffer_entries(*final(self)) == vertex_buffer_entries(*old(self)).push(
                (tag, descriptor),
            ),
    {
        self.entries.push((tag, descriptor))
    }

    /// Calls `SmallVec::len`, the number of items.
    #[verifier::external_body]
    pub(crate) fn len(&self) -> (n: usize)
        ensures
            n == vertex_buffer_entries(*self).len(),
    {
        self.entries.len()
    }

    /// Indexes the `SmallVec`, which panics past the end: the index is
    /// required to be below the length.
    #[verifier::external_body]
    pub(crate) fn get(&self, index: usize) -> (entry: &(TypeId, VertexBufferDescriptor))
        requires
            index < vertex_buffer_entries(*self).len(),
        ensures
            *entry == vertex_buffer_entries(*self)[index as int],
    {
        &self.entries[index]
    }

    /// Copies of the layouts, oldest first.
    pub fn descriptors(&self) -> (layouts: Vec<VertexBufferDescriptor>)
        ensures
            views_of(layouts@) == layouts_of(self@),
    {
        let mut layouts: Vec<VertexBufferDescriptor> = Vec::new();
        let n = self.len();
        let mut i: usize = 0;
        while i < n
            invariant
                n == vertex_buffer_entries(*self).len(),
                i <= n,
                layouts@.len() == i,
                forall|k: int|
                    0 <= k < i ==> (#[trigger] layouts@[k])@ == vertex_buffer_entries(*self)[k].1@,
            decreases n - i,
        {
            let entry = self.get(i);
            layouts.push(entry.1.clone());
            i = i + 1;
        }
        assert(views_of(layouts@) =~= layouts_of(self@));
        layouts
    }

    /// The tags of the entries, oldest first.
    pub fn tags(&self) -> (tags: Vec<TypeId>)
        ensures
            tags@ == self@.map_values(|entry: (TypeId, VertexBufferDescriptorView)| entry.0),
    {
        let mut tags: Vec<TypeId> = Vec::new();
        let n = self.len();
        let mut i: usize = 0;
        while i < n
            invariant
                n == vertex_buffer_entries(*self).len(),
                i <= n,
                tags@.len() == i,
                forall|k: int| 0 <= k < i ==> #[trigger] tags@[k] == vertex_buffer_entries(*self)[k].0,
            decreases n - i,
        {
            let entry = self.get(i);
            tags.push(entry.0);
            i = i + 1;
        }
        assert(tags@ =~= self@.map_values(|entry: (TypeId, VertexBufferDescriptorView)| entry.0));
        tags
    }
}

} // verus!
