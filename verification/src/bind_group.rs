use vstd::prelude::*;

verus! {

/// The shader stages that see a binding.
#[derive(Clone, Copy, Debug, PartialEq, Eq, Structural)]
pub struct ShaderStages {
    pub vertex: bool,
    pub fragment: bool,
}

/// What a binding holds.
#[derive(Clone, Copy, Debug, PartialEq, Eq, Structural)]
pub enum BindingType {
    /// A uniform buffer bound whole, at a fixed offset.
    UniformBuffer,
    /// A two-dimensional, single-sampled texture of filterable floats.
    FilterableTexture2d,
    /// A sampler that may filter.
    FilteringSampler,
}

/// One slot of a bind group layout.
#[derive(Clone, Copy, Debug, PartialEq, Eq, Structural)]
pub struct BindGroupLayoutEntry {
    pub binding: u32,
    pub visibility: ShaderStages,
    pub ty: BindingType,
}

/// What is bound at a slot of a bind group.
#[derive(Clone, Copy, Debug, PartialEq, Eq, Structural)]
pub enum BindingResource {
    /// A buffer, bound whole.
    Buffer,
    /// The default view of a texture.
    TextureView,
    /// A sampler.
    Sampler,
}

/// One slot of a bind group.
#[derive(Clone, Copy, Debug, PartialEq, Eq, Structural)]
pub struct BindGroupEntry {
    pub binding: u32,
    pub resource: BindingResource,
}

/// The resource that a slot of the given type takes.
pub open spec fn resource_for(ty: BindingType) -> BindingResource {
    match ty {
        BindingType::UniformBuffer => BindingResource::Buffer,
        BindingType::FilterableTexture2d => BindingResource::TextureView,
        BindingType::FilteringSampler => BindingResource::Sampler,
    }
}

/// Whether a bind group fills a layout: slot by slot, the same binding and
/// the resource that the slot's type takes.
pub open spec fn fills(entries: Seq<BindGroupEntry>, layout: Seq<BindGroupLayoutEntry>) -> bool {
    &&& entries.len() == layout.len()
    &&& forall|i: int|
        0 <= i < layout.len() ==> (#[trigger] entries[i]) == (BindGroupEntry {
            binding: layout[i].binding,
            resource: resource_for(layout[i].ty),
        })
}

/// The bind group that fills a layout: for each slot of the layout, in
/// order, the resource that its type takes.
pub fn bind_group_for(layout: &Vec<BindGroupLayoutEntry>) -> (entries: Vec<BindGroupEntry>)
    ensures
        fills(entries@, layout@),
{
    let mut entries: Vec<BindGroupEntry> = Vec::new();
    let mut i: usize = 0;
    while i < layout.len()
        invariant
            i <= layout.len(),
            fills(entries@, layout@.take(i as int)),
        decreases layout.len() - i,
    {
        let resource = match layout[i].ty {
            BindingType::UniformBuffer => BindingResource::Buffer,
            BindingType::FilterableTexture2d => BindingResource::TextureView,
            BindingType::FilteringSampler => BindingResource::Sampler,
        };
        entries.push(BindGroupEntry { binding: layout[i].binding, resource });
        i += 1;
    }
    assert(layout@.take(i as int) =~= layout@);
    entries
}

} // verus!
