use vstd::prelude::*;
use crate::bind_group::{
    bind_group_for, fills, BindGroupEntry, BindGroupLayoutEntry, BindingResource, BindingType,
    ShaderStages,
};

verus! {

/// The layout of the light's bind group.
pub open spec fn light_bind_group_layout() -> Seq<BindGroupLayoutEntry> {
    seq![
        BindGroupLayoutEntry {
            binding: 0,
            visibility: ShaderStages { vertex: true, fragment: true },
            ty: BindingType::UniformBuffer,
        },
    ]
}

/// The layout of the light's bind group: position and color as one uniform
/// buffer in slot 0, seen by the vertex stage, which places the marker, and
/// by the fragment stage, which shades with it. Every call gives the same
/// layout.
pub fn create_light_bind_group_layout() -> (entries: Vec<BindGroupLayoutEntry>)
    ensures
        entries@ == light_bind_group_layout(),
{
    let mut entries: Vec<BindGroupLayoutEntry> = Vec::new();
    entries.push(
        BindGroupLayoutEntry {
            binding: 0,
            visibility: ShaderStages { vertex: true, fragment: true },
            ty: BindingType::UniformBuffer,
        },
    );
    assert(entries@ =~= light_bind_group_layout());
    entries
}

/// The light's bind group: the uniform buffer in slot 0, filling the light
/// bind group layout.
pub fn create_light_bind_group() -> (entries: Vec<BindGroupEntry>)
    ensures
        entries@ == seq![BindGroupEntry { binding: 0, resource: BindingResource::Buffer }],
        fills(entries@, light_bind_group_layout()),
{
    let layout = create_light_bind_group_layout();
    let entries = bind_group_for(&layout);
    assert(entries@[0] == (BindGroupEntry { binding: 0, resource: BindingResource::Buffer }));
    assert(entries@ =~= seq![BindGroupEntry { binding: 0, resource: BindingResource::Buffer }]);
    entries
}

} // verus!
