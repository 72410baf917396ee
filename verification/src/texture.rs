//! Typestate markers of the texture builder, and the binding slots that a
//! sampled texture exposes to the shaders.

use vstd::prelude::*;

verus! {

/// A built texture that has no sampler.
#[derive(Clone, Copy, Debug, PartialEq, Eq)]
pub struct NoSampler;

/// A texture builder that has not been given a sampler yet.
#[derive(Clone, Copy, Debug, PartialEq, Eq)]
pub struct BuilderNoSampler;

/// What a binding slot of a texture's bind group holds.
#[derive(Clone, Copy, Debug, PartialEq, Eq, Structural)]
pub enum TextureSlot {
    /// The texture view, sampled as float data (filterable or not).
    View { filterable: bool },
    /// The sampler (filtering or not).
    Sampler { filtering: bool },
}

/// One entry of a texture's bind group layout.
#[derive(Clone, Copy, Debug, PartialEq, Eq, Structural)]
pub struct SlotLayout {
    pub binding: u32,
    pub slot: TextureSlot,
}

/// The layout of a texture's bind group: the view at binding 0 and, when the
/// texture has a sampler, the sampler at binding 1.
pub open spec fn texture_layout_spec(view_filterable: bool, sampler_filtering: Option<bool>) -> Seq<SlotLayout> {
    let view = SlotLayout { binding: 0, slot: TextureSlot::View { filterable: view_filterable } };
    match sampler_filtering {
        Some(f) => seq![view, SlotLayout { binding: 1, slot: TextureSlot::Sampler { filtering: f } }],
        None => seq![view],
    }
}

/// The bindings that a texture's bind group fills: the view at 0 and, when
/// there is a sampler, the sampler at 1.
pub open spec fn bound_slots_spec(has_sampler: bool) -> Seq<u32> {
    if has_sampler { seq![0u32, 1u32] } else { seq![0u32] }
}

/// The bind group layout entries of a texture whose view is sampled as
/// `view_filterable` float data, with a sampler of the given filtering if any.
pub fn texture_layout(view_filterable: bool, sampler_filtering: Option<bool>) -> (l: Vec<SlotLayout>)
    ensures
        l@ == texture_layout_spec(view_filterable, sampler_filtering),
{
    let mut l: Vec<SlotLayout> = Vec::new();
    l.push(SlotLayout { binding: 0, slot: TextureSlot::View { filterable: view_filterable } });
    match sampler_filtering {
        Some(f) => {
            l.push(SlotLayout { binding: 1, slot: TextureSlot::Sampler { filtering: f } });
        },
        None => {},
    }
    assert(l@ =~= texture_layout_spec(view_filterable, sampler_filtering));
    l
}

/// The bindings that a texture's bind group fills.
pub fn bound_slots(has_sampler: bool) -> (b: Vec<u32>)
    ensures
        b@ == bound_slots_spec(has_sampler),
{
    let mut b: Vec<u32> = Vec::new();
    b.push(0);
    if has_sampler {
        b.push(1);
    }
    assert(b@ =~= bound_slots_spec(has_sampler));
    b
}

/// The layout starts with the view at binding 0, sampled with exactly the
/// requested filterability whether or not there is a sampler; a sampler, when
/// given, follows at binding 1 with its own filtering, and nothing else.
pub proof fn lemma_texture_layout_entries(view_filterable: bool, sampler_filtering: Option<bool>)
    ensures
        texture_layout_spec(view_filterable, sampler_filtering).len() == (if sampler_filtering is Some {
            2int
        } else {
            1int
        }),
        texture_layout_spec(view_filterable, sampler_filtering)[0].binding == 0,
        texture_layout_spec(view_filterable, sampler_filtering)[0].slot == (TextureSlot::View {
            filterable: view_filterable,
        }),
        forall|f: bool|
            sampler_filtering == Some(f) ==> texture_layout_spec(view_filterable, sampler_filtering)[1]
                == (SlotLayout { binding: 1, slot: TextureSlot::Sampler { filtering: f } }),
{
}

/// The bind group binds the view at 0, and the sampler at 1 exactly when
/// there is one.
pub proof fn lemma_bound_slots(has_sampler: bool)
    ensures
        bound_slots_spec(has_sampler)[0] == 0,
        bound_slots_spec(has_sampler).len() == (if has_sampler { 2int } else { 1int }),
        has_sampler ==> bound_slots_spec(has_sampler)[1] == 1,
{
}

/// A texture's bind group fills exactly the slots its layout declares, in
/// order: whatever the view and sampler settings, the layout's bindings are the
/// bound slots of a texture that has a sampler exactly when the layout has one.
pub proof fn lemma_bind_group_matches_layout(view_filterable: bool, sampler_filtering: Option<bool>)
    ensures
        texture_layout_spec(view_filterable, sampler_filtering).map_values(|e: SlotLayout| e.binding)
            == bound_slots_spec(sampler_filtering is Some),
{
    assert(texture_layout_spec(view_filterable, sampler_filtering).map_values(|e: SlotLayout| e.binding)
        =~= bound_slots_spec(sampler_filtering is Some));
}

} // verus!
