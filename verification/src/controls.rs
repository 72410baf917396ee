//! The integer side of the settings panel: flags passed to the shaders and
//! the vertex count of the circle shape.

use vstd::prelude::*;

verus! {

/// The fewest vertices a circle shape may have.
pub const MIN_CIRCLE_VERTICES: u32 = 3;

/// The value a shader flag holds: 1 for on, 0 for off.
pub open spec fn flag_value(on: bool) -> u32 {
    if on { 1 } else { 0 }
}

/// How a shader reads a flag: on exactly when it is 1.
pub open spec fn flag_reads_on(v: u32) -> bool {
    v == 1
}

/// Encodes a checkbox state as a shader flag.
pub fn shader_flag(on: bool) -> (v: u32)
    ensures
        v == flag_value(on),
{
    if on { 1 } else { 0 }
}

/// Decodes a shader flag into a checkbox state.
pub fn flag_is_on(v: u32) -> (on: bool)
    ensures
        on == flag_reads_on(v),
{
    v == 1
}

/// A checkbox that shows a flag and writes it back leaves it unchanged:
/// decoding an encoded state gives the state back, and encoding a decoded
/// 0 or 1 gives the flag back.
pub proof fn lemma_flag_round_trip(on: bool, v: u32)
    ensures
        flag_reads_on(flag_value(on)) == on,
        (v == 0 || v == 1) ==> flag_value(flag_reads_on(v)) == v,
{
}

/// The circle's vertex count after one pass over its controls: `+` adds one,
/// `-` takes one away, a value typed into the field replaces the count, and
/// the result is raised to at least `MIN_CIRCLE_VERTICES`.
pub fn edit_circle_vertices(current: u32, plus: bool, minus: bool, typed: Option<u32>) -> (next: u32)
    requires
        plus ==> current < u32::MAX,
        minus ==> current + (if plus { 1int } else { 0int }) >= 1,
    ensures
        ({
            let stepped = current + (if plus { 1int } else { 0int }) - (if minus { 1int } else { 0int });
            let chosen = match typed {
                Some(t) => t as int,
                None => stepped,
            };
            next == (if chosen < MIN_CIRCLE_VERTICES { MIN_CIRCLE_VERTICES as int } else { chosen })
        }),
        next >= MIN_CIRCLE_VERTICES,
{
    let mut c = current;
    if plus {
        c = c + 1;
    }
    if minus {
        c = c - 1;
    }
    if let Some(t) = typed {
        c = t;
    }
    if c < MIN_CIRCLE_VERTICES {
        MIN_CIRCLE_VERTICES
    } else {
        c
    }
}

} // verus!
