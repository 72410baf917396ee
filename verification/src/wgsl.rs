//! WGSL declarations of the structs that the CPU shares with the shaders:
//! each field's Rust type is spelled as its WGSL type.

use vstd::prelude::*;

verus! {

/// The WGSL spelling of a Rust field type: glam vectors and arrays of 2 to 4
/// `f32`, `i32` or `u32` become `vecN<T>`; any other type keeps its name.
pub open spec fn wgsl_type_spec(t: Seq<char>) -> Seq<char> {
    if t == "Vec2"@ || t == "glam::Vec2"@ || t == "[f32; 2]"@ {
        "vec2<f32>"@
    } else if t == "Vec3"@ || t == "glam::Vec3"@ || t == "[f32; 3]"@ {
        "vec3<f32>"@
    } else if t == "Vec4"@ || t == "glam::Vec4"@ || t == "[f32; 4]"@ {
        "vec4<f32>"@
    } else if t == "IVec2"@ || t == "glam::IVec2"@ || t == "[i32; 2]"@ {
        "vec2<i32>"@
    } else if t == "IVec3"@ || t == "glam::IVec3"@ || t == "[i32; 3]"@ {
        "vec3<i32>"@
    } else if t == "IVec4"@ || t == "glam::IVec4"@ || t == "[i32; 4]"@ {
        "vec4<i32>"@
    } else if t == "UVec2"@ || t == "glam::UVec2"@ || t == "[u32; 2]"@ {
        "vec2<u32>"@
    } else if t == "UVec3"@ || t == "glam::UVec3"@ || t == "[u32; 3]"@ {
        "vec3<u32>"@
    } else if t == "UVec4"@ || t == "glam::UVec4"@ || t == "[u32; 4]"@ {
        "vec4<u32>"@
    } else {
        t
    }
}

/// One member line of a WGSL struct: a tab, `name: type`, a comma, a newline.
pub open spec fn wgsl_member_spec(name: Seq<char>, rust_type: Seq<char>) -> Seq<char> {
    "\t"@ + name + ": "@ + wgsl_type_spec(rust_type) + ",\n"@
}

/// The member lines of `fields` (name, Rust type), in order.
pub open spec fn wgsl_members_spec(fields: Seq<(Seq<char>, Seq<char>)>) -> Seq<char>
    decreases fields.len(),
{
    if fields.len() == 0 {
        Seq::empty()
    } else {
        wgsl_members_spec(fields.drop_last()) + wgsl_member_spec(
            fields.last().0,
            fields.last().1,
        )
    }
}

/// The full declaration `struct Name {\n<members>}`.
pub open spec fn wgsl_struct_spec(name: Seq<char>, fields: Seq<(Seq<char>, Seq<char>)>) -> Seq<char> {
    "struct "@ + name + " {\n"@ + wgsl_members_spec(fields) + "}"@
}

/// The views of a list of (name, type) pairs.
pub open spec fn field_views(fields: Seq<(&str, &str)>) -> Seq<(Seq<char>, Seq<char>)> {
    fields.map_values(|f: (&str, &str)| (f.0@, f.1@))
}

/// The texts of `parts` joined in order, with nothing between them.
pub open spec fn joined_spec(parts: Seq<Seq<char>>) -> Seq<char>
    decreases parts.len(),
{
    if parts.len() == 0 {
        Seq::empty()
    } else {
        joined_spec(parts.drop_last()) + parts.last()
    }
}

/// The views of a list of strings.
pub open spec fn text_views(parts: Seq<&str>) -> Seq<Seq<char>> {
    parts.map_values(|p: &str| p@)
}

/// One shader module's source made of several WGSL pieces (entry points,
/// shared definitions, struct declarations), concatenated in order.
pub fn combine_sources(parts: &[&str]) -> (s: String)
    ensures
        s@ == joined_spec(text_views(parts@)),
{
    let mut out = String::new();
    let mut i: usize = 0;
    while i < parts.len()
        invariant
            i <= parts@.len(),
            out@ == joined_spec(text_views(parts@.take(i as int))),
        decreases parts.len() - i,
    {
        out.append(parts[i]);
        proof {
            let next = text_views(parts@.take(i + 1));
            assert(next.drop_last() =~= text_views(parts@.take(i as int)));
        }
        i = i + 1;
    }
    proof {
        assert(parts@.take(parts@.len() as int) =~= parts@);
    }
    out
}

/// Joining one more piece appends exactly that piece: the joined text is the
/// earlier text followed by the new piece, so no piece is lost or reordered.
pub proof fn lemma_joined_push(parts: Seq<Seq<char>>, p: Seq<char>)
    ensures
        joined_spec(parts.push(p)) == joined_spec(parts) + p,
        joined_spec(parts.push(p)).len() == joined_spec(parts).len() + p.len(),
        joined_spec(Seq::<Seq<char>>::empty()) == Seq::<char>::empty(),
        joined_spec(seq![p]) == p,
{
    assert(parts.push(p).drop_last() =~= parts);
    assert(seq![p].drop_last() =~= Seq::<Seq<char>>::empty());
    assert(Seq::<char>::empty() + p =~= p);
}

/// Joining two lists of pieces one after the other gives the two joined texts
/// one after the other.
pub proof fn lemma_joined_concat(a: Seq<Seq<char>>, b: Seq<Seq<char>>)
    ensures
        joined_spec(a + b) == joined_spec(a) + joined_spec(b),
    decreases b.len(),
{
    if b.len() == 0 {
        assert(a + b =~= a);
        assert(joined_spec(a) + Seq::<char>::empty() =~= joined_spec(a));
    } else {
        let c = b.drop_last();
        lemma_joined_concat(a, c);
        assert((a + b).drop_last() =~= a + c);
        assert((a + b).last() == b.last());
        assert(joined_spec(a) + joined_spec(c) + b.last() =~= joined_spec(a) + (joined_spec(c)
            + b.last()));
    }
}

/// Every member line is a tab, the field name, ": ", the WGSL spelling of the
/// field's type, ",\n"; one more field appends exactly its line; and the
/// declaration wraps the member lines in `struct Name {\n` ... `}`.
pub proof fn lemma_struct_members(
    name: Seq<char>,
    fields: Seq<(Seq<char>, Seq<char>)>,
    f: (Seq<char>, Seq<char>),
)
    ensures
        wgsl_member_spec(f.0, f.1) == "\t"@ + f.0 + ": "@ + wgsl_type_spec(f.1) + ",\n"@,
        wgsl_members_spec(fields.push(f)) == wgsl_members_spec(fields) + wgsl_member_spec(f.0, f.1),
        wgsl_members_spec(Seq::<(Seq<char>, Seq<char>)>::empty()) == Seq::<char>::empty(),
        wgsl_struct_spec(name, fields) == "struct "@ + name + " {\n"@ + wgsl_members_spec(fields)
            + "}"@,
{
    assert(fields.push(f).drop_last() =~= fields);
}

/// The member lines of two field lists one after the other are the member
/// lines of the first followed by those of the second: each field, wherever it
/// stands, contributes its own line.
pub proof fn lemma_members_concat(
    a: Seq<(Seq<char>, Seq<char>)>,
    b: Seq<(Seq<char>, Seq<char>)>,
)
    ensures
        wgsl_members_spec(a + b) == wgsl_members_spec(a) + wgsl_members_spec(b),
    decreases b.len(),
{
    if b.len() == 0 {
        assert(a + b =~= a);
        assert(wgsl_members_spec(a) + Seq::<char>::empty() =~= wgsl_members_spec(a));
    } else {
        let c = b.drop_last();
        lemma_members_concat(a, c);
        assert((a + b).drop_last() =~= a + c);
        assert((a + b).last() == b.last());
        let m = wgsl_member_spec(b.last().0, b.last().1);
        assert(wgsl_members_spec(a) + wgsl_members_spec(c) + m =~= wgsl_members_spec(a) + (
        wgsl_members_spec(c) + m));
    }
}

/// The `k`-th field contributes its member line right after the lines of the
/// fields before it: the lines of `fields` are those of the first `k` fields,
/// then the `k`-th field's line, then the lines of the rest.
pub proof fn lemma_member_at(fields: Seq<(Seq<char>, Seq<char>)>, k: int)
    requires
        0 <= k < fields.len(),
    ensures
        wgsl_members_spec(fields) == wgsl_members_spec(fields.take(k)) + wgsl_member_spec(
            fields[k].0,
            fields[k].1,
        ) + wgsl_members_spec(fields.skip(k + 1)),
{
    let front = fields.take(k).push(fields[k]);
    let back = fields.skip(k + 1);
    assert(fields =~= front + back);
    lemma_members_concat(front, back);
    lemma_struct_members(Seq::empty(), fields.take(k), fields[k]);
}

/// Each glam vector type and each array of 2 to 4 `f32`, `i32` or `u32` is
/// spelled as the WGSL vector of that size and element type; scalar types keep
/// their names.
pub proof fn lemma_wgsl_vector_spellings()
    ensures
        wgsl_type_spec("Vec2"@) == "vec2<f32>"@,
        wgsl_type_spec("glam::Vec2"@) == "vec2<f32>"@,
        wgsl_type_spec("[f32; 2]"@) == "vec2<f32>"@,
        wgsl_type_spec("Vec3"@) == "vec3<f32>"@,
        wgsl_type_spec("glam::Vec3"@) == "vec3<f32>"@,
        wgsl_type_spec("[f32; 3]"@) == "vec3<f32>"@,
        wgsl_type_spec("Vec4"@) == "vec4<f32>"@,
        wgsl_type_spec("glam::Vec4"@) == "vec4<f32>"@,
        wgsl_type_spec("[f32; 4]"@) == "vec4<f32>"@,
        wgsl_type_spec("IVec2"@) == "vec2<i32>"@,
        wgsl_type_spec("glam::IVec2"@) == "vec2<i32>"@,
        wgsl_type_spec("[i32; 2]"@) == "vec2<i32>"@,
        wgsl_type_spec("IVec3"@) == "vec3<i32>"@,
        wgsl_type_spec("glam::IVec3"@) == "vec3<i32>"@,
        wgsl_type_spec("[i32; 3]"@) == "vec3<i32>"@,
        wgsl_type_spec("IVec4"@) == "vec4<i32>"@,
        wgsl_type_spec("glam::IVec4"@) == "vec4<i32>"@,
        wgsl_type_spec("[i32; 4]"@) == "vec4<i32>"@,
        wgsl_type_spec("UVec2"@) == "vec2<u32>"@,
        wgsl_type_spec("glam::UVec2"@) == "vec2<u32>"@,
        wgsl_type_spec("[u32; 2]"@) == "vec2<u32>"@,
        wgsl_type_spec("UVec3"@) == "vec3<u32>"@,
        wgsl_type_spec("glam::UVec3"@) == "vec3<u32>"@,
        wgsl_type_spec("[u32; 3]"@) == "vec3<u32>"@,
        wgsl_type_spec("UVec4"@) == "vec4<u32>"@,
        wgsl_type_spec("glam::UVec4"@) == "vec4<u32>"@,
        wgsl_type_spec("[u32; 4]"@) == "vec4<u32>"@,
        wgsl_type_spec("f32"@) == "f32"@,
        wgsl_type_spec("u32"@) == "u32"@,
        wgsl_type_spec("i32"@) == "i32"@,
{
    reveal_strlit("Vec2");
    reveal_strlit("glam::Vec2");
    reveal_strlit("[f32; 2]");
    reveal_strlit("Vec3");
    reveal_strlit("glam::Vec3");
    reveal_strlit("[f32; 3]");
    reveal_strlit("Vec4");
    reveal_strlit("glam::Vec4");
    reveal_strlit("[f32; 4]");
    reveal_strlit("IVec2");
    reveal_strlit("glam::IVec2");
    reveal_strlit("[i32; 2]");
    reveal_strlit("IVec3");
    reveal_strlit("glam::IVec3");
    reveal_strlit("[i32; 3]");
    reveal_strlit("IVec4");
    reveal_strlit("glam::IVec4");
    reveal_strlit("[i32; 4]");
    reveal_strlit("UVec2");
    reveal_strlit("glam::UVec2");
    reveal_strlit("[u32; 2]");
    reveal_strlit("UVec3");
    reveal_strlit("glam::UVec3");
    reveal_strlit("[u32; 3]");
    reveal_strlit("UVec4");
    reveal_strlit("glam::UVec4");
    reveal_strlit("[u32; 4]");
    reveal_strlit("f32");
    reveal_strlit("u32");
    reveal_strlit("i32");
    assert("Vec2"@[0] == 'V');
    assert("Vec2"@[1] == 'e');
    assert("Vec2"@[3] == '2');
    assert("glam::Vec2"@[0] == 'g');
    assert("glam::Vec2"@[1] == 'l');
    assert("glam::Vec2"@[3] == 'm');
    assert("glam::Vec2"@[4] == ':');
    assert("glam::Vec2"@[6] == 'V');
    assert("glam::Vec2"@[9] == '2');
    assert("[f32; 2]"@[0] == '[');
    assert("[f32; 2]"@[1] == 'f');
    assert("[f32; 2]"@[3] == '2');
    assert("[f32; 2]"@[4] == ';');
    assert("[f32; 2]"@[6] == '2');
    assert("Vec3"@[0] == 'V');
    assert("Vec3"@[1] == 'e');
    assert("Vec3"@[3] == '3');
    assert("glam::Vec3"@[0] == 'g');
    assert("glam::Vec3"@[1] == 'l');
    assert("glam::Vec3"@[3] == 'm');
    assert("glam::Vec3"@[4] == ':');
    assert("glam::Vec3"@[6] == 'V');
    assert("glam::Vec3"@[9] == '3');
    assert("[f32; 3]"@[0] == '[');
    assert("[f32; 3]"@[1] == 'f');
    assert("[f32; 3]"@[3] == '2');
    assert("[f32; 3]"@[4] == ';');
    assert("[f32; 3]"@[6] == '3');
    assert("Vec4"@[0] == 'V');
    assert("Vec4"@[1] == 'e');
    assert("Vec4"@[3] == '4');
    assert("glam::Vec4"@[0] == 'g');
    assert("glam::Vec4"@[1] == 'l');
    assert("glam::Vec4"@[3] == 'm');
    assert("glam::Vec4"@[4] == ':');
    assert("glam::Vec4"@[6] == 'V');
    assert("glam::Vec4"@[9] == '4');
    assert("[f32; 4]"@[0] == '[');
    assert("[f32; 4]"@[1] == 'f');
    assert("[f32; 4]"@[3] == '2');
    assert("[f32; 4]"@[4] == ';');
    assert("[f32; 4]"@[6] == '4');
    assert("IVec2"@[0] == 'I');
    assert("IVec2"@[1] == 'V');
    assert("IVec2"@[3] == 'c');
    assert("IVec2"@[4] == '2');
    assert("glam::IVec2"@[0] == 'g');
    assert("glam::IVec2"@[1] == 'l');
    assert("glam::IVec2"@[3] == 'm');
    assert("glam::IVec2"@[4] == ':');
    assert("glam::IVec2"@[6] == 'I');
    assert("glam::IVec2"@[9] == 'c');
    assert("glam::IVec2"@[10] == '2');
    assert("[i32; 2]"@[0] == '[');
    assert("[i32; 2]"@[1] == 'i');
    assert("[i32; 2]"@[3] == '2');
    assert("[i32; 2]"@[4] == ';');
    assert("[i32; 2]"@[6] == '2');
    assert("IVec3"@[0] == 'I');
    assert("IVec3"@[1] == 'V');
    assert("IVec3"@[3] == 'c');
    assert("IVec3"@[4] == '3');
    assert("glam::IVec3"@[0] == 'g');
    assert("glam::IVec3"@[1] == 'l');
    assert("glam::IVec3"@[3] == 'm');
    assert("glam::IVec3"@[4] == ':');
    assert("glam::IVec3"@[6] == 'I');
    assert("glam::IVec3"@[9] == 'c');
    assert("glam::IVec3"@[10] == '3');
    assert("[i32; 3]"@[0] == '[');
    assert("[i32; 3]"@[1] == 'i');
    assert("[i32; 3]"@[3] == '2');
    assert("[i32; 3]"@[4] == ';');
    assert("[i32; 3]"@[6] == '3');
    assert("IVec4"@[0] == 'I');
    assert("IVec4"@[1] == 'V');
    assert("IVec4"@[3] == 'c');
    assert("IVec4"@[4] == '4');
    assert("glam::IVec4"@[0] == 'g');
    assert("glam::IVec4"@[1] == 'l');
    assert("glam::IVec4"@[3] == 'm');
    assert("glam::IVec4"@[4] == ':');
    assert("glam::IVec4"@[6] == 'I');
    assert("glam::IVec4"@[9] == 'c');
    assert("glam::IVec4"@[10] == '4');
    assert("[i32; 4]"@[0] == '[');
    assert("[i32; 4]"@[1] == 'i');
    assert("[i32; 4]"@[3] == '2');
    assert("[i32; 4]"@[4] == ';');
    assert("[i32; 4]"@[6] == '4');
    assert("UVec2"@[0] == 'U');
    assert("UVec2"@[1] == 'V');
    assert("UVec2"@[3] == 'c');
    assert("UVec2"@[4] == '2');
    assert("glam::UVec2"@[0] == 'g');
    assert("glam::UVec2"@[1] == 'l');
    assert("glam::UVec2"@[3] == 'm');
    assert("glam::UVec2"@[4] == ':');
    assert("glam::UVec2"@[6] == 'U');
    assert("glam::UVec2"@[9] == 'c');
    assert("glam::UVec2"@[10] == '2');
    assert("[u32; 2]"@[0] == '[');
    assert("[u32; 2]"@[1] == 'u');
    assert("[u32; 2]"@[3] == '2');
    assert("[u32; 2]"@[4] == ';');
    assert("[u32; 2]"@[6] == '2');
    assert("UVec3"@[0] == 'U');
    assert("UVec3"@[1] == 'V');
    assert("UVec3"@[3] == 'c');
    assert("UVec3"@[4] == '3');
    assert("glam::UVec3"@[0] == 'g');
    assert("glam::UVec3"@[1] == 'l');
    assert("glam::UVec3"@[3] == 'm');
    assert("glam::UVec3"@[4] == ':');
    assert("glam::UVec3"@[6] == 'U');
    assert("glam::UVec3"@[9] == 'c');
    assert("glam::UVec3"@[10] == '3');
    assert("[u32; 3]"@[0] == '[');
    assert("[u32; 3]"@[1] == 'u');
    assert("[u32; 3]"@[3] == '2');
    assert("[u32; 3]"@[4] == ';');
    assert("[u32; 3]"@[6] == '3');
    assert("UVec4"@[0] == 'U');
    assert("UVec4"@[1] == 'V');
    assert("UVec4"@[3] == 'c');
    assert("UVec4"@[4] == '4');
    assert("glam::UVec4"@[0] == 'g');
    assert("glam::UVec4"@[1] == 'l');
    assert("glam::UVec4"@[3] == 'm');
    assert("glam::UVec4"@[4] == ':');
    assert("glam::UVec4"@[6] == 'U');
    assert("glam::UVec4"@[9] == 'c');
    assert("glam::UVec4"@[10] == '4');
    assert("[u32; 4]"@[0] == '[');
    assert("[u32; 4]"@[1] == 'u');
    assert("[u32; 4]"@[3] == '2');
    assert("[u32; 4]"@[4] == ';');
    assert("[u32; 4]"@[6] == '4');
}

/// Whether two strings hold the same characters.
fn same_text(a: &str, b: &str) -> (r: bool)
    ensures
        r == (a@ == b@),
{
    let n = a.unicode_len();
    if n != b.unicode_len() {
        return false;
    }
    let mut i: usize = 0;
    while i < n
        invariant
            n == a@.len(),
            n == b@.len(),
            i <= n,
            forall|j: int| 0 <= j < i ==> a@[j] == b@[j],
        decreases n - i,
    {
        if a.get_char(i) != b.get_char(i) {
            return false;
        }
        i = i + 1;
    }
    assert(a@ =~= b@);
    true
}

/// Whether `t` is one of the three spellings `a`, `b`, `c`.
fn is_one_of(t: &str, a: &str, b: &str, c: &str) -> (r: bool)
    ensures
        r == (t@ == a@ || t@ == b@ || t@ == c@),
{
    same_text(t, a) || same_text(t, b) || same_text(t, c)
}

/// The WGSL spelling of the Rust field type `rust_type`.
pub fn wgsl_type(rust_type: &str) -> (w: String)
    ensures
        w@ == wgsl_type_spec(rust_type@),
{
    let t = rust_type;
    if is_one_of(t, "Vec2", "glam::Vec2", "[f32; 2]") {
        String::from_str("vec2<f32>")
    } else if is_one_of(t, "Vec3", "glam::Vec3", "[f32; 3]") {
        String::from_str("vec3<f32>")
    } else if is_one_of(t, "Vec4", "glam::Vec4", "[f32; 4]") {
        String::from_str("vec4<f32>")
    } else if is_one_of(t, "IVec2", "glam::IVec2", "[i32; 2]") {
        String::from_str("vec2<i32>")
    } else if is_one_of(t, "IVec3", "glam::IVec3", "[i32; 3]") {
        String::from_str("vec3<i32>")
    } else if is_one_of(t, "IVec4", "glam::IVec4", "[i32; 4]") {
        String::from_str("vec4<i32>")
    } else if is_one_of(t, "UVec2", "glam::UVec2", "[u32; 2]") {
        String::from_str("vec2<u32>")
    } else if is_one_of(t, "UVec3", "glam::UVec3", "[u32; 3]") {
        String::from_str("vec3<u32>")
    } else if is_one_of(t, "UVec4", "glam::UVec4", "[u32; 4]") {
        String::from_str("vec4<u32>")
    } else {
        String::from_str(t)
    }
}

/// The WGSL declaration of a struct `name` with the given (field name, Rust
/// type) pairs, one member per line in the given order.
pub fn wgsl_struct(name: &str, fields: &[(&str, &str)]) -> (s: String)
    ensures
        s@ == wgsl_struct_spec(name@, field_views(fields@)),
{
    let mut out = String::from_str("struct ");
    out.append(name);
    out.append(" {\n");
    let ghost head = out@;
    let mut i: usize = 0;
    while i < fields.len()
        invariant
            i <= fields@.len(),
            out@ == head + wgsl_members_spec(field_views(fields@.take(i as int))),
        decreases fields.len() - i,
    {
        let (field_name, field_type) = fields[i];
        out.append("\t");
        out.append(field_name);
        out.append(": ");
        let w = wgsl_type(field_type);
        out.append(w.as_str());
        out.append(",\n");
        proof {
            let next = field_views(fields@.take(i + 1));
            assert(next.drop_last() =~= field_views(fields@.take(i as int)));
            assert(next.last() == (field_name@, field_type@));
        }
        i = i + 1;
    }
    out.append("}");
    proof {
        assert(fields@.take(fields@.len() as int) =~= fields@);
    }
    out
}

} // verus!
