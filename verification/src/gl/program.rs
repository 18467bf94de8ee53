//! The assembly of shader sources from a program definition.
//!
//! Both shaders of a program start with a common header: the GLSL version
//! and precision line, the declarations of the program's uniform blocks and
//! of its samplers. The vertex shader then declares its attribute inputs.
//! Each shader's own source comes last, after preprocessing: the program's
//! includes are put in front of it, outer braces are removed from the
//! includes and the source, and the placeholders `{ { name } }` and
//! `{{name}}` of each define are replaced by the define's value.

use vstd::prelude::*;

use super::consts;
use super::uniform_block::{blocks_decl, uniform_blocks_glsl};
use super::vertex::{vertex_header, vertex_source_header, Attribute};
use crate::text::{
    concat, join, join_strings, lemma_join_prepend, lemma_replace_all_absent,
    lemma_replace_all_shorter, lemma_replace_all_whole, replace, replace_all, views,
};

verus! {

/// The definition of a program with `N` uniform blocks, `S` samplers and
/// `A` vertex types.
pub struct ProgramDef<const N: usize, const S: usize, const A: usize> {
    /// The instance name and the binding point of each uniform block.
    pub uniforms: [(String, u32); N],
    /// The names of the samplers; sampler `i` reads texture unit `i`.
    pub samplers: [String; S],
    /// The name under which each vertex type's attributes are declared.
    pub attributes: [String; A],
    /// Placeholder names and the values that replace them.
    pub defines: Vec<(String, String)>,
    /// Sources that are put in front of both shaders' sources.
    pub includes: Vec<String>,
    pub vertex_source: String,
    pub fragment_source: String,
}

/// The GLSL version and precision line that starts both shaders.
pub const SOURCE_HEADER: &'static str = "#version 300 es\n    precision highp float;\n    precision highp sampler2D;";

/// The declaration of a sampler uniform.
pub open spec fn sampler_decl(name: Seq<char>) -> Seq<char> {
    "uniform sampler2D "@ + name + ";"@
}

/// The declarations of the given samplers, separated by newlines.
pub open spec fn sampler_decls(samplers: Seq<String>) -> Seq<char> {
    join(samplers.map_values(|s: String| sampler_decl(s@)), "\n"@)
}

/// Each sampler is declared as a `sampler2D` uniform of its name, one per
/// line, in order, with no newline after the last.
pub proof fn lemma_sampler_decls_lines(samplers: Seq<String>)
    ensures
        samplers.len() == 0 ==> sampler_decls(samplers) == Seq::<char>::empty(),
        samplers.len() == 1 ==> sampler_decls(samplers) == "uniform sampler2D "@ + samplers[0]@
            + ";"@,
        samplers.len() >= 2 ==> sampler_decls(samplers) == "uniform sampler2D "@ + samplers[0]@
            + ";"@ + "\n"@ + sampler_decls(samplers.drop_first()),
{
    let decls = samplers.map_values(|s: String| sampler_decl(s@));
    if samplers.len() == 1 {
        assert(join(decls, "\n"@) == decls[0]);
    } else if samplers.len() >= 2 {
        let rest = samplers.drop_first().map_values(|s: String| sampler_decl(s@));
        assert(decls =~= seq![sampler_decl(samplers[0]@)] + rest);
        lemma_join_prepend(sampler_decl(samplers[0]@), rest, "\n"@);
    }
}

/// Declares the given samplers, separated by newlines.
pub fn sampler_declarations(samplers: &[String]) -> (r: String)
    ensures
        r@ == sampler_decls(samplers@),
{
    let mut decls: Vec<String> = Vec::new();
    let mut i: usize = 0;
    while i < samplers.len()
        invariant
            i <= samplers@.len(),
            views(decls@) == samplers@.take(i as int).map_values(|s: String| sampler_decl(s@)),
        decreases samplers@.len() - i,
    {
        let mut d = concat("uniform sampler2D ", samplers[i].as_str());
        d.append(";");
        let ghost prev = decls@;
        assert(d@ == sampler_decl(samplers@[i as int]@));
        decls.push(d);
        assert(decls@ == prev.push(d));
        assert(views(decls@) =~= views(prev).push(d@));
        assert(samplers@.take(i + 1).map_values(|s: String| sampler_decl(s@)) =~= samplers@.take(
            i as int,
        ).map_values(|s: String| sampler_decl(s@)).push(sampler_decl(samplers@[i as int]@)));
        i += 1;
    }
    assert(samplers@.take(samplers@.len() as int) =~= samplers@);
    join_strings(&decls, "\n")
}

/// A source whose outer braces can be removed: if it starts with `{`, it
/// has at least two characters and ends with an ASCII character.
pub open spec fn braces_removable(s: Seq<char>) -> bool {
    s.len() > 0 && s[0] == '{' ==> s.len() >= 2 && (s.last() as u32) < 128
}

/// A source without its outer braces: if it starts with `{`, its first and
/// last characters are dropped.
pub open spec fn strip_braces(s: Seq<char>) -> Seq<char> {
    if s.len() > 0 && s[0] == '{' {
        s.subrange(1, s.len() - 1)
    } else {
        s
    }
}

/// Whether the outer braces of `s` can be removed.
pub fn braces_removable_str(s: &str) -> (r: bool)
    ensures
        r == braces_removable(s@),
{
    let n = s.unicode_len();
    if n > 0 && s.get_char(0) == '{' {
        n >= 2 && (s.get_char(n - 1) as u32) < 128
    } else {
        true
    }
}

/// Removes the outer braces of a source that starts with `{`.
pub fn remove_outer_braces(s: &str) -> (r: String)
    requires
        braces_removable(s@),
    ensures
        r@ == strip_braces(s@),
{
    let n = s.unicode_len();
    if n > 0 && s.get_char(0) == '{' {
        s.substring_char(1, n - 1).to_owned()
    } else {
        s.to_owned()
    }
}

/// The placeholder `{ { name } }`.
pub open spec fn spaced_placeholder(name: Seq<char>) -> Seq<char> {
    "{ { "@ + name + " } }"@
}

/// The placeholder `{{name}}`.
pub open spec fn tight_placeholder(name: Seq<char>) -> Seq<char> {
    "{{"@ + name + "}}"@
}

/// `code` after each define, in order, has replaced its placeholders: first
/// `{ { name } }`, then `{{name}}`.
pub open spec fn apply_defines(code: Seq<char>, defines: Seq<(String, String)>) -> Seq<char>
    decreases defines.len(),
{
    if defines.len() == 0 {
        code
    } else {
        let c = apply_defines(code, defines.drop_last());
        let from = defines.last().0@;
        let to = defines.last().1@;
        replace_all(replace_all(c, spaced_placeholder(from), to), tight_placeholder(from), to)
    }
}

/// A shader's own source after preprocessing: the includes without outer
/// braces, joined by newlines, then the source without outer braces, with
/// the defines applied to all of it.
pub open spec fn preprocessed(
    includes: Seq<String>,
    defines: Seq<(String, String)>,
    source: Seq<char>,
) -> Seq<char> {
    apply_defines(
        join(includes.map_values(|s: String| strip_braces(s@)), "\n"@) + strip_braces(source),
        defines,
    )
}

/// Without defines, preprocessing puts the includes, without their outer
/// braces, in front of the source without its outer braces, with a newline
/// between each two includes and none before the source.
pub proof fn lemma_preprocessed_without_defines(includes: Seq<String>, source: Seq<char>)
    ensures
        includes.len() == 0 ==> preprocessed(includes, seq![], source) == strip_braces(source),
        includes.len() == 1 ==> preprocessed(includes, seq![], source) == strip_braces(
            includes[0]@,
        ) + strip_braces(source),
        includes.len() >= 2 ==> preprocessed(includes, seq![], source) == strip_braces(
            includes[0]@,
        ) + "\n"@ + preprocessed(includes.drop_first(), seq![], source),
{
    let stripped = includes.map_values(|s: String| strip_braces(s@));
    if includes.len() == 1 {
        assert(join(stripped, "\n"@) == stripped[0]);
    } else if includes.len() >= 2 {
        assert(stripped =~= seq![strip_braces(includes[0]@)] + includes.drop_first().map_values(
            |s: String| strip_braces(s@),
        ));
        lemma_join_prepend(
            strip_braces(includes[0]@),
            includes.drop_first().map_values(|s: String| strip_braces(s@)),
            "\n"@,
        );
        assert(preprocessed(includes, seq![], source) =~= strip_braces(includes[0]@) + "\n"@
            + preprocessed(includes.drop_first(), seq![], source));
    }
}

/// A source wrapped in braces loses them; one that does not start with
/// `{` is kept whole.
pub proof fn lemma_strip_braces_wrapped(s: Seq<char>)
    ensures
        strip_braces(seq!['{'] + s + seq!['}']) == s,
        (s.len() == 0 || s[0] != '{') ==> strip_braces(s) == s,
{
    assert((seq!['{'] + s + seq!['}']).subrange(1, s.len() + 1 as int) =~= s);
}

/// Preprocessing a source with no includes is applying the defines to the
/// source without its outer braces.
proof fn lemma_preprocessed_no_includes(defines: Seq<(String, String)>, source: Seq<char>)
    ensures
        preprocessed(seq![], defines, source) == apply_defines(strip_braces(source), defines),
{
    let stripped = Seq::<String>::empty().map_values(|s: String| strip_braces(s@));
    assert(stripped.len() == 0);
    assert(join(stripped, "\n"@) == Seq::<char>::empty());
    assert(join(stripped, "\n"@) + strip_braces(source) =~= strip_braces(source));
}

/// A define `(name, value)` replaces the placeholder `{{name}}` by `value`:
/// a source that is that placeholder in braces becomes `value`.
pub proof fn lemma_define_replaces_placeholder(d: (String, String))
    ensures
        preprocessed(
            seq![],
            seq![d],
            seq!['{', '{', '{'] + d.0@ + seq!['}', '}', '}'],
        ) == d.1@,
{
    let n = d.0@;
    let source = seq!['{', '{', '{'] + n + seq!['}', '}', '}'];
    let tight = seq!['{', '{'] + n + seq!['}', '}'];
    assert(source =~= seq!['{'] + tight + seq!['}']);
    lemma_strip_braces_wrapped(tight);
    reveal_strlit("{{");
    reveal_strlit("}}");
    reveal_strlit("{ { ");
    reveal_strlit(" } }");
    assert(tight_placeholder(n) =~= tight);
    lemma_preprocessed_no_includes(seq![d], source);
    assert(apply_defines(tight, seq![d].drop_last()) == tight);
    lemma_replace_all_shorter(tight, spaced_placeholder(n), d.1@);
    lemma_replace_all_whole(tight, d.1@);
    assert(seq![d].drop_last() =~= Seq::<(String, String)>::empty());
}

/// A define `(name, value)` replaces the placeholder `{ { name } }` by
/// `value`: a source that is that placeholder in braces becomes `value`,
/// where `value` holds no `{`.
pub proof fn lemma_define_replaces_spaced_placeholder(d: (String, String))
    requires
        forall|i: int| 0 <= i < d.1@.len() ==> d.1@[i] != '{',
    ensures
        preprocessed(
            seq![],
            seq![d],
            seq!['{', '{', ' ', '{', ' '] + d.0@ + seq![' ', '}', ' ', '}', '}'],
        ) == d.1@,
{
    let n = d.0@;
    let source = seq!['{', '{', ' ', '{', ' '] + n + seq![' ', '}', ' ', '}', '}'];
    let spaced = seq!['{', ' ', '{', ' '] + n + seq![' ', '}', ' ', '}'];
    assert(source =~= seq!['{'] + spaced + seq!['}']);
    lemma_strip_braces_wrapped(spaced);
    reveal_strlit("{{");
    reveal_strlit("}}");
    reveal_strlit("{ { ");
    reveal_strlit(" } }");
    assert(spaced_placeholder(n) =~= spaced);
    lemma_preprocessed_no_includes(seq![d], source);
    assert(apply_defines(spaced, seq![d].drop_last()) == spaced);
    lemma_replace_all_whole(spaced, d.1@);
    lemma_replace_all_absent(d.1@, tight_placeholder(n), d.1@);
    assert(seq![d].drop_last() =~= Seq::<(String, String)>::empty());
}

/// Defines are applied in order, each to what the ones before it left: when
/// the first define turns a placeholder into the placeholder of the second,
/// the second then replaces that.
pub proof fn lemma_defines_apply_in_order(first: (String, String), second: (String, String))
    requires
        first.1@ == seq!['{', '{'] + second.0@ + seq!['}', '}'],
    ensures
        preprocessed(
            seq![],
            seq![first, second],
            seq!['{', '{', '{'] + first.0@ + seq!['}', '}', '}'],
        ) == second.1@,
{
    lemma_define_replaces_placeholder(first);
    let source = seq!['{', '{', '{'] + first.0@ + seq!['}', '}', '}'];
    let defines = seq![first, second];
    assert(defines.drop_last() =~= seq![first]);
    lemma_preprocessed_no_includes(defines, source);
    lemma_preprocessed_no_includes(seq![first], source);
    assert(apply_defines(strip_braces(source), seq![first]) == first.1@);
    let tight = first.1@;
    reveal_strlit("{{");
    reveal_strlit("}}");
    reveal_strlit("{ { ");
    reveal_strlit(" } }");
    assert(tight_placeholder(second.0@) =~= tight);
    lemma_replace_all_shorter(tight, spaced_placeholder(second.0@), second.1@);
    lemma_replace_all_whole(tight, second.1@);
}

/// Preprocesses a shader's own source with the includes and defines of its
/// program.
pub fn preprocess(includes: &Vec<String>, defines: &Vec<(String, String)>, source: &str) -> (r:
    String)
    requires
        forall|i: int| 0 <= i < includes@.len() ==> braces_removable(#[trigger] includes@[i]@),
        braces_removable(source@),
    ensures
        r@ == preprocessed(includes@, defines@, source@),
{
    let mut stripped: Vec<String> = Vec::new();
    let mut i: usize = 0;
    while i < includes.len()
        invariant
            i <= includes@.len(),
            forall|k: int| 0 <= k < includes@.len() ==> braces_removable(#[trigger] includes@[k]@),
            views(stripped@) == includes@.take(i as int).map_values(
                |s: String| strip_braces(s@),
            ),
        decreases includes@.len() - i,
    {
        let s = remove_outer_braces(includes[i].as_str());
        let ghost prev = stripped@;
        stripped.push(s);
        assert(views(stripped@) =~= views(prev).push(strip_braces(includes@[i as int]@)));
        assert(includes@.take(i + 1).map_values(|s: String| strip_braces(s@)) =~= includes@.take(
            i as int,
        ).map_values(|s: String| strip_braces(s@)).push(strip_braces(includes@[i as int]@)));
        i += 1;
    }
    assert(includes@.take(includes@.len() as int) =~= includes@);
    let mut code = join_strings(&stripped, "\n");
    let body = remove_outer_braces(source);
    code.append(body.as_str());
    let ghost start = code@;
    let mut d: usize = 0;
    while d < defines.len()
        invariant
            d <= defines@.len(),
            code@ == apply_defines(start, defines@.take(d as int)),
        decreases defines@.len() - d,
    {
        let from = defines[d].0.as_str();
        let to = defines[d].1.as_str();
        let mut spaced = concat("{ { ", from);
        spaced.append(" } }");
        let mut tight = concat("{{", from);
        tight.append("}}");
        proof {
            reveal_strlit("{ { ");
            reveal_strlit("{{");
        }
        let once = replace(code.as_str(), spaced.as_str(), to);
        code = replace(once.as_str(), tight.as_str(), to);
        assert(defines@.take(d + 1).drop_last() =~= defines@.take(d as int));
        d += 1;
    }
    assert(defines@.take(defines@.len() as int) =~= defines@);
    code
}

/// What [`shader_sources`] demands of a program definition: its includes
/// and both sources can have their outer braces removed.
pub open spec fn sources_removable<const N: usize, const S: usize, const A: usize>(
    def: ProgramDef<N, S, A>,
) -> bool {
    &&& forall|i: int| 0 <= i < def.includes@.len() ==> braces_removable(#[trigger] def.includes@[i]@)
    &&& braces_removable(def.vertex_source@)
    &&& braces_removable(def.fragment_source@)
}

/// The header that both shaders of a program start with.
pub open spec fn shader_header(
    uniform_names: Seq<String>,
    uniform_fields: Seq<Vec<(String, String)>>,
    samplers: Seq<String>,
) -> Seq<char> {
    SOURCE_HEADER@ + blocks_decl(uniform_names, uniform_fields) + sampler_decls(samplers)
}

/// The instance names of a program's uniform blocks.
pub open spec fn uniform_names<const N: usize, const S: usize, const A: usize>(
    def: ProgramDef<N, S, A>,
) -> Seq<String> {
    def.uniforms@.map_values(|u: (String, u32)| u.0)
}

/// The sources of the vertex and the fragment shader of a program.
///
/// `uniform_fields[i]` holds the `(type, name)` fields of the type of
/// uniform block `i`; `attributes` holds the attributes of the program's
/// vertex types, each named under the name the definition gives it.
pub fn shader_sources<const N: usize, const S: usize, const A: usize>(
    def: &ProgramDef<N, S, A>,
    uniform_fields: &Vec<Vec<(String, String)>>,
    attributes: &Vec<Attribute>,
) -> (r: [(u32, String); 2])
    requires
        uniform_fields@.len() == N,
        sources_removable(*def),
    ensures
        r[0].0 == consts::VERTEX_SHADER,
        r[0].1@ == shader_header(uniform_names(*def), uniform_fields@, def.samplers@)
            + vertex_header(attributes@) + preprocessed(
            def.includes@,
            def.defines@,
            def.vertex_source@,
        ),
        r[1].0 == consts::FRAGMENT_SHADER,
        r[1].1@ == shader_header(uniform_names(*def), uniform_fields@, def.samplers@)
            + preprocessed(def.includes@, def.defines@, def.fragment_source@),
{
    let mut names: Vec<String> = Vec::new();
    let mut i: usize = 0;
    while i < N
        invariant
            i <= N,
            def.uniforms@.len() == N,
            names@ == uniform_names(*def).take(i as int),
        decreases N - i,
    {
        names.push(def.uniforms[i].0.clone());
        assert(names@ =~= uniform_names(*def).take(i + 1));
        i += 1;
    }
    assert(uniform_names(*def).take(N as int) =~= uniform_names(*def));
    let uniform_decls = uniform_blocks_glsl(&names, uniform_fields);
    let sampler_decls = sampler_declarations(&def.samplers);
    let mut header = SOURCE_HEADER.to_owned();
    header.append(uniform_decls.as_str());
    header.append(sampler_decls.as_str());

    let mut vertex = header.clone();
    let attribute_decls = vertex_source_header(attributes);
    vertex.append(attribute_decls.as_str());
    let vertex_body = preprocess(&def.includes, &def.defines, def.vertex_source.as_str());
    vertex.append(vertex_body.as_str());

    let mut fragment = header;
    let fragment_body = preprocess(&def.includes, &def.defines, def.fragment_source.as_str());
    fragment.append(fragment_body.as_str());

    [(consts::VERTEX_SHADER, vertex), (consts::FRAGMENT_SHADER, fragment)]
}

/// The attribute locations that a program binds before linking: attribute
/// `i` of the program's vertex types, in order, at location `i`.
pub fn attribute_locations(attributes: &Vec<Attribute>) -> (r: Vec<(u32, String)>)
    requires
        attributes@.len() <= u32::MAX + 1,
    ensures
        r@.len() == attributes@.len(),
        forall|i: int|
            0 <= i < r@.len() ==> #[trigger] r@[i].0 == i && r@[i].1@ == attributes@[i].name@,
{
    let mut r: Vec<(u32, String)> = Vec::new();
    let mut i: usize = 0;
    while i < attributes.len()
        invariant
            attributes@.len() <= u32::MAX + 1,
            i <= attributes@.len(),
            r@.len() == i,
            forall|j: int|
                0 <= j < i ==> #[trigger] r@[j].0 == j && r@[j].1@ == attributes@[j].name@,
        decreases attributes@.len() - i,
    {
        let ghost prev = r@;
        let name = attributes[i].name.clone();
        r.push((i as u32, name));
        assert forall|j: int| 0 <= j < i + 1 implies #[trigger] r@[j].0 == j && r@[j].1@
            == attributes@[j].name@ by {
            if j < i {
                assert(r@[j] == prev[j]);
            }
        }
        i += 1;
    }
    r
}

/// The texture units that a program's samplers read: sampler `i`, in
/// order, reads unit `i`.
pub fn sampler_units(samplers: &[String]) -> (r: Vec<(String, i32)>)
    requires
        samplers@.len() <= i32::MAX + 1,
    ensures
        r@.len() == samplers@.len(),
        forall|i: int|
            0 <= i < r@.len() ==> #[trigger] r@[i].1 == i && r@[i].0@ == samplers@[i]@,
{
    let mut r: Vec<(String, i32)> = Vec::new();
    let mut i: usize = 0;
    while i < samplers.len()
        invariant
            samplers@.len() <= i32::MAX + 1,
            i <= samplers@.len(),
            r@.len() == i,
            forall|j: int| 0 <= j < i ==> #[trigger] r@[j].1 == j && r@[j].0@ == samplers@[j]@,
        decreases samplers@.len() - i,
    {
        r.push((samplers[i].clone(), i as i32));
        i += 1;
    }
    r
}

/// The binding points of a program's uniform blocks, in order.
pub fn uniform_block_bindings<const N: usize, const S: usize, const A: usize>(
    def: &ProgramDef<N, S, A>,
) -> (r: Vec<u32>)
    ensures
        r@ == def.uniforms@.map_values(|u: (String, u32)| u.1),
{
    let mut r: Vec<u32> = Vec::new();
    let mut i: usize = 0;
    while i < N
        invariant
            i <= N,
            def.uniforms@.len() == N,
            r@ == def.uniforms@.take(i as int).map_values(|u: (String, u32)| u.1),
        decreases N - i,
    {
        r.push(def.uniforms[i].1);
        assert(r@ =~= def.uniforms@.take(i + 1).map_values(|u: (String, u32)| u.1));
        i += 1;
    }
    assert(def.uniforms@.take(N as int) =~= def.uniforms@);
    r
}

} // verus!
