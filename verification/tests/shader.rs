use malen::gl::program::{attribute_locations, sampler_units};
use malen::gl::program::{
    preprocess, remove_outer_braces, sampler_declarations, shader_sources,
    uniform_block_bindings, ProgramDef, SOURCE_HEADER,
};
use malen::gl::uniform_block::{block_name, glsl_definitions, uniform_blocks_glsl};
use malen::gl::vertex::{attribute_pointers, prefixed_attributes, vertex_source_header};
use malen::gl::{Attribute, AttributeValueType, DataType};
use malen::text::{join_strings, replace, text_eq};

fn attr(name: &str, offset: usize, ty: &'static str, value_type: AttributeValueType, n: usize) -> Attribute {
    Attribute { name: name.into(), offset, glsl_type_name: ty, value_type, num_elements: n }
}

#[test]
fn attribute_glsl_string() {
    let a = attr("a_position", 0, "vec3", AttributeValueType::Float, 3);
    assert_eq!(a.glsl_string(), "in vec3 a_position;\n");
    assert_eq!(AttributeValueType::Float.size(), 4);
    assert_eq!(AttributeValueType::Int.size(), 4);
    assert_eq!(AttributeValueType::Int.to_gl(), glow::INT);
    assert_eq!(AttributeValueType::Float.to_gl(), glow::FLOAT);
}

#[test]
fn vertex_header_lists_attributes() {
    let attrs = vec![
        attr("a_position", 0, "vec3", AttributeValueType::Float, 3),
        attr("a_index", 12, "int", AttributeValueType::Int, 1),
    ];
    assert_eq!(vertex_source_header(&attrs), "in vec3 a_position;\nin int a_index;\n\n");
    assert_eq!(vertex_source_header(&vec![]), "\n");
}

#[test]
fn attributes_are_prefixed() {
    let attrs = vec![attr("position", 0, "vec2", AttributeValueType::Float, 2)];
    let p = prefixed_attributes("i_light", &attrs);
    assert_eq!(p, vec![attr("i_light_position", 0, "vec2", AttributeValueType::Float, 2)]);
}

#[test]
fn attribute_pointers_are_consecutive() {
    let attrs = vec![
        attr("a_position", 0, "vec3", AttributeValueType::Float, 3),
        attr("a_index", 12, "int", AttributeValueType::Int, 1),
    ];
    let ptrs = attribute_pointers(&attrs, 16, 1, 2);
    assert_eq!(ptrs.len(), 2);
    assert_eq!((ptrs[0].index, ptrs[0].size, ptrs[0].data_type, ptrs[0].integer), (2, 3, glow::FLOAT, false));
    assert_eq!((ptrs[1].index, ptrs[1].size, ptrs[1].data_type, ptrs[1].integer), (3, 1, glow::INT, true));
    assert_eq!((ptrs[1].stride, ptrs[1].offset, ptrs[1].divisor), (16, 12, 1));
}

#[test]
fn data_type_of_i32() {
    let x: i32 = 0;
    assert_eq!(x.glsl_type_name(), "int");
    assert_eq!(x.value_type(), AttributeValueType::Int);
    assert_eq!(x.num_elements(), 1);
}

#[test]
fn uniform_block_declaration() {
    assert_eq!(block_name("matrices"), "_matrices_");
    let fields = vec![("mat3".to_string(), "view".to_string()), ("mat3".to_string(), "projection".to_string())];
    assert_eq!(
        glsl_definitions("matrices", &fields),
        "uniform _matrices_ {\n\tmat3 view;\n\tmat3 projection;\n} matrices;\n"
    );
    let both = uniform_blocks_glsl(
        &vec!["a".to_string(), "b".to_string()],
        &vec![vec![("float".to_string(), "x".to_string())], vec![]],
    );
    assert_eq!(both, "uniform _a_ {\n\tfloat x;\n} a;\nuniform _b_ {\n} b;\n");
}

#[test]
fn sampler_declarations_joined() {
    assert_eq!(
        sampler_declarations(&["sprite".to_string(), "normal_map".to_string()]),
        "uniform sampler2D sprite;\nuniform sampler2D normal_map;"
    );
    assert_eq!(sampler_declarations(&[]), "");
}

#[test]
fn outer_braces_are_removed() {
    assert_eq!(remove_outer_braces("{ void main() {} }"), " void main() {} ");
    assert_eq!(remove_outer_braces("void main() {}"), "void main() {}");
    assert_eq!(remove_outer_braces(""), "");
    assert_eq!(remove_outer_braces("{}"), "");
}

#[test]
fn text_helpers() {
    assert!(text_eq("abc", "abc"));
    assert!(!text_eq("abc", "abd"));
    assert!(!text_eq("ab", "abc"));
    assert_eq!(join_strings(&vec!["a".into(), "b".into(), "c".into()], ", "), "a, b, c");
    assert_eq!(replace("aaaa", "aa", "b"), "bb");
    assert_eq!(replace("xaay", "aa", ""), "xy");
    assert_eq!(replace("abc", "abcd", "z"), "abc");
    assert_eq!(replace("ünï{{x}}ünï", "{{x}}", "ø"), "ünïøünï");
}

#[test]
fn preprocess_applies_includes_and_defines() {
    let includes = vec!["{float f() { return {{pi}}; }}".to_string()];
    let defines = vec![("pi".to_string(), "3.14".to_string()), ("n".to_string(), "8".to_string())];
    let out = preprocess(&includes, &defines, "{void main() { int k = { { n } }; }}");
    assert_eq!(out, "float f() { return 3.14; }void main() { int k = 8; }");
}

#[test]
fn shader_sources_assembled() {
    let def: ProgramDef<1, 1, 1> = ProgramDef {
        uniforms: [("matrices".to_string(), 0)],
        samplers: ["screen_light".to_string()],
        attributes: ["a".to_string()],
        defines: vec![("gamma".to_string(), "2.2".to_string())],
        includes: vec![],
        vertex_source: "{void main() {}}".to_string(),
        fragment_source: "{void main() { float g = {{gamma}}; }}".to_string(),
    };
    let fields = vec![vec![("mat3".to_string(), "view".to_string())]];
    let attrs = prefixed_attributes("a", &vec![attr("position", 0, "vec3", AttributeValueType::Float, 3)]);
    let [(vt, vs), (ft, fs)] = shader_sources(&def, &fields, &attrs);
    let header = format!(
        "{}uniform _matrices_ {{\n\tmat3 view;\n}} matrices;\nuniform sampler2D screen_light;",
        SOURCE_HEADER
    );
    assert_eq!(vt, glow::VERTEX_SHADER);
    assert_eq!(ft, glow::FRAGMENT_SHADER);
    assert_eq!(vs, format!("{}in vec3 a_position;\n\nvoid main() {{}}", header));
    assert_eq!(fs, format!("{}void main() {{ float g = 2.2; }}", header));
    assert_eq!(uniform_block_bindings(&def), vec![0]);
    assert!(SOURCE_HEADER.starts_with("#version 300 es"));
}

#[test]
fn program_binding_plan() {
    let attrs = vec![
        attr("position", 0, "vec3", AttributeValueType::Float, 3),
        attr("order", 12, "int", AttributeValueType::Int, 1),
    ];
    assert_eq!(
        attribute_locations(&attrs),
        vec![(0, "position".to_string()), (1, "order".to_string())]
    );
    let samplers = ["albedo".to_string(), "light".to_string()];
    assert_eq!(sampler_units(&samplers), vec![("albedo".to_string(), 0), ("light".to_string(), 1)]);
    assert!(sampler_units(&[]).is_empty());
}
