//! Vertex attributes: their GLSL declarations, their names, and how they
//! are laid out in vertex arrays.

use vstd::prelude::*;

use super::consts;
use crate::text::{concat, concat_all};

verus! {

/// The scalar type of the elements of a vertex attribute.
#[derive(Debug, Clone, Copy, PartialEq, Eq, Structural)]
pub enum AttributeValueType {
    Float,
    Int,
}

/// A field of a vertex type, as the shader sees it.
#[derive(Debug, Clone, PartialEq, Eq)]
pub struct Attribute {
    pub name: String,
    /// Byte offset of the field within the vertex.
    pub offset: usize,
    pub glsl_type_name: &'static str,
    pub value_type: AttributeValueType,
    pub num_elements: usize,
}

/// The GL enumerant of an attribute value type.
pub open spec fn attribute_value_type_gl(t: AttributeValueType) -> u32 {
    match t {
        AttributeValueType::Float => consts::FLOAT,
        AttributeValueType::Int => consts::INT,
    }
}

/// The size in bytes of one element of an attribute value type: four bytes
/// for both `f32` and `i32`.
pub open spec fn attribute_value_size(t: AttributeValueType) -> usize {
    4
}

impl AttributeValueType {
    /// The GL enumerant of this value type.
    pub fn to_gl(self) -> (r: u32)
        ensures
            r == attribute_value_type_gl(self),
    {
        match self {
            AttributeValueType::Float => consts::FLOAT,
            AttributeValueType::Int => consts::INT,
        }
    }

    /// The size in bytes of one element of this value type.
    pub fn size(self) -> (r: usize)
        ensures
            r == attribute_value_size(self),
    {
        match self {
            AttributeValueType::Float => 4,
            AttributeValueType::Int => 4,
        }
    }
}

/// The GLSL declaration of an attribute: `in <type> <name>;` and a newline.
pub open spec fn attribute_decl(a: Attribute) -> Seq<char> {
    "in "@ + a.glsl_type_name@ + " "@ + a.name@ + ";\n"@
}

impl Attribute {
    /// The GLSL declaration of this attribute as a vertex shader input.
    pub fn glsl_string(&self) -> (r: String)
        ensures
            r@ == attribute_decl(*self),
    {
        let mut r = concat("in ", self.glsl_type_name);
        r.append(" ");
        r.append(self.name.as_str());
        r.append(";\n");
        r
    }
}

/// The declarations of all attributes, in order, followed by a newline.
pub open spec fn vertex_header(attributes: Seq<Attribute>) -> Seq<char> {
    concat_all(attributes.map_values(|a: Attribute| attribute_decl(a))) + "\n"@
}

/// The vertex shader inputs that declare the given attributes.
pub fn vertex_source_header(attributes: &Vec<Attribute>) -> (r: String)
    ensures
        r@ == vertex_header(attributes@),
{
    let ghost decls = attributes@.map_values(|a: Attribute| attribute_decl(a));
    let mut r = String::new();
    let mut i: usize = 0;
    while i < attributes.len()
        invariant
            decls == attributes@.map_values(|a: Attribute| attribute_decl(a)),
            i <= attributes.len(),
            r@ == concat_all(decls.take(i as int)),
        decreases attributes.len() - i,
    {
        let decl = attributes[i].glsl_string();
        r.append(decl.as_str());
        assert(decls.take(i + 1).drop_last() =~= decls.take(i as int));
        i += 1;
    }
    assert(decls.take(attributes.len() as int) =~= decls);
    r.append("\n");
    r
}

/// The attributes of a vertex type as they are named in a program that
/// binds the vertex type under `prefix`: each name becomes
/// `<prefix>_<name>`, all else is kept.
pub fn prefixed_attributes(prefix: &str, attributes: &Vec<Attribute>) -> (r: Vec<Attribute>)
    ensures
        r@.len() == attributes@.len(),
        forall|i: int|
            #![trigger r@[i]]
            0 <= i < r@.len() ==> r@[i].name@ == prefix@ + "_"@ + attributes@[i].name@
                && r@[i].offset == attributes@[i].offset && r@[i].glsl_type_name
                == attributes@[i].glsl_type_name && r@[i].value_type == attributes@[i].value_type
                && r@[i].num_elements == attributes@[i].num_elements,
{
    let mut r: Vec<Attribute> = Vec::new();
    let mut i: usize = 0;
    while i < attributes.len()
        invariant
            i <= attributes.len(),
            r@.len() == i,
            forall|j: int|
                #![trigger r@[j]]
                0 <= j < i ==> r@[j].name@ == prefix@ + "_"@ + attributes@[j].name@
                    && r@[j].offset == attributes@[j].offset && r@[j].glsl_type_name
                    == attributes@[j].glsl_type_name && r@[j].value_type
                    == attributes@[j].value_type && r@[j].num_elements
                    == attributes@[j].num_elements,
        decreases attributes.len() - i,
    {
        let a = &attributes[i];
        let mut name = concat(prefix, "_");
        name.append(a.name.as_str());
        r.push(
            Attribute {
                name,
                offset: a.offset,
                glsl_type_name: a.glsl_type_name,
                value_type: a.value_type,
                num_elements: a.num_elements,
            },
        );
        i += 1;
    }
    r
}

/// A `vertexAttribPointer` call (or its integer variant) with the settings
/// that go with it.
#[derive(Debug, Clone, Copy, PartialEq, Eq, Structural)]
pub struct AttributePointer {
    /// The attribute index; this index is also enabled.
    pub index: u32,
    /// The attribute's divisor for instanced drawing.
    pub divisor: u32,
    /// The number of elements.
    pub size: i32,
    /// The GL enumerant of the element type.
    pub data_type: u32,
    /// Whether the integer variant of the call is used.
    pub integer: bool,
    pub stride: i32,
    pub offset: i32,
}

/// Whether an attribute lies within a vertex of `stride` bytes.
pub open spec fn attribute_fits(a: Attribute, stride: usize) -> bool {
    a.offset + a.num_elements * attribute_value_size(a.value_type) <= stride
}

/// The call that binds attribute `a` of a vertex type of `stride` bytes to
/// index `index`.
pub open spec fn attribute_pointer(a: Attribute, stride: usize, divisor: u32, index: int) -> AttributePointer {
    AttributePointer {
        index: index as u32,
        divisor,
        size: a.num_elements as i32,
        data_type: attribute_value_type_gl(a.value_type),
        integer: a.value_type == AttributeValueType::Int,
        stride: stride as i32,
        offset: a.offset as i32,
    }
}

/// The calls that bind the attributes of a vertex type of `stride` bytes to
/// consecutive indices starting at `first_index`, with the given divisor.
/// The next free index is `first_index` plus the number of attributes.
pub fn attribute_pointers(
    attributes: &Vec<Attribute>,
    stride: usize,
    divisor: u32,
    first_index: usize,
) -> (r: Vec<AttributePointer>)
    requires
        forall|i: int| 0 <= i < attributes@.len() ==> attribute_fits(#[trigger] attributes@[i], stride),
        first_index + attributes@.len() <= usize::MAX,
    ensures
        r@ == Seq::new(
            attributes@.len(),
            |i: int| attribute_pointer(attributes@[i], stride, divisor, first_index + i),
        ),
{
    let mut r: Vec<AttributePointer> = Vec::new();
    let mut i: usize = 0;
    while i < attributes.len()
        invariant
            i <= attributes.len(),
            first_index + attributes@.len() <= usize::MAX,
            r@ == Seq::new(
                i as nat,
                |j: int| attribute_pointer(attributes@[j], stride, divisor, first_index + j),
            ),
        decreases attributes.len() - i,
    {
        let a = &attributes[i];
        let index = first_index + i;
        let p = AttributePointer {
            index: index as u32,
            divisor,
            size: a.num_elements as i32,
            data_type: a.value_type.to_gl(),
            integer: a.value_type == AttributeValueType::Int,
            stride: stride as i32,
            offset: a.offset as i32,
        };
        r.push(p);
        assert(r@ =~= Seq::new(
            (i + 1) as nat,
            |j: int| attribute_pointer(attributes@[j], stride, divisor, first_index + j),
        ));
        i += 1;
    }
    r
}

/// The information about a field type that vertex attributes are made of.
pub trait DataType {
    /// The GLSL type that the field is declared with.
    fn glsl_type_name(&self) -> &'static str;

    /// The scalar type of the field's elements.
    fn value_type(&self) -> AttributeValueType;

    /// The number of scalar elements in the field.
    fn num_elements(&self) -> usize;
}

impl DataType for i32 {
    fn glsl_type_name(&self) -> (name: &'static str)
        ensures
            name@ == "int"@,
    {
        "int"
    }

    fn value_type(&self) -> (t: AttributeValueType)
        ensures
            t == AttributeValueType::Int,
    {
        AttributeValueType::Int
    }

    fn num_elements(&self) -> (n: usize)
        ensures
            n == 1,
    {
        1
    }
}

/// The GL enumerant of each value, against the GL's constants: each constant names exactly one value.
pub proof fn lemma_attribute_value_type_gl_values(x: AttributeValueType)
    ensures
        (attribute_value_type_gl(x) == consts::FLOAT) == (x == AttributeValueType::Float),
        (attribute_value_type_gl(x) == consts::INT) == (x == AttributeValueType::Int),
{
}

} // verus!
