//! GLSL declarations of uniform blocks.

use vstd::prelude::*;

use crate::text::{concat, concat_all};

verus! {

/// The name of the block type that holds the uniform block instance
/// `instance_name`: the instance name between two underscores.
pub open spec fn block_name_spec(instance_name: Seq<char>) -> Seq<char> {
    "_"@ + instance_name + "_"@
}

/// The name of the block type that holds the uniform block instance
/// `instance_name`.
pub fn block_name(instance_name: &str) -> (r: String)
    ensures
        r@ == block_name_spec(instance_name@),
{
    let mut r = concat("_", instance_name);
    r.append("_");
    r
}

/// The declaration of one field of a uniform block: a tab, the type, a
/// space, the name, a semicolon and a newline.
pub open spec fn field_decl(field: (String, String)) -> Seq<char> {
    "\t"@ + field.0@ + " "@ + field.1@ + ";\n"@
}

/// The GLSL declaration of the uniform block instance `instance_name`
/// whose fields are the `(type, name)` pairs `fields`.
pub open spec fn block_decl(instance_name: Seq<char>, fields: Seq<(String, String)>) -> Seq<char> {
    "uniform "@ + block_name_spec(instance_name) + " {\n"@ + concat_all(
        fields.map_values(|f: (String, String)| field_decl(f)),
    ) + "} "@ + instance_name + ";\n"@
}

/// Declares the uniform block instance `instance_name` with the given
/// `(type, name)` fields.
pub fn glsl_definitions(instance_name: &str, fields: &Vec<(String, String)>) -> (r: String)
    ensures
        r@ == block_decl(instance_name@, fields@),
{
    let ghost decls = fields@.map_values(|f: (String, String)| field_decl(f));
    let block = block_name(instance_name);
    let mut r = concat("uniform ", block.as_str());
    r.append(" {\n");
    let ghost start = r@;
    let mut i: usize = 0;
    while i < fields.len()
        invariant
            decls == fields@.map_values(|f: (String, String)| field_decl(f)),
            i <= fields.len(),
            r@ == start + concat_all(decls.take(i as int)),
        decreases fields.len() - i,
    {
        r.append("\t");
        r.append(fields[i].0.as_str());
        r.append(" ");
        r.append(fields[i].1.as_str());
        r.append(";\n");
        assert(decls.take(i + 1).drop_last() =~= decls.take(i as int));
        assert(r@ =~= start + concat_all(decls.take(i + 1)));
        i += 1;
    }
    assert(decls.take(fields.len() as int) =~= decls);
    r.append("} ");
    r.append(instance_name);
    r.append(";\n");
    r
}

/// The declarations of several uniform block instances, one after the
/// other: instance `instance_names[i]` has the `(type, name)` fields
/// `fields[i]`.
pub open spec fn blocks_decl(instance_names: Seq<String>, fields: Seq<Vec<(String, String)>>) -> Seq<
    char,
> {
    concat_all(Seq::new(instance_names.len(), |i: int| block_decl(instance_names[i]@, fields[i]@)))
}

/// Declares several uniform block instances, one after the other.
pub fn uniform_blocks_glsl(instance_names: &Vec<String>, fields: &Vec<Vec<(String, String)>>) -> (r:
    String)
    requires
        instance_names@.len() == fields@.len(),
    ensures
        r@ == blocks_decl(instance_names@, fields@),
{
    let ghost decls = Seq::new(
        instance_names@.len(),
        |i: int| block_decl(instance_names@[i]@, fields@[i]@),
    );
    let mut r = String::new();
    let mut i: usize = 0;
    while i < instance_names.len()
        invariant
            instance_names@.len() == fields@.len(),
            decls == Seq::new(
                instance_names@.len(),
                |i: int| block_decl(instance_names@[i]@, fields@[i]@),
            ),
            i <= instance_names.len(),
            r@ == concat_all(decls.take(i as int)),
        decreases instance_names.len() - i,
    {
        let decl = glsl_definitions(instance_names[i].as_str(), &fields[i]);
        r.append(decl.as_str());
        assert(decls.take(i + 1).drop_last() =~= decls.take(i as int));
        i += 1;
    }
    assert(decls.take(instance_names.len() as int) =~= decls);
    r
}

} // verus!
