//! The canonical reference template: a fixed source snippet that exercises
//! every inference rule, so that a configuration generated from it recovers
//! the template's own style.

use crate::write_cfg::line_views;
use vstd::prelude::*;

verus! {

/// The template's lines, in order.
pub open spec fn reference_lines() -> Seq<Seq<char>> {
    seq![
        ""@,
        "///////////////////////////////////// MAX WIDTH ///////////////////////////////////////////////////////////"@,
        ""@,
        "namespace lib"@,
        "{"@,
        ""@,
        "enum TYPES"@,
        "{"@,
        "    TYPE_A,"@,
        "    TYPE_B,"@,
        "};"@,
        ""@,
        "struct test_data "@,
        "{"@,
        "    float data;"@,
        "};"@,
        ""@,
        "class ReferenceClass "@,
        "{"@,
        "public:"@,
        "    ReferenceClass(int* value, float& ref)"@,
        "    {"@,
        "        if (value) "@,
        "        {"@,
        "            int a = 5;"@,
        "        }"@,
        "        else"@,
        "        {"@,
        "            int a = 6;"@,
        "        }"@,
        "    }"@,
        "private:"@,
        "    int values[5];"@,
        "};"@,
        ""@,
        "} // namespace lib"@,
    ]
}

/// Appends the canonical reference template, exactly `reference_lines()`.
#[verifier::rlimit(100)]
#[verifier::spinoff_prover]
pub fn generate_reference_file(lines: &mut Vec<String>)
    ensures
        line_views(final(lines)@) == line_views(old(lines)@) + reference_lines(),
{
    lines.push(String::new());
    lines.push(
        String::from_str(
            "///////////////////////////////////// MAX WIDTH ///////////////////////////////////////////////////////////",
        ),
    );
    lines.push(String::new());
    lines.push(String::from_str("namespace lib"));
    lines.push(String::from_str("{"));
    lines.push(String::new());
    lines.push(String::from_str("enum TYPES"));
    lines.push(String::from_str("{"));
    lines.push(String::from_str("    TYPE_A,"));
    lines.push(String::from_str("    TYPE_B,"));
    lines.push(String::from_str("};"));
    lines.push(String::new());
    lines.push(String::from_str("struct test_data "));
    lines.push(String::from_str("{"));
    lines.push(String::from_str("    float data;"));
    lines.push(String::from_str("};"));
    lines.push(String::new());
    lines.push(String::from_str("class ReferenceClass "));
    lines.push(String::from_str("{"));
    lines.push(String::from_str("public:"));
    lines.push(String::from_str("    ReferenceClass(int* value, float& ref)"));
    lines.push(String::from_str("    {"));
    lines.push(String::from_str("        if (value) "));
    lines.push(String::from_str("        {"));
    lines.push(String::from_str("            int a = 5;"));
    lines.push(String::from_str("        }"));
    lines.push(String::from_str("        else"));
    lines.push(String::from_str("        {"));
    lines.push(String::from_str("            int a = 6;"));
    lines.push(String::from_str("        }"));
    lines.push(String::from_str("    }"));
    lines.push(String::from_str("private:"));
    lines.push(String::from_str("    int values[5];"));
    lines.push(String::from_str("};"));
    lines.push(String::new());
    lines.push(String::from_str("} // namespace lib"));
    proof {
        reveal_strlit("");
        assert(""@ =~= Seq::<char>::empty());
        assert(line_views(lines@) =~= line_views(old(lines)@) + reference_lines());
    }
}

} // verus!
