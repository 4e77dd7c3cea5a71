//! What each target type system makes of a type node.
//!
//! There are four targets: a validation-schema library, a dynamically typed
//! language, a compiled language with sized numbers, and a strict variant of
//! the first for a wire protocol. Each has its own rules; all four read a node
//! in the same order: array, then reference, then enumeration, then primitive.

use vstd::prelude::*;
use vstd::string::*;
use crate::parsers::schema_ir::TypeInfoView;
use crate::text::{join, lemma_join_push};

verus! {

/// A value between double quotes.
pub open spec fn quoted(value: Seq<char>) -> Seq<char> {
    "\""@ + value + "\""@
}

/// The values, each between double quotes, separated by a comma and a space.
pub open spec fn quoted_list(values: Seq<Seq<char>>) -> Seq<char> {
    join(values.map_values(|v: Seq<char>| quoted(v)), ", "@)
}

/// The closed union of string literals whose members are `values`, in their
/// order.
pub open spec fn zod_enum(values: Seq<Seq<char>>) -> Seq<char> {
    "z.enum(["@ + quoted_list(values) + "])"@
}

/// The validation target's array of `inner`.
pub open spec fn zod_array(inner: Seq<char>) -> Seq<char> {
    "z.array("@ + inner + ")"@
}

/// The dynamic target's list of `inner`.
pub open spec fn python_list(inner: Seq<char>) -> Seq<char> {
    "List["@ + inner + "]"@
}

/// The compiled target's slice of `inner`.
pub open spec fn golang_slice(inner: Seq<char>) -> Seq<char> {
    "[]"@ + inner
}

/// The wire target's name for the schema called `name`.
pub open spec fn wire_reference(name: Seq<char>) -> Seq<char> {
    name + "Schema"@
}

/// The validation target's reading of a node that is not taken as an array.
pub open spec fn zod_scalar(t: TypeInfoView) -> Seq<char> {
    if let Some(name) = t.reference {
        name
    } else if let Some(values) = t.enum_values {
        zod_enum(values)
    } else if t.openapi_type == "string"@ {
        match t.format {
            Some(format) => {
                if format == "date"@ || format == "date-time"@ {
                    "z.date().or(z.string())"@
                } else if format == "email"@ {
                    "z.string().email()"@
                } else if format == "uuid"@ {
                    "z.string().uuid()"@
                } else if format == "uri"@ {
                    "z.string().url()"@
                } else {
                    "z.string()"@
                }
            },
            None => "z.string()"@,
        }
    } else if t.openapi_type == "integer"@ || t.openapi_type == "number"@ {
        "z.number()"@
    } else if t.openapi_type == "boolean"@ {
        "z.boolean()"@
    } else {
        "z.any()"@
    }
}

/// The validation target's projection of a node.
pub open spec fn zod_type(t: TypeInfoView) -> Seq<char>
    decreases t,
{
    if t.is_array {
        match t.array_item_type {
            Some(item) => zod_array(zod_type(*item)),
            None => zod_array("z.any()"@),
        }
    } else {
        zod_scalar(t)
    }
}

/// The dynamic target's reading of a node that is not taken as an array.
pub open spec fn python_scalar(t: TypeInfoView) -> Seq<char> {
    if let Some(name) = t.reference {
        name
    } else if t.enum_values is Some {
        "str"@
    } else if t.openapi_type == "string"@ {
        match t.format {
            Some(format) => {
                if format == "date"@ || format == "date-time"@ {
                    "datetime"@
                } else {
                    "str"@
                }
            },
            None => "str"@,
        }
    } else if t.openapi_type == "integer"@ {
        "int"@
    } else if t.openapi_type == "number"@ {
        "float"@
    } else if t.openapi_type == "boolean"@ {
        "bool"@
    } else if t.openapi_type == "object"@ {
        "Dict[str, Any]"@
    } else {
        "Any"@
    }
}

/// The dynamic target's projection of a node.
pub open spec fn python_type(t: TypeInfoView) -> Seq<char>
    decreases t,
{
    if t.is_array {
        match t.array_item_type {
            Some(item) => python_list(python_type(*item)),
            None => python_list("Any"@),
        }
    } else {
        python_scalar(t)
    }
}

/// The compiled target's reading of a node that is not taken as an array.
pub open spec fn golang_scalar(t: TypeInfoView) -> Seq<char> {
    if let Some(name) = t.reference {
        name
    } else if t.enum_values is Some {
        "string"@
    } else if t.openapi_type == "string"@ {
        "string"@
    } else if t.openapi_type == "integer"@ {
        match t.format {
            Some(format) => {
                if format == "int32"@ {
                    "int32"@
                } else if format == "int64"@ {
                    "int64"@
                } else {
                    "int"@
                }
            },
            None => "int"@,
        }
    } else if t.openapi_type == "number"@ {
        match t.format {
            Some(format) => {
                if format == "float"@ {
                    "float32"@
                } else {
                    "float64"@
                }
            },
            None => "float64"@,
        }
    } else if t.openapi_type == "boolean"@ {
        "bool"@
    } else if t.openapi_type == "object"@ {
        "map[string]interface{}"@
    } else {
        "interface{}"@
    }
}

/// The compiled target's projection of a node.
pub open spec fn golang_type(t: TypeInfoView) -> Seq<char>
    decreases t,
{
    if t.is_array {
        match t.array_item_type {
            Some(item) => golang_slice(golang_type(*item)),
            None => golang_slice("interface{}"@),
        }
    } else {
        golang_scalar(t)
    }
}

/// The wire target's reading of a node that is not taken as an array.
pub open spec fn wire_scalar(t: TypeInfoView) -> Seq<char> {
    if let Some(name) = t.reference {
        wire_reference(name)
    } else if let Some(values) = t.enum_values {
        zod_enum(values)
    } else if t.openapi_type == "string"@ {
        match t.format {
            Some(format) => {
                if format == "email"@ {
                    "z.string().email()"@
                } else if format == "uuid"@ {
                    "z.string().uuid()"@
                } else if format == "uri"@ || format == "url"@ {
                    "z.string().url()"@
                } else if format == "date"@ || format == "date-time"@ {
                    "z.string().datetime()"@
                } else {
                    "z.string()"@
                }
            },
            None => "z.string()"@,
        }
    } else if t.openapi_type == "integer"@ {
        "z.number().int()"@
    } else if t.openapi_type == "number"@ {
        "z.number()"@
    } else if t.openapi_type == "boolean"@ {
        "z.boolean()"@
    } else if t.openapi_type == "object"@ {
        "z.record(z.any())"@
    } else {
        "z.any()"@
    }
}

/// The wire target's projection of a node.
pub open spec fn wire_type(t: TypeInfoView) -> Seq<char>
    decreases t,
{
    if t.is_array {
        match t.array_item_type {
            Some(item) => zod_array(wire_type(*item)),
            None => zod_array("z.any()"@),
        }
    } else {
        wire_scalar(t)
    }
}

/// Whether `t` is an array of arrays, `depth` levels deep, each level with
/// an element type.
pub open spec fn nests(t: TypeInfoView, depth: nat) -> bool
    decreases depth,
{
    depth == 0 || (t.is_array && t.array_item_type is Some && nests(
        *t.array_item_type->0,
        (depth - 1) as nat,
    ))
}

/// The node found `depth` levels below `t`, going from array to element.
pub open spec fn element_at(t: TypeInfoView, depth: nat) -> TypeInfoView
    recommends
        nests(t, depth),
    decreases depth,
{
    if depth == 0 {
        t
    } else {
        element_at(*t.array_item_type->0, (depth - 1) as nat)
    }
}

/// `inner` inside `depth` layers of the collection wrapper `wrap`.
pub open spec fn wrapped(
    wrap: spec_fn(Seq<char>) -> Seq<char>,
    depth: nat,
    inner: Seq<char>,
) -> Seq<char>
    decreases depth,
{
    if depth == 0 {
        inner
    } else {
        wrap(wrapped(wrap, (depth - 1) as nat, inner))
    }
}

/// Every target projects an array with an element type as its collection
/// wrapper around the projection of the element.
pub proof fn lemma_array_projection(t: TypeInfoView, item: TypeInfoView)
    requires
        t.is_array,
        t.array_item_type == Some(Box::new(item)),
    ensures
        zod_type(t) == zod_array(zod_type(item)),
        python_type(t) == python_list(python_type(item)),
        golang_type(t) == golang_slice(golang_type(item)),
        wire_type(t) == zod_array(wire_type(item)),
{
}

/// The same at any depth: arrays nested `depth` levels deep project as
/// `depth` layers of the target's collection wrapper around the projection of
/// the innermost element.
pub proof fn lemma_nested_array_projection(t: TypeInfoView, depth: nat)
    requires
        nests(t, depth),
    ensures
        zod_type(t) == wrapped(|s: Seq<char>| zod_array(s), depth, zod_type(element_at(t, depth))),
        python_type(t) == wrapped(
            |s: Seq<char>| python_list(s),
            depth,
            python_type(element_at(t, depth)),
        ),
        golang_type(t) == wrapped(
            |s: Seq<char>| golang_slice(s),
            depth,
            golang_type(element_at(t, depth)),
        ),
        wire_type(t) == wrapped(|s: Seq<char>| zod_array(s), depth, wire_type(element_at(t, depth))),
    decreases depth,
{
    if depth > 0 {
        lemma_nested_array_projection(*t.array_item_type->0, (depth - 1) as nat);
    }
}

/// A node that is not an array and points to the schema `name` projects as
/// `name` followed by the fixed suffix in the wire target, and as `name`
/// itself in the other three.
pub proof fn lemma_reference_projection(t: TypeInfoView, name: Seq<char>)
    requires
        !t.is_array,
        t.reference == Some(name),
    ensures
        wire_type(t) == name + "Schema"@,
        zod_type(t) == name,
        python_type(t) == name,
        golang_type(t) == name,
{
}

/// A node that is neither an array nor a reference and carries the
/// enumeration `values` projects as the plain string type in the dynamic and
/// the compiled target, whatever the values are, and as the closed union of
/// exactly `values`, in their order, in the validation and the wire target.
pub proof fn lemma_enum_projection(t: TypeInfoView, values: Seq<Seq<char>>)
    requires
        !t.is_array,
        t.reference is None,
        t.enum_values == Some(values),
    ensures
        python_type(t) == "str"@,
        golang_type(t) == "string"@,
        zod_type(t) == zod_enum(values),
        wire_type(t) == zod_enum(values),
        zod_enum(values) == "z.enum(["@ + join(
            Seq::new(values.len(), |i: int| "\""@ + values[i] + "\""@),
            ", "@,
        ) + "])"@,
{
    assert(values.map_values(|v: Seq<char>| quoted(v)) =~= Seq::new(
        values.len(),
        |i: int| "\""@ + values[i] + "\""@,
    ));
}

/// A plain string node with the format `date-time` projects as a union of
/// date and string in the validation target, as a strict datetime string in
/// the wire target, and as a plain string in the compiled target, which has
/// no rule for dates.
pub proof fn lemma_date_time_projection(t: TypeInfoView)
    requires
        !t.is_array,
        t.reference is None,
        t.enum_values is None,
        t.openapi_type == "string"@,
        t.format == Some("date-time"@),
    ensures
        zod_type(t) == "z.date().or(z.string())"@,
        wire_type(t) == "z.string().datetime()"@,
        golang_type(t) == "string"@,
{
    reveal_strlit("date-time");
    reveal_strlit("email");
    reveal_strlit("uuid");
    reveal_strlit("uri");
    reveal_strlit("url");
    assert("date-time"@.len() == 9);
    assert("email"@.len() == 5);
    assert("uuid"@.len() == 4);
    assert("uri"@.len() == 3);
    assert("url"@.len() == 3);
}

/// A plain integer node projects in the compiled target as the 64-bit
/// integer where its format is `int64` and as the platform's integer where
/// it has no format; in the validation target it is a plain number either
/// way.
pub proof fn lemma_integer_projection(t: TypeInfoView)
    requires
        !t.is_array,
        t.reference is None,
        t.enum_values is None,
        t.openapi_type == "integer"@,
    ensures
        t.format == Some("int64"@) ==> golang_type(t) == "int64"@,
        t.format is None ==> golang_type(t) == "int"@,
        zod_type(t) == "z.number()"@,
{
    reveal_strlit("integer");
    reveal_strlit("string");
    reveal_strlit("int64");
    reveal_strlit("int32");
    assert("integer"@.len() == 7);
    assert("string"@.len() == 6);
    assert("int64"@[3] == '6');
    assert("int32"@[3] == '3');
}

/// Writes the validation target's array of `inner`.
pub fn zod_array_text(inner: String) -> (out: String)
    ensures
        out@ == zod_array(inner@),
{
    let mut out = String::from_str("z.array(");
    out.append(inner.as_str());
    out.append(")");
    out
}

/// Writes the dynamic target's list of `inner`.
pub fn python_list_text(inner: String) -> (out: String)
    ensures
        out@ == python_list(inner@),
{
    let mut out = String::from_str("List[");
    out.append(inner.as_str());
    out.append("]");
    out
}

/// Writes the compiled target's slice of `inner`.
pub fn golang_slice_text(inner: String) -> (out: String)
    ensures
        out@ == golang_slice(inner@),
{
    let mut out = String::from_str("[]");
    out.append(inner.as_str());
    out
}

/// Writes the closed union of string literals with the members `values`.
pub fn zod_enum_text(values: &Vec<String>) -> (out: String)
    ensures
        out@ == zod_enum(values.deep_view()),
{
    let ghost all = values.deep_view();
    let mut out = String::from_str("z.enum([");
    let mut i: usize = 0;
    proof {
        assert(all.take(0).map_values(|v: Seq<char>| quoted(v)) =~= Seq::<Seq<char>>::empty());
        assert("z.enum(["@ + Seq::<char>::empty() =~= "z.enum(["@);
    }
    while i < values.len()
        invariant
            i <= values.len(),
            all == values.deep_view(),
            out@ == "z.enum(["@ + quoted_list(all.take(i as int)),
        decreases values.len() - i,
    {
        let ghost before = out@;
        if i > 0 {
            out.append(", ");
        }
        out.append("\"");
        out.append(values[i].as_str());
        out.append("\"");
        proof {
            let done = all.take(i as int).map_values(|v: Seq<char>| quoted(v));
            let next = all.take(i + 1).map_values(|v: Seq<char>| quoted(v));
            assert(all.take(i + 1) =~= all.take(i as int).push(all[i as int]));
            assert(next =~= done.push(quoted(all[i as int])));
            lemma_join_push(done, ", "@, quoted(all[i as int]));
            assert(all[i as int] == values@[i as int]@);
            if i > 0 {
                assert(out@ =~= before + ", "@ + quoted(all[i as int]));
                assert(out@ =~= "z.enum(["@ + quoted_list(all.take(i + 1)));
            } else {
                assert(quoted_list(all.take(0)) =~= Seq::<char>::empty());
                assert(out@ =~= "z.enum(["@ + quoted_list(all.take(i + 1)));
            }
        }
        i += 1;
    }
    assert(all.take(i as int) =~= all);
    out.append("])");
    out
}

} // verus!
