//! Reference documentation of an actor, written from its registry: a table
//! of the methods and, for each, the payload that calls it over HTTP and
//! over WebSocket.
use vstd::prelude::*;
use crate::registry::{MethodDecl, MethodSig, Param, ParamKind, sigs_view, kind_name, kind_text};
use crate::text::{join, push_text};

verus! {

/// A sample JSON value of a parameter kind.
pub open spec fn example_value(kind: ParamKind) -> Seq<char> {
    match kind {
        ParamKind::Unit => "null"@,
        ParamKind::I32 => "42"@,
        ParamKind::I64 => "42"@,
        ParamKind::U64 => "42"@,
        ParamKind::Text => "\"example\""@,
        ParamKind::Bool => "true"@,
        ParamKind::Optional(_) => "null"@,
        ParamKind::List(_) => "[]"@,
        ParamKind::Outcome(_, _) => "\"value\""@,
    }
}

/// A parameter in the overview table: `` `a`: `i32` ``.
pub open spec fn table_param(p: (Seq<char>, ParamKind)) -> Seq<char> {
    "`"@ + p.0 + "`: `"@ + kind_name(p.1) + "`"@
}

/// A parameter in a method's list.
pub open spec fn list_param(p: (Seq<char>, ParamKind)) -> Seq<char> {
    "  - `"@ + p.0 + "`: `"@ + kind_name(p.1) + "`\n"@
}

/// A member of a sample payload, indented by `indent`.
pub open spec fn payload_member(p: (Seq<char>, ParamKind), indent: Seq<char>) -> Seq<char> {
    indent + "\""@ + p.0 + "\": "@ + example_value(p.1)
}

/// Where a parameter is written.
#[derive(Clone, Copy, Debug, PartialEq, Eq)]
pub enum Piece {
    /// In the overview table.
    Table,
    /// In the list of a method's parameters.
    List,
    /// In a sample HTTP payload.
    Member,
    /// In the `params` of a sample WebSocket envelope.
    NestedMember,
    /// In the object of a sample JavaScript call.
    Script,
}

/// How a parameter is written in each place.
pub open spec fn param_piece(style: Piece, p: (Seq<char>, ParamKind)) -> Seq<char> {
    match style {
        Piece::Table => table_param(p),
        Piece::List => list_param(p),
        Piece::Member => payload_member(p, "  "@),
        Piece::NestedMember => payload_member(p, "    "@),
        Piece::Script => "    "@ + p.0 + ": "@ + example_value(p.1),
    }
}

/// How each parameter of a list is written in one place.
pub open spec fn param_pieces(style: Piece, params: Seq<(Seq<char>, ParamKind)>) -> Seq<Seq<char>> {
    params.map_values(|p: (Seq<char>, ParamKind)| param_piece(style, p))
}

/// The row of a method in the overview table.
pub open spec fn table_row(m: MethodSig) -> Seq<char> {
    "| `"@ + m.name + "` | "@ + (if m.params.len() == 0 {
        "None"@
    } else {
        join(param_pieces(Piece::Table, m.params), ", "@)
    }) + " | `"@ + kind_name(m.result) + "` |\n"@
}

/// The sample JSON object of a method's parameters: at the top of an HTTP
/// payload, or nested in a WebSocket envelope.
pub open spec fn sample_object(m: MethodSig, nested: bool) -> Seq<char> {
    if m.params.len() == 0 {
        "{}\n"@
    } else if nested {
        "{\n"@ + join(param_pieces(Piece::NestedMember, m.params), ",\n"@) + "\n  }\n"@
    } else {
        "{\n"@ + join(param_pieces(Piece::Member, m.params), ",\n"@) + "\n}\n"@
    }
}

/// The start of a method's section: its heading, its description, its
/// parameters and its result type.
pub open spec fn method_head(m: MethodSig) -> Seq<char> {
    "---\n# Method `"@ + m.name + "`\n\n"@ + (if m.doc.len() == 0 {
        Seq::empty()
    } else {
        m.doc + "\n\n"@
    }) + (if m.params.len() == 0 {
        "- **Parameters:** None\n\n"@
    } else {
        "- **Parameters:**\n"@ + join(param_pieces(Piece::List, m.params), Seq::empty()) + "\n"@
    }) + "- **Returns:** `"@ + kind_name(m.result) + "`\n\n"@
}

/// The sample payloads of a method, for HTTP and for WebSocket.
pub open spec fn payload_part(m: MethodSig) -> Seq<char> {
    "**JSON Payload:**\n```json\n"@ + sample_object(m, false) + "```\n\n"@
        + "**WebSocket Payload:**\nFor web socket usage, we must embed the method name in the request separately from the parameters"@
        + " - we cannot just use the URL as we do with HTTP as we want a long-lived connection for all invocations."@
        + "We build a single payload with a `method` field and a `params` field as follows:\n"@
        + "```json\n{\n  \"method\": \""@ + m.name + "\",\n  \"params\": "@ + sample_object(m, true)
        + "}\n```\n\n"@
}

/// The object handed to `JSON.stringify` in the sample JavaScript call.
pub open spec fn script_object(m: MethodSig) -> Seq<char> {
    if m.params.len() == 0 {
        "{}"@
    } else if m.params.len() == 1 {
        "{"@ + m.params[0].0 + ": "@ + example_value(m.params[0].1) + "}"@
    } else {
        "{\n"@ + join(param_pieces(Piece::Script, m.params), ",\n"@) + "\n  }"@
    }
}

/// The sample JavaScript call of a method, and a note on its headers.
pub open spec fn script_part(m: MethodSig) -> Seq<char> {
    "**Usage Example from Javascript:**\n```js\nresult = await fetch(\"http://localhost:9000/"@ + m.name
        + "\", {\n  method: 'POST',\n  headers: { 'Content-Type': 'application/json' },\n  body: JSON.stringify("@
        + script_object(m) + ")\n});\n```\n\n"@ + "**Note about Content-Type header:**\n"@
        + "The `Content-Type: application/json` header is recommended for proper HTTP semantics "@
        + "and browser CORS handling, though the server will accept any content type as long as "@
        + "the body contains valid JSON. Without this header, browsers may send "@
        + "`application/x-www-form-urlencoded` by default.\n\n"@
}

/// The section of one method.
pub open spec fn method_section(m: MethodSig) -> Seq<char> {
    method_head(m) + payload_part(m) + script_part(m)
}

/// The documentation of an actor type with these methods.
pub open spec fn actor_documentation(actor_type: Seq<char>, methods: Seq<MethodSig>) -> Seq<char> {
    "Actor implementation for `"@ + actor_type + "`.\n\n"@
        + "This implementation provides JSON-based method dispatch for the following methods:\n\n"@
        + "| Method | Parameters | Return Type |\n|--------|------------|-------------|\n"@ + join(
        methods.map_values(|m: MethodSig| table_row(m)),
        Seq::empty(),
    ) + join(methods.map_values(|m: MethodSig| method_section(m)), Seq::empty())
}

/// A sample JSON value for a parameter of this kind.
pub fn generate_example_value(kind: &ParamKind) -> (r: &'static str)
    ensures
        r@ == example_value(*kind),
{
    match kind {
        ParamKind::Unit => "null",
        ParamKind::I32 => "42",
        ParamKind::I64 => "42",
        ParamKind::U64 => "42",
        ParamKind::Text => "\"example\"",
        ParamKind::Bool => "true",
        ParamKind::Optional(_) => "null",
        ParamKind::List(_) => "[]",
        ParamKind::Outcome(_, _) => "\"value\"",
    }
}

/// Appends the pieces to `out`, with `sep` between each two.
fn push_joined(out: &mut String, items: &Vec<String>, sep: &str)
    ensures
        final(out)@ == old(out)@ + join(items@.map_values(|s: String| s@), sep@),
{
    let ghost start = out@;
    let ghost views = items@.map_values(|s: String| s@);
    let n = items.len();
    let mut i: usize = 0;
    assert(views.take(0) =~= Seq::<Seq<char>>::empty());
    assert(out@ =~= start + join(views.take(0), sep@));
    while i < n
        invariant
            n == items@.len(),
            views == items@.map_values(|s: String| s@),
            0 <= i <= n,
            out@ == start + join(views.take(i as int), sep@),
        decreases n - i,
    {
        assert(views.take(i as int + 1).drop_last() =~= views.take(i as int));
        assert(views.take(i as int + 1).last() == items@[i as int]@);
        if i > 0 {
            push_text(out, sep);
        } else {
            assert(views.take(1) =~= seq![items@[0]@]);
        }
        push_text(out, items[i].as_str());
        assert(out@ =~= start + join(views.take(i as int + 1), sep@));
        i = i + 1;
    }
    assert(views.take(n as int) =~= views);
}

/// Writes one parameter for one place.
fn param_text(style: Piece, p: &Param) -> (r: String)
    ensures
        r@ == param_piece(style, p@),
{
    let mut s = String::new();
    match style {
        Piece::Table => {
            push_text(&mut s, "`");
            push_text(&mut s, p.name.as_str());
            push_text(&mut s, "`: `");
            let rust_type = kind_text(&p.kind);
            push_text(&mut s, rust_type.as_str());
            push_text(&mut s, "`");
        },
        Piece::List => {
            push_text(&mut s, "  - `");
            push_text(&mut s, p.name.as_str());
            push_text(&mut s, "`: `");
            let rust_type = kind_text(&p.kind);
            push_text(&mut s, rust_type.as_str());
            push_text(&mut s, "`\n");
        },
        Piece::Member => {
            push_text(&mut s, "  ");
            push_text(&mut s, "\"");
            push_text(&mut s, p.name.as_str());
            push_text(&mut s, "\": ");
            push_text(&mut s, generate_example_value(&p.kind));
        },
        Piece::Script => {
            push_text(&mut s, "    ");
            push_text(&mut s, p.name.as_str());
            push_text(&mut s, ": ");
            push_text(&mut s, generate_example_value(&p.kind));
        },
        Piece::NestedMember => {
            push_text(&mut s, "    ");
            push_text(&mut s, "\"");
            push_text(&mut s, p.name.as_str());
            push_text(&mut s, "\": ");
            push_text(&mut s, generate_example_value(&p.kind));
        },
    }
    assert(s@ =~= param_piece(style, p@));
    s
}

/// Writes each parameter for one place.
fn params_text(style: Piece, params: &Vec<Param>) -> (r: Vec<String>)
    ensures
        r@.map_values(|s: String| s@) == param_pieces(style, params@.map_values(|p: Param| p@)),
{
    let mut r: Vec<String> = Vec::new();
    let n = params.len();
    let mut i: usize = 0;
    while i < n
        invariant
            n == params@.len(),
            0 <= i <= n,
            r@.len() == i,
            forall|k: int| 0 <= k < i ==> #[trigger] r@[k]@ == param_piece(style, params@[k]@),
        decreases n - i,
    {
        r.push(param_text(style, &params[i]));
        i = i + 1;
    }
    assert(r@.map_values(|s: String| s@) =~= param_pieces(style, params@.map_values(|p: Param| p@)));
    r
}

/// The row of a method in the overview table.
fn table_row_text(m: &MethodDecl) -> (r: String)
    ensures
        r@ == table_row(m@),
{
    let mut s = "| `".to_owned();
    push_text(&mut s, m.name.as_str());
    push_text(&mut s, "` | ");
    if m.params.len() == 0 {
        push_text(&mut s, "None");
    } else {
        let pieces = params_text(Piece::Table, &m.params);
        push_joined(&mut s, &pieces, ", ");
    }
    push_text(&mut s, " | `");
    let result_type = kind_text(&m.result);
    push_text(&mut s, result_type.as_str());
    push_text(&mut s, "` |\n");
    assert(s@ =~= table_row(m@));
    s
}

/// Appends the sample JSON object of a method's parameters.
fn push_sample_object(out: &mut String, m: &MethodDecl, nested: bool)
    ensures
        final(out)@ == old(out)@ + sample_object(m@, nested),
{
    if m.params.len() == 0 {
        push_text(out, "{}\n");
    } else if nested {
        push_text(out, "{\n");
        let pieces = params_text(Piece::NestedMember, &m.params);
        push_joined(out, &pieces, ",\n");
        push_text(out, "\n  }\n");
        assert(out@ =~= old(out)@ + sample_object(m@, nested));
    } else {
        push_text(out, "{\n");
        let pieces = params_text(Piece::Member, &m.params);
        push_joined(out, &pieces, ",\n");
        push_text(out, "\n}\n");
        assert(out@ =~= old(out)@ + sample_object(m@, nested));
    }
}

fn method_head_text(m: &MethodDecl) -> (r: String)
    ensures
        r@ == method_head(m@),
{
    let mut s = "---\n# Method `".to_owned();
    push_text(&mut s, m.name.as_str());
    push_text(&mut s, "`\n\n");
    if m.doc.unicode_len() > 0 {
        push_text(&mut s, m.doc.as_str());
        push_text(&mut s, "\n\n");
    }
    if m.params.len() == 0 {
        push_text(&mut s, "- **Parameters:** None\n\n");
    } else {
        push_text(&mut s, "- **Parameters:**\n");
        let pieces = params_text(Piece::List, &m.params);
        push_joined(&mut s, &pieces, "");
        push_text(&mut s, "\n");
    }
    push_text(&mut s, "- **Returns:** `");
    let result_type = kind_text(&m.result);
    push_text(&mut s, result_type.as_str());
    push_text(&mut s, "`\n\n");
    proof {
        assert(""@ =~= Seq::<char>::empty()) by {
            reveal_strlit("");
        }
    }
    assert(s@ =~= method_head(m@));
    s
}

fn payload_part_text(m: &MethodDecl) -> (r: String)
    ensures
        r@ == payload_part(m@),
{
    let mut s = "**JSON Payload:**\n```json\n".to_owned();
    push_sample_object(&mut s, m, false);
    push_text(&mut s, "```\n\n");
    push_text(&mut s, "**WebSocket Payload:**\nFor web socket usage, we must embed the method name in the request separately from the parameters");
    push_text(&mut s, " - we cannot just use the URL as we do with HTTP as we want a long-lived connection for all invocations.");
    push_text(&mut s, "We build a single payload with a `method` field and a `params` field as follows:\n");
    push_text(&mut s, "```json\n{\n  \"method\": \"");
    push_text(&mut s, m.name.as_str());
    push_text(&mut s, "\",\n  \"params\": ");
    push_sample_object(&mut s, m, true);
    push_text(&mut s, "}\n```\n\n");
    assert(s@ =~= payload_part(m@));
    s
}

fn script_part_text(m: &MethodDecl) -> (r: String)
    ensures
        r@ == script_part(m@),
{
    let mut s = "**Usage Example from Javascript:**\n```js\nresult = await fetch(\"http://localhost:9000/".to_owned();
    push_text(&mut s, m.name.as_str());
    push_text(&mut s, "\", {\n  method: 'POST',\n  headers: { 'Content-Type': 'application/json' },\n  body: JSON.stringify(");
    let ghost before = s@;
    if m.params.len() == 0 {
        push_text(&mut s, "{}");
    } else if m.params.len() == 1 {
        push_text(&mut s, "{");
        push_text(&mut s, m.params[0].name.as_str());
        push_text(&mut s, ": ");
        push_text(&mut s, generate_example_value(&m.params[0].kind));
        push_text(&mut s, "}");
    } else {
        push_text(&mut s, "{\n");
        let pieces = params_text(Piece::Script, &m.params);
        push_joined(&mut s, &pieces, ",\n");
        push_text(&mut s, "\n  }");
    }
    assert(s@ =~= before + script_object(m@));
    push_text(&mut s, ")\n});\n```\n\n");
    push_text(&mut s, "**Note about Content-Type header:**\n");
    push_text(&mut s, "The `Content-Type: application/json` header is recommended for proper HTTP semantics ");
    push_text(&mut s, "and browser CORS handling, though the server will accept any content type as long as ");
    push_text(&mut s, "the body contains valid JSON. Without this header, browsers may send ");
    push_text(&mut s, "`application/x-www-form-urlencoded` by default.\n\n");
    assert(s@ =~= script_part(m@));
    s
}

/// The section of one method.
fn method_section_text(m: &MethodDecl) -> (r: String)
    ensures
        r@ == method_section(m@),
{
    let mut s = method_head_text(m);
    let payloads = payload_part_text(m);
    push_text(&mut s, payloads.as_str());
    let script = script_part_text(m);
    push_text(&mut s, script.as_str());
    s
}

/// Writes the reference documentation of an actor type from its methods:
/// an overview table, then for each method its parameters and the payloads
/// that call it over HTTP and over WebSocket.
pub fn generate_actor_documentation(actor_type: &str, methods: &Vec<MethodDecl>) -> (r: String)
    ensures
        r@ == actor_documentation(actor_type@, sigs_view(methods@)),
{
    let mut rows: Vec<String> = Vec::new();
    let mut sections: Vec<String> = Vec::new();
    let n = methods.len();
    let mut i: usize = 0;
    while i < n
        invariant
            n == methods@.len(),
            0 <= i <= n,
            rows@.len() == i,
            sections@.len() == i,
            forall|k: int| 0 <= k < i ==> #[trigger] rows@[k]@ == table_row(methods@[k]@),
            forall|k: int| 0 <= k < i ==> #[trigger] sections@[k]@ == method_section(methods@[k]@),
        decreases n - i,
    {
        rows.push(table_row_text(&methods[i]));
        sections.push(method_section_text(&methods[i]));
        i = i + 1;
    }
    let ghost sigs = sigs_view(methods@);
    assert(rows@.map_values(|s: String| s@) =~= sigs.map_values(|m: MethodSig| table_row(m)));
    assert(sections@.map_values(|s: String| s@) =~= sigs.map_values(|m: MethodSig| method_section(m)));
    let mut doc = "Actor implementation for `".to_owned();
    push_text(&mut doc, actor_type);
    push_text(&mut doc, "`.\n\n");
    push_text(&mut doc, "This implementation provides JSON-based method dispatch for the following methods:\n\n");
    push_text(&mut doc, "| Method | Parameters | Return Type |\n|--------|------------|-------------|\n");
    push_joined(&mut doc, &rows, "");
    push_joined(&mut doc, &sections, "");
    proof {
        assert(""@ =~= Seq::<char>::empty()) by {
            reveal_strlit("");
        }
    }
    assert(doc@ =~= actor_documentation(actor_type@, sigs));
    doc
}

} // verus!
