//! The dispatcher: from a method name and a JSON payload to the JSON text of
//! the answer, through the registry of the actor's exposed methods.
use vstd::prelude::*;
use crate::json::{
    JsonModel, json_content, json_parse, json_quoted, escaped, plain_char, parse_value, quote, member, is_object,
    is_null, as_array, as_int, as_nat, as_text, as_flag,
};
use crate::registry::{
    Datum, MethodDecl, ParamKind, Registry, RegistryError, Scalar, MethodSig, args_view, sigs_view,
    distinct_names, has_method, method_index, well_typed, fits, kind_name, kind_text, read_member, read_items,
};
use crate::text::{decimal, join, push_decimal, push_nat, push_text};

verus! {

/// The reason given for a parameter that the payload lacks.
pub open spec fn missing_field(name: Seq<char>) -> Seq<char> {
    "missing field `"@ + name + "`"@
}

/// The reason given for a parameter of the wrong JSON type.
pub open spec fn invalid_field(name: Seq<char>, kind: ParamKind) -> Seq<char> {
    "invalid type for `"@ + name + "`, expected "@ + kind_name(kind)
}

/// The reason given for a payload that is no JSON object.
pub open spec fn not_an_object() -> Seq<char> {
    "invalid type: expected an object of named parameters"@
}

/// The arguments read from the members of `obj`, one per parameter, or the
/// reason for the first parameter that cannot be read.
pub open spec fn decode_fields(
    obj: Map<Seq<char>, JsonModel>,
    params: Seq<(Seq<char>, ParamKind)>,
) -> Result<Seq<Scalar>, Seq<char>>
    decreases params.len(),
{
    if params.len() == 0 {
        Ok(Seq::empty())
    } else {
        match decode_fields(obj, params.drop_last()) {
            Err(e) => Err(e),
            Ok(prev) => {
                let p = params.last();
                if !obj.contains_key(p.0) {
                    if p.1 is Optional {
                        Ok(prev.push(Scalar::Null))
                    } else {
                        Err(missing_field(p.0))
                    }
                } else {
                    match read_member(p.1, obj[p.0]) {
                        Some(v) => Ok(prev.push(v)),
                        None => Err(invalid_field(p.0, p.1)),
                    }
                }
            },
        }
    }
}

/// The arguments that a JSON payload gives for these parameters.
pub open spec fn decode_args(j: JsonModel, params: Seq<(Seq<char>, ParamKind)>) -> Result<
    Seq<Scalar>,
    Seq<char>,
> {
    match j {
        JsonModel::Object(obj) => decode_fields(obj, params),
        _ => Err(not_an_object()),
    }
}

/// The JSON text of a method's result. `Success` and `Failure` are written
/// as `{"Ok": ..}` and `{"Err": ..}`.
pub open spec fn reply_text(v: Scalar) -> Seq<char>
    decreases v,
{
    match v {
        Scalar::Null => "null"@,
        Scalar::Int(n) => decimal(n),
        Scalar::Text(s) => json_quoted(s),
        Scalar::Bool(b) => if b {
            "true"@
        } else {
            "false"@
        },
        Scalar::List(items) => "["@ + list_text(items) + "]"@,
        Scalar::Success(x) => "{\"Ok\":"@ + reply_text(*x) + "}"@,
        Scalar::Failure(x) => "{\"Err\":"@ + reply_text(*x) + "}"@,
    }
}

/// The JSON texts of the values, separated by commas.
pub open spec fn list_text(items: Seq<Scalar>) -> Seq<char>
    decreases items,
{
    if items.len() == 0 {
        Seq::empty()
    } else if items.len() == 1 {
        reply_text(items[0])
    } else {
        list_text(items.subrange(0, items.len() - 1)) + ","@ + reply_text(items[items.len() - 1])
    }
}

/// The answer to a payload that is not JSON.
pub open spec fn parse_failure(reason: Seq<char>) -> Seq<char> {
    json_quoted("Failed to parse JSON: "@ + reason)
}

/// The answer to a name that no exposed method carries.
pub open spec fn unknown_method(name: Seq<char>) -> Seq<char> {
    json_quoted("Unknown method: "@ + name)
}

/// The answer to a payload that does not fit the method's parameters.
pub open spec fn bad_params(name: Seq<char>, reason: Seq<char>) -> Seq<char> {
    json_quoted("Failed to deserialize parameters for "@ + name + ": "@ + reason)
}

/// The answer of `actor` to a call of `name` with the parsed payload `j`.
pub open spec fn value_outcome<A: Actor + ?Sized>(actor: &A, name: Seq<char>, j: JsonModel) -> Seq<
    char,
> {
    let sigs = actor.exposed();
    if !has_method(sigs, name) {
        unknown_method(name)
    } else {
        let i = method_index(sigs, name);
        match decode_args(j, sigs[i].params) {
            Err(e) => bad_params(name, e),
            Ok(args) => reply_text(actor.result_of(i, args)),
        }
    }
}

/// The answer of `actor` to a call of `name` with a payload that parsed as
/// `parsed`.
pub open spec fn dispatch_outcome<A: Actor + ?Sized>(
    actor: &A,
    name: Seq<char>,
    parsed: Result<JsonModel, Seq<char>>,
) -> Seq<char> {
    match parsed {
        Err(e) => parse_failure(e),
        Ok(j) => value_outcome(actor, name, j),
    }
}

/// The text `{}`.
pub open spec fn is_empty_object_text(s: Seq<char>) -> bool {
    s.len() == 2 && s[0] == '{' && s[1] == '}'
}

/// An object served over the network: a set of exposed methods, each with
/// named, typed parameters and a result.
pub trait Actor {
    /// The exposed methods, in order.
    spec fn exposed(&self) -> Seq<MethodSig>;

    /// What exposed method `index` returns for `args`.
    spec fn result_of(&self, index: int, args: Seq<Scalar>) -> Scalar;

    /// The exposed methods; no two share a name.
    fn methods(&self) -> (r: Vec<MethodDecl>)
        ensures
            sigs_view(r@) == self.exposed(),
            distinct_names(self.exposed()),
    ;

    /// Runs exposed method `index` on arguments of its declared kinds.
    fn invoke(&self, index: usize, args: Vec<Datum>) -> (r: Datum)
        requires
            index < self.exposed().len(),
            well_typed(self.exposed()[index as int].params, args_view(args@)),
        ensures
            r@ == self.result_of(index as int, args_view(args@)),
            fits(self.exposed()[index as int].result, r@),
    ;
}

/// The dispatch protocol, which every actor has: a method name and a JSON
/// payload in, the JSON text of the answer out.
pub trait Dispatch: Actor {
    /// Calls the method `method_name` with the members of the JSON object
    /// `msg` as its arguments, and returns the JSON text of the result.
    /// Every failure is answered with a JSON string that describes it.
    fn dispatch(&self, method_name: &str, msg: &str) -> (r: String)
        ensures
            r@ == dispatch_outcome(self, method_name@, json_parse(msg@)),
            is_empty_object_text(msg@) ==> r@ == value_outcome(
                self,
                method_name@,
                JsonModel::Object(Map::empty()),
            ),
    ;

    /// Calls the method `method_name` with the members of the parsed JSON
    /// value `params` as its arguments.
    fn dispatch_value(&self, method_name: &str, params: &serde_json::Value) -> (r: String)
        ensures
            r@ == value_outcome(self, method_name@, json_content(*params)),
    ;
}

impl<A: Actor + ?Sized> Dispatch for A {
    fn dispatch(&self, method_name: &str, msg: &str) -> (r: String) {
        match parse_value(msg) {
            Err(reason) => {
                let mut text = "Failed to parse JSON: ".to_owned();
                push_text(&mut text, reason.as_str());
                quote(text.as_str())
            },
            Ok(v) => self.dispatch_value(method_name, &v),
        }
    }

    fn dispatch_value(&self, method_name: &str, params: &serde_json::Value) -> (r: String) {
        let registry = match Registry::from_methods(self.methods()) {
            Ok(registry) => registry,
            Err(RegistryError::DuplicateMethod(name)) => {
                assert(false);
                let mut text = "Duplicate method: ".to_owned();
                push_text(&mut text, name.as_str());
                return quote(text.as_str());
            },
        };
        dispatch_with(self, &registry, method_name, params)
    }
}

/// Calls the method `method_name` of `actor`, looked up in `registry`, the
/// registry of its exposed methods, with the members of `params` as its
/// arguments.
pub fn dispatch_with<A: Actor + ?Sized>(
    actor: &A,
    registry: &Registry,
    method_name: &str,
    params: &serde_json::Value,
) -> (r: String)
    requires
        registry.wf(),
        registry@ == actor.exposed(),
    ensures
        r@ == value_outcome(actor, method_name@, json_content(*params)),
{
    match registry.find(method_name) {
        None => {
            let mut text = "Unknown method: ".to_owned();
            push_text(&mut text, method_name);
            quote(text.as_str())
        },
        Some(i) => {
            let decl = registry.method(i);
            match decode_params(params, decl) {
                Err(reason) => {
                    let mut text = "Failed to deserialize parameters for ".to_owned();
                    push_text(&mut text, method_name);
                    push_text(&mut text, ": ");
                    push_text(&mut text, reason.as_str());
                    assert(text@ =~= "Failed to deserialize parameters for "@ + method_name@
                        + ": "@ + reason@);
                    quote(text.as_str())
                },
                Ok(args) => {
                    proof {
                        lemma_decoded_args_well_typed(
                            json_content(*params),
                            decl@.params,
                        );
                    }
                    let result = actor.invoke(i, args);
                    encode(&result)
                },
            }
        },
    }
}

/// Arguments that decode without error fit the declared parameters.
proof fn lemma_decoded_fields_well_typed(
    obj: Map<Seq<char>, JsonModel>,
    params: Seq<(Seq<char>, ParamKind)>,
)
    requires
        decode_fields(obj, params) is Ok,
    ensures
        well_typed(params, decode_fields(obj, params)->Ok_0),
    decreases params.len(),
{
    if params.len() > 0 {
        lemma_decoded_fields_well_typed(obj, params.drop_last());
        let prev = decode_fields(obj, params.drop_last())->Ok_0;
        let args = decode_fields(obj, params)->Ok_0;
        let p = params.last();
        if obj.contains_key(p.0) {
            lemma_read_member_fits(p.1, obj[p.0]);
        }
        assert forall|i: int| 0 <= i < args.len() implies fits(#[trigger] params[i].1, args[i]) by {
            if i < args.len() - 1 {
                assert(params.drop_last()[i] == params[i]);
                assert(fits(params.drop_last()[i].1, prev[i]));
            }
        }
    }
}

/// A value read for a kind is a value of that kind.
proof fn lemma_read_member_fits(kind: ParamKind, j: JsonModel)
    requires
        read_member(kind, j) is Some,
    ensures
        fits(kind, read_member(kind, j)->Some_0),
    decreases kind, 0int,
{
    match kind {
        ParamKind::Optional(k) => {
            if !(j is Null) {
                lemma_read_member_fits(*k, j);
            }
        },
        ParamKind::List(k) => {
            lemma_read_items_fit(*k, j->Array_0);
        },
        _ => {},
    }
}

/// Values read from array elements are values of the kind.
proof fn lemma_read_items_fit(kind: ParamKind, items: Seq<JsonModel>)
    requires
        read_items(kind, items) is Some,
    ensures
        forall|i: int|
            0 <= i < read_items(kind, items)->Some_0.len() ==> fits(
                kind,
                #[trigger] read_items(kind, items)->Some_0[i],
            ),
    decreases kind, items.len() + 1,
{
    if items.len() > 0 {
        lemma_read_items_fit(kind, items.drop_last());
        lemma_read_member_fits(kind, items.last());
        let prev = read_items(kind, items.drop_last())->Some_0;
        let all = read_items(kind, items)->Some_0;
        assert forall|i: int| 0 <= i < all.len() implies fits(kind, #[trigger] all[i]) by {
            if i < prev.len() {
                assert(all[i] == prev[i]);
            }
        }
    }
}

/// Once a prefix of the elements fails to read, the whole array does.
proof fn lemma_read_items_failure_persists(kind: ParamKind, items: Seq<JsonModel>, n: int)
    requires
        0 <= n <= items.len(),
        read_items(kind, items.take(n)) is None,
    ensures
        read_items(kind, items) is None,
    decreases items.len(),
{
    if n == items.len() {
        assert(items.take(n) =~= items);
    } else {
        assert(items.drop_last().take(n) =~= items.take(n));
        lemma_read_items_failure_persists(kind, items.drop_last(), n);
    }
}

proof fn lemma_decoded_args_well_typed(j: JsonModel, params: Seq<(Seq<char>, ParamKind)>)
    requires
        decode_args(j, params) is Ok,
    ensures
        well_typed(params, decode_args(j, params)->Ok_0),
{
    if let JsonModel::Object(obj) = j {
        lemma_decoded_fields_well_typed(obj, params);
    }
}

/// Once a prefix of the parameters fails to decode, so do all of them, with
/// the same reason.
proof fn lemma_decode_failure_persists(
    obj: Map<Seq<char>, JsonModel>,
    params: Seq<(Seq<char>, ParamKind)>,
    k: int,
)
    requires
        0 <= k <= params.len(),
        decode_fields(obj, params.take(k)) is Err,
    ensures
        decode_fields(obj, params) == decode_fields(obj, params.take(k)),
    decreases params.len(),
{
    if k == params.len() {
        assert(params.take(k) =~= params);
    } else {
        assert(params.drop_last().take(k) =~= params.take(k));
        lemma_decode_failure_persists(obj, params.drop_last(), k);
    }
}

/// The JSON text of a method's result.
pub fn encode(d: &Datum) -> (r: String)
    ensures
        r@ == reply_text(d@),
    decreases d,
{
    let mut out = String::new();
    match d {
        Datum::Null => push_text(&mut out, "null"),
        Datum::Int(n) => push_decimal(&mut out, *n),
        Datum::Nat(n) => push_nat(&mut out, *n),
        Datum::Text(s) => {
            let quoted = quote(s.as_str());
            push_text(&mut out, quoted.as_str());
        },
        Datum::Bool(b) => if *b {
            push_text(&mut out, "true");
        } else {
            push_text(&mut out, "false");
        },
        Datum::List(items) => {
            let ghost elems = d@->List_0;
            assert(d@ == Scalar::List(elems));
            push_text(&mut out, "[");
            let n = items.len();
            let mut i: usize = 0;
            assert(elems.subrange(0, 0) =~= Seq::<Scalar>::empty());
            while i < n
                invariant
                    n == items@.len(),
                    *d == Datum::List(*items),
                    elems == d@->List_0,
                    elems.len() == n,
                    forall|t: int| 0 <= t < n ==> #[trigger] elems[t] == items@[t]@,
                    0 <= i <= n,
                    out@ == "["@ + list_text(elems.subrange(0, i as int)),
                decreases n - i,
            {
                proof {
                    assert(decreases_to!(*d => (*d)->List_0));
                    assert(decreases_to!((*d)->List_0 => (*d)->List_0@));
                    assert(decreases_to!((*d)->List_0@ => (*d)->List_0@[i as int]));
                }
                let ghost next = elems.subrange(0, i as int + 1);
                assert(next.subrange(0, next.len() - 1) =~= elems.subrange(0, i as int));
                assert(next[next.len() - 1] == items@[i as int]@);
                if i > 0 {
                    push_text(&mut out, ",");
                } else {
                    assert(next.len() == 1 && next[0] == items@[0]@);
                }
                let piece = encode(&items[i]);
                push_text(&mut out, piece.as_str());
                assert(out@ =~= "["@ + list_text(next));
                i = i + 1;
            }
            assert(elems.subrange(0, n as int) =~= elems);
            push_text(&mut out, "]");
        },
        Datum::Success(x) => {
            push_text(&mut out, "{\"Ok\":");
            let inner = encode(x);
            push_text(&mut out, inner.as_str());
            push_text(&mut out, "}");
        },
        Datum::Failure(x) => {
            push_text(&mut out, "{\"Err\":");
            let inner = encode(x);
            push_text(&mut out, inner.as_str());
            push_text(&mut out, "}");
        },
    }
    assert(out@ =~= reply_text(d@));
    out
}

/// Reads one argument of the given kind from a JSON value.
fn read_datum(v: &serde_json::Value, kind: &ParamKind) -> (r: Option<Datum>)
    ensures
        r is Some <==> read_member(*kind, json_content(*v)) is Some,
        r is Some ==> read_member(*kind, json_content(*v)) == Some(r->Some_0@),
    decreases kind,
{
    match kind {
        ParamKind::Unit => if is_null(v) {
            Some(Datum::Null)
        } else {
            None
        },
        ParamKind::I32 => match as_int(v) {
            Some(n) => if -2147483648 <= n && n <= 2147483647 {
                Some(Datum::Int(n))
            } else {
                None
            },
            None => None,
        },
        ParamKind::I64 => match as_int(v) {
            Some(n) => Some(Datum::Int(n)),
            None => None,
        },
        ParamKind::U64 => match as_nat(v) {
            Some(n) => Some(Datum::Nat(n)),
            None => None,
        },
        ParamKind::Text => match as_text(v) {
            Some(t) => Some(Datum::Text(t.to_owned())),
            None => None,
        },
        ParamKind::Bool => match as_flag(v) {
            Some(b) => Some(Datum::Bool(b)),
            None => None,
        },
        ParamKind::Optional(k) => if is_null(v) {
            Some(Datum::Null)
        } else {
            read_datum(v, k)
        },
        ParamKind::List(k) => match as_array(v) {
            None => None,
            Some(items) => {
                let ghost js = json_content(*v)->Array_0;
                let n = items.len();
                let mut out: Vec<Datum> = Vec::new();
                let mut i: usize = 0;
                assert(js.take(0) =~= Seq::<JsonModel>::empty());
                assert(args_view(out@) =~= Seq::<Scalar>::empty());
                while i < n
                    invariant
                        *kind == ParamKind::List(*k),
                        n == items@.len(),
                        n == js.len(),
                        json_content(*v) == JsonModel::Array(js),
                        forall|t: int| 0 <= t < n ==> json_content(#[trigger] items@[t]) == js[t],
                        0 <= i <= n,
                        read_items(**k, js.take(i as int)) == Some(args_view(out@)),
                    decreases n - i,
                {
                    assert(js.take(i as int + 1).drop_last() =~= js.take(i as int));
                    assert(js.take(i as int + 1).last() == js[i as int]);
                    proof {
                        assert(*kind == ParamKind::List(*k));
                        assert(decreases_to!(*kind => **k));
                    }
                    match read_datum(&items[i], k) {
                        None => {
                            proof {
                                lemma_read_items_failure_persists(**k, js, i as int + 1);
                                assert(read_member(*kind, json_content(*v)) is None);
                            }
                            return None;
                        },
                        Some(d) => {
                            let ghost before = out@;
                            out.push(d);
                            assert(args_view(out@) =~= args_view(before).push(d@));
                        },
                    }
                    i = i + 1;
                }
                assert(js.take(n as int) =~= js);
                let r = Datum::List(out);
                assert(r@->List_0 =~= args_view(out@));
                Some(r)
            },
        },
        ParamKind::Outcome(_, _) => None,
    }
}

/// Reads the arguments of `decl` from the members of the JSON object
/// `params`, or gives the reason why they cannot be read.
pub fn decode_params(params: &serde_json::Value, decl: &MethodDecl) -> (r: Result<
    Vec<Datum>,
    String,
>)
    ensures
        r is Ok <==> decode_args(json_content(*params), decl@.params) is Ok,
        r is Ok ==> decode_args(json_content(*params), decl@.params) == Ok::<
            Seq<Scalar>,
            Seq<char>,
        >(args_view(r->Ok_0@)),
        r is Err ==> decode_args(json_content(*params), decl@.params) == Err::<
            Seq<Scalar>,
            Seq<char>,
        >(r->Err_0@),
{
    if !is_object(params) {
        return Err("invalid type: expected an object of named parameters".to_owned());
    }
    let ghost obj = json_content(*params)->Object_0;
    let ghost ps = decl@.params;
    let n = decl.params.len();
    let mut out: Vec<Datum> = Vec::new();
    let mut i: usize = 0;
    assert(ps.take(0) =~= Seq::<(Seq<char>, ParamKind)>::empty());
    assert(args_view(out@) =~= Seq::<Scalar>::empty());
    while i < n
        invariant
            n == decl.params@.len(),
            ps == decl@.params,
            ps.len() == n,
            json_content(*params) == JsonModel::Object(obj),
            0 <= i <= n,
            decode_fields(obj, ps.take(i as int)) == Ok::<Seq<Scalar>, Seq<char>>(
                args_view(out@),
            ),
        decreases n - i,
    {
        let p = &decl.params[i];
        assert(ps[i as int] == p@);
        assert(ps.take(i as int + 1).drop_last() =~= ps.take(i as int));
        assert(ps.take(i as int + 1).last() == p@);
        match member(params, p.name.as_str()) {
            None => if let ParamKind::Optional(_) = p.kind {
                let ghost before = out@;
                out.push(Datum::Null);
                assert(args_view(out@) =~= args_view(before).push(Scalar::Null));
            } else {
                let mut reason = "missing field `".to_owned();
                push_text(&mut reason, p.name.as_str());
                push_text(&mut reason, "`");
                proof {
                    lemma_decode_failure_persists(obj, ps, i as int + 1);
                }
                return Err(reason);
            },
            Some(v) => match read_datum(v, &p.kind) {
                None => {
                    let mut reason = "invalid type for `".to_owned();
                    push_text(&mut reason, p.name.as_str());
                    push_text(&mut reason, "`, expected ");
                    let expected = kind_text(&p.kind);
                    push_text(&mut reason, expected.as_str());
                    assert(reason@ =~= invalid_field(p.name@, p.kind));
                    proof {
                        lemma_decode_failure_persists(obj, ps, i as int + 1);
                    }
                    return Err(reason);
                },
                Some(d) => {
                    let ghost before = out@;
                    out.push(d);
                    assert(args_view(out@) =~= args_view(before).push(d@));
                },
            },
        }
        i = i + 1;
    }
    assert(ps.take(n as int) =~= ps);
    Ok(out)
}

/// An exposed method without parameters accepts the empty object `{}`: the
/// answer is the JSON text of its result, never an unknown-method or a
/// parameter error.
pub proof fn parameterless_call_succeeds<A: Actor + ?Sized>(actor: &A, name: Seq<char>)
    requires
        has_method(actor.exposed(), name),
        actor.exposed()[method_index(actor.exposed(), name)].params.len() == 0,
    ensures
        value_outcome(actor, name, JsonModel::Object(Map::empty())) == reply_text(
            actor.result_of(method_index(actor.exposed(), name), Seq::empty()),
        ),
{
}

/// A name that no exposed method carries is answered, whatever the valid
/// payload, with the JSON string `Unknown method: <name>`; where the name
/// needs no escaping, the answer holds it verbatim.
pub proof fn unknown_name_answer<A: Actor + ?Sized>(actor: &A, name: Seq<char>, j: JsonModel)
    requires
        !has_method(actor.exposed(), name),
    ensures
        value_outcome(actor, name, j) == json_quoted("Unknown method: "@ + name),
        (forall|k: int| 0 <= k < name.len() ==> plain_char(#[trigger] name[k])) ==> value_outcome(
            actor,
            name,
            j,
        ) == seq!['"'] + "Unknown method: "@ + name + seq!['"'],
{
    reveal_strlit("Unknown method: ");
    let prefix = "Unknown method: "@;
    assert forall|k: int| 0 <= k < prefix.len() implies plain_char(#[trigger] prefix[k]) by {}
    if forall|k: int| 0 <= k < name.len() ==> plain_char(#[trigger] name[k]) {
        assert forall|k: int| 0 <= k < (prefix + name).len() implies plain_char(
            #[trigger] (prefix + name)[k],
        ) by {
            if k >= prefix.len() {
                assert((prefix + name)[k] == name[k - prefix.len()]);
            }
        }
        lemma_plain_text_unescaped(prefix + name);
    }
}

/// A method that the actor does not expose cannot be reached: its name is
/// answered exactly as a name that no method carries, from the payload
/// alone.
pub proof fn unexposed_method_unreachable<A: Actor + ?Sized>(
    actor: &A,
    name: Seq<char>,
    parsed: Result<JsonModel, Seq<char>>,
)
    requires
        !has_method(actor.exposed(), name),
    ensures
        dispatch_outcome(actor, name, parsed) == match parsed {
            Err(e) => parse_failure(e),
            Ok(_) => unknown_method(name),
        },
{
}

/// The answer to a call depends on the actor, the name and the payload
/// alone: the same call made twice is answered twice with the same text.
pub proof fn repeated_dispatch_identical<A: Actor + ?Sized>(
    actor: &A,
    name: Seq<char>,
    msg: Seq<char>,
    first: Seq<char>,
    second: Seq<char>,
)
    requires
        first == dispatch_outcome(actor, name, json_parse(msg)),
        second == dispatch_outcome(actor, name, json_parse(msg)),
    ensures
        first == second,
{
}

/// Text made of plain characters is written unchanged inside a JSON string.
proof fn lemma_plain_text_unescaped(s: Seq<char>)
    requires
        forall|k: int| 0 <= k < s.len() ==> plain_char(#[trigger] s[k]),
    ensures
        escaped(s) == s,
        json_quoted(s) == seq!['"'] + s + seq!['"'],
    decreases s.len(),
{
    if s.len() > 0 {
        assert forall|k: int| 0 <= k < s.drop_last().len() implies plain_char(
            #[trigger] s.drop_last()[k],
        ) by {
            assert(s.drop_last()[k] == s[k]);
        }
        lemma_plain_text_unescaped(s.drop_last());
        assert(plain_char(s[s.len() - 1]));
        assert(s.drop_last().push(s.last()) =~= s);
        assert(seq![s.last()] + Seq::<char>::empty() =~= seq![s.last()]);
        assert(s.drop_last() + seq![s.last()] =~= s);
    }
}

} // verus!
