//! The method registry: which operations an actor exposes, the named and
//! typed parameters of each, its result type, and the values that go in and
//! come out.
use vstd::prelude::*;
use crate::json::JsonModel;
use crate::text::push_text;

verus! {

/// The JSON type of a parameter or of a result.
#[derive(Debug, PartialEq, Eq)]
pub enum ParamKind {
    /// No value: `()`, written `null`.
    Unit,
    /// An integer in the range of `i32`.
    I32,
    /// An integer in the range of `i64`.
    I64,
    /// An integer in the range of `u64`.
    U64,
    /// A string.
    Text,
    /// `true` or `false`.
    Bool,
    /// `null`, or a value of the inner kind.
    Optional(Box<ParamKind>),
    /// An array of values of the inner kind.
    List(Box<ParamKind>),
    /// Success or failure: `{"Ok": <value>}` or `{"Err": <value>}`. Results
    /// only.
    Outcome(Box<ParamKind>, Box<ParamKind>),
}

/// One named parameter of an exposed method.
#[derive(Debug)]
pub struct Param {
    pub name: String,
    pub kind: ParamKind,
}

/// An exposed method: its name, its parameters in order, the kind of its
/// result, and a description for its documentation (empty for none).
#[derive(Debug)]
pub struct MethodDecl {
    pub name: String,
    pub params: Vec<Param>,
    pub result: ParamKind,
    pub doc: String,
}

/// The plain content of a `MethodDecl`.
pub struct MethodSig {
    pub name: Seq<char>,
    pub params: Seq<(Seq<char>, ParamKind)>,
    pub result: ParamKind,
    pub doc: Seq<char>,
}

impl View for Param {
    type V = (Seq<char>, ParamKind);

    open spec fn view(&self) -> (Seq<char>, ParamKind) {
        (self.name@, self.kind)
    }
}

impl View for MethodDecl {
    type V = MethodSig;

    open spec fn view(&self) -> MethodSig {
        MethodSig {
            name: self.name@,
            params: self.params@.map_values(|p: Param| p@),
            result: self.result,
            doc: self.doc@,
        }
    }
}

/// A value handed to a method or returned by one.
#[derive(Debug)]
pub enum Datum {
    Null,
    Int(i64),
    Nat(u64),
    Text(String),
    Bool(bool),
    List(Vec<Datum>),
    Success(Box<Datum>),
    Failure(Box<Datum>),
}

/// The plain content of a `Datum`.
pub enum Scalar {
    Null,
    Int(int),
    Text(Seq<char>),
    Bool(bool),
    List(Seq<Scalar>),
    Success(Box<Scalar>),
    Failure(Box<Scalar>),
}

/// The plain content of a `Datum`.
pub open spec fn datum_view(d: Datum) -> Scalar
    decreases d,
{
    match d {
        Datum::Null => Scalar::Null,
        Datum::Int(n) => Scalar::Int(n as int),
        Datum::Nat(n) => Scalar::Int(n as int),
        Datum::Text(s) => Scalar::Text(s@),
        Datum::Bool(b) => Scalar::Bool(b),
        Datum::List(items) => Scalar::List(
            Seq::new(
                items@.len(),
                |i: int|
                    if 0 <= i < items@.len() {
                        datum_view(items[i])
                    } else {
                        Scalar::Null
                    },
            ),
        ),
        Datum::Success(x) => Scalar::Success(Box::new(datum_view(*x))),
        Datum::Failure(x) => Scalar::Failure(Box::new(datum_view(*x))),
    }
}

impl View for Datum {
    type V = Scalar;

    open spec fn view(&self) -> Scalar {
        datum_view(*self)
    }
}

/// The plain content of a list of arguments.
pub open spec fn args_view(args: Seq<Datum>) -> Seq<Scalar> {
    args.map_values(|a: Datum| a@)
}

/// The plain content of a list of method declarations.
pub open spec fn sigs_view(decls: Seq<MethodDecl>) -> Seq<MethodSig> {
    decls.map_values(|d: MethodDecl| d@)
}

/// No two methods share a name.
pub open spec fn distinct_names(sigs: Seq<MethodSig>) -> bool {
    forall|i: int, j: int|
        0 <= i < sigs.len() && 0 <= j < sigs.len() && i != j ==> #[trigger] sigs[i].name
            != #[trigger] sigs[j].name
}

/// Some method carries this name.
pub open spec fn has_method(sigs: Seq<MethodSig>, name: Seq<char>) -> bool {
    exists|i: int| 0 <= i < sigs.len() && #[trigger] sigs[i].name == name
}

/// The position of the method with this name, where there is one.
pub open spec fn method_index(sigs: Seq<MethodSig>, name: Seq<char>) -> int
    recommends
        has_method(sigs, name),
{
    choose|i: int| 0 <= i < sigs.len() && #[trigger] sigs[i].name == name
}

/// A value of this kind.
pub open spec fn fits(kind: ParamKind, v: Scalar) -> bool
    decreases kind,
{
    match kind {
        ParamKind::Unit => v is Null,
        ParamKind::I32 => v is Int && i32::MIN <= v->Int_0 <= i32::MAX,
        ParamKind::I64 => v is Int && i64::MIN <= v->Int_0 <= i64::MAX,
        ParamKind::U64 => v is Int && 0 <= v->Int_0 <= u64::MAX,
        ParamKind::Text => v is Text,
        ParamKind::Bool => v is Bool,
        ParamKind::Optional(k) => v is Null || fits(*k, v),
        ParamKind::List(k) => v is List && forall|i: int|
            0 <= i < v->List_0.len() ==> fits(*k, #[trigger] v->List_0[i]),
        ParamKind::Outcome(a, b) => (v is Success && fits(*a, *v->Success_0)) || (v is Failure && fits(
            *b,
            *v->Failure_0,
        )),
    }
}

/// Arguments that match the declared parameters one for one.
pub open spec fn well_typed(params: Seq<(Seq<char>, ParamKind)>, args: Seq<Scalar>) -> bool {
    args.len() == params.len() && forall|i: int|
        0 <= i < args.len() ==> fits(#[trigger] params[i].1, args[i])
}

/// The Rust type that a kind stands for, as documentation and messages
/// write it.
pub open spec fn kind_name(kind: ParamKind) -> Seq<char>
    decreases kind,
{
    match kind {
        ParamKind::Unit => "()"@,
        ParamKind::I32 => "i32"@,
        ParamKind::I64 => "i64"@,
        ParamKind::U64 => "u64"@,
        ParamKind::Text => "String"@,
        ParamKind::Bool => "bool"@,
        ParamKind::Optional(k) => "Option<"@ + kind_name(*k) + ">"@,
        ParamKind::List(k) => "Vec<"@ + kind_name(*k) + ">"@,
        ParamKind::Outcome(a, b) => "Result<"@ + kind_name(*a) + ", "@ + kind_name(*b) + ">"@,
    }
}

/// The values read from JSON array elements, each of the kind, if all
/// have it.
pub open spec fn read_items(kind: ParamKind, items: Seq<JsonModel>) -> Option<Seq<Scalar>>
    decreases kind, items.len() + 1,
{
    if items.len() == 0 {
        Some(Seq::empty())
    } else {
        match read_items(kind, items.drop_last()) {
            Some(prev) => match read_member(kind, items.last()) {
                Some(v) => Some(prev.push(v)),
                None => None,
            },
            None => None,
        }
    }
}

/// The value of a parameter read from a JSON value, if it has the kind.
pub open spec fn read_member(kind: ParamKind, j: JsonModel) -> Option<Scalar>
    decreases kind, 0int,
{
    match kind {
        ParamKind::Unit => if j is Null {
            Some(Scalar::Null)
        } else {
            None
        },
        ParamKind::I32 => if j is Int && i32::MIN <= j->Int_0 <= i32::MAX {
            Some(Scalar::Int(j->Int_0))
        } else {
            None
        },
        ParamKind::I64 => if j is Int && i64::MIN <= j->Int_0 <= i64::MAX {
            Some(Scalar::Int(j->Int_0))
        } else {
            None
        },
        ParamKind::U64 => if j is Int && 0 <= j->Int_0 <= u64::MAX {
            Some(Scalar::Int(j->Int_0))
        } else {
            None
        },
        ParamKind::Text => if j is Str {
            Some(Scalar::Text(j->Str_0))
        } else {
            None
        },
        ParamKind::Bool => if j is Bool {
            Some(Scalar::Bool(j->Bool_0))
        } else {
            None
        },
        ParamKind::Optional(k) => if j is Null {
            Some(Scalar::Null)
        } else {
            read_member(*k, j)
        },
        ParamKind::List(k) => match j {
            JsonModel::Array(items) => match read_items(*k, items) {
                Some(vs) => Some(Scalar::List(vs)),
                None => None,
            },
            _ => None,
        },
        ParamKind::Outcome(_, _) => None,
    }
}

/// The Rust type that a kind stands for.
pub fn kind_text(kind: &ParamKind) -> (r: String)
    ensures
        r@ == kind_name(*kind),
    decreases kind,
{
    let mut out = String::new();
    match kind {
        ParamKind::Unit => push_text(&mut out, "()"),
        ParamKind::I32 => push_text(&mut out, "i32"),
        ParamKind::I64 => push_text(&mut out, "i64"),
        ParamKind::U64 => push_text(&mut out, "u64"),
        ParamKind::Text => push_text(&mut out, "String"),
        ParamKind::Bool => push_text(&mut out, "bool"),
        ParamKind::Optional(k) => {
            push_text(&mut out, "Option<");
            let inner = kind_text(k);
            push_text(&mut out, inner.as_str());
            push_text(&mut out, ">");
        },
        ParamKind::List(k) => {
            push_text(&mut out, "Vec<");
            let inner = kind_text(k);
            push_text(&mut out, inner.as_str());
            push_text(&mut out, ">");
        },
        ParamKind::Outcome(a, b) => {
            push_text(&mut out, "Result<");
            let first = kind_text(a);
            push_text(&mut out, first.as_str());
            push_text(&mut out, ", ");
            let second = kind_text(b);
            push_text(&mut out, second.as_str());
            push_text(&mut out, ">");
        },
    }
    assert(out@ =~= kind_name(*kind));
    out
}

/// Why a method list cannot form a registry.
#[derive(Clone, Debug)]
pub enum RegistryError {
    /// Two methods carry this name.
    DuplicateMethod(String),
}

/// The methods of one actor, by name; no two share a name.
#[derive(Debug)]
pub struct Registry {
    methods: Vec<MethodDecl>,
}

impl View for Registry {
    type V = Seq<MethodSig>;

    closed spec fn view(&self) -> Seq<MethodSig> {
        sigs_view(self.methods@)
    }
}

impl Registry {
    /// Names are unique.
    pub open spec fn wf(&self) -> bool {
        distinct_names(self@)
    }

    /// Builds the registry of these methods, refusing a list in which two
    /// methods share a name.
    pub fn from_methods(methods: Vec<MethodDecl>) -> (r: Result<Registry, RegistryError>)
        ensures
            r is Ok <==> distinct_names(sigs_view(methods@)),
            r is Ok ==> r->Ok_0@ == sigs_view(methods@) && r->Ok_0.wf(),
            r is Err ==> (r->Err_0 matches RegistryError::DuplicateMethod(n) && exists|i: int, j: int|
                0 <= i < j < methods@.len() && #[trigger] methods@[i].name@ == n@
                    && #[trigger] methods@[j].name@ == n@),
    {
        let n = methods.len();
        let mut j: usize = 0;
        while j < n
            invariant
                n == methods@.len(),
                0 <= j <= n,
                forall|a: int, b: int|
                    0 <= a < b < j ==> #[trigger] methods@[a].name@ != #[trigger] methods@[b].name@,
            decreases n - j,
        {
            let mut i: usize = 0;
            while i < j
                invariant
                    n == methods@.len(),
                    0 <= i <= j < n,
                    forall|a: int, b: int|
                        0 <= a < b < j ==> #[trigger] methods@[a].name@
                            != #[trigger] methods@[b].name@,
                    forall|a: int| 0 <= a < i ==> #[trigger] methods@[a].name@ != methods@[j as int].name@,
                decreases j - i,
            {
                if methods[i].name == methods[j].name {
                    assert(sigs_view(methods@)[i as int].name == sigs_view(methods@)[j as int].name);
                    return Err(RegistryError::DuplicateMethod(methods[j].name.clone()));
                }
                i = i + 1;
            }
            j = j + 1;
        }
        let r = Registry { methods };
        assert(distinct_names(sigs_view(r.methods@))) by {
            assert forall|a: int, b: int|
                0 <= a < sigs_view(r.methods@).len() && 0 <= b < sigs_view(r.methods@).len() && a
                    != b implies #[trigger] sigs_view(r.methods@)[a].name
                != #[trigger] sigs_view(r.methods@)[b].name by {
                if a < b {
                    assert(r.methods@[a].name@ != r.methods@[b].name@);
                } else {
                    assert(r.methods@[b].name@ != r.methods@[a].name@);
                }
            }
        }
        Ok(r)
    }

    /// The number of methods.
    pub fn len(&self) -> (r: usize)
        ensures
            r == self@.len(),
    {
        self.methods.len()
    }

    /// The method at position `i`.
    pub fn method(&self, i: usize) -> (r: &MethodDecl)
        requires
            i < self@.len(),
        ensures
            r@ == self@[i as int],
    {
        &self.methods[i]
    }

    /// The position of the method called `name`, if one is.
    pub fn find(&self, name: &str) -> (r: Option<usize>)
        requires
            self.wf(),
        ensures
            r is Some <==> has_method(self@, name@),
            r is Some ==> r->Some_0 == method_index(self@, name@) && r->Some_0 < self@.len(),
    {
        let target = name.to_owned();
        let n = self.methods.len();
        let mut i: usize = 0;
        while i < n
            invariant
                n == self.methods@.len(),
                target@ == name@,
                self.wf(),
                0 <= i <= n,
                forall|a: int| 0 <= a < i ==> #[trigger] self.methods@[a].name@ != name@,
            decreases n - i,
        {
            if self.methods[i].name == target {
                assert(self@[i as int].name == name@);
                assert(has_method(self@, name@));
                let ghost k = method_index(self@, name@);
                assert(0 <= k < self@.len() && self@[k].name == name@);
                assert(k == i) by {
                    if k != i as int {
                        assert(self@[k].name != self@[i as int].name);
                    }
                }
                return Some(i);
            }
            i = i + 1;
        }
        assert(!has_method(self@, name@)) by {
            if has_method(self@, name@) {
                let k = choose|k: int| 0 <= k < self@.len() && #[trigger] self@[k].name == name@;
                assert(self.methods@[k].name@ == name@);
            }
        }
        None
    }
}

} // verus!
