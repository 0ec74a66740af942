//! A small actor with a name and a counter, showing how methods of several
//! parameter and result kinds are exposed.
use vstd::prelude::*;
use crate::actor::Actor;
use crate::registry::{Datum, MethodDecl, MethodSig, Param, ParamKind, Scalar, sigs_view, fits, args_view};
use crate::text::{decimal, push_decimal, push_text};

verus! {

/// An actor with a name and a counter.
#[derive(Clone, Debug)]
pub struct ExampleActor {
    /// The name of this actor instance.
    pub name: String,
    /// A counter, zero at creation.
    pub counter: i32,
}

/// The greeting of `greet`.
pub open spec fn greeting(who: Seq<char>, me: Seq<char>) -> Seq<char> {
    "Hello "@ + who + ", I'm "@ + me + "!"@
}

/// The text of `info`.
pub open spec fn info_text(me: Seq<char>, counter: int) -> Seq<char> {
    "ExampleActor '"@ + me + "' with counter "@ + decimal(counter)
}

/// A declared parameter.
pub open spec fn param(name: Seq<char>, kind: ParamKind) -> (Seq<char>, ParamKind) {
    (name, kind)
}

impl ExampleActor {
    /// A new actor with the given name and a zero counter.
    pub fn new(name: String) -> (r: Self)
        ensures
            r.name == name,
            r.counter == 0,
    {
        ExampleActor { name, counter: 0 }
    }

    /// The sum of two numbers.
    pub fn add(&self, a: i32, b: i32) -> (r: i64)
        ensures
            r == a + b,
    {
        a as i64 + b as i64
    }

    /// The current value of the counter.
    pub fn get_counter(&self) -> (r: i32)
        ensures
            r == self.counter,
    {
        self.counter
    }

    /// A greeting that names both the caller's name and this actor's.
    pub fn greet(&self, name: String) -> (r: String)
        ensures
            r@ == greeting(name@, self.name@),
    {
        let mut out = "Hello ".to_owned();
        push_text(&mut out, name.as_str());
        push_text(&mut out, ", I'm ");
        push_text(&mut out, self.name.as_str());
        push_text(&mut out, "!");
        assert(out@ =~= greeting(name@, self.name@));
        out
    }

    /// Whether a number is even.
    pub fn is_even(&self, number: i32) -> (r: bool)
        ensures
            r == (number % 2 == 0),
    {
        number % 2 == 0
    }

    /// The name and the counter of this actor, in words.
    pub fn info(&self) -> (r: String)
        ensures
            r@ == info_text(self.name@, self.counter as int),
    {
        let mut out = "ExampleActor '".to_owned();
        push_text(&mut out, self.name.as_str());
        push_text(&mut out, "' with counter ");
        push_decimal(&mut out, self.counter as i64);
        assert(out@ =~= info_text(self.name@, self.counter as int));
        out
    }

    /// A fixed answer, for health checks.
    pub fn ping(&self) -> (r: String)
        ensures
            r@ == "pong"@,
    {
        "pong".to_owned()
    }
}

impl Actor for ExampleActor {
    open spec fn exposed(&self) -> Seq<MethodSig> {
        seq![
            MethodSig {
                name: "add"@,
                params: seq![param("a"@, ParamKind::I32), param("b"@, ParamKind::I32)],
                result: ParamKind::I64, doc: "Add two numbers together"@,
            },
            MethodSig { name: "get_counter"@, params: Seq::empty(), result: ParamKind::I32, doc: "Get the current counter value"@ },
            MethodSig {
                name: "greet"@,
                params: seq![param("name"@, ParamKind::Text)],
                result: ParamKind::Text, doc: "Greet someone with a personalized message"@,
            },
            MethodSig {
                name: "is_even"@,
                params: seq![param("number"@, ParamKind::I32)],
                result: ParamKind::Bool, doc: "Check if a number is even"@,
            },
            MethodSig { name: "info"@, params: Seq::empty(), result: ParamKind::Text, doc: "Get information about this actor"@ },
            MethodSig { name: "ping"@, params: Seq::empty(), result: ParamKind::Text, doc: "Simple ping method with no parameters"@ },
        ]
    }

    open spec fn result_of(&self, index: int, args: Seq<Scalar>) -> Scalar {
        if index == 0 {
            Scalar::Int(args[0]->Int_0 + args[1]->Int_0)
        } else if index == 1 {
            Scalar::Int(self.counter as int)
        } else if index == 2 {
            Scalar::Text(greeting(args[0]->Text_0, self.name@))
        } else if index == 3 {
            Scalar::Bool(args[0]->Int_0 % 2 == 0)
        } else if index == 4 {
            Scalar::Text(info_text(self.name@, self.counter as int))
        } else {
            Scalar::Text("pong"@)
        }
    }

    fn methods(&self) -> (r: Vec<MethodDecl>) {
        let r = vec![
            method(
                "add",
                vec![
                    Param { name: "a".to_owned(), kind: ParamKind::I32 },
                    Param { name: "b".to_owned(), kind: ParamKind::I32 },
                ],
                ParamKind::I64,
                "Add two numbers together",
            ),
            method("get_counter", Vec::new(), ParamKind::I32, "Get the current counter value"),
            method("greet", vec![Param { name: "name".to_owned(), kind: ParamKind::Text }], ParamKind::Text, "Greet someone with a personalized message"),
            method("is_even", vec![Param { name: "number".to_owned(), kind: ParamKind::I32 }], ParamKind::Bool, "Check if a number is even"),
            method("info", Vec::new(), ParamKind::Text, "Get information about this actor"),
            method("ping", Vec::new(), ParamKind::Text, "Simple ping method with no parameters"),
        ];
        assert(sigs_view(r@) =~= self.exposed()) by {
            assert(r@[0]@.params =~= self.exposed()[0].params);
            assert(r@[1]@.params =~= self.exposed()[1].params);
            assert(r@[2]@.params =~= self.exposed()[2].params);
            assert(r@[3]@.params =~= self.exposed()[3].params);
            assert(r@[4]@.params =~= self.exposed()[4].params);
            assert(r@[5]@.params =~= self.exposed()[5].params);
        }
        proof {
            reveal_strlit("add");
            reveal_strlit("get_counter");
            reveal_strlit("greet");
            reveal_strlit("is_even");
            reveal_strlit("info");
            reveal_strlit("ping");
            let s = self.exposed();
            assert(s[0].name.len() == 3 && s[1].name.len() == 11 && s[2].name.len() == 5);
            assert(s[3].name.len() == 7 && s[4].name.len() == 4 && s[5].name.len() == 4);
            assert(s[4].name[0] != s[5].name[0]);
            assert forall|i: int, j: int|
                0 <= i < s.len() && 0 <= j < s.len() && i != j implies #[trigger] s[i].name
                != #[trigger] s[j].name by {
                if i == 4 && j == 5 || i == 5 && j == 4 {
                    assert(s[i].name[0] != s[j].name[0]);
                } else {
                    assert(s[i].name.len() != s[j].name.len());
                }
            }
        }
        r
    }

    fn invoke(&self, index: usize, args: Vec<Datum>) -> (r: Datum) {
        proof {
            let ps = self.exposed()[index as int].params;
            assert forall|k: int| 0 <= k < args@.len() implies fits(ps[k].1, #[trigger] args@[k]@) by {
                assert(args_view(args@)[k] == args@[k]@);
            }
        }
        if index == 0 {
            Datum::Int(self.add(small_int(&args[0]), small_int(&args[1])))
        } else if index == 1 {
            Datum::Int(self.get_counter() as i64)
        } else if index == 2 {
            match &args[0] {
                Datum::Text(who) => Datum::Text(self.greet(who.clone())),
                _ => {
                    assert(false);
                    Datum::Bool(false)
                },
            }
        } else if index == 3 {
            Datum::Bool(self.is_even(small_int(&args[0])))
        } else if index == 4 {
            Datum::Text(self.info())
        } else {
            Datum::Text(self.ping())
        }
    }
}

/// The value of an argument declared `i32`.
pub(crate) fn small_int(d: &Datum) -> (r: i32)
    requires
        fits(ParamKind::I32, d@),
    ensures
        r as int == d@->Int_0,
{
    match d {
        Datum::Int(n) => *n as i32,
        Datum::Nat(n) => *n as i32,
        _ => {
            assert(false);
            0
        },
    }
}

/// A method declaration.
pub(crate) fn method(name: &str, params: Vec<Param>, result: ParamKind, doc: &str) -> (r: MethodDecl)
    ensures
        r.name@ == name@,
        r.params@ == params@,
        r.result == result,
        r.doc@ == doc@,
{
    MethodDecl { name: name.to_owned(), params, result, doc: doc.to_owned() }
}

} // verus!
