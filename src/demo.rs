//! Two more small actors: one that counts and greets, and one that names
//! itself in its answers and echoes what it is sent.
use vstd::prelude::*;
use crate::actor::Actor;
use crate::example::{method, param, small_int};
use crate::registry::{Datum, MethodDecl, MethodSig, Param, ParamKind, Scalar, sigs_view, fits, args_view};
use crate::text::push_text;

verus! {

/// An actor with a counter and a plain greeting.
#[derive(Clone, Debug)]
pub struct CounterActor {
    pub counter: i32,
}

/// The greeting of `CounterActor::greet`.
pub open spec fn plain_greeting(who: Seq<char>) -> Seq<char> {
    "Hello, "@ + who + "!"@
}

impl CounterActor {
    /// A new actor with a zero counter.
    pub fn new() -> (r: Self)
        ensures
            r.counter == 0,
    {
        CounterActor { counter: 0 }
    }

    /// The sum of two numbers.
    pub fn add(&self, a: i32, b: i32) -> (r: i64)
        ensures
            r == a + b,
    {
        a as i64 + b as i64
    }

    /// The current value of the counter.
    pub fn get_counter(&self) -> (r: i32)
        ensures
            r == self.counter,
    {
        self.counter
    }

    /// `Hello, <name>!`.
    pub fn greet(&self, name: String) -> (r: String)
        ensures
            r@ == plain_greeting(name@),
    {
        let mut out = "Hello, ".to_owned();
        push_text(&mut out, name.as_str());
        push_text(&mut out, "!");
        assert(out@ =~= plain_greeting(name@));
        out
    }

    /// A fixed answer that needs no parameters.
    pub fn no_params(&self) -> (r: String)
        ensures
            r@ == "No parameters needed"@,
    {
        "No parameters needed".to_owned()
    }
}

impl Actor for CounterActor {
    open spec fn exposed(&self) -> Seq<MethodSig> {
        seq![
            MethodSig {
                name: "add"@,
                params: seq![param("a"@, ParamKind::I32), param("b"@, ParamKind::I32)],
                result: ParamKind::I64, doc: ""@,
            },
            MethodSig { name: "get_counter"@, params: Seq::empty(), result: ParamKind::I32, doc: ""@ },
            MethodSig {
                name: "greet"@,
                params: seq![param("name"@, ParamKind::Text)],
                result: ParamKind::Text, doc: ""@,
            },
            MethodSig { name: "no_params"@, params: Seq::empty(), result: ParamKind::Text, doc: ""@ },
        ]
    }

    open spec fn result_of(&self, index: int, args: Seq<Scalar>) -> Scalar {
        if index == 0 {
            Scalar::Int(args[0]->Int_0 + args[1]->Int_0)
        } else if index == 1 {
            Scalar::Int(self.counter as int)
        } else if index == 2 {
            Scalar::Text(plain_greeting(args[0]->Text_0))
        } else {
            Scalar::Text("No parameters needed"@)
        }
    }

    fn methods(&self) -> (r: Vec<MethodDecl>) {
        let r = vec![
            method(
                "add",
                vec![
                    Param { name: "a".to_owned(), kind: ParamKind::I32 },
                    Param { name: "b".to_owned(), kind: ParamKind::I32 },
                ],
                ParamKind::I64,
                "",
            ),
            method("get_counter", Vec::new(), ParamKind::I32, ""),
            method("greet", vec![Param { name: "name".to_owned(), kind: ParamKind::Text }], ParamKind::Text, ""),
            method("no_params", Vec::new(), ParamKind::Text, ""),
        ];
        assert(sigs_view(r@) =~= self.exposed()) by {
            assert(r@[0]@.params =~= self.exposed()[0].params);
            assert(r@[1]@.params =~= self.exposed()[1].params);
            assert(r@[2]@.params =~= self.exposed()[2].params);
            assert(r@[3]@.params =~= self.exposed()[3].params);
        }
        proof {
            reveal_strlit("add");
            reveal_strlit("get_counter");
            reveal_strlit("greet");
            reveal_strlit("no_params");
            let s = self.exposed();
            assert(s[0].name.len() == 3 && s[1].name.len() == 11 && s[2].name.len() == 5);
            assert(s[3].name.len() == 9);
            assert forall|i: int, j: int|
                0 <= i < s.len() && 0 <= j < s.len() && i != j implies #[trigger] s[i].name
                != #[trigger] s[j].name by {
                assert(s[i].name.len() != s[j].name.len());
            }
        }
        r
    }

    fn invoke(&self, index: usize, args: Vec<Datum>) -> (r: Datum) {
        proof {
            let ps = self.exposed()[index as int].params;
            assert forall|k: int| 0 <= k < args@.len() implies fits(ps[k].1, #[trigger] args@[k]@) by {
                assert(args_view(args@)[k] == args@[k]@);
            }
        }
        if index == 0 {
            Datum::Int(self.add(small_int(&args[0]), small_int(&args[1])))
        } else if index == 1 {
            Datum::Int(self.get_counter() as i64)
        } else if index == 2 {
            match &args[0] {
                Datum::Text(who) => Datum::Text(self.greet(who.clone())),
                _ => {
                    assert(false);
                    Datum::Null
                },
            }
        } else {
            Datum::Text(self.no_params())
        }
    }
}

/// A server that names itself in its answers.
#[derive(Clone, Debug)]
pub struct NamedServer {
    pub name: String,
}

/// The greeting of `NamedServer::greet`.
pub open spec fn named_greeting(who: Seq<char>, me: Seq<char>) -> Seq<char> {
    "Hello, "@ + who + "! I'm "@ + me
}

/// The text of `NamedServer::info`.
pub open spec fn server_info(me: Seq<char>) -> Seq<char> {
    "Test server: "@ + me
}

impl NamedServer {
    /// A server with this name.
    pub fn new(name: String) -> (r: Self)
        ensures
            r.name == name,
    {
        NamedServer { name }
    }

    /// The sum of two numbers.
    pub fn add(&self, a: i32, b: i32) -> (r: i64)
        ensures
            r == a + b,
    {
        a as i64 + b as i64
    }

    /// A greeting that names the caller and this server.
    pub fn greet(&self, name: String) -> (r: String)
        ensures
            r@ == named_greeting(name@, self.name@),
    {
        let mut out = "Hello, ".to_owned();
        push_text(&mut out, name.as_str());
        push_text(&mut out, "! I'm ");
        push_text(&mut out, self.name.as_str());
        assert(out@ =~= named_greeting(name@, self.name@));
        out
    }

    /// The name of this server, in words.
    pub fn info(&self) -> (r: String)
        ensures
            r@ == server_info(self.name@),
    {
        let mut out = "Test server: ".to_owned();
        push_text(&mut out, self.name.as_str());
        assert(out@ =~= server_info(self.name@));
        out
    }

    /// The message, unchanged.
    pub fn echo(&self, message: String) -> (r: String)
        ensures
            r == message,
    {
        message
    }

    /// A fixed answer, for health checks.
    pub fn ping(&self) -> (r: String)
        ensures
            r@ == "pong"@,
    {
        "pong".to_owned()
    }
}

impl Actor for NamedServer {
    open spec fn exposed(&self) -> Seq<MethodSig> {
        seq![
            MethodSig {
                name: "add"@,
                params: seq![param("a"@, ParamKind::I32), param("b"@, ParamKind::I32)],
                result: ParamKind::I64, doc: ""@,
            },
            MethodSig {
                name: "greet"@,
                params: seq![param("name"@, ParamKind::Text)],
                result: ParamKind::Text, doc: ""@,
            },
            MethodSig { name: "info"@, params: Seq::empty(), result: ParamKind::Text, doc: ""@ },
            MethodSig {
                name: "echo"@,
                params: seq![param("message"@, ParamKind::Text)],
                result: ParamKind::Text, doc: ""@,
            },
            MethodSig { name: "ping"@, params: Seq::empty(), result: ParamKind::Text, doc: ""@ },
        ]
    }

    open spec fn result_of(&self, index: int, args: Seq<Scalar>) -> Scalar {
        if index == 0 {
            Scalar::Int(args[0]->Int_0 + args[1]->Int_0)
        } else if index == 1 {
            Scalar::Text(named_greeting(args[0]->Text_0, self.name@))
        } else if index == 2 {
            Scalar::Text(server_info(self.name@))
        } else if index == 3 {
            Scalar::Text(args[0]->Text_0)
        } else {
            Scalar::Text("pong"@)
        }
    }

    fn methods(&self) -> (r: Vec<MethodDecl>) {
        let r = vec![
            method(
                "add",
                vec![
                    Param { name: "a".to_owned(), kind: ParamKind::I32 },
                    Param { name: "b".to_owned(), kind: ParamKind::I32 },
                ],
                ParamKind::I64,
                "",
            ),
            method("greet", vec![Param { name: "name".to_owned(), kind: ParamKind::Text }], ParamKind::Text, ""),
            method("info", Vec::new(), ParamKind::Text, ""),
            method("echo", vec![Param { name: "message".to_owned(), kind: ParamKind::Text }], ParamKind::Text, ""),
            method("ping", Vec::new(), ParamKind::Text, ""),
        ];
        assert(sigs_view(r@) =~= self.exposed()) by {
            assert(r@[0]@.params =~= self.exposed()[0].params);
            assert(r@[1]@.params =~= self.exposed()[1].params);
            assert(r@[2]@.params =~= self.exposed()[2].params);
            assert(r@[3]@.params =~= self.exposed()[3].params);
            assert(r@[4]@.params =~= self.exposed()[4].params);
        }
        proof {
            reveal_strlit("add");
            reveal_strlit("greet");
            reveal_strlit("info");
            reveal_strlit("echo");
            reveal_strlit("ping");
            let s = self.exposed();
            assert(s[0].name.len() == 3 && s[1].name.len() == 5);
            assert(s[2].name.len() == 4 && s[3].name.len() == 4 && s[4].name.len() == 4);
            assert(s[2].name[0] != s[3].name[0] && s[2].name[0] != s[4].name[0]);
            assert(s[3].name[0] != s[4].name[0]);
            assert forall|i: int, j: int|
                0 <= i < s.len() && 0 <= j < s.len() && i != j implies #[trigger] s[i].name
                != #[trigger] s[j].name by {
                if i >= 2 && j >= 2 {
                    assert(s[i].name[0] != s[j].name[0]);
                } else {
                    assert(s[i].name.len() != s[j].name.len());
                }
            }
        }
        r
    }

    fn invoke(&self, index: usize, args: Vec<Datum>) -> (r: Datum) {
        proof {
            let ps = self.exposed()[index as int].params;
            assert forall|k: int| 0 <= k < args@.len() implies fits(ps[k].1, #[trigger] args@[k]@) by {
                assert(args_view(args@)[k] == args@[k]@);
            }
        }
        if index == 0 {
            Datum::Int(self.add(small_int(&args[0]), small_int(&args[1])))
        } else if index == 1 || index == 3 {
            match &args[0] {
                Datum::Text(t) => if index == 1 {
                    Datum::Text(self.greet(t.clone()))
                } else {
                    Datum::Text(self.echo(t.clone()))
                },
                _ => {
                    assert(false);
                    Datum::Null
                },
            }
        } else if index == 2 {
            Datum::Text(self.info())
        } else {
            Datum::Text(self.ping())
        }
    }
}

} // verus!
