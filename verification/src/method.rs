//! The method codec: the operations the server understands and their wire names.

use crate::text::{chars_of, spells};
use vstd::prelude::*;

verus! {

/// An operation of the bill acceptor. `Unknown` stands for any name that is
/// none of the six operations.
#[derive(Clone, Copy, Debug, PartialEq, Eq, Structural)]
pub enum Method {
    Status,
    Enable,
    Disable,
    Stack,
    Reject,
    Reset,
    Unknown,
}

/// The name under which a method travels on the wire.
pub open spec fn wire_name(m: Method) -> Seq<char> {
    match m {
        Method::Status => "status"@,
        Method::Enable => "enable"@,
        Method::Disable => "disable"@,
        Method::Stack => "stack"@,
        Method::Reject => "reject"@,
        Method::Reset => "reset"@,
        Method::Unknown => "reserved"@,
    }
}

/// The method that a wire name stands for: one of the six operations where
/// the name is exactly its wire name, `Unknown` for every other text.
pub open spec fn method_named(name: Seq<char>) -> Method {
    if name == "status"@ {
        Method::Status
    } else if name == "enable"@ {
        Method::Enable
    } else if name == "disable"@ {
        Method::Disable
    } else if name == "stack"@ {
        Method::Stack
    } else if name == "reject"@ {
        Method::Reject
    } else if name == "reset"@ {
        Method::Reset
    } else {
        Method::Unknown
    }
}

/// The wire name of `m`.
pub fn encode(m: Method) -> (name: &'static str)
    ensures
        name@ == wire_name(m),
{
    match m {
        Method::Status => "status",
        Method::Enable => "enable",
        Method::Disable => "disable",
        Method::Stack => "stack",
        Method::Reject => "reject",
        Method::Reset => "reset",
        Method::Unknown => "reserved",
    }
}

/// Calls `ssp::Method::from(&str)`, which matches the whole name, case
/// sensitively, against a fixed table, and keeps the six operations of this
/// library apart from everything else the table knows. Of that table the
/// contract claims: each of the six wire names gives its own operation, and
/// no other text gives one of the six.
#[verifier::external_body]
fn method_from_name(name: &str) -> (m: Method)
    ensures
        m == method_named(name@),
{
    match ssp::Method::from(name) {
        ssp::Method::Status => Method::Status,
        ssp::Method::Enable => Method::Enable,
        ssp::Method::Disable => Method::Disable,
        ssp::Method::Stack => Method::Stack,
        ssp::Method::Reject => Method::Reject,
        ssp::Method::Reset => Method::Reset,
        _ => Method::Unknown,
    }
}

/// The method that the wire name `name` stands for.
pub fn decode(name: &str) -> (m: Method)
    ensures
        m == method_named(name@),
{
    method_from_name(name)
}

/// The method that a token typed by the user selects: each operation answers
/// to its wire name, and all but `reset` to a short form as well. No token
/// selects `Unknown`; a text that is no such token selects nothing.
pub open spec fn method_for_token(token: Seq<char>) -> Option<Method> {
    if token == "status"@ || token == "stat"@ {
        Some(Method::Status)
    } else if token == "enable"@ || token == "e"@ {
        Some(Method::Enable)
    } else if token == "disable"@ || token == "d"@ {
        Some(Method::Disable)
    } else if token == "stack"@ || token == "t"@ {
        Some(Method::Stack)
    } else if token == "reject"@ || token == "r"@ {
        Some(Method::Reject)
    } else if token == "reset"@ {
        Some(Method::Reset)
    } else {
        None
    }
}

/// The method that the token selects, or `None` where the token is no
/// command that names a method.
pub fn from_token(token: &str) -> (selected: Option<Method>)
    ensures
        selected == method_for_token(token@),
{
    let t = chars_of(token);
    let t = t.as_slice();
    if spells(t, "status") || spells(t, "stat") {
        Some(Method::Status)
    } else if spells(t, "enable") || spells(t, "e") {
        Some(Method::Enable)
    } else if spells(t, "disable") || spells(t, "d") {
        Some(Method::Disable)
    } else if spells(t, "stack") || spells(t, "t") {
        Some(Method::Stack)
    } else if spells(t, "reject") || spells(t, "r") {
        Some(Method::Reject)
    } else if spells(t, "reset") {
        Some(Method::Reset)
    } else {
        None
    }
}

/// The seven wire names are pairwise different.
pub proof fn lemma_wire_names_differ(a: Method, b: Method)
    requires
        a != b,
    ensures
        wire_name(a) != wire_name(b),
{
    reveal_strlit("status");
    reveal_strlit("enable");
    reveal_strlit("disable");
    reveal_strlit("stack");
    reveal_strlit("reject");
    reveal_strlit("reset");
    reveal_strlit("reserved");
    let x = wire_name(a);
    let y = wire_name(b);
    if x.len() == y.len() {
        assert(x[0] != y[0] || x[2] != y[2]);
    }
}

/// Decoding undoes encoding: the wire name of a method stands for that method.
pub proof fn lemma_decode_encode(m: Method)
    ensures
        method_named(wire_name(m)) == m,
{
    if m != Method::Status {
        lemma_wire_names_differ(m, Method::Status);
    }
    if m != Method::Enable {
        lemma_wire_names_differ(m, Method::Enable);
    }
    if m != Method::Disable {
        lemma_wire_names_differ(m, Method::Disable);
    }
    if m != Method::Stack {
        lemma_wire_names_differ(m, Method::Stack);
    }
    if m != Method::Reject {
        lemma_wire_names_differ(m, Method::Reject);
    }
    if m != Method::Reset {
        lemma_wire_names_differ(m, Method::Reset);
    }
}

/// Every operation is selected by its own wire name, and no token selects
/// `Unknown`.
pub proof fn lemma_token_of_wire_name(m: Method, token: Seq<char>)
    ensures
        m != Method::Unknown ==> method_for_token(wire_name(m)) == Some(m),
        method_for_token(token) != Some(Method::Unknown),
{
    if m != Method::Unknown {
        // A wire name is longer than every short form,
        reveal_strlit("status");
        reveal_strlit("enable");
        reveal_strlit("disable");
        reveal_strlit("stack");
        reveal_strlit("reject");
        reveal_strlit("reset");
        reveal_strlit("stat");
        reveal_strlit("e");
        reveal_strlit("d");
        reveal_strlit("t");
        reveal_strlit("r");
        assert(wire_name(m).len() >= 5);
        // and it is no other operation's wire name.
        if m != Method::Status {
            lemma_wire_names_differ(m, Method::Status);
        }
        if m != Method::Enable {
            lemma_wire_names_differ(m, Method::Enable);
        }
        if m != Method::Disable {
            lemma_wire_names_differ(m, Method::Disable);
        }
        if m != Method::Stack {
            lemma_wire_names_differ(m, Method::Stack);
        }
        if m != Method::Reject {
            lemma_wire_names_differ(m, Method::Reject);
        }
    }
}

} // verus!
