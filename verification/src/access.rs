//! The leaf of the model: one typed access request.

use vstd::prelude::*;
use vstd::string::StringExecFns;

verus! {

broadcast use vstd::string::group_string_axioms;

/// The character for one decimal digit.
pub open spec fn digit_char(d: nat) -> char {
    if d == 0 {
        '0'
    } else if d == 1 {
        '1'
    } else if d == 2 {
        '2'
    } else if d == 3 {
        '3'
    } else if d == 4 {
        '4'
    } else if d == 5 {
        '5'
    } else if d == 6 {
        '6'
    } else if d == 7 {
        '7'
    } else if d == 8 {
        '8'
    } else {
        '9'
    }
}

/// The decimal rendering of a number, most significant digit first.
pub open spec fn decimal_of(n: nat) -> Seq<char>
    decreases n,
{
    if n < 10 {
        seq![digit_char(n)]
    } else {
        decimal_of(n / 10).push(digit_char(n % 10))
    }
}

fn digit_str(d: u64) -> (r: &'static str)
    requires
        d < 10,
    ensures
        r@ == seq![digit_char(d as nat)],
{
    let r: &'static str = if d == 0 {
        "0"
    } else if d == 1 {
        "1"
    } else if d == 2 {
        "2"
    } else if d == 3 {
        "3"
    } else if d == 4 {
        "4"
    } else if d == 5 {
        "5"
    } else if d == 6 {
        "6"
    } else if d == 7 {
        "7"
    } else if d == 8 {
        "8"
    } else {
        "9"
    };
    proof {
        reveal_strlit("0");
        reveal_strlit("1");
        reveal_strlit("2");
        reveal_strlit("3");
        reveal_strlit("4");
        reveal_strlit("5");
        reveal_strlit("6");
        reveal_strlit("7");
        reveal_strlit("8");
        reveal_strlit("9");
        assert(r@ =~= seq![digit_char(d as nat)]);
    }
    r
}

/// Appends the decimal rendering of `n` to `s`.
pub fn push_decimal(s: &mut String, n: u64)
    ensures
        final(s)@ == old(s)@ + decimal_of(n as nat),
    decreases n,
{
    if n < 10 {
        s.append(digit_str(n));
    } else {
        push_decimal(s, n / 10);
        s.append(digit_str(n % 10));
        proof {
            assert(s@ =~= old(s)@ + decimal_of(n as nat));
        }
    }
}

/// Identity of a component type, or of the shared world container itself.
///
/// Component types are named by a plain integer identity chosen by the
/// embedding code; the world container has an identity of its own, so a
/// subworld's implicit access to it can never collide with a component.
#[derive(Clone, Copy, PartialEq, Eq, Hash, Debug, Structural)]
pub enum TypeKey {
    /// The shared world container.
    World,
    /// A component type, by its numeric identity.
    Component(u64),
}

/// The mathematical content of one access: which type it names, whether
/// the access is exclusive (write) or shared (read), and the diagnostic
/// label it carries. Compatibility is decided by the type identity and
/// the exclusivity alone; the label is along for diagnostics.
pub struct AccessView {
    pub type_id: TypeKey,
    pub exclusive: bool,
    pub name: Seq<char>,
}

/// One typed access request: a component type identity, an exclusivity flag
/// (`true` means write access), and a human-readable label for diagnostics.
#[derive(Debug)]
pub struct Access {
    pub type_id: TypeKey,
    pub exclusive: bool,
    pub name: String,
}

impl View for Access {
    type V = AccessView;

    open spec fn view(&self) -> AccessView {
        AccessView { type_id: self.type_id, exclusive: self.exclusive, name: self.name@ }
    }
}

/// Two accesses conflict iff they name the same type and at least one of
/// them is exclusive; two shared accesses to the same type never conflict.
pub open spec fn conflicts(a: AccessView, b: AccessView) -> bool {
    a.type_id == b.type_id && (a.exclusive || b.exclusive)
}

/// The granted access `grant` covers the required access `req` iff it names
/// the same type and grants at least as much: an exclusive grant covers
/// both kinds of requirement, a shared grant only a shared one.
pub open spec fn covers(grant: AccessView, req: AccessView) -> bool {
    grant.type_id == req.type_id && (grant.exclusive || !req.exclusive)
}

impl Access {
    pub fn new(type_id: TypeKey, exclusive: bool, name: String) -> (r: Access)
        ensures
            r.type_id == type_id,
            r.exclusive == exclusive,
            r.name == name,
    {
        Access { type_id, exclusive, name }
    }

    /// Whether this access conflicts with `other`: same type and at least
    /// one side exclusive.
    pub fn conflicts_with(&self, other: &Access) -> (r: bool)
        ensures
            r == conflicts(self@, other@),
    {
        self.type_id == other.type_id && (self.exclusive || other.exclusive)
    }

    /// Whether this (granted) access covers the required access `req`.
    pub fn grants(&self, req: &Access) -> (r: bool)
        ensures
            r == covers(self@, req@),
    {
        self.type_id == req.type_id && (self.exclusive || !req.exclusive)
    }
}

} // verus!
