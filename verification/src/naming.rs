//! Registry names: an actor kind and an identifier, joined by a slash.

use vstd::prelude::*;

verus! {

/// The character that separates the kind from the identifier.
pub open spec fn separator() -> char {
    '/'
}

/// The registry name of the actor of a kind that serves an identifier.
pub open spec fn registry_name(kind: Seq<char>, identifier: Seq<char>) -> Seq<char> {
    kind + seq![separator()] + identifier
}

/// A kind is well formed when the separator does not occur in it.
pub open spec fn well_formed_kind(kind: Seq<char>) -> bool {
    forall|i: int| 0 <= i < kind.len() ==> kind[i] != separator()
}

/// Builds the registry name of the actor of a kind that serves an identifier.
pub fn compose(kind: &str, identifier: &str) -> (name: String)
    ensures
        name@ == registry_name(kind@, identifier@),
{
    proof {
        reveal_strlit("/");
        assert("/"@ == seq![separator()]);
    }
    String::from_str(kind).concat("/").concat(identifier)
}

/// Two registry names built from well-formed kinds are equal only if both
/// the kinds and the identifiers are: actors of different kinds never share
/// a name, whatever their identifiers.
pub proof fn lemma_registry_name_injective(
    kind_a: Seq<char>,
    identifier_a: Seq<char>,
    kind_b: Seq<char>,
    identifier_b: Seq<char>,
)
    requires
        well_formed_kind(kind_a),
        well_formed_kind(kind_b),
        registry_name(kind_a, identifier_a) == registry_name(kind_b, identifier_b),
    ensures
        kind_a == kind_b,
        identifier_a == identifier_b,
{
    let a = registry_name(kind_a, identifier_a);
    let b = registry_name(kind_b, identifier_b);
    assert(a[kind_a.len() as int] == separator());
    assert(b[kind_b.len() as int] == separator());
    if kind_a.len() < kind_b.len() {
        assert(b[kind_a.len() as int] == kind_b[kind_a.len() as int]);
    }
    if kind_b.len() < kind_a.len() {
        assert(a[kind_b.len() as int] == kind_a[kind_b.len() as int]);
    }
    assert(kind_a =~= kind_b) by {
        assert forall|i: int| 0 <= i < kind_a.len() implies kind_a[i] == kind_b[i] by {
            assert(a[i] == kind_a[i]);
            assert(b[i] == kind_b[i]);
        }
    }
    assert(identifier_a =~= identifier_b) by {
        assert(a.len() == b.len());
        assert forall|i: int| 0 <= i < identifier_a.len() implies identifier_a[i]
            == identifier_b[i] by {
            assert(a[kind_a.len() + 1 + i] == identifier_a[i]);
            assert(b[kind_b.len() + 1 + i] == identifier_b[i]);
        }
    }
}

} // verus!
