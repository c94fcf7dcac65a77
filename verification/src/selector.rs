//! Selector names.
//!
//! A selector is the name under which the foreign runtime looks a method up.
//! Its text carries two facts that the bridge relies on: every `:` marks one
//! argument, and the leading word places the method in a family that decides
//! who owns the object it returns.

use vstd::prelude::*;

verus! {

/// Number of argument markers (`:`) among the first `upto` characters of `name`.
pub open spec fn markers(name: Seq<char>, upto: int) -> nat
    decreases upto,
{
    if upto <= 0 {
        0
    } else {
        markers(name, upto - 1) + if name[upto - 1] == ':' {
            1nat
        } else {
            0nat
        }
    }
}

/// Number of arguments that a method called `name` takes.
pub open spec fn arity(name: Seq<char>) -> nat {
    markers(name, name.len() as int)
}

/// `name` begins with the characters of `prefix`.
pub open spec fn begins_with(name: Seq<char>, prefix: Seq<char>) -> bool {
    prefix.len() <= name.len() && name.subrange(0, prefix.len() as int) == prefix
}

/// What a method's name says about the object it returns.
#[derive(Clone, Copy, Debug, PartialEq, Eq, Structural)]
pub enum Family {
    /// `alloc`, `new…`, `copy…`: the caller receives a reference-count unit.
    Creates,
    /// `init…`: the receiver's unit is used up and the result carries one instead.
    Initializes,
    /// Every other name: the result is on loan, and keeping it takes a retain.
    Borrows,
}

/// The family of the method called `name`.
pub open spec fn family_of(name: Seq<char>) -> Family {
    if name == "alloc"@ || begins_with(name, "new"@) || begins_with(name, "copy"@) {
        Family::Creates
    } else if begins_with(name, "init"@) {
        Family::Initializes
    } else {
        Family::Borrows
    }
}

/// The result of a method called `name` arrives without a unit of its own.
pub open spec fn lends(name: Seq<char>) -> bool {
    family_of(name) == Family::Borrows
}

/// The family of the method called `name`, read off its first letters.
pub open spec fn family_by_initials(name: Seq<char>) -> Family {
    if name.len() == 5 && name[0] == 'a' && name[1] == 'l' && name[2] == 'l' && name[3] == 'o'
        && name[4] == 'c' {
        Family::Creates
    } else if name.len() >= 3 && name[0] == 'n' && name[1] == 'e' && name[2] == 'w' {
        Family::Creates
    } else if name.len() >= 4 && name[0] == 'c' && name[1] == 'o' && name[2] == 'p' && name[3]
        == 'y' {
        Family::Creates
    } else if name.len() >= 4 && name[0] == 'i' && name[1] == 'n' && name[2] == 'i' && name[3]
        == 't' {
        Family::Initializes
    } else {
        Family::Borrows
    }
}

/// A name's family can be read off its first letters.
pub proof fn family_is_in_the_initials(name: Seq<char>)
    ensures
        family_of(name) == family_by_initials(name),
{
    reveal_strlit("alloc");
    reveal_strlit("new");
    reveal_strlit("copy");
    reveal_strlit("init");
    let alloc = "alloc"@;
    let new = "new"@;
    let copy = "copy"@;
    let init = "init"@;
    if name.len() == 5 && name[0] == 'a' && name[1] == 'l' && name[2] == 'l' && name[3] == 'o'
        && name[4] == 'c' {
        assert(name =~= alloc);
    }
    if name == alloc {
        assert(name[0] == alloc[0] && name[1] == alloc[1] && name[2] == alloc[2] && name[3]
            == alloc[3] && name[4] == alloc[4]);
    }
    if name.len() >= 3 {
        let head = name.subrange(0, 3);
        if name[0] == 'n' && name[1] == 'e' && name[2] == 'w' {
            assert(head =~= new);
        }
        if head == new {
            assert(head[0] == new[0] && head[1] == new[1] && head[2] == new[2]);
        }
    }
    if name.len() >= 4 {
        let head = name.subrange(0, 4);
        if name[0] == 'c' && name[1] == 'o' && name[2] == 'p' && name[3] == 'y' {
            assert(head =~= copy);
        }
        if head == copy {
            assert(head[0] == copy[0] && head[1] == copy[1] && head[2] == copy[2] && head[3]
                == copy[3]);
        }
        if name[0] == 'i' && name[1] == 'n' && name[2] == 'i' && name[3] == 't' {
            assert(head =~= init);
        }
        if head == init {
            assert(head[0] == init[0] && head[1] == init[1] && head[2] == init[2] && head[3]
                == init[3]);
        }
    }
}

/// Counts the arguments that a method called `name` takes.
pub fn count_arguments(name: &str) -> (count: usize)
    ensures
        count == arity(name@),
{
    let length: usize = name.unicode_len();
    let mut count: usize = 0;
    let mut at: usize = 0;
    while at < length
        invariant
            at <= length,
            length == name@.len(),
            count == markers(name@, at as int),
            count <= at,
        decreases length - at,
    {
        if name.get_char(at) == ':' {
            count = count + 1;
        }
        at = at + 1;
    }
    count
}

/// Tells whether `name` begins with `prefix`.
pub fn has_prefix(name: &str, prefix: &str) -> (found: bool)
    ensures
        found == begins_with(name@, prefix@),
{
    let wanted: usize = prefix.unicode_len();
    if name.unicode_len() < wanted {
        return false;
    }
    let mut at: usize = 0;
    while at < wanted
        invariant
            at <= wanted,
            wanted == prefix@.len(),
            wanted <= name@.len(),
            name@.subrange(0, at as int) == prefix@.subrange(0, at as int),
        decreases wanted - at,
    {
        if name.get_char(at) != prefix.get_char(at) {
            proof {
                let i = at as int;
                assert(name@.subrange(0, wanted as int)[i] == name@[i]);
                assert(prefix@.subrange(0, wanted as int)[i] == prefix@[i]);
            }
            return false;
        }
        proof {
            let n = at as int;
            assert(name@.subrange(0, n + 1) =~= name@.subrange(0, n).push(name@[n]));
            assert(prefix@.subrange(0, n + 1) =~= prefix@.subrange(0, n).push(prefix@[n]));
        }
        at = at + 1;
    }
    proof {
        assert(prefix@.subrange(0, wanted as int) =~= prefix@);
    }
    true
}

/// Tells whether `name` and `other` are the same text.
pub fn same_text(name: &str, other: &str) -> (same: bool)
    ensures
        same == (name@ == other@),
{
    if name.unicode_len() != other.unicode_len() {
        return false;
    }
    let found = has_prefix(name, other);
    proof {
        assert(name@.subrange(0, name@.len() as int) =~= name@);
    }
    found
}

/// Places the method called `name` in its family.
pub fn classify(name: &str) -> (family: Family)
    ensures
        family == family_of(name@),
{
    if same_text(name, "alloc") || has_prefix(name, "new") || has_prefix(name, "copy") {
        Family::Creates
    } else if has_prefix(name, "init") {
        Family::Initializes
    } else {
        Family::Borrows
    }
}

} // verus!
