//! The names of archive entries.
//!
//! An entry is unpacked only under a name that says where it goes: a
//! relative path with `/` between its parts, none of which is `..`. Any
//! other name is refused, never bent into shape.

use vstd::prelude::*;
use vstd::string::*;

verus! {

/// Why the name of an entry is refused.
#[derive(Clone, Copy, Debug, PartialEq, Eq, Structural)]
pub enum EntryFault {
    /// The name holds a NUL character.
    NulCharacter,
    /// The name holds a backslash, which some systems read as a separator.
    Backslash,
    /// The name starts at the root.
    AbsolutePath,
    /// A part of the name is `..`.
    ParentDirectory,
}

/// True when the part of `name` that starts at position `i` is `..`.
pub open spec fn parent_component_at(name: Seq<char>, i: int) -> bool {
    &&& 0 <= i
    &&& i + 1 < name.len()
    &&& name[i] == '.'
    &&& name[i + 1] == '.'
    &&& (i == 0 || name[i - 1] == '/')
    &&& (i + 2 == name.len() || name[i + 2] == '/')
}

/// True when some part of `name` is `..`.
pub open spec fn climbs(name: Seq<char>) -> bool {
    exists|i: int| parent_component_at(name, i)
}

/// The first reason to refuse `name`, or `None` for a name that is safe.
pub open spec fn entry_fault(name: Seq<char>) -> Option<EntryFault> {
    if name.contains('\0') {
        Some(EntryFault::NulCharacter)
    } else if name.contains('\\') {
        Some(EntryFault::Backslash)
    } else if name.len() > 0 && name[0] == '/' {
        Some(EntryFault::AbsolutePath)
    } else if climbs(name) {
        Some(EntryFault::ParentDirectory)
    } else {
        None
    }
}

/// The text that names a fault in the log.
pub open spec fn fault_text(fault: EntryFault) -> Seq<char> {
    match fault {
        EntryFault::NulCharacter => "entry name holds a NUL character"@,
        EntryFault::Backslash => "entry name holds a backslash"@,
        EntryFault::AbsolutePath => "entry name is an absolute path"@,
        EntryFault::ParentDirectory => "entry name leads to a parent directory"@,
    }
}

/// True when a `..` part of `name` ends before position `k`, closed by the
/// separator that follows it.
pub open spec fn closed_parent_before(name: Seq<char>, k: int) -> bool {
    exists|i: int| parent_component_at(name, i) && i + 2 < k
}

impl EntryFault {
    /// The text that names this fault in the log.
    pub fn message(&self) -> (text: String)
        ensures
            text@ == fault_text(*self),
    {
        match self {
            EntryFault::NulCharacter => String::from_str("entry name holds a NUL character"),
            EntryFault::Backslash => String::from_str("entry name holds a backslash"),
            EntryFault::AbsolutePath => String::from_str("entry name is an absolute path"),
            EntryFault::ParentDirectory => String::from_str(
                "entry name leads to a parent directory",
            ),
        }
    }
}

/// Decides whether an entry may be unpacked under `name`.
pub fn check_entry(name: &str) -> (r: Result<(), EntryFault>)
    ensures
        r == match entry_fault(name@) {
            Some(fault) => Err::<(), EntryFault>(fault),
            None => Ok::<(), EntryFault>(()),
        },
{
    let mut has_nul = false;
    let mut has_backslash = false;
    let mut absolute = false;
    let mut climbing = false;
    let mut at_start = true;
    let mut one_dot = false;
    let mut two_dots = false;
    let mut seen_any = false;
    for c in it: name.chars()
        invariant
            it.seq() == name@,
            seen_any == (it.index() > 0),
            has_nul == name@.take(it.index() as int).contains('\0'),
            has_backslash == name@.take(it.index() as int).contains('\\'),
            absolute == (it.index() > 0 && name@[0] == '/'),
            climbing == closed_parent_before(name@, it.index() as int),
            at_start == (it.index() == 0 || name@[it.index() - 1] == '/'),
            one_dot == (it.index() >= 1 && name@[it.index() - 1] == '.' && (it.index() == 1
                || name@[it.index() - 2] == '/')),
            two_dots == (it.index() >= 2 && name@[it.index() - 2] == '.' && name@[it.index() - 1]
                == '.' && (it.index() == 2 || name@[it.index() - 3] == '/')),
    {
        let ghost k = it.index() as int;
        let ghost s = name@;
        assert(c == s[k]);
        proof {
            assert(s.take(k + 1) =~= s.take(k).push(c));
            assert(s.take(k + 1).contains('\0') == (s.take(k).contains('\0') || c == '\0')) by {
                if s.take(k).contains('\0') {
                    let j = choose|j: int| 0 <= j < s.take(k).len() && s.take(k)[j] == '\0';
                    assert(s.take(k + 1)[j] == '\0');
                }
                if c == '\0' {
                    assert(s.take(k + 1)[k] == '\0');
                }
            }
            assert(s.take(k + 1).contains('\\') == (s.take(k).contains('\\') || c == '\\')) by {
                if s.take(k).contains('\\') {
                    let j = choose|j: int| 0 <= j < s.take(k).len() && s.take(k)[j] == '\\';
                    assert(s.take(k + 1)[j] == '\\');
                }
                if c == '\\' {
                    assert(s.take(k + 1)[k] == '\\');
                }
            }
            if c == '/' {
                if two_dots {
                    assert(parent_component_at(s, k - 2));
                }
                if closed_parent_before(s, k + 1) && !closed_parent_before(s, k) {
                    let i = choose|i: int| parent_component_at(s, i) && i + 2 < k + 1;
                    assert(i + 2 == k);
                }
                assert(closed_parent_before(s, k + 1) == (climbing || two_dots));
            } else {
                if closed_parent_before(s, k + 1) {
                    let i = choose|i: int| parent_component_at(s, i) && i + 2 < k + 1;
                    assert(i + 2 < k);
                }
                assert(closed_parent_before(s, k + 1) == climbing);
            }
        }
        if c == '\0' {
            has_nul = true;
        }
        if c == '\\' {
            has_backslash = true;
        }
        if c == '/' {
            if !seen_any {
                absolute = true;
            }
            if two_dots {
                climbing = true;
            }
        }
        two_dots = c == '.' && one_dot;
        one_dot = c == '.' && at_start;
        at_start = c == '/';
        seen_any = true;
    }
    proof {
        let s = name@;
        let n = s.len() as int;
        assert(s.take(n) =~= s);
        if climbs(s) {
            let i = choose|i: int| parent_component_at(s, i);
            if i + 2 < n {
                assert(closed_parent_before(s, n));
            }
        }
        if two_dots {
            assert(parent_component_at(s, n - 2));
        }
        assert(climbs(s) == (climbing || two_dots));
    }
    if has_nul {
        Err(EntryFault::NulCharacter)
    } else if has_backslash {
        Err(EntryFault::Backslash)
    } else if absolute {
        Err(EntryFault::AbsolutePath)
    } else if climbing || two_dots {
        Err(EntryFault::ParentDirectory)
    } else {
        Ok(())
    }
}

} // verus!
