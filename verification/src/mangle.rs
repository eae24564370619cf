//! Flat global names for definitions.

use vstd::prelude::*;
use vstd::string::*;
use crate::defs::{DefId, LOCAL_CRATE};
use crate::errors::TransError;
use crate::order::chars_of;
use crate::tables::Tables;
use crate::text::{hex_fixed, push_hex_fixed};

verus! {

/// `String::push` of the standard library: the character is appended to
/// the end of the string, and the characters before it stay as they are.
/// This is assumed, not proved.
pub assume_specification[ String::push ](s: &mut String, c: char)
    ensures
        final(s)@ == old(s)@.push(c),
;

/// How deep inside angle brackets a reader stands after reading `s`. A
/// closing bracket with no bracket open leaves the reader outside.
pub open spec fn depth_after(s: Seq<char>) -> nat
    decreases s.len(),
{
    if s.len() == 0 {
        0
    } else {
        let d = depth_after(s.drop_last());
        if s.last() == '<' {
            d + 1
        } else if s.last() == '>' {
            if d > 0 {
                (d - 1) as nat
            } else {
                0
            }
        } else {
            d
        }
    }
}

/// A path segment without its generic arguments: what stands between
/// angle brackets is dropped with the brackets, and each dot outside them
/// becomes two underscores.
pub open spec fn cleaned(s: Seq<char>) -> Seq<char>
    decreases s.len(),
{
    if s.len() == 0 {
        Seq::empty()
    } else {
        let before = s.drop_last();
        let c = s.last();
        if c == '<' || c == '>' || depth_after(before) > 0 {
            cleaned(before)
        } else if c == '.' {
            cleaned(before) + "__"@
        } else {
            cleaned(before).push(c)
        }
    }
}

/// Whether `c` may stand in a mangled name as it is.
pub open spec fn plain(c: char) -> bool {
    ('0' <= c && c <= '9') || ('A' <= c && c <= 'Z') || ('a' <= c && c <= 'z') || c == '_'
}

/// The escape that stands for a character that is not plain: a tag for the
/// width of its code point, then the code point in hexadecimal digits.
pub open spec fn escape(c: char) -> Seq<char> {
    let n = c as u32 as nat;
    if n <= 0xff {
        "_x"@ + hex_fixed(n, 2)
    } else if n <= 0xffff {
        "_u"@ + hex_fixed(n, 4)
    } else {
        "_U"@ + hex_fixed(n, 8)
    }
}

/// `s` with every character that is not plain replaced by its escape.
pub open spec fn sanitized(s: Seq<char>) -> Seq<char>
    decreases s.len(),
{
    if s.len() == 0 {
        Seq::empty()
    } else if plain(s.last()) {
        sanitized(s.drop_last()).push(s.last())
    } else {
        sanitized(s.drop_last()) + escape(s.last())
    }
}

/// The first `n` segments of `path`, cleaned and joined by underscores
/// behind `head`. With `lead`, an underscore also stands before the
/// first segment.
pub open spec fn joined(head: Seq<char>, lead: bool, path: Seq<String>, n: nat) -> Seq<char>
    decreases n,
{
    if n == 0 {
        head
    } else if n == 1 && !lead {
        head + cleaned(path[0]@)
    } else {
        joined(head, lead, path, (n - 1) as nat) + "_"@ + cleaned(path[n - 1]@)
    }
}

/// The name of a definition before it is sanitized: for a definition of
/// the translated program the namespace and the segments of its path, for
/// any other only the segments, joined by underscores.
pub open spec fn raw_name(ns: Seq<char>, d: DefId, path: Seq<String>) -> Seq<char> {
    if d.krate == LOCAL_CRATE {
        joined(ns, true, path, path.len())
    } else {
        joined(Seq::empty(), false, path, path.len())
    }
}

/// The mangled name of the definition `d`, or the failure to find its path.
#[verifier::opaque]
pub open spec fn mangled_name(tables: &Tables, ns: Seq<char>, d: DefId) -> Result<
    Seq<char>,
    TransError,
> {
    if tables.paths@.contains_key(d) {
        Ok(sanitized(raw_name(ns, d, tables.paths@[d]@)))
    } else {
        Err(TransError::UnresolvedPath(d))
    }
}

/// Appends the path segment `s`, cleaned, to `out`.
pub fn clean_path_elem(s: &str, out: &mut String)
    ensures
        final(out)@ == old(out)@ + cleaned(s@),
{
    let v = chars_of(s);
    let mut depth: usize = 0;
    let mut i: usize = 0;
    assert(v@.take(0) =~= Seq::<char>::empty());
    assert(out@ =~= old(out)@ + cleaned(v@.take(0)));
    while i < v.len()
        invariant
            i <= v.len(),
            depth == depth_after(v@.take(i as int)),
            depth <= i,
            out@ == old(out)@ + cleaned(v@.take(i as int)),
        decreases v.len() - i,
    {
        let c = v[i];
        proof {
            assert(v@.take(i + 1).drop_last() =~= v@.take(i as int));
            assert(v@.take(i + 1).last() == c);
        }
        if c == '<' {
            depth += 1;
        } else if c == '>' {
            if depth > 0 {
                depth -= 1;
            }
        } else if depth == 0 {
            if c == '.' {
                out.append("__");
            } else {
                out.push(c);
            }
            assert(out@ =~= old(out)@ + cleaned(v@.take(i + 1)));
        }
        i += 1;
    }
    assert(v@.take(i as int) =~= v@);
}

/// Replaces every character of `s` outside `[A-Za-z0-9_]` by its escape.
pub fn sanitize_ident(s: &str) -> (r: String)
    ensures
        r@ == sanitized(s@),
        forall|i: int| 0 <= i < r@.len() ==> plain(#[trigger] r@[i]),
{
    proof {
        crate::laws::sanitized_plain(s@);
    }
    let mut out = String::new();
    assert(s@.take(0) =~= Seq::<char>::empty());
    for c in it: s.chars()
        invariant
            out@ == sanitized(s@.take(it.index() as int)),
            it.seq() == s@,
    {
        proof {
            let i = it.index() as int;
            assert(s@.take(i + 1).drop_last() =~= s@.take(i));
            assert(s@.take(i + 1).last() == c);
        }
        if (c >= '0' && c <= '9') || (c >= 'A' && c <= 'Z') || (c >= 'a' && c <= 'z') || c == '_' {
            out.push(c);
        } else {
            let n = c as u32;
            if n <= 0xff {
                out.append("_x");
                push_hex_fixed(&mut out, n, 2);
            } else if n <= 0xffff {
                out.append("_u");
                push_hex_fixed(&mut out, n, 4);
            } else {
                out.append("_U");
                push_hex_fixed(&mut out, n, 8);
            }
            assert(out@ =~= sanitized(s@.take(it.index() as int)) + escape(c));
        }
    }
    assert(s@.take(s@.len() as int) =~= s@);
    out
}

/// The mangled name of the definition `d` in the namespace `ns`. It fails
/// only if no path is known for `d`.
pub fn mangled_def_name(tables: &Tables, ns: &str, d: DefId) -> (r: Result<String, TransError>)
    ensures
        crate::outcome::text_of(r) == mangled_name(tables, ns@, d),
        r matches Ok(name) ==> forall|i: int| 0 <= i < name@.len() ==> plain(#[trigger] name@[i]),
{
    reveal(mangled_name);
    let path = match tables.paths.get(d) {
        Some(p) => p,
        None => {
            return Err(TransError::UnresolvedPath(d));
        },
    };
    let local = d.krate == LOCAL_CRATE;
    let mut name = String::new();
    let ghost head = if local {
        ns@
    } else {
        Seq::<char>::empty()
    };
    if local {
        name.append(ns);
    }
    assert(name@ =~= head);
    let mut i: usize = 0;
    while i < path.len()
        invariant
            i <= path.len(),
            name@ == joined(head, local, path@, i as nat),
        decreases path.len() - i,
    {
        if local || i > 0 {
            name.append("_");
        }
        clean_path_elem(path[i].as_str(), &mut name);
        i += 1;
    }
    Ok(sanitize_ident(name.as_str()))
}

} // verus!
