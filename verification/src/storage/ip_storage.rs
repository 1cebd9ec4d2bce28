//! The address of a host kept in a plain file of its own.

use crate::text::{from_chars, push_str, str_eq, to_chars};
use vstd::prelude::*;

verus! {

/// The text `s` with an underscore for each dot.
pub open spec fn dots_to_underscores(s: Seq<char>) -> Seq<char> {
    Seq::new(
        s.len(),
        |i: int|
            if s[i] == '.' {
                '_'
            } else {
                s[i]
            },
    )
}

/// The name of the file that keeps the address of `host`: the name of the
/// host with an underscore for each dot, and `_ip.txt`.
pub fn get_ip_file_path(host: &str) -> (path: String)
    ensures
        path@ == dots_to_underscores(host@) + "_ip.txt"@,
{
    let chars = to_chars(host);
    let mut out: Vec<char> = Vec::new();
    let mut i: usize = 0;
    while i < chars.len()
        invariant
            i <= chars.len(),
            out@ == dots_to_underscores(chars@).take(i as int),
        decreases chars.len() - i,
    {
        let c = chars[i];
        if c == '.' {
            out.push('_');
        } else {
            out.push(c);
        }
        proof {
            assert(out@ =~= dots_to_underscores(chars@).take(i + 1));
        }
        i += 1;
    }
    proof {
        assert(dots_to_underscores(chars@).take(chars@.len() as int) =~= dots_to_underscores(
            chars@,
        ));
    }
    push_str(&mut out, "_ip.txt");
    from_chars(out.as_slice())
}

/// Whether the address has changed, and so has to be written: it has unless
/// the file held an address and that address is the current one. A file
/// that is missing or cannot be read holds none.
pub fn check_and_update_ip(current_ip: &str, stored_ip: Option<&str>) -> (changed: bool)
    ensures
        changed == !(stored_ip matches Some(stored) && stored@ == current_ip@),
{
    match stored_ip {
        Some(stored) => !str_eq(stored, current_ip),
        None => true,
    }
}

} // verus!
