use vstd::prelude::*;

verus! {

/// The code point of `c` with an ASCII upper-case letter folded to its
/// lower-case counterpart; every other character is left as it is.
pub open spec fn lower_code(c: char) -> int {
    if 65 <= c as int && c as int <= 90 {
        c as int + 32
    } else {
        c as int
    }
}

/// Two header names match when they are equal after ASCII case folding.
pub open spec fn name_matches(a: Seq<char>, b: Seq<char>) -> bool {
    a.len() == b.len() && forall|i: int| 0 <= i < a.len() ==> lower_code(a[i]) == lower_code(b[i])
}

/// The value of the first header whose name matches `name` after ASCII case
/// folding, if any header does.
pub open spec fn header_lookup(headers: Seq<(String, String)>, name: Seq<char>) -> Option<
    Seq<char>,
>
    decreases headers.len(),
{
    if headers.len() == 0 {
        None
    } else if name_matches(headers[0].0@, name) {
        Some(headers[0].1@)
    } else {
        header_lookup(headers.drop_first(), name)
    }
}

fn fold_code(c: char) -> (r: u32)
    ensures
        r as int == lower_code(c),
{
    let u = c as u32;
    if 65 <= u && u <= 90 {
        u + 32
    } else {
        u
    }
}

/// Whether two header names are equal up to ASCII case.
pub fn names_equal(a: &str, b: &str) -> (r: bool)
    ensures
        r == name_matches(a@, b@),
{
    let a_len = a.unicode_len();
    if a_len != b.unicode_len() {
        return false;
    }
    let mut i: usize = 0;
    while i < a_len
        invariant
            a_len == a@.len(),
            a@.len() == b@.len(),
            i <= a_len,
            forall|j: int| 0 <= j < i ==> lower_code(a@[j]) == lower_code(b@[j]),
        decreases a_len - i,
    {
        if fold_code(a.get_char(i)) != fold_code(b.get_char(i)) {
            return false;
        }
        i = i + 1;
    }
    true
}

/// Looks a header up by name, matching names case-insensitively, and returns
/// the value of the first header that matches.
pub fn find_header(headers: &Vec<(String, String)>, name: &str) -> (r: Option<String>)
    ensures
        match r {
            Some(v) => header_lookup(headers@, name@) == Some(v@),
            None => header_lookup(headers@, name@) is None,
        },
{
    let mut i: usize = 0;
    proof {
        assert(headers@.skip(0) =~= headers@);
    }
    while i < headers.len()
        invariant
            i <= headers@.len(),
            header_lookup(headers@, name@) == header_lookup(headers@.skip(i as int), name@),
        decreases headers@.len() - i,
    {
        let ghost rest = headers@.skip(i as int);
        proof {
            assert(rest[0] == headers@[i as int]);
            assert(rest.drop_first() =~= headers@.skip(i as int + 1));
        }
        if names_equal(headers[i].0.as_str(), name) {
            return Some(headers[i].1.clone());
        }
        i = i + 1;
    }
    None
}

} // verus!
