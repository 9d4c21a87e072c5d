//! Character-level string comparison helpers.
//!
//! Model identifiers and capability tags are compared as character
//! sequences; these two helpers give the registry and the detection logic
//! exact contracts over string views.

use vstd::prelude::*;
use vstd::std_specs::iter::IteratorSpec;

verus! {

broadcast use vstd::string::next_postcondition, vstd::string::axiom_spec_iter;

/// Whether `prefix` is an initial segment of `s`.
pub open spec fn spec_starts_with(s: Seq<char>, prefix: Seq<char>) -> bool {
    prefix.len() <= s.len() && s.subrange(0, prefix.len() as int) == prefix
}

/// Compares two strings character by character.
pub fn str_eq(a: &str, b: &str) -> (r: bool)
    ensures
        r == (a@ == b@),
{
    let mut ac = a.chars();
    let mut bc = b.chars();
    let ghost mut i: int = 0;
    loop
        invariant
            0 <= i <= a@.len(),
            i <= b@.len(),
            ac.remaining() == a@.skip(i),
            bc.remaining() == b@.skip(i),
            a@.subrange(0, i) == b@.subrange(0, i),
        decreases a@.len() - i,
    {
        let an = ac.next();
        let bn = bc.next();
        match (an, bn) {
            (None, None) => {
                proof {
                    assert(i == a@.len());
                    assert(i == b@.len());
                    assert(a@.subrange(0, i) =~= a@);
                    assert(b@.subrange(0, i) =~= b@);
                }
                return true;
            }
            (Some(x), Some(y)) => {
                proof {
                    assert(x == a@.skip(i)[0]);
                    assert(y == b@.skip(i)[0]);
                }
                if x != y {
                    proof {
                        if a@ == b@ {
                            assert(a@[i] == b@[i]);
                        }
                    }
                    return false;
                }
                proof {
                    assert(a@[i] == b@[i]);
                    i = i + 1;
                    assert(ac.remaining() =~= a@.skip(i));
                    assert(bc.remaining() =~= b@.skip(i));
                    assert(a@.subrange(0, i) =~= b@.subrange(0, i));
                }
            }
            (Some(x), None) => {
                proof {
                    assert(i < a@.len());
                    assert(i == b@.len());
                }
                return false;
            }
            (None, Some(y)) => {
                proof {
                    assert(i == a@.len());
                    assert(i < b@.len());
                }
                return false;
            }
        }
    }
}

/// Tests whether `s` begins with `prefix`, character by character.
pub fn str_starts_with(s: &str, prefix: &str) -> (r: bool)
    ensures
        r == spec_starts_with(s@, prefix@),
{
    let mut sc = s.chars();
    let mut pc = prefix.chars();
    let ghost mut i: int = 0;
    loop
        invariant
            0 <= i <= prefix@.len(),
            i <= s@.len(),
            sc.remaining() == s@.skip(i),
            pc.remaining() == prefix@.skip(i),
            s@.subrange(0, i) == prefix@.subrange(0, i),
        decreases prefix@.len() - i,
    {
        let pn = pc.next();
        match pn {
            None => {
                proof {
                    assert(i == prefix@.len());
                    assert(s@.subrange(0, prefix@.len() as int) =~= prefix@);
                }
                return true;
            }
            Some(p) => {
                proof {
                    assert(p == prefix@.skip(i)[0]);
                }
                let sn = sc.next();
                match sn {
                    None => {
                        proof {
                            assert(i == s@.len());
                            assert(i < prefix@.len());
                        }
                        return false;
                    }
                    Some(c) => {
                        proof {
                            assert(c == s@.skip(i)[0]);
                        }
                        if c != p {
                            proof {
                                if spec_starts_with(s@, prefix@) {
                                    assert(s@.subrange(0, prefix@.len() as int)[i]
                                        == prefix@[i]);
                                }
                            }
                            return false;
                        }
                        proof {
                            assert(s@[i] == prefix@[i]);
                            i = i + 1;
                            assert(sc.remaining() =~= s@.skip(i));
                            assert(pc.remaining() =~= prefix@.skip(i));
                            assert(s@.subrange(0, i) =~= prefix@.subrange(0, i));
                        }
                    }
                }
            }
        }
    }
}

} // verus!
