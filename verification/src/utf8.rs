//! UTF-8 validity for byte sequences crossing the plugin boundary.
//!
//! Strings arrive from a plugin as raw bytes; the host must decide whether
//! they are well-formed text before treating them as such. Validity follows
//! the shortest-form UTF-8 definition (RFC 3629): no overlong encodings, no
//! surrogate code points, nothing above U+10FFFF.

use vstd::prelude::*;

verus! {

/// A continuation byte, `10xxxxxx`.
pub open spec fn is_utf8_cont(b: u8) -> bool {
    0x80 <= b && b <= 0xBF
}

/// How many bytes a sequence starting with `b0` must occupy,
/// or 0 when `b0` can never start a sequence (stray continuation
/// bytes, the overlong leads 0xC0/0xC1, and 0xF5..0xFF).
pub open spec fn utf8_head_len(b0: u8) -> int {
    if b0 <= 0x7F {
        1
    } else if 0xC2 <= b0 && b0 <= 0xDF {
        2
    } else if 0xE0 <= b0 && b0 <= 0xEF {
        3
    } else if 0xF0 <= b0 && b0 <= 0xF4 {
        4
    } else {
        0
    }
}

/// Lower bound on the second byte. 0xE0 and 0xF0 narrow it to rule out
/// overlong encodings.
pub open spec fn utf8_second_lo(b0: u8) -> u8 {
    if b0 == 0xE0 {
        0xA0
    } else if b0 == 0xF0 {
        0x90
    } else {
        0x80
    }
}

/// Upper bound on the second byte. 0xED rules out the surrogate range
/// U+D800..U+DFFF; 0xF4 rules out code points above U+10FFFF.
pub open spec fn utf8_second_hi(b0: u8) -> u8 {
    if b0 == 0xED {
        0x9F
    } else if b0 == 0xF4 {
        0x8F
    } else {
        0xBF
    }
}

/// `s` is a well-formed UTF-8 byte sequence.
pub open spec fn is_valid_utf8(s: Seq<u8>) -> bool
    decreases s.len(),
{
    if s.len() == 0 {
        true
    } else {
        let k = utf8_head_len(s[0]);
        &&& 1 <= k
        &&& k <= s.len()
        &&& (k >= 2 ==> utf8_second_lo(s[0]) <= s[1] && s[1] <= utf8_second_hi(s[0]))
        &&& (k >= 3 ==> is_utf8_cont(s[2]))
        &&& (k >= 4 ==> is_utf8_cont(s[3]))
        &&& is_valid_utf8(s.skip(k))
    }
}

/// A sequence of plain ASCII bytes is well-formed UTF-8.
pub proof fn lemma_ascii_valid_utf8(s: Seq<u8>)
    requires
        forall|i: int| 0 <= i < s.len() ==> s[i] <= 0x7F,
    ensures
        is_valid_utf8(s),
    decreases s.len(),
{
    if s.len() > 0 {
        assert forall|i: int| 0 <= i < s.skip(1).len() implies s.skip(1)[i] <= 0x7F by {
            assert(s.skip(1)[i] == s[i + 1]);
        }
        lemma_ascii_valid_utf8(s.skip(1));
        assert(utf8_head_len(s[0]) == 1);
    }
}

fn utf8_head_len_exec(b0: u8) -> (k: usize)
    ensures
        k == utf8_head_len(b0),
{
    if b0 <= 0x7F {
        1
    } else if 0xC2 <= b0 && b0 <= 0xDF {
        2
    } else if 0xE0 <= b0 && b0 <= 0xEF {
        3
    } else if 0xF0 <= b0 && b0 <= 0xF4 {
        4
    } else {
        0
    }
}

fn utf8_second_lo_exec(b0: u8) -> (lo: u8)
    ensures
        lo == utf8_second_lo(b0),
{
    if b0 == 0xE0 {
        0xA0
    } else if b0 == 0xF0 {
        0x90
    } else {
        0x80
    }
}

fn utf8_second_hi_exec(b0: u8) -> (hi: u8)
    ensures
        hi == utf8_second_hi(b0),
{
    if b0 == 0xED {
        0x9F
    } else if b0 == 0xF4 {
        0x8F
    } else {
        0xBF
    }
}

/// Decides whether `v` holds well-formed UTF-8.
pub fn utf8_valid(v: &Vec<u8>) -> (r: bool)
    ensures
        r == is_valid_utf8(v@),
{
    let n = v.len();
    let mut i: usize = 0;
    proof {
        assert(v@.skip(0) =~= v@);
    }
    while i < n
        invariant
            i <= n,
            n == v@.len(),
            is_valid_utf8(v@) == is_valid_utf8(v@.skip(i as int)),
        decreases n - i,
    {
        let ghost s = v@.skip(i as int);
        proof {
            assert(s.len() == n - i);
            assert(s[0] == v@[i as int]);
        }
        let b0 = v[i];
        let k = utf8_head_len_exec(b0);
        if k == 0 || n - i < k {
            proof {
                assert(!is_valid_utf8(s));
            }
            return false;
        }
        if k >= 2 {
            proof {
                assert(s[1] == v@[i as int + 1]);
            }
            let b1 = v[i + 1];
            let lo = utf8_second_lo_exec(b0);
            let hi = utf8_second_hi_exec(b0);
            if b1 < lo || b1 > hi {
                proof {
                    assert(!is_valid_utf8(s));
                }
                return false;
            }
        }
        if k >= 3 {
            proof {
                assert(s[2] == v@[i as int + 2]);
            }
            let b2 = v[i + 2];
            if !(b2 >= 0x80 && b2 <= 0xBF) {
                proof {
                    assert(!is_valid_utf8(s));
                }
                return false;
            }
        }
        if k >= 4 {
            proof {
                assert(s[3] == v@[i as int + 3]);
            }
            let b3 = v[i + 3];
            if !(b3 >= 0x80 && b3 <= 0xBF) {
                proof {
                    assert(!is_valid_utf8(s));
                }
                return false;
            }
        }
        proof {
            assert(s.skip(k as int) =~= v@.skip(i as int + k as int));
            assert(is_valid_utf8(s) == is_valid_utf8(v@.skip(i as int + k as int)));
        }
        i = i + k;
    }
    proof {
        assert(v@.skip(n as int) =~= Seq::<u8>::empty());
    }
    true
}

} // verus!
