use vstd::prelude::*;

verus! {

/// A UTF-8 continuation byte: high bits `10`.
pub open spec fn is_cont(b: u8) -> bool {
    0x80 <= b && b <= 0xbf
}

/// `s` is a well-formed UTF-8 byte sequence, by the shortest-form encoding
/// rules: ASCII stands alone, and each multi-byte head fixes the count and
/// admitted range of its continuation bytes (surrogates and overlong forms
/// excluded).
pub open spec fn valid_utf8(s: Seq<u8>) -> bool
    decreases s.len(),
{
    if s.len() == 0 {
        true
    } else {
        let b0 = s[0];
        if b0 <= 0x7f {
            valid_utf8(s.skip(1))
        } else if 0xc2 <= b0 && b0 <= 0xdf {
            if s.len() >= 2 {
                is_cont(s[1]) && valid_utf8(s.skip(2))
            } else {
                false
            }
        } else if 0xe0 <= b0 && b0 <= 0xef {
            if s.len() >= 3 {
                let lo1: u8 = if b0 == 0xe0 {
                    0xa0
                } else {
                    0x80
                };
                let hi1: u8 = if b0 == 0xed {
                    0x9f
                } else {
                    0xbf
                };
                lo1 <= s[1] && s[1] <= hi1 && is_cont(s[2]) && valid_utf8(s.skip(3))
            } else {
                false
            }
        } else if 0xf0 <= b0 && b0 <= 0xf4 {
            if s.len() >= 4 {
                let lo1: u8 = if b0 == 0xf0 {
                    0x90
                } else {
                    0x80
                };
                let hi1: u8 = if b0 == 0xf4 {
                    0x8f
                } else {
                    0xbf
                };
                lo1 <= s[1] && s[1] <= hi1 && is_cont(s[2]) && is_cont(s[3]) && valid_utf8(
                    s.skip(4),
                )
            } else {
                false
            }
        } else {
            false
        }
    }
}

/// Decide `valid_utf8` for the bytes of a slice.
pub fn is_valid_utf8(s: &[u8]) -> (r: bool)
    ensures
        r == valid_utf8(s@),
{
    let len = s.len();
    let mut i: usize = 0;
    proof {
        assert(s@.skip(0) =~= s@);
    }
    while i < len
        invariant
            len == s@.len(),
            i <= len,
            valid_utf8(s@) == valid_utf8(s@.skip(i as int)),
        decreases len - i,
    {
        let ghost tail = s@.skip(i as int);
        let b0 = s[i];
        assert(tail[0] == s@[i as int]);
        if b0 <= 0x7f {
            proof {
                assert(tail.skip(1) =~= s@.skip(i + 1));
            }
            i = i + 1;
        } else if 0xc2 <= b0 && b0 <= 0xdf {
            if len - i < 2 {
                return false;
            }
            let b1 = s[i + 1];
            assert(tail[1] == s@[i + 1]);
            if !(0x80 <= b1 && b1 <= 0xbf) {
                return false;
            }
            proof {
                assert(tail.skip(2) =~= s@.skip(i + 2));
            }
            i = i + 2;
        } else if 0xe0 <= b0 && b0 <= 0xef {
            if len - i < 3 {
                return false;
            }
            let b1 = s[i + 1];
            let b2 = s[i + 2];
            assert(tail[1] == s@[i + 1] && tail[2] == s@[i + 2]);
            let lo1: u8 = if b0 == 0xe0 {
                0xa0
            } else {
                0x80
            };
            let hi1: u8 = if b0 == 0xed {
                0x9f
            } else {
                0xbf
            };
            if !(lo1 <= b1 && b1 <= hi1 && 0x80 <= b2 && b2 <= 0xbf) {
                return false;
            }
            proof {
                assert(tail.skip(3) =~= s@.skip(i + 3));
            }
            i = i + 3;
        } else if 0xf0 <= b0 && b0 <= 0xf4 {
            if len - i < 4 {
                return false;
            }
            let b1 = s[i + 1];
            let b2 = s[i + 2];
            let b3 = s[i + 3];
            assert(tail[1] == s@[i + 1] && tail[2] == s@[i + 2] && tail[3] == s@[i + 3]);
            let lo1: u8 = if b0 == 0xf0 {
                0x90
            } else {
                0x80
            };
            let hi1: u8 = if b0 == 0xf4 {
                0x8f
            } else {
                0xbf
            };
            if !(lo1 <= b1 && b1 <= hi1 && 0x80 <= b2 && b2 <= 0xbf && 0x80 <= b3 && b3 <= 0xbf) {
                return false;
            }
            proof {
                assert(tail.skip(4) =~= s@.skip(i + 4));
            }
            i = i + 4;
        } else {
            return false;
        }
    }
    proof {
        assert(s@.skip(len as int) =~= Seq::<u8>::empty());
    }
    true
}

} // verus!
