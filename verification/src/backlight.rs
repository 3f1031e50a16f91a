//! Backlight brightness model: the current and maximum raw brightness of
//! one device, the clamping arithmetic for relative changes, and the
//! parser for the numeric text the driver files hold. Reading and writing
//! the files themselves is plain I/O and stays outside the library.

use vstd::prelude::*;
use vstd::string::StringSliceAdditionalSpecFns;

verus! {

/// The digit value of a decimal byte string (meaningful when every byte
/// is an ASCII digit).
pub open spec fn spec_digits_val(s: Seq<u8>) -> int
    decreases s.len(),
{
    if s.len() == 0 {
        0
    } else {
        spec_digits_val(s.drop_last()) * 10 + (s.last() - 48)
    }
}

/// Whether a byte string is one or more ASCII digits.
pub open spec fn spec_is_digits(s: Seq<u8>) -> bool {
    s.len() > 0 && forall|i: int| 0 <= i < s.len() ==> 48 <= #[trigger] s[i] <= 57
}

/// The digit part of a decimal number: everything after an optional
/// leading plus sign.
pub open spec fn spec_digit_part(s: Seq<u8>) -> Seq<u8> {
    if s.len() > 0 && s[0] == 43 {
        s.skip(1)
    } else {
        s
    }
}

/// The value a byte string parses to as an unsigned 64-bit decimal
/// number: defined exactly when its digit part is all digits and the
/// value fits.
pub open spec fn spec_parse_u64(s: Seq<u8>) -> Option<int> {
    let d = spec_digit_part(s);
    if spec_is_digits(d) && spec_digits_val(d) <= u64::MAX {
        Some(spec_digits_val(d))
    } else {
        None
    }
}

/// The bytes that are actually parsed from a brightness file: the raw
/// contents with the final byte (the trailing newline) dropped.
pub open spec fn spec_trim_last(s: Seq<u8>) -> Seq<u8> {
    if s.len() > 0 {
        s.drop_last()
    } else {
        s
    }
}

proof fn lemma_digits_val_nonneg(s: Seq<u8>)
    requires
        forall|i: int| 0 <= i < s.len() ==> 48 <= #[trigger] s[i] <= 57,
    ensures
        spec_digits_val(s) >= 0,
    decreases s.len(),
{
    if s.len() > 0 {
        lemma_digits_val_nonneg(s.drop_last());
    }
}

proof fn lemma_digits_val_grows(s: Seq<u8>, p: int)
    requires
        0 <= p <= s.len(),
        forall|i: int| 0 <= i < s.len() ==> 48 <= #[trigger] s[i] <= 57,
    ensures
        spec_digits_val(s) >= spec_digits_val(s.take(p)),
    decreases s.len(),
{
    if p == s.len() {
        assert(s.take(p) =~= s);
    } else {
        let t = s.drop_last();
        lemma_digits_val_nonneg(t);
        lemma_digits_val_grows(t, p);
        assert(t.take(p) =~= s.take(p));
    }
}

/// Parses the contents of a brightness file: the final byte is dropped,
/// then the rest must be an optionally plus-signed decimal number whose
/// value fits in 64 bits.
pub fn parse_brightness(s: &str) -> (r: Option<u64>)
    ensures
        match r {
            Some(v) => spec_parse_u64(spec_trim_last(s.spec_bytes())) == Some(v as int),
            None => spec_parse_u64(spec_trim_last(s.spec_bytes())) is None,
        },
{
    let b: &[u8] = s.as_bytes();
    let end: usize = if b.len() > 0 {
        b.len() - 1
    } else {
        0
    };
    let ghost trimmed = spec_trim_last(s.spec_bytes());
    proof {
        assert(trimmed =~= b@.take(end as int));
    }
    let start: usize = if end > 0 && b[0] == 43 {
        1
    } else {
        0
    };
    let ghost d = spec_digit_part(trimmed);
    proof {
        assert(d =~= b@.take(end as int).subrange(start as int, end as int));
    }
    if start >= end {
        // no digits at all
        return None;
    }
    let mut acc: u64 = 0;
    let mut i: usize = start;
    while i < end
        invariant
            start <= i <= end,
            end <= b@.len(),
            b@ == s.spec_bytes(),
            d == spec_digit_part(spec_trim_last(s.spec_bytes())),
            d == b@.take(end as int).subrange(start as int, end as int),
            forall|j: int| 0 <= j < i - start ==> 48 <= #[trigger] d[j] <= 57,
            acc == spec_digits_val(d.take(i - start)),
        decreases end - i,
    {
        let c = b[i];
        if c < 48 || c > 57 {
            proof {
                assert(d[i - start] == c);
            }
            return None;
        }
        let digit: u64 = (c - 48) as u64;
        let wide: u128 = acc as u128 * 10 + digit as u128;
        proof {
            assert(d.take(i + 1 - start).drop_last() =~= d.take(i - start));
            assert(d[i - start] == c);
        }
        if wide > u64::MAX as u128 {
            proof {
                if spec_is_digits(d) {
                    lemma_digits_val_grows(d, i + 1 - start);
                }
            }
            return None;
        }
        acc = wide as u64;
        i += 1;
    }
    proof {
        assert(d.take(end - start) =~= d);
    }
    Some(acc)
}

/// The raw brightness after a relative change: the sum clamped first up
/// to at least one unit, then down to the device maximum.
pub open spec fn spec_add_brightness(cur: u64, max: u64, inc: int) -> int {
    if cur + inc < 1 {
        1
    } else if cur + inc > max {
        max as int
    } else {
        cur + inc
    }
}

/// One backlight device's brightness state, in the driver's raw units.
pub struct Backlight {
    cur_brightness: u64,
    max_brightness: u64,
    dirty: bool,
}

impl Backlight {
    /// The current raw brightness.
    pub closed spec fn spec_cur(&self) -> u64 {
        self.cur_brightness
    }

    /// The device's raw maximum brightness.
    pub closed spec fn spec_max(&self) -> u64 {
        self.max_brightness
    }

    /// Whether the state has been (re)loaded since it was last written.
    pub closed spec fn spec_dirty(&self) -> bool {
        self.dirty
    }

    /// A device state freshly loaded from the two driver values.
    pub fn new(cur: u64, max: u64) -> (b: Backlight)
        ensures
            b.spec_cur() == cur,
            b.spec_max() == max,
            b.spec_dirty(),
    {
        Backlight { cur_brightness: cur, max_brightness: max, dirty: true }
    }

    /// Replaces the state with freshly read driver values.
    pub fn update(&mut self, cur: u64, max: u64)
        ensures
            final(self).spec_cur() == cur,
            final(self).spec_max() == max,
            final(self).spec_dirty(),
    {
        self.cur_brightness = cur;
        self.max_brightness = max;
        self.dirty = true;
    }

    /// The value to persist to the driver's brightness file; the caller
    /// writes it back and then refreshes the state with `update`.
    pub fn sync(&self) -> (r: u64)
        ensures
            r == self.spec_cur(),
    {
        self.cur_brightness
    }

    /// The current raw brightness.
    pub fn cur_brightness(&self) -> (r: u64)
        ensures
            r == self.spec_cur(),
    {
        self.cur_brightness
    }

    /// The device's raw maximum brightness.
    pub fn max_brightness(&self) -> (r: u64)
        ensures
            r == self.spec_max(),
    {
        self.max_brightness
    }

    /// Applies a relative change in raw units, clamping so the result
    /// never drops below one unit nor exceeds the device maximum.
    pub fn add(&mut self, inc: i64)
        ensures
            final(self).spec_cur() == spec_add_brightness(
                old(self).spec_cur(),
                old(self).spec_max(),
                inc as int,
            ),
            final(self).spec_max() == old(self).spec_max(),
            final(self).spec_dirty() == old(self).spec_dirty(),
    {
        let sum: i128 = self.cur_brightness as i128 + inc as i128;
        self.cur_brightness = if sum < 1 {
            1
        } else if sum > self.max_brightness as i128 {
            self.max_brightness
        } else {
            sum as u64
        };
    }
}

} // verus!
