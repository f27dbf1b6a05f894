//! What the encodings give back: each field stands where `picotool` reads it.

use crate::names::{is_c_text_of, join_names, NAME_SEPARATOR};
use crate::types::{
    fold_config_accepts, lemma_or_below, pin_slot, pins_below_32, pins_encoding,
    pins_strictly_ascending, range_encoding, slots, BI_PINS_ENCODING_MULTI,
    BI_PINS_ENCODING_RANGE,
};
use crate::consts::{GpioFunction, TAG_RASPBERRY_PI};
use crate::tag_of;
use vstd::prelude::*;

verus! {

/// The bits of `e` from bit `shift` up, kept where `mask` has them.
pub open spec fn field(e: u32, shift: u32, mask: u32) -> u32 {
    (e >> shift) & mask
}

proof fn fields_0(e: u32, c: u32)
    by (bit_vector)
    requires
        c < 16,
        e == (2u32 | (c << 3u32)) | (0u32 << 5u32),
    ensures
        e & 7u32 == 2u32,
        (e >> 3u32) & 15u32 == c,
        e >> 7u32 == 0u32,
{
}

proof fn fields_1(e: u32, c: u32, p0: u32)
    by (bit_vector)
    requires
        c < 16,
        p0 < 32,
        e == ((2u32 | (c << 3u32)) | (0u32 | (p0 << 7u32))) | ((p0 << 7u32) << 5u32),
    ensures
        e & 7u32 == 2u32,
        (e >> 3u32) & 15u32 == c,
        (e >> 7u32) & 31u32 == p0,
        (e >> 12u32) & 31u32 == p0,
        e >> 17u32 == 0u32,
{
}

proof fn fields_2(e: u32, c: u32, p0: u32, p1: u32)
    by (bit_vector)
    requires
        c < 16,
        p0 < 32,
        p1 < 32,
        e == ((2u32 | (c << 3u32)) | ((0u32 | (p0 << 7u32)) | (p1 << 12u32))) | ((p1 << 12u32)
            << 5u32),
    ensures
        e & 7u32 == 2u32,
        (e >> 3u32) & 15u32 == c,
        (e >> 7u32) & 31u32 == p0,
        (e >> 12u32) & 31u32 == p1,
        (e >> 17u32) & 31u32 == p1,
        e >> 22u32 == 0u32,
{
}

proof fn fields_3(e: u32, c: u32, p0: u32, p1: u32, p2: u32)
    by (bit_vector)
    requires
        c < 16,
        p0 < 32,
        p1 < 32,
        p2 < 32,
        e == ((2u32 | (c << 3u32)) | (((0u32 | (p0 << 7u32)) | (p1 << 12u32)) | (p2 << 17u32))) | (
        (p2 << 17u32) << 5u32),
    ensures
        e & 7u32 == 2u32,
        (e >> 3u32) & 15u32 == c,
        (e >> 7u32) & 31u32 == p0,
        (e >> 12u32) & 31u32 == p1,
        (e >> 17u32) & 31u32 == p2,
        (e >> 22u32) & 31u32 == p2,
        e >> 27u32 == 0u32,
{
}

proof fn fields_4(e: u32, c: u32, p0: u32, p1: u32, p2: u32, p3: u32)
    by (bit_vector)
    requires
        c < 16,
        p0 < 32,
        p1 < 32,
        p2 < 32,
        p3 < 32,
        e == ((2u32 | (c << 3u32)) | ((((0u32 | (p0 << 7u32)) | (p1 << 12u32)) | (p2 << 17u32)) | (
        p3 << 22u32))) | ((p3 << 22u32) << 5u32),
    ensures
        e & 7u32 == 2u32,
        (e >> 3u32) & 15u32 == c,
        (e >> 7u32) & 31u32 == p0,
        (e >> 12u32) & 31u32 == p1,
        (e >> 17u32) & 31u32 == p2,
        (e >> 22u32) & 31u32 == p3,
        (e >> 27u32) & 31u32 == p3,
{
}

proof fn fields_5(e: u32, c: u32, p0: u32, p1: u32, p2: u32, p3: u32, p4: u32)
    by (bit_vector)
    requires
        c < 16,
        p0 < 32,
        p1 < 32,
        p2 < 32,
        p3 < 32,
        p4 < 32,
        e == ((2u32 | (c << 3u32)) | (((((0u32 | (p0 << 7u32)) | (p1 << 12u32)) | (p2 << 17u32)) | (
        p3 << 22u32)) | (p4 << 27u32))) | ((p4 << 27u32) << 5u32),
    ensures
        e & 7u32 == 2u32,
        (e >> 3u32) & 15u32 == c,
        (e >> 7u32) & 31u32 == p0,
        (e >> 12u32) & 31u32 == p1,
        (e >> 17u32) & 31u32 == p2,
        (e >> 22u32) & 31u32 == p3,
        (e >> 27u32) & 31u32 == p4,
{
}

/// Each field of a multi-pin encoding reads back what went in: the
/// encoding kind in bits 0..3, the function in bits 3..7, pin `k` in the
/// 5 bits from bit `7 + 5 * k`, the last pin once more in the slot after
/// the last (where there is one), and nothing above that.
///
/// This holds of functions numbered below 16: the number of `Null` (0x1f)
/// reaches into the slot of the first pin.
pub proof fn law_pins_encoding_fields(pins: Seq<u32>, code: u32)
    requires
        pins.len() <= 5,
        pins_below_32(pins),
        code < 16,
    ensures
        ({
            let e = pins_encoding(pins, code);
            &&& e & 7u32 == BI_PINS_ENCODING_MULTI
            &&& field(e, 3, 15) == code
            &&& forall|k: int|
                0 <= k < pins.len() ==> #[trigger] field(e, (7 + 5 * k) as u32, 31) == pins[k]
            &&& 0 < pins.len() < 5 ==> field(e, (7 + 5 * pins.len()) as u32, 31) == pins.last()
            &&& pins.len() == 0 ==> e >> 7u32 == 0u32
            &&& 0 < pins.len() < 4 ==> e >> ((12 + 5 * pins.len()) as u32) == 0u32
        }),
{
    let e = pins_encoding(pins, code);
    let n = pins.len();
    reveal_with_fuel(slots, 6);
    if n == 0 {
        fields_0(e, code);
    } else if n == 1 {
        assert(pins.drop_last() =~= Seq::<u32>::empty());
        fields_1(e, code, pins[0]);
    } else if n == 2 {
        assert(pins.drop_last().drop_last() =~= Seq::<u32>::empty());
        fields_2(e, code, pins[0], pins[1]);
    } else if n == 3 {
        assert(pins.drop_last().drop_last().drop_last() =~= Seq::<u32>::empty());
        fields_3(e, code, pins[0], pins[1], pins[2]);
    } else if n == 4 {
        assert(pins.drop_last().drop_last().drop_last().drop_last() =~= Seq::<u32>::empty());
        fields_4(e, code, pins[0], pins[1], pins[2], pins[3]);
    } else {
        assert(pins.drop_last().drop_last().drop_last().drop_last().drop_last()
            =~= Seq::<u32>::empty());
        fields_5(e, code, pins[0], pins[1], pins[2], pins[3], pins[4]);
    }
    assert forall|k: int| 0 <= k < pins.len() implies #[trigger] field(
        e,
        (7 + 5 * k) as u32,
        31,
    ) == pins[k] by {
        if k == 0 {
        } else if k == 1 {
        } else if k == 2 {
        } else if k == 3 {
        } else {
        }
    }
}

/// Each field of a pin range encoding reads back what went in: the
/// encoding kind in bits 0..3, the function in bits 3..7, the low pin in
/// bits 7..12, the high pin in bits 12..17, and nothing above.
///
/// This holds of pins below 32 and functions numbered below 16.
pub proof fn law_range_encoding_fields(pin_low: u32, pin_high: u32, code: u32)
    requires
        pin_low < 32,
        pin_high < 32,
        code < 16,
    ensures
        ({
            let e = range_encoding(pin_low, pin_high, code);
            &&& e & 7u32 == BI_PINS_ENCODING_RANGE
            &&& field(e, 3, 15) == code
            &&& field(e, 7, 31) == pin_low
            &&& field(e, 12, 31) == pin_high
            &&& e >> 17u32 == 0u32
        }),
{
    let e = range_encoding(pin_low, pin_high, code);
    assert({
        &&& e & 7u32 == 1u32
        &&& (e >> 3u32) & 15u32 == code
        &&& (e >> 7u32) & 31u32 == pin_low
        &&& (e >> 12u32) & 31u32 == pin_high
        &&& e >> 17u32 == 0u32
    }) by (bit_vector)
        requires
            pin_low < 32,
            pin_high < 32,
            code < 16,
            e == ((1u32 | (code << 3u32)) | (pin_low << 7u32)) | (pin_high << 12u32),
    ;
}

proof fn lemma_join_without_nul(names: Seq<Seq<u8>>)
    requires
        forall|k: int| 0 <= k < names.len() ==> !(#[trigger] names[k]).contains(0u8),
    ensures
        !join_names(names).contains(0u8),
    decreases names.len(),
{
    if names.len() > 1 {
        let init = names.drop_last();
        assert forall|k: int| 0 <= k < init.len() implies !(#[trigger] init[k]).contains(0u8) by {
            assert(init[k] == names[k]);
        }
        lemma_join_without_nul(init);
        let j = join_names(names);
        let a = join_names(init);
        let l = names.last();
        assert(!l.contains(0u8)) by {
            assert(l == names[names.len() - 1]);
        }
        if j.contains(0u8) {
            let w = choose|w: int| 0 <= w < j.len() && j[w] == 0u8;
            if w < a.len() {
                assert(a[w] == 0u8);
            } else if w == a.len() {
                assert(j[w] == NAME_SEPARATOR);
            } else {
                assert(l[w - a.len() - 1] == 0u8);
            }
        }
    } else if names.len() == 1 {
        assert(!names[0].contains(0u8));
    }
}

/// Where no name holds a NUL, the joined label is exactly the names with a
/// `|` between each two: nothing is cut off.
pub proof fn law_names_without_nul_join_exactly(names: Seq<Seq<u8>>, r: Seq<u8>)
    requires
        forall|k: int| 0 <= k < names.len() ==> !(#[trigger] names[k]).contains(0u8),
        is_c_text_of(r, join_names(names)),
    ensures
        r == join_names(names),
{
    let j = join_names(names);
    lemma_join_without_nul(names);
    if r.len() < j.len() {
        assert(j[r.len() as int] == 0u8);
    }
    assert(r =~= j);
}


/// The checks that folding a pin list makes, one pin at a time: the pin is
/// below 32, and the mask built so far is below the pin's bit.
pub open spec fn fold_config_checks_pass(mask: u32, pins: Seq<u32>) -> bool
    decreases pins.len(),
{
    if pins.len() == 0 {
        true
    } else {
        &&& pins[0] < 32
        &&& mask < (1u32 << pins[0])
        &&& fold_config_checks_pass(mask | (1u32 << pins[0]), pins.drop_first())
    }
}

proof fn lemma_or_below_orders(a: u32, p: u32, q: u32)
    requires
        p < 32,
        q < 32,
        (a | (1u32 << p)) < (1u32 << q),
    ensures
        p < q,
{
    assert(p < q) by (bit_vector)
        requires
            p < 32,
            q < 32,
            (a | (1u32 << p)) < (1u32 << q),
    ;
}

/// The inputs that `PinsWithName::fold_config` accepts (pins below 32,
/// strictly ascending, the starting mask below the first pin) are exactly
/// those on which each of its checks, made pin by pin, passes: it refuses
/// no list that the checks let through, and lets through no other.
pub proof fn law_fold_config_accepts_exactly_what_its_checks_pass(mask: u32, pins: Seq<u32>)
    ensures
        fold_config_accepts(mask, pins) <==> fold_config_checks_pass(mask, pins),
    decreases pins.len(),
{
    if pins.len() > 0 {
        let p0 = pins[0];
        let rest = pins.drop_first();
        let m1 = mask | (1u32 << p0);
        law_fold_config_accepts_exactly_what_its_checks_pass(m1, rest);
        if fold_config_accepts(mask, pins) {
            assert(pins_below_32(rest)) by {
                assert forall|k: int| 0 <= k < rest.len() implies rest[k] < 32 by {
                    assert(rest[k] == pins[k + 1]);
                }
            }
            assert(pins_strictly_ascending(rest)) by {
                assert forall|k: int, l: int| 0 <= k < l < rest.len() implies rest[k] < rest[l] by {
                    assert(rest[k] == pins[k + 1] && rest[l] == pins[l + 1]);
                }
            }
            if rest.len() > 0 {
                assert(rest[0] == pins[1]);
                lemma_or_below(mask, p0, pins[1]);
            }
            assert(fold_config_accepts(m1, rest));
        }
        if fold_config_checks_pass(mask, pins) {
            assert(fold_config_accepts(m1, rest));
            if rest.len() > 0 {
                assert(rest[0] == pins[1]);
                lemma_or_below_orders(mask, p0, pins[1]);
            }
            assert forall|k: int| 0 <= k < pins.len() implies pins[k] < 32 by {
                if k > 0 {
                    assert(pins[k] == rest[k - 1]);
                }
            }
            assert forall|k: int, l: int| 0 <= k < l < pins.len() implies pins[k] < pins[l] by {
                assert(pins[l] == rest[l - 1]);
                if k > 0 {
                    assert(pins[k] == rest[k - 1]);
                } else if l > 1 {
                    assert(rest[0] == pins[1]);
                    assert(rest[0] < rest[l - 1]);
                }
            }
        }
    }
}


/// All Raspberry Pi IDs carry the tag made of the characters `R` and `P`.
pub proof fn law_raspberry_pi_tag_is_rp()
    ensures
        TAG_RASPBERRY_PI == tag_of(0x52u8, 0x50u8),
{
}


/// A label of one or more names is as long as all the names together, plus
/// one `|` between each two of them.
pub proof fn law_join_names_length(names: Seq<Seq<u8>>)
    requires
        names.len() >= 1,
    ensures
        join_names(names).len() == names.flatten().len() + names.len() - 1,
    decreases names.len(),
{
    names.lemma_flatten_and_flatten_alt_are_equivalent();
    if names.len() == 1 {
        names.drop_last().lemma_flatten_and_flatten_alt_are_equivalent();
        assert(names.drop_last() =~= Seq::<Seq<u8>>::empty());
        assert(names.flatten() =~= names[0]);
    } else {
        law_join_names_length(names.drop_last());
        names.drop_last().lemma_flatten_and_flatten_alt_are_equivalent();
        assert(names.flatten() =~= names.drop_last().flatten() + names.last());
    }
}

/// Joining names one at a time: no names make an empty label, the first
/// name alone is the label, and each further name adds a `|` and then the
/// name itself to the label of the names before it.
pub proof fn law_join_names_one_more(names: Seq<Seq<u8>>, n: int)
    requires
        0 <= n < names.len(),
    ensures
        join_names(names.take(0)) == Seq::<u8>::empty(),
        join_names(names.take(1)) == names[0],
        n >= 1 ==> join_names(names.take(n + 1)) == join_names(names.take(n)) + seq![
            NAME_SEPARATOR,
        ] + names[n],
{
    assert(names.take(0) =~= Seq::<Seq<u8>>::empty());
    assert(names.take(1)[0] == names[0]);
    if n >= 1 {
        assert(names.take(n + 1).drop_last() =~= names.take(n));
        assert(names.take(n + 1).last() == names[n]);
    }
}

/// A pin range encoding keeps every bit of each of its parts: the range
/// kind, the function number moved up 3 bits (for every number, `Null`'s
/// included), the low pin moved up 7 bits and the high pin moved up 12
/// bits; and it has no bit that none of them has.
pub proof fn law_range_encoding_keeps_each_part(pin_low: u32, pin_high: u32, code: u32)
    ensures
        ({
            let e = range_encoding(pin_low, pin_high, code);
            &&& e & BI_PINS_ENCODING_RANGE == BI_PINS_ENCODING_RANGE
            &&& e & (code << 3u32) == code << 3u32
            &&& e & (pin_low << 7u32) == pin_low << 7u32
            &&& e & (pin_high << 12u32) == pin_high << 12u32
            &&& e & !(1u32 | (code << 3u32) | (pin_low << 7u32) | (pin_high << 12u32)) == 0u32
        }),
{
    let e = range_encoding(pin_low, pin_high, code);
    assert({
        &&& e & 1u32 == 1u32
        &&& e & (code << 3u32) == code << 3u32
        &&& e & (pin_low << 7u32) == pin_low << 7u32
        &&& e & (pin_high << 12u32) == pin_high << 12u32
        &&& e & !(1u32 | (code << 3u32) | (pin_low << 7u32) | (pin_high << 12u32)) == 0u32
    }) by (bit_vector)
        requires
            e == ((1u32 | (code << 3u32)) | (pin_low << 7u32)) | (pin_high << 12u32),
    ;
}

/// A multi-pin encoding keeps every bit of its kind and of the function
/// number moved up 3 bits, whatever the pins and whatever the function
/// (`Null`'s number included).
pub proof fn law_pins_encoding_keeps_kind_and_function(pins: Seq<u32>, code: u32)
    ensures
        pins_encoding(pins, code) & BI_PINS_ENCODING_MULTI == BI_PINS_ENCODING_MULTI,
        pins_encoding(pins, code) & (code << 3u32) == code << 3u32,
{
    let e = pins_encoding(pins, code);
    let a = 2u32 | (code << 3u32);
    let x: u32 = if pins.len() == 0 { 0u32 << 5u32 } else { slots(pins, 0) };
    let y: u32 = if pins.len() == 0 { 0u32 } else { pin_slot(pins.last(), pins.len() - 1) << 5u32 };
    assert(e == (a | x) | y) by {
        if pins.len() == 0 {
            assert((a | (0u32 << 5u32)) | 0u32 == a | (0u32 << 5u32)) by (bit_vector);
        }
    }
    assert({
        &&& ((a | x) | y) & 2u32 == 2u32
        &&& ((a | x) | y) & (code << 3u32) == code << 3u32
    }) by (bit_vector)
        requires
            a == 2u32 | (code << 3u32),
    ;
}

/// Each GPIO function has its own number: `Null` is 0x1f, every other
/// function is numbered below 16, and no two functions share a number.
pub proof fn law_gpio_function_codes(f: GpioFunction, g: GpioFunction)
    ensures
        GpioFunction::Null.spec_code() == 0x1f,
        f.spec_code() < 16 <==> f != GpioFunction::Null,
        f.spec_code() == g.spec_code() ==> f == g,
{
}

} // verus!
