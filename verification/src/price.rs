use vstd::prelude::*;

verus! {

/// The multipliers `(excitement, intensity, nausea)` of a ride kind.
/// Kinds that are no rides (stalls, buildings, unused codes) have `(0, 0, 0)`.
pub open spec fn rating_of(ride: u8) -> (int, int, int) {
    match ride {
        0x00 | 0x01 | 0x02 | 0x03 | 0x04 | 0x07 | 0x0A | 0x0D | 0x0F | 0x10 | 0x11 | 0x13 | 0x1A
        | 0x1B | 0x37 | 0x39 | 0x3E | 0x42 | 0x43 | 0x49 | 0x4A | 0x4D | 0x56 | 0x57 | 0x5A => (50, 30, 10),
        0x05 | 0x06 | 0x3F => (70, 6, -10),
        0x08 | 0x4E => (70, 6, 0),
        0x09 | 0x36 | 0x4C => (50, 30, 30),
        0x0B | 0x32 | 0x3D => (70, 10, 10),
        0x0C | 0x45 => (50, 50, 10),
        0x0E | 0x2B => (80, 10, 0),
        0x12 => (70, 10, 0),
        0x14 => (50, 0, 0),
        0x15 | 0x21 => (50, 10, 0),
        0x16 => (120, 0, 0),
        0x17 | 0x3C | 0x4F => (80, 34, 6),
        0x18 => (72, 26, 6),
        0x19 => (40, 20, 0),
        0x25 | 0x58 => (60, 20, 10),
        0x26 | 0x28 => (24, 20, 10),
        0x27 | 0x2F | 0x31 => (20, 10, 0),
        0x29 => (12, 4, 4),
        0x2A | 0x4B => (44, 66, 10),
        0x2C => (52, 38, 10),
        0x2E => (40, 20, 10),
        0x33 => (52, 36, 10),
        0x34 => (52, 33, 8),
        0x35 | 0x41 => (48, 28, 7),
        0x3B => (30, 15, 25),
        0x44 => (51, 32, 10),
        0x46 => (50, 25, 0),
        0x47 => (15, 8, 0),
        0x48 => (50, 10, 10),
        0x51 => (50, 50, 0),
        _ => (0, 0, 0),
    }
}

/// Looks up the rating multipliers of a ride kind.
pub fn ride_rating(ride: u8) -> (m: (i32, i32, i32))
    ensures
        m.0 == rating_of(ride).0,
        m.1 == rating_of(ride).1,
        m.2 == rating_of(ride).2,
{
    match ride {
        0..=4 => (50, 30, 10),
        5 | 6 => (70, 6, -10),
        7 => (50, 30, 10),
        8 => (70, 6, 0),
        9 => (50, 30, 30),
        0xA => (50, 30, 10),
        0xB => (70, 10, 10),
        0xC => (50, 50, 10),
        0xD => (50, 30, 10),
        0xE => (80, 10, 0),
        0xF..=0x11 => (50, 30, 10),
        0x12 => (70, 10, 0),
        0x13 => (50, 30, 10),
        0x14 => (50, 0, 0),
        0x15 => (50, 10, 0),
        0x16 => (120, 0, 0),
        0x17 => (80, 34, 6),
        0x18 => (72, 26, 6),
        0x19 => (40, 20, 0),
        0x1A | 0x1B => (50, 30, 10),
        0x21 => (50, 10, 0),
        0x25 => (60, 20, 10),
        0x26 => (24, 20, 10),
        0x27 => (20, 10, 0),
        0x28 => (24, 20, 10),
        0x29 => (12, 4, 4),
        0x2A => (44, 66, 10),
        0x2B => (80, 10, 0),
        0x2C => (52, 38, 10),
        0x2E => (40, 20, 10),
        0x2F => (20, 10, 0),
        0x31 => (20, 10, 0),
        0x32 => (70, 10, 10),
        0x33 => (52, 36, 10),
        0x34 => (52, 33, 8),
        0x35 => (48, 28, 7),
        0x36 => (50, 30, 30),
        0x37 | 0x39 => (50, 30, 10),
        0x3B => (30, 15, 25),
        0x3C => (80, 34, 6),
        0x3D => (70, 10, 10),
        0x3E => (50, 30, 10),
        0x3F => (70, 6, -10),
        0x41 => (48, 28, 7),
        0x42 | 0x43 => (50, 30, 10),
        0x44 => (51, 32, 10),
        0x45 => (50, 50, 10),
        0x46 => (50, 25, 0),
        0x47 => (15, 8, 0),
        0x48 => (50, 10, 10),
        0x49 | 0x4A => (50, 30, 10),
        0x4B => (44, 66, 10),
        0x4C => (50, 30, 30),
        0x4D => (50, 30, 10),
        0x4E => (70, 6, 0),
        0x4F => (80, 34, 6),
        0x51 => (50, 50, 0),
        0x56 | 0x57 => (50, 30, 10),
        0x58 => (60, 20, 10),
        0x5A => (50, 30, 10),
        _ => (0, 0, 0),
    }
}

/// The row of the age table that an age in months falls in, counted from 0.
/// The rows are half-open intervals: below 5, 13, 40, 64, 88, 104, 120, 128
/// and 200 months, and a last row for every age from 200 months on.
pub open spec fn age_bucket_of(age: u16) -> int {
    if age < 5 {
        0
    } else if age < 13 {
        1
    } else if age < 40 {
        2
    } else if age < 64 {
        3
    } else if age < 88 {
        4
    } else if age < 104 {
        5
    } else if age < 120 {
        6
    } else if age < 128 {
        7
    } else if age < 200 {
        8
    } else {
        9
    }
}

/// The fraction `(numerator, denominator)` by which a row of the age table
/// scales a price.
pub open spec fn bucket_fraction(bucket: int) -> (int, int) {
    if bucket == 0 {
        (3, 2)
    } else if bucket == 1 {
        (6, 5)
    } else if bucket == 2 {
        (1, 1)
    } else if bucket == 3 {
        (3, 4)
    } else if bucket == 4 {
        (9, 16)
    } else if bucket == 5 {
        (27, 64)
    } else if bucket == 6 {
        (81, 256)
    } else if bucket == 7 {
        (81, 512)
    } else if bucket == 8 {
        (81, 1024)
    } else {
        (9, 16)
    }
}

/// Integer division that rounds toward zero, for a positive divisor.
pub open spec fn div_toward_zero(a: int, b: int) -> int {
    if a >= 0 {
        a / b
    } else {
        -((-a) / b)
    }
}

/// The rating base of the integer formula: each rating is multiplied by its
/// multiplier and divided by 1024, rounding down, before the three are added.
pub open spec fn rating_base(ride: u8, exc: u16, its: u16, nau: u16) -> int {
    let m = rating_of(ride);
    (exc * m.0) / 1024 + (its * m.1) / 1024 + (nau * m.2) / 1024
}

/// The rating base of the reconstructed formula: the three products are added
/// first and the sum is divided by 1024, rounding toward zero.
pub open spec fn rating_base_folded(ride: u8, exc: u16, its: u16, nau: u16) -> int {
    let m = rating_of(ride);
    div_toward_zero(exc * m.0 + its * m.1 + nau * m.2, 1024)
}

/// The suggested ticket price of the integer formula, in tenths of a currency
/// unit: the rating base, scaled by the row of the table that the age falls in.
/// The base is multiplied by the row's numerator, divided by its denominator
/// toward zero, doubled and lowered by one, and a negative result becomes 0.
pub open spec fn price_orig(ride: u8, exc: u16, its: u16, nau: u16, age: u16) -> int {
    scaled_price(rating_base(ride, exc, its, nau), age_bucket_of(age))
}

/// What the integer formula makes of a rating base in a row of the age table.
pub open spec fn scaled_price(base: int, bucket: int) -> int {
    let f = bucket_fraction(bucket);
    let p = div_toward_zero(base * f.0, f.1) * 2 - 1;
    if p < 0 {
        0
    } else {
        p
    }
}

/// Finds the row of the age table for an age in months.
pub fn age_bucket(age: u16) -> (bucket: u8)
    ensures
        bucket == age_bucket_of(age),
{
    if age < 5 {
        0
    } else if age < 13 {
        1
    } else if age < 40 {
        2
    } else if age < 64 {
        3
    } else if age < 88 {
        4
    } else if age < 104 {
        5
    } else if age < 120 {
        6
    } else if age < 128 {
        7
    } else if age < 200 {
        8
    } else {
        9
    }
}

/// The integer fraction of a row of the age table.
pub fn age_fraction(bucket: u8) -> (f: (i32, i32))
    ensures
        f.0 == bucket_fraction(bucket as int).0,
        f.1 == bucket_fraction(bucket as int).1,
{
    match bucket {
        0 => (3, 2),
        1 => (6, 5),
        2 => (1, 1),
        3 => (3, 4),
        4 => (9, 16),
        5 => (27, 64),
        6 => (81, 256),
        7 => (81, 512),
        8 => (81, 1024),
        _ => (9, 16),
    }
}

/// The range of the multipliers over all ride kinds.
proof fn lemma_multiplier_bounds(ride: u8)
    ensures
        0 <= rating_of(ride).0 <= 120,
        0 <= rating_of(ride).1 <= 66,
        -10 <= rating_of(ride).2 <= 30,
{
}

/// An arithmetic shift right by ten bits divides by 1024 and rounds down.
proof fn lemma_shift_is_floor(x: i32)
    ensures
        x >> 10 == x as int / 1024,
{
    assert(x >> 10 == x / 1024) by (bit_vector);
}

/// The range of a rating times a multiplier.
proof fn lemma_product_bounds(r: int, m: int, lo: int, hi: int)
    requires
        0 <= r <= 65535,
        lo <= m <= hi,
        lo <= 0 <= hi,
    ensures
        65535 * lo <= r * m <= 65535 * hi,
{
    assert(r * lo <= r * m <= r * hi) by (nonlinear_arith)
        requires
            0 <= r,
            lo <= m <= hi,
    ;
    assert(65535 * lo <= r * lo) by (nonlinear_arith)
        requires
            0 <= r <= 65535,
            lo <= 0,
    ;
    assert(r * hi <= 65535 * hi) by (nonlinear_arith)
        requires
            0 <= r <= 65535,
            0 <= hi,
    ;
}

/// Computes the rating base of the reconstructed formula, the only part of
/// that formula that is integer arithmetic.
pub fn calculate_price_base(ride: u8, exc: u16, its: u16, nau: u16) -> (base: i32)
    ensures
        base == rating_base_folded(ride, exc, its, nau),
{
    let (m_exc, m_int, m_nau) = ride_rating(ride);
    proof {
        lemma_multiplier_bounds(ride);
        lemma_product_bounds(exc as int, m_exc as int, 0, 120);
        lemma_product_bounds(its as int, m_int as int, 0, 66);
        lemma_product_bounds(nau as int, m_nau as int, -10, 30);
    }
    (exc as i32 * m_exc + its as i32 * m_int + nau as i32 * m_nau) / 1024
}

/// Computes the suggested ticket price by the game's integer formula.
pub fn calculate_price_orig(ride: u8, exc: u16, its: u16, nau: u16, age: u16) -> (price: i32)
    ensures
        price == price_orig(ride, exc, its, nau, age),
{
    let (m_exc, m_int, m_nau) = ride_rating(ride);
    let (m_age, d_age) = age_fraction(age_bucket(age));
    proof {
        lemma_multiplier_bounds(ride);
        lemma_product_bounds(exc as int, m_exc as int, 0, 120);
        lemma_product_bounds(its as int, m_int as int, 0, 66);
        lemma_product_bounds(nau as int, m_nau as int, -10, 30);
    }
    let p_exc: i32 = exc as i32 * m_exc;
    let p_int: i32 = its as i32 * m_int;
    let p_nau: i32 = nau as i32 * m_nau;
    proof {
        lemma_shift_is_floor(p_exc);
        lemma_shift_is_floor(p_int);
        lemma_shift_is_floor(p_nau);
    }
    let bv: i32 = (p_exc >> 10) + (p_int >> 10) + (p_nau >> 10);
    assert(-640 <= bv <= 7680 + 4224 + 1920);
    (bv * m_age / d_age * 2 - 1).max(0)
}

/// A larger rating gives no smaller share under a multiplier that is not
/// negative.
proof fn lemma_floor_product_monotone(r1: int, r2: int, m: int)
    requires
        r1 <= r2,
        m >= 0,
    ensures
        (r1 * m) / 1024 <= (r2 * m) / 1024,
{
    assert(r1 * m <= r2 * m) by (nonlinear_arith)
        requires
            r1 <= r2,
            m >= 0,
    ;
}

/// A larger rating base never lowers the price within one row of the age table.
pub proof fn lemma_scaled_price_monotone(base1: int, base2: int, bucket: int)
    requires
        base1 <= base2,
    ensures
        scaled_price(base1, bucket) <= scaled_price(base2, bucket),
{
    let f = bucket_fraction(bucket);
    let a1 = base1 * f.0;
    let a2 = base2 * f.0;
    assert(div_toward_zero(a1, f.1) <= div_toward_zero(a2, f.1)) by {
        lemma_div_toward_zero_monotone(a1, a2, f.1);
    }
}

/// Division toward zero by a positive number keeps the order.
proof fn lemma_div_toward_zero_monotone(a1: int, a2: int, d: int)
    requires
        a1 <= a2,
        d >= 1,
    ensures
        div_toward_zero(a1, d) <= div_toward_zero(a2, d),
{
    if a1 >= 0 {
        vstd::arithmetic::div_mod::lemma_div_is_ordered(a1, a2, d);
    } else if a2 < 0 {
        vstd::arithmetic::div_mod::lemma_div_is_ordered(-a2, -a1, d);
    } else {
        vstd::arithmetic::div_mod::lemma_div_pos_is_pos(-a1, d);
        vstd::arithmetic::div_mod::lemma_div_pos_is_pos(a2, d);
    }
}

/// With the ride kind and the row of the age table fixed, a higher excitement
/// rating never lowers the price, for a kind whose excitement multiplier is
/// not negative.
pub proof fn lemma_price_monotone_in_excitement(
    ride: u8,
    exc1: u16,
    exc2: u16,
    its: u16,
    nau: u16,
    age1: u16,
    age2: u16,
)
    requires
        exc1 <= exc2,
        rating_of(ride).0 >= 0,
        age_bucket_of(age1) == age_bucket_of(age2),
    ensures
        price_orig(ride, exc1, its, nau, age1) <= price_orig(ride, exc2, its, nau, age2),
{
    lemma_floor_product_monotone(exc1 as int, exc2 as int, rating_of(ride).0);
    lemma_scaled_price_monotone(
        rating_base(ride, exc1, its, nau),
        rating_base(ride, exc2, its, nau),
        age_bucket_of(age1),
    );
}

/// With the ride kind and the row of the age table fixed, a higher intensity
/// rating never lowers the price, for a kind whose intensity multiplier is
/// not negative.
pub proof fn lemma_price_monotone_in_intensity(
    ride: u8,
    exc: u16,
    its1: u16,
    its2: u16,
    nau: u16,
    age1: u16,
    age2: u16,
)
    requires
        its1 <= its2,
        rating_of(ride).1 >= 0,
        age_bucket_of(age1) == age_bucket_of(age2),
    ensures
        price_orig(ride, exc, its1, nau, age1) <= price_orig(ride, exc, its2, nau, age2),
{
    lemma_floor_product_monotone(its1 as int, its2 as int, rating_of(ride).1);
    lemma_scaled_price_monotone(
        rating_base(ride, exc, its1, nau),
        rating_base(ride, exc, its2, nau),
        age_bucket_of(age1),
    );
}

/// With the ride kind and the row of the age table fixed, a higher nausea
/// rating never lowers the price, for a kind whose nausea multiplier is not
/// negative.
pub proof fn lemma_price_monotone_in_nausea(
    ride: u8,
    exc: u16,
    its: u16,
    nau1: u16,
    nau2: u16,
    age1: u16,
    age2: u16,
)
    requires
        nau1 <= nau2,
        rating_of(ride).2 >= 0,
        age_bucket_of(age1) == age_bucket_of(age2),
    ensures
        price_orig(ride, exc, its, nau1, age1) <= price_orig(ride, exc, its, nau2, age2),
{
    lemma_floor_product_monotone(nau1 as int, nau2 as int, rating_of(ride).2);
    lemma_scaled_price_monotone(
        rating_base(ride, exc, its, nau1),
        rating_base(ride, exc, its, nau2),
        age_bucket_of(age1),
    );
}

} // verus!
