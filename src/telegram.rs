//! The 59-bit DCF77 telegram and its BCD fields.
use vstd::prelude::*;

verus! {

/// Whether bit `i` (bit 0 being the first one received) of `v` is set.
pub open spec fn bit(v: u64, i: u64) -> bool {
    (v >> i) & 1u64 == 1u64
}

/// The bits of `v` from position `lo` upwards, selected by `mask`.
pub open spec fn bits(v: u64, lo: u64, mask: u64) -> u64 {
    (v >> lo) & mask
}

/// Even XOR parity of bits `lo .. hi` of `v`: true when an odd number of them is set.
pub open spec fn parity(v: u64, lo: int, hi: int) -> bool
    decreases hi - lo,
{
    if hi <= lo {
        false
    } else {
        parity(v, lo, hi - 1) != bit(v, (hi - 1) as u64)
    }
}

proof fn lemma_bits_bound(v: u64, lo: u64, mask: u64)
    ensures
        bits(v, lo, mask) <= mask,
{
    assert((v >> lo) & mask <= mask) by (bit_vector);
}

/// Reads `(v >> lo) & mask`.
fn read_bits(v: u64, lo: u64, mask: u64) -> (r: u64)
    requires
        lo < 64,
    ensures
        r == bits(v, lo, mask),
        r <= mask,
{
    proof {
        lemma_bits_bound(v, lo, mask);
    }
    (v >> lo) & mask
}

/// Reads bit `i` of `v`.
fn read_bit_at(v: u64, i: u64) -> (r: bool)
    requires
        i < 64,
    ensures
        r == bit(v, i),
{
    (v >> i) & 1 == 1
}

/// XOR of bits `lo .. hi` of `v`.
fn parity_of(v: u64, lo: u64, hi: u64) -> (r: bool)
    requires
        lo <= hi <= 64,
    ensures
        r == parity(v, lo as int, hi as int),
{
    let mut p = false;
    let mut i: u64 = lo;
    while i < hi
        invariant
            lo <= i <= hi <= 64,
            p == parity(v, lo as int, i as int),
        decreases hi - i,
    {
        p = p != read_bit_at(v, i);
        i = i + 1;
    }
    p
}

/// Minutes: units digit in bits 21-24 (weights 1, 2, 4, 8), tens in bits 25-27 (10, 20, 40).
pub open spec fn minutes_of(v: u64) -> int {
    bits(v, 21, 0xf) + 10 * bits(v, 25, 0x7)
}

/// Hours: units digit in bits 29-32, tens in bits 33-34 (10, 20).
pub open spec fn hours_of(v: u64) -> int {
    bits(v, 29, 0xf) + 10 * bits(v, 33, 0x3)
}

/// Day of the month: units digit in bits 36-39, tens in bits 40-41 (10, 20).
pub open spec fn day_of(v: u64) -> int {
    bits(v, 36, 0xf) + 10 * bits(v, 40, 0x3)
}

/// Day of the week in bits 42-44 (weights 1, 2, 4), 0 meaning Monday.
pub open spec fn weekday_of(v: u64) -> int {
    bits(v, 42, 0x7) as int
}

/// Month: units digit in bits 45-48, tens in bit 49 (10).
pub open spec fn month_of(v: u64) -> int {
    bits(v, 45, 0xf) + 10 * bits(v, 49, 0x1)
}

/// Year: 2000 plus units digit in bits 50-53 and tens in bits 54-57 (10, 20, 40, 80).
pub open spec fn year_of(v: u64) -> int {
    2000 + bits(v, 50, 0xf) + 10 * bits(v, 54, 0xf)
}

/// The summer-time flag (bit 17) when bit 18 holds its complement.
pub open spec fn checked_cest(v: u64) -> Result<bool, ()> {
    if bit(v, 18) != bit(v, 17) {
        Ok(bit(v, 17))
    } else {
        Err(())
    }
}

/// The minutes when they are at most 59 and bit 28 makes bits 21-28 even.
pub open spec fn checked_minutes(v: u64) -> Result<u8, ()> {
    if minutes_of(v) <= 59 && bit(v, 28) == parity(v, 21, 28) {
        Ok(minutes_of(v) as u8)
    } else {
        Err(())
    }
}

/// The hours when they are at most 23 and bit 35 makes bits 29-35 even.
pub open spec fn checked_hours(v: u64) -> Result<u8, ()> {
    if hours_of(v) <= 23 && bit(v, 35) == parity(v, 29, 35) {
        Ok(hours_of(v) as u8)
    } else {
        Err(())
    }
}

/// The day of the month when it is at most 31.
pub open spec fn checked_day(v: u64) -> Result<u8, ()> {
    if day_of(v) <= 31 {
        Ok(day_of(v) as u8)
    } else {
        Err(())
    }
}

/// `(year, month, day, weekday)` when bit 58 makes bits 36-58 even and each
/// field lies in its range.
pub open spec fn checked_date(v: u64) -> Result<(u16, u8, u8, u8), ()> {
    if bit(v, 58) == parity(v, 36, 58) && year_of(v) <= 2100 && month_of(v) <= 12
        && day_of(v) <= 31 && weekday_of(v) <= 7 {
        Ok((year_of(v) as u16, month_of(v) as u8, day_of(v) as u8, weekday_of(v) as u8))
    } else {
        Err(())
    }
}

/// Flipping bit `i` of `v` flips bit `i` and keeps every other bit.
pub proof fn lemma_flip_bit(v: u64, i: u64, j: u64)
    requires
        i < 64,
        j < 64,
    ensures
        bit(v ^ (1u64 << i), j) == (bit(v, j) != (i == j)),
{
    assert(((v ^ (1u64 << i)) >> j) & 1u64 == 1u64 <==> (((v >> j) & 1u64 == 1u64) != (i == j)))
        by (bit_vector)
        requires
            i < 64,
            j < 64,
    ;
}

/// Flipping one bit of `v` flips the parity of a range exactly when the bit lies in it.
pub proof fn lemma_flip_parity(v: u64, i: u64, lo: int, hi: int)
    requires
        i < 64,
        0 <= lo,
        hi <= 64,
    ensures
        parity(v ^ (1u64 << i), lo, hi) == (parity(v, lo, hi) != (lo <= i < hi)),
    decreases hi - lo,
{
    if lo < hi {
        lemma_flip_parity(v, i, lo, hi - 1);
        lemma_flip_bit(v, i, (hi - 1) as u64);
    }
}

/// Two values that agree on bits `lo .. hi` have the same parity there.
pub proof fn lemma_parity_agree(a: u64, b: u64, lo: int, hi: int)
    requires
        0 <= lo,
        hi <= 64,
        forall|k: u64| lo <= k < hi ==> bit(a, k) == bit(b, k),
    ensures
        parity(a, lo, hi) == parity(b, lo, hi),
    decreases hi - lo,
{
    if lo < hi {
        lemma_parity_agree(a, b, lo, hi - 1);
        assert(bit(a, (hi - 1) as u64) == bit(b, (hi - 1) as u64));
    }
}

/// Minutes of at most 59 with their parity bit set to make bits 21-28 even
/// are returned as they are; flipping the parity bit alone makes them fail.
pub proof fn minutes_parity_law(v: u64)
    requires
        minutes_of(v) <= 59,
        bit(v, 28) == parity(v, 21, 28),
    ensures
        checked_minutes(v) == Ok::<u8, ()>(minutes_of(v) as u8),
        checked_minutes(v ^ (1u64 << 28)) is Err,
{
    let w = v ^ (1u64 << 28);
    lemma_flip_bit(v, 28, 28);
    lemma_flip_parity(v, 28, 21, 28);
    assert(bits(w, 21, 0xf) == bits(v, 21, 0xf) && bits(w, 25, 0x7) == bits(v, 25, 0x7))
        by (bit_vector)
        requires
            w == v ^ (1u64 << 28),
    ;
}

/// Hours of at most 23 with a matching parity bit are returned as they are;
/// hours above 23 fail whatever the parity bit holds.
pub proof fn hours_range_law(v: u64)
    ensures
        hours_of(v) <= 23 && bit(v, 35) == parity(v, 29, 35) ==> checked_hours(v) == Ok::<u8, ()>(
            hours_of(v) as u8,
        ),
        hours_of(v) > 23 ==> checked_hours(v) is Err,
        hours_of(v) > 23 ==> checked_hours(v ^ (1u64 << 35)) is Err,
{
    let w = v ^ (1u64 << 35);
    assert(bits(w, 29, 0xf) == bits(v, 29, 0xf) && bits(w, 33, 0x3) == bits(v, 33, 0x3))
        by (bit_vector)
        requires
            w == v ^ (1u64 << 35),
    ;
}

/// Bits 36-58 laid out from BCD digits, over `base`, before the parity bit is added.
pub open spec fn date_word(
    base: u64,
    day_units: u64,
    day_tens: u64,
    weekday: u64,
    month_units: u64,
    month_tens: u64,
    year_units: u64,
    year_tens: u64,
) -> u64 {
    (base & !(0x7fffffu64 << 36u64)) | (day_units << 36u64) | (day_tens << 40u64) | (weekday
        << 42u64) | (month_units << 45u64) | (month_tens << 49u64) | (year_units << 50u64) | (
    year_tens << 54u64)
}

/// `base` with the date `(year, month, day, weekday)` written into bits 36-57
/// and bit 58 set so that bits 36-58 hold an even number of ones.
pub open spec fn encode_date(base: u64, year: int, month: int, day: int, weekday: int) -> u64 {
    let w = date_word(
        base,
        (day % 10) as u64,
        (day / 10) as u64,
        weekday as u64,
        (month % 10) as u64,
        (month / 10) as u64,
        ((year - 2000) % 10) as u64,
        ((year - 2000) / 10) as u64,
    );
    if parity(w, 36, 58) {
        w | (1u64 << 58u64)
    } else {
        w
    }
}

proof fn lemma_date_word_fields(
    base: u64,
    du: u64,
    dt: u64,
    wd: u64,
    mu: u64,
    mt: u64,
    yu: u64,
    yt: u64,
    p: u64,
)
    by (bit_vector)
    requires
        du < 10,
        dt < 4,
        wd < 8,
        mu < 10,
        mt < 2,
        yu < 10,
        yt < 10,
        p <= 1,
    ensures
        ({
            let e = date_word(base, du, dt, wd, mu, mt, yu, yt) | (p << 58u64);
            &&& bits(e, 36, 0xf) == du
            &&& bits(e, 40, 0x3) == dt
            &&& bits(e, 42, 0x7) == wd
            &&& bits(e, 45, 0xf) == mu
            &&& bits(e, 49, 0x1) == mt
            &&& bits(e, 50, 0xf) == yu
            &&& bits(e, 54, 0xf) == yt
            &&& bit(e, 58) == (p == 1)
        }),
{
}

proof fn lemma_low_bits_kept(w: u64, p: u64, k: u64)
    by (bit_vector)
    requires
        k < 58,
        p <= 1,
    ensures
        bit(w | (p << 58u64), k) == bit(w, k),
{
}

/// A date in range written into bits 36-58 with its parity bit reads back unchanged.
pub proof fn date_round_trip_law(base: u64, year: int, month: int, day: int, weekday: int)
    requires
        2000 <= year <= 2099,
        1 <= month <= 12,
        1 <= day <= 31,
        0 <= weekday <= 6,
    ensures
        checked_date(encode_date(base, year, month, day, weekday)) == Ok::<(u16, u8, u8, u8), ()>(
            (year as u16, month as u8, day as u8, weekday as u8),
        ),
{
    let du = (day % 10) as u64;
    let dt = (day / 10) as u64;
    let mu = (month % 10) as u64;
    let mt = (month / 10) as u64;
    let yu = ((year - 2000) % 10) as u64;
    let yt = ((year - 2000) / 10) as u64;
    let w = date_word(base, du, dt, weekday as u64, mu, mt, yu, yt);
    let p: u64 = if parity(w, 36, 58) { 1 } else { 0 };
    let e = encode_date(base, year, month, day, weekday);
    assert(e == w | (p << 58u64)) by {
        assert(w | (0u64 << 58u64) == w) by (bit_vector);
    }
    lemma_date_word_fields(base, du, dt, weekday as u64, mu, mt, yu, yt, p);
    assert forall|k: u64| 36 <= k < 58 implies bit(e, k) == bit(w, k) by {
        lemma_low_bits_kept(w, p, k);
    }
    lemma_parity_agree(e, w, 36, 58);
    assert(day_of(e) == day);
    assert(month_of(e) == month);
    assert(year_of(e) == year);
}

/// A telegram whose date checks out fails once any single bit among 36-58 is flipped.
pub proof fn date_corruption_law(v: u64, i: u64)
    requires
        checked_date(v) is Ok,
        36 <= i <= 58,
    ensures
        checked_date(v ^ (1u64 << i)) is Err,
{
    lemma_flip_bit(v, i, 58);
    lemma_flip_parity(v, i, 36, 58);
}

/// One minute's DCF77 telegram: 59 bits, bit 0 received first.
pub struct DCF77Time(pub u64);

impl DCF77Time {
    /// Wraps a received telegram.
    pub fn new(dcf77bits: u64) -> (r: Self)
        ensures
            r.0 == dcf77bits,
    {
        DCF77Time(dcf77bits)
    }

    /// Checks the start marker: bit 0 must be clear.
    pub fn validate_start(&self) -> (r: Result<(), ()>)
        ensures
            r == (if bit(self.0, 0) { Err::<(), ()>(()) } else { Ok(()) }),
    {
        if read_bit_at(self.0, 0) {
            Err(())
        } else {
            Ok(())
        }
    }

    /// Whether summer time is announced (bit 17), without checking bit 18.
    pub fn cest_unchecked(&self) -> (r: bool)
        ensures
            r == bit(self.0, 17),
    {
        read_bit_at(self.0, 17)
    }

    /// Whether summer time is announced, checked against its complement in bit 18.
    pub fn cest(&self) -> (r: Result<bool, ()>)
        ensures
            r == checked_cest(self.0),
    {
        let cest = self.cest_unchecked();
        if read_bit_at(self.0, 18) == cest {
            Err(())
        } else {
            Ok(cest)
        }
    }

    /// The minutes of the hour, unchecked.
    pub fn minutes_unchecked(&self) -> (r: u8)
        ensures
            r == minutes_of(self.0),
    {
        let units = read_bits(self.0, 21, 0xf) as u8;
        let tens = read_bits(self.0, 25, 0x7) as u8;
        units + 10 * tens
    }

    /// The minutes of the hour, checked for range and parity.
    pub fn minutes(&self) -> (r: Result<u8, ()>)
        ensures
            r == checked_minutes(self.0),
    {
        let parity = parity_of(self.0, 21, 28);
        let minutes = self.minutes_unchecked();
        if minutes > 59 {
            return Err(());
        }
        if read_bit_at(self.0, 28) != parity {
            Err(())
        } else {
            Ok(minutes)
        }
    }

    /// The hour of the day, unchecked.
    pub fn hours_unchecked(&self) -> (r: u8)
        ensures
            r == hours_of(self.0),
    {
        let units = read_bits(self.0, 29, 0xf) as u8;
        let tens = read_bits(self.0, 33, 0x3) as u8;
        units + 10 * tens
    }

    /// The hour of the day, checked for range and parity.
    pub fn hours(&self) -> (r: Result<u8, ()>)
        ensures
            r == checked_hours(self.0),
    {
        let parity = parity_of(self.0, 29, 35);
        let hours = self.hours_unchecked();
        if hours > 23 {
            return Err(());
        }
        if read_bit_at(self.0, 35) != parity {
            Err(())
        } else {
            Ok(hours)
        }
    }

    /// The day of the month, unchecked.
    pub fn day_unchecked(&self) -> (r: u8)
        ensures
            r == day_of(self.0),
    {
        let units = read_bits(self.0, 36, 0xf) as u8;
        let tens = read_bits(self.0, 40, 0x3) as u8;
        units + 10 * tens
    }

    /// The day of the month, checked to be at most 31.
    pub fn day(&self) -> (r: Result<u8, ()>)
        ensures
            r == checked_day(self.0),
    {
        let day = self.day_unchecked();
        if day > 31 {
            Err(())
        } else {
            Ok(day)
        }
    }

    /// The day of the week, unchecked; 0 means Monday.
    pub fn weekday_unchecked(&self) -> (r: u8)
        ensures
            r == weekday_of(self.0),
    {
        read_bits(self.0, 42, 0x7) as u8
    }

    /// The month of the year, unchecked.
    pub fn month_unchecked(&self) -> (r: u8)
        ensures
            r == month_of(self.0),
    {
        let units = read_bits(self.0, 45, 0xf) as u8;
        let tens = read_bits(self.0, 49, 0x1) as u8;
        units + 10 * tens
    }

    /// The year, unchecked.
    pub fn year_unchecked(&self) -> (r: u16)
        ensures
            r == year_of(self.0),
    {
        let units = read_bits(self.0, 50, 0xf) as u16;
        let tens = read_bits(self.0, 54, 0xf) as u16;
        2000 + units + 10 * tens
    }

    /// `(year, month, day, weekday)`, checked for parity over bits 36-58 and for range.
    pub fn date(&self) -> (r: Result<(u16, u8, u8, u8), ()>)
        ensures
            r == checked_date(self.0),
    {
        let parity = parity_of(self.0, 36, 58);
        if read_bit_at(self.0, 58) != parity {
            return Err(());
        }
        let year = self.year_unchecked();
        let month = self.month_unchecked();
        let day = self.day_unchecked();
        let weekday = self.weekday_unchecked();
        if year > 2100 || month > 12 || day > 31 || weekday > 7 {
            Err(())
        } else {
            Ok((year, month, day, weekday))
        }
    }
}

} // verus!
