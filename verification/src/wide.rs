use vstd::prelude::*;

verus! {

/// The UTF-16 code units of one character: one unit below U+10000, else a
/// high and a low surrogate.
pub open spec fn utf16_units(c: char) -> Seq<u16> {
    let v = c as int;
    if v < 0x1_0000 {
        seq![v as u16]
    } else {
        seq![(0xD800 + (v - 0x1_0000) / 0x400) as u16, (0xDC00 + (v - 0x1_0000) % 0x400) as u16]
    }
}

/// Every character is encoded reversibly: below U+10000 as itself, else as
/// a high surrogate (D800 to DBFF) and a low one (DC00 to DFFF) from which
/// the character is `0x10000 + (high - 0xD800) * 0x400 + (low - 0xDC00)`.
pub proof fn lemma_utf16_units_decode(c: char)
    ensures
        (c as int) < 0x1_0000 ==> utf16_units(c).len() == 1 && utf16_units(c)[0] == c as int,
        (c as int) >= 0x1_0000 ==> {
            let u = utf16_units(c);
            &&& u.len() == 2
            &&& 0xD800 <= u[0] <= 0xDBFF
            &&& 0xDC00 <= u[1] <= 0xDFFF
            &&& 0x1_0000 + (u[0] - 0xD800) * 0x400 + (u[1] - 0xDC00) == c as int
        },
{
}

/// The encoding of a text is the encodings of its characters one after the
/// other: appending a character appends its units.
pub proof fn lemma_utf16_push(text: Seq<char>, c: char)
    ensures
        utf16_of(text.push(c)) == utf16_of(text) + utf16_units(c),
{
    assert(text.push(c).drop_last() =~= text);
}

/// The UTF-16 encoding of a text.
pub open spec fn utf16_of(text: Seq<char>) -> Seq<u16>
    decreases text.len(),
{
    if text.len() == 0 {
        Seq::empty()
    } else {
        utf16_of(text.drop_last()) + utf16_units(text.last())
    }
}

/// The NUL-terminated UTF-16 encoding of a text, as Windows takes strings.
pub open spec fn wide_units(text: Seq<char>) -> Seq<u16> {
    utf16_of(text).push(0u16)
}

/// Encodes `text` as NUL-terminated UTF-16.
pub fn wide(text: &str) -> (units: Vec<u16>)
    ensures
        units@ == wide_units(text@),
{
    let n = text.unicode_len();
    let mut units: Vec<u16> = Vec::new();
    let mut i: usize = 0;
    while i < n
        invariant
            0 <= i <= n,
            n == text@.len(),
            units@ == utf16_of(text@.take(i as int)),
        decreases n - i,
    {
        let c = text.get_char(i);
        let v = c as u32;
        if v < 0x1_0000 {
            units.push(v as u16);
        } else {
            let offset = v - 0x1_0000;
            units.push((0xD800 + offset / 0x400) as u16);
            units.push((0xDC00 + offset % 0x400) as u16);
        }
        assert(text@.take(i + 1).drop_last() =~= text@.take(i as int));
        assert(units@ =~= utf16_of(text@.take(i + 1)));
        i = i + 1;
    }
    assert(text@.take(n as int) =~= text@);
    units.push(0);
    units
}

/// A buffer of `n` units holding the NUL-terminated text `units`: its
/// first `n - 1` units at most, the rest zero.
pub open spec fn fixed_units(units: Seq<u16>, n: int) -> Seq<u16> {
    Seq::new(n as nat, |i: int| if i < n - 1 && i < units.len() { units[i] } else { 0u16 })
}

/// Writes `text` into a fixed buffer as UTF-16, cut to leave room for the
/// terminating NUL, and zeroes the rest.
pub fn copy_wide_fixed<const N: usize>(target: &mut [u16; N], text: &str)
    ensures
        final(target)@ == fixed_units(wide_units(text@), N as int),
{
    let units = wide(text);
    let limit = if N == 0 {
        0
    } else {
        N - 1
    };
    let mut i: usize = 0;
    while i < N
        invariant
            0 <= i <= N,
            limit == (if N == 0 { 0 } else { N - 1 }),
            units@ == wide_units(text@),
            forall|j: int| 0 <= j < i ==> #[trigger] target@[j] == fixed_units(units@, N as int)[j],
        decreases N - i,
    {
        if i < limit && i < units.len() {
            target[i] = units[i];
        } else {
            target[i] = 0;
        }
        i = i + 1;
    }
    assert(target@ =~= fixed_units(units@, N as int));
}

/// A filled buffer always ends in NUL, and a text whose encoding fits is
/// held whole, NUL-terminated.
pub proof fn lemma_fixed_units_terminated(text: Seq<char>, n: int)
    requires
        n > 0,
    ensures
        fixed_units(wide_units(text), n)[n - 1] == 0,
        utf16_of(text).len() < n ==> fixed_units(wide_units(text), n).subrange(
            0,
            utf16_of(text).len() as int,
        ) == utf16_of(text),
        utf16_of(text).len() < n ==> fixed_units(wide_units(text), n)[utf16_of(text).len() as int]
            == 0,
{
    let w = wide_units(text);
    let u = utf16_of(text);
    if u.len() < n {
        assert(fixed_units(w, n).subrange(0, u.len() as int) =~= u);
    }
}

/// The low 16 bits of a value.
pub fn loword(value: u32) -> (low: u16)
    ensures
        low == value % 0x1_0000,
{
    assert(value & 0xFFFF == value % 0x1_0000) by (bit_vector);
    (value & 0xFFFF) as u16
}

} // verus!
