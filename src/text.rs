use vstd::prelude::*;

verus! {

/// The ASCII code of the decimal digit `d`.
pub open spec fn digit(d: nat) -> u8 {
    (48 + d % 10) as u8
}

/// The decimal digits of `n`, most significant first, with no leading zeros.
pub open spec fn decimal(n: nat) -> Seq<u8>
    decreases n,
{
    if n < 10 {
        seq![digit(n)]
    } else {
        decimal(n / 10).push(digit(n % 10))
    }
}

/// The last `width` decimal digits of `n`, padded on the left with zeros.
pub open spec fn padded(n: nat, width: nat) -> Seq<u8>
    decreases width,
{
    if width == 0 {
        seq![]
    } else {
        padded(n / 10, (width - 1) as nat).push(digit(n % 10))
    }
}

/// `s` without its trailing `'0'` characters.
pub open spec fn trim_zeros(s: Seq<u8>) -> Seq<u8>
    decreases s.len(),
{
    if s.len() > 0 && s.last() == 48u8 {
        trim_zeros(s.drop_last())
    } else {
        s
    }
}

/// The text of the fixed-point number `v / 10^places`: the whole part, then,
/// if the fraction is not zero, a point and the fraction without trailing zeros.
pub open spec fn fixed_text(v: nat, places: nat) -> Seq<u8> {
    let unit = pow10(places);
    if v % unit == 0 {
        decimal(v / unit)
    } else {
        decimal(v / unit).push(46u8) + trim_zeros(padded(v % unit, places))
    }
}

/// Ten to the power `k`.
pub open spec fn pow10(k: nat) -> nat
    decreases k,
{
    if k == 0 {
        1
    } else {
        10 * pow10((k - 1) as nat)
    }
}

/// Whether every byte of `s` is an ASCII character.
pub open spec fn is_ascii(s: Seq<u8>) -> bool {
    forall|i: int| 0 <= i < s.len() ==> s[i] < 128
}

/// The characters of the ASCII bytes `s`.
pub open spec fn ascii_chars(s: Seq<u8>) -> Seq<char> {
    s.map_values(|b: u8| b as char)
}

proof fn lemma_decimal_ascii(n: nat)
    ensures
        is_ascii(decimal(n)),
    decreases n,
{
    if n >= 10 {
        lemma_decimal_ascii(n / 10);
    }
}

proof fn lemma_padded_ascii(n: nat, width: nat)
    ensures
        is_ascii(padded(n, width)),
        padded(n, width).len() == width,
    decreases width,
{
    if width > 0 {
        lemma_padded_ascii(n / 10, (width - 1) as nat);
    }
}

proof fn lemma_trim_ascii(s: Seq<u8>)
    requires
        is_ascii(s),
    ensures
        is_ascii(trim_zeros(s)),
    decreases s.len(),
{
    if s.len() > 0 && s.last() == 48u8 {
        lemma_trim_ascii(s.drop_last());
    }
}

/// The text of a fixed-point number holds ASCII characters only.
pub proof fn lemma_fixed_text_ascii(v: nat, places: nat)
    ensures
        is_ascii(fixed_text(v, places)),
{
    lemma_decimal_ascii(v / pow10(places));
    lemma_padded_ascii(v % pow10(places), places);
    lemma_trim_ascii(padded(v % pow10(places), places));
}

/// Appends the decimal digits of `n` to `out`.
pub fn push_decimal(n: u64, out: &mut Vec<u8>)
    ensures
        final(out)@ == old(out)@ + decimal(n as nat),
    decreases n,
{
    if n >= 10 {
        push_decimal(n / 10, out);
    }
    out.push((48 + n % 10) as u8);
    proof {
        if n >= 10 {
            assert(decimal(n as nat) == decimal((n / 10) as nat).push(digit((n % 10) as nat)));
        }
    }
    assert(final(out)@ =~= old(out)@ + decimal(n as nat));
}

/// Appends the last `width` decimal digits of `n` to `out`, padded with zeros.
pub fn push_padded(n: u64, width: u32, out: &mut Vec<u8>)
    ensures
        final(out)@ == old(out)@ + padded(n as nat, width as nat),
    decreases width,
{
    if width > 0 {
        push_padded(n / 10, width - 1, out);
        out.push((48 + n % 10) as u8);
    }
    assert(final(out)@ =~= old(out)@ + padded(n as nat, width as nat));
}

/// Removes trailing `'0'` characters from `out`, keeping its first `keep`.
fn trim_trailing_zeros(out: &mut Vec<u8>, keep: usize)
    requires
        keep <= old(out)@.len(),
    ensures
        final(out)@ == old(out)@.subrange(0, keep as int) + trim_zeros(
            old(out)@.subrange(keep as int, old(out)@.len() as int),
        ),
{
    let ghost prefix = out@.subrange(0, keep as int);
    let ghost goal = trim_zeros(out@.subrange(keep as int, out@.len() as int));
    assert(out@ =~= prefix + out@.subrange(keep as int, out@.len() as int));
    while out.len() > keep && out[out.len() - 1] == 48u8
        invariant
            keep <= out@.len(),
            out@.subrange(0, keep as int) == prefix,
            trim_zeros(out@.subrange(keep as int, out@.len() as int)) == goal,
        decreases out@.len(),
    {
        let ghost before = out@;
        out.pop();
        assert(before.subrange(keep as int, before.len() as int).drop_last() =~= out@.subrange(
            keep as int,
            out@.len() as int,
        ));
        assert(out@.subrange(0, keep as int) =~= before.subrange(0, keep as int));
    }
    let ghost rest = out@.subrange(keep as int, out@.len() as int);
    assert(trim_zeros(rest) == rest);
    assert(out@ =~= prefix + rest);
}

/// Appends the text of the fixed-point number `v / 10^places` to `out`.
pub fn push_fixed(v: u64, places: u32, unit: u64, out: &mut Vec<u8>)
    requires
        unit == pow10(places as nat),
    ensures
        final(out)@ == old(out)@ + fixed_text(v as nat, places as nat),
{
    proof {
        lemma_pow10_positive(places as nat);
    }
    push_decimal(v / unit, out);
    if v % unit != 0 {
        out.push(46u8);
        let keep = out.len();
        let ghost mid = out@;
        push_padded(v % unit, places, out);
        assert(out@.subrange(0, keep as int) =~= mid);
        assert(out@.subrange(keep as int, out@.len() as int) =~= padded(
            (v % unit) as nat,
            places as nat,
        ));
        trim_trailing_zeros(out, keep);
        assert(final(out)@ =~= old(out)@ + fixed_text(v as nat, places as nat));
    }
}

proof fn lemma_pow10_positive(k: nat)
    ensures
        pow10(k) >= 1,
    decreases k,
{
    if k > 0 {
        lemma_pow10_positive((k - 1) as nat);
    }
}

/// Relies on `String::from_utf8`: ASCII bytes are valid UTF-8, and each byte
/// becomes the character of the same code.
#[verifier::external_body]
pub(crate) fn ascii_string(bytes: Vec<u8>) -> (r: String)
    requires
        is_ascii(bytes@),
    ensures
        r@ == ascii_chars(bytes@),
{
    match String::from_utf8(bytes) {
        Ok(s) => s,
        Err(_) => String::new(),
    }
}

} // verus!
