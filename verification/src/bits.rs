//! Sequences of fixed-width numbers read as one stream of bits, most significant bit first.

use vstd::arithmetic::div_mod::{
    lemma_div_denominator, lemma_fundamental_div_mod, lemma_fundamental_div_mod_converse,
    lemma_mod_bound,
};
use vstd::arithmetic::power2::{lemma_pow2_pos, lemma_pow2_unfold, pow2};
use vstd::prelude::*;

verus! {

/// The bit at position `p` of the stream made of `values`, each `width` bits wide; 0 past its end.
pub open spec fn bit(values: Seq<nat>, width: nat, p: int) -> nat {
    if 0 <= p < values.len() * width {
        (values[p / width as int] / pow2((width - 1 - p % width as int) as nat)) % 2
    } else {
        0
    }
}

/// The `n` bits from position `p` on, read as one number.
pub open spec fn field(values: Seq<nat>, width: nat, p: int, n: nat) -> nat
    decreases n,
{
    if n == 0 {
        0
    } else {
        2 * field(values, width, p, (n - 1) as nat) + bit(values, width, p + n - 1)
    }
}

/// The stream of `values` cut into numbers of `group` bits, the last one filled up with zeros.
pub open spec fn regroup(values: Seq<nat>, width: nat, group: nat) -> Seq<nat> {
    Seq::new(
        ((values.len() * width + group - 1) / group as int) as nat,
        |i: int| field(values, width, group * i, group),
    )
}

/// Whether every value fits in `width` bits.
pub open spec fn fits(values: Seq<nat>, width: nat) -> bool {
    forall|i: int| 0 <= i < values.len() ==> #[trigger] values[i] < pow2(width)
}

proof fn lemma_field_bound(values: Seq<nat>, width: nat, p: int, n: nat)
    ensures
        field(values, width, p, n) < pow2(n),
    decreases n,
{
    if n > 0 {
        lemma_field_bound(values, width, p, (n - 1) as nat);
        lemma_pow2_unfold(n);
    } else {
        lemma_pow2_pos(0);
    }
}

/// Bit `k` of a field is the bit of the stream it was read from.
proof fn lemma_field_bit(values: Seq<nat>, width: nat, p: int, n: nat, k: int)
    requires
        0 <= k < n,
    ensures
        (field(values, width, p, n) / pow2((n - 1 - k) as nat)) % 2 == bit(values, width, p + k),
    decreases n,
{
    let f = field(values, width, p, (n - 1) as nat);
    let b = bit(values, width, p + n - 1);
    if k == n - 1 {
        assert(pow2(0) == 1) by {
            vstd::arithmetic::power2::lemma2_to64();
        }
        assert((2 * f + b) as int / 1 == 2 * f + b);
        assert(b < 2);
    } else {
        lemma_field_bit(values, width, p, (n - 1) as nat, k);
        let e = (n - 2 - k) as nat;
        lemma_pow2_unfold((e + 1) as nat);
        lemma_pow2_pos(e);
        lemma_div_denominator((2 * f + b) as int, 2, pow2(e) as int);
        assert((2 * f + b) / 2 == f);
    }
}

/// Reading the top `n` bits of one value of the stream gives that value without its low bits.
proof fn lemma_field_of_value(values: Seq<nat>, width: nat, i: int, n: nat)
    requires
        0 <= i < values.len(),
        n <= width,
        values[i] < pow2(width),
    ensures
        field(values, width, width * i, n) == values[i] / pow2((width - n) as nat),
    decreases n,
{
    let v = values[i];
    if n == 0 {
        lemma_pow2_pos(width);
        assert(v as int / pow2(width) as int == 0) by {
            vstd::arithmetic::div_mod::lemma_basic_div(v as int, pow2(width) as int);
        }
    } else {
        lemma_field_of_value(values, width, i, (n - 1) as nat);
        let p = width * i + n - 1;
        assert(p / width as int == i && p % width as int == n - 1) by {
            assert(p == i * width + (n - 1)) by (nonlinear_arith)
                requires
                    p == width * i + n - 1,
            ;
            lemma_fundamental_div_mod_converse(p, width as int, i, n - 1);
        }
        assert(0 <= p < values.len() * width) by (nonlinear_arith)
            requires
                p == width * i + n - 1,
                0 <= i < values.len(),
                0 < n <= width,
        ;
        let e = (width - n) as nat;
        lemma_pow2_unfold((e + 1) as nat);
        lemma_pow2_pos(e);
        lemma_div_denominator(v as int, pow2(e) as int, 2);
        assert(pow2(e) * 2 == pow2((e + 1) as nat));
        let q = v / pow2(e);
        lemma_fundamental_div_mod(q as int, 2);
        assert(q == 2 * (q / 2) + q % 2);
    }
}

/// Fields read from two streams agree where their bits agree.
proof fn lemma_field_agrees(
    a: Seq<nat>,
    wa: nat,
    pa: int,
    b: Seq<nat>,
    wb: nat,
    pb: int,
    n: nat,
)
    requires
        forall|k: int| 0 <= k < n ==> #[trigger] bit(a, wa, pa + k) == bit(b, wb, pb + k),
    ensures
        field(a, wa, pa, n) == field(b, wb, pb, n),
    decreases n,
{
    if n > 0 {
        lemma_field_agrees(a, wa, pa, b, wb, pb, (n - 1) as nat);
        assert(bit(a, wa, pa + (n - 1)) == bit(b, wb, pb + (n - 1)));
    }
}

/// Regrouping keeps the stream: every bit stays where it was.
proof fn lemma_regroup_bit(values: Seq<nat>, width: nat, group: nat, p: int)
    requires
        0 < group,
        0 <= p < values.len() * width,
    ensures
        bit(regroup(values, width, group), group, p) == bit(values, width, p),
{
    let total = values.len() * width;
    let g = group as int;
    let out = regroup(values, width, group);
    let i = p / g;
    let k = p % g;
    lemma_fundamental_div_mod(p, g);
    lemma_mod_bound(p, g);
    lemma_fundamental_div_mod(total + g - 1, g);
    lemma_mod_bound(total + g - 1, g);
    let m = (total + g - 1) / g;
    assert(0 <= i < m && p < m * g) by (nonlinear_arith)
        requires
            p == g * i + k,
            0 <= k < g,
            0 <= p < total,
            total + g - 1 == g * m + (total + g - 1) % g,
            0 <= (total + g - 1) % g < g,
    ;
    assert(out.len() == m);
    assert(out[i] == field(values, width, group * i, group));
    lemma_field_bit(values, width, group * i, group, k);
    assert(group * i + k == p);
}

/// Regrouping loses nothing: each value can be read back at its place in the stream.
pub proof fn lemma_regroup_reads_back(values: Seq<nat>, width: nat, group: nat, i: int)
    requires
        0 < group,
        fits(values, width),
        0 <= i < values.len(),
    ensures
        field(regroup(values, width, group), group, width * i, width) == values[i],
{
    let out = regroup(values, width, group);
    assert forall|k: int| 0 <= k < width implies #[trigger] bit(out, group, width * i + k) == bit(
        values,
        width,
        width * i + k,
    ) by {
        assert(0 <= width * i + k < values.len() * width) by (nonlinear_arith)
            requires
                0 <= k < width,
                0 <= i < values.len(),
        ;
        lemma_regroup_bit(values, width, group, width * i + k);
    }
    lemma_field_agrees(out, group, width * i, values, width, width * i, width);
    lemma_field_of_value(values, width, i, width);
    assert(pow2(0) == 1) by {
        vstd::arithmetic::power2::lemma2_to64();
    }
    assert(values[i] / 1 == values[i]);
}

/// Every regrouped number fits in its group.
pub proof fn lemma_regroup_fits(values: Seq<nat>, width: nat, group: nat)
    ensures
        fits(regroup(values, width, group), group),
{
    let out = regroup(values, width, group);
    assert forall|i: int| 0 <= i < out.len() implies #[trigger] out[i] < pow2(group) by {
        lemma_field_bound(values, width, group * i, group);
    }
}

} // verus!
