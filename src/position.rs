use vstd::prelude::*;

verus! {

/// Number of analog channels swept per frame.
pub const CHANNELS: usize = 8;

/// Weight of channel `i` in the centroid: evenly spaced, 1000 apart.
pub open spec fn weight(i: int) -> int {
    1000 * i
}

/// Sum of `sample[i] * weight(i)` over the first `n` channels.
pub open spec fn weighted_sum(s: Seq<u16>, n: int) -> int
    decreases n,
{
    if n <= 0 {
        0
    } else {
        weighted_sum(s, n - 1) + s[n - 1] as int * weight(n - 1)
    }
}

/// Sum of the first `n` samples.
pub open spec fn sample_sum(s: Seq<u16>, n: int) -> int
    decreases n,
{
    if n <= 0 {
        0
    } else {
        sample_sum(s, n - 1) + s[n - 1] as int
    }
}

/// Weighted centroid of a frame; 0 when every sample is 0.
pub open spec fn position_of(s: Seq<u16>) -> int {
    let total = sample_sum(s, s.len() as int);
    if total == 0 {
        0
    } else {
        weighted_sum(s, s.len() as int) / total
    }
}

proof fn lemma_sums_bounded(s: Seq<u16>, n: int)
    requires
        0 <= n <= s.len(),
        n <= 8,
    ensures
        0 <= sample_sum(s, n) <= n * 65535,
        0 <= weighted_sum(s, n) <= sample_sum(s, n) * 7000,
    decreases n,
{
    if n > 0 {
        lemma_sums_bounded(s, n - 1);
        assert(s[n - 1] as int * weight(n - 1) <= s[n - 1] as int * 7000) by (nonlinear_arith)
            requires
                n - 1 <= 7,
                0 <= s[n - 1] as int,
        ;
        assert(0 <= s[n - 1] as int * weight(n - 1)) by (nonlinear_arith)
            requires
                n - 1 >= 0,
                0 <= s[n - 1] as int,
        ;
    }
}

proof fn lemma_zero_prefix(s: Seq<u16>, n: int)
    requires
        0 <= n <= s.len(),
        forall|i: int| 0 <= i < n ==> s[i] == 0,
    ensures
        sample_sum(s, n) == 0,
        weighted_sum(s, n) == 0,
    decreases n,
{
    if n > 0 {
        lemma_zero_prefix(s, n - 1);
    }
}

proof fn lemma_single_prefix(s: Seq<u16>, k: int, n: int)
    requires
        0 <= k < s.len(),
        0 <= n <= s.len(),
        forall|i: int| 0 <= i < s.len() && i != k ==> s[i] == 0,
    ensures
        sample_sum(s, n) == (if k < n { s[k] as int } else { 0 }),
        weighted_sum(s, n) == (if k < n { s[k] as int * weight(k) } else { 0 }),
    decreases n,
{
    if n > 0 {
        lemma_single_prefix(s, k, n - 1);
    }
}

/// A sweep in which every channel reads 0 yields position 0.
pub proof fn lemma_all_zero_position(s: Seq<u16>)
    requires
        forall|i: int| 0 <= i < s.len() ==> s[i] == 0,
    ensures
        position_of(s) == 0,
{
    lemma_zero_prefix(s, s.len() as int);
}

/// A sweep in which only channel `k` reads a nonzero value yields exactly
/// that channel's weight.
pub proof fn lemma_single_channel_position(s: Seq<u16>, k: int)
    requires
        0 <= k < s.len(),
        s[k] != 0,
        forall|i: int| 0 <= i < s.len() && i != k ==> s[i] == 0,
    ensures
        position_of(s) == weight(k),
{
    lemma_single_prefix(s, k, s.len() as int);
    let v = s[k] as int;
    assert(v * weight(k) / v == weight(k)) by (nonlinear_arith)
        requires
            v > 0,
    ;
}

/// Weighted centroid of one sweep of the sensor array:
/// `Σ sample[i]·weight[i] / Σ sample[i]`, or 0 when all samples are 0.
pub fn calcula_posicao_peso(sensores: &[u16; 8]) -> (r: u32)
    ensures
        r as int == position_of(sensores@),
{
    let mut soma_pesos: u32 = 0;
    let mut soma_valores: u32 = 0;
    let mut i: usize = 0;
    while i < CHANNELS
        invariant
            0 <= i <= 8,
            sensores@.len() == 8,
            soma_pesos as int == weighted_sum(sensores@, i as int),
            soma_valores as int == sample_sum(sensores@, i as int),
        decreases 8 - i,
    {
        proof {
            lemma_sums_bounded(sensores@, i as int + 1);
        }
        let valor = sensores[i] as u32;
        let peso = 1000 * (i as u32);
        assert(valor as int * peso as int <= 65535 * 7000) by (nonlinear_arith)
            requires
                valor <= 65535,
                peso <= 7000,
        ;
        soma_pesos = soma_pesos + valor * peso;
        soma_valores = soma_valores + valor;
        i = i + 1;
    }
    if soma_valores == 0 {
        0
    } else {
        soma_pesos / soma_valores
    }
}

} // verus!
