use vstd::prelude::*;

verus! {

/// Decimation stride used by the waveform pipeline: every 100th computed
/// sample of the first channel is kept.
pub const DEFAULT_STRIDE: usize = 100;

/// Ceiling of `n / s` over the integers.
pub open spec fn ceil_div(n: int, s: int) -> int
    recommends
        s >= 1,
{
    (n + s - 1) / s
}

/// Downsample a sequence of raw samples by keeping every `stride`-th one,
/// starting with the first. The output has exactly `ceil(n / stride)`
/// entries, and entry `j` is the raw sample at index `j * stride`.
///
/// Samples are carried as their decimal renderings, the form in which the
/// result is later serialized.
pub fn decimate(samples: &Vec<String>, stride: usize) -> (r: Vec<String>)
    requires
        stride >= 1,
        samples@.len() + stride <= usize::MAX,
    ensures
        r@.len() == ceil_div(samples@.len() as int, stride as int),
        forall|j: int| 0 <= j < r@.len() ==> (#[trigger] r@[j])@ == samples@[j * stride]@,
{
    let n = samples.len();
    let mut out: Vec<String> = Vec::new();
    let mut i: usize = 0;
    proof {
        let st: int = stride as int;
        assert(0 * st == 0) by (nonlinear_arith);
    }
    while i < n
        invariant
            stride >= 1,
            n == samples@.len(),
            n + stride <= usize::MAX,
            i as int == out@.len() as int * stride as int,
            i <= n + stride - 1,
            forall|j: int| 0 <= j < out@.len() ==> (#[trigger] out@[j])@ == samples@[j * stride]@,
        decreases n + stride - i,
    {
        out.push(samples[i].clone());
        proof {
            let l: int = out@.len() as int;
            let st: int = stride as int;
            assert(l * st == (l - 1) * st + st) by (nonlinear_arith);
            assert((l - 1) * st == i as int);
        }
        i = i + stride;
    }
    proof {
        let ns: int = n as int;
        let st: int = stride as int;
        let l: int = out@.len() as int;
        let iv: int = i as int;
        assert(l == (ns + st - 1) / st) by (nonlinear_arith)
            requires
                st >= 1,
                ns >= 0,
                l * st == iv,
                iv >= ns,
                iv <= ns + st - 1,
        ;
    }
    out
}

/// Duration of a track in whole seconds. The peaks backend exposes no
/// duration, so every track reports zero.
pub fn get_track_duration(file_path: String) -> (d: u32)
    ensures
        d == 0,
{
    0
}

} // verus!
