use vstd::prelude::*;

verus! {

/// The phase step of a rational resampler that turns every `down_ratio`
/// input samples into `up_ratio` output samples: the phase advances by
/// `up_ratio` per input sample, and when it reaches `down_ratio` an output
/// sample is due and the phase drops by `down_ratio`. Returns the new phase
/// and whether an output is due; the new phase is then the first filter tap.
pub fn resample_phase_step(sample_counter: usize, up_ratio: usize, down_ratio: usize) -> (r: (
    usize,
    bool,
))
    requires
        sample_counter + up_ratio <= usize::MAX,
    ensures
        sample_counter + up_ratio < down_ratio ==> r == (
        (sample_counter + up_ratio) as usize,
        false,
        ),
        sample_counter + up_ratio >= down_ratio ==> r == (
        (sample_counter + up_ratio - down_ratio) as usize,
        true,
        ),
        sample_counter < down_ratio && up_ratio <= down_ratio ==> r.0 < down_ratio,
{
    let counter = sample_counter + up_ratio;
    if counter < down_ratio {
        return (counter, false);
    }
    (counter - down_ratio, true)
}

} // verus!
