use qr_ident::rng::ScriptedSource;
use qr_ident::sampler::{SampleError, UnitSampler};

#[test]
fn sampler_returns_first_unit() {
    let sampler = UnitSampler::new(4);
    let mut source = ScriptedSource::new(vec![15], vec![]);
    assert_eq!(sampler.sample_unit(3233, &mut source), Ok(15));
}

#[test]
fn sampler_reduces_draws_into_range() {
    // 3233 + 15 reduces to 15, which is a unit
    let sampler = UnitSampler::new(4);
    let mut source = ScriptedSource::new(vec![3233 + 15], vec![]);
    assert_eq!(sampler.sample_unit(3233, &mut source), Ok(15));
}

#[test]
fn sampler_retries_past_rejected_draws() {
    // 61 and 0 share a factor with 3233; 17 is the first unit drawn
    let sampler = UnitSampler::new(4);
    let mut source = ScriptedSource::new(vec![61, 0, 17], vec![]);
    assert_eq!(sampler.sample_unit(3233, &mut source), Ok(17));
}

#[test]
fn sampler_gives_up_at_its_cap() {
    let sampler = UnitSampler::new(3);
    let mut source = ScriptedSource::new(vec![61, 61, 61, 17], vec![]);
    assert_eq!(
        sampler.sample_unit(3233, &mut source),
        Err(SampleError::SamplingExhausted)
    );
}
