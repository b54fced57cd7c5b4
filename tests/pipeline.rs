use bit_vec::BitVec;
use qpsk::bits::{accept_bitstream, bit_to_string, even_demultiplexor, parse_bits};
use qpsk::carrier::carrier_phases;
use qpsk::modulator::{modulate, plan_modulation, ModulationError, QpskSample};
use qpsk::nrz::nrz_encoder;
use qpsk::params::{
    derive_parameters, parse_number, NumberError, ParameterError, Rounding, SimulationParameters,
};
use qpsk::sink::split_lines;
use qpsk::timebase::{create_time, TimeBaseError};

fn bits(text: &str) -> BitVec {
    parse_bits(text)
}

fn to_vec(b: &BitVec) -> Vec<bool> {
    b.iter().collect()
}

#[test]
fn parse_number_accepts_decimal_text() {
    assert_eq!(parse_number("8"), Ok(8));
    assert_eq!(parse_number("+12"), Ok(12));
    assert_eq!(parse_number("0"), Ok(0));
    assert_eq!(parse_number("4294967295"), Ok(u32::MAX));
}

#[test]
fn parse_number_rejects_non_numbers() {
    assert_eq!(parse_number(""), Err(NumberError::NotANumber));
    assert_eq!(parse_number("+"), Err(NumberError::NotANumber));
    assert_eq!(parse_number("12a"), Err(NumberError::NotANumber));
    assert_eq!(parse_number("-1"), Err(NumberError::NotANumber));
    assert_eq!(parse_number("1 2"), Err(NumberError::NotANumber));
}

#[test]
fn parse_number_rejects_values_above_u32() {
    assert_eq!(parse_number("4294967296"), Err(NumberError::OutOfRange));
    assert_eq!(parse_number("99999999999999999999999"), Err(NumberError::OutOfRange));
}

#[test]
fn parameters_refuse_zero() {
    assert_eq!(SimulationParameters::new(0, 2, 1), Err(ParameterError::ZeroSamplingFreq));
    assert_eq!(SimulationParameters::new(8, 0, 1), Err(ParameterError::ZeroCarrierFreq));
    assert_eq!(SimulationParameters::new(8, 2, 0), Err(ParameterError::ZeroSymbolRate));
    let p = SimulationParameters::new(8, 2, 1).unwrap();
    assert_eq!((p.sampling_freq, p.carrier_freq, p.symbol_rate), (8, 2, 1));
}

#[test]
fn parse_bits_keeps_only_binary_digits() {
    assert_eq!(to_vec(&bits("1 0x1\n")), vec![true, false, true]);
    assert_eq!(to_vec(&bits("")), Vec::<bool>::new());
    assert_eq!(to_vec(&bits("abc")), Vec::<bool>::new());
}

#[test]
fn accept_bitstream_requires_even_length() {
    assert!(accept_bitstream("101\n").is_none());
    let b = accept_bitstream("1010\n").unwrap();
    assert_eq!(to_vec(&b), vec![true, false, true, false]);
    assert_eq!(to_vec(&accept_bitstream("\n").unwrap()), Vec::<bool>::new());
}

#[test]
fn bit_to_string_writes_each_bit() {
    assert_eq!(bit_to_string(&bits("1100101")), "1100101");
    assert_eq!(bit_to_string(&BitVec::new()), "");
}

#[test]
fn demultiplexor_splits_by_index_parity() {
    let (first, second) = even_demultiplexor(&bits("110100"));
    assert_eq!(bit_to_string(&first), "100");
    assert_eq!(bit_to_string(&second), "110");
}

#[test]
fn demultiplexor_of_empty_stream() {
    let (first, second) = even_demultiplexor(&BitVec::new());
    assert_eq!(first.len(), 0);
    assert_eq!(second.len(), 0);
}

#[test]
fn demultiplexor_halves_interleave_back() {
    let input = bits("01101101");
    let (first, second) = even_demultiplexor(&input);
    assert_eq!(first.len(), 4);
    assert_eq!(second.len(), 4);
    let mut joined = Vec::new();
    for k in 0..4 {
        joined.push(first[k]);
        joined.push(second[k]);
    }
    assert_eq!(joined, to_vec(&input));
}

#[test]
fn nrz_holds_each_level_for_samples_per_bit() {
    assert_eq!(nrz_encoder(&bits("10"), 4), vec![1, 1, 1, 1, -1, -1, -1, -1]);
    assert_eq!(nrz_encoder(&bits("011"), 2), vec![-1, -1, 1, 1, 1, 1]);
}

#[test]
fn nrz_with_zero_samples_per_bit_is_empty() {
    assert_eq!(nrz_encoder(&bits("1011"), 0), Vec::<i8>::new());
    assert_eq!(nrz_encoder(&BitVec::new(), 5), Vec::<i8>::new());
}

#[test]
fn create_time_steps_below_max() {
    assert_eq!(create_time(0, 32, 4), Ok(vec![0, 4, 8, 12, 16, 20, 24, 28]));
    assert_eq!(create_time(0, 10, 3), Ok(vec![0, 3, 6, 9]));
    assert_eq!(create_time(5, 6, 100), Ok(vec![5]));
}

#[test]
fn create_time_empty_range() {
    assert_eq!(create_time(7, 7, 1), Ok(vec![]));
    assert_eq!(create_time(9, 3, 2), Ok(vec![]));
}

#[test]
fn create_time_rejects_zero_step() {
    assert_eq!(create_time(0, 10, 0), Err(TimeBaseError::NonPositiveStep));
}

#[test]
fn create_time_count_is_ceiling() {
    for (max, step) in [(1u128, 1u128), (12, 4), (13, 4), (100, 7), (3, 5)] {
        let grid = create_time(0, max, step).unwrap();
        let expected = (max + step - 1) / step;
        assert_eq!(grid.len() as u128, expected);
        assert_eq!(grid[0], 0);
        assert!(grid.iter().all(|t| *t < max));
    }
}

#[test]
fn carrier_phases_reduce_to_a_turn() {
    assert_eq!(carrier_phases(&vec![0, 4, 8, 12], 2, 16), vec![0, 8, 0, 8]);
    assert_eq!(carrier_phases(&vec![0, 1, 2, 3, 7], 3, 10), vec![0, 3, 6, 9, 1]);
    assert_eq!(carrier_phases(&vec![], 3, 10), Vec::<u128>::new());
}

#[test]
fn sine_and_cosine_carriers_are_in_quadrature() {
    let time: Vec<u128> = (0..40).map(|k| 3 * k).collect();
    let tps = 48u128;
    let phases = carrier_phases(&time, 5, tps);
    for (t, p) in time.iter().zip(phases.iter()) {
        let direct = 2.0 * std::f64::consts::PI * 5.0 * (*t as f64) / (tps as f64);
        let reduced = 2.0 * std::f64::consts::PI * (*p as f64) / (tps as f64);
        let (s, c) = (reduced.sin(), reduced.cos());
        assert!((s * s + c * c - 1.0).abs() < 1e-12);
        assert!((s - direct.sin()).abs() < 1e-9);
        assert!((c - direct.cos()).abs() < 1e-9);
    }
}

#[test]
fn modulate_pairs_equal_length_branches() {
    let r = modulate(&vec![1, -1], &vec![-1, -1], &vec![0, 8]).unwrap();
    assert_eq!(
        r,
        vec![
            QpskSample { in_phase: 1, quadrature: -1, phase: 0 },
            QpskSample { in_phase: -1, quadrature: -1, phase: 8 },
        ]
    );
    assert_eq!(modulate(&vec![], &vec![], &vec![]), Ok(vec![]));
}

#[test]
fn modulate_rejects_length_mismatch() {
    assert_eq!(
        modulate(&vec![1, 1, 1], &vec![1, 1], &vec![0, 1]),
        Err(ModulationError::LengthMismatch { in_phase: 3, quadrature: 2, carrier: 2 })
    );
    assert_eq!(
        modulate(&vec![1, 1], &vec![1, 1], &vec![0, 1, 2]),
        Err(ModulationError::LengthMismatch { in_phase: 2, quadrature: 2, carrier: 3 })
    );
}

#[test]
fn derived_parameters_of_reference_run() {
    let p = SimulationParameters::new(8, 2, 1).unwrap();
    let d = derive_parameters(&p, 4, Rounding::Floor);
    assert_eq!(d.bit_rate, 2);
    assert_eq!((d.symbol_period.num, d.symbol_period.den), (1, 1));
    assert_eq!((d.duration.num, d.duration.den), (4, 2));
    assert_eq!((d.sample_period.num, d.sample_period.den), (1, 8));
    assert_eq!((d.sample_count.num, d.sample_count.den), (32, 2));
    assert_eq!(d.samples_per_bit, 4);
    assert_eq!(d.amplitude_squared, 2);
    assert_eq!(d.ticks_per_second, 16);
    assert_eq!(d.duration_ticks, 32);
    assert_eq!(d.grid_step_ticks, 4);
}

#[test]
fn samples_per_bit_rounding_policies() {
    let p = SimulationParameters::new(9, 1, 1).unwrap();
    assert_eq!(derive_parameters(&p, 2, Rounding::Floor).samples_per_bit, 4);
    assert_eq!(derive_parameters(&p, 2, Rounding::Nearest).samples_per_bit, 5);
    let p = SimulationParameters::new(10, 1, 3).unwrap();
    assert_eq!(derive_parameters(&p, 2, Rounding::Floor).samples_per_bit, 1);
    assert_eq!(derive_parameters(&p, 2, Rounding::Nearest).samples_per_bit, 2);
    let p = SimulationParameters::new(7, 1, 1).unwrap();
    assert_eq!(derive_parameters(&p, 2, Rounding::Nearest).samples_per_bit, 4);
    let p = SimulationParameters::new(13, 1, 2).unwrap();
    assert_eq!(derive_parameters(&p, 2, Rounding::Floor).samples_per_bit, 3);
    assert_eq!(derive_parameters(&p, 2, Rounding::Nearest).samples_per_bit, 3);
}

#[test]
fn end_to_end_reference_run() {
    let p = SimulationParameters::new(8, 2, 1).unwrap();
    let input = accept_bitstream("1010").unwrap();
    let plan = plan_modulation(&p, &input, Rounding::Floor).unwrap();
    assert_eq!(plan.derived.samples_per_bit, 4);
    assert_eq!(bit_to_string(&plan.in_phase_bits), "11");
    assert_eq!(bit_to_string(&plan.quadrature_bits), "00");
    assert_eq!(plan.time, vec![0, 4, 8, 12, 16, 20, 24, 28]);
    let seconds: Vec<f64> = plan.time.iter().map(|t| *t as f64 / 16.0).collect();
    assert_eq!(seconds, vec![0.0, 0.25, 0.5, 0.75, 1.0, 1.25, 1.5, 1.75]);
    assert_eq!(plan.samples.len(), 8);
    assert!(plan.samples.iter().all(|s| s.in_phase == 1 && s.quadrature == -1));
    let phases: Vec<u128> = plan.samples.iter().map(|s| s.phase).collect();
    assert_eq!(phases, vec![0, 8, 0, 8, 0, 8, 0, 8]);
    let amplitude = (plan.derived.amplitude_squared as f64).sqrt();
    for (k, s) in plan.samples.iter().enumerate() {
        let phi = 2.0 * std::f64::consts::PI * s.phase as f64 / 16.0;
        let value = amplitude * (s.in_phase as f64 * phi.cos() + s.quadrature as f64 * phi.sin());
        let expected = if k % 2 == 0 { 2f64.sqrt() } else { -(2f64.sqrt()) };
        assert!((value - expected).abs() < 1e-9);
    }
}

#[test]
fn end_to_end_nrz_of_in_phase_branch() {
    let first = parse_bits("10");
    assert_eq!(nrz_encoder(&first, 4), vec![1, 1, 1, 1, -1, -1, -1, -1]);
}

#[test]
fn end_to_end_length_mismatch_is_fatal() {
    let p = SimulationParameters::new(9, 1, 1).unwrap();
    let r = plan_modulation(&p, &bits("10"), Rounding::Floor);
    assert!(matches!(
        r,
        Err(ModulationError::LengthMismatch { in_phase: 4, quadrature: 4, carrier: 5 })
    ));
}

#[test]
fn end_to_end_empty_stream() {
    let p = SimulationParameters::new(8, 2, 1).unwrap();
    let plan = plan_modulation(&p, &BitVec::new(), Rounding::Floor).unwrap();
    assert!(plan.samples.is_empty());
    assert!(plan.time.is_empty());
}

#[test]
fn split_lines_drops_partial_line() {
    let signal: Vec<u32> = (1..=10).collect();
    assert_eq!(split_lines(&signal, 4), vec![vec![1, 2, 3, 4], vec![5, 6, 7, 8]]);
    assert_eq!(split_lines(&signal, 11), Vec::<Vec<u32>>::new());
    assert_eq!(split_lines(&Vec::<u32>::new(), 3), Vec::<Vec<u32>>::new());
}

#[test]
fn split_lines_round_trip_through_csv() {
    let signal: Vec<f64> = (0..12).map(|k| (k as f64 * 0.7).sin() * 1.4142135623730951).collect();
    let lines = split_lines(&signal, 4);
    let mut writer = csv::WriterBuilder::new().has_headers(false).from_writer(Vec::new());
    for line in &lines {
        let fields: Vec<String> = line.iter().map(|f| f.to_string()).collect();
        writer.write_record(&fields).unwrap();
    }
    let bytes = writer.into_inner().unwrap();
    let mut reader = csv::ReaderBuilder::new().has_headers(false).from_reader(bytes.as_slice());
    let mut read_back: Vec<Vec<f64>> = Vec::new();
    for record in reader.records() {
        let record = record.unwrap();
        read_back.push(record.iter().map(|f| f.parse::<f64>().unwrap()).collect());
    }
    assert_eq!(read_back, lines);
    let joined: Vec<f64> = read_back.concat();
    assert_eq!(joined, signal);
}
