use ao::pipeline::{
    clamp_i16, clamp_i32, clamp_i8, i16_to_i8, i32_to_i16, i32_to_i8, Convert, DeviceSink,
    Source, Transfer, WhiteNoise, BLOCK_SIZE,
};
use ao::{Device, Write};
use rand::{SeedableRng, StdRng};

/// Yields the blocks it was given, one by one, and counts the calls.
struct Blocks<T> {
    blocks: Vec<Vec<T>>,
    next: usize,
    calls: usize,
}

impl<T> Blocks<T> {
    fn new(blocks: Vec<Vec<T>>) -> Blocks<T> {
        Blocks { blocks, next: 0, calls: 0 }
    }
}

impl<T: Clone> Source<T> for Blocks<T> {
    fn next(&mut self) -> Option<Vec<T>> {
        self.calls += 1;
        if self.next < self.blocks.len() {
            self.next += 1;
            Some(self.blocks[self.next - 1].clone())
        } else {
            None
        }
    }
}

/// Pulls from a source that it has only borrowed.
struct Borrowed<'a, T>(&'a mut Blocks<T>);

impl<'a, T: Clone> Source<T> for Borrowed<'a, T> {
    fn next(&mut self) -> Option<Vec<T>> {
        self.0.next()
    }
}

/// Yields blocks of one length without end.
struct Endless {
    len: usize,
    calls: usize,
}

impl Source<i16> for Endless {
    fn next(&mut self) -> Option<Vec<i16>> {
        self.calls += 1;
        Some(vec![7; self.len])
    }
}

fn seeded(seed: usize) -> StdRng {
    let seed = [seed, 2, 3, 4];
    SeedableRng::from_seed(&seed[..])
}

/// Runs a sink as its caller does: turn by turn, until it has nothing more
/// to forward. Gives the count and the length of each block forwarded.
fn run<S: Source<i16>>(sink: &mut DeviceSink<i16, S>, samples: usize) -> (usize, Vec<usize>) {
    let mut transfer = Transfer::new(samples);
    let mut lens = Vec::new();
    while let Some(forward) = sink.step(&mut transfer) {
        assert_eq!(forward.write.device, sink.id());
        assert_eq!(forward.write.num_bytes as usize, forward.block.len() * 2);
        lens.push(forward.block.len());
    }
    (transfer.done(), lens)
}

#[test]
fn narrowing_keeps_the_high_bits() {
    assert_eq!(i32_to_i16(0), 0);
    assert_eq!(i32_to_i16(65535), 0);
    assert_eq!(i32_to_i16(65536), 1);
    assert_eq!(i32_to_i16(0x1234_5678), 0x1234);
    assert_eq!(i32_to_i16(i32::MAX), i16::MAX);
    assert_eq!(i32_to_i16(i32::MIN), i16::MIN);
    assert_eq!(i32_to_i8(0x1234_5678), 0x12);
    assert_eq!(i32_to_i8(i32::MAX), i8::MAX);
    assert_eq!(i32_to_i8(i32::MIN), i8::MIN);
    assert_eq!(i32_to_i8(0x00ff_ffff), 0);
    assert_eq!(i16_to_i8(0x1234), 0x12);
    assert_eq!(i16_to_i8(255), 0);
    assert_eq!(i16_to_i8(256), 1);
    assert_eq!(i16_to_i8(i16::MAX), i8::MAX);
    assert_eq!(i16_to_i8(i16::MIN), i8::MIN);
}

#[test]
fn narrowing_rounds_down() {
    assert_eq!(i32_to_i16(-1), -1);
    assert_eq!(i32_to_i16(-65536), -1);
    assert_eq!(i32_to_i16(-65537), -2);
    assert_eq!(i32_to_i16(-131072), -2);
    assert_eq!(i32_to_i8(-1), -1);
    assert_eq!(i32_to_i8(-0x100_0000), -1);
    assert_eq!(i32_to_i8(-0x100_0001), -2);
    assert_eq!(i16_to_i8(-1), -1);
    assert_eq!(i16_to_i8(-256), -1);
    assert_eq!(i16_to_i8(-257), -2);
}

#[test]
fn blocks_are_converted_sample_by_sample() {
    let block = vec![0, 65536, -65536, i32::MAX, i32::MIN, 0x0001_ffff];
    assert_eq!(Convert::<i32, i16>::convert(&block), vec![0, 1, -1, i16::MAX, i16::MIN, 1]);
    assert_eq!(Convert::<i32, i8>::convert(&block), vec![0, 0, -1, i8::MAX, i8::MIN, 0]);
    let narrow = vec![0i16, 256, -256, i16::MAX, i16::MIN, 511];
    assert_eq!(Convert::<i16, i8>::convert(&narrow), vec![0, 1, -1, i8::MAX, i8::MIN, 1]);
    assert_eq!(Convert::<i32, i16>::convert(&Vec::new()), Vec::<i16>::new());
}

#[test]
fn a_stage_converts_each_block_of_its_source() {
    let source = Blocks::new(vec![vec![65536, 131072], vec![], vec![-1]]);
    let mut stage: Convert<i32, i16> = Convert::new(Box::new(source));
    assert_eq!(stage.next(), Some(vec![1, 2]));
    assert_eq!(stage.next(), Some(vec![]));
    assert_eq!(stage.next(), Some(vec![-1]));
    assert_eq!(stage.next(), None);
    assert_eq!(stage.next(), None);

    let source = Blocks::new(vec![vec![0x7f00_0000, -0x8000_0000]]);
    let mut stage: Convert<i32, i8> = Convert::new(Box::new(source));
    assert_eq!(stage.next(), Some(vec![127, -128]));
    assert_eq!(stage.next(), None);

    let source = Blocks::new(vec![vec![0x7f00i16, -0x8000]]);
    let mut stage: Convert<i16, i8> = Convert::new(Box::new(source));
    assert_eq!(stage.next(), Some(vec![127, -128]));
    assert_eq!(stage.next(), None);
}

#[test]
fn a_stage_relays_what_its_source_yields() {
    assert_eq!(Convert::<i32, i16>::relay(None), None);
    assert_eq!(Convert::<i32, i8>::relay(None), None);
    assert_eq!(Convert::<i16, i8>::relay(None), None);
    assert_eq!(Convert::<i32, i16>::relay(Some(vec![])), Some(vec![]));
    assert_eq!(
        Convert::<i32, i16>::relay(Some(vec![65536, -1, i32::MAX])),
        Some(vec![1, -1, i16::MAX])
    );
    assert_eq!(
        Convert::<i32, i8>::relay(Some(vec![0x0100_0000, -1, i32::MIN])),
        Some(vec![1, -1, i8::MIN])
    );
    assert_eq!(Convert::<i16, i8>::relay(Some(vec![256, -1, 255])), Some(vec![1, -1, 0]));
}

#[test]
fn a_stage_can_name_the_type_of_its_source() {
    let source = Blocks::new(vec![vec![65536, -65536], vec![3]]);
    let mut stage: Convert<i32, i16, Blocks<i32>> = Convert::new(Box::new(source));
    assert_eq!(stage.next(), Some(vec![1, -1]));
    assert_eq!(stage.next(), Some(vec![0]));
    assert_eq!(stage.next(), None);

    let dynamic: Box<dyn Source<i32>> = Box::new(Blocks::new(vec![vec![131072]]));
    let mut stage: Convert<i32, i16> = Convert::new(dynamic);
    assert_eq!(stage.next(), Some(vec![2]));
    assert_eq!(stage.next(), None);
}

#[test]
fn a_stage_asks_its_source_once_for_each_block() {
    let mut source = Blocks::new(vec![vec![1i32 << 16], vec![2 << 16]]);
    {
        let borrowed: Box<dyn Source<i32> + '_> = Box::new(Borrowed(&mut source));
        let mut stage: Convert<i32, i16> = Convert::new(borrowed);
        assert_eq!(stage.next(), Some(vec![1]));
    }
    assert_eq!(source.calls, 1);
    {
        let borrowed: Box<dyn Source<i32> + '_> = Box::new(Borrowed(&mut source));
        let mut stage: Convert<i32, i16> = Convert::new(borrowed);
        assert_eq!(stage.next(), Some(vec![2]));
        assert_eq!(stage.next(), None);
    }
    assert_eq!(source.calls, 3);
}

#[test]
fn stages_chain() {
    let source = Blocks::new(vec![vec![0x1234_5678, -1]]);
    let first: Convert<i32, i16> = Convert::new(Box::new(source));
    let mut second: Convert<i16, i8> = Convert::new(Box::new(first));
    assert_eq!(second.next(), Some(vec![0x12, -1]));
    assert_eq!(second.next(), None);
}

#[test]
fn a_transfer_counts_what_it_takes() {
    let mut transfer = Transfer::new(10);
    assert_eq!(transfer.wanted(), 10);
    assert_eq!(transfer.done(), 0);
    assert!(!transfer.is_finished());
    assert_eq!(transfer.take(vec![1, 2, 3, 4]), vec![1, 2, 3, 4]);
    assert_eq!(transfer.done(), 4);
    assert_eq!(transfer.take(Vec::<i16>::new()), Vec::<i16>::new());
    assert_eq!(transfer.done(), 4);
    assert_eq!(transfer.take(vec![5, 6, 7, 8, 9, 10, 11, 12]), vec![5, 6, 7, 8, 9, 10]);
    assert_eq!(transfer.done(), 10);
    assert_eq!(transfer.wanted(), 10);
    assert!(transfer.is_finished());
    assert_eq!(transfer.take(vec![13, 14]), Vec::<i32>::new());
    assert_eq!(transfer.done(), 10);
}

#[test]
fn a_transfer_of_nothing_is_finished() {
    let mut transfer = Transfer::new(0);
    assert!(transfer.is_finished());
    assert_eq!(transfer.take(vec![1u8]), Vec::<u8>::new());
    assert_eq!(transfer.done(), 0);
}

#[test]
fn a_block_of_the_exact_length_is_not_cut() {
    let mut transfer = Transfer::new(3);
    assert_eq!(transfer.take(vec![1, 2, 3]), vec![1, 2, 3]);
    assert!(transfer.is_finished());
}

#[test]
fn a_thousand_samples_from_blocks_of_512() {
    let device = Device::<i16>::init(5, 0).unwrap();
    let mut sink = DeviceSink::new(device, Endless { len: 512, calls: 0 });
    let mut transfer = Transfer::new(1000);
    let first = sink.step(&mut transfer).unwrap();
    assert_eq!(first.block.len(), 512);
    assert_eq!(first.write, Write { device: 5, num_bytes: 1024 });
    assert_eq!(transfer.done(), 512);
    let second = sink.step(&mut transfer).unwrap();
    assert_eq!(second.block.len(), 488);
    assert_eq!(second.write, Write { device: 5, num_bytes: 976 });
    assert_eq!(transfer.done(), 1000);
    assert!(sink.step(&mut transfer).is_none());
    assert_eq!(transfer.done(), 1000);
}

#[test]
fn a_run_forwards_what_was_asked_for() {
    let device = Device::<i16>::init(6, 0).unwrap();
    let mut sink = DeviceSink::new(device, Endless { len: 512, calls: 0 });
    assert_eq!(run(&mut sink, 1000), (1000, vec![512, 488]));
    assert_eq!(run(&mut sink, 512), (512, vec![512]));
    assert_eq!(run(&mut sink, 1), (1, vec![1]));
    assert_eq!(run(&mut sink, 1536), (1536, vec![512, 512, 512]));
    assert_eq!(run(&mut sink, 0), (0, vec![]));
}

#[test]
fn a_run_stops_when_the_source_is_exhausted() {
    let device = Device::<i16>::init(7, 0).unwrap();
    let source = Blocks::new(vec![vec![1; 300], vec![2; 300], vec![3; 100]]);
    let mut sink = DeviceSink::new(device, source);
    assert_eq!(run(&mut sink, 1000), (700, vec![300, 300, 100]));
    assert_eq!(run(&mut sink, 1000), (0, vec![]));

    let source = Blocks::new(vec![vec![1; 300], vec![2; 300], vec![3; 100]]);
    let mut sink = DeviceSink::new(Device::<i16>::init(8, 0).unwrap(), source);
    assert_eq!(run(&mut sink, 700), (700, vec![300, 300, 100]));

    let source = Blocks::new(vec![vec![1; 300], vec![2; 300], vec![3; 100]]);
    let mut sink = DeviceSink::new(Device::<i16>::init(9, 0).unwrap(), source);
    assert_eq!(run(&mut sink, 650), (650, vec![300, 300, 50]));

    let mut sink = DeviceSink::new(Device::<i16>::init(9, 0).unwrap(), Blocks::new(vec![]));
    assert_eq!(run(&mut sink, 10), (0, vec![]));
}

#[test]
fn a_run_goes_on_after_an_empty_block() {
    let device = Device::<i16>::init(10, 0).unwrap();
    let source = Blocks::new(vec![vec![], vec![1; 4], vec![], vec![2; 4]]);
    let mut sink = DeviceSink::new(device, source);
    assert_eq!(run(&mut sink, 6), (6, vec![0, 4, 0, 2]));
}

#[test]
fn a_finished_transfer_pulls_nothing() {
    let device = Device::<i16>::init(11, 0).unwrap();
    let mut sink = DeviceSink::new(device, Endless { len: 4, calls: 0 });
    let mut transfer = Transfer::new(0);
    assert!(sink.step(&mut transfer).is_none());
    let mut transfer = Transfer::new(4);
    assert!(sink.step(&mut transfer).is_some());
    assert!(sink.step(&mut transfer).is_none());
    assert!(sink.step(&mut transfer).is_none());
    assert_eq!(transfer.done(), 4);
}

#[test]
fn the_forwarded_block_holds_the_first_samples() {
    let device = Device::<i16>::init(12, 0).unwrap();
    let source = Blocks::new(vec![vec![1, 2, 3], vec![4, 5, 6]]);
    let mut sink = DeviceSink::new(device, source);
    let mut transfer = Transfer::new(5);
    assert_eq!(sink.step(&mut transfer).unwrap().block, vec![1, 2, 3]);
    assert_eq!(sink.step(&mut transfer).unwrap().block, vec![4, 5]);
    assert!(sink.step(&mut transfer).is_none());
}

#[test]
fn clamping_keeps_what_fits() {
    assert_eq!(clamp_i16(0), 0);
    assert_eq!(clamp_i16(32767), 32767);
    assert_eq!(clamp_i16(-32768), -32768);
    assert_eq!(clamp_i16(-1), -1);
    assert_eq!(clamp_i8(127), 127);
    assert_eq!(clamp_i8(-128), -128);
    assert_eq!(clamp_i8(5), 5);
    assert_eq!(clamp_i32(2147483647), i32::MAX);
    assert_eq!(clamp_i32(-2147483648), i32::MIN);
    assert_eq!(clamp_i32(-12345), -12345);
}

#[test]
fn clamping_cuts_what_does_not_fit() {
    assert_eq!(clamp_i16(32768), 32767);
    assert_eq!(clamp_i16(-32769), -32768);
    assert_eq!(clamp_i16(i64::MAX), 32767);
    assert_eq!(clamp_i16(i64::MIN), -32768);
    assert_eq!(clamp_i8(128), 127);
    assert_eq!(clamp_i8(-129), -128);
    assert_eq!(clamp_i8(i64::MAX), 127);
    assert_eq!(clamp_i32(2147483648), i32::MAX);
    assert_eq!(clamp_i32(-2147483649), i32::MIN);
    assert_eq!(clamp_i32(i64::MIN), i32::MIN);
}

#[test]
fn a_block_of_noise_is_shaped_from_what_was_drawn() {
    let raw = vec![0, 1, -1, 40000, -40000, i64::MAX, i64::MIN, 127, 128];
    assert_eq!(
        WhiteNoise::<i16>::shape(&raw),
        vec![0, 1, -1, 32767, -32768, 32767, -32768, 127, 128]
    );
    assert_eq!(WhiteNoise::<i8>::shape(&raw), vec![0, 1, -1, 127, -128, 127, -128, 127, 127]);
    assert_eq!(
        WhiteNoise::<i32>::shape(&raw),
        vec![0, 1, -1, 40000, -40000, i32::MAX, i32::MIN, 127, 128]
    );
    assert_eq!(WhiteNoise::<i16>::shape(&Vec::new()), Vec::<i16>::new());
}

#[test]
fn noise_comes_in_blocks_of_512_without_end() {
    assert_eq!(BLOCK_SIZE, 512);
    let mut rng = seeded(1);
    let mut noise = WhiteNoise::<i16>::new(&mut rng, 32767);
    for _ in 0..20 {
        assert_eq!(noise.next().unwrap().len(), 512);
    }
    let mut rng = seeded(2);
    let mut wide = WhiteNoise::<i32>::new(&mut rng, i32::MAX);
    assert_eq!(wide.next().unwrap().len(), 512);
    let mut rng = seeded(3);
    let mut narrow = WhiteNoise::<i8>::new(&mut rng, 127);
    assert_eq!(narrow.next().unwrap().len(), 512);
}

#[test]
fn noise_of_no_amplitude_is_silence() {
    let mut rng = seeded(4);
    let mut noise = WhiteNoise::<i16>::new(&mut rng, 0);
    assert_eq!(noise.next().unwrap(), vec![0i16; 512]);
    let mut rng = seeded(4);
    let mut small = WhiteNoise::<i16>::new(&mut rng, 2);
    assert_eq!(small.next().unwrap(), vec![0i16; 512]);
}

#[test]
fn noise_varies() {
    let mut rng = seeded(5);
    let mut noise = WhiteNoise::<i16>::new(&mut rng, 32767);
    let block = noise.next().unwrap();
    assert!(block.iter().any(|&s| s > 0));
    assert!(block.iter().any(|&s| s < 0));
    let other = noise.next().unwrap();
    assert_ne!(block, other);
}

#[test]
fn the_deviation_of_noise_is_a_third_of_its_amplitude() {
    let mut rng = seeded(6);
    let mut noise = WhiteNoise::<i16>::new(&mut rng, 30000);
    let mut samples: Vec<f64> = Vec::new();
    while samples.len() < 100_000 {
        for s in noise.next().unwrap() {
            assert!(s >= i16::MIN && s <= i16::MAX);
            samples.push(s as f64);
        }
    }
    let n = samples.len() as f64;
    let mean = samples.iter().sum::<f64>() / n;
    let variance = samples.iter().map(|s| (s - mean) * (s - mean)).sum::<f64>() / n;
    let deviation = variance.sqrt();
    assert!(mean.abs() < 200.0, "mean {}", mean);
    assert!((deviation - 10000.0).abs() < 300.0, "deviation {}", deviation);
}

#[test]
fn noise_that_overshoots_is_clamped() {
    let mut rng = seeded(7);
    let mut noise = WhiteNoise::<i8>::new(&mut rng, 127);
    let mut clipped = 0;
    let mut total = 0;
    for _ in 0..200 {
        for s in noise.next().unwrap() {
            total += 1;
            if s == i8::MAX || s == i8::MIN {
                clipped += 1;
            }
        }
    }
    assert_eq!(total, 200 * 512);
    assert!(clipped > 0);
    assert!(clipped < total / 50);
}

#[test]
fn noise_feeds_a_device_through_a_stage() {
    let mut rng = seeded(8);
    let noise = WhiteNoise::<i32>::new(&mut rng, i32::MAX);
    let stage: Convert<i32, i16> = Convert::new(Box::new(noise));
    let device = Device::<i16>::init(99, 0).unwrap();
    let mut sink = DeviceSink::new(device, stage);
    assert_eq!(run(&mut sink, 44100).0, 44100);
    let (done, lens) = run(&mut sink, 1000);
    assert_eq!(done, 1000);
    assert_eq!(lens, vec![512, 488]);
}
