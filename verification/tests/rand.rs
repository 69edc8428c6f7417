use extra::rand::Randomizer;

#[test]
fn rand_known_stream_seed_zero() {
    let mut rand = Randomizer::new(0);
    let got: Vec<u8> = (0..8).map(|_| rand.read_u8()).collect();
    assert_eq!(got, vec![137, 120, 142, 195, 43, 90, 179, 23]);
}

#[test]
fn rand_known_stream_seed_forty_two() {
    let mut rand = Randomizer::new(42);
    let got: Vec<u8> = (0..8).map(|_| rand.read_u8()).collect();
    assert_eq!(got, vec![165, 82, 170, 225, 23, 254, 55, 120]);
}

#[test]
fn rand_deterministic_across_instances() {
    let mut a = Randomizer::new(0xDEAD_BEEF);
    let mut b = Randomizer::new(0xDEAD_BEEF);
    for _ in 0..100 {
        assert_eq!(a.read_u8(), b.read_u8());
    }
    a.write(b"entropy");
    b.write(b"entropy");
    for _ in 0..100 {
        assert_eq!(a.read_u8(), b.read_u8());
    }
}

#[test]
fn rand_read_fills_buffer_like_read_u8() {
    let mut by_buffer = Randomizer::new(7);
    let mut by_bytes = Randomizer::new(7);
    let mut buf = vec![0u8; 32];
    by_buffer.read(&mut buf);
    for &b in buf.iter() {
        assert_eq!(b, by_bytes.read_u8());
    }
    assert_eq!(buf.len(), 32);
}

#[test]
fn rand_write_feeds_bytes_like_write_u8() {
    let mut by_buffer = Randomizer::new(7);
    let mut by_bytes = Randomizer::new(7);
    by_buffer.write(&[1, 2, 3]);
    by_bytes.write_u8(1);
    by_bytes.write_u8(2);
    by_bytes.write_u8(3);
    for _ in 0..16 {
        assert_eq!(by_buffer.read_u8(), by_bytes.read_u8());
    }
}

#[test]
fn rand_entropy_injection_changes_stream() {
    let mut plain = Randomizer::new(42);
    let mut fed = Randomizer::new(42);
    fed.write_u8(1);
    let plain_stream: Vec<u8> = (0..8).map(|_| plain.read_u8()).collect();
    let fed_stream: Vec<u8> = (0..8).map(|_| fed.read_u8()).collect();
    assert_ne!(plain_stream, fed_stream);
    assert_eq!(fed_stream, vec![83, 171, 224, 22, 216, 37, 31, 124]);
}

#[test]
fn rand_byte_fairness_sampled() {
    // Fixed seed, so the counts are reproducible; the bound leaves room over
    // the uniform expectation of 7812.5 hits per value.
    let mut hits = [0u32; 256];
    let mut rand = Randomizer::new(0);

    for _ in 0..2000000 {
        hits[rand.read_u8() as usize] += 1;
    }

    for &i in hits.iter() {
        assert!(i < 8500, "Divergence not low enough, i = {}", i);
    }
}

#[test]
fn rand_bitstream_balance_sampled() {
    // Fixed seed, so the count is reproducible; 16000000 bits, half of them
    // expected set, bounded with slack.
    let mut ones = 0u64;
    let mut rand = Randomizer::new(0);

    for _ in 0..2000000 {
        ones += rand.read_u8().count_ones() as u64;
    }

    assert!(ones <= 8050000, "Bits are biased. {} ones.", ones);
}
