use vape::games::bits::{rotate_left, rotate_right};
use vape::games::universe::{calculate_column, Universe, WIDTH};

fn xorshift(state: &mut u64) -> u64 {
    let mut x = *state;
    x ^= x << 13;
    x ^= x >> 7;
    x ^= x << 17;
    *state = x;
    x
}

fn bit(x: u64, j: usize) -> bool {
    (x >> j) & 1 == 1
}

fn reference_step(g: &[u64], splash: bool) -> Vec<u64> {
    let mut out = vec![0u64; WIDTH];
    for c in 0..WIDTH {
        for j in 0..64 {
            let mut n = 0;
            for dc in [WIDTH - 1, 0, 1] {
                for dj in [63, 0, 1] {
                    if dc == 0 && dj == 0 {
                        continue;
                    }
                    if bit(g[(c + dc) % WIDTH], (j + dj) % 64) {
                        n += 1;
                    }
                }
            }
            let alive = bit(g[c], j);
            let next = if splash {
                if alive { n <= 3 || n == 8 } else { n == 1 || n == 3 }
            } else {
                n == 3 || (n == 2 && alive)
            };
            if next {
                out[c] |= 1 << j;
            }
        }
    }
    out
}

fn columns(u: &Universe) -> Vec<u64> {
    (0..WIDTH).map(|c| u.column(c)).collect()
}

#[test]
fn rotations_match_std() {
    let mut seed = 0x1234_5678_9abc_def0u64;
    for _ in 0..100 {
        let x = xorshift(&mut seed);
        for n in [0u32, 1, 2, 13, 31, 63, 64, 77] {
            assert_eq!(rotate_left(x, n), x.rotate_left(n));
            assert_eq!(rotate_right(x, n), x.rotate_right(n));
        }
    }
}

#[test]
fn calculate_column_counts_neighbours() {
    // row 5: three live neighbours -> born; row 9: two -> survives only if alive
    let n = [1u64 << 5, 1 << 5, 1 << 5 | 1 << 9, 1 << 9, 0, 0, 0, 0];
    let r = calculate_column(1 << 9, n, false);
    assert_eq!(r, 1 << 5 | 1 << 9);
    let r = calculate_column(0, n, false);
    assert_eq!(r, 1 << 5);
    // all eight neighbours alive: dies by Conway, survives by splash
    let full = [1u64; 8];
    assert_eq!(calculate_column(1, full, false), 0);
    assert_eq!(calculate_column(1, full, true), 1);
    // splash: one neighbour gives birth
    let one = [1u64, 0, 0, 0, 0, 0, 0, 0];
    assert_eq!(calculate_column(0, one, true), 1);
    assert_eq!(calculate_column(0, one, false), 0);
}

#[test]
fn evolution_matches_reference_rule() {
    let mut seed = 0xdead_beef_cafe_f00du64;
    for splash in [false, true] {
        for _ in 0..5 {
            let g: Vec<u64> = (0..WIDTH).map(|_| xorshift(&mut seed) & xorshift(&mut seed)).collect();
            let mut u = Universe::with_columns(g.clone());
            u.evolution(splash);
            assert_eq!(columns(&u), reference_step(&g, splash));
        }
    }
}

#[test]
fn blinker_oscillates_across_the_edge() {
    // a horizontal blinker across columns 127, 0, 1 at row 0
    let mut g = vec![0u64; WIDTH];
    g[127] = 1;
    g[0] = 1;
    g[1] = 1;
    let mut u = Universe::with_columns(g.clone());
    u.evolution(false);
    let mut vertical = vec![0u64; WIDTH];
    vertical[0] = 1 | 1 << 1 | 1 << 63;
    assert_eq!(columns(&u), vertical);
    u.evolution(false);
    assert_eq!(columns(&u), g);
}

#[test]
fn armageddon_and_empty_board() {
    let mut u = Universe::with_columns(vec![u64::MAX; WIDTH]);
    u.armageddon();
    assert_eq!(columns(&u), vec![0u64; WIDTH]);
    u.evolution(false);
    assert_eq!(columns(&u), vec![0u64; WIDTH]);
    assert_eq!(columns(&Universe::new()), vec![0u64; WIDTH]);
}

fn reference_sprinkle(source: u64, i: u32) -> u64 {
    let s1 = source.rotate_left((i * 7 + 13) % 64);
    let s2 = source.rotate_right((i * 11 + 29) % 64);
    let s3 = source.rotate_left((i * 19 + 43) % 64);
    let s4 = (source ^ s1).rotate_right(31);
    source & s1 & s2 & s3 & s4
}

#[test]
fn sow_sprinkles_strips() {
    let mut seed = 0x0bad_5eed_0bad_5eedu64;
    let start: Vec<u64> = (0..WIDTH).map(|_| xorshift(&mut seed) & xorshift(&mut seed) & xorshift(&mut seed)).collect();
    let (atom, iron, spin, muon) = (xorshift(&mut seed), xorshift(&mut seed), xorshift(&mut seed), xorshift(&mut seed));
    let seeds = [
        atom & iron, !atom & iron, atom & !iron, !atom & !iron,
        spin & muon, !spin & muon, spin & !muon, !spin & !muon,
    ];
    let mut u = Universe::with_columns(start.clone());
    u.sow(atom, iron, spin, muon);
    for c in 0..WIDTH {
        assert_eq!(u.column(c), start[c] | reference_sprinkle(seeds[c / 16], (c % 16) as u32));
    }
    // a seed of all ones sprinkles nothing: it agrees with every rotation of itself
    let mut v = Universe::new();
    v.sow(u64::MAX, u64::MAX, 0, 0);
    assert_eq!(columns(&v), vec![0u64; WIDTH]);
}

#[test]
fn sow_abundantly_fills_groups() {
    let mut u = Universe::with_columns(vec![7u64; WIDTH]);
    let atom = 0x0f0f_0000_0000_0001u64;
    let iron = 0xffff_0000_ffff_0000u64;
    u.sow_abundantly(atom, iron);
    let mut a = atom;
    for t in 0..4 {
        let base = 32 * t;
        assert_eq!(u.column(base), a & iron);
        assert_eq!(u.column(base + 1), !a & iron);
        assert_eq!(u.column(base + 2), a & !iron);
        assert_eq!(u.column(base + 3), !a & !iron);
        assert_eq!(u.column(base + 4), 7);
        a = a.rotate_left(2);
    }
}

#[test]
fn evolve_gives_frame_bytes() {
    let mut u = Universe::new();
    let bytes = u.evolve(0, 0, 0, 0, false);
    // seeds of zero words: !0 & !0 is all ones in strips 3 and 7
    assert_eq!(bytes.len(), 8 * WIDTH);
    let mut g = vec![0u64; WIDTH];
    let mut reference = Universe::new();
    reference.sow(0, 0, 0, 0);
    for c in 0..WIDTH {
        g[c] = reference.column(c);
    }
    assert_eq!(columns(&u), reference_step(&g, false));
    for c in 0..WIDTH {
        let word = u.column(c);
        let expected = word.to_ne_bytes();
        assert_eq!(&bytes[8 * c..8 * c + 8], &expected[..]);
    }
}

#[test]
fn splash_every_two_seconds() {
    let mut u = Universe::new();
    assert!(!u.splash_due(false, 5000));
    assert!(!u.splash_due(true, 2043));
    assert!(u.splash_due(true, 2044));
    assert_eq!(u.last_splash(), 2044);
    assert!(!u.splash_due(true, 4000));
    assert!(u.splash_due(true, 4088));
}

#[test]
fn blinker_across_the_edge() {
    let mut g = vec![0u64; WIDTH];
    g[WIDTH - 1] = 1u64 << 10;
    g[0] = 1u64 << 10;
    g[1] = 1u64 << 10;
    let mut u = Universe::with_columns(g);
    u.evolution(false);
    assert_eq!(u.column(0), 0b111u64 << 9);
    for c in 1..WIDTH {
        assert_eq!(u.column(c), 0);
    }
    u.evolution(false);
    assert_eq!(u.column(WIDTH - 1), 1u64 << 10);
    assert_eq!(u.column(0), 1u64 << 10);
    assert_eq!(u.column(1), 1u64 << 10);
}
