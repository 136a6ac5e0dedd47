use druzhba_logic::cw_keyer::{CwKeyer, KeyerOutput};
use druzhba_logic::paddle::PaddleDebounce;
use druzhba_logic::arbiters::mode::ModeCommand;
use druzhba_logic::keying::{Keying, KeyingAction};
use druzhba_logic::types::{CwKeyMode, TransmitMode};

fn run(k: &mut CwKeyer, dit: bool, dah: bool, ticks: usize) -> Vec<KeyerOutput> {
    (0..ticks).map(|_| k.tick(dit, dah)).collect()
}

#[test]
fn iambic_dit_keys_for_dit_length_then_gap() {
    let mut k = CwKeyer::new();
    // 20 WPM, 50% weight: a dit is 60 ticks on, 60 ticks off.
    let first = k.tick(true, false);
    assert_eq!(first.key_changed, Some(true));
    assert_eq!(first.tx_changed, Some(true));
    let outs = run(&mut k, false, false, 60);
    for o in &outs[..59] {
        assert_eq!(o.key_changed, None);
    }
    assert_eq!(outs[59].key_changed, Some(false));
    assert_eq!(outs[59].tx_changed, None);
    // gap of 60 ticks, then hanging; nothing pressed
    let gap = run(&mut k, false, false, 60);
    assert!(gap.iter().all(|o| o.key_changed.is_none() && o.tx_changed.is_none()));
    // hang time of 500 ticks, then transmit drops on the following tick
    let hang = run(&mut k, false, false, 501);
    assert!(hang[..500].iter().all(|o| o.tx_changed.is_none()));
    assert_eq!(hang[500].tx_changed, Some(false));
}

#[test]
fn iambic_dah_is_three_dits() {
    let mut k = CwKeyer::new();
    let first = k.tick(false, true);
    assert_eq!(first.key_changed, Some(true));
    let outs = run(&mut k, false, false, 180);
    assert!(outs[..179].iter().all(|o| o.key_changed.is_none()));
    assert_eq!(outs[179].key_changed, Some(false));
}

#[test]
fn iambic_b_squeeze_alternates_elements() {
    let mut k = CwKeyer::new();
    k.set_wpm(60); // dit 20 ticks
    let mut downs = Vec::new();
    let mut t = 0;
    let mut last_down = None;
    for _ in 0..400 {
        let o = k.tick(true, true);
        if o.key_changed == Some(true) {
            last_down = Some(t);
        }
        if o.key_changed == Some(false) {
            downs.push(t - last_down.unwrap());
        }
        t += 1;
    }
    // dit, dah, dit, dah ...: key-down lengths alternate 20 and 60 ticks
    assert!(downs.len() >= 3);
    assert_eq!(downs[0], 20);
    assert_eq!(downs[1], 60);
    assert_eq!(downs[2], 20);
}

#[test]
fn straight_key_follows_the_contact() {
    let mut k = CwKeyer::new();
    k.set_mode(CwKeyMode::Straight);
    k.set_hang_ticks(3);
    let o = k.tick(true, false);
    assert_eq!((o.key_changed, o.tx_changed), (Some(true), Some(true)));
    let o = k.tick(true, false);
    assert_eq!((o.key_changed, o.tx_changed), (None, None));
    let o = k.tick(false, false);
    assert_eq!((o.key_changed, o.tx_changed), (Some(false), None));
    for _ in 0..3 {
        let o = k.tick(false, false);
        assert_eq!((o.key_changed, o.tx_changed), (None, None));
    }
    let o = k.tick(false, false);
    assert_eq!((o.key_changed, o.tx_changed), (None, Some(false)));
}

#[test]
fn tick_definedness_follows_timing() {
    let mut k = CwKeyer::new();
    assert!(k.tick_is_defined(true, false));
    k.set_weight(100); // a dit of 120 ticks and no gap after it
    let _ = k.tick(true, false);
    for _ in 0..119 {
        assert!(k.tick_is_defined(false, false));
        let _ = k.tick(false, false);
    }
    // the element ends now and its gap would be zero ticks long: fine to end,
    assert!(k.tick_is_defined(false, false));
    let _ = k.tick(false, false);
    // but the zero-length gap cannot be counted down.
    assert!(!k.tick_is_defined(false, false));
}

#[test]
fn paddle_level_needs_two_samples() {
    let mut d = PaddleDebounce::new();
    d.update(true, false);
    assert!(!d.dit_stable());
    d.update(true, false);
    assert!(d.dit_stable());
    d.update(false, true);
    assert!(d.dit_stable());
    assert!(!d.dah_stable());
    d.update(true, false); // glitch back: count restarts
    d.update(false, false);
    assert!(d.dit_stable());
    d.update(false, false);
    assert!(!d.dit_stable());
}

#[test]
fn keying_runs_only_in_cw() {
    let mut k = Keying::new();
    assert!(k.sample_is_defined(true, false));
    for _ in 0..5 {
        assert_eq!(k.sample(true, false), KeyingAction { sidetone: None, mode: None });
    }
    k.on_transmit_mode(TransmitMode::Cw);
    // the first closed sample is still being debounced
    assert_eq!(k.sample(true, false), KeyingAction { sidetone: None, mode: None });
    // the second adopts it: the key goes down and transmit is requested
    assert_eq!(
        k.sample(true, false),
        KeyingAction { sidetone: Some(true), mode: Some(ModeCommand::CwKeyDown) }
    );
}

#[test]
fn swapped_paddles_key_a_dah_from_the_dit_contact() {
    let mut k = Keying::new();
    k.on_transmit_mode(TransmitMode::Cw);
    k.swap = true;
    k.sample(true, false);
    let a = k.sample(true, false);
    assert_eq!(a.sidetone, Some(true));
    // a dah lasts 180 ticks at 20 WPM; release and count the key-down time
    let mut ticks = 1;
    loop {
        let a = k.sample(false, false);
        if a.sidetone == Some(false) {
            break;
        }
        ticks += 1;
    }
    assert_eq!(ticks, 180);
}

#[test]
fn straight_key_ignores_dah_speed_and_weight() {
    let mut a = CwKeyer::new();
    let mut b = CwKeyer::new();
    a.set_mode(CwKeyMode::Straight);
    b.set_mode(CwKeyMode::Straight);
    b.set_wpm(40);
    b.set_weight(70);
    let pattern = [true, true, false, false, true, false, false, false];
    for (i, &d) in pattern.iter().cycle().take(200).enumerate() {
        let oa = a.tick(d, i % 3 == 0);
        let ob = b.tick(d, false);
        assert_eq!((oa.key_changed, oa.tx_changed), (ob.key_changed, ob.tx_changed));
    }
}

#[test]
fn open_paddles_release_key_and_transmit() {
    let mut k = CwKeyer::new();
    k.set_hang_ticks(10);
    // a dit with a dah remembered: 60 + 60 gap + 180 dah + 60 gap + 11 hang
    let mut reports = Vec::new();
    let o = k.tick(true, false);
    reports.push((o.key_changed, o.tx_changed));
    let o = k.tick(false, true);
    reports.push((o.key_changed, o.tx_changed));
    for _ in 0..(60 + 60 + 180 + 60 + 11) {
        let o = k.tick(false, false);
        reports.push((o.key_changed, o.tx_changed));
    }
    let keys: Vec<bool> = reports.iter().filter_map(|r| r.0).collect();
    assert_eq!(keys, vec![true, false, true, false]);
    let txs: Vec<bool> = reports.iter().filter_map(|r| r.1).collect();
    assert_eq!(txs, vec![true, false]);
    let o = k.tick(false, false);
    assert_eq!((o.key_changed, o.tx_changed), (None, None));
}
