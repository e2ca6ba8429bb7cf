use bsp_raspi3b1_2::filters::Filter;
use bsp_raspi3b1_2::filters::LowPassFilter;
use bsp_raspi3b1_2::instrument::Instrument;
use bsp_raspi3b1_2::instrument::left_gain;
use bsp_raspi3b1_2::instrument::right_gain;
use bsp_raspi3b1_2::interface::Interface;
use bsp_raspi3b1_2::interface::InterfaceInput;
use bsp_raspi3b1_2::interface::InstrumentPresetLoading;
use bsp_raspi3b1_2::interface::LiveChannel;
use bsp_raspi3b1_2::interface::LiveInterface;
use bsp_raspi3b1_2::interface::LiveInterfaceState;
use bsp_raspi3b1_2::oscillators::AdsrHandler;
use bsp_raspi3b1_2::oscillators::Oscillator;
use bsp_raspi3b1_2::oscillators::OscillatorMix;
use bsp_raspi3b1_2::oscillators::SoundSource;
use bsp_raspi3b1_2::oscillators::WaveShape;
use bsp_raspi3b1_2::oscillators::scale_amplitude;

fn channels(n: usize) -> Vec<LiveChannel> {
    (0..n).map(|_| LiveChannel { instrument: Instrument::new() }).collect()
}

#[test]
fn wave_shapes() {
    assert_eq!(WaveShape::Saw.tick(12345, 0), 12345);
    assert_eq!(WaveShape::Saw.tick(u32::MAX, 1), 0); // phase wraps the period
    assert_eq!(WaveShape::Square.tick(0, 0), 0);
    assert_eq!(WaveShape::Square.tick(0x8000_0000, 0), u32::MAX);
    assert_eq!(WaveShape::Sinus.tick(0x4000_0000, 0), 0x8000_0000);
    assert_eq!(WaveShape::Sinus.tick(0, 0), 0);
    // The triangle comes back down in the second half period.
    assert_eq!(WaveShape::Sinus.tick(u32::MAX, 0), 0);
    // Noise is deterministic in the period position.
    assert_eq!(WaveShape::Noise.tick(42, 0), WaveShape::Noise.tick(40, 2));
}

#[test]
fn amplitude_scaling() {
    assert_eq!(scale_amplitude(1000, u32::MAX), 1000);
    assert_eq!(scale_amplitude(1000, 0), 0);
    assert_eq!(scale_amplitude(u32::MAX, u32::MAX), u32::MAX);
    assert_eq!(scale_amplitude(1000, u32::MAX / 2), 499);
}

#[test]
fn oscillator_tick_applies_volume_and_reversal() {
    let mut o = Oscillator::default();
    o.shape = WaveShape::Saw;
    o.volume = u32::MAX;
    assert_eq!(o.tick(100), 100);
    o.volume = 0;
    assert_eq!(o.tick(100), 0);
    o.volume = u32::MAX;
    o.reversed_shape = true;
    assert_eq!(o.tick(100), u32::MAX - 100);
}

#[test]
fn adsr_feed_passes_signal_through() {
    let a = AdsrHandler { attack: 1, decay: 2, sustain: 3, release: 4 };
    let mut sig = 777u32;
    a.feed(&mut sig);
    assert_eq!(sig, 777);
}

#[test]
fn mix_even_volume_and_sum() {
    let mut saw = Oscillator::default();
    saw.shape = WaveShape::Saw;
    let mut mix = OscillatorMix(vec![saw, saw]);
    mix.even_volume();
    assert_eq!(mix.0[0].volume, u32::MAX / 2);
    assert_eq!(mix.0[1].volume, u32::MAX / 2);
    // Two half-volume saws at position 1000 give twice 499.
    assert_eq!(mix.tick(1000), 998);
}

#[test]
fn low_pass_filter_clamps_at_cutoff() {
    let mut f = LowPassFilter::new();
    assert_eq!(f.feed(123456), 123456);
    f.set_cutoff(1000);
    assert_eq!(f.get_cutoff(), 1000);
    assert_eq!(f.feed(123456), 1000);
    assert_eq!(f.feed(999), 999);
    f.set_peak(5);
    f.set_att_level(6);
    assert_eq!(f.get_peak(), 5);
    assert_eq!(f.get_att_level(), 6);
    assert_eq!(f.get_cutoff(), 1000);
}

#[test]
fn balance_gains() {
    assert_eq!(left_gain(i32::MIN), u32::MAX);
    assert_eq!(right_gain(i32::MIN), 0);
    assert_eq!(left_gain(i32::MAX), 0);
    assert_eq!(right_gain(i32::MAX), u32::MAX);
}

#[test]
fn instrument_press_and_release() {
    let mut ins = Instrument::new();
    ins.press(99, 4);
    assert!(ins.pressed);
    assert_eq!(ins.velocity, Some(99));
    assert_eq!(ins.count_incr, u32::MAX / 4);
    assert_eq!(ins.count, 0);
    ins.release();
    assert!(!ins.pressed);
    assert_eq!(ins.velocity, None);
}

#[test]
fn instrument_builds_and_ticks() {
    let mut ins = Instrument::new();
    ins.add_oscillator();
    // A full-left saw at full volume.
    let mut osc = ins.oscillators[0];
    osc.shape = WaveShape::Saw;
    ins.oscillators[0] = osc;
    ins.set_osc_balance(0, i32::MIN);
    ins.press(1, 1);
    ins.count = 1000;
    let (l, r) = ins.tick();
    assert_eq!(l, 1000); // 1000 scaled by the full left gain (unity)
    assert_eq!(r, 0); // and silent on the right
    // The period counter advanced by its increment.
    assert_eq!(ins.count, 1000u32.wrapping_add(u32::MAX));
}

#[test]
fn instrument_filter_chain_clamps() {
    let mut ins = Instrument::new();
    ins.add_oscillator();
    let mut osc = ins.oscillators[0];
    osc.shape = WaveShape::Saw;
    ins.oscillators[0] = osc;
    let mut f = LowPassFilter::new();
    f.set_cutoff(500);
    ins.add_filter(0, f);
    ins.add_flt_adsr(0, AdsrHandler { attack: 0, decay: 0, sustain: 0, release: 0 });
    ins.count = 100_000;
    let (l, _) = ins.tick();
    assert_eq!(l, 500);
}

#[test]
fn preset_browser_wraps_both_ways() {
    let mut p = InstrumentPresetLoading::new();
    p.load_instruments_preset_bank(vec!["warm".to_string(), "cold".to_string(), "raw".to_string()]);
    assert_eq!(p.selected_preset, 0);
    p.next_preset();
    assert_eq!(p.selected_preset, 1);
    p.next_preset();
    assert_eq!(p.selected_preset, 2);
    p.next_preset();
    assert_eq!(p.selected_preset, 0);
    p.prev_preset();
    assert_eq!(p.selected_preset, 2);
    p.prev_preset();
    assert_eq!(p.selected_preset, 1);
}

#[test]
fn hover_wraps_around_channels() {
    let mut live = LiveInterface::new(channels(3));
    assert_eq!(live.hover, 0);
    live.hover_next();
    live.hover_next();
    assert_eq!(live.hover, 2);
    live.hover_next();
    assert_eq!(live.hover, 0);
    live.hover_prev();
    assert_eq!(live.hover, 2);
}

#[test]
fn live_state_machine_selects_and_loads() {
    let mut live = LiveInterface::new(channels(2));
    live.hover_next();
    // Key 1 selects the hovered channel.
    live.react_input_event(InterfaceInput::KeyButton(1));
    assert_eq!(live.state, LiveInterfaceState::SelectedChannel(1));
    // Key 1 again opens the preset browser for it.
    live.react_input_event(InterfaceInput::KeyButton(1));
    assert_eq!(live.state, LiveInterfaceState::LoadPreset(1));
    // Key 0 goes back to the selection.
    live.react_input_event(InterfaceInput::KeyButton(0));
    assert_eq!(live.state, LiveInterfaceState::SelectedChannel(1));
    // And key 0 again back to browsing.
    live.react_input_event(InterfaceInput::KeyButton(0));
    assert_eq!(live.state, LiveInterfaceState::Live);
}

#[test]
fn load_preset_replaces_the_channel_instrument() {
    let mut live = LiveInterface::new(channels(2));
    let mut loaded = Instrument::new();
    loaded.add_oscillator();
    live.channels[0] = LiveChannel { instrument: loaded };
    live.state = LiveInterfaceState::LoadPreset(0);
    live.react_input_event(InterfaceInput::KeyButton(1));
    assert_eq!(live.state, LiveInterfaceState::Live);
    assert_eq!(live.channels[0].instrument.oscillators.len(), 0);
}

#[test]
fn knob_browses_presets_while_loading() {
    let mut live = LiveInterface::new(channels(1));
    live.preset_loader.load_instruments_preset_bank(vec!["a".into(), "b".into()]);
    live.state = LiveInterfaceState::LoadPreset(0);
    live.react_input_event(InterfaceInput::RotaryKnob(1, true));
    assert_eq!(live.preset_loader.selected_preset, 1);
    live.react_input_event(InterfaceInput::RotaryKnob(1, false));
    assert_eq!(live.preset_loader.selected_preset, 0);
    assert_eq!(live.state, LiveInterfaceState::LoadPreset(0));
}

#[test]
fn interface_routes_to_active_view() {
    let live = LiveInterface::new(channels(2));
    let mut iface = Interface::new(live);
    iface.init(vec!["bank0".to_string()]);
    assert_eq!(iface.live.preset_loader.instrument_presets_bank.len(), 1);
    assert_eq!(iface.active, 0);
    iface.react_input_event(InterfaceInput::RotaryKnob(1, true));
    assert_eq!(iface.live.hover, 1);
    // The options view swallows input without touching the live view.
    iface.active = 1;
    iface.react_input_event(InterfaceInput::RotaryKnob(1, true));
    assert_eq!(iface.live.hover, 1);
}
