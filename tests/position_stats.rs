use stm32_tasks::position::calcula_posicao_peso;
use stm32_tasks::stats::{SystemStatistics, TASK_COUNT};

#[test]
fn all_zero_sweep_is_position_zero() {
    assert_eq!(calcula_posicao_peso(&[0; 8]), 0);
}

#[test]
fn single_channel_gives_its_weight() {
    for k in 0..8 {
        let mut s = [0u16; 8];
        s[k] = 37;
        assert_eq!(calcula_posicao_peso(&s), 1000 * k as u32);
    }
}

#[test]
fn two_equal_channels_give_the_midpoint() {
    let s = [100, 100, 0, 0, 0, 0, 0, 0];
    assert_eq!(calcula_posicao_peso(&s), 500);
}

#[test]
fn full_scale_on_every_channel_does_not_overflow() {
    assert_eq!(calcula_posicao_peso(&[u16::MAX; 8]), 3500);
}

#[test]
fn weighted_centroid_rounds_down() {
    let s = [1, 0, 0, 2, 0, 0, 0, 0];
    assert_eq!(calcula_posicao_peso(&s), 2000);
    let s = [2, 1, 0, 0, 0, 0, 0, 0];
    assert_eq!(calcula_posicao_peso(&s), 333);
}

#[test]
fn statistics_start_at_zero() {
    let s = SystemStatistics::new();
    assert_eq!(s.uptime_ms, 0);
    assert_eq!(s.task_count, 0);
    assert_eq!(s.button_presses, 0);
    assert_eq!(s.led1_blinks, 0);
    assert_eq!(s.led2_blinks, 0);
    assert_eq!(s.adc_samples, 0);
    assert_eq!(s.weighted_position, 0);
}

#[test]
fn producers_write_their_own_fields() {
    let mut s = SystemStatistics::new();
    s.record_button_press();
    s.record_led1_blink();
    s.record_led1_blink();
    s.record_led2_blink();
    s.record_adc_sweep(4200);
    s.record_uptime(12_345);
    assert_eq!(s.button_presses, 1);
    assert_eq!(s.led1_blinks, 2);
    assert_eq!(s.led2_blinks, 1);
    assert_eq!(s.adc_samples, 1);
    assert_eq!(s.weighted_position, 4200);
    assert_eq!(s.uptime_ms, 12_345);
    assert_eq!(s.task_count, TASK_COUNT);
    assert_eq!(s.snapshot(), s);
}

#[test]
fn reset_clears_only_button_and_led_counters() {
    let mut s = SystemStatistics::new();
    s.record_button_press();
    s.record_led1_blink();
    s.record_led2_blink();
    s.record_adc_sweep(7);
    s.record_uptime(999);
    s.reset_counters();
    assert_eq!(s.button_presses, 0);
    assert_eq!(s.led1_blinks, 0);
    assert_eq!(s.led2_blinks, 0);
    assert_eq!(s.adc_samples, 1);
    assert_eq!(s.weighted_position, 7);
    assert_eq!(s.uptime_ms, 999);
}

#[test]
fn counters_saturate_at_their_width() {
    let mut s = SystemStatistics::new();
    s.button_presses = u32::MAX;
    s.record_button_press();
    assert_eq!(s.button_presses, u32::MAX);
}

#[test]
fn interleaved_producers_add_up_exactly() {
    let producers = 5u32;
    let per_producer = 200u32;
    let mut s = SystemStatistics::new();
    let mut left = vec![per_producer; producers as usize];
    let mut turn = 0usize;
    while left.iter().any(|&n| n > 0) {
        let p = (turn * 3 + turn / 7) % producers as usize;
        if left[p] > 0 {
            s.record_led1_blink();
            left[p] -= 1;
        }
        turn += 1;
    }
    assert_eq!(s.led1_blinks, producers * per_producer);
}
