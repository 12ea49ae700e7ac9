//! The speed of the music, which creeps up while a round lasts.
//!
//! Speeds are in millionths, so `SPEED_UNIT` is normal speed; times are whole
//! microseconds.

use vstd::prelude::*;

verus! {

/// Normal speed, in millionths; also one second in microseconds.
pub const SPEED_UNIT: u32 = 1_000_000;

/// The music never plays faster than this, in millionths.
pub const MAX_SPEED: u32 = 5_000_000;

/// What a second of a round adds to the speed aimed at, in millionths.
pub const SPEED_GAIN_PER_SECOND: u64 = 15_000;

/// The share of the way to the speed aimed at that a frame covers is its
/// length in seconds times this.
pub const APPROACH_RATE: u64 = 8;

/// The speed aimed at: normal speed, and while a round lasts a little more
/// for each of its seconds.
pub open spec fn target_speed(round_elapsed: Option<u64>) -> int {
    match round_elapsed {
        Some(elapsed) => SPEED_UNIT as int + (elapsed as int * SPEED_GAIN_PER_SECOND as int) / (
        SPEED_UNIT as int),
        None => SPEED_UNIT as int,
    }
}

/// `current * (1 - n) + target * n` for `n = APPROACH_RATE * delta` seconds,
/// rounded down. A long frame has `n` above one and overshoots.
pub open spec fn approach(current: int, target: int, delta: int) -> int {
    let n = APPROACH_RATE as int * delta;
    (current * (SPEED_UNIT as int - n) + target * n) / (SPEED_UNIT as int)
}

/// `speed`, held between standstill and the highest speed.
pub open spec fn clamp_speed(speed: int) -> int {
    if speed < 0 {
        0
    } else if speed > MAX_SPEED as int {
        MAX_SPEED as int
    } else {
        speed
    }
}

/// The speed of the music after a frame of `delta` microseconds.
pub open spec fn next_speed(current: int, round_elapsed: Option<u64>, delta: int) -> int {
    clamp_speed(approach(current, target_speed(round_elapsed), delta))
}

/// Moves the speed of the music towards the speed aimed at.
///
/// `round_elapsed` is the time since the round began, if one is on.
pub fn update_music_speed(current_speed: u32, round_elapsed: Option<u64>, delta_micros: u32) -> (speed:
    u32)
    ensures
        speed as int == next_speed(current_speed as int, round_elapsed, delta_micros as int),
        speed <= MAX_SPEED,
{
    let target: u128 = match round_elapsed {
        Some(elapsed) => {
            let gain: u128 = elapsed as u128 * SPEED_GAIN_PER_SECOND as u128;
            SPEED_UNIT as u128 + gain / (SPEED_UNIT as u128)
        },
        None => SPEED_UNIT as u128,
    };
    assert(target as int == target_speed(round_elapsed));
    assert(APPROACH_RATE as int * delta_micros as int == 8 * delta_micros as int);
    let weight: u128 = APPROACH_RATE as u128 * delta_micros as u128;
    assert(target as int * weight as int <= 0x1_0000_0000_0000_0000 * 0x10_0000_0000)
        by (nonlinear_arith)
        requires
            0 <= target as int <= 0x1_0000_0000_0000_0000,
            0 <= weight as int <= 0x10_0000_0000,
    ;
    let pull: u128 = target * weight;
    let ghost exact: int = current_speed as int * (SPEED_UNIT as int - weight as int) + pull as int;
    if weight <= SPEED_UNIT as u128 {
        let keep: u128 = SPEED_UNIT as u128 - weight;
        assert(current_speed as int * keep as int <= 0xffff_ffff * 1_000_000) by (nonlinear_arith)
            requires
                0 <= current_speed as int <= 0xffff_ffff,
                0 <= keep as int <= 1_000_000,
        ;
        let sum: u128 = current_speed as u128 * keep + pull;
        assert(sum as int == exact);
        let blended: u128 = sum / (SPEED_UNIT as u128);
        if blended > MAX_SPEED as u128 {
            MAX_SPEED
        } else {
            blended as u32
        }
    } else {
        let over: u128 = weight - SPEED_UNIT as u128;
        assert(current_speed as int * over as int <= 0xffff_ffff * 0x10_0000_0000)
            by (nonlinear_arith)
            requires
                0 <= current_speed as int <= 0xffff_ffff,
                0 <= over as int <= 0x10_0000_0000,
        ;
        let push: u128 = current_speed as u128 * over;
        assert(exact == pull as int - push as int) by (nonlinear_arith)
            requires
                exact == current_speed as int * (SPEED_UNIT as int - weight as int) + pull as int,
                push as int == current_speed as int * over as int,
                over as int == weight as int - SPEED_UNIT as int,
        ;
        if push >= pull {
            0
        } else {
            let blended: u128 = (pull - push) / (SPEED_UNIT as u128);
            if blended > MAX_SPEED as u128 {
                MAX_SPEED
            } else {
                blended as u32
            }
        }
    }
}

} // verus!
