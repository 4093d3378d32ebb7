//! Time-based interpolation of an entity's scale.

use vstd::prelude::*;
use crate::components::{Ease, EntityRow, MeshComponent, Tween, TweenComponent, NANOS_PER_MILLI};

verus! {

pub struct TweenSystem;

/// `amount * t / d` is no more than `amount` while `t` is no more than `d`.
proof fn lemma_share_bounded(amount: nat, t: nat, d: nat)
    requires
        d > 0,
        t <= d,
    ensures
        amount * t / d <= amount,
{
    assert(amount * t <= amount * d) by (nonlinear_arith)
        requires
            t <= d,
    ;
    assert(amount * d / d == amount) by (nonlinear_arith)
        requires
            d > 0,
    ;
    assert(amount * t / d <= amount * d / d) by (nonlinear_arith)
        requires
            amount * t <= amount * d,
            d > 0,
    ;
}

impl TweenSystem {
    /// Whole milliseconds in a time in nanoseconds.
    pub open spec fn millis(nanos: u64) -> nat {
        (nanos / NANOS_PER_MILLI) as nat
    }

    /// The cube of `t / d` as a share of `amount`, each of the three
    /// factors applied in turn and rounded down.
    pub open spec fn cubic_share(amount: nat, t: nat, d: nat) -> nat {
        ((amount * t / d) * t / d) * t / d
    }

    /// Cubic ease-in from `b` by a change of `c`, at time `t` of `d`: the
    /// change grows with the cube of the time that has passed. Time past
    /// `d` counts as `d`, and so does any time of a tween without length.
    pub open spec fn ease_in_cubic(t: nat, b: int, c: int, d: nat) -> int {
        let t = if t < d {
            t
        } else {
            d
        };
        if d == 0 {
            b + c
        } else if c >= 0 {
            b + Self::cubic_share(c as nat, t, d)
        } else {
            b - Self::cubic_share((-c) as nat, t, d)
        }
    }

    /// The value of a tween at time `t` of `d`, in milliseconds: the eased
    /// value from `ending` by a change of `starting`, mirrored at
    /// `starting` where the tween counts down.
    pub open spec fn value_spec(tween: Tween, t: nat, d: nat) -> int {
        match tween {
            Tween::SizeTween { ease, starting, ending } => {
                let eased = match ease {
                    Ease::Cubic => Self::ease_in_cubic(t, ending as int, starting as int, d),
                };
                if starting > ending {
                    starting - eased
                } else {
                    eased
                }
            },
        }
    }

    /// The nearest value that a component can hold.
    pub open spec fn saturate(value: int) -> i64 {
        if value < i64::MIN {
            i64::MIN
        } else if value > i64::MAX {
            i64::MAX
        } else {
            value as i64
        }
    }

    /// Whether a tween still runs: its elapsed milliseconds have not
    /// passed its duration's.
    pub open spec fn runs(tween: TweenComponent) -> bool {
        Self::millis(tween.elapsed) <= Self::millis(tween.duration)
    }

    /// The time a running tween has elapsed after a frame of `dt`; it
    /// stops at the largest time that can be held.
    pub open spec fn elapsed_after(tween: TweenComponent, dt: u64) -> u64 {
        if tween.elapsed + dt > u64::MAX {
            u64::MAX
        } else {
            (tween.elapsed + dt) as u64
        }
    }

    /// The row after a frame of `dt` nanoseconds. A tween that still runs
    /// moves on by the frame, and its value at the new time becomes the
    /// scale of the row's mesh, if it has one. A tween that has passed its
    /// duration changes nothing: the last scale stays.
    pub open spec fn step_spec(row: EntityRow, dt: u64) -> EntityRow {
        match row.tween {
            Some(tween) => if Self::runs(tween) {
                let elapsed = Self::elapsed_after(tween, dt);
                EntityRow {
                    tween: Some(TweenComponent { elapsed, ..tween }),
                    mesh: match row.mesh {
                        Some(_) => Some(
                            MeshComponent {
                                scale: Self::saturate(
                                    Self::value_spec(
                                        tween.tween_type,
                                        Self::millis(elapsed),
                                        Self::millis(tween.duration),
                                    ),
                                ),
                            },
                        ),
                        None => None,
                    },
                    ..row
                }
            } else {
                row
            },
            None => row,
        }
    }

    fn cubic_share_of(amount: u128, t: u64, d: u64) -> (share: u128)
        requires
            amount <= 0x8000_0000_0000_0000,
            0 < d,
            t <= d,
        ensures
            share == Self::cubic_share(amount as nat, t as nat, d as nat),
            share <= amount,
    {
        proof {
            lemma_share_bounded(amount as nat, t as nat, d as nat);
            lemma_share_bounded((amount as nat * t as nat / d as nat), t as nat, d as nat);
            lemma_share_bounded(
                ((amount as nat * t as nat / d as nat) * t as nat / d as nat),
                t as nat,
                d as nat,
            );
            assert(amount * t <= 0x8000_0000_0000_0000 * 0xffff_ffff_ffff_ffff) by (nonlinear_arith)
                requires
                    amount <= 0x8000_0000_0000_0000,
                    t <= 0xffff_ffff_ffff_ffff,
            ;
        }
        let first: u128 = amount * (t as u128) / (d as u128);
        proof {
            assert(first * t <= 0x8000_0000_0000_0000 * 0xffff_ffff_ffff_ffff) by (nonlinear_arith)
                requires
                    first <= 0x8000_0000_0000_0000,
                    t <= 0xffff_ffff_ffff_ffff,
            ;
        }
        let second: u128 = first * (t as u128) / (d as u128);
        proof {
            assert(second * t <= 0x8000_0000_0000_0000 * 0xffff_ffff_ffff_ffff) by (nonlinear_arith)
                requires
                    second <= 0x8000_0000_0000_0000,
                    t <= 0xffff_ffff_ffff_ffff,
            ;
        }
        second * (t as u128) / (d as u128)
    }

    /// The value of a tween at time `t` of `d`, in milliseconds.
    pub fn value(tween: &Tween, t: u64, d: u64) -> (value: i64)
        ensures
            value == Self::saturate(Self::value_spec(*tween, t as nat, d as nat)),
    {
        match tween {
            Tween::SizeTween { ease, starting, ending } => {
                let b: i128 = *ending as i128;
                let c: i128 = *starting as i128;
                let t = if t < d {
                    t
                } else {
                    d
                };
                let eased: i128 = match ease {
                    Ease::Cubic => {
                        if d == 0 {
                            b + c
                        } else if c >= 0 {
                            b + (Self::cubic_share_of(c as u128, t, d) as i128)
                        } else {
                            b - (Self::cubic_share_of((-c) as u128, t, d) as i128)
                        }
                    },
                };
                let tweened_value: i128 = if *starting > *ending {
                    c - eased
                } else {
                    eased
                };
                if tweened_value < i64::MIN as i128 {
                    i64::MIN
                } else if tweened_value > i64::MAX as i128 {
                    i64::MAX
                } else {
                    tweened_value as i64
                }
            },
        }
    }

    pub fn step(row: EntityRow, dt: u64) -> (next: EntityRow)
        ensures
            next == Self::step_spec(row, dt),
    {
        match row.tween {
            Some(tween) => {
                if tween.elapsed / NANOS_PER_MILLI <= tween.duration / NANOS_PER_MILLI {
                    let elapsed = tween.elapsed.saturating_add(dt);
                    let mesh = match row.mesh {
                        Some(_) => {
                            let tweened_value = Self::value(
                                &tween.tween_type,
                                elapsed / NANOS_PER_MILLI,
                                tween.duration / NANOS_PER_MILLI,
                            );
                            Some(MeshComponent { scale: tweened_value })
                        },
                        None => None,
                    };
                    EntityRow {
                        tween: Some(
                            TweenComponent {
                                tween_type: tween.tween_type,
                                elapsed,
                                duration: tween.duration,
                            },
                        ),
                        mesh,
                        ..row
                    }
                } else {
                    row
                }
            },
            None => row,
        }
    }

    /// Advances every tween by one frame of `dt` nanoseconds.
    pub fn run(&self, dt: u64, rows: &mut Vec<EntityRow>)
        ensures
            final(rows)@.len() == old(rows)@.len(),
            forall|i: int|
                0 <= i < old(rows)@.len() ==> #[trigger] final(rows)@[i] == Self::step_spec(
                    old(rows)@[i],
                    dt,
                ),
    {
        let n = rows.len();
        let mut i: usize = 0;
        while i < n
            invariant
                i <= n,
                rows@.len() == n,
                n == old(rows)@.len(),
                forall|j: int|
                    0 <= j < i ==> #[trigger] rows@[j] == Self::step_spec(old(rows)@[j], dt),
                forall|j: int| i <= j < n ==> #[trigger] rows@[j] == old(rows)@[j],
            decreases n - i,
        {
            let next = Self::step(rows[i], dt);
            rows.set(i, next);
            i += 1;
        }
    }

    /// A tween that has passed its duration holds: no frame changes its
    /// row any more.
    pub proof fn lemma_terminal(row: EntityRow, dt: u64)
        requires
            row.tween is Some,
            !Self::runs(row.tween.unwrap()),
        ensures
            Self::step_spec(row, dt) == row,
    {
    }
}

} // verus!
