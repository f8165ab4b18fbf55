use crate::error::ContractError;
use crate::helpers::get_decimals;
use crate::math::{
    lemma_ratio_le, lemma_ratio_lt, lemma_scaled_ratio_le_scale, multiply_ratio, ratio, scale,
    DECIMAL_FRACTIONAL,
    Decimal, lemma_wide_parts, lemma_wide_val, wide, wide_limit, WideDecimal,
};
use crate::state::{Position, Stream};
use vstd::prelude::*;

verus! {

/// Share of the time left until `end_time` that has elapsed since `last_updated`, as atomics of
/// a decimal: `(now - last_updated) / (end_time - last_updated)`, with `now` capped at
/// `end_time` and both differences saturating at zero.
pub open spec fn spec_diff(end_time: u64, last_updated: u64, now: u64) -> int {
    let now = if now > end_time {
        end_time
    } else {
        now
    };
    let numerator: int = if now >= last_updated {
        now - last_updated
    } else {
        0
    };
    let denominator: int = if end_time >= last_updated {
        end_time - last_updated
    } else {
        0
    };
    if denominator == 0 || numerator == 0 {
        0
    } else {
        ratio(numerator, scale(), denominator)
    }
}

/// Out tokens released and in tokens spent by bringing a stream up to `now`.
pub open spec fn stream_flows(s: Stream, now: u64) -> (int, int) {
    let d = spec_diff(s.end_time, s.last_updated, now);
    if s.shares != 0 && d != 0 {
        (ratio(s.out_remaining as int, d, scale()), ratio(s.in_supply as int, d, scale()))
    } else {
        (0, 0)
    }
}

/// Increase of the distribution index for `released` out tokens over `shares`.
pub open spec fn index_increase(released: int, shares: int) -> int {
    ratio(released, scale(), shares)
}

/// Whether bringing a stream up to `now` overflows: the spent amount beyond 128 bits, or the
/// distribution index beyond its 128-bit whole part.
pub open spec fn update_stream_overflows(s: Stream, now: u64) -> bool {
    let (released, spent) = stream_flows(s, now);
    ||| s.spent_in + spent > u128::MAX
    ||| released != 0 && s.dist_index.val() + index_increase(released, s.shares as int)
        >= wide_limit()
}

/// The stream brought up to `now`: the share of the remaining out tokens and of the in supply
/// that corresponds to the elapsed share of the time left is released and spent.
pub open spec fn updated_stream(s: Stream, now: u64) -> Stream {
    let (released, spent) = stream_flows(s, now);
    Stream {
        spent_in: (s.spent_in + spent) as u128,
        in_supply: (s.in_supply - spent) as u128,
        out_remaining: (s.out_remaining - released) as u128,
        dist_index: if released != 0 {
            wide(s.dist_index.val() + index_increase(released, s.shares as int))
        } else {
            s.dist_index
        },
        current_streamed_price: if released != 0 {
            wide(ratio(spent, scale(), released))
        } else {
            s.current_streamed_price
        },
        last_updated: if now < s.start_time {
            s.start_time
        } else {
            now
        },
        ..s
    }
}

/// The elapsed share of the time left, as a decimal between 0 and 1.
pub fn calculate_diff(end_time: u64, last_updated: u64, now: u64) -> (d: Decimal)
    ensures
        d.atomics == spec_diff(end_time, last_updated, now),
        d.atomics <= scale(),
{
    let now = if now > end_time {
        end_time
    } else {
        now
    };
    let numerator = now.saturating_sub(last_updated);
    let denominator = end_time.saturating_sub(last_updated);
    if denominator == 0 || numerator == 0 {
        Decimal::zero()
    } else {
        proof {
            lemma_scaled_ratio_le_scale(numerator as int, denominator as int);
        }
        match Decimal::from_ratio(numerator as u128, denominator as u128) {
            Ok(d) => d,
            Err(_) => Decimal::zero(),
        }
    }
}

/// Brings a stream up to `now`: releases out tokens and spends in tokens in proportion to the
/// elapsed share of the time left. Returns that share and the released amount. On an error the
/// stream is left as it was.
pub fn update_stream(now: u64, stream: &mut Stream) -> (r: Result<(Decimal, u128), ContractError>)
    ensures
        update_stream_overflows(*old(stream), now) ==> r == Err::<(Decimal, u128), ContractError>(
            ContractError::Overflow,
        ) && *final(stream) == *old(stream),
        !update_stream_overflows(*old(stream), now) ==> r == Ok::<(Decimal, u128), ContractError>(
            (
                Decimal { atomics: spec_diff(old(stream).end_time, old(stream).last_updated, now) as u128 },
                stream_flows(*old(stream), now).0 as u128,
            ),
        ) && *final(stream) == updated_stream(*old(stream), now),
{
    let diff = calculate_diff(stream.end_time, stream.last_updated, now);
    let mut released: u128 = 0;
    let mut spent_in = stream.spent_in;
    let mut in_supply = stream.in_supply;
    let mut out_remaining = stream.out_remaining;
    let mut dist_index = stream.dist_index;
    let mut price = stream.current_streamed_price;
    if stream.shares != 0 && !diff.is_zero() {
        proof {
            lemma_ratio_le(stream.out_remaining as int, diff.atomics as int, scale());
            lemma_ratio_le(stream.in_supply as int, diff.atomics as int, scale());
        }
        released = match multiply_ratio(stream.out_remaining, diff.atomics, 1_000_000_000_000_000_000u128) {
            Ok(v) => v,
            Err(e) => return Err(e),
        };
        let spent = match multiply_ratio(stream.in_supply, diff.atomics, 1_000_000_000_000_000_000u128) {
            Ok(v) => v,
            Err(e) => return Err(e),
        };
        spent_in = match spent_in.checked_add(spent) {
            Some(v) => v,
            None => return Err(ContractError::Overflow),
        };
        in_supply = in_supply - spent;
        if released != 0 {
            out_remaining = out_remaining - released;
            let increase = match WideDecimal::from_ratio(released, stream.shares) {
                Ok(v) => v,
                Err(e) => return Err(e),
            };
            proof {
                crate::math::lemma_ratio_fits_wide(released as int, stream.shares as int);
                lemma_wide_val(index_increase(released as int, stream.shares as int));
            }
            dist_index = match dist_index.checked_add(increase) {
                Ok(v) => v,
                Err(e) => return Err(e),
            };
            price = match WideDecimal::from_ratio(spent, released) {
                Ok(v) => v,
                Err(e) => return Err(e),
            };
        }
    }
    stream.spent_in = spent_in;
    stream.in_supply = in_supply;
    stream.out_remaining = out_remaining;
    stream.dist_index = dist_index;
    stream.current_streamed_price = price;
    stream.last_updated = if now < stream.start_time {
        stream.start_time
    } else {
        now
    };
    Ok((diff, released))
}

/// Out tokens, in atomics, a position has bought since its last update (including what was
/// pending): its shares times the growth of the distribution index, plus the pending fraction.
pub open spec fn purchase_atomics(p: Position, dist_index: WideDecimal) -> int {
    p.shares * (dist_index.val() - p.index.val()) + p.pending_purchase.val()
}

/// In tokens a position still holds: its share of the stream's in supply, rounded down.
pub open spec fn in_remaining(p: Position, stream_shares: u128, stream_in_supply: u128) -> int {
    ratio(stream_in_supply as int, p.shares as int, stream_shares as int)
}

/// Whether bringing a position up to date overflows, or finds the position inconsistent with the
/// stream (an index ahead of the stream's, or more in tokens owed than it holds).
pub open spec fn update_position_fails(
    dist_index: WideDecimal,
    stream_shares: u128,
    stream_in_supply: u128,
    p: Position,
) -> bool {
    ||| dist_index.val() < p.index.val()
    ||| dist_index.val() >= wide_limit()
    ||| stream_shares != 0 && {
        let rem = in_remaining(p, stream_shares, stream_in_supply);
        let bought = purchase_atomics(p, dist_index);
        ||| rem > u128::MAX
        ||| rem > p.in_balance
        ||| p.spent + (p.in_balance - rem) > u128::MAX
        ||| p.purchased + bought / scale() > u128::MAX
    }
}

/// The position brought up to date with a stream.
pub open spec fn updated_position(
    dist_index: WideDecimal,
    stream_shares: u128,
    stream_last_updated: u64,
    stream_in_supply: u128,
    p: Position,
) -> Position {
    if stream_shares != 0 {
        let rem = in_remaining(p, stream_shares, stream_in_supply);
        let bought = purchase_atomics(p, dist_index);
        Position {
            spent: (p.spent + (p.in_balance - rem)) as u128,
            in_balance: rem as u128,
            pending_purchase: wide(bought % scale()),
            purchased: (p.purchased + bought / scale()) as u128,
            index: dist_index,
            last_updated: stream_last_updated,
            ..p
        }
    } else {
        Position { index: dist_index, last_updated: stream_last_updated, ..p }
    }
}

/// Whole out tokens bought and in tokens spent by bringing a position up to date.
pub open spec fn position_flows(
    dist_index: WideDecimal,
    stream_shares: u128,
    stream_in_supply: u128,
    p: Position,
) -> (int, int) {
    if stream_shares != 0 {
        (
            purchase_atomics(p, dist_index) / scale(),
            p.in_balance - in_remaining(p, stream_shares, stream_in_supply),
        )
    } else {
        (0, 0)
    }
}

/// `a * (units * 10^18 + frac) + pending_units * 10^18 + pending_frac` splits at `10^18` as
/// `a * frac + pending_frac` does, after `a * units + pending_units` whole units.
proof fn lemma_purchase_parts(a: int, units: int, frac: int, pending_units: int, pending_frac: int)
    requires
        a >= 0,
        units >= 0,
        frac >= 0,
        pending_units >= 0,
        pending_frac >= 0,
    ensures
        (a * (units * scale() + frac) + (pending_units * scale() + pending_frac)) / scale() == a
            * units + pending_units + (a * frac + pending_frac) / scale(),
        (a * (units * scale() + frac) + (pending_units * scale() + pending_frac)) % scale() == (a
            * frac + pending_frac) % scale(),
{
    assert(a * frac >= 0 && a * units >= 0) by (nonlinear_arith)
        requires
            a >= 0,
            units >= 0,
            frac >= 0,
    ;
    assert(a * (units * scale() + frac) + (pending_units * scale() + pending_frac) == (a * units
        + pending_units) * scale() + (a * frac + pending_frac)) by (nonlinear_arith);
    lemma_wide_parts(a * units + pending_units, a * frac + pending_frac);
}

/// `a * b + pending`, with `whole = a * b / 10^18` and `low = (a mod 10^18) * (b mod 10^18) mod
/// 10^18`, has `whole + pending / 10^18 + (low + pending mod 10^18) / 10^18` whole units and
/// `(low + pending mod 10^18) mod 10^18` left.
proof fn lemma_split_purchase(a: int, b: int, pending: int, whole: int, low: int)
    requires
        a >= 0,
        b >= 0,
        pending >= 0,
        whole == a * b / scale(),
        low == ((a % scale()) * (b % scale())) % scale(),
    ensures
        0 <= low < scale(),
        (a * b + pending) / scale() == whole + pending / scale() + (low + pending % scale())
            / scale(),
        (a * b + pending) % scale() == (low + pending % scale()) % scale(),
{
    let m = scale();
    vstd::arithmetic::div_mod::lemma_mul_mod_noop_general(a, b, m);
    vstd::arithmetic::div_mod::lemma_fundamental_div_mod(a * b, m);
    vstd::arithmetic::div_mod::lemma_fundamental_div_mod(pending, m);
    vstd::arithmetic::div_mod::lemma_mod_bound(a * b, m);
    vstd::arithmetic::div_mod::lemma_mod_bound(pending, m);
    assert(low == (a * b) % m);
    let t = low + pending % m;
    vstd::arithmetic::div_mod::lemma_fundamental_div_mod(t, m);
    vstd::arithmetic::div_mod::lemma_mod_bound(t, m);
    assert(a * b + pending == (whole + pending / m + t / m) * m + t % m) by (nonlinear_arith)
        requires
            a * b == m * whole + (a * b) % m,
            pending == m * (pending / m) + pending % m,
            low == (a * b) % m,
            t == low + pending % m,
            t == m * (t / m) + t % m,
    ;
    vstd::arithmetic::div_mod::lemma_fundamental_div_mod_converse(
        a * b + pending,
        m,
        whole + pending / m + t / m,
        t % m,
    );
}

/// `(a * 10^18) * b / 10^18 == a * b`.
proof fn lemma_scaled_product(a: int, b: int)
    requires
        a >= 0,
        b >= 0,
    ensures
        ratio(a * scale(), b, scale()) == a * b,
{
    assert((a * scale()) * b == (a * b) * scale()) by (nonlinear_arith);
    vstd::arithmetic::div_mod::lemma_div_by_multiple(a * b, scale());
}

/// Brings a position up to date with its stream: counts the out tokens bought (whole ones in
/// `purchased`, the fraction in `pending_purchase`) and the in tokens spent since the last update.
/// Returns the whole out tokens bought and the in tokens spent. On an error the position is left
/// as it was.
pub fn update_position(
    stream_dist_index: WideDecimal,
    stream_shares: u128,
    stream_last_updated: u64,
    stream_in_supply: u128,
    position: &mut Position,
) -> (r: Result<(u128, u128), ContractError>)
    ensures
        update_position_fails(stream_dist_index, stream_shares, stream_in_supply, *old(position))
            ==> r == Err::<(u128, u128), ContractError>(ContractError::Overflow) && *final(position)
            == *old(position),
        !update_position_fails(stream_dist_index, stream_shares, stream_in_supply, *old(position))
            ==> r == Ok::<(u128, u128), ContractError>(
            (
                position_flows(stream_dist_index, stream_shares, stream_in_supply, *old(position)).0 as u128,
                position_flows(stream_dist_index, stream_shares, stream_in_supply, *old(position)).1 as u128,
            ),
        ) && *final(position) == updated_position(
            stream_dist_index,
            stream_shares,
            stream_last_updated,
            stream_in_supply,
            *old(position),
        ),
{
    let index_diff = match stream_dist_index.checked_sub(position.index) {
        Ok(v) => v,
        Err(e) => return Err(e),
    };
    let mut spent: u128 = 0;
    let mut purchased_whole: u128 = 0;
    if stream_shares != 0 {
        // `shares * index_diff + pending` in atomics, split into whole tokens and the fraction
        // without forming the product in 128 bits.
        let pending = match position.pending_purchase.normalized() {
            Ok(v) => v,
            Err(e) => return Err(e),
        };
        proof {
            lemma_wide_val(stream_dist_index.val() - old(position).index.val());
            lemma_wide_val(old(position).pending_purchase.val());
            lemma_purchase_parts(
                position.shares as int,
                index_diff.units as int,
                index_diff.frac as int,
                pending.units as int,
                pending.frac as int,
            );
            assert((position.shares as int) * (index_diff.frac as int) >= 0) by (nonlinear_arith);
            vstd::arithmetic::div_mod::lemma_div_is_ordered(
                (position.shares as int) * (index_diff.frac as int),
                (position.shares as int) * (index_diff.frac as int) + pending.frac,
                scale(),
            );
            vstd::arithmetic::div_mod::lemma_div_pos_is_pos(
                (position.shares as int) * (index_diff.frac as int) + pending.frac,
                scale(),
            );
            assert((position.shares as int) * (index_diff.units as int) >= 0) by (nonlinear_arith);
        }
        let base = match position.shares.checked_mul(index_diff.units) {
            Some(v) => v,
            None => return Err(ContractError::Overflow),
        };
        let whole_part = match multiply_ratio(position.shares, index_diff.frac, DECIMAL_FRACTIONAL) {
            Ok(v) => v,
            Err(e) => return Err(e),
        };
        let share_digits = position.shares % DECIMAL_FRACTIONAL;
        let index_digits = index_diff.frac % DECIMAL_FRACTIONAL;
        assert(share_digits * index_digits < scale() * scale()) by (nonlinear_arith)
            requires
                share_digits < scale(),
                index_digits < scale(),
        ;
        let low = (share_digits * index_digits) % DECIMAL_FRACTIONAL;
        let carried = low + pending.frac;
        proof {
            lemma_split_purchase(
                position.shares as int,
                index_diff.frac as int,
                pending.frac as int,
                whole_part as int,
                low as int,
            );
            lemma_purchase_parts(
                position.shares as int,
                index_diff.units as int,
                index_diff.frac as int,
                pending.units as int,
                pending.frac as int,
            );
        }
        let whole = match base.checked_add(pending.units) {
            Some(v) => match v.checked_add(whole_part) {
                Some(w) => match w.checked_add(carried / DECIMAL_FRACTIONAL) {
                    Some(x) => x,
                    None => return Err(ContractError::Overflow),
                },
                None => return Err(ContractError::Overflow),
            },
            None => return Err(ContractError::Overflow),
        };
        let decimals = WideDecimal { units: 0, frac: carried % DECIMAL_FRACTIONAL };
        let in_remaining = match multiply_ratio(stream_in_supply, position.shares, stream_shares) {
            Ok(v) => v,
            Err(e) => return Err(e),
        };
        spent = match position.in_balance.checked_sub(in_remaining) {
            Some(v) => v,
            None => return Err(ContractError::Overflow),
        };
        let new_spent = match position.spent.checked_add(spent) {
            Some(v) => v,
            None => return Err(ContractError::Overflow),
        };
        purchased_whole = whole;
        let new_purchased = match position.purchased.checked_add(purchased_whole) {
            Some(v) => v,
            None => return Err(ContractError::Overflow),
        };
        position.spent = new_spent;
        position.in_balance = in_remaining;
        position.pending_purchase = decimals;
        position.purchased = new_purchased;
    }
    position.index = stream_dist_index;
    position.last_updated = stream_last_updated;
    Ok((purchased_whole, spent))
}

} // verus!
