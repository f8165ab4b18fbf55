use crate::error::{CustomPaymentError, PaymentError};
use cw_utils::NativeBalance;
use crate::state::Coin;
use vstd::prelude::*;

verus! {

/// The amount paid when the funds sent with a message are exactly one coin, of `denom`, and not
/// of a zero amount.
pub open spec fn paid_amount(funds: Seq<Coin>, denom: Seq<char>) -> Option<u128> {
    if funds.len() == 1 && funds[0].amount != 0 && funds[0].denom@ == denom {
        Some(funds[0].amount)
    } else {
        None
    }
}

/// Whether `e` is the error by which funds that do not pay `denom` are refused: `NoFunds` when
/// none was sent or a zero amount, `MultipleDenoms` when several coins were sent, `MissingDenom`
/// carrying the requested denom when the one coin is of another denom.
pub open spec fn payment_refusal(e: PaymentError, funds: Seq<Coin>, denom: Seq<char>) -> bool {
    if funds.len() == 0 {
        e == PaymentError::NoFunds
    } else if funds.len() > 1 {
        e == PaymentError::MultipleDenoms
    } else if funds[0].amount == 0 {
        e == PaymentError::NoFunds
    } else {
        e matches PaymentError::MissingDenom(d) && d@ == denom
    }
}

/// `cw_utils::must_pay`: requires exactly one coin, of a non-zero amount and of the given denom,
/// and returns its amount; otherwise `NoFunds` (none sent, or a zero amount), `MultipleDenoms`
/// (several sent) or `MissingDenom` carrying the requested denom.
#[verifier::external_body]
pub fn must_pay(funds: &Vec<Coin>, denom: &String) -> (r: Result<u128, PaymentError>)
    ensures
        match paid_amount(funds@, denom@) {
            Some(a) => r == Ok::<u128, PaymentError>(a),
            None => r matches Err(e) && payment_refusal(e, funds@, denom@),
        },
{
    let info = cosmwasm_std::MessageInfo {
        sender: cosmwasm_std::Addr::unchecked(""),
        funds: funds.iter().map(|c| cosmwasm_std::Coin::new(c.amount, c.denom.clone())).collect(),
    };
    match cw_utils::must_pay(&info, denom) {
        Ok(a) => Ok(a.u128()),
        Err(cw_utils::PaymentError::MissingDenom(d)) => Err(PaymentError::MissingDenom(d)),
        Err(cw_utils::PaymentError::ExtraDenom(d)) => Err(PaymentError::ExtraDenom(d)),
        Err(cw_utils::PaymentError::MultipleDenoms {}) => Err(PaymentError::MultipleDenoms),
        Err(cw_utils::PaymentError::NoFunds {}) => Err(PaymentError::NoFunds),
        Err(cw_utils::PaymentError::NonPayable {}) => Err(PaymentError::NonPayable),
    }
}


#[verifier::external_type_specification]
#[verifier::external_body]
pub struct ExNativeBalance(NativeBalance);

/// What a `NativeBalance` holds: for each denom it has an entry for, the sum of its amounts.
pub uninterp spec fn balance_contents(b: NativeBalance) -> Map<Seq<char>, nat>;

/// Whether a `NativeBalance` is in the form `normalize` leaves it in: no zero amount, one entry
/// per denom, sorted by denom.
pub uninterp spec fn balance_normalized(b: NativeBalance) -> bool;

/// `NativeBalance::default`: holds nothing.
#[verifier::external_body]
fn balance_new() -> (r: NativeBalance)
    ensures
        balance_contents(r) =~= Map::empty(),
{
    NativeBalance::default()
}

/// `NativeBalance += coin`: adds the amount to the entry of its denom (to the first one when
/// there are several), or inserts an entry in denom order. The sum for the denom grows by the
/// amount; the addition panics beyond 128 bits, which the requirement rules out.
#[verifier::external_body]
fn balance_add(b: &mut NativeBalance, denom: &String, amount: u128)
    requires
        (if balance_contents(*old(b)).contains_key(denom@) {
            balance_contents(*old(b))[denom@]
        } else {
            0
        }) + amount <= u128::MAX,
    ensures
        balance_contents(*final(b)) == balance_contents(*old(b)).insert(
            denom@,
            ((if balance_contents(*old(b)).contains_key(denom@) {
                balance_contents(*old(b))[denom@]
            } else {
                0
            }) + amount) as nat,
        ),
{
    *b += cosmwasm_std::Coin::new(amount, denom.clone());
}

/// `NativeBalance::normalize`: drops zero amounts, sorts by denom and merges the entries of a
/// denom (an addition that panics beyond 128 bits, ruled out by the requirement).
#[verifier::external_body]
fn balance_normalize(b: &mut NativeBalance)
    requires
        forall|d: Seq<char>| #[trigger]
            balance_contents(*old(b)).contains_key(d) ==> balance_contents(*old(b))[d]
                <= u128::MAX,
    ensures
        balance_normalized(*final(b)),
        balance_contents(*final(b)) == balance_contents(*old(b)).restrict(
            Set::new(|d: Seq<char>| balance_contents(*old(b)).contains_key(d) && balance_contents(*old(b))[d] > 0),
        ),
{
    b.normalize();
}

/// Equality of two normalized `NativeBalance`s (the derived `==` on their entries): the same
/// denoms with the same amounts.
#[verifier::external_body]
fn balance_eq(a: &NativeBalance, b: &NativeBalance) -> (r: bool)
    requires
        balance_normalized(*a),
        balance_normalized(*b),
    ensures
        r == (balance_contents(*a) == balance_contents(*b)),
{
    a == b
}

/// Sum of the amounts of `denom` among `funds`.
pub open spec fn denom_total(funds: Seq<Coin>, denom: Seq<char>) -> nat
    decreases funds.len(),
{
    if funds.len() == 0 {
        0
    } else {
        denom_total(funds.drop_last(), denom) + (if funds.last().denom@ == denom {
            funds.last().amount as nat
        } else {
            0nat
        })
    }
}

/// Whether no denom sums beyond 128 bits among `funds`.
pub open spec fn totals_fit(funds: Seq<Coin>) -> bool {
    forall|d: Seq<char>| #[trigger] denom_total(funds, d) <= u128::MAX
}

/// The sum of each denom that occurs among `funds`.
pub open spec fn funds_map(funds: Seq<Coin>) -> Map<Seq<char>, nat> {
    Map::new(
        |d: Seq<char>| exists|i: int| 0 <= i < funds.len() && #[trigger] funds[i].denom@ == d,
        |d: Seq<char>| denom_total(funds, d),
    )
}

pub(crate) proof fn lemma_total_of_prefix(funds: Seq<Coin>, i: int, d: Seq<char>)
    requires
        0 <= i <= funds.len(),
    ensures
        denom_total(funds.take(i), d) <= denom_total(funds, d),
    decreases funds.len() - i,
{
    if i < funds.len() {
        lemma_total_of_prefix(funds, i + 1, d);
        assert(funds.take(i + 1).drop_last() =~= funds.take(i));
    } else {
        assert(funds.take(i) =~= funds);
    }
}

pub(crate) proof fn lemma_absent_denom_total(funds: Seq<Coin>, d: Seq<char>)
    requires
        !(exists|i: int| 0 <= i < funds.len() && #[trigger] funds[i].denom@ == d),
    ensures
        denom_total(funds, d) == 0,
    decreases funds.len(),
{
    if funds.len() > 0 {
        assert forall|i: int| 0 <= i < funds.drop_last().len() implies #[trigger] funds.drop_last()[i].denom@ != d by {
            assert(funds.drop_last()[i] == funds[i]);
        }
        lemma_absent_denom_total(funds.drop_last(), d);
        assert(funds[funds.len() - 1].denom@ != d);
    }
}

fn build_balance(funds: &Vec<Coin>) -> (b: NativeBalance)
    requires
        totals_fit(funds@),
    ensures
        balance_normalized(b),
        balance_contents(b) == funds_map(funds@).restrict(
            Set::new(|d: Seq<char>| denom_total(funds@, d) > 0),
        ),
{
    let mut b = balance_new();
    assert(funds@.take(0) =~= Seq::<Coin>::empty());
    assert(balance_contents(b) =~= funds_map(funds@.take(0)));
    let mut i: usize = 0;
    while i < funds.len()
        invariant
            i <= funds.len(),
            totals_fit(funds@),
            balance_contents(b) == funds_map(funds@.take(i as int)),
        decreases funds.len() - i,
    {
        let ghost before = funds@.take(i as int);
        let ghost after = funds@.take(i + 1);
        let ghost d = funds@[i as int].denom@;
        proof {
            assert(after.drop_last() =~= before);
            assert(after.last() == funds@[i as int]);
            lemma_total_of_prefix(funds@, i + 1, d);
            assert(denom_total(funds@, d) <= u128::MAX);
            if !balance_contents(b).contains_key(d) {
                lemma_absent_denom_total(before, d);
            }
        }
        balance_add(&mut b, &funds[i].denom, funds[i].amount);
        proof {
            assert forall|e: Seq<char>| #[trigger] funds_map(after).contains_key(e) == balance_contents(b).contains_key(e) by {
                if e == d {
                    assert(after[i as int].denom@ == d);
                } else if funds_map(before).contains_key(e) {
                    let k = choose|k: int| 0 <= k < before.len() && #[trigger] before[k].denom@ == e;
                    assert(after[k] == before[k]);
                } else if funds_map(after).contains_key(e) {
                    let k = choose|k: int| 0 <= k < after.len() && #[trigger] after[k].denom@ == e;
                    if k < i {
                        assert(after[k] == before[k]);
                    }
                }
            }
            assert(balance_contents(b) =~= funds_map(after));
        }
        i = i + 1;
    }
    proof {
        assert(funds@.take(funds@.len() as int) =~= funds@);
        assert forall|d: Seq<char>| #[trigger] balance_contents(b).contains_key(d) implies balance_contents(b)[d] <= u128::MAX by {
        }
    }
    balance_normalize(&mut b);
    proof {
        let m = funds_map(funds@);
        assert forall|d: Seq<char>| #[trigger] m.contains_key(d) && m[d] > 0 <==> denom_total(funds@, d) > 0 by {
            if denom_total(funds@, d) > 0 && !m.contains_key(d) {
                lemma_absent_denom_total(funds@, d);
            }
        }
        assert(balance_contents(b) =~= m.restrict(Set::new(|d: Seq<char>| denom_total(funds@, d) > 0)));
    }
    b
}

/// A copy of a list of coins.
pub fn copy_coins(coins: &Vec<Coin>) -> (r: Vec<Coin>)
    ensures
        r@ == coins@,
{
    let mut r: Vec<Coin> = Vec::new();
    let mut i: usize = 0;
    while i < coins.len()
        invariant
            i <= coins.len(),
            r@ == coins@.take(i as int),
        decreases coins.len() - i,
    {
        r.push(Coin { denom: coins[i].denom.clone(), amount: coins[i].amount });
        assert(coins@.take(i + 1) =~= coins@.take(i as int).push(coins@[i as int]));
        i = i + 1;
    }
    assert(coins@.take(coins@.len() as int) =~= coins@);
    r
}

/// Whether two lists of coins add up to the same amount of every denom.
pub open spec fn same_totals(a: Seq<Coin>, b: Seq<Coin>) -> bool {
    forall|d: Seq<char>| #[trigger] denom_total(a, d) == denom_total(b, d)
}

/// Checks that the funds sent add up, denom by denom, to the funds expected; the order of the
/// coins, their repetition and zero amounts do not matter.
pub fn check_payment(sent_funds: &Vec<Coin>, expected_funds: &Vec<Coin>) -> (r: Result<
    (),
    CustomPaymentError,
>)
    requires
        totals_fit(sent_funds@),
        totals_fit(expected_funds@),
    ensures
        same_totals(sent_funds@, expected_funds@) ==> r == Ok::<(), CustomPaymentError>(()),
        !same_totals(sent_funds@, expected_funds@) ==> (r matches Err(
            CustomPaymentError::InsufficientFunds { expected, actual },
        ) && expected@ == expected_funds@ && actual@ == sent_funds@),
{
    let expected_balance = build_balance(expected_funds);
    let sent_balance = build_balance(sent_funds);
    let equal = balance_eq(&expected_balance, &sent_balance);
    proof {
        let me = funds_map(expected_funds@).restrict(Set::new(|d: Seq<char>| denom_total(expected_funds@, d) > 0));
        let ms = funds_map(sent_funds@).restrict(Set::new(|d: Seq<char>| denom_total(sent_funds@, d) > 0));
        if same_totals(sent_funds@, expected_funds@) {
            assert forall|d: Seq<char>| #[trigger] me.contains_key(d) == ms.contains_key(d) by {
                if me.contains_key(d) && !funds_map(sent_funds@).contains_key(d) {
                    lemma_absent_denom_total(sent_funds@, d);
                }
                if ms.contains_key(d) && !funds_map(expected_funds@).contains_key(d) {
                    lemma_absent_denom_total(expected_funds@, d);
                }
            }
            assert(me =~= ms);
        } else {
            let d = choose|d: Seq<char>| #[trigger] denom_total(sent_funds@, d) != denom_total(expected_funds@, d);
            if me == ms {
                if !funds_map(expected_funds@).contains_key(d) {
                    lemma_absent_denom_total(expected_funds@, d);
                }
                if !funds_map(sent_funds@).contains_key(d) {
                    lemma_absent_denom_total(sent_funds@, d);
                }
                if denom_total(expected_funds@, d) > 0 {
                    assert(me.contains_key(d));
                    assert(ms.contains_key(d));
                } else {
                    assert(ms.contains_key(d));
                    assert(me.contains_key(d));
                }
                assert(me[d] == ms[d]);
                assert(false);
            }
            assert(me != ms);
        }
    }
    if !equal {
        return Err(
            CustomPaymentError::InsufficientFunds {
                expected: copy_coins(expected_funds),
                actual: copy_coins(sent_funds),
            },
        );
    }
    Ok(())
}

} // verus!
