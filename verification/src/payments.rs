use crate::payment::{denom_total, lemma_absent_denom_total, lemma_total_of_prefix};
use crate::state::{BankSend, Coin};
use vstd::prelude::*;
use vstd::utf8::encode_utf8;

verus! {

/// Lexicographic order on byte strings, a proper prefix coming first.
pub open spec fn bytes_lt(a: Seq<u8>, b: Seq<u8>) -> bool
    decreases a.len(),
{
    if a.len() == 0 {
        b.len() > 0
    } else if b.len() == 0 {
        false
    } else if a[0] != b[0] {
        a[0] < b[0]
    } else {
        bytes_lt(a.drop_first(), b.drop_first())
    }
}

/// The order of texts, as `String`s compare: by their UTF-8 bytes.
pub open spec fn text_lt(a: Seq<char>, b: Seq<char>) -> bool {
    bytes_lt(encode_utf8(a), encode_utf8(b))
}

proof fn lemma_bytes_lt_irreflexive(a: Seq<u8>)
    ensures
        !bytes_lt(a, a),
    decreases a.len(),
{
    if a.len() > 0 {
        lemma_bytes_lt_irreflexive(a.drop_first());
    }
}

proof fn lemma_bytes_lt_transitive(a: Seq<u8>, b: Seq<u8>, c: Seq<u8>)
    requires
        bytes_lt(a, b),
        bytes_lt(b, c),
    ensures
        bytes_lt(a, c),
    decreases a.len(),
{
    if a.len() > 0 && b.len() > 0 && c.len() > 0 && a[0] == b[0] && b[0] == c[0] {
        lemma_bytes_lt_transitive(a.drop_first(), b.drop_first(), c.drop_first());
    }
}

proof fn lemma_bytes_lt_total(a: Seq<u8>, b: Seq<u8>)
    requires
        a != b,
    ensures
        bytes_lt(a, b) || bytes_lt(b, a),
    decreases a.len(),
{
    if a.len() == 0 && b.len() == 0 {
        assert(a =~= b);
    } else if a.len() > 0 && b.len() > 0 && a[0] == b[0] {
        if a.drop_first() =~= b.drop_first() {
            assert forall|i: int| 0 <= i < a.len() implies a[i] == b[i] by {
                if i > 0 {
                    assert(a[i] == a.drop_first()[i - 1]);
                    assert(b[i] == b.drop_first()[i - 1]);
                }
            }
            assert(a =~= b);
        }
        lemma_bytes_lt_total(a.drop_first(), b.drop_first());
    }
}

/// No text comes before itself.
pub proof fn lemma_text_lt_irreflexive(a: Seq<char>)
    ensures
        !text_lt(a, a),
{
    lemma_bytes_lt_irreflexive(encode_utf8(a));
}

/// The order of texts is transitive.
pub proof fn lemma_text_lt_transitive(a: Seq<char>, b: Seq<char>, c: Seq<char>)
    requires
        text_lt(a, b),
        text_lt(b, c),
    ensures
        text_lt(a, c),
{
    lemma_bytes_lt_transitive(encode_utf8(a), encode_utf8(b), encode_utf8(c));
}

/// Two different texts are ordered one way or the other: their encodings differ.
pub proof fn lemma_text_lt_total(a: Seq<char>, b: Seq<char>)
    requires
        a != b,
    ensures
        text_lt(a, b) || text_lt(b, a),
{
    vstd::utf8::encode_utf8_decode_utf8(a);
    vstd::utf8::encode_utf8_decode_utf8(b);
    lemma_bytes_lt_total(encode_utf8(a), encode_utf8(b));
}

fn bytes_less(x: &[u8], y: &[u8]) -> (r: bool)
    ensures
        r == bytes_lt(x@, y@),
{
    let mut i: usize = 0;
    assert(x@.skip(0) =~= x@);
    assert(y@.skip(0) =~= y@);
    while i < x.len() && i < y.len()
        invariant
            i <= x@.len(),
            i <= y@.len(),
            bytes_lt(x@, y@) == bytes_lt(x@.skip(i as int), y@.skip(i as int)),
        decreases x@.len() - i,
    {
        if x[i] != y[i] {
            return x[i] < y[i];
        }
        assert(x@.skip(i as int).drop_first() =~= x@.skip(i + 1));
        assert(y@.skip(i as int).drop_first() =~= y@.skip(i + 1));
        i = i + 1;
    }
    i == x.len() && i < y.len()
}

/// Whether `a` comes before `b` as `String`s compare.
fn text_less(a: &String, b: &String) -> (r: bool)
    ensures
        r == text_lt(a@, b@),
{
    bytes_less(a.as_str().as_bytes(), b.as_str().as_bytes())
}

/// The key of a payment: its recipient and its denom.
pub open spec fn key_of(p: BankSend) -> (Seq<char>, Seq<char>) {
    (p.to_address@, p.denom@)
}

/// Keys in recipient order, then in denom order for one recipient.
pub open spec fn key_lt(a: (Seq<char>, Seq<char>), b: (Seq<char>, Seq<char>)) -> bool {
    text_lt(a.0, b.0) || (a.0 == b.0 && text_lt(a.1, b.1))
}

/// Whether payments are in strictly increasing key order (so no key occurs twice).
pub open spec fn sorted_payments(s: Seq<BankSend>) -> bool {
    forall|i: int, j: int| 0 <= i < j < s.len() ==> key_lt(key_of(#[trigger] s[i]), key_of(#[trigger] s[j]))
}

/// Whether some payment has the key `k`.
pub open spec fn holds_key(s: Seq<BankSend>, k: (Seq<char>, Seq<char>)) -> bool {
    exists|i: int| 0 <= i < s.len() && key_of(#[trigger] s[i]) == k
}

/// The amount to pay for each key.
pub open spec fn payments_map(s: Seq<BankSend>) -> Map<(Seq<char>, Seq<char>), u128> {
    Map::new(
        |k: (Seq<char>, Seq<char>)| holds_key(s, k),
        |k: (Seq<char>, Seq<char>)| s[choose|i: int| 0 <= i < s.len() && key_of(#[trigger] s[i]) == k].amount,
    )
}

proof fn lemma_key_lt_irreflexive(a: (Seq<char>, Seq<char>))
    ensures
        !key_lt(a, a),
{
    lemma_text_lt_irreflexive(a.0);
    lemma_text_lt_irreflexive(a.1);
}

proof fn lemma_key_lt_transitive(a: (Seq<char>, Seq<char>), b: (Seq<char>, Seq<char>), c: (Seq<char>, Seq<char>))
    requires
        key_lt(a, b),
        key_lt(b, c),
    ensures
        key_lt(a, c),
{
    if text_lt(a.0, b.0) && text_lt(b.0, c.0) {
        lemma_text_lt_transitive(a.0, b.0, c.0);
    } else if a.0 == b.0 && b.0 == c.0 {
        lemma_text_lt_transitive(a.1, b.1, c.1);
    }
}

proof fn lemma_key_lt_total(a: (Seq<char>, Seq<char>), b: (Seq<char>, Seq<char>))
    requires
        a != b,
    ensures
        key_lt(a, b) || key_lt(b, a),
{
    if a.0 != b.0 {
        lemma_text_lt_total(a.0, b.0);
    } else {
        assert(a.1 != b.1);
        lemma_text_lt_total(a.1, b.1);
    }
}

/// In sorted payments the payment with a key is the only one with it, and the map gives its
/// amount.
proof fn lemma_map_at(s: Seq<BankSend>, i: int)
    requires
        sorted_payments(s),
        0 <= i < s.len(),
    ensures
        payments_map(s).contains_key(key_of(s[i])),
        payments_map(s)[key_of(s[i])] == s[i].amount,
{
    let k = key_of(s[i]);
    assert(holds_key(s, k));
    let c = choose|c: int| 0 <= c < s.len() && key_of(#[trigger] s[c]) == k;
    if c < i {
        assert(key_lt(key_of(s[c]), key_of(s[i])));
        lemma_key_lt_irreflexive(k);
    } else if i < c {
        assert(key_lt(key_of(s[i]), key_of(s[c])));
        lemma_key_lt_irreflexive(k);
    }
}

/// Payments to be made, at most one per recipient and denom: amounts added for the same
/// recipient and denom add up. They are kept in recipient order, then denom order.
///
/// They are held in a vector kept sorted by (recipient, denom), both compared by their UTF-8
/// bytes as `String`'s `Ord` compares them, rather than in maps keyed by strings: vstd states
/// what a `BTreeMap` holds only for key types whose order it specifies
/// (`key_obeys_cmp_spec`), and it specifies none for `String`, so nothing could be proved of
/// such a map's contents. The type invariant keeps what the maps gave: one entry per key, in
/// key order, which is the order in which the transfers come out.
pub struct Payments {
    payments: Vec<BankSend>,
}

impl View for Payments {
    type V = Seq<BankSend>;

    closed spec fn view(&self) -> Seq<BankSend> {
        self.payments@
    }
}

/// The amount already due for a key, zero when none is.
pub open spec fn due(m: Map<(Seq<char>, Seq<char>), u128>, k: (Seq<char>, Seq<char>)) -> int {
    if m.contains_key(k) {
        m[k] as int
    } else {
        0
    }
}

impl Payments {
    #[verifier::type_invariant]
    spec fn in_key_order(self) -> bool {
        sorted_payments(self.payments@)
    }

    /// No payment.
    pub fn new() -> (p: Payments)
        ensures
            p@ == Seq::<BankSend>::empty(),
    {
        Payments { payments: Vec::new() }
    }

    /// Adds `coin` to what `address` is paid: to its amount of the coin's denom if it is already
    /// paid in that denom, as a new payment otherwise.
    pub fn add_payment(&mut self, address: String, coin: Coin)
        requires
            due(payments_map(old(self)@), (address@, coin.denom@)) + coin.amount <= u128::MAX,
        ensures
            sorted_payments(final(self)@),
            payments_map(final(self)@) == payments_map(old(self)@).insert(
                (address@, coin.denom@),
                (due(payments_map(old(self)@), (address@, coin.denom@)) + coin.amount) as u128,
            ),
    {
        proof {
            use_type_invariant(&*self);
        }
        let ghost old_s = self.payments@;
        let ghost k = (address@, coin.denom@);
        let ghost total = (due(payments_map(old_s), k) + coin.amount) as u128;
        let mut v: Vec<BankSend> = Vec::new();
        std::mem::swap(&mut v, &mut self.payments);
        let mut i: usize = 0;
        while i < v.len()
            invariant
                v@ == old_s,
                old(self)@ == old_s,
                sorted_payments(old_s),
                i <= v@.len(),
                k == (address@, coin.denom@),
                total == (due(payments_map(old_s), k) + coin.amount) as u128,
                due(payments_map(old_s), k) + coin.amount <= u128::MAX,
                forall|j: int| 0 <= j < i ==> key_lt(key_of(#[trigger] old_s[j]), k),
            decreases v@.len() - i,
        {
            let same_address = v[i].to_address == address;
            if same_address && v[i].denom == coin.denom {
                proof {
                    lemma_map_at(old_s, i as int);
                }
                let amount = v[i].amount + coin.amount;
                let updated = BankSend {
                    to_address: v[i].to_address.clone(),
                    denom: v[i].denom.clone(),
                    amount,
                };
                proof {
                    lemma_update_keeps_order(old_s, i as int, updated);
                }
                v.set(i, updated);
                self.payments = v;
                return ;
            }
            let before = text_less(&address, &v[i].to_address) || (same_address && text_less(
                &coin.denom,
                &v[i].denom,
            ));
            if before {
                let p = BankSend { to_address: address, denom: coin.denom, amount: coin.amount };
                proof {
                    lemma_insert_keeps_order(old_s, i as int, p);
                }
                v.insert(i, p);
                self.payments = v;
                return ;
            }
            proof {
                lemma_key_lt_total(key_of(old_s[i as int]), k);
            }
            i = i + 1;
        }
        let p = BankSend { to_address: address, denom: coin.denom, amount: coin.amount };
        proof {
            lemma_insert_keeps_order(old_s, old_s.len() as int, p);
            assert(old_s.insert(old_s.len() as int, p) =~= old_s.push(p));
        }
        v.push(p);
        self.payments = v;
    }
}

impl Payments {
    /// Adds each of `coins`, in turn, to what `address` is paid.
    pub fn add_payments(&mut self, address: String, coins: Vec<Coin>)
        requires
            forall|d: Seq<char>| #[trigger] due(payments_map(old(self)@), (address@, d)) + denom_total(coins@, d) <= u128::MAX,
        ensures
            sorted_payments(final(self)@),
            payments_map(final(self)@) == with_coins(payments_map(old(self)@), address@, coins@),
    {
        proof {
            use_type_invariant(&*self);
            assert(coins@.take(0) =~= Seq::<Coin>::empty());
            assert(with_coins(payments_map(self@), address@, coins@.take(0)) =~= payments_map(self@));
        }
        let ghost m0 = payments_map(self@);
        let mut i: usize = 0;
        while i < coins.len()
            invariant
                i <= coins@.len(),
                m0 == payments_map(old(self)@),
                sorted_payments(self@),
                payments_map(self@) == with_coins(m0, address@, coins@.take(i as int)),
                forall|d: Seq<char>| #[trigger] due(m0, (address@, d)) + denom_total(coins@, d) <= u128::MAX,
            decreases coins@.len() - i,
        {
            let ghost cur = payments_map(self@);
            let ghost before = coins@.take(i as int);
            let ghost after = coins@.take(i + 1);
            let ghost d = coins@[i as int].denom@;
            proof {
                assert(after.drop_last() =~= before);
                lemma_total_of_prefix(coins@, i + 1, d);
                assert(due(m0, (address@, d)) + denom_total(coins@, d) <= u128::MAX);
                lemma_due_with_coins(m0, address@, before, d);
            }
            let coin = Coin { denom: coins[i].denom.clone(), amount: coins[i].amount };
            self.add_payment(address.clone(), coin);
            proof {
                lemma_with_one_more_coin(m0, address@, coins@, i as int);
            }
            i = i + 1;
        }
        proof {
            assert(coins@.take(coins@.len() as int) =~= coins@);
        }
    }

    /// The transfers that make the payments: one per recipient, in recipient order, each with
    /// its coins in denom order.
    pub fn to_cosmos_msgs(self) -> (r: Vec<MultiSend>)
        ensures
            flatten(r@) == payment_views(self@),
            forall|i: int| 0 <= i < r@.len() ==> (#[trigger] r@[i]).amount@.len() > 0,
            forall|i: int, j: int|
                0 <= i < j < r@.len() ==> text_lt(
                    (#[trigger] r@[i]).to_address@,
                    (#[trigger] r@[j]).to_address@,
                ),
    {
        proof {
            use_type_invariant(&self);
            assert(payment_views(self@.take(0)) =~= Seq::empty());
        }
        let ghost s = self.payments@;
        let mut msgs: Vec<MultiSend> = Vec::new();
        let mut i: usize = 0;
        while i < self.payments.len()
            invariant
                s == self.payments@,
                sorted_payments(s),
                i <= s.len(),
                flatten(msgs@) == payment_views(s.take(i as int)),
                forall|a: int| 0 <= a < msgs@.len() ==> (#[trigger] msgs@[a]).amount@.len() > 0,
                forall|a: int, b: int|
                    0 <= a < b < msgs@.len() ==> text_lt(
                        (#[trigger] msgs@[a]).to_address@,
                        (#[trigger] msgs@[b]).to_address@,
                    ),
                i == 0 ==> msgs@.len() == 0,
                i > 0 ==> msgs@.len() > 0 && msgs@.last().to_address@ == s[i - 1].to_address@,
            decreases s.len() - i,
        {
            let p = &self.payments[i];
            let ghost old_msgs = msgs@;
            proof {
                assert(payment_views(s.take(i + 1)) =~= payment_views(s.take(i as int)).push(
                    payment_view(s[i as int]),
                ));
            }
            let n = msgs.len();
            if n > 0 && msgs[n - 1].to_address == p.to_address {
                let mut last = msgs.pop().unwrap();
                let ghost last0 = last;
                last.amount.push(Coin { denom: p.denom.clone(), amount: p.amount });
                msgs.push(last);
                proof {
                    assert(old_msgs.drop_last().push(last0) =~= old_msgs);
                    assert(msgs@ =~= old_msgs.drop_last().push(last));
                    assert(sends_of(last) =~= sends_of(last0).push(payment_view(s[i as int])));
                    assert(msgs@.drop_last() =~= old_msgs.drop_last());
                    assert forall|a: int, b: int|
                        0 <= a < b < msgs@.len() implies text_lt(
                        (#[trigger] msgs@[a]).to_address@,
                        (#[trigger] msgs@[b]).to_address@,
                    ) by {
                        assert(msgs@[a].to_address == old_msgs[a].to_address);
                        assert(msgs@[b].to_address == old_msgs[b].to_address);
                    }
                }
            } else {
                let m = MultiSend {
                    to_address: p.to_address.clone(),
                    amount: vec![Coin { denom: p.denom.clone(), amount: p.amount }],
                };
                proof {
                    assert(sends_of(m) =~= seq![payment_view(s[i as int])]);
                    if n > 0 {
                        assert(key_lt(key_of(s[i - 1]), key_of(s[i as int])));
                        assert forall|a: int| 0 <= a < old_msgs.len() implies text_lt(
                            (#[trigger] old_msgs[a]).to_address@,
                            m.to_address@,
                        ) by {
                            if a < old_msgs.len() - 1 {
                                lemma_text_lt_transitive(
                                    old_msgs[a].to_address@,
                                    old_msgs.last().to_address@,
                                    m.to_address@,
                                );
                            }
                        }
                    }
                }
                msgs.push(m);
                proof {
                    assert(msgs@.drop_last() =~= old_msgs);
                }
            }
            i = i + 1;
        }
        proof {
            assert(s.take(s.len() as int) =~= s);
        }
        msgs
    }
}

/// A transfer of several coins to one recipient.
#[derive(Clone, Debug, PartialEq, Eq)]
pub struct MultiSend {
    pub to_address: String,
    pub amount: Vec<Coin>,
}

/// A payment as plain values: recipient, denom, amount.
pub open spec fn payment_view(p: BankSend) -> (Seq<char>, Seq<char>, u128) {
    (p.to_address@, p.denom@, p.amount)
}

pub open spec fn payment_views(s: Seq<BankSend>) -> Seq<(Seq<char>, Seq<char>, u128)> {
    s.map_values(|p: BankSend| payment_view(p))
}

/// The payments a transfer makes, one per coin.
pub open spec fn sends_of(m: MultiSend) -> Seq<(Seq<char>, Seq<char>, u128)> {
    m.amount@.map_values(|c: Coin| (m.to_address@, c.denom@, c.amount))
}

/// The payments a list of transfers makes, in order.
pub open spec fn flatten(ms: Seq<MultiSend>) -> Seq<(Seq<char>, Seq<char>, u128)>
    decreases ms.len(),
{
    if ms.len() == 0 {
        Seq::empty()
    } else {
        flatten(ms.drop_last()) + sends_of(ms.last())
    }
}

/// The amounts due once `coins` are added, in turn, for `address`.
pub open spec fn with_coins(
    m: Map<(Seq<char>, Seq<char>), u128>,
    address: Seq<char>,
    coins: Seq<Coin>,
) -> Map<(Seq<char>, Seq<char>), u128> {
    Map::new(
        |k: (Seq<char>, Seq<char>)|
            m.contains_key(k) || (k.0 == address && exists|i: int|
                0 <= i < coins.len() && (#[trigger] coins[i]).denom@ == k.1),
        |k: (Seq<char>, Seq<char>)|
            (due(m, k) + if k.0 == address {
                denom_total(coins, k.1) as int
            } else {
                0
            }) as u128,
    )
}

/// What is due for a key once some coins are added is what was due plus their total.
proof fn lemma_due_with_coins(
    m: Map<(Seq<char>, Seq<char>), u128>,
    address: Seq<char>,
    coins: Seq<Coin>,
    d: Seq<char>,
)
    requires
        due(m, (address, d)) + denom_total(coins, d) <= u128::MAX,
    ensures
        due(with_coins(m, address, coins), (address, d)) == due(m, (address, d)) + denom_total(coins, d),
{
    let k = (address, d);
    if !with_coins(m, address, coins).contains_key(k) {
        lemma_absent_denom_total(coins, d);
    }
}

/// Adding one more coin to the amounts due for a prefix of the coins gives the amounts due for
/// the longer prefix.
proof fn lemma_with_one_more_coin(
    m: Map<(Seq<char>, Seq<char>), u128>,
    address: Seq<char>,
    coins: Seq<Coin>,
    i: int,
)
    requires
        0 <= i < coins.len(),
        forall|d: Seq<char>| #[trigger] due(m, (address, d)) + denom_total(coins, d) <= u128::MAX,
    ensures
        ({
            let cur = with_coins(m, address, coins.take(i));
            let k = (address, coins[i].denom@);
            cur.insert(k, (due(cur, k) + coins[i].amount) as u128) == with_coins(m, address, coins.take(i + 1))
        }),
{
    let before = coins.take(i);
    let after = coins.take(i + 1);
    let cur = with_coins(m, address, before);
    let d = coins[i].denom@;
    let k = (address, d);
    let lhs = cur.insert(k, (due(cur, k) + coins[i].amount) as u128);
    let rhs = with_coins(m, address, after);
    assert(after.drop_last() =~= before);
    assert(after.last() == coins[i]);
    assert forall|q: (Seq<char>, Seq<char>)| #[trigger] lhs.contains_key(q) == rhs.contains_key(q) by {
        if q.0 == address {
            if exists|j: int| 0 <= j < before.len() && (#[trigger] before[j]).denom@ == q.1 {
                let j = choose|j: int| 0 <= j < before.len() && (#[trigger] before[j]).denom@ == q.1;
                assert(after[j] == before[j]);
            }
            if exists|j: int| 0 <= j < after.len() && (#[trigger] after[j]).denom@ == q.1 {
                let j = choose|j: int| 0 <= j < after.len() && (#[trigger] after[j]).denom@ == q.1;
                if j < i {
                    assert(before[j] == after[j]);
                }
            }
            if q.1 == d {
                assert(after[i].denom@ == d);
            }
        }
    }
    assert forall|q: (Seq<char>, Seq<char>)| #[trigger] lhs.contains_key(q) implies lhs[q] == rhs[q] by {
        lemma_total_of_prefix(coins, i, q.1);
        lemma_total_of_prefix(coins, i + 1, q.1);
        if q.0 == address {
            assert(due(m, (address, q.1)) + denom_total(coins, q.1) <= u128::MAX);
        }
        if q == k {
            lemma_due_with_coins(m, address, before, d);
        }
    }
    assert(lhs =~= rhs);
}

/// Changing the amount of one payment keeps the order and changes the map at its key only.
proof fn lemma_update_keeps_order(s: Seq<BankSend>, i: int, p: BankSend)
    requires
        sorted_payments(s),
        0 <= i < s.len(),
        key_of(p) == key_of(s[i]),
    ensures
        ({
            let t = s.update(i, p);
            &&& sorted_payments(t)
            &&& payments_map(t) == payments_map(s).insert(key_of(p), p.amount)
        }),
{
    let t = s.update(i, p);
    assert(sorted_payments(t)) by {
        assert forall|a: int, b: int| 0 <= a < b < t.len() implies key_lt(key_of(#[trigger] t[a]), key_of(#[trigger] t[b])) by {
            assert(key_of(t[a]) == key_of(s[a]));
            assert(key_of(t[b]) == key_of(s[b]));
        }
    }
    let m = payments_map(s).insert(key_of(p), p.amount);
    assert forall|q: (Seq<char>, Seq<char>)| #[trigger] payments_map(t).contains_key(q) == m.contains_key(q) by {
        if holds_key(t, q) {
            let c = choose|c: int| 0 <= c < t.len() && key_of(#[trigger] t[c]) == q;
            assert(key_of(s[c]) == q);
        }
        if holds_key(s, q) {
            let c = choose|c: int| 0 <= c < s.len() && key_of(#[trigger] s[c]) == q;
            assert(key_of(t[c]) == q);
        }
    }
    assert forall|q: (Seq<char>, Seq<char>)| #[trigger] payments_map(t).contains_key(q) implies payments_map(t)[q] == m[q] by {
        let c = choose|c: int| 0 <= c < t.len() && key_of(#[trigger] t[c]) == q;
        lemma_map_at(t, c);
        if c != i {
            lemma_map_at(s, c);
            assert(key_of(s[c]) != key_of(s[i])) by {
                if c < i {
                    assert(key_lt(key_of(s[c]), key_of(s[i])));
                } else {
                    assert(key_lt(key_of(s[i]), key_of(s[c])));
                }
                lemma_key_lt_irreflexive(key_of(s[i]));
            }
        }
    }
    assert(payments_map(t) =~= m);
}

/// Inserting a payment whose key lies strictly between its neighbours keeps the order and adds
/// its key to the map.
proof fn lemma_insert_keeps_order(s: Seq<BankSend>, i: int, p: BankSend)
    requires
        sorted_payments(s),
        0 <= i <= s.len(),
        forall|j: int| 0 <= j < i ==> key_lt(key_of(#[trigger] s[j]), key_of(p)),
        i < s.len() ==> key_lt(key_of(p), key_of(s[i])),
    ensures
        ({
            let t = s.insert(i, p);
            &&& sorted_payments(t)
            &&& !payments_map(s).contains_key(key_of(p))
            &&& payments_map(t) == payments_map(s).insert(key_of(p), p.amount)
        }),
{
    let t = s.insert(i, p);
    let k = key_of(p);
    assert forall|j: int| i <= j < s.len() implies key_lt(k, key_of(#[trigger] s[j])) by {
        if j > i {
            lemma_key_lt_transitive(k, key_of(s[i]), key_of(s[j]));
        }
    }
    assert(sorted_payments(t)) by {
        assert forall|a: int, b: int| 0 <= a < b < t.len() implies key_lt(key_of(#[trigger] t[a]), key_of(#[trigger] t[b])) by {
            if b < i {
            } else if b == i {
            } else if a < i {
                lemma_key_lt_transitive(key_of(t[a]), k, key_of(t[b]));
            } else if a == i {
            } else {
                assert(t[a] == s[a - 1]);
                assert(t[b] == s[b - 1]);
            }
        }
    }
    assert(!holds_key(s, k)) by {
        if holds_key(s, k) {
            let c = choose|c: int| 0 <= c < s.len() && key_of(#[trigger] s[c]) == k;
            lemma_key_lt_irreflexive(k);
            if c < i {
                assert(key_lt(key_of(s[c]), k));
            } else {
                assert(key_lt(k, key_of(s[c])));
            }
        }
    }
    let m = payments_map(s).insert(k, p.amount);
    assert forall|q: (Seq<char>, Seq<char>)| #[trigger] payments_map(t).contains_key(q) == m.contains_key(q) by {
        if holds_key(t, q) {
            let c = choose|c: int| 0 <= c < t.len() && key_of(#[trigger] t[c]) == q;
            if c < i {
                assert(key_of(s[c]) == q);
            } else if c > i {
                assert(key_of(s[c - 1]) == q);
            }
        }
        if holds_key(s, q) {
            let c = choose|c: int| 0 <= c < s.len() && key_of(#[trigger] s[c]) == q;
            if c < i {
                assert(key_of(t[c]) == q);
            } else {
                assert(key_of(t[c + 1]) == q);
            }
        }
        if q == k {
            assert(key_of(t[i]) == q);
        }
    }
    assert forall|q: (Seq<char>, Seq<char>)| #[trigger] payments_map(t).contains_key(q) implies payments_map(t)[q] == m[q] by {
        let c = choose|c: int| 0 <= c < t.len() && key_of(#[trigger] t[c]) == q;
        lemma_map_at(t, c);
        if c < i {
            lemma_map_at(s, c);
            assert(t[c] == s[c]);
        } else if c > i {
            lemma_map_at(s, c - 1);
            assert(t[c] == s[c - 1]);
        }
    }
    assert(payments_map(t) =~= m);
}

} // verus!
