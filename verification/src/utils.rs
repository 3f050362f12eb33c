use vstd::prelude::*;
use crate::errors::ErrorCode;
use crate::pubkey::Pubkey;
use crate::state::Position;

verus! {

/// `i` is the first position in `s` whose mint is `m`.
pub open spec fn first_with(s: Seq<Position>, m: Pubkey, i: int) -> bool {
    &&& 0 <= i < s.len()
    &&& s[i].mint == m
    &&& forall|j: int| 0 <= j < i ==> s[j].mint != m
}

/// The index of the first position whose mint is `m`, if any.
pub open spec fn index_with(s: Seq<Position>, m: Pubkey) -> Option<int> {
    if exists|i: int| first_with(s, m, i) {
        Some(choose|i: int| first_with(s, m, i))
    } else {
        None
    }
}

/// The slot that serves mint `m`: the first position holding `m`, else the first free one.
pub open spec fn slot_for(s: Seq<Position>, m: Pubkey) -> Option<int> {
    match index_with(s, m) {
        Some(i) => Some(i),
        None => index_with(s, Pubkey::empty()),
    }
}

proof fn lemma_first_with_unique(s: Seq<Position>, m: Pubkey, i: int)
    requires
        first_with(s, m, i),
    ensures
        index_with(s, m) == Some(i),
{
    let c = choose|k: int| first_with(s, m, k);
    assert(first_with(s, m, c));
    if c < i {
        assert(s[c].mint != m);
    } else if c > i {
        assert(s[i].mint != m);
    }
}

fn find_first(positions: &[Position], mint: Pubkey) -> (r: Option<usize>)
    ensures
        match r {
            Some(i) => index_with(positions@, mint) == Some(i as int),
            None => index_with(positions@, mint) is None,
        },
{
    let mut i: usize = 0;
    while i < positions.len()
        invariant
            i <= positions@.len(),
            forall|j: int| 0 <= j < i ==> positions@[j].mint != mint,
        decreases positions@.len() - i,
    {
        if positions[i].mint.key_eq(&mint) {
            proof {
                lemma_first_with_unique(positions@, mint, i as int);
            }
            return Some(i);
        }
        i = i + 1;
    }
    None
}

/// Returns the index of the position if it exists, otherwise returns the next available index.
/// Returns an error if the maximum number of positions is reached.
pub fn get_position_index(positions: &[Position], mint: Pubkey) -> (r: Result<usize, ErrorCode>)
    ensures
        match r {
            Ok(i) => slot_for(positions@, mint) == Some(i as int),
            Err(e) => slot_for(positions@, mint) is None && e == ErrorCode::MaxPositionsReached,
        },
{
    match find_first(positions, mint) {
        Some(i) => Ok(i),
        None => {
            let free = Pubkey::default();
            match find_first(positions, free) {
                Some(i) => Ok(i),
                None => Err(ErrorCode::MaxPositionsReached),
            }
        },
    }
}

/// Returns the position if it exists, otherwise returns the next available position.
/// Returns an error if the maximum number of positions is reached.
pub fn get_position(positions: &mut [Position], mint: Pubkey) -> (r: Result<&mut Position, ErrorCode>)
    ensures
        match r {
            Ok(p) => slot_for(old(positions)@, mint) matches Some(i) && *p == old(positions)@[i]
                && final(positions)@ == old(positions)@.update(i, *final(p)),
            Err(e) => slot_for(old(positions)@, mint) is None && e == ErrorCode::MaxPositionsReached
                && final(positions)@ == old(positions)@,
        },
{
    let i = get_position_index(positions, mint)?;
    Ok(&mut positions[i])
}


proof fn lemma_slot_for(s: Seq<Position>, m: Pubkey)
    ensures
        slot_for(s, m) matches Some(i) ==> {
            &&& 0 <= i < s.len()
            &&& s[i].mint == m || (s[i].mint == Pubkey::empty() && forall|j: int|
                0 <= j < s.len() ==> s[j].mint != m)
        },
{
    if let Some(i) = index_with(s, m) {
        assert(first_with(s, m, i));
    } else if let Some(i) = index_with(s, Pubkey::empty()) {
        assert(first_with(s, Pubkey::empty(), i));
        assert forall|j: int| 0 <= j < s.len() implies s[j].mint != m by {
            if s[j].mint == m {
                assert(first_with(s, m, j) || exists|k: int| first_with(s, m, k)) by {
                    lemma_least_exists(s, m, j);
                }
            }
        }
    }
}

proof fn lemma_least_exists(s: Seq<Position>, m: Pubkey, j: int)
    requires
        0 <= j < s.len(),
        s[j].mint == m,
    ensures
        exists|k: int| first_with(s, m, k),
    decreases j,
{
    if forall|k: int| 0 <= k < j ==> s[k].mint != m {
        assert(first_with(s, m, j));
    } else {
        let k = choose|k: int| 0 <= k < j && s[k].mint == m;
        lemma_least_exists(s, m, k);
    }
}

/// Positions after adding `a` of mint `m`, or the error that refuses it.
pub open spec fn spec_increase(s: Seq<Position>, m: Pubkey, a: u64) -> Result<Seq<Position>, ErrorCode> {
    match slot_for(s, m) {
        None => Err(ErrorCode::MaxPositionsReached),
        Some(i) => Ok(s.update(i, Position { mint: m, amount: (s[i].amount + a) as u64 })),
    }
}

/// Adding `a` of mint `m` does not overflow the slot that serves it.
pub open spec fn increase_fits(s: Seq<Position>, m: Pubkey, a: u64) -> bool {
    slot_for(s, m) matches Some(i) ==> s[i].amount + a <= u64::MAX
}

/// Positions after taking `a` of mint `m` away, freeing the slot when it reaches zero,
/// or the error that refuses it.
pub open spec fn spec_decrease(s: Seq<Position>, m: Pubkey, a: u64) -> Result<Seq<Position>, ErrorCode> {
    match slot_for(s, m) {
        None => Err(ErrorCode::MaxPositionsReached),
        Some(i) => if s[i].mint != m {
            Err(ErrorCode::PositionNotFound)
        } else if s[i].amount < a {
            Err(ErrorCode::InsufficientBalance)
        } else if s[i].amount == a {
            Ok(s.update(i, Position::empty()))
        } else {
            Ok(s.update(i, Position { mint: m, amount: (s[i].amount - a) as u64 }))
        },
    }
}

/// Positions after taking `a` of mint `m` away while the slot keeps its mint even at zero,
/// or the error that refuses it.
pub open spec fn spec_decrease_keeping_slot(s: Seq<Position>, m: Pubkey, a: u64) -> Result<Seq<Position>, ErrorCode> {
    match slot_for(s, m) {
        None => Err(ErrorCode::MaxPositionsReached),
        Some(i) => if s[i].mint != m {
            Err(ErrorCode::PositionNotFound)
        } else if s[i].amount < a {
            Err(ErrorCode::InsufficientBalance)
        } else {
            Ok(s.update(i, Position { mint: m, amount: (s[i].amount - a) as u64 }))
        },
    }
}

/// Whether adding `amount` of `mint` would stay within range, so that
/// `increase_position` may be called.
pub fn increase_no_overflow(positions: &[Position], mint: Pubkey, amount: u64) -> (r: bool)
    ensures
        r == increase_fits(positions@, mint, amount),
{
    match get_position_index(positions, mint) {
        Ok(i) => positions[i].amount <= u64::MAX - amount,
        Err(_) => true,
    }
}

/// Decreases the amount of a position by the given amount.
/// Checks if the position exists and has enough balance;
/// a position that reaches 0 is set to default.
pub fn decrease_position(positions: &mut [Position], mint: Pubkey, amount: u64) -> (r: Result<(), ErrorCode>)
    ensures
        match spec_decrease(old(positions)@, mint, amount) {
            Ok(s) => r is Ok && final(positions)@ == s,
            Err(e) => r == Err::<(), ErrorCode>(e) && final(positions)@ == old(positions)@,
        },
{
    let position = get_position(positions, mint)?;
    if !position.mint.key_eq(&mint) {
        return Err(ErrorCode::PositionNotFound);
    }
    if position.amount < amount {
        return Err(ErrorCode::InsufficientBalance);
    }
    position.amount = position.amount - amount;
    if position.amount == 0 {
        position.mint = Pubkey::default();
    }
    Ok(())
}

/// Increases the amount of a position by the given amount;
/// the position is created if it does not exist.
pub fn increase_position(positions: &mut [Position], mint: Pubkey, amount: u64) -> (r: Result<(), ErrorCode>)
    requires
        increase_fits(old(positions)@, mint, amount),
    ensures
        match spec_increase(old(positions)@, mint, amount) {
            Ok(s) => r is Ok && final(positions)@ == s,
            Err(e) => r == Err::<(), ErrorCode>(e) && final(positions)@ == old(positions)@,
        },
{
    proof {
        lemma_slot_for(positions@, mint);
    }
    let position = get_position(positions, mint)?;
    if position.mint.is_none() {
        position.mint = mint;
    }
    position.amount = position.amount + amount;
    Ok(())
}

/// What one position contributes to the balance of mint `m`.
pub open spec fn held(p: Position, m: Pubkey) -> int {
    if p.mint == m {
        p.amount as int
    } else {
        0
    }
}

/// The total amount of mint `m` over all positions.
pub open spec fn balance(s: Seq<Position>, m: Pubkey) -> int
    decreases s.len(),
{
    if s.len() == 0 {
        0
    } else {
        balance(s.drop_last(), m) + held(s.last(), m)
    }
}

/// No balance is negative.
pub proof fn lemma_balance_nonneg(s: Seq<Position>, m: Pubkey)
    ensures
        balance(s, m) >= 0,
    decreases s.len(),
{
    if s.len() > 0 {
        lemma_balance_nonneg(s.drop_last(), m);
    }
}

/// Free slots hold nothing, and no mint occupies two slots.
pub open spec fn positions_wf(s: Seq<Position>) -> bool {
    &&& forall|i: int| 0 <= i < s.len() && s[i].mint == Pubkey::empty() ==> s[i].amount == 0
    &&& forall|i: int, j: int|
        0 <= i < s.len() && 0 <= j < s.len() && i != j && s[i].mint == s[j].mint
            ==> s[i].mint == Pubkey::empty()
}

/// Whether some position holds mint `m`.
pub open spec fn holds(s: Seq<Position>, m: Pubkey) -> bool {
    exists|i: int| 0 <= i < s.len() && s[i].mint == m
}

/// Writing one slot changes a balance by what the slot held and now holds.
pub proof fn lemma_balance_update(s: Seq<Position>, i: int, p: Position, m: Pubkey)
    requires
        0 <= i < s.len(),
    ensures
        balance(s.update(i, p), m) == balance(s, m) - held(s[i], m) + held(p, m),
    decreases s.len(),
{
    let t = s.update(i, p);
    if i == s.len() - 1 {
        assert(t.drop_last() =~= s.drop_last());
    } else {
        assert(t.drop_last() =~= s.drop_last().update(i, p));
        lemma_balance_update(s.drop_last(), i, p, m);
    }
}

/// In well-formed positions a mint that no slot holds has a zero balance,
/// and one that a slot holds has that slot's amount.
pub proof fn lemma_balance_wf(s: Seq<Position>, m: Pubkey)
    requires
        positions_wf(s),
    ensures
        !holds(s, m) ==> balance(s, m) == 0,
        forall|i: int| 0 <= i < s.len() && s[i].mint == m ==> balance(s, m) == s[i].amount,
    decreases s.len(),
{
    if s.len() > 0 {
        let d = s.drop_last();
        assert(positions_wf(d));
        lemma_balance_wf(d, m);
        let n = s.len() - 1;
        if !holds(s, m) {
            assert(!holds(d, m)) by {
                if holds(d, m) {
                    let k = choose|k: int| 0 <= k < d.len() && d[k].mint == m;
                    assert(s[k].mint == m);
                }
            }
        }
        assert forall|i: int| 0 <= i < s.len() && s[i].mint == m implies balance(s, m) == s[i].amount by {
            if i == n {
                if holds(d, m) {
                    let k = choose|k: int| 0 <= k < d.len() && d[k].mint == m;
                    assert(s[k].mint == m);
                    assert(m == Pubkey::empty());
                    assert(d[k].amount == 0);
                    assert(s[n].amount == 0);
                }
            } else {
                assert(d[i].mint == m);
                if s[n].mint == m {
                    assert(m == Pubkey::empty());
                }
            }
        }
    }
}

/// Adding `a` of a mint that is not the free marker keeps positions well formed,
/// raises that mint's balance by `a`, and leaves every other balance as it was.
pub proof fn law_increase_balances(s: Seq<Position>, m: Pubkey, a: u64)
    requires
        positions_wf(s),
        m != Pubkey::empty(),
        increase_fits(s, m, a),
    ensures
        spec_increase(s, m, a) is Err <==> (!holds(s, m) && !holds(s, Pubkey::empty())),
        spec_increase(s, m, a) matches Ok(t) ==> {
            &&& positions_wf(t)
            &&& t.len() == s.len()
            &&& holds(t, m)
            &&& forall|k: Pubkey| k != Pubkey::empty() && #[trigger] holds(s, k) ==> holds(t, k)
            &&& balance(t, m) == balance(s, m) + a
            &&& forall|k: Pubkey| k != m ==> balance(t, k) == balance(s, k)
        },
{
    lemma_slot_for(s, m);
    lemma_slot_none(s, m);
    if let Some(i) = slot_for(s, m) {
        let p = Position { mint: m, amount: (s[i].amount + a) as u64 };
        let t = s.update(i, p);
        assert(t[i].mint == m);
        assert forall|k: Pubkey| k != Pubkey::empty() && #[trigger] holds(s, k) implies holds(t, k) by {
            let j = choose|j: int| 0 <= j < s.len() && s[j].mint == k;
            if j == i {
                assert(t[i].mint == k);
            } else {
                assert(t[j].mint == k);
            }
        }
        lemma_balance_update(s, i, p, m);
        assert forall|k: Pubkey| k != m implies balance(t, k) == balance(s, k) by {
            lemma_balance_update(s, i, p, k);
        }
        assert forall|x: int, y: int|
            0 <= x < t.len() && 0 <= y < t.len() && x != y && t[x].mint == t[y].mint
                implies t[x].mint == Pubkey::empty() by {
            if x == i || y == i {
                let o = if x == i { y } else { x };
                assert(t[o] == s[o]);
            }
        }
    }
}

/// When no slot serves a mint, no slot holds it and none is free.
proof fn lemma_slot_none(s: Seq<Position>, m: Pubkey)
    ensures
        slot_for(s, m) is None <==> (!holds(s, m) && !holds(s, Pubkey::empty())),
{
    if holds(s, m) {
        let j = choose|j: int| 0 <= j < s.len() && s[j].mint == m;
        lemma_least_exists(s, m, j);
    }
    if holds(s, Pubkey::empty()) {
        let j = choose|j: int| 0 <= j < s.len() && s[j].mint == Pubkey::empty();
        lemma_least_exists(s, Pubkey::empty(), j);
    }
    if let Some(i) = index_with(s, m) {
        assert(first_with(s, m, i));
    }
    if let Some(i) = index_with(s, Pubkey::empty()) {
        assert(first_with(s, Pubkey::empty(), i));
    }
}

/// Taking `a` of a mint that is not the free marker away from well-formed positions
/// succeeds exactly when a slot holds the mint with a balance of at least `a`; each refusal
/// comes on the inputs named here. On success the positions stay well formed, that mint's
/// balance drops by `a`, and every other balance is as it was.
pub proof fn law_decrease_balances(s: Seq<Position>, m: Pubkey, a: u64)
    requires
        positions_wf(s),
        m != Pubkey::empty(),
    ensures
        spec_decrease(s, m, a) is Ok <==> (holds(s, m) && balance(s, m) >= a),
        spec_decrease(s, m, a) == Err::<Seq<Position>, ErrorCode>(ErrorCode::MaxPositionsReached)
            <==> (!holds(s, m) && !holds(s, Pubkey::empty())),
        spec_decrease(s, m, a) == Err::<Seq<Position>, ErrorCode>(ErrorCode::PositionNotFound)
            <==> (!holds(s, m) && holds(s, Pubkey::empty())),
        spec_decrease(s, m, a) == Err::<Seq<Position>, ErrorCode>(ErrorCode::InsufficientBalance)
            <==> (holds(s, m) && balance(s, m) < a),
        spec_decrease(s, m, a) matches Ok(t) ==> {
            &&& positions_wf(t)
            &&& t.len() == s.len()
            &&& balance(t, m) == balance(s, m) - a
            &&& forall|k: Pubkey| k != m ==> balance(t, k) == balance(s, k)
        },
{
    lemma_slot_for(s, m);
    lemma_slot_none(s, m);
    lemma_balance_wf(s, m);
    if let Some(i) = slot_for(s, m) {
        if s[i].mint == m {
            assert(holds(s, m));
            if s[i].amount >= a {
                let p = if s[i].amount == a {
                    Position::empty()
                } else {
                    Position { mint: m, amount: (s[i].amount - a) as u64 }
                };
                let t = s.update(i, p);
                assert(spec_decrease(s, m, a) == Ok::<Seq<Position>, ErrorCode>(t));
                lemma_balance_update(s, i, p, m);
                assert forall|k: Pubkey| k != m implies balance(t, k) == balance(s, k) by {
                    lemma_balance_update(s, i, p, k);
                }
                assert forall|x: int, y: int|
                    0 <= x < t.len() && 0 <= y < t.len() && x != y && t[x].mint == t[y].mint
                        implies t[x].mint == Pubkey::empty() by {
                    if x == i || y == i {
                        let o = if x == i { y } else { x };
                        assert(t[o] == s[o]);
                    }
                }
            }
        } else {
            assert(holds(s, Pubkey::empty()));
        }
    }
}

/// Adding an amount of a mint and taking the same amount away again succeeds and
/// leaves the balance of every mint as it was.
pub proof fn law_increase_then_decrease(s: Seq<Position>, m: Pubkey, a: u64)
    requires
        positions_wf(s),
        m != Pubkey::empty(),
        increase_fits(s, m, a),
        spec_increase(s, m, a) is Ok,
    ensures
        spec_increase(s, m, a) matches Ok(t) ==> (spec_decrease(t, m, a) matches Ok(u) && forall|k: Pubkey|
            balance(u, k) == balance(s, k)),
{
    law_increase_balances(s, m, a);
    lemma_balance_nonneg(s, m);
    if let Ok(t) = spec_increase(s, m, a) {
        law_decrease_balances(t, m, a);
        let u = spec_decrease(t, m, a)->Ok_0;
        assert forall|k: Pubkey| balance(u, k) == balance(s, k) by {
            if k != m {
                assert(balance(t, k) == balance(s, k));
            }
        }
    }
}

/// After a successful decrease, the same mints are held as before, and a free slot
/// exists when one existed or the decreased slot was emptied.
pub(crate) proof fn lemma_decrease_holds(s: Seq<Position>, m: Pubkey, a: u64)
    requires
        positions_wf(s),
        m != Pubkey::empty(),
    ensures
        spec_decrease(s, m, a) matches Ok(t) ==> {
            &&& forall|k: Pubkey| k != m && k != Pubkey::empty() ==> holds(t, k) == holds(s, k)
            &&& holds(t, Pubkey::empty()) == (holds(s, Pubkey::empty()) || balance(s, m) == a)
        },
{
    lemma_slot_for(s, m);
    lemma_balance_wf(s, m);
    if let Ok(t) = spec_decrease(s, m, a) {
        let i = slot_for(s, m)->0;
        assert(s[i].mint == m);
        assert forall|k: Pubkey| k != m && k != Pubkey::empty() implies holds(t, k) == holds(s, k) by {
            if holds(s, k) {
                let j = choose|j: int| 0 <= j < s.len() && s[j].mint == k;
                assert(t[j].mint == k);
            }
            if holds(t, k) {
                let j = choose|j: int| 0 <= j < t.len() && t[j].mint == k;
                assert(s[j].mint == k);
            }
        }
        if holds(s, Pubkey::empty()) {
            let j = choose|j: int| 0 <= j < s.len() && s[j].mint == Pubkey::empty();
            assert(t[j].mint == Pubkey::empty());
        }
        if balance(s, m) == a {
            assert(t[i].mint == Pubkey::empty());
        }
        if holds(t, Pubkey::empty()) {
            let j = choose|j: int| 0 <= j < t.len() && t[j].mint == Pubkey::empty();
            if j != i {
                assert(s[j].mint == Pubkey::empty());
            }
        }
    }
}

/// The variant of taking away that keeps the slot's mint at zero succeeds exactly when
/// the plain one does; on success the positions stay well formed, that mint's balance drops
/// by `a`, and every other balance is as it was.
pub proof fn law_decrease_keeping_slot_balances(s: Seq<Position>, m: Pubkey, a: u64)
    requires
        positions_wf(s),
        m != Pubkey::empty(),
    ensures
        spec_decrease_keeping_slot(s, m, a) is Ok <==> (holds(s, m) && balance(s, m) >= a),
        spec_decrease_keeping_slot(s, m, a) is Err ==> spec_decrease_keeping_slot(s, m, a) == spec_decrease(s, m, a),
        spec_decrease_keeping_slot(s, m, a) matches Ok(t) ==> {
            &&& positions_wf(t)
            &&& t.len() == s.len()
            &&& balance(t, m) == balance(s, m) - a
            &&& forall|k: Pubkey| k != m ==> balance(t, k) == balance(s, k)
        },
{
    law_decrease_balances(s, m, a);
    lemma_slot_for(s, m);
    lemma_balance_wf(s, m);
    if let Ok(t) = spec_decrease_keeping_slot(s, m, a) {
        let i = slot_for(s, m)->0;
        let p = Position { mint: m, amount: (s[i].amount - a) as u64 };
        lemma_balance_update(s, i, p, m);
        assert forall|k: Pubkey| k != m implies balance(t, k) == balance(s, k) by {
            lemma_balance_update(s, i, p, k);
        }
        assert forall|x: int, y: int|
            0 <= x < t.len() && 0 <= y < t.len() && x != y && t[x].mint == t[y].mint
                implies t[x].mint == Pubkey::empty() by {
            if x == i || y == i {
                let o = if x == i { y } else { x };
                assert(t[o] == s[o]);
            }
        }
    }
}

} // verus!
