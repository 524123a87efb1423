//! The final ranking: the players from the richest to the poorest, players of
//! equal worth in turn order.

use vstd::prelude::*;
use crate::game::map::clamp_money;
use crate::game::state::{GameState, GameStateView, Ranking, RankingView};

verus! {

/// What each player is worth, seat by seat.
pub open spec fn worths(s: GameStateView) -> Seq<i64> {
    Seq::new(
        s.players.len(),
        |i: int| clamp_money(s.players[i].total_assets(s.loan_interest_rate)),
    )
}

/// Seat `a` ranks before seat `b`: it is worth more, or as much and comes
/// earlier in turn order.
pub open spec fn ranks_before(worth: Seq<i64>, a: int, b: int) -> bool {
    worth[a] > worth[b] || (worth[a] == worth[b] && a < b)
}

/// The seats that rank before seat `i`.
pub open spec fn ahead_of(worth: Seq<i64>, i: int) -> Set<int> {
    Set::new(|k: int| 0 <= k < worth.len() && ranks_before(worth, k, i))
}

/// The place of seat `i`, counted from 0: the number of seats that rank
/// before it.
pub open spec fn place(worth: Seq<i64>, i: int) -> nat {
    ahead_of(worth, i).len()
}

/// The seat that takes place `a`.
pub open spec fn seat_at(worth: Seq<i64>, a: int) -> int {
    choose|i: int| 0 <= i < worth.len() && place(worth, i) == a
}

/// The rank of place `a`: places count from 0, ranks from 1.
pub open spec fn rank_at(a: int) -> u32 {
    if a + 1 <= u32::MAX {
        (a + 1) as u32
    } else {
        u32::MAX
    }
}

/// The entry of the player at seat `i`, who takes place `a`.
pub open spec fn ranking_entry(s: GameStateView, i: int, a: int) -> RankingView {
    RankingView {
        player_id: s.players[i].id,
        player_name: s.players[i].name,
        total_assets: worths(s)[i],
        rank: rank_at(a),
    }
}

/// The ranking of a snapshot: place by place, the entry of the seat that takes
/// it.
pub open spec fn rankings_outcome(s: GameStateView) -> Seq<RankingView> {
    Seq::new(s.players.len(), |a: int| ranking_entry(s, seat_at(worths(s), a), a))
}

/// Ranking is a strict total order of the seats: of two seats exactly one
/// ranks before the other, no seat ranks before itself, and ranking carries
/// over from seat to seat.
pub proof fn lemma_ranking_is_total(worth: Seq<i64>, a: int, b: int, c: int)
    ensures
        !ranks_before(worth, a, a),
        a != b ==> (ranks_before(worth, a, b) <==> !ranks_before(worth, b, a)),
        ranks_before(worth, a, b) && ranks_before(worth, b, c) ==> ranks_before(worth, a, c),
{
}

/// A seat that ranks before another takes an earlier place, and every place
/// is less than the number of seats.
pub proof fn lemma_place_follows_rank(worth: Seq<i64>, a: int, b: int)
    requires
        0 <= a < worth.len(),
        0 <= b < worth.len(),
        ranks_before(worth, a, b),
    ensures
        place(worth, a) < place(worth, b),
        place(worth, b) < worth.len(),
{
    let seats = vstd::set_lib::set_int_range(0, worth.len() as int);
    vstd::set_lib::lemma_int_range(0, worth.len() as int);
    let ahead_b = ahead_of(worth, b);
    assert(ahead_b.subset_of(seats.remove(b)));
    vstd::set_lib::lemma_len_subset(ahead_b, seats.remove(b));
    assert(ahead_b.contains(a));
    assert(ahead_of(worth, a).subset_of(ahead_b.remove(a)));
    vstd::set_lib::lemma_len_subset(ahead_of(worth, a), ahead_b.remove(a));
}

/// The ranking descends: a seat at an earlier place is worth at least as much
/// as a seat at a later one, and no two seats share a place.
pub proof fn lemma_places_descend(worth: Seq<i64>, a: int, b: int)
    requires
        0 <= a < worth.len(),
        0 <= b < worth.len(),
    ensures
        place(worth, a) < place(worth, b) ==> worth[a] >= worth[b],
        place(worth, a) == place(worth, b) ==> a == b,
{
    if a != b {
        if ranks_before(worth, a, b) {
            lemma_place_follows_rank(worth, a, b);
        } else {
            lemma_place_follows_rank(worth, b, a);
        }
    }
}

/// Every place is less than the number of seats.
pub proof fn lemma_place_in_range(worth: Seq<i64>, i: int)
    requires
        0 <= i < worth.len(),
    ensures
        place(worth, i) < worth.len(),
{
    let seats = vstd::set_lib::set_int_range(0, worth.len() as int);
    vstd::set_lib::lemma_int_range(0, worth.len() as int);
    assert(ahead_of(worth, i).subset_of(seats.remove(i)));
    vstd::set_lib::lemma_len_subset(ahead_of(worth, i), seats.remove(i));
}

/// Every place below the number of seats is taken, by one seat and no other.
pub proof fn lemma_every_place_is_taken(worth: Seq<i64>, a: int)
    requires
        0 <= a < worth.len(),
    ensures
        0 <= seat_at(worth, a) < worth.len(),
        place(worth, seat_at(worth, a)) == a,
        forall|i: int|
            0 <= i < worth.len() && #[trigger] place(worth, i) == a ==> i == seat_at(worth, a),
{
    let count = worth.len() as int;
    let seats = vstd::set_lib::set_int_range(0, count);
    let place_of = |i: int| place(worth, i) as int;
    let places = seats.map(place_of);
    vstd::set_lib::lemma_int_range(0, count);
    assert forall|i: int, j: int|
        seats.contains(i) && seats.contains(j) && #[trigger] place_of(i) == #[trigger] place_of(
            j,
        ) implies i == j by {
        lemma_places_descend(worth, i, j);
    }
    vstd::set_lib::lemma_map_size(seats, places, place_of);
    assert forall|b: int| places.contains(b) implies seats.contains(b) by {
        let i = choose|i: int| seats.contains(i) && b == place_of(i);
        lemma_place_in_range(worth, i);
    }
    vstd::set_lib::lemma_subset_equality(places, seats);
    assert(seats.contains(a));
    assert(places.contains(a));
    let taker = choose|i: int| seats.contains(i) && a == place_of(i);
    assert(0 <= taker < worth.len() && place(worth, taker) == a);
    assert forall|i: int| 0 <= i < worth.len() && #[trigger] place(worth, i) == a implies i
        == seat_at(worth, a) by {
        lemma_places_descend(worth, i, seat_at(worth, a));
    }
}

/// The ranking lists every player once, from the richest to the poorest,
/// players of equal worth in turn order. It has an entry for each place; the
/// entry names the player who takes the place, with their worth and the rank
/// of the place; every player takes one place; and of two places the earlier
/// is taken by the player who ranks before the other, that is, who is worth
/// more, or as much and comes earlier in turn order.
pub proof fn lemma_ranking_lists_every_player(s: GameStateView)
    ensures
        rankings_outcome(s).len() == s.players.len(),
        forall|a: int|
            0 <= a < s.players.len() ==> 0 <= #[trigger] seat_at(worths(s), a) < s.players.len()
                && place(worths(s), seat_at(worths(s), a)) == a,
        forall|a: int|
            0 <= a < s.players.len() ==> #[trigger] rankings_outcome(s)[a] == (RankingView {
                player_id: s.players[seat_at(worths(s), a)].id,
                player_name: s.players[seat_at(worths(s), a)].name,
                total_assets: clamp_money(
                    s.players[seat_at(worths(s), a)].total_assets(s.loan_interest_rate),
                ),
                rank: rank_at(a),
            }),
        forall|i: int|
            0 <= i < s.players.len() ==> #[trigger] place(worths(s), i) < s.players.len()
                && seat_at(worths(s), place(worths(s), i) as int) == i,
        forall|a: int, b: int|
            0 <= a < b < s.players.len() ==> ranks_before(
                worths(s),
                #[trigger] seat_at(worths(s), a),
                #[trigger] seat_at(worths(s), b),
            ),
{
    let worth = worths(s);
    assert forall|a: int| 0 <= a < s.players.len() implies 0 <= #[trigger] seat_at(worth, a)
        < s.players.len() && place(worth, seat_at(worth, a)) == a by {
        lemma_every_place_is_taken(worth, a);
    }
    assert forall|a: int| 0 <= a < s.players.len() implies #[trigger] rankings_outcome(s)[a] == (
    RankingView {
        player_id: s.players[seat_at(worth, a)].id,
        player_name: s.players[seat_at(worth, a)].name,
        total_assets: clamp_money(s.players[seat_at(worth, a)].total_assets(s.loan_interest_rate)),
        rank: rank_at(a),
    }) by {
        lemma_every_place_is_taken(worth, a);
    }
    assert forall|i: int| 0 <= i < s.players.len() implies #[trigger] place(worth, i)
        < s.players.len() && seat_at(worth, place(worth, i) as int) == i by {
        lemma_place_in_range(worth, i);
        lemma_every_place_is_taken(worth, place(worth, i) as int);
    }
    assert forall|a: int, b: int| 0 <= a < b < s.players.len() implies ranks_before(
        worth,
        #[trigger] seat_at(worth, a),
        #[trigger] seat_at(worth, b),
    ) by {
        lemma_every_place_is_taken(worth, a);
        lemma_every_place_is_taken(worth, b);
        let first = seat_at(worth, a);
        let second = seat_at(worth, b);
        if ranks_before(worth, second, first) {
            lemma_place_follows_rank(worth, second, first);
        }
    }
}

/// Seat `k` occurs in `order`.
pub open spec fn lists(order: Seq<usize>, k: int) -> bool {
    exists|a: int| 0 <= a < order.len() && #[trigger] order[a] == k
}

/// `order` lists the first `count` seats, each once, so that every seat ranks
/// before those that follow it.
pub open spec fn orders_seats(worth: Seq<i64>, order: Seq<usize>, count: int) -> bool {
    &&& order.len() == count
    &&& forall|a: int| 0 <= a < order.len() ==> (#[trigger] order[a]) < count
    &&& forall|a: int, b: int|
        0 <= a < b < order.len() ==> ranks_before(
            worth,
            (#[trigger] order[a]) as int,
            (#[trigger] order[b]) as int,
        )
    &&& forall|k: int| 0 <= k < count ==> #[trigger] lists(order, k)
}

/// In an order of all seats, the seat listed at `a` takes place `a`.
pub proof fn lemma_place_in_order(worth: Seq<i64>, order: Seq<usize>, a: int)
    requires
        orders_seats(worth, order, worth.len() as int),
        0 <= a < order.len(),
    ensures
        place(worth, order[a] as int) == a,
{
    let earlier = order.take(a).map_values(|x: usize| x as int);
    assert forall|b: int, c: int| 0 <= b < earlier.len() && 0 <= c < earlier.len() && b != c implies earlier[b] != earlier[c] by {
        if b < c {
            assert(ranks_before(worth, order[b] as int, order[c] as int));
        } else {
            assert(ranks_before(worth, order[c] as int, order[b] as int));
        }
    }
    assert(earlier.no_duplicates());
    earlier.unique_seq_to_set();
    assert forall|k: int| ahead_of(worth, order[a] as int).contains(k) implies earlier.to_set().contains(k) by {
        assert(lists(order, k));
        let b = choose|b: int| 0 <= b < order.len() && #[trigger] order[b] == k;
        if b > a {
            assert(ranks_before(worth, order[a] as int, order[b] as int));
        }
        assert(b < a);
        assert(earlier[b] == k);
    }
    assert forall|k: int| earlier.to_set().contains(k) implies ahead_of(worth, order[a] as int).contains(k) by {
        let b = choose|b: int| 0 <= b < earlier.len() && earlier[b] == k;
        assert(ranks_before(worth, order[b] as int, order[a] as int));
    }
    assert(ahead_of(worth, order[a] as int) =~= earlier.to_set());
}

/// An order of all seats names the seat of every place.
pub proof fn lemma_seat_in_order(worth: Seq<i64>, order: Seq<usize>, a: int)
    requires
        orders_seats(worth, order, worth.len() as int),
        0 <= a < order.len(),
    ensures
        seat_at(worth, a) == order[a],
        0 <= seat_at(worth, a) < worth.len(),
{
    lemma_place_in_order(worth, order, a);
    let i = seat_at(worth, a);
    assert(0 <= i < worth.len() && place(worth, i) == a);
    assert(lists(order, i));
    let b = choose|b: int| 0 <= b < order.len() && #[trigger] order[b] == i;
    lemma_place_in_order(worth, order, b);
}

/// What each player is worth, seat by seat.
fn compute_worths(state: &GameState) -> (r: Vec<i64>)
    ensures
        r@ == worths(state@),
{
    let mut worth: Vec<i64> = Vec::new();
    let mut i: usize = 0;
    while i < state.players.len()
        invariant
            i <= state.players.len(),
            worth@.len() == i,
            forall|j: int| 0 <= j < i ==> #[trigger] worth@[j] == worths(state@)[j],
        decreases state.players.len() - i,
    {
        worth.push(state.players[i].total_assets(state.loan_interest_rate));
        i += 1;
    }
    assert(worth@ =~= worths(state@));
    worth
}

/// The seats from the richest to the poorest, seats of equal worth in turn
/// order.
fn order_seats(worth: &Vec<i64>) -> (order: Vec<usize>)
    ensures
        orders_seats(worth@, order@, worth@.len() as int),
{
    let mut order: Vec<usize> = Vec::new();
    let mut i: usize = 0;
    while i < worth.len()
        invariant
            i <= worth.len(),
            orders_seats(worth@, order@, i as int),
        decreases worth.len() - i,
    {
        let mut p: usize = 0;
        while p < order.len() && worth[order[p]] >= worth[i]
            invariant
                i < worth.len(),
                p <= order.len(),
                orders_seats(worth@, order@, i as int),
                forall|a: int| 0 <= a < p ==> worth@[(#[trigger] order@[a]) as int] >= worth@[i as int],
            decreases order.len() - p,
        {
            p += 1;
        }
        let ghost before = order@;
        order.insert(p, i);
        proof {
            let after = order@;
            assert forall|a: int| 0 <= a < after.len() implies (#[trigger] after[a]) < i + 1 by {
                if a < p {
                    assert(after[a] == before[a]);
                } else if a > p {
                    assert(after[a] == before[a - 1]);
                }
            }
            assert forall|a: int, b: int| 0 <= a < b < after.len() implies ranks_before(
                worth@,
                (#[trigger] after[a]) as int,
                (#[trigger] after[b]) as int,
            ) by {
                if b < p {
                    assert(after[a] == before[a] && after[b] == before[b]);
                } else if b == p {
                    assert(after[a] == before[a]);
                } else if a < p {
                    assert(after[a] == before[a] && after[b] == before[b - 1]);
                    if a < b - 1 {
                        assert(ranks_before(worth@, before[a] as int, before[b - 1] as int));
                    }
                } else if a == p {
                    assert(after[b] == before[b - 1]);
                    if p < b - 1 {
                        assert(ranks_before(worth@, before[p as int] as int, before[b - 1] as int));
                    }
                } else {
                    assert(after[a] == before[a - 1] && after[b] == before[b - 1]);
                    assert(ranks_before(worth@, before[a - 1] as int, before[b - 1] as int));
                }
            }
            assert forall|k: int| 0 <= k < i + 1 implies #[trigger] lists(after, k) by {
                if k == i {
                    assert(after[p as int] == k);
                } else {
                    assert(lists(before, k));
                    let a = choose|a: int| 0 <= a < before.len() && #[trigger] before[a] == k;
                    if a < p {
                        assert(after[a] == k);
                    } else {
                        assert(after[a + 1] == k);
                    }
                }
            }
        }
        i += 1;
    }
    order
}

/// The rank of place `a`.
fn rank_of_place(a: usize) -> (r: u32)
    ensures
        r == rank_at(a as int),
{
    if a < u32::MAX as usize {
        (a + 1) as u32
    } else {
        u32::MAX
    }
}

/// The ranking of a snapshot.
pub fn rank_players(state: &GameState) -> (r: Vec<Ranking>)
    ensures
        r.deep_view() == rankings_outcome(state@),
        r@.len() == state@.players.len(),
        forall|a: int, b: int|
            0 <= a <= b < r@.len() ==> (#[trigger] r@[a]).total_assets >= (
            #[trigger] r@[b]).total_assets,
        forall|a: int| 0 <= a < r@.len() ==> (#[trigger] r@[a]).rank == rank_at(a),
{
    let worth = compute_worths(state);
    let order = order_seats(&worth);
    let mut ranked: Vec<Ranking> = Vec::new();
    let mut a: usize = 0;
    while a < order.len()
        invariant
            a <= order.len(),
            worth@ == worths(state@),
            order@.len() == state.players@.len(),
            orders_seats(worth@, order@, worth@.len() as int),
            ranked@.len() == a,
            forall|b: int|
                0 <= b < a ==> (#[trigger] ranked@[b])@ == ranking_entry(
                    state@,
                    order@[b] as int,
                    b,
                ),
        decreases order.len() - a,
    {
        let seat: usize = order[a];
        let player = &state.players[seat];
        ranked.push(
            Ranking {
                player_id: player.id.clone(),
                player_name: player.name.clone(),
                total_assets: worth[seat],
                rank: rank_of_place(a),
            },
        );
        a += 1;
    }
    proof {
        assert forall|b: int| 0 <= b < ranked@.len() implies (#[trigger] ranked.deep_view()[b])
            == rankings_outcome(state@)[b] by {
            lemma_seat_in_order(worth@, order@, b);
        }
        assert(ranked.deep_view() =~= rankings_outcome(state@));
        assert forall|b: int, c: int| 0 <= b <= c < ranked@.len() implies (
        #[trigger] ranked@[b]).total_assets >= (#[trigger] ranked@[c]).total_assets by {
            assert(ranked@[b]@ == ranking_entry(state@, order@[b] as int, b));
            assert(ranked@[c]@ == ranking_entry(state@, order@[c] as int, c));
            if b < c {
                assert(ranks_before(worth@, order@[b] as int, order@[c] as int));
            }
        }
        assert forall|b: int| 0 <= b < ranked@.len() implies (#[trigger] ranked@[b]).rank == rank_at(
            b,
        ) by {
            assert(ranked@[b]@ == ranking_entry(state@, order@[b] as int, b));
        }
    }
    ranked
}

} // verus!
