use vstd::prelude::*;

use crate::ogs::{Game, User};

verus! {

/// The games of `games` in which it is the move of `user_id`, in the order fetched.
pub open spec fn awaiting(games: Seq<Game>, user_id: u32) -> Seq<Game>
    decreases games.len(),
{
    if games.len() == 0 {
        Seq::empty()
    } else {
        let rest = awaiting(games.drop_last(), user_id);
        if games.last().awaits(user_id) {
            rest.push(games.last())
        } else {
            rest
        }
    }
}

/// Whether some game of `games` has the id `id`.
pub open spec fn has_id(games: Seq<Game>, id: u32) -> bool {
    exists|j: int| 0 <= j < games.len() && games[j].id == id
}

/// The positions below `n` of `current` that hold a game whose id is not in `previous`,
/// ascending.
pub open spec fn fresh_upto(previous: Seq<Game>, current: Seq<Game>, n: nat) -> Seq<usize>
    decreases n,
{
    if n == 0 {
        Seq::empty()
    } else {
        let rest = fresh_upto(previous, current, (n - 1) as nat);
        if has_id(previous, current[n - 1].id) {
            rest
        } else {
            rest.push((n - 1) as usize)
        }
    }
}

/// The positions of `current` whose game was not awaiting a move in `previous`.
pub open spec fn fresh(previous: Seq<Game>, current: Seq<Game>) -> Seq<usize> {
    fresh_upto(previous, current, current.len())
}

/// The status shown in the tray.
#[derive(PartialEq, Eq, Structural, Clone, Copy, Debug)]
pub enum IconState {
    Idle,
    Awaiting,
}

/// The tray status for a set of games awaiting a move.
pub open spec fn icon_of(games: Seq<Game>) -> IconState {
    if games.len() == 0 {
        IconState::Idle
    } else {
        IconState::Awaiting
    }
}

/// The file name of the tray picture for `icon`.
pub open spec fn icon_file_name(icon: IconState) -> Seq<char> {
    match icon {
        IconState::Idle => "ogs_icon.png"@,
        IconState::Awaiting => "ogs_icon_awaiting.png"@,
    }
}

/// The title of every notification.
pub const NOTIFICATION_SUMMARY: &'static str = "ogs-notify";

/// What the poll loop knows between two cycles.
pub struct State {
    pub logged_in_user: User,
    pub games_awaiting_move: Vec<Game>,
}

/// What one poll cycle asks of the desktop: a notification for the game at each
/// position of `notify` in the new set, and the tray status.
pub struct Cycle {
    pub notify: Vec<usize>,
    pub icon: IconState,
}

/// Keeps the games of `active_games` in which it is the move of `user_id`.
pub fn games_awaiting_move(active_games: Vec<Game>, user_id: u32) -> (r: Vec<Game>)
    ensures
        r@ == awaiting(active_games@, user_id),
{
    let ghost all = active_games@;
    let n: usize = active_games.len();
    let mut rest = active_games;
    let mut r: Vec<Game> = Vec::new();
    let mut i: usize = 0;
    while rest.len() > 0
        invariant
            all.len() == n,
            all.len() == i + rest@.len(),
            rest@ == all.subrange(i as int, all.len() as int),
            r@ == awaiting(all.subrange(0, i as int), user_id),
        decreases rest.len(),
    {
        let g = rest.remove(0);
        proof {
            assert(all.subrange(0, i + 1).drop_last() =~= all.subrange(0, i as int));
            assert(all.subrange(0, i + 1).last() == g);
            assert(rest@ =~= all.subrange(i + 1, all.len() as int));
        }
        if g.json.clock.current_player == user_id {
            r.push(g);
        }
        i = i + 1;
    }
    proof {
        assert(all.subrange(0, all.len() as int) =~= all);
    }
    r
}

/// Whether some game of `games` has the id `id`.
fn contains_id(games: &Vec<Game>, id: u32) -> (r: bool)
    ensures
        r == has_id(games@, id),
{
    let mut j: usize = 0;
    while j < games.len()
        invariant
            j <= games.len(),
            forall|k: int| 0 <= k < j ==> games@[k].id != id,
        decreases games.len() - j,
    {
        if games[j].id == id {
            return true;
        }
        j = j + 1;
    }
    false
}

/// The positions of `current` whose game id does not occur in `previous`, ascending.
pub fn fresh_indices(previous: &Vec<Game>, current: &Vec<Game>) -> (r: Vec<usize>)
    ensures
        r@ == fresh(previous@, current@),
{
    let mut r: Vec<usize> = Vec::new();
    let mut i: usize = 0;
    while i < current.len()
        invariant
            i <= current.len(),
            r@ == fresh_upto(previous@, current@, i as nat),
        decreases current.len() - i,
    {
        if !contains_id(previous, current[i].id) {
            r.push(i);
        }
        i = i + 1;
    }
    r
}

/// The tray status for `games`: awaiting when there is any.
pub fn icon_for(games: &Vec<Game>) -> (r: IconState)
    ensures
        r == icon_of(games@),
{
    if games.len() == 0 {
        IconState::Idle
    } else {
        IconState::Awaiting
    }
}

/// The file name of the tray picture for `icon`.
pub fn icon_file(icon: IconState) -> (r: &'static str)
    ensures
        r@ == icon_file_name(icon),
{
    match icon {
        IconState::Idle => "ogs_icon.png",
        IconState::Awaiting => "ogs_icon_awaiting.png",
    }
}

/// The text of the notification for `game`, which names the opponent.
pub fn notification_body(game: &Game, logged_in_user: &User) -> (r: String)
    ensures
        r@ == "It's your move against "@ + game.opponent(*logged_in_user).username@,
{
    let mut body = String::from_str("It's your move against ");
    body.append(game.other_user(logged_in_user).username.as_str());
    body
}

impl State {
    /// Starts from the first fetch: every game found awaiting a move counts as new.
    pub fn bootstrap(logged_in_user: User, active_games: Vec<Game>) -> (r: (State, Cycle))
        ensures
            r.0.logged_in_user == logged_in_user,
            r.0.games_awaiting_move@ == awaiting(active_games@, logged_in_user.id),
            r.1.notify@ == fresh(Seq::empty(), r.0.games_awaiting_move@),
            r.1.icon == icon_of(r.0.games_awaiting_move@),
    {
        let games = games_awaiting_move(active_games, logged_in_user.id);
        let none: Vec<Game> = Vec::new();
        let notify = fresh_indices(&none, &games);
        let icon = icon_for(&games);
        (State { logged_in_user, games_awaiting_move: games }, Cycle { notify, icon })
    }

    /// Takes in the result of a new fetch: the set of games awaiting a move is replaced
    /// whole, and a notification is asked for each game that was not in the old set.
    pub fn update(&mut self, active_games: Vec<Game>) -> (r: Cycle)
        ensures
            final(self).logged_in_user == old(self).logged_in_user,
            final(self).games_awaiting_move@ == awaiting(
                active_games@,
                old(self).logged_in_user.id,
            ),
            r.notify@ == fresh(old(self).games_awaiting_move@, final(self).games_awaiting_move@),
            r.icon == icon_of(final(self).games_awaiting_move@),
    {
        let games = games_awaiting_move(active_games, self.logged_in_user.id);
        let notify = fresh_indices(&self.games_awaiting_move, &games);
        let icon = icon_for(&games);
        self.games_awaiting_move = games;
        Cycle { notify, icon }
    }
}

/// A game is kept by the filter exactly when it was fetched and it is the move of
/// `user_id` in it.
pub proof fn lemma_awaiting_exact(games: Seq<Game>, user_id: u32)
    ensures
        forall|g: Game|
            awaiting(games, user_id).contains(g) <==> (games.contains(g) && g.awaits(user_id)),
    decreases games.len(),
{
    if games.len() > 0 {
        let init = games.drop_last();
        let last = games.last();
        lemma_awaiting_exact(init, user_id);
        let rest = awaiting(init, user_id);
        assert forall|g: Game|
            awaiting(games, user_id).contains(g) <==> (games.contains(g) && g.awaits(
                user_id,
            )) by {
            if games.contains(g) {
                let j = choose|j: int| 0 <= j < games.len() && games[j] == g;
                if j < init.len() {
                    assert(init[j] == g);
                    assert(init.contains(g));
                }
            }
            if init.contains(g) {
                let j = choose|j: int| 0 <= j < init.len() && init[j] == g;
                assert(games[j] == g);
            }
            assert(games[games.len() - 1] == last);
            if last.awaits(user_id) {
                assert(rest.push(last)[rest.len() as int] == last);
                if rest.push(last).contains(g) {
                    let j = choose|j: int| 0 <= j < rest.len() + 1 && rest.push(last)[j] == g;
                    if j < rest.len() {
                        assert(rest[j] == g);
                    }
                }
                if rest.contains(g) {
                    let j = choose|j: int| 0 <= j < rest.len() && rest[j] == g;
                    assert(rest.push(last)[j] == g);
                }
            }
        }
    }
}

/// Membership in `fresh_upto`, and that its positions ascend below `n`.
proof fn lemma_fresh_upto_members(previous: Seq<Game>, current: Seq<Game>, n: nat)
    requires
        n <= current.len(),
        current.len() <= usize::MAX,
    ensures
        forall|k: usize|
            fresh_upto(previous, current, n).contains(k) <==> (k < n && !has_id(
                previous,
                current[k as int].id,
            )),
        forall|a: int|
            0 <= a < fresh_upto(previous, current, n).len() ==> fresh_upto(previous, current, n)[a]
                < n,
        forall|a: int, b: int|
            0 <= a < b < fresh_upto(previous, current, n).len() ==> fresh_upto(
                previous,
                current,
                n,
            )[a] < fresh_upto(previous, current, n)[b],
    decreases n,
{
    if n > 0 {
        let m = (n - 1) as nat;
        lemma_fresh_upto_members(previous, current, m);
        let rest = fresh_upto(previous, current, m);
        let x = m as usize;
        if !has_id(previous, current[m as int].id) {
            let s = rest.push(x);
            assert(s[rest.len() as int] == x);
            assert forall|k: usize| s.contains(k) <==> (rest.contains(k) || k == x) by {
                if s.contains(k) {
                    let j = choose|j: int| 0 <= j < s.len() && s[j] == k;
                    if j < rest.len() {
                        assert(rest[j] == k);
                    }
                }
                if rest.contains(k) {
                    let j = choose|j: int| 0 <= j < rest.len() && rest[j] == k;
                    assert(s[j] == k);
                }
            }
        }
    }
}

/// Only a game whose id was absent from the previous set is notified: a position of the
/// new set is notified exactly when no game of the previous set has that game's id.
pub proof fn lemma_notified_iff_new(previous: Seq<Game>, current: Seq<Game>)
    requires
        current.len() <= usize::MAX,
    ensures
        forall|k: usize|
            fresh(previous, current).contains(k) <==> (k < current.len() && !has_id(
                previous,
                current[k as int].id,
            )),
        forall|a: int, b: int|
            0 <= a < b < fresh(previous, current).len() ==> fresh(previous, current)[a] < fresh(
                previous,
                current,
            )[b],
{
    lemma_fresh_upto_members(previous, current, current.len());
}

/// Two cycles that fetch the same active games: the second asks for no notification.
pub proof fn lemma_same_fetch_is_silent(active_games: Seq<Game>, user_id: u32)
    ensures
        fresh(awaiting(active_games, user_id), awaiting(active_games, user_id)) == Seq::<
            usize,
        >::empty(),
{
    let s = awaiting(active_games, user_id);
    lemma_fresh_self_empty(s, s.len());
}

proof fn lemma_fresh_self_empty(s: Seq<Game>, n: nat)
    requires
        n <= s.len(),
    ensures
        fresh_upto(s, s, n) == Seq::<usize>::empty(),
    decreases n,
{
    if n > 0 {
        lemma_fresh_self_empty(s, (n - 1) as nat);
        assert(has_id(s, s[n - 1].id));
    }
}

/// On the first fetch, with no previous set, every game awaiting a move is notified,
/// each once and in order.
pub proof fn lemma_first_fetch_notifies_all(current: Seq<Game>)
    requires
        current.len() <= usize::MAX,
    ensures
        fresh(Seq::empty(), current) == Seq::new(current.len(), |i: int| i as usize),
{
    lemma_fresh_from_empty(current, current.len());
}

proof fn lemma_fresh_from_empty(current: Seq<Game>, n: nat)
    requires
        n <= current.len(),
        current.len() <= usize::MAX,
    ensures
        fresh_upto(Seq::empty(), current, n) == Seq::new(n, |i: int| i as usize),
    decreases n,
{
    if n > 0 {
        let m = (n - 1) as nat;
        lemma_fresh_from_empty(current, m);
        assert(!has_id(Seq::empty(), current[m as int].id));
        assert(Seq::new(m, |i: int| i as usize).push(m as usize) =~= Seq::new(
            n,
            |i: int| i as usize,
        ));
    } else {
        assert(Seq::new(0, |i: int| i as usize) =~= Seq::<usize>::empty());
    }
}

} // verus!
