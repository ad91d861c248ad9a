use vstd::prelude::*;

verus! {

/// The credentials sent to log in.
pub struct LoginRequest<'a> {
    pub username: &'a str,
    pub password: &'a str,
}

impl<'a> LoginRequest<'a> {
    pub fn new(username: &'a str, password: &'a str) -> (r: LoginRequest<'a>)
        ensures
            r.username == username,
            r.password == password,
    {
        LoginRequest { username, password }
    }
}

/// An account on the game server; two users are the same account when their ids agree.
pub struct User {
    pub id: u32,
    pub username: String,
}

/// The clock of a game, which records whose turn it is.
pub struct GameClock {
    pub current_player: u32,
}

/// The part of a game record that carries its live data.
pub struct GameJson {
    pub clock: GameClock,
}

/// One game in progress.
pub struct Game {
    pub id: u32,
    pub black: User,
    pub white: User,
    pub json: GameJson,
}

impl Game {
    /// Whether it is the move of the account `user_id` in this game.
    pub open spec fn awaits(self, user_id: u32) -> bool {
        self.json.clock.current_player == user_id
    }

    /// The player on the other side of the board from `user`.
    pub open spec fn opponent(self, user: User) -> User {
        if user.id == self.black.id {
            self.white
        } else {
            self.black
        }
    }

    /// The opponent of `logged_in_user`: white when they play black, black otherwise.
    pub fn other_user<'a>(&'a self, logged_in_user: &User) -> (r: &'a User)
        ensures
            *r == self.opponent(*logged_in_user),
    {
        if logged_in_user.id == self.black.id {
            &self.white
        } else {
            &self.black
        }
    }
}

} // verus!
