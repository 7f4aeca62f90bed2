//! Decision logic of the convenience helpers.
//!
//! The helpers themselves compose one or two calls to the executor; what
//! they decide and compute between those calls lives here, on plain values,
//! so that it can be verified: the precondition on a credential's identity,
//! the bound on a batch of game ids, and the keying of a game list by id.

use vstd::prelude::*;
use vstd::string::StringExecFns;

use crate::errors::ClientRequestError;

verus! {

/// One game or category entry, as the games endpoint returns it.
#[derive(Clone, Debug, PartialEq, Eq)]
pub struct Game {
    /// Category id.
    pub id: String,
    /// Category name.
    pub name: String,
}

/// The identity a credential must carry before a user-scoped request can
/// be issued: the user id when the token has one, and otherwise — without
/// any call being made — the same precondition error the stream would
/// surface as its single item.
pub fn require_user_id(user_id: Option<String>) -> (r: Result<String, ClientRequestError>)
    ensures
        match user_id {
            Some(u) => r == Result::<String, ClientRequestError>::Ok(u),
            None => match r {
                Result::Ok(_) => false,
                Result::Err(e) => e matches ClientRequestError::Custom(m) && m@
                    == "no user_id found on token"@,
            },
        },
{
    match user_id {
        Some(u) => Ok(u),
        None => Err(ClientRequestError::Custom("no user_id found on token".to_owned())),
    }
}

/// The bound on one batch of game ids: at most 100 may be queried in one
/// call.  Within the bound the ids pass through unchanged; over it, the
/// request is rejected before any call is made.
pub fn limit_game_ids(ids: Vec<String>) -> (r: Result<Vec<String>, ClientRequestError>)
    ensures
        ids@.len() <= 100 ==> (r matches Ok(kept) && kept@ == ids@),
        ids@.len() > 100 ==> match r {
            Result::Ok(_) => false,
            Result::Err(e) => e matches ClientRequestError::Custom(m) && m@
                == "too many IDs, max 100"@,
        },
{
    if ids.len() > 100 {
        Err(ClientRequestError::Custom("too many IDs, max 100".to_owned()))
    } else {
        Ok(ids)
    }
}

/// Key a list of games by their id, in payload order: the association the
/// games helper hands back for map-shaped consumption.
pub fn games_by_id(games: Vec<Game>) -> (r: Vec<(String, Game)>)
    ensures
        r@.len() == games@.len(),
        forall|i: int|
            0 <= i < r@.len() ==> (#[trigger] r@[i]).0@ == games@[i].id@ && r@[i].1 == games@[i],
{
    let ghost orig = games@;
    let mut rest = games;
    let mut r: Vec<(String, Game)> = Vec::new();
    while rest.len() > 0
        invariant
            r@.len() + rest@.len() == orig.len(),
            rest@ == orig.skip(r@.len() as int),
            forall|i: int|
                0 <= i < r@.len() ==> (#[trigger] r@[i]).0@ == orig[i].id@ && r@[i].1 == orig[i],
        decreases rest@.len(),
    {
        let g = rest.remove(0);
        let key = g.id.clone();
        proof {
            assert(g == orig[r@.len() as int]);
            assert(rest@ =~= orig.skip(r@.len() as int + 1));
        }
        r.push((key, g));
    }
    r
}

} // verus!
