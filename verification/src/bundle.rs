//! Rule-module bundles: resolving a game identifier to the loaded bundle for
//! its game type. The reference build knows a single game.

use vstd::prelude::*;

verus! {

/// A resolved rule-module bundle, bound to one game type.
#[derive(Clone)]
pub struct Bundle {
    pub game_id: String,
}

/// The set of game bundles available to the host.
#[derive(Clone)]
pub struct BundleMap {}

impl BundleMap {
    /// Loads the available bundles. Scanning a directory for bundle files is
    /// a collaborator's job; the reference build carries its one game along.
    pub fn load_dir(_path: &str) -> (r: Option<BundleMap>)
        ensures
            r is Some,
    {
        Some(BundleMap {  })
    }

    /// Resolves a game identifier to its latest bundle. An unknown
    /// identifier is a rejection, never a panic.
    pub fn get_latest(&self, game_id: &str) -> (r: Option<Bundle>)
        ensures
            game_id@ == "tic-tac-toe"@ ==> (r matches Some(b) && b.game_id@ == game_id@),
            game_id@ != "tic-tac-toe"@ ==> r is None,
    {
        let g = String::from_str(game_id);
        let known = String::from_str("tic-tac-toe");
        if g == known {
            Some(Bundle { game_id: g })
        } else {
            None
        }
    }

    /// Lists the known game identifiers.
    pub fn list_games(&self) -> (r: Vec<String>)
        ensures
            r@.len() == 1,
            r@[0]@ == "tic-tac-toe"@,
    {
        let mut v: Vec<String> = Vec::new();
        v.push(String::from_str("tic-tac-toe"));
        v
    }
}

} // verus!
