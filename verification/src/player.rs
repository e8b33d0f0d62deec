//! The participant identity record: a first and a last name.

use vstd::prelude::*;
use vstd::string::StringExecFns;

verus! {

/// A participant, identified by a pair of names. Equality is by value:
/// two players with the same names are the same logical player.
#[derive(Debug)]
pub struct Player {
    pub first_name: String,
    pub last_name: String,
}

/// The displayed form of a player: first name, a space, last name.
pub open spec fn spec_full_name(first: Seq<char>, last: Seq<char>) -> Seq<char> {
    first + seq![' '] + last
}

impl Player {
    pub fn new(first_name: String, last_name: String) -> (r: Player)
        ensures
            r.first_name@ == first_name@,
            r.last_name@ == last_name@,
    {
        Player { first_name, last_name }
    }

    /// The text a player block displays: `"first last"`.
    pub fn full_name(&self) -> (r: String)
        ensures
            r@ == spec_full_name(self.first_name@, self.last_name@),
    {
        let mut s = String::from_str(self.first_name.as_str());
        s.append(" ");
        s.append(self.last_name.as_str());
        proof {
            reveal_strlit(" ");
            assert(s@ =~= spec_full_name(self.first_name@, self.last_name@));
        }
        s
    }
}

impl Clone for Player {
    /// A clone carries the very same names, so a player advancing
    /// through rounds stays the same logical entity in every slot.
    fn clone(&self) -> (r: Self)
        ensures
            r == *self,
    {
        Player { first_name: self.first_name.clone(), last_name: self.last_name.clone() }
    }
}

impl PartialEq for Player {
    fn eq(&self, other: &Player) -> (r: bool) {
        self.first_name == other.first_name && self.last_name == other.last_name
    }
}

impl vstd::std_specs::cmp::PartialEqSpecImpl for Player {
    open spec fn obeys_eq_spec() -> bool {
        true
    }

    open spec fn eq_spec(&self, other: &Player) -> bool {
        self.first_name@ == other.first_name@ && self.last_name@ == other.last_name@
    }
}

} // verus!
