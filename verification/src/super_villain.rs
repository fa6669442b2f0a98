//! The villain: two names, and what a villain does with them.

use vstd::prelude::*;
use crate::name::{is_full_name, joined, split, tokens, SEPARATOR};

verus! {

/// What a villain is called, as mathematics: the two names as sequences of
/// characters.
#[verifier::ext_equal]
pub struct Names {
    pub given: Seq<char>,
    pub family: Seq<char>,
}

impl Names {
    /// Both names are there and neither holds a separator: the names of a
    /// villain made from two proper tokens. Nothing enforces it: the fields of
    /// a villain are open to assignment, and a full name with an empty token
    /// in front gives an empty name.
    pub open spec fn well_formed(self) -> bool {
        &&& self.given.len() > 0
        &&& self.family.len() > 0
        &&& !self.given.contains(SEPARATOR)
        &&& !self.family.contains(SEPARATOR)
    }

    /// The names that a full name gives: its first token and its second.
    /// Tokens after the second belong to neither.
    pub open spec fn parse(text: Seq<char>) -> Names {
        Names { given: tokens(text)[0], family: tokens(text)[1] }
    }

    /// The names after `text` was taken as the new full name. Nothing of the
    /// names before is kept.
    pub open spec fn renamed(self, text: Seq<char>) -> Names {
        Names::parse(text)
    }

    /// Given name, one separator, family name.
    pub open spec fn full_name(self) -> Seq<char> {
        joined(self.given, self.family)
    }

    /// What the villain has to say once the plan is there.
    pub open spec fn plan(self) -> Seq<char> {
        self.full_name() + " is coming up with a plan "@ + "To take over the world!"@
    }
}

/// How many seconds a villain takes to come up with a plan. Whoever asks for
/// the plan waits this long before the answer is due.
pub const PLANNING_SECONDS: u64 = 1;

/// A text was to give two names and holds fewer than two tokens.
#[derive(Debug, Clone, Copy, PartialEq, Eq)]
pub struct MalformedName;

/// A weapon that can be fired. Implemented by whoever arms the villain.
pub trait MegaWeapon {
    /// Fires, and says what happened.
    fn shoot(&self) -> String;
}

/// A villain, known by a given name and a family name.
pub struct SuperVillain {
    pub first_name: String,
    pub last_name: String,
}

impl View for SuperVillain {
    type V = Names;

    open spec fn view(&self) -> Names {
        Names { given: self.first_name@, family: self.last_name@ }
    }
}

impl Default for SuperVillain {
    /// The villain nobody has named yet.
    fn default() -> (villain: SuperVillain)
        ensures
            villain@ == (Names { given: Seq::empty(), family: Seq::empty() }),
    {
        SuperVillain { first_name: String::new(), last_name: String::new() }
    }
}

impl SuperVillain {
    /// The villain that the full name `name` names.
    pub fn from(name: &str) -> (villain: SuperVillain)
        requires
            is_full_name(name@),
        ensures
            villain@ == Names::parse(name@),
    {
        let parts = split(name);
        SuperVillain { first_name: parts[0].to_owned(), last_name: parts[1].to_owned() }
    }

    /// As `from`, for a text of which the caller does not know whether it is
    /// a full name.
    pub fn parse(name: &str) -> (parsed: Result<SuperVillain, MalformedName>)
        ensures
            parsed is Ok <==> is_full_name(name@),
            parsed matches Ok(villain) ==> villain@ == Names::parse(name@),
    {
        let parts = split(name);
        if parts.len() < 2 {
            Err(MalformedName)
        } else {
            Ok(SuperVillain { first_name: parts[0].to_owned(), last_name: parts[1].to_owned() })
        }
    }

    /// Both names in one: given name, a space, family name.
    pub fn full_name(&self) -> (name: String)
        ensures
            name@ == self@.full_name(),
    {
        let mut name = self.first_name.clone();
        name.append(" ");
        name.append(self.last_name.as_str());
        proof {
            reveal_strlit(" ");
            assert(" "@ == seq![' ']);
        }
        name
    }

    /// Takes the two names from `full_name`, whatever the villain was called
    /// before.
    pub fn set_full_name(&mut self, full_name: String)
        requires
            is_full_name(full_name@),
        ensures
            final(self)@ == old(self)@.renamed(full_name@),
    {
        let parts = split(full_name.as_str());
        self.first_name = parts[0].to_owned();
        self.last_name = parts[1].to_owned();
    }

    /// As `set_full_name`, for a text of which the caller does not know
    /// whether it is a full name. Where it is none, the villain keeps both
    /// names.
    pub fn try_set_full_name(&mut self, full_name: String) -> (renamed: Result<(), MalformedName>)
        ensures
            renamed is Ok <==> is_full_name(full_name@),
            renamed is Ok ==> final(self)@ == old(self)@.renamed(full_name@),
            renamed is Err ==> *final(self) == *old(self),
    {
        let parts = split(full_name.as_str());
        if parts.len() < 2 {
            Err(MalformedName)
        } else {
            self.first_name = parts[0].to_owned();
            self.last_name = parts[1].to_owned();
            Ok(())
        }
    }

    /// Fires `weapon`: some report of its `shoot` was given. The report is
    /// dropped unread, and the villain is the same afterwards.
    pub fn attack<W: MegaWeapon>(&self, weapon: W)
        ensures
            exists|report: String| call_ensures(W::shoot, (&weapon,), report),
    {
        weapon.shoot();
    }

    /// The announcement of the plan. The wait that goes before it is the
    /// caller's: `PLANNING_SECONDS`.
    pub fn come_up_with_plan(&self) -> (plan: String)
        ensures
            plan@ == self@.plan(),
    {
        let mut plan = self.full_name();
        plan.append(" is coming up with a plan ");
        plan.append("To take over the world!");
        plan
    }
}

} // verus!
