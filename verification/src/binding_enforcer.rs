//! Forcing the platform's input bindings to this application while a bridged
//! device is connected.
//!
//! The platform is told by opening a URL. Opening it is the caller's part:
//! [`BindingEnforcer::activate`] and [`BindingEnforcer::deactivate`] say which
//! URL is due, and [`BindingEnforcer::url_opened`] takes the outcome.

use vstd::prelude::*;
use crate::text::{chars_of, decimal, push_decimal};
use crate::version::{parse_u64, spec_parse_u64};

verus! {

/// The URL that forces the bindings of application `app_id`; 0 releases them.
pub open spec fn force_url(app_id: u32) -> Seq<char> {
    "steam://forceinputappid/"@ + decimal(app_id as nat)
}

/// The application id inside a game id: its upper 32 bits.
pub open spec fn app_of_game(game_id: u64) -> u32 {
    (game_id / 0x1_0000_0000) as u32
}

/// Builds the URL for `app_id`.
pub fn make_force_url(app_id: u32) -> (r: String)
    ensures
        r@ == force_url(app_id),
{
    let mut r: String = "steam://forceinputappid/".to_owned();
    push_decimal(&mut r, app_id as u64);
    r
}

/// Whether binding enforcement is on, and for which application.
#[derive(Debug)]
pub struct BindingEnforcer {
    game_id: Option<u64>,
    app_id: Option<u32>,
    active: bool,
}

impl BindingEnforcer {
    /// The game id that the platform handed to this process, if any.
    pub closed spec fn spec_game_id(&self) -> Option<u64> {
        self.game_id
    }

    /// The application id derived from the game id.
    pub closed spec fn spec_app_id(&self) -> Option<u32> {
        self.app_id
    }

    /// Whether enforcement is on.
    pub closed spec fn spec_active(&self) -> bool {
        self.active
    }

    /// An inactive enforcer for the game id that `steam_game_id` writes (the
    /// value of the platform's game-id variable); a missing or malformed value
    /// leaves it without ids.
    pub fn new(steam_game_id: Option<&str>) -> (r: Self)
        ensures
            r.spec_game_id() == match steam_game_id {
                Some(t) => spec_parse_u64(t@),
                None => None,
            },
            r.spec_app_id() == match r.spec_game_id() {
                Some(g) => Some(app_of_game(g)),
                None => None,
            },
            !r.spec_active(),
    {
        let game_id: Option<u64> = match steam_game_id {
            Some(t) => {
                let cs: Vec<char> = chars_of(t);
                assert(cs@.subrange(0, cs@.len() as int) =~= cs@);
                parse_u64(&cs, 0, cs.len())
            },
            None => None,
        };
        let app_id: Option<u32> = match game_id {
            Some(g) => Some((g / 0x1_0000_0000) as u32),
            None => None,
        };
        BindingEnforcer { game_id, app_id, active: false }
    }

    pub fn game_id(&self) -> (r: Option<u64>)
        ensures
            r == self.spec_game_id(),
    {
        self.game_id
    }

    pub fn app_id(&self) -> (r: Option<u32>)
        ensures
            r == self.spec_app_id(),
    {
        self.app_id
    }

    pub fn is_active(&self) -> (r: bool)
        ensures
            r == self.spec_active(),
    {
        self.active
    }

    /// The URL to open in order to switch enforcement on for this process's
    /// own application: none while enforcement is on already or no
    /// application id is known. The enforcer stays as it is until the outcome
    /// is reported to [`Self::url_opened`].
    pub fn activate(&self) -> (r: Option<String>)
        ensures
            match r {
                Some(url) => !self.spec_active() && self.spec_app_id().is_some() && url@
                    == force_url(self.spec_app_id().unwrap()),
                None => self.spec_active() || self.spec_app_id().is_none(),
            },
    {
        if self.active {
            return None;
        }
        match self.app_id {
            Some(app_id) => Some(make_force_url(app_id)),
            None => None,
        }
    }

    /// The URL to open in order to switch enforcement on for `app_id`: none
    /// while enforcement is on already.
    pub fn activate_with_appid(&self, app_id: u32) -> (r: Option<String>)
        ensures
            match r {
                Some(url) => !self.spec_active() && url@ == force_url(app_id),
                None => self.spec_active(),
            },
    {
        if self.active {
            return None;
        }
        Some(make_force_url(app_id))
    }

    /// The URL to open in order to switch enforcement off: none while it is off.
    pub fn deactivate(&self) -> (r: Option<String>)
        ensures
            match r {
                Some(url) => self.spec_active() && url@ == force_url(0),
                None => !self.spec_active(),
            },
    {
        if !self.active {
            return None;
        }
        Some(make_force_url(0))
    }

    /// Takes the outcome of opening a URL that [`Self::activate`],
    /// [`Self::activate_with_appid`] (`activating`) or [`Self::deactivate`]
    /// (not `activating`) handed out: a URL that was opened switches
    /// enforcement, one that could not be opened leaves it as it was.
    pub fn url_opened(&mut self, activating: bool, opened: bool)
        ensures
            final(self).spec_active() == if opened {
                activating
            } else {
                old(self).spec_active()
            },
            final(self).spec_game_id() == old(self).spec_game_id(),
            final(self).spec_app_id() == old(self).spec_app_id(),
    {
        if opened {
            self.active = activating;
        }
    }
}

} // verus!
