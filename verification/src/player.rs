//! Players: who they are, what they are, and what they may still do.

use vstd::prelude::*;
use vstd::string::StringExecFns;
use crate::text::{decimal, decimal_text};

verus! {

/// The roles a player can be dealt.
#[derive(Clone, Copy, Debug, PartialEq, Eq, Structural)]
pub enum Role {
    Worker,
    Saboteur,
    Commissar,
    Chekist,
    Militia,
    Cosmopolitan,
    Spy,
    Mastermind,
    Leader,
}

/// The sides of the game. Spies start neutral: they win if they survive to the end.
#[derive(Clone, Copy, Debug, PartialEq, Eq, Structural)]
pub enum Team {
    Soviet,
    Foreign,
    Opposition,
}

/// The state of the one gun in a game.
#[derive(Clone, Copy, Debug, PartialEq, Eq, Structural)]
pub enum Gun {
    Loaded,
    Unloaded,
    Broken,
}

impl Role {
    /// The side a player of this role really is on.
    pub open spec fn real_team(self) -> Team {
        match self {
            Role::Saboteur | Role::Mastermind => Team::Opposition,
            Role::Spy => Team::Foreign,
            _ => Team::Soviet,
        }
    }

    /// The side a player of this role seems to be on.
    pub open spec fn apparent_team(self) -> Team {
        match self {
            Role::Cosmopolitan | Role::Saboteur | Role::Mastermind => Team::Opposition,
            Role::Spy => Team::Foreign,
            _ => Team::Soviet,
        }
    }

    /// Whether a player of this role acts at night: all but the worker do.
    pub open spec fn acts_at_night(self) -> bool {
        self != Role::Worker
    }

    /// The number of actions a player of this role has for the whole game.
    pub open spec fn game_actions(self) -> u8 {
        match self {
            Role::Chekist => 8,
            Role::Leader => 1,
            _ => 0,
        }
    }

    /// How a player of this role is addressed.
    pub open spec fn title(self) -> Seq<char> {
        match self {
            Role::Worker => "glorious Soviet worker"@,
            Role::Saboteur => "social fascist Trotskyite saboteur"@,
            Role::Cosmopolitan => "rootless cosmopolitan Mensch"@,
            Role::Leader => "general secretary of the Party"@,
            Role::Spy => "capitalist agent of influence"@,
            Role::Mastermind => "dangerous Trotskyite theoretician"@,
            Role::Chekist => "uncompromising CHEKA member"@,
            Role::Militia => "self-sacrificing people's militsioner"@,
            Role::Commissar => "cunning political commissar"@,
        }
    }
}

impl Team {
    /// How a member of this side is described.
    pub open spec fn title(self) -> Seq<char> {
        match self {
            Team::Soviet => "loyal citizen of the Union"@,
            Team::Foreign => "foreign meddler"@,
            Team::Opposition => "treasonous opposition member"@,
        }
    }
}

/// A participant of a running game.
#[derive(Debug, PartialEq, Eq)]
pub struct Player {
    pub nick: String,
    pub role: Role,
    pub turn_actions: u8,
    pub game_actions: u8,
    pub alive: bool,
    pub day_voter: bool,
    pub night_voter: bool,
    pub real_team: Team,
    pub apparent_team: Team,
}

/// What a [`Player`] is, with the nick as a sequence of characters.
pub struct PlayerView {
    pub nick: Seq<char>,
    pub role: Role,
    pub turn_actions: u8,
    pub game_actions: u8,
    pub alive: bool,
    pub day_voter: bool,
    pub night_voter: bool,
    pub real_team: Team,
    pub apparent_team: Team,
}

impl PlayerView {
    /// The player that `nick` is when dealt `role` at the start of a game.
    pub open spec fn fresh(nick: Seq<char>, role: Role) -> PlayerView {
        PlayerView {
            nick,
            role,
            turn_actions: 1,
            game_actions: role.game_actions(),
            alive: true,
            day_voter: true,
            night_voter: role.acts_at_night(),
            real_team: role.real_team(),
            apparent_team: role.apparent_team(),
        }
    }

    /// Whether the player may vote by day: only the living may.
    pub open spec fn is_day_voter(self) -> bool {
        self.alive && self.day_voter
    }

    /// The same player, dead.
    pub open spec fn killed(self) -> PlayerView {
        PlayerView { alive: false, ..self }
    }

    /// What the player is told about themselves.
    pub open spec fn description(self) -> Seq<char> {
        "You, "@ + self.nick + ", are a "@ + self.role.title() + " and look like a "@
            + self.apparent_team.title() + ", while being a "@ + self.real_team.title() + ". "@
            + "You have "@ + decimal_text(self.game_actions as nat) + " game actions and "@
            + decimal_text(self.turn_actions as nat) + " turn actions left. "@ + (if self.alive {
            "You are still alive. "@
        } else {
            "You are no longer alive. "@
        }) + (if self.day_voter {
            "You are a full voting member of the Soviet. "@
        } else {
            "You have lost their voting rights at the Soviet. "@
        }) + (if self.night_voter {
            "You are busy at night."@
        } else {
            "You sleep at night."@
        })
    }
}

impl View for Player {
    type V = PlayerView;

    open spec fn view(&self) -> PlayerView {
        PlayerView {
            nick: self.nick@,
            role: self.role,
            turn_actions: self.turn_actions,
            game_actions: self.game_actions,
            alive: self.alive,
            day_voter: self.day_voter,
            night_voter: self.night_voter,
            real_team: self.real_team,
            apparent_team: self.apparent_team,
        }
    }
}

impl DeepView for Player {
    type V = PlayerView;

    open spec fn deep_view(&self) -> PlayerView {
        self@
    }
}

fn role_title(role: Role) -> (s: &'static str)
    ensures
        s@ == role.title(),
{
    match role {
        Role::Worker => "glorious Soviet worker",
        Role::Saboteur => "social fascist Trotskyite saboteur",
        Role::Cosmopolitan => "rootless cosmopolitan Mensch",
        Role::Leader => "general secretary of the Party",
        Role::Spy => "capitalist agent of influence",
        Role::Mastermind => "dangerous Trotskyite theoretician",
        Role::Chekist => "uncompromising CHEKA member",
        Role::Militia => "self-sacrificing people's militsioner",
        Role::Commissar => "cunning political commissar",
    }
}

fn team_title(team: Team) -> (s: &'static str)
    ensures
        s@ == team.title(),
{
    match team {
        Team::Soviet => "loyal citizen of the Union",
        Team::Foreign => "foreign meddler",
        Team::Opposition => "treasonous opposition member",
    }
}

impl Player {
    /// Deals `role` to `nick`: the role decides the teams, the night vote and the
    /// actions for the game; every new player is alive, votes by day and has one
    /// action for the turn.
    pub fn new(nick: String, r: Role) -> (p: Player)
        ensures
            p@ == PlayerView::fresh(nick@, r),
    {
        Player {
            nick: nick,
            alive: true,
            day_voter: true,
            night_voter: match r {
                Role::Worker => false,
                _ => true,
            },
            turn_actions: 1,
            game_actions: match r {
                Role::Cosmopolitan
                | Role::Mastermind
                | Role::Spy
                | Role::Worker
                | Role::Saboteur
                | Role::Commissar
                | Role::Militia => 0,
                Role::Chekist => 8,
                Role::Leader => 1,
            },
            real_team: match r {
                Role::Saboteur | Role::Mastermind => Team::Opposition,
                Role::Spy => Team::Foreign,
                _ => Team::Soviet,
            },
            apparent_team: match r {
                Role::Cosmopolitan | Role::Saboteur | Role::Mastermind => Team::Opposition,
                Role::Spy => Team::Foreign,
                _ => Team::Soviet,
            },
            role: r,
        }
    }

    /// Kills a living player. Nothing else about the player changes.
    pub fn kill(&mut self)
        requires
            old(self).alive,
        ensures
            final(self)@ == old(self)@.killed(),
    {
        self.alive = false;
    }

    /// Whether the player is alive.
    pub fn is_alive(&self) -> (b: bool)
        ensures
            b == self@.alive,
    {
        self.alive
    }

    /// Whether the player may vote by day.
    pub fn is_day_voter(&self) -> (b: bool)
        ensures
            b == self@.is_day_voter(),
    {
        self.alive && self.day_voter
    }

    /// Tells the player who they are and what they have left.
    pub fn to_string(&self) -> (s: String)
        ensures
            s@ == self@.description(),
    {
        let mut result = String::from_str("You, ");
        result.append(self.nick.as_str());
        result.append(", are a ");
        result.append(role_title(self.role));
        result.append(" and look like a ");
        result.append(team_title(self.apparent_team));
        result.append(", while being a ");
        result.append(team_title(self.real_team));
        result.append(". ");
        result.append("You have ");
        result.append(decimal(self.game_actions).as_str());
        result.append(" game actions and ");
        result.append(decimal(self.turn_actions).as_str());
        result.append(" turn actions left. ");
        result.append(
            if self.alive {
                "You are still alive. "
            } else {
                "You are no longer alive. "
            },
        );
        result.append(
            if self.day_voter {
                "You are a full voting member of the Soviet. "
            } else {
                "You have lost their voting rights at the Soviet. "
            },
        );
        result.append(
            if self.night_voter {
                "You are busy at night."
            } else {
                "You sleep at night."
            },
        );
        result
    }
}

} // verus!
