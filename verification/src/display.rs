//! What the text on the player's screen shows.
use vstd::prelude::*;

verus! {

/// The lines of the player's status text.
#[derive(Clone, Copy, Debug, PartialEq, Eq, Structural)]
pub enum TextStates {
    CharacterHealth,
    CharacterEnergy,
    DestroyedCharacters,
    DestroyedMicrobes,
    YourPopulation,
    SkillCd,
    Power,
}

/// The quantity a status line shows.
#[derive(Clone, Copy, Debug, PartialEq, Eq, Structural)]
pub enum Quantity {
    Health,
    Energy,
    DestroyedCharacters,
    DestroyedMicrobes,
    Population,
    /// The share of the skill cooldown still to run, in percent.
    SkillCooldownLeft,
}

/// How a status line is written: `prefix`, the quantity, then `suffix`.
#[derive(Clone, Copy, Debug, PartialEq, Eq)]
pub struct Readout {
    pub prefix: &'static str,
    pub quantity: Quantity,
    pub suffix: &'static str,
}

/// The readout of a status line, with its prefix and suffix as text.
pub open spec fn readout_spec(state: TextStates) -> Option<(Seq<char>, Quantity, Seq<char>)> {
    match state {
        TextStates::CharacterHealth => Some(("Health: "@, Quantity::Health, ""@)),
        TextStates::CharacterEnergy => Some(("Energy: "@, Quantity::Energy, ""@)),
        TextStates::YourPopulation => Some(("Your Population: "@, Quantity::Population, ""@)),
        TextStates::DestroyedMicrobes => Some(
            ("Destroyed Microbes: "@, Quantity::DestroyedMicrobes, ""@),
        ),
        TextStates::DestroyedCharacters => Some(
            ("Destroyed Characters: "@, Quantity::DestroyedCharacters, ""@),
        ),
        TextStates::SkillCd => Some(("Skills Cooldown: "@, Quantity::SkillCooldownLeft, "%"@)),
        TextStates::Power => None,
    }
}

/// The status line that shows a quantity.
pub open spec fn line_showing(q: Quantity) -> TextStates {
    match q {
        Quantity::Health => TextStates::CharacterHealth,
        Quantity::Energy => TextStates::CharacterEnergy,
        Quantity::DestroyedCharacters => TextStates::DestroyedCharacters,
        Quantity::DestroyedMicrobes => TextStates::DestroyedMicrobes,
        Quantity::Population => TextStates::YourPopulation,
        Quantity::SkillCooldownLeft => TextStates::SkillCd,
    }
}

/// Each status line shows its own quantity: a line that is written shows
/// the quantity it is the line of, every quantity is shown by its line, so
/// no two lines show the same quantity; only the power line is never
/// written.
pub proof fn lemma_each_line_shows_its_quantity(state: TextStates, q: Quantity)
    ensures
        readout_spec(state) matches Some((_, shown, _)) ==> line_showing(shown) == state,
        readout_spec(line_showing(q)) matches Some((_, shown, _)) && shown == q,
        readout_spec(state) is None <==> state == TextStates::Power,
{
}

impl TextStates {
    /// How this status line is written; the power line is never updated.
    pub fn readout(&self) -> (r: Option<Readout>)
        ensures
            r is None <==> readout_spec(*self) is None,
            r matches Some(x) ==> readout_spec(*self) == Some(
                (x.prefix@, x.quantity, x.suffix@),
            ),
    {
        match self {
            TextStates::CharacterHealth => Some(
                Readout { prefix: "Health: ", quantity: Quantity::Health, suffix: "" },
            ),
            TextStates::CharacterEnergy => Some(
                Readout { prefix: "Energy: ", quantity: Quantity::Energy, suffix: "" },
            ),
            TextStates::YourPopulation => Some(
                Readout { prefix: "Your Population: ", quantity: Quantity::Population, suffix: "" },
            ),
            TextStates::DestroyedMicrobes => Some(
                Readout {
                    prefix: "Destroyed Microbes: ",
                    quantity: Quantity::DestroyedMicrobes,
                    suffix: "",
                },
            ),
            TextStates::DestroyedCharacters => Some(
                Readout {
                    prefix: "Destroyed Characters: ",
                    quantity: Quantity::DestroyedCharacters,
                    suffix: "",
                },
            ),
            TextStates::SkillCd => Some(
                Readout {
                    prefix: "Skills Cooldown: ",
                    quantity: Quantity::SkillCooldownLeft,
                    suffix: "%",
                },
            ),
            TextStates::Power => None,
        }
    }
}

/// The player's population: every child of the player's character but
/// the one placeholder child it is spawned with.
pub fn player_population(children: usize) -> (population: usize)
    requires
        children >= 1,
    ensures
        population == children - 1,
{
    children - 1
}

} // verus!
