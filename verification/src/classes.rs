use vstd::prelude::*;

verus! {

/// The character classes a player can start as.
#[derive(Debug, Clone, Copy, PartialEq, Eq, Structural)]
pub enum ClassType {
    Knight,
    Mage,
    Assassin,
}

/// The starting attributes a character class grants.
#[derive(Debug, Clone, Copy)]
pub struct CharacterClass {
    pub name: &'static str,
    pub emoji: &'static str,
    pub description: &'static str,
    pub class_type: ClassType,
    pub health: i32,
    pub strength: i32,
    pub mana: i32,
    pub agility: i32,
    pub intelligence: i32,
}

/// The knight archetype's numbers and labels.
pub open spec fn is_knight(c: CharacterClass) -> bool {
    &&& c.name@ == "Cavaleiro"@
    &&& c.class_type == ClassType::Knight
    &&& c.health == 100
    &&& c.strength == 20
    &&& c.mana == 10
    &&& c.agility == 5
    &&& c.intelligence == 5
}

/// The mage archetype's numbers and labels.
pub open spec fn is_mage(c: CharacterClass) -> bool {
    &&& c.name@ == "Mago"@
    &&& c.class_type == ClassType::Mage
    &&& c.health == 80
    &&& c.strength == 5
    &&& c.mana == 50
    &&& c.agility == 8
    &&& c.intelligence == 15
}

/// The assassin archetype's numbers and labels.
pub open spec fn is_assassin(c: CharacterClass) -> bool {
    &&& c.name@ == "Assassino"@
    &&& c.class_type == ClassType::Assassin
    &&& c.health == 60
    &&& c.strength == 15
    &&& c.mana == 15
    &&& c.agility == 15
    &&& c.intelligence == 10
}

/// The class a character of the given type starts with.
fn class_of(class_type: ClassType) -> (r: CharacterClass)
    ensures
        match class_type {
            ClassType::Knight => is_knight(r),
            ClassType::Mage => is_mage(r),
            ClassType::Assassin => is_assassin(r),
        },
{
    match class_type {
        ClassType::Knight => CharacterClass {
            name: "Cavaleiro",
            emoji: "⚔️",
            description: "Fiéis guerreiros da linha de frente, guiados pela chama de Phoenix.",
            class_type: ClassType::Knight,
            health: 100,
            strength: 20,
            mana: 10,
            agility: 5,
            intelligence: 5,
        },
        ClassType::Mage => CharacterClass {
            name: "Mago",
            emoji: "🪄",
            description: "Estudiosos das anomalias que resolvem tudo com conhecimento místico.",
            class_type: ClassType::Mage,
            health: 80,
            strength: 5,
            mana: 50,
            agility: 8,
            intelligence: 15,
        },
        ClassType::Assassin => CharacterClass {
            name: "Assassino",
            emoji: "🗡️",
            description: "Independentes, rápidos e letais, com uma chama escondida pelo povo.",
            class_type: ClassType::Assassin,
            health: 60,
            strength: 15,
            mana: 15,
            agility: 15,
            intelligence: 10,
        },
    }
}

/// Looks a class up by its display name; names outside the catalog find
/// nothing.
pub fn get_class_by_name(name: String) -> (r: Option<CharacterClass>)
    ensures
        name@ == "Cavaleiro"@ ==> (r matches Some(c) && is_knight(c)),
        name@ == "Mago"@ ==> (r matches Some(c) && is_mage(c)),
        name@ == "Assassino"@ ==> (r matches Some(c) && is_assassin(c)),
        name@ != "Cavaleiro"@ && name@ != "Mago"@ && name@ != "Assassino"@ ==> r is None,
{
    proof {
        reveal_strlit("Cavaleiro");
        reveal_strlit("Mago");
        reveal_strlit("Assassino");
        assert("Cavaleiro"@.len() == 9 && "Mago"@.len() == 4 && "Assassino"@.len() == 9);
        assert("Cavaleiro"@[0] == 'C' && "Assassino"@[0] == 'A');
    }
    if name == "Cavaleiro".to_owned() {
        Some(class_of(ClassType::Knight))
    } else if name == "Mago".to_owned() {
        Some(class_of(ClassType::Mage))
    } else if name == "Assassino".to_owned() {
        Some(class_of(ClassType::Assassin))
    } else {
        None
    }
}

/// Looks a class up by its type; every type is in the catalog.
pub fn get_class_by_type(class_type: ClassType) -> (r: Option<CharacterClass>)
    ensures
        r matches Some(c) && match class_type {
            ClassType::Knight => is_knight(c),
            ClassType::Mage => is_mage(c),
            ClassType::Assassin => is_assassin(c),
        },
{
    Some(class_of(class_type))
}

} // verus!
