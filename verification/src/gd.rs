//! Star-rating tables: mapping a star count to a difficulty classification
//! and a demon-rating index to the stored demon-difficulty code.

use vstd::prelude::*;

verus! {

/// Difficulty classification derived from a level's star count.
pub struct Difficulty<'a> {
    pub is_auto: bool,
    pub is_demon: bool,
    pub difficulty: i32,
    pub name: &'a str,
}

/// Demon-difficulty tier derived from a moderator's rating index.
pub struct Demon<'a> {
    pub difficulty: i32,
    pub name: &'a str,
}

/// The stored difficulty code for a star count.
pub open spec fn spec_difficulty_code(stars: i32) -> i32 {
    if stars == 1 {
        50
    } else if stars == 2 {
        10
    } else if stars == 3 {
        20
    } else if 4 <= stars <= 5 {
        30
    } else if 6 <= stars <= 7 {
        40
    } else if 8 <= stars <= 9 {
        50
    } else if stars == 10 {
        50
    } else {
        0
    }
}

/// The display name that goes with a star count.
pub open spec fn spec_difficulty_name(stars: i32) -> Seq<char> {
    if stars == 1 {
        "Auto"@
    } else if stars == 2 {
        "Easy"@
    } else if stars == 3 {
        "Normal"@
    } else if 4 <= stars <= 5 {
        "Hard"@
    } else if 6 <= stars <= 7 {
        "Harder"@
    } else if 8 <= stars <= 9 {
        "Insane"@
    } else if stars == 10 {
        "Demon"@
    } else {
        "N/A"@
    }
}

/// The stored demon-difficulty code for a rating index.
pub open spec fn spec_demon_code(index: i32) -> i32 {
    if index == 1 {
        3
    } else if index == 2 {
        4
    } else if index == 3 {
        0
    } else if index == 4 {
        5
    } else if index == 5 {
        6
    } else {
        0
    }
}

/// The demon-tier display name for a rating index.
pub open spec fn spec_demon_name(index: i32) -> Seq<char> {
    if index == 1 {
        "Easy"@
    } else if index == 2 {
        "Medium"@
    } else if index == 3 {
        "Hard"@
    } else if index == 4 {
        "Insane"@
    } else if index == 5 {
        "Extreme"@
    } else {
        "Hard"@
    }
}

pub fn get_difficulty_from_stars(stars: i32) -> (d: Difficulty<'static>)
    ensures
        d.is_auto == (stars == 1),
        d.is_demon == (stars == 10),
        d.difficulty == spec_difficulty_code(stars),
        d.name@ == spec_difficulty_name(stars),
{
    match stars {
        1 => Difficulty { is_auto: true, is_demon: false, difficulty: 50, name: "Auto" },
        2 => Difficulty { is_auto: false, is_demon: false, difficulty: 10, name: "Easy" },
        3 => Difficulty { is_auto: false, is_demon: false, difficulty: 20, name: "Normal" },
        4..=5 => Difficulty { is_auto: false, is_demon: false, difficulty: 30, name: "Hard" },
        6..=7 => Difficulty { is_auto: false, is_demon: false, difficulty: 40, name: "Harder" },
        8..=9 => Difficulty { is_auto: false, is_demon: false, difficulty: 50, name: "Insane" },
        10 => Difficulty { is_auto: false, is_demon: true, difficulty: 50, name: "Demon" },
        _ => Difficulty { is_auto: false, is_demon: false, difficulty: 0, name: "N/A" },
    }
}

pub fn get_demon_from_index(index: i32) -> (d: Demon<'static>)
    ensures
        d.difficulty == spec_demon_code(index),
        d.name@ == spec_demon_name(index),
{
    match index {
        1 => Demon { difficulty: 3, name: "Easy" },
        2 => Demon { difficulty: 4, name: "Medium" },
        3 => Demon { difficulty: 0, name: "Hard" },
        4 => Demon { difficulty: 5, name: "Insane" },
        5 => Demon { difficulty: 6, name: "Extreme" },
        _ => Demon { difficulty: 0, name: "Hard" },
    }
}

} // verus!
