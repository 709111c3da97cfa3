//! Spawn points: objects of the map that stand for something to be put in their place.

use vstd::prelude::*;
use vstd::string::StringExecFns;

verus! {

/// What a spawn point of the map stands for.
#[derive(Clone, Copy, Debug, PartialEq, Eq, Structural)]
pub enum SpawnPoint {
    Player,
    Slime,
    Platform,
}

/// What an object of the map with the given name stands for, going by the name alone.
pub open spec fn spawn_point_named(name: Seq<char>) -> Option<SpawnPoint> {
    if name == "PlayerSpawn"@ {
        Some(SpawnPoint::Player)
    } else if name == "SlimeSpawn"@ {
        Some(SpawnPoint::Slime)
    } else if name == "PlatformSpawn"@ {
        Some(SpawnPoint::Platform)
    } else {
        None
    }
}

/// Tells what is to be spawned at an object of the map: a player at `PlayerSpawn`, a slime
/// at `SlimeSpawn`, a one-way platform at `PlatformSpawn`, and nothing at any other name.
pub fn spawn_point(name: &str) -> (point: Option<SpawnPoint>)
    ensures
        point == spawn_point_named(name@),
{
    let name = name.to_owned();
    if name == String::from_str("PlayerSpawn") {
        Some(SpawnPoint::Player)
    } else if name == String::from_str("SlimeSpawn") {
        Some(SpawnPoint::Slime)
    } else if name == String::from_str("PlatformSpawn") {
        Some(SpawnPoint::Platform)
    } else {
        None
    }
}

} // verus!
