use pokedex::dex::{BasicDex, Dex};
use pokedex::moves::owned::{OwnedMove, SavedMove};
use pokedex::moves::set::SavedMoveSet;
use pokedex::moves::{Move, MoveCategory, MoveTarget};
use pokedex::pokemon::data::{Breeding, Gender, GrowthRate, LearnableMove, Training};
use pokedex::pokemon::instance::{InitPokemon, UninitPokemon};
use pokedex::pokemon::stat::{StatSet, StatType};
use pokedex::pokemon::Pokemon;
use pokedex::types::PokemonType;
use rand::rngs::StdRng;
use rand::SeedableRng;

fn species(id: u16, gender: Option<u8>) -> Pokemon {
    Pokemon {
        id,
        name: format!("Species {}", id),
        primary_type: PokemonType::Fire,
        secondary_type: None,
        moves: vec![
            LearnableMove(1, 1),
            LearnableMove(3, 2),
            LearnableMove(6, 3),
            LearnableMove(6, 77),
            LearnableMove(7, 4),
            LearnableMove(7, 5),
            LearnableMove(8, 6),
        ],
        base: StatSet::uniform(60),
        species: "Test Species".to_owned(),
        evolution: None,
        height: 10,
        weight: 100,
        training: Training { base_exp: 200, growth: GrowthRate::Medium },
        breeding: Breeding { gender },
    }
}

fn a_move(id: u16, pp: u8) -> Move {
    Move {
        id,
        name: format!("Move {}", id),
        category: MoveCategory::Special,
        pokemon_type: PokemonType::Fire,
        accuracy: None,
        power: Some(40),
        pp,
        priority: 0,
        target: MoveTarget::Opponent,
        contact: false,
        crit_rate: 1,
    }
}

fn registries() -> (BasicDex<Pokemon>, BasicDex<Move>) {
    let mut pokedex = BasicDex::default();
    pokedex.insert(species(0, None));
    pokedex.insert(species(1, Some(3)));
    let mut movedex = BasicDex::default();
    for id in 0..10u16 {
        movedex.insert(a_move(id, 20 + id as u8));
    }
    (pokedex, movedex)
}

fn set(moves: &[SavedMove]) -> SavedMoveSet {
    moves.iter().copied().collect()
}

fn ids(pokemon: &InitPokemon) -> Vec<u16> {
    (0..pokemon.moves.len()).map(|index| pokemon.moves.get(index).unwrap().m.id).collect()
}

#[test]
fn generate_picks_individual_values_where_none_are_given() {
    let mut rng = StdRng::seed_from_u64(3);
    let fresh = UninitPokemon::generate(&mut rng, 1, 30, None, None);
    assert_eq!(fresh.pokemon, 1);
    assert_eq!(fresh.level, 30);
    assert_eq!(fresh.gender, None);
    assert_eq!(fresh.hp, u16::MAX);
    assert!(fresh.moves.is_empty());
    assert_eq!(fresh.evs, StatSet::uniform(0));
    assert_eq!(fresh.friendship, 70);
    assert_eq!(fresh.experience, 0);
    assert_eq!(fresh.item, None);
    assert_eq!(fresh.ailment, None);
    assert_eq!(fresh.nickname, None);
    for value in [fresh.ivs.hp, fresh.ivs.atk, fresh.ivs.def, fresh.ivs.sp_atk, fresh.ivs.sp_def, fresh.ivs.speed] {
        assert!(value < 32);
    }
    let untouched = rng.clone();
    let given = UninitPokemon::generate(&mut rng, 1, 30, Some(Gender::Male), Some(StatSet::uniform(9)));
    assert_eq!(given.ivs, StatSet::uniform(9));
    assert_eq!(given.gender, Some(Gender::Male));
    assert_eq!(rng, untouched);
}

#[test]
fn an_instance_goes_live_with_the_moves_of_its_level() {
    let (pokedex, movedex) = registries();
    let mut rng = StdRng::seed_from_u64(3);
    let fresh = UninitPokemon::generate(&mut rng, 1, 7, None, Some(StatSet::uniform(31)));
    let live = fresh.init_with(2, &pokedex, &movedex).unwrap();
    assert_eq!(live.pokemon.id, 1);
    assert_eq!(ids(&live), vec![5, 4, 3]);
    assert_eq!(live.gender, Some(Gender::Female));
    assert_eq!(live.hp, 27);
    assert_eq!(live.hp(), live.max_hp());
    assert_eq!(live.name(), "Species 1");
    assert_eq!(live.moves_at_level(), vec![4, 5]);
    assert!(!live.fainted());
}

#[test]
fn an_instance_keeps_its_own_moves_and_health() {
    let (pokedex, movedex) = registries();
    let mut rng = StdRng::seed_from_u64(3);
    let mut saved = UninitPokemon::generate(&mut rng, 0, 50, None, Some(StatSet::uniform(31)));
    saved.moves = set(&[SavedMove { id: 9, pp: Some(2) }, SavedMove::from(300)]);
    saved.hp = 0;
    saved.nickname = Some("Nick".to_owned());
    let live = saved.init(&mut rng, &pokedex, &movedex).unwrap();
    assert_eq!(ids(&live), vec![9]);
    assert_eq!(live.moves.get(0).unwrap().pp, 2);
    assert_eq!(live.gender, None);
    assert_eq!(live.hp, 0);
    assert!(live.fainted());
    assert_eq!(live.max_hp(), 135);
    assert_eq!(live.stat(StatType::Attack), 80);
    assert_eq!(live.name(), "Nick");
}

#[test]
fn an_instance_of_an_unregistered_species_does_not_go_live() {
    let (pokedex, movedex) = registries();
    let mut rng = StdRng::seed_from_u64(3);
    let saved = UninitPokemon::generate(&mut rng, 5, 50, None, Some(StatSet::uniform(31)));
    let untouched = rng.clone();
    assert!(saved.clone().init(&mut rng, &pokedex, &movedex).is_none());
    assert_eq!(rng, untouched);
    assert!(saved.init_with(0, &pokedex, &movedex).is_none());
}

#[test]
fn init_picks_a_gender_of_the_species() {
    let (pokedex, movedex) = registries();
    let mut rng = StdRng::seed_from_u64(11);
    let mut seen = Vec::new();
    for _ in 0..200 {
        let saved = UninitPokemon::generate(&mut rng, 1, 50, None, None);
        let live = saved.init(&mut rng, &pokedex, &movedex).unwrap();
        assert!(live.gender == Some(Gender::Male) || live.gender == Some(Gender::Female));
        if !seen.contains(&live.gender) {
            seen.push(live.gender);
        }
    }
    assert_eq!(seen.len(), 2);
}

#[test]
fn an_instance_goes_back_to_identifiers() {
    let (pokedex, movedex) = registries();
    let mut rng = StdRng::seed_from_u64(3);
    let mut saved = UninitPokemon::generate(&mut rng, 1, 50, Some(Gender::Male), Some(StatSet::uniform(31)));
    saved.moves = set(&[SavedMove { id: 9, pp: Some(2) }, SavedMove { id: 2, pp: Some(7) }]);
    saved.hp = 44;
    saved.item = Some(800);
    saved.experience = 9;
    let live = saved.clone().init_with(0, &pokedex, &movedex).unwrap();
    let back = UninitPokemon::from(live);
    assert_eq!(back.pokemon, 1);
    assert_eq!(back.moves, saved.moves);
    assert_eq!(back.hp, 44);
    assert_eq!(back.item, Some(800));
    assert_eq!(back.gender, Some(Gender::Male));
    assert_eq!(back.ivs, saved.ivs);
    assert_eq!(back.experience, 9);
    assert_eq!(back.level, 50);
}

#[test]
fn replace_move_needs_a_move_to_replace() {
    let (pokedex, movedex) = registries();
    let mut rng = StdRng::seed_from_u64(3);
    let mut saved = UninitPokemon::generate(&mut rng, 1, 50, None, None);
    saved.moves = set(&[SavedMove::from(1), SavedMove::from(2)]);
    saved.replace_move(1, SavedMove::from(3));
    saved.replace_move(2, SavedMove::from(4));
    saved.replace_move(7, SavedMove::from(4));
    assert_eq!(saved.moves.to_vec(), vec![SavedMove::from(1), SavedMove::from(3)]);
    let mut live = saved.init_with(0, &pokedex, &movedex).unwrap();
    live.replace_move(0, OwnedMove::from(movedex.try_get(&8).unwrap()));
    live.replace_move(3, OwnedMove::from(movedex.try_get(&9).unwrap()));
    assert_eq!(ids(&live), vec![8, 3]);
}

#[test]
fn healing_an_instance() {
    let (pokedex, movedex) = registries();
    let mut rng = StdRng::seed_from_u64(3);
    let mut saved = UninitPokemon::generate(&mut rng, 1, 50, None, Some(StatSet::uniform(31)));
    saved.moves = set(&[SavedMove { id: 1, pp: Some(0) }]);
    saved.hp = 10;
    let mut live = saved.init_with(0, &pokedex, &movedex).unwrap();
    live.heal_hp(Some(100));
    assert_eq!(live.hp, 100);
    live.heal_hp(Some(136));
    assert_eq!(live.hp, 135);
    live.heal_pp(Some(3));
    assert_eq!(live.moves.get(0).unwrap().pp, 3);
    live.hp = 1;
    live.heal(None, None);
    assert_eq!(live.hp, 135);
    assert_eq!(live.moves.get(0).unwrap().pp, 21);
    live.heal(Some(2), Some(200));
    assert_eq!(live.hp, 2);
    assert_eq!(live.moves.get(0).unwrap().pp, 21);
}
