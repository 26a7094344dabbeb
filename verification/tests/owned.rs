use pokedex::ailment::{Ailment, LiveAilment};
use pokedex::dex::BasicDex;
use pokedex::item::{Item, Stackable};
use pokedex::moves::owned::SavedMove;
use pokedex::moves::set::{OwnedMoveSet, SavedMoveSet};
use pokedex::moves::{Move, MoveCategory, MoveTarget};
use pokedex::pokemon::data::{
    Breeding, Evolution, EvolutionType, Gender, GrowthRate, LearnableMove, Nature, Training,
};
use pokedex::pokemon::owned::{OwnablePokemon, OwnedPokemon, SavedPokemon};
use pokedex::pokemon::stat::{StatSet, StatType};
use pokedex::pokemon::Pokemon;
use pokedex::types::PokemonType;
use rand::rngs::StdRng;
use rand::SeedableRng;

fn species(id: u16, growth: GrowthRate, gender: Option<u8>) -> Pokemon {
    Pokemon {
        id,
        name: format!("Species {}", id),
        primary_type: PokemonType::Water,
        secondary_type: None,
        moves: vec![
            LearnableMove(1, 1),
            LearnableMove(3, 2),
            LearnableMove(6, 3),
            LearnableMove(6, 77),
            LearnableMove(7, 4),
            LearnableMove(7, 5),
            LearnableMove(8, 6),
        ],
        base: StatSet::uniform(60),
        species: "Test Species".to_owned(),
        evolution: Some(Evolution(EvolutionType::Level(16), 2)),
        height: 10,
        weight: 100,
        training: Training { base_exp: 200, growth },
        breeding: Breeding { gender },
    }
}

fn a_move(id: u16, pp: u8) -> Move {
    Move {
        id,
        name: format!("Move {}", id),
        category: MoveCategory::Special,
        pokemon_type: PokemonType::Water,
        accuracy: None,
        power: Some(40),
        pp,
        priority: 0,
        target: MoveTarget::Opponent,
        contact: false,
        crit_rate: 1,
    }
}

fn an_item(id: u16) -> Item {
    Item {
        id,
        name: format!("Item {}", id),
        description: String::new(),
        stackable: Stackable::Singular,
        consume: true,
    }
}

struct World {
    pokedex: BasicDex<Pokemon>,
    movedex: BasicDex<Move>,
    itemdex: BasicDex<Item>,
}

fn world() -> World {
    let mut pokedex = BasicDex::default();
    pokedex.insert(species(0, GrowthRate::Medium, None));
    pokedex.insert(species(1, GrowthRate::Medium, Some(3)));
    pokedex.insert(species(2, GrowthRate::Fast, Some(7)));
    let mut movedex = BasicDex::default();
    for id in 0..10u16 {
        movedex.insert(a_move(id, 20 + id as u8));
    }
    let mut itemdex = BasicDex::default();
    itemdex.insert(an_item(0));
    itemdex.insert(an_item(5));
    World { pokedex, movedex, itemdex }
}

fn saved(world_species: u16, level: u8) -> SavedPokemon {
    SavedPokemon::generate(world_species, level, None, None)
}

fn set(moves: &[SavedMove]) -> SavedMoveSet {
    moves.iter().copied().collect()
}

fn ids(set: &OwnedMoveSet) -> Vec<u16> {
    (0..set.len()).map(|index| set.get(index).unwrap().m.id).collect()
}

fn live<'d>(world: &'d World, species: u16, level: u8, moves: &[u16]) -> OwnedPokemon<'d> {
    let mut saved = SavedPokemon::generate(species, level, Some(Gender::Male), None);
    saved.nature = Some(Nature::Hardy);
    saved.hp = Some(20);
    saved.moves = moves.iter().map(|id| SavedMove::from(*id)).collect();
    saved.try_init(&world.pokedex, &world.movedex, &world.itemdex).unwrap()
}

#[test]
fn generate_leaves_open_what_is_settled_later() {
    let fresh = SavedPokemon::generate(4, 30, None, None);
    assert_eq!(fresh.pokemon, 4);
    assert_eq!(fresh.level, 30);
    assert_eq!(fresh.gender, None);
    assert_eq!(fresh.nature, None);
    assert_eq!(fresh.hp, None);
    assert_eq!(fresh.hp(), None);
    assert_eq!(fresh.ivs, StatSet::uniform(0));
    assert_eq!(fresh.evs, StatSet::uniform(0));
    assert_eq!(fresh.friendship, 70);
    assert_eq!(fresh.ailment, None);
    assert_eq!(fresh.nickname, None);
    assert!(fresh.moves.is_empty());
    assert_eq!(fresh.item, None);
    assert_eq!(fresh.experience, 0);
    let given = SavedPokemon::generate(4, 30, Some(Gender::Female), Some(StatSet::uniform(31)));
    assert_eq!(given.gender, Some(Gender::Female));
    assert_eq!(given.ivs, StatSet::uniform(31));
}

#[test]
fn a_pokemon_of_an_unregistered_species_does_not_go_live() {
    let world = world();
    let mut rng = StdRng::seed_from_u64(1);
    let untouched = rng.clone();
    assert!(saved(9, 5).init(&mut rng, &world.pokedex, &world.movedex, &world.itemdex).is_none());
    assert_eq!(rng, untouched);
    assert!(saved(9, 5).init_with(0, 0, &world.pokedex, &world.movedex, &world.itemdex).is_none());
    let mut whole = saved(9, 5);
    whole.gender = Some(Gender::Male);
    whole.nature = Some(Nature::Calm);
    whole.hp = Some(1);
    assert!(whole.try_init(&world.pokedex, &world.movedex, &world.itemdex).is_none());
}

#[test]
fn a_pokemon_with_one_invalid_move_goes_live_without_it() {
    let world = world();
    let mut pokemon = saved(1, 5);
    pokemon.moves = set(&[SavedMove::from(1), SavedMove::from(500), SavedMove::from(2)]);
    let live = pokemon.init_with(0, 0, &world.pokedex, &world.movedex, &world.itemdex).unwrap();
    assert_eq!(ids(&live.moves), vec![1, 2]);
}

#[test]
fn a_pokemon_with_an_invalid_item_goes_live_without_it() {
    let world = world();
    let mut pokemon = saved(1, 5);
    pokemon.item = Some(6);
    let live = pokemon.init_with(0, 0, &world.pokedex, &world.movedex, &world.itemdex).unwrap();
    assert!(live.item.is_none());
    let mut pokemon = saved(1, 5);
    pokemon.item = Some(5);
    let live = pokemon.init_with(0, 0, &world.pokedex, &world.movedex, &world.itemdex).unwrap();
    assert_eq!(live.item.map(|item| item.id), Some(5));
}

#[test]
fn what_was_open_is_settled_by_the_rolls() {
    let world = world();
    let live = saved(1, 50).init_with(3, 3, &world.pokedex, &world.movedex, &world.itemdex).unwrap();
    assert_eq!(live.gender, Gender::Female);
    assert_eq!(live.nature, Nature::Adamant);
    assert_eq!(live.hp, 120);
    assert_eq!(live.hp(), 120);
    let live = saved(1, 50).init_with(4, 27, &world.pokedex, &world.movedex, &world.itemdex).unwrap();
    assert_eq!(live.gender, Gender::Male);
    assert_eq!(live.nature, Nature::Brave);
    let live = saved(0, 50).init_with(4, 0, &world.pokedex, &world.movedex, &world.itemdex).unwrap();
    assert_eq!(live.gender, Gender::Neither);
}

#[test]
fn what_was_written_down_stays() {
    let world = world();
    let mut pokemon = saved(1, 50);
    pokemon.gender = Some(Gender::Male);
    pokemon.nature = Some(Nature::Quiet);
    pokemon.hp = Some(7);
    let live = pokemon.init_with(0, 0, &world.pokedex, &world.movedex, &world.itemdex).unwrap();
    assert_eq!(live.gender, Gender::Male);
    assert_eq!(live.nature, Nature::Quiet);
    assert_eq!(live.hp, 7);
}

#[test]
fn a_pokemon_without_moves_starts_with_the_latest_of_its_species() {
    let world = world();
    let live = saved(1, 7).init_with(0, 0, &world.pokedex, &world.movedex, &world.itemdex).unwrap();
    assert_eq!(ids(&live.moves), vec![5, 4, 3]);
    let live = saved(1, 8).init_with(0, 0, &world.pokedex, &world.movedex, &world.itemdex).unwrap();
    assert_eq!(ids(&live.moves), vec![6, 5, 4]);
    let live = saved(1, 3).init_with(0, 0, &world.pokedex, &world.movedex, &world.itemdex).unwrap();
    assert_eq!(ids(&live.moves), vec![2, 1]);
    assert_eq!(live.moves.get(0).unwrap().pp, 22);
    let live = saved(1, 0).init_with(0, 0, &world.pokedex, &world.movedex, &world.itemdex).unwrap();
    assert!(live.moves.is_empty());
}

#[test]
fn init_settles_within_the_ranges() {
    let world = world();
    let mut rng = StdRng::seed_from_u64(5);
    let mut genders = Vec::new();
    let mut natures = Vec::new();
    for _ in 0..300 {
        let live = saved(1, 50).init(&mut rng, &world.pokedex, &world.movedex, &world.itemdex).unwrap();
        assert_ne!(live.gender, Gender::Neither);
        assert_eq!(live.hp, live.max_hp());
        assert_eq!(live.pokemon.id, 1);
        if !genders.contains(&live.gender) {
            genders.push(live.gender);
        }
        if !natures.contains(&live.nature) {
            natures.push(live.nature);
        }
    }
    assert_eq!(genders.len(), 2);
    assert!(natures.len() > 1);
}

#[test]
fn try_init_needs_everything_written_down() {
    let world = world();
    let mut pokemon = saved(1, 50);
    pokemon.gender = Some(Gender::Male);
    pokemon.nature = Some(Nature::Quiet);
    assert!(pokemon.clone().try_init(&world.pokedex, &world.movedex, &world.itemdex).is_none());
    pokemon.hp = Some(9);
    let live = pokemon.clone().try_init(&world.pokedex, &world.movedex, &world.itemdex).unwrap();
    assert_eq!((live.gender, live.nature, live.hp), (Gender::Male, Nature::Quiet, 9));
    assert!(live.moves.is_empty());
    pokemon.gender = None;
    assert!(pokemon.clone().try_init(&world.pokedex, &world.movedex, &world.itemdex).is_none());
    pokemon.gender = Some(Gender::Male);
    pokemon.nature = None;
    assert!(pokemon.try_init(&world.pokedex, &world.movedex, &world.itemdex).is_none());
}

#[test]
fn a_round_trip_gives_the_saved_pokemon_back() {
    let world = world();
    let mut pokemon = saved(1, 42);
    pokemon.ivs = StatSet { hp: 1, atk: 2, def: 3, sp_atk: 4, sp_def: 5, speed: 6 };
    pokemon.evs = StatSet { hp: 6, atk: 5, def: 4, sp_atk: 3, sp_def: 2, speed: 1 };
    pokemon.friendship = 200;
    pokemon.ailment = Some(LiveAilment { ailment: Ailment::Sleep, turns: 2 });
    pokemon.nickname = Some("Nick".to_owned());
    pokemon.moves = set(&[SavedMove { id: 3, pp: Some(1) }, SavedMove { id: 9, pp: Some(0) }]);
    pokemon.item = Some(5);
    pokemon.experience = 1234;
    let live = pokemon.clone().init_with(5, 20, &world.pokedex, &world.movedex, &world.itemdex).unwrap();
    let back = live.uninit();
    assert_eq!(back.pokemon, pokemon.pokemon);
    assert_eq!(back.level, pokemon.level);
    assert_eq!(back.ivs, pokemon.ivs);
    assert_eq!(back.evs, pokemon.evs);
    assert_eq!(back.friendship, pokemon.friendship);
    assert_eq!(back.ailment, pokemon.ailment);
    assert_eq!(back.nickname, pokemon.nickname);
    assert_eq!(back.moves, pokemon.moves);
    assert_eq!(back.item, pokemon.item);
    assert_eq!(back.experience, pokemon.experience);
    assert_eq!(back.gender, Some(Gender::Male));
    assert_eq!(back.nature, Some(Nature::Calm));
    assert_eq!(back.hp, Some(105));
    let again = back.clone().init_with(0, 0, &world.pokedex, &world.movedex, &world.itemdex).unwrap().uninit();
    assert_eq!(again.gender, back.gender);
    assert_eq!(again.nature, back.nature);
    assert_eq!(again.hp, back.hp);
    assert_eq!(again.moves, back.moves);
}

#[test]
fn a_round_trip_loses_what_the_registries_do_not_hold() {
    let world = world();
    let mut pokemon = saved(1, 42);
    pokemon.moves = set(&[SavedMove { id: 3, pp: None }, SavedMove { id: 99, pp: Some(0) }]);
    pokemon.item = Some(99);
    let back = pokemon.init_with(5, 20, &world.pokedex, &world.movedex, &world.itemdex).unwrap().uninit();
    assert_eq!(back.moves.to_vec(), vec![SavedMove { id: 3, pp: Some(23) }]);
    assert_eq!(back.item, None);
}

#[test]
fn two_levels_at_once() {
    let world = world();
    let mut pokemon = live(&world, 1, 5, &[1, 2]);
    let skipped = pokemon.add_exp(&world.movedex, 70);
    assert_eq!(pokemon.level, 7);
    assert_eq!(pokemon.experience, 350 - 125 - 216);
    assert_eq!(ids(&pokemon.moves), vec![1, 2, 4, 5]);
    assert_eq!(skipped, vec![3, 77]);
    assert_eq!(pokemon.hp, 20);
}

#[test]
fn experience_that_is_not_enough_raises_no_level() {
    let world = world();
    let mut pokemon = live(&world, 1, 5, &[1, 2]);
    let skipped = pokemon.add_exp(&world.movedex, 25);
    assert_eq!(pokemon.level, 5);
    assert_eq!(pokemon.experience, 125);
    assert_eq!(ids(&pokemon.moves), vec![1, 2]);
    assert!(skipped.is_empty());
    let skipped = pokemon.add_exp(&world.movedex, 1);
    assert_eq!(pokemon.level, 6);
    assert_eq!(pokemon.experience, 5);
    assert_eq!(ids(&pokemon.moves), vec![1, 2, 3]);
    assert!(skipped.is_empty());
}

#[test]
fn a_fast_species_needs_less() {
    let world = world();
    let mut pokemon = live(&world, 2, 5, &[1]);
    pokemon.add_exp(&world.movedex, 21);
    assert_eq!(pokemon.level, 6);
    assert_eq!(pokemon.experience, 5);
}

#[test]
fn experience_stops_at_the_most_that_can_be_held() {
    let world = world();
    let mut pokemon = live(&world, 1, 250, &[1, 2, 3, 4]);
    pokemon.experience = 10;
    pokemon.add_exp(&world.movedex, u32::MAX);
    assert_eq!(pokemon.level, 255);
    let mut left = u32::MAX as u64;
    for level in 250..255u64 {
        left -= level * level * level;
    }
    while left > 255 * 255 * 255 {
        left -= 255 * 255 * 255;
    }
    assert_eq!(pokemon.experience as u64, left);
}

#[test]
fn a_full_set_learns_nothing_on_a_level_up() {
    let world = world();
    let mut pokemon = live(&world, 1, 8, &[1, 2, 3, 9]);
    let skipped = pokemon.on_level_up(&world.movedex, 5);
    assert_eq!(ids(&pokemon.moves), vec![1, 2, 3, 9]);
    assert_eq!(skipped, vec![6, 4, 5, 3, 77]);
}

#[test]
fn a_move_that_is_not_registered_is_passed_over() {
    let world = world();
    let mut pokemon = live(&world, 1, 6, &[1]);
    let skipped = pokemon.on_level_up(&world.movedex, 5);
    assert_eq!(ids(&pokemon.moves), vec![1, 3]);
    assert!(skipped.is_empty());
}

#[test]
fn healing_a_live_pokemon() {
    let world = world();
    let mut pokemon = live(&world, 1, 50, &[1, 2]);
    assert_eq!(pokemon.max_hp(), 120);
    assert_eq!(pokemon.stat(StatType::Speed), 65);
    pokemon.heal_hp(Some(50));
    assert_eq!(pokemon.hp, 50);
    pokemon.heal_hp(Some(500));
    assert_eq!(pokemon.hp, 120);
    pokemon.heal_hp(Some(0));
    assert!(pokemon.fainted());
    pokemon.heal_hp(None);
    assert_eq!(pokemon.hp, 120);
    assert!(!pokemon.fainted());
    let mut tired = pokemon.uninit();
    tired.moves = set(&[SavedMove { id: 1, pp: Some(0) }, SavedMove { id: 2, pp: Some(20) }]);
    tired.hp = Some(1);
    let mut pokemon = tired.try_init(&world.pokedex, &world.movedex, &world.itemdex).unwrap();
    pokemon.heal(Some(30), Some(5));
    assert_eq!(pokemon.hp, 30);
    assert_eq!(pokemon.moves.get(0).unwrap().pp, 5);
    assert_eq!(pokemon.moves.get(1).unwrap().pp, 22);
    pokemon.heal(None, None);
    assert_eq!(pokemon.hp, 120);
    assert_eq!(pokemon.moves.get(0).unwrap().pp, 21);
}

#[test]
fn healing_a_saved_pokemon() {
    let mut pokemon = saved(1, 50);
    pokemon.moves = set(&[SavedMove { id: 1, pp: Some(0) }, SavedMove { id: 2, pp: None }]);
    assert!(!pokemon.fainted());
    pokemon.heal_hp(Some(10));
    assert_eq!(pokemon.hp, None);
    pokemon.hp = Some(0);
    assert!(pokemon.fainted());
    pokemon.heal_hp(Some(10));
    assert_eq!(pokemon.hp, Some(10));
    pokemon.heal_hp(Some(u16::MAX));
    assert_eq!(pokemon.hp, Some(u16::MAX));
    pokemon.heal_pp(Some(4));
    assert_eq!(pokemon.moves.to_vec(), vec![SavedMove { id: 1, pp: Some(4) }, SavedMove { id: 2, pp: None }]);
    pokemon.heal(None, None);
    assert_eq!(pokemon.hp, None);
    assert_eq!(pokemon.moves.to_vec(), vec![SavedMove { id: 1, pp: None }, SavedMove { id: 2, pp: None }]);
    pokemon.hp = Some(3);
    pokemon.heal(Some(4), Some(1));
    assert_eq!(pokemon.hp, Some(7));
}

#[test]
fn the_name_is_the_nickname_or_that_of_the_species() {
    let world = world();
    let mut pokemon = live(&world, 1, 5, &[]);
    assert_eq!(pokemon.name(), "Species 1");
    pokemon.nickname = Some("Bob".to_owned());
    assert_eq!(pokemon.name(), "Bob");
}

#[test]
fn an_evolution_by_level_is_due_up_to_its_level() {
    let world = world();
    assert_eq!(live(&world, 1, 5, &[]).should_evolve(), Some(&2));
    assert_eq!(live(&world, 1, 16, &[]).should_evolve(), Some(&2));
    assert_eq!(live(&world, 1, 17, &[]).should_evolve(), None);
    let mut by_trade = species(3, GrowthRate::Medium, None);
    by_trade.evolution = Some(Evolution(EvolutionType::Trade, 2));
    let pokemon: OwnablePokemon<&Pokemon, (), (), (), (), ()> = OwnablePokemon {
        pokemon: &by_trade,
        level: 5,
        gender: (),
        nature: (),
        hp: (),
        ivs: StatSet::uniform(0),
        evs: StatSet::uniform(0),
        friendship: 0,
        ailment: None,
        nickname: None,
        moves: (),
        item: None,
        experience: 0,
    };
    assert_eq!(pokemon.should_evolve(), None);
    let mut none = species(3, GrowthRate::Medium, None);
    none.evolution = None;
    let pokemon = OwnablePokemon { pokemon: &none, ..pokemon };
    assert_eq!(pokemon.should_evolve(), None);
}

#[test]
fn what_a_live_pokemon_is_worth_and_learns() {
    let world = world();
    let pokemon = live(&world, 1, 7, &[]);
    assert_eq!(pokemon.exp_from(), 200);
    assert_eq!(pokemon.moves_at_level(), vec![4, 5]);
}
