use screepsctl::source::{free_source_spots, total_source_spots, Look, Terrain};

fn plain() -> Look {
    Look::Terrain(Terrain::Plain)
}

fn swamp() -> Look {
    Look::Terrain(Terrain::Swamp)
}

fn wall() -> Look {
    Look::Terrain(Terrain::Wall)
}

#[test]
fn total_counts_passable_terrain_only() {
    let looks = vec![plain(), swamp(), wall(), Look::Other, plain()];
    assert_eq!(total_source_spots(&looks), 3);
}

#[test]
fn total_of_unsensed_neighborhood_is_zero() {
    let looks: Vec<Look> = Vec::new();
    assert_eq!(total_source_spots(&looks), 0);
    assert_eq!(free_source_spots(&looks), 0);
}

#[test]
fn unoccupied_neighborhood_has_all_spots_free() {
    let looks = vec![plain(), plain(), swamp(), wall()];
    assert_eq!(total_source_spots(&looks), 3);
    assert_eq!(free_source_spots(&looks), 3);
}

#[test]
fn each_occupant_takes_one_spot() {
    let looks = vec![plain(), Look::Creep, plain(), swamp(), Look::Creep, wall()];
    assert_eq!(total_source_spots(&looks), 3);
    assert_eq!(free_source_spots(&looks), 1);
}

#[test]
fn overcrowded_neighborhood_goes_negative() {
    let looks = vec![plain(), Look::Creep, Look::Creep, Look::Creep];
    assert_eq!(total_source_spots(&looks), 1);
    assert_eq!(free_source_spots(&looks), -2);
}

#[test]
fn walls_and_other_results_do_not_count() {
    let looks = vec![wall(), wall(), Look::Other];
    assert_eq!(total_source_spots(&looks), 0);
    assert_eq!(free_source_spots(&looks), 0);
}
