use pokefusion::Pokemon;

fn oddish() -> Pokemon {
    Pokemon::new("Oddish".to_string(), "Odd".to_string(), "ish".to_string())
}

fn snorlax() -> Pokemon {
    Pokemon::new("Snorlax".to_string(), "Snor".to_string(), "lax".to_string())
}

#[test]
fn new_keeps_the_three_fields() {
    let oddish = oddish();
    assert_eq!(oddish.name, "Oddish");
    assert_eq!(oddish.prefix, "Odd");
    assert_eq!(oddish.suffix, "ish");
}

#[test]
fn snorlax_fused_with_oddish_is_snorish() {
    let snorish = snorlax().fuse_with(&oddish());
    assert_eq!(snorish.name, "Snorish");
}

#[test]
fn oddish_fused_with_snorlax_is_oddlax() {
    let oddlax = oddish().fuse_with(&snorlax());
    assert_eq!(oddlax.name, "Oddlax");
}

#[test]
fn fusion_takes_prefix_from_base_and_suffix_from_other() {
    let snorish = snorlax().fuse_with(&oddish());
    assert_eq!(snorish.prefix, "Snor");
    assert_eq!(snorish.suffix, "ish");
    let oddlax = oddish().fuse_with(&snorlax());
    assert_eq!(oddlax.prefix, "Odd");
    assert_eq!(oddlax.suffix, "lax");
}

#[test]
fn fusion_is_not_commutative() {
    let one_way = snorlax().fuse_with(&oddish());
    let other_way = oddish().fuse_with(&snorlax());
    assert_ne!(one_way.name, other_way.name);
}

#[test]
fn fusion_leaves_its_operands_unchanged() {
    let base = snorlax();
    let other = oddish();
    let _ = base.fuse_with(&other);
    assert_eq!(base.name, "Snorlax");
    assert_eq!(base.prefix, "Snor");
    assert_eq!(base.suffix, "lax");
    assert_eq!(other.name, "Oddish");
    assert_eq!(other.prefix, "Odd");
    assert_eq!(other.suffix, "ish");
}

#[test]
fn plus_fuses_left_with_right() {
    let snorish = snorlax() + oddish();
    assert_eq!(snorish.name, "Snorish");
    assert_eq!(snorish.prefix, "Snor");
    assert_eq!(snorish.suffix, "ish");
    let oddlax = oddish() + snorlax();
    assert_eq!(oddlax.name, "Oddlax");
}

#[test]
fn fusion_neither_trims_nor_changes_case() {
    let base = Pokemon::new("x".to_string(), " mIx ".to_string(), "unused".to_string());
    let other = Pokemon::new("y".to_string(), "unused".to_string(), "\tÉd ".to_string());
    let fused = base.fuse_with(&other);
    assert_eq!(fused.name, " mIx \tÉd ");
    assert_eq!(fused.prefix, " mIx ");
    assert_eq!(fused.suffix, "\tÉd ");
}

#[test]
fn fusion_ignores_the_names_of_its_operands() {
    let base = Pokemon::new("anything".to_string(), "Snor".to_string(), "lax".to_string());
    let other = Pokemon::new("at all".to_string(), "Odd".to_string(), "ish".to_string());
    assert_eq!(base.fuse_with(&other).name, "Snorish");
}

#[test]
fn fusion_with_empty_fragments() {
    let empty = Pokemon::new(String::new(), String::new(), String::new());
    let fused = empty.fuse_with(&oddish());
    assert_eq!(fused.name, "ish");
    assert_eq!(fused.prefix, "");
    assert_eq!(fused.suffix, "ish");
    let fused = oddish().fuse_with(&empty);
    assert_eq!(fused.name, "Odd");
    assert_eq!(fused.prefix, "Odd");
    assert_eq!(fused.suffix, "");
    let fused = empty.fuse_with(&empty);
    assert_eq!(fused.name, "");
}

#[test]
fn fusion_with_itself() {
    let fused = oddish().fuse_with(&oddish());
    assert_eq!(fused.name, "Oddish");
    assert_eq!(fused.prefix, "Odd");
    assert_eq!(fused.suffix, "ish");
}

#[test]
fn a_fused_pokemon_can_be_fused_again() {
    let snorish = snorlax().fuse_with(&oddish());
    let again = snorish.fuse_with(&snorlax());
    assert_eq!(again.name, "Snorlax");
    assert_eq!(again.prefix, "Snor");
    assert_eq!(again.suffix, "lax");
    let again = oddish().fuse_with(&snorish);
    assert_eq!(again.name, "Oddish");
}

#[test]
fn clone_keeps_the_fields() {
    let copy = oddish().clone();
    assert_eq!(copy.name, "Oddish");
    assert_eq!(copy.prefix, "Odd");
    assert_eq!(copy.suffix, "ish");
}
