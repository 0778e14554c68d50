use phoenix::classes::get_class_by_name;
use phoenix::classes::get_class_by_type;
use phoenix::classes::ClassType;
use phoenix::color::Color;
use phoenix::emoji::Emoji;
use phoenix::regions::RegionType;

#[test]
fn classes_by_type() {
    let knight = get_class_by_type(ClassType::Knight).unwrap();
    assert_eq!(knight.name, "Cavaleiro");
    assert_eq!(knight.health, 100);
    assert_eq!(knight.strength, 20);
    let mage = get_class_by_type(ClassType::Mage).unwrap();
    assert_eq!(mage.mana, 50);
    assert_eq!(mage.intelligence, 15);
    let assassin = get_class_by_type(ClassType::Assassin).unwrap();
    assert_eq!(assassin.agility, 15);
}

#[test]
fn classes_by_name() {
    assert_eq!(
        get_class_by_name("Cavaleiro".to_string()).unwrap().class_type,
        ClassType::Knight
    );
    assert_eq!(
        get_class_by_name("Mago".to_string()).unwrap().class_type,
        ClassType::Mage
    );
    assert_eq!(
        get_class_by_name("Assassino".to_string()).unwrap().class_type,
        ClassType::Assassin
    );
    assert!(get_class_by_name("Bardo".to_string()).is_none());
}

#[test]
fn region_labels() {
    assert_eq!(RegionType::City.name(), "Cidade");
    assert_eq!(RegionType::Forest.name(), "Floresta");
    assert_eq!(RegionType::Swamp.name(), "Pântano");
    assert_eq!(RegionType::Grassland.name(), "Planície");
    assert_eq!(RegionType::Forest.emoji(), "🌲");
    assert_eq!(RegionType::default(), RegionType::Forest);
}

#[test]
fn region_encounter_rarity() {
    assert_eq!(RegionType::City.rarity().value(), 0);
    assert_eq!(RegionType::Swamp.rarity().value(), 30);
    assert_eq!(RegionType::Forest.rarity().value(), 50);
    assert_eq!(RegionType::Grassland.rarity().value(), 50);
}

#[test]
fn emoji_symbols() {
    assert_eq!(Emoji::Gold.to_str(), "🪙");
    assert_eq!(Emoji::Health.to_str(), "❤️");
    assert_eq!(Emoji::Experience.to_string(), "🔹".to_string());
}

#[test]
fn rgb_color_packs_channels() {
    assert_eq!(Color::Rgb(131, 118, 204).to_u32(), (131 << 16) + (118 << 8) + 204);
    assert_eq!(Color::Rgb(255, 255, 255).to_u32(), 0xFFFFFF);
    assert_eq!(Color::Rgb(0, 0, 0).to_u32(), 0);
}

#[test]
fn integer_color_is_itself() {
    assert_eq!(Color::Integer(123456).to_u32(), 123456);
}

#[test]
fn hex_color_parses_with_or_without_hash() {
    assert_eq!(Color::Hex("#F2A2AA".to_string()).to_u32(), 0xF2A2AA);
    assert_eq!(Color::Hex("f2a2aa".to_string()).to_u32(), 0xF2A2AA);
    assert_eq!(Color::Hex("10".to_string()).to_u32(), 16);
}

#[test]
fn bad_hex_color_is_zero() {
    assert_eq!(Color::Hex("".to_string()).to_u32(), 0);
    assert_eq!(Color::Hex("#".to_string()).to_u32(), 0);
    assert_eq!(Color::Hex("zz".to_string()).to_u32(), 0);
    assert_eq!(Color::Hex("café".to_string()).to_u32(), 0);
    // Nine hex digits overflow 32 bits.
    assert_eq!(Color::Hex("1FFFFFFFF".to_string()).to_u32(), 0);
    assert_eq!(Color::Hex("FFFFFFFF".to_string()).to_u32(), u32::MAX);
}
