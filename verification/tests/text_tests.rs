use bdo_market_cache::text::{format_number, get_enhancement_prefix, GearType};

#[test]
fn small_numbers_have_no_separator() {
    assert_eq!(format_number(0), "0");
    assert_eq!(format_number(7), "7");
    assert_eq!(format_number(42), "42");
    assert_eq!(format_number(999), "999");
}

#[test]
fn thousands_are_comma_separated() {
    assert_eq!(format_number(1000), "1,000");
    assert_eq!(format_number(1234), "1,234");
    assert_eq!(format_number(100000), "100,000");
    assert_eq!(format_number(1234567), "1,234,567");
    assert_eq!(format_number(3_000_000), "3,000,000");
}

#[test]
fn zero_digits_inside_groups_are_kept() {
    assert_eq!(format_number(1_000_006), "1,000,006");
    assert_eq!(format_number(2_185_033), "2,185,033");
    assert_eq!(format_number(10_007), "10,007");
}

#[test]
fn largest_value_formats_fully() {
    assert_eq!(format_number(u64::MAX), "18,446,744,073,709,551,615");
}

#[test]
fn accessory_prefixes() {
    assert_eq!(get_enhancement_prefix(0, GearType::Accessory), "");
    assert_eq!(get_enhancement_prefix(1, GearType::Accessory), "PRI (I): ");
    assert_eq!(get_enhancement_prefix(2, GearType::Accessory), "DUO (II): ");
    assert_eq!(get_enhancement_prefix(3, GearType::Accessory), "TRI (III): ");
    assert_eq!(get_enhancement_prefix(4, GearType::Accessory), "TET (IV): ");
    assert_eq!(get_enhancement_prefix(5, GearType::Accessory), "PEN (V): ");
}

#[test]
fn gear_prefixes() {
    assert_eq!(get_enhancement_prefix(0, GearType::Gear), "");
    assert_eq!(get_enhancement_prefix(1, GearType::Gear), "+1: ");
    assert_eq!(get_enhancement_prefix(9, GearType::Gear), "+9: ");
    assert_eq!(get_enhancement_prefix(10, GearType::Gear), "+10: ");
    assert_eq!(get_enhancement_prefix(15, GearType::Gear), "+15: ");
    assert_eq!(get_enhancement_prefix(16, GearType::Gear), "PRI (I): ");
    assert_eq!(get_enhancement_prefix(20, GearType::Gear), "PEN (V): ");
}
