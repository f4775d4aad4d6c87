use custom_types::categories::{Color, Number, Status, Work};

#[test]
fn numbers_count_from_zero() {
    assert_eq!(Number::Zero.as_i32(), 0);
    assert_eq!(Number::One.as_i32(), 1);
    assert_eq!(Number::Two.as_i32(), 2);
}

#[test]
fn colors_have_their_rgb_codes() {
    assert_eq!(Color::Red.as_i32(), 16711680);
    assert_eq!(Color::Green.as_i32(), 0x00ff00);
    assert_eq!(Color::Blue.as_i32(), 255);
}

#[test]
fn color_codes_print_as_six_hex_digits() {
    assert_eq!(format!("#{:06x}", Color::Red.as_i32()), "#ff0000");
    assert_eq!(format!("#{:06x}", Color::Blue.as_i32()), "#0000ff");
}

#[test]
fn status_mottos() {
    assert_eq!(Status::Rich.motto(), "The rich have lots of money!");
    assert_eq!(Status::Poor.motto(), "The poor have no money...");
}

#[test]
fn work_mottos() {
    assert_eq!(Work::Civilian.motto(), "Civilians work!");
    assert_eq!(Work::Soldier.motto(), "Soldiers fight!");
}
