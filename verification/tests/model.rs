use epd12in48::command::{Command, Commands};
use epd12in48::driver::Epd12in48;
use epd12in48::half::DisplayHalf;
use epd12in48::panel::{Display, DisplayInternals};

fn lines(busy_pin: u8, chip_select_pin: u8, command_pin: u8, reset_pin: u8) -> DisplayInternals {
    DisplayInternals { busy_pin, chip_select_pin, command_pin, reset_pin }
}

#[test]
fn with_vals_keeps_op_code_and_takes_vals() {
    let template: Command<4> = Commands::tres();
    let cmd: Command<4> = template.with_vals([0x02, 0x88, 0x01, 0xEC]);
    assert_eq!(cmd.op_code(), 0x61);
    assert_eq!(cmd.vals(), [0x02, 0x88, 0x01, 0xEC]);
}

#[test]
fn with_vals_leaves_the_template_as_it_was() {
    let template: Command<2> = Commands::cdi();
    let first: Command<2> = template.with_vals([0x21, 0x07]);
    let second: Command<2> = template.with_vals([0xAA, 0x55]);
    assert_eq!(template.op_code(), 0x50);
    assert_eq!(template.vals(), [0x00, 0x00]);
    assert_eq!(first.vals(), [0x21, 0x07]);
    assert_eq!(second.vals(), [0xAA, 0x55]);
    assert_eq!(Commands::cdi().vals(), [0x00, 0x00]);
}

#[test]
fn with_vals_twice_keeps_only_the_last_vals() {
    let cmd: Command<1> = Commands::psr().with_vals([0x1F]).with_vals([0x0F]);
    assert_eq!(cmd.op_code(), 0x00);
    assert_eq!(cmd.vals(), [0x0F]);
}

#[test]
fn templates_have_the_documented_op_codes() {
    assert_eq!(Commands::psr().op_code(), 0x00);
    assert_eq!(Commands::pwr().op_code(), 0x01);
    assert_eq!(Commands::btst().op_code(), 0x06);
    assert_eq!(Commands::tres().op_code(), 0x61);
    assert_eq!(Commands::duspi().op_code(), 0x15);
    assert_eq!(Commands::cdi().op_code(), 0x50);
    assert_eq!(Commands::tcon().op_code(), 0x60);
    assert_eq!(Commands::pws().op_code(), 0xE3);
    assert_eq!(Commands::ccset().op_code(), 0xE0);
    assert_eq!(Commands::tsset().op_code(), 0xE5);
}

#[test]
fn templates_have_zeroed_vals_of_the_documented_length() {
    assert_eq!(Commands::psr().vals(), [0u8; 1]);
    assert_eq!(Commands::pwr().vals(), [0u8; 5]);
    assert_eq!(Commands::btst().vals(), [0u8; 4]);
    assert_eq!(Commands::tres().vals(), [0u8; 4]);
    assert_eq!(Commands::duspi().vals(), [0u8; 1]);
    assert_eq!(Commands::cdi().vals(), [0u8; 2]);
    assert_eq!(Commands::tcon().vals(), [0u8; 1]);
    assert_eq!(Commands::pws().vals(), [0u8; 1]);
    assert_eq!(Commands::ccset().vals(), [0u8; 1]);
    assert_eq!(Commands::tsset().vals(), [0u8; 1]);
}

#[test]
fn wide_panel_is_656_wide() {
    assert_eq!(Display::WIDE(lines(1, 2, 3, 4)).width(), 656);
}

#[test]
fn slim_panel_is_648_wide() {
    assert_eq!(Display::SLIM(lines(1, 2, 3, 4)).width(), 648);
}

#[test]
fn every_panel_is_492_high() {
    assert_eq!(Display::height(), 492);
}

#[test]
fn panel_gives_its_lines() {
    let panel: Display = Display::SLIM(lines(9, 8, 7, 6));
    assert_eq!(panel.lines(), lines(9, 8, 7, 6));
    assert_eq!(panel.lines().chip_select_pin, 8);
}

#[test]
fn half_puts_the_wide_panel_left_and_the_slim_panel_right() {
    let half: DisplayHalf = DisplayHalf::new(10, 11, 12, 13, 14, 15);
    assert_eq!(half.reset_pin(), 10);
    assert_eq!(half.command_pin(), 11);
    assert_eq!(half.left_display(), Display::WIDE(lines(12, 13, 11, 10)));
    assert_eq!(half.right_display(), Display::SLIM(lines(14, 15, 11, 10)));
    assert_eq!(half.left_display().width(), 656);
    assert_eq!(half.right_display().width(), 648);
}

#[test]
fn panels_of_a_half_share_reset_and_command_line() {
    let half: DisplayHalf = DisplayHalf::new(20, 21, 22, 23, 24, 25);
    assert_eq!(half.left_display().lines().reset_pin, half.reset_pin());
    assert_eq!(half.right_display().lines().reset_pin, half.reset_pin());
    assert_eq!(half.left_display().lines().command_pin, half.command_pin());
    assert_eq!(half.right_display().lines().command_pin, half.command_pin());
}

#[test]
fn display_of_twelve_different_lines_is_made() {
    let top: DisplayHalf = DisplayHalf::new(1, 2, 3, 4, 5, 6);
    let bottom: DisplayHalf = DisplayHalf::new(7, 8, 9, 10, 11, 12);
    let epd: Epd12in48 = Epd12in48::new(top, bottom).unwrap();
    assert_eq!(epd.top_half(), top);
    assert_eq!(epd.bottom_half(), bottom);
}

#[test]
fn display_with_a_line_shared_between_the_halves_is_refused() {
    let top: DisplayHalf = DisplayHalf::new(1, 2, 3, 4, 5, 6);
    let bottom: DisplayHalf = DisplayHalf::new(7, 8, 9, 4, 11, 12);
    assert_eq!(Epd12in48::new(top, bottom), None);
}

#[test]
fn display_with_a_line_shared_within_a_half_is_refused() {
    let top: DisplayHalf = DisplayHalf::new(1, 2, 3, 4, 5, 4);
    let bottom: DisplayHalf = DisplayHalf::new(7, 8, 9, 10, 11, 12);
    assert_eq!(Epd12in48::new(top, bottom), None);
    let top: DisplayHalf = DisplayHalf::new(1, 2, 3, 4, 5, 6);
    let bottom: DisplayHalf = DisplayHalf::new(7, 8, 9, 10, 11, 7);
    assert_eq!(Epd12in48::new(top, bottom), None);
}

#[test]
fn display_with_the_same_half_twice_is_refused() {
    let half: DisplayHalf = DisplayHalf::new(1, 2, 3, 4, 5, 6);
    assert_eq!(Epd12in48::new(half, half), None);
}

#[test]
fn display_with_first_and_last_line_shared_is_refused() {
    let top: DisplayHalf = DisplayHalf::new(1, 2, 3, 4, 5, 6);
    let bottom: DisplayHalf = DisplayHalf::new(7, 8, 9, 10, 11, 1);
    assert_eq!(Epd12in48::new(top, bottom), None);
}

#[test]
fn with_vals_works_on_every_template() {
    assert_eq!(Commands::psr().with_vals([1]).vals(), [1]);
    assert_eq!(Commands::psr().with_vals([1]).op_code(), 0x00);
    assert_eq!(Commands::pwr().with_vals([1, 2, 3, 4, 5]).vals(), [1, 2, 3, 4, 5]);
    assert_eq!(Commands::pwr().with_vals([1, 2, 3, 4, 5]).op_code(), 0x01);
    assert_eq!(Commands::btst().with_vals([1, 2, 3, 4]).vals(), [1, 2, 3, 4]);
    assert_eq!(Commands::btst().with_vals([1, 2, 3, 4]).op_code(), 0x06);
    assert_eq!(Commands::tres().with_vals([4, 3, 2, 1]).vals(), [4, 3, 2, 1]);
    assert_eq!(Commands::tres().with_vals([4, 3, 2, 1]).op_code(), 0x61);
    assert_eq!(Commands::duspi().with_vals([0x20]).vals(), [0x20]);
    assert_eq!(Commands::duspi().with_vals([0x20]).op_code(), 0x15);
    assert_eq!(Commands::cdi().with_vals([7, 8]).vals(), [7, 8]);
    assert_eq!(Commands::cdi().with_vals([7, 8]).op_code(), 0x50);
    assert_eq!(Commands::tcon().with_vals([0x22]).vals(), [0x22]);
    assert_eq!(Commands::tcon().with_vals([0x22]).op_code(), 0x60);
    assert_eq!(Commands::pws().with_vals([0xFF]).vals(), [0xFF]);
    assert_eq!(Commands::pws().with_vals([0xFF]).op_code(), 0xE3);
    assert_eq!(Commands::ccset().with_vals([3]).vals(), [3]);
    assert_eq!(Commands::ccset().with_vals([3]).op_code(), 0xE0);
    assert_eq!(Commands::tsset().with_vals([0xE5]).vals(), [0xE5]);
    assert_eq!(Commands::tsset().with_vals([0xE5]).op_code(), 0xE5);
}
