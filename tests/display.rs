use solar_inventory::inventory_types::{
    ArrayComponent, ArrayConnection, ArrayConnectionType, BatteryBank, Display, Milli,
    PanelInventory, SolarPanel, Specification, Unit, ValueType,
};

#[test]
fn inventory_total_of_quantities() {
    let mut inventory = PanelInventory::new();
    inventory
        .items
        .push((ArrayComponent::new_solar_panel(290, Milli(32_100), Milli(9_050)), 2));
    inventory
        .items
        .push((ArrayComponent::new_solar_panel(445, Milli(44_460), Milli(10_480)), 3));
    let text = inventory.display();
    assert!(text.ends_with("Total panels: 5\n"));
    assert_eq!(
        text,
        "\nPanel Inventory\n\
         290 Watts - Nominal Max Power (Pmax) - 2\n\
         445 Watts - Nominal Max Power (Pmax) - 3\n\
         _______________\n\
         Total panels: 5\n"
    );
}

#[test]
fn empty_inventory_display() {
    let inventory = PanelInventory::new();
    assert_eq!(
        inventory.display(),
        "\nPanel Inventory\n_______________\nTotal panels: 0\n"
    );
}

#[test]
fn specification_display() {
    let panel = ArrayComponent::new_solar_panel(290, Milli(32_100), Milli(9_050));
    assert_eq!(panel.specs[0].display(), "290 Watts - Nominal Max Power (Pmax)");
    assert_eq!(panel.specs[1].display(), "32.1 Volts - Opt Operating Voltage (Vmp)");
    assert_eq!(panel.specs[2].display(), "9.05 Amps - Opt Operating Current (Imp)");
}

#[test]
fn decimal_rendering() {
    let show = |v: ValueType| Specification::new(String::from("x"), v, Unit::Volts).display();
    assert_eq!(show(ValueType::Decimal(Milli(12_000))), "12 Volts - x");
    assert_eq!(show(ValueType::Decimal(Milli(0))), "0 Volts - x");
    assert_eq!(show(ValueType::Decimal(Milli(44_460))), "44.46 Volts - x");
    assert_eq!(show(ValueType::Decimal(Milli(1_005))), "1.005 Volts - x");
    assert_eq!(show(ValueType::Decimal(Milli(-1_500))), "-1.5 Volts - x");
    assert_eq!(show(ValueType::Decimal(Milli(-50))), "-0.05 Volts - x");
    assert_eq!(show(ValueType::Int(-42)), "-42 Volts - x");
    assert_eq!(show(ValueType::Int(i32::MIN)), "-2147483648 Volts - x");
    assert_eq!(
        show(ValueType::Decimal(Milli(i64::MIN))),
        "-9223372036854775.808 Volts - x"
    );
}

#[test]
fn component_display() {
    let panel = ArrayComponent::new_solar_panel(290, Milli(32_100), Milli(9_050));
    assert_eq!(Display::display(&panel), "Solar Panel - 290 Watts\n");
    let bank = ArrayComponent::new_battery_bank(String::from("Lifeline AGM"), Milli(12_000), 350);
    assert_eq!(Display::display(&bank), "Lifeline AGM - 0 Volts\n");
}

#[test]
fn battery_bank_listing() {
    let bank = ArrayComponent::new_battery_bank(String::from("Lifeline AGM"), Milli(12_000), 350);
    assert_eq!(
        BatteryBank::display(&bank),
        "Lifeline AGM - 0 Volts\n\n_______________\n\
         12 Volts - Voltage\n\
         350 Volts - Amp Hours\n"
    );
}

#[test]
fn connection_display() {
    let a = ArrayComponent::new_solar_panel(290, Milli(32_100), Milli(9_050));
    let b = ArrayComponent::new_solar_panel(290, Milli(32_100), Milli(9_050));
    let c = ArrayConnection::connect(a, b, ArrayConnectionType::Series);
    assert_eq!(
        c.display(),
        "Connecting the following items in Series:\n\
         Solar Panel - 290 Watts\n\
         Solar Panel - 290 Watts\n\
         Total Voltage: 64.2\n\
         Total Amperage: 9.05\n\
         Total Wattage: 580\n"
    );
}

#[test]
fn default_display_specs_is_empty() {
    let panel = ArrayComponent::new_solar_panel(290, Milli(32_100), Milli(9_050));
    assert_eq!(Display::display_specs(&panel), "");
}
