use solar_inventory::inventory_types::{
    ArrayComponent, ArrayComponentType, ArrayConnection, ArrayConnectionType, BatteryBank,
    Display, Milli, PanelInventory, SolarPanel, Specification, Unit, ValueType,
};

#[test]
fn spec_factory_test() {
    let mut spec = Specification::new(
        String::from("volts"),
        ValueType::Decimal(Milli(14_400)),
        Unit::Volts,
    );
    assert_eq!(spec.name, "volts");
    assert_eq!(spec.unit, Unit::Volts);
    spec.unit = Unit::Amps;
    assert_eq!(spec.unit, Unit::Amps);
    spec.unit = Unit::Watts;
    assert_eq!(spec.unit, Unit::Watts);
}

#[test]
fn array_connection_test() {
    let panel = ArrayComponent::new_solar_panel(290, Milli(32_100), Milli(9_050));
    let panel2 = ArrayComponent::new_solar_panel(290, Milli(32_100), Milli(9_050));
    let connection = ArrayConnection::connect(panel, panel2, ArrayConnectionType::Series);
    assert_eq!(connection.total_voltage, Milli(64_200));

    println!("{}", connection.display());
}

#[test]
fn spec_trait_test() {
    let panel = ArrayComponent::new_solar_panel(290, Milli(32_100), Milli(9_050));
    assert_eq!(panel.specs.len(), 3);

    println!("\n");
    for spec in panel.specs.iter() {
        println!("{}", spec.display());
    }
    println!("\n");
}

#[test]
fn battery_bank_test() {
    let bat_bank =
        ArrayComponent::new_battery_bank(String::from("Lifeline AGM"), Milli(12_000), 350);
    assert_eq!(bat_bank.specs.len(), 2);

    println!("\n{}\n", BatteryBank::display(&bat_bank));
}

#[test]
fn item_array_test() {
    let mut solar_array = PanelInventory::new();

    solar_array
        .items
        .push((ArrayComponent::new_solar_panel(290, Milli(32_100), Milli(9_050)), 2));
    solar_array
        .items
        .push((ArrayComponent::new_solar_panel(445, Milli(44_460), Milli(10_480)), 3));

    assert_eq!(solar_array.items.len(), 2);

    let (panel, _quantity) = &solar_array.items[0];
    assert_eq!(panel.specs.len(), 3);
    println!("{}", solar_array.display());
}

#[test]
fn series_pair_totals() {
    let a = ArrayComponent::new_solar_panel(290, Milli(32_100), Milli(9_050));
    let b = ArrayComponent::new_solar_panel(445, Milli(44_460), Milli(10_480));
    let c = ArrayConnection::connect(a, b, ArrayConnectionType::Series);
    assert_eq!(c.total_voltage, Milli(76_560));
    assert_eq!(c.max_amperage, Milli(10_480));
    assert_eq!(c.total_wattage, 735);
    assert_eq!(c.items.len(), 2);
}

#[test]
fn parallel_pair_totals() {
    let a = ArrayComponent::new_solar_panel(290, Milli(32_100), Milli(9_050));
    let b = ArrayComponent::new_solar_panel(290, Milli(32_100), Milli(9_050));
    let c = ArrayConnection::connect(a, b, ArrayConnectionType::Parallel);
    assert_eq!(c.total_voltage, Milli(32_100));
    assert_eq!(c.max_amperage, Milli(18_100));
    assert_eq!(c.total_wattage, 580);
}

#[test]
fn parallel_voltage_is_last_item() {
    let a = ArrayComponent::new_solar_panel(290, Milli(32_100), Milli(9_050));
    let b = ArrayComponent::new_solar_panel(445, Milli(44_460), Milli(10_480));
    let c = ArrayConnection::connect(a, b, ArrayConnectionType::Parallel);
    assert_eq!(c.total_voltage, Milli(44_460));
    assert_eq!(c.max_amperage, Milli(19_530));
}

#[test]
fn direct_totals_only_wattage() {
    let a = ArrayComponent::new_solar_panel(290, Milli(32_100), Milli(9_050));
    let b = ArrayComponent::new_solar_panel(445, Milli(44_460), Milli(10_480));
    let mut c = ArrayConnection::connect(a, b, ArrayConnectionType::Direct);
    assert_eq!(c.total_voltage, Milli(0));
    assert_eq!(c.max_amperage, Milli(0));
    assert_eq!(c.total_wattage, 735);
    c.add_component(ArrayComponent::new_solar_panel(100, Milli(18_000), Milli(5_500)));
    assert_eq!(c.total_voltage, Milli(0));
    assert_eq!(c.max_amperage, Milli(0));
    assert_eq!(c.total_wattage, 835);
}

#[test]
fn add_component_recomputes_totals() {
    let a = ArrayComponent::new_solar_panel(290, Milli(32_100), Milli(9_050));
    let b = ArrayComponent::new_solar_panel(290, Milli(32_100), Milli(9_050));
    let mut c = ArrayConnection::connect(a, b, ArrayConnectionType::Series);
    c.add_component(ArrayComponent::new_solar_panel(445, Milli(44_460), Milli(10_480)));
    assert_eq!(c.items.len(), 3);
    assert_eq!(c.total_voltage, Milli(108_660));
    assert_eq!(c.max_amperage, Milli(10_480));
    assert_eq!(c.total_wattage, 1025);
}

#[test]
fn battery_bank_contributes_nothing() {
    let a = ArrayComponent::new_solar_panel(290, Milli(32_100), Milli(9_050));
    let bank = ArrayComponent::new_battery_bank(String::from("Lifeline AGM"), Milli(12_000), 350);
    let c = ArrayConnection::connect(a, bank, ArrayConnectionType::Series);
    assert_eq!(c.total_voltage, Milli(32_100));
    assert_eq!(c.max_amperage, Milli(0));
    assert_eq!(c.total_wattage, 290);
}

#[test]
fn missing_spec_gives_zero() {
    let panel = ArrayComponent::new_solar_panel(290, Milli(32_100), Milli(9_050));
    assert_eq!(panel.get_spec_value(String::from("Voltage")), ValueType::Int(0));
    let bank = ArrayComponent::new_battery_bank(String::from("Lifeline AGM"), Milli(12_000), 350);
    assert_eq!(
        bank.get_spec_value(String::from("Opt Operating Voltage (Vmp)")),
        ValueType::Int(0)
    );
}

#[test]
fn spec_lookup_finds_values() {
    let panel = ArrayComponent::new_solar_panel(290, Milli(32_100), Milli(9_050));
    assert_eq!(
        panel.get_spec_value(String::from("Nominal Max Power (Pmax)")),
        ValueType::Int(290)
    );
    assert_eq!(
        panel.get_spec_value(String::from("Opt Operating Voltage (Vmp)")),
        ValueType::Decimal(Milli(32_100))
    );
    assert_eq!(
        panel.get_spec_value(String::from("Opt Operating Current (Imp)")),
        ValueType::Decimal(Milli(9_050))
    );
}

#[test]
fn lookup_takes_first_match() {
    let component = ArrayComponent {
        name: String::from("Custom"),
        specs: vec![
            Specification::new(String::from("Voltage"), ValueType::Int(1), Unit::Volts),
            Specification::new(String::from("Voltage"), ValueType::Int(2), Unit::Volts),
        ],
        component_type: ArrayComponentType::BatteryBank,
    };
    assert_eq!(component.get_spec_value(String::from("Voltage")), ValueType::Int(1));
}

#[test]
fn battery_bank_specs() {
    let bank = ArrayComponent::new_battery_bank(String::from("Lifeline AGM"), Milli(12_000), 350);
    assert_eq!(bank.name, "Lifeline AGM");
    assert!(matches!(bank.component_type, ArrayComponentType::BatteryBank));
    assert_eq!(bank.specs.len(), 2);
    assert_eq!(bank.specs[0].name, "Voltage");
    assert_eq!(bank.specs[0].value, ValueType::Decimal(Milli(12_000)));
    assert_eq!(bank.specs[1].name, "Amp Hours");
    assert_eq!(bank.specs[1].value, ValueType::Int(350));
}

#[test]
fn solar_panel_specs() {
    let panel = ArrayComponent::new_solar_panel(290, Milli(32_100), Milli(9_050));
    assert_eq!(panel.name, "Solar Panel");
    assert!(matches!(panel.component_type, ArrayComponentType::SolarPanel));
    assert_eq!(panel.specs[0].unit, Unit::Watts);
    assert_eq!(panel.specs[1].unit, Unit::Volts);
    assert_eq!(panel.specs[2].unit, Unit::Amps);
}
