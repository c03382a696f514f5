//! Components, their specifications, and the connections and inventories
//! built from them.
use vstd::prelude::*;

use crate::text::{int_text, milli_text, push_int, push_milli};

verus! {

/// Name of the specification that holds a panel's nominal maximum power.
pub const PMAX_LABEL: &'static str = "Nominal Max Power (Pmax)";

/// Name of the specification that holds a panel's optimum operating voltage.
pub const VMP_LABEL: &'static str = "Opt Operating Voltage (Vmp)";

/// Name of the specification that holds a panel's optimum operating current.
pub const IMP_LABEL: &'static str = "Opt Operating Current (Imp)";

/// A decimal quantity held exactly, as a whole number of thousandths
/// (`Milli(32_100)` is 32.1).
#[derive(Debug, Clone, Copy, PartialEq, Eq, Structural)]
pub struct Milli(pub i64);

/// The unit a specification is measured in.
#[derive(Debug, Clone, Copy, PartialEq, Eq, Structural)]
pub enum Unit {
    Amps,
    Volts,
    Watts,
}

/// The value of a specification: a whole number or a decimal quantity.
#[derive(Debug, Clone, Copy, PartialEq, Eq, Structural)]
pub enum ValueType {
    Int(i32),
    Decimal(Milli),
}

/// One named, measured attribute of a component.
#[derive(Debug)]
pub struct Specification {
    pub name: String,
    pub value: ValueType,
    pub unit: Unit,
}

impl Specification {
    pub fn new(name: String, value: ValueType, unit: Unit) -> (r: Specification)
        ensures
            r.name@ == name@,
            r.value == value,
            r.unit == unit,
    {
        Specification { name: name, value: value, unit: unit }
    }
}

/// The name of a unit.
pub open spec fn unit_text(u: Unit) -> Seq<char> {
    match u {
        Unit::Amps => "Amps"@,
        Unit::Volts => "Volts"@,
        Unit::Watts => "Watts"@,
    }
}

fn unit_str(u: Unit) -> (r: &'static str)
    ensures
        r@ == unit_text(u),
{
    match u {
        Unit::Amps => "Amps",
        Unit::Volts => "Volts",
        Unit::Watts => "Watts",
    }
}

/// The decimal text of a value.
pub open spec fn value_text(v: ValueType) -> Seq<char> {
    match v {
        ValueType::Int(i) => int_text(i as int),
        ValueType::Decimal(m) => milli_text(m.0 as int),
    }
}

/// A human-readable rendering.
pub trait Display {
    /// `display` is defined on this value.
    spec fn displayable(&self) -> bool;

    /// The text that `display` produces.
    spec fn text(&self) -> Seq<char>;

    fn display(&self) -> (r: String)
        requires
            self.displayable(),
        ensures
            r@ == self.text(),
    ;

    /// A rendering of the specifications, empty unless a type says otherwise.
    fn display_specs(&self) -> (r: String)
        ensures
            r@ == Seq::<char>::empty(),
    {
        String::new()
    }
}

impl Display for Specification {
    open spec fn displayable(&self) -> bool {
        true
    }

    /// The value, the unit and the name: `32.1 Volts - Opt Operating Voltage (Vmp)`.
    open spec fn text(&self) -> Seq<char> {
        value_text(self.value) + " "@ + unit_text(self.unit) + " - "@ + self.name@
    }

    fn display(&self) -> (r: String) {
        let mut s = String::new();
        match self.value {
            ValueType::Int(v) => push_int(&mut s, v as i64),
            ValueType::Decimal(m) => push_milli(&mut s, m.0),
        }
        s.append(" ");
        s.append(unit_str(self.unit));
        s.append(" - ");
        s.append(self.name.as_str());
        assert(s@ =~= self.text());
        s
    }
}

/// The kind of physical unit a component is.
#[derive(Debug, Clone, Copy, PartialEq, Eq, Structural)]
pub enum ArrayComponentType {
    SolarPanel,
    BatteryBank,
}

/// How the components of a connection are wired together.
#[derive(Debug, Clone, Copy, PartialEq, Eq, Structural)]
pub enum ArrayConnectionType {
    Series,
    Parallel,
    Direct,
}

/// A solar panel or battery bank, described by its ordered specifications.
pub struct ArrayComponent {
    pub name: String,
    pub specs: Vec<Specification>,
    pub component_type: ArrayComponentType,
}

/// The value of the first specification named `name`, or `Int(0)` where no
/// specification has that name.
pub open spec fn value_named(specs: Seq<Specification>, name: Seq<char>) -> ValueType
    decreases specs.len(),
{
    if specs.len() == 0 {
        ValueType::Int(0)
    } else if specs[0].name@ == name {
        specs[0].value
    } else {
        value_named(specs.drop_first(), name)
    }
}

impl ArrayComponent {
    /// The value of the first specification with the given name; `Int(0)`
    /// where there is none.
    pub fn get_spec_value(&self, name: String) -> (r: ValueType)
        ensures
            r == value_named(self.specs@, name@),
            (forall|i: int| 0 <= i < self.specs@.len() ==> self.specs@[i].name@ != name@) ==> r
                == ValueType::Int(0),
    {
        let mut i: usize = 0;
        assert(self.specs@.skip(0) =~= self.specs@);
        while i < self.specs.len()
            invariant
                0 <= i <= self.specs@.len(),
                value_named(self.specs@, name@) == value_named(self.specs@.skip(i as int), name@),
                forall|j: int| 0 <= j < i ==> self.specs@[j].name@ != name@,
            decreases self.specs@.len() - i,
        {
            if self.specs[i].name == name {
                return self.specs[i].value;
            }
            assert(self.specs@.skip(i as int).drop_first() =~= self.specs@.skip(i + 1));
            i = i + 1;
        }
        ValueType::Int(0)
    }
}

/// `s` has the given name, value and unit.
pub open spec fn has_spec(s: Specification, name: Seq<char>, value: ValueType, unit: Unit) -> bool {
    &&& s.name@ == name
    &&& s.value == value
    &&& s.unit == unit
}

/// `c` is the solar panel with the given power, voltage and current: its
/// specifications are, in this order, Pmax in watts, Vmp in volts and Imp in
/// amps.
pub open spec fn is_solar_panel(c: ArrayComponent, pmax: i32, vmp: Milli, imp: Milli) -> bool {
    &&& c.name@ == "Solar Panel"@
    &&& c.component_type == ArrayComponentType::SolarPanel
    &&& c.specs@.len() == 3
    &&& has_spec(c.specs@[0], PMAX_LABEL@, ValueType::Int(pmax), Unit::Watts)
    &&& has_spec(c.specs@[1], VMP_LABEL@, ValueType::Decimal(vmp), Unit::Volts)
    &&& has_spec(c.specs@[2], IMP_LABEL@, ValueType::Decimal(imp), Unit::Amps)
}

/// `c` is the battery bank with the given name, voltage and capacity: its
/// specifications are, in this order, its voltage and its amp hours, both
/// recorded with the unit volts.
pub open spec fn is_battery_bank(
    c: ArrayComponent,
    name: Seq<char>,
    voltage: Milli,
    total_amp_hours: i32,
) -> bool {
    &&& c.name@ == name
    &&& c.component_type == ArrayComponentType::BatteryBank
    &&& c.specs@.len() == 2
    &&& has_spec(c.specs@[0], "Voltage"@, ValueType::Decimal(voltage), Unit::Volts)
    &&& has_spec(c.specs@[1], "Amp Hours"@, ValueType::Int(total_amp_hours), Unit::Volts)
}

/// Builds solar panels.
pub trait SolarPanel {
    fn new_solar_panel(pmax: i32, vmp: Milli, imp: Milli) -> (r: ArrayComponent)
        ensures
            is_solar_panel(r, pmax, vmp, imp),
    ;
}

impl SolarPanel for ArrayComponent {
    fn new_solar_panel(pmax: i32, vmp: Milli, imp: Milli) -> (r: ArrayComponent) {
        let specs = vec![
            Specification::new(String::from_str(PMAX_LABEL), ValueType::Int(pmax), Unit::Watts),
            Specification::new(String::from_str(VMP_LABEL), ValueType::Decimal(vmp), Unit::Volts),
            Specification::new(String::from_str(IMP_LABEL), ValueType::Decimal(imp), Unit::Amps),
        ];
        ArrayComponent {
            name: String::from_str("Solar Panel"),
            component_type: ArrayComponentType::SolarPanel,
            specs: specs,
        }
    }
}

/// Builds battery banks, and lists a component with its specifications.
pub trait BatteryBank {
    fn new_battery_bank(name: String, voltage: Milli, total_amp_hours: i32) -> (r: ArrayComponent)
        ensures
            is_battery_bank(r, name@, voltage, total_amp_hours),
    ;

    /// `display` is defined on this value.
    spec fn listable(&self) -> bool;

    /// The text that `display` produces.
    spec fn listing(&self) -> Seq<char>;

    fn display(&self) -> (r: String)
        requires
            self.listable(),
        ensures
            r@ == self.listing(),
    ;
}

/// The texts of the specifications, each followed by a line break.
pub open spec fn spec_lines(specs: Seq<Specification>) -> Seq<char>
    decreases specs.len(),
{
    if specs.len() == 0 {
        Seq::empty()
    } else {
        spec_lines(specs.drop_last()) + specs.last().text() + "\n"@
    }
}

impl BatteryBank for ArrayComponent {
    fn new_battery_bank(name: String, voltage: Milli, total_amp_hours: i32) -> (r:
        ArrayComponent) {
        let specs = vec![
            Specification::new(String::from_str("Voltage"), ValueType::Decimal(voltage), Unit::Volts),
            Specification::new(
                String::from_str("Amp Hours"),
                ValueType::Int(total_amp_hours),
                Unit::Volts,
            ),
        ];
        ArrayComponent {
            name: name,
            component_type: ArrayComponentType::BatteryBank,
            specs: specs,
        }
    }

    open spec fn listable(&self) -> bool {
        self.specs@.len() > 0
    }

    /// The summary line, a rule, then one line per specification.
    open spec fn listing(&self) -> Seq<char> {
        self.text() + "\n_______________\n"@ + spec_lines(self.specs@)
    }

    fn display(&self) -> (r: String) {
        let mut s = <ArrayComponent as Display>::display(self);
        s.append("\n_______________\n");
        let ghost head = s@;
        let mut i: usize = 0;
        while i < self.specs.len()
            invariant
                0 <= i <= self.specs@.len(),
                s@ == head + spec_lines(self.specs@.take(i as int)),
            decreases self.specs@.len() - i,
        {
            let line = self.specs[i].display();
            proof {
                let next = self.specs@.take(i + 1);
                assert(next.drop_last() =~= self.specs@.take(i as int));
                assert(next.last() == self.specs@[i as int]);
            }
            s.append(line.as_str());
            s.append("\n");
            assert(s@ =~= head + spec_lines(self.specs@.take(i + 1)));
            i = i + 1;
        }
        assert(self.specs@.take(self.specs@.len() as int) =~= self.specs@);
        s
    }
}

/// The voltage a component contributes to a connection, in thousandths: its
/// Vmp where that is a decimal, else zero.
pub open spec fn voltage_of(c: ArrayComponent) -> int {
    match value_named(c.specs@, VMP_LABEL@) {
        ValueType::Decimal(v) => v.0 as int,
        ValueType::Int(_) => 0,
    }
}

/// The current a component contributes to a connection, in thousandths: its
/// Imp where that is a decimal, else zero.
pub open spec fn current_of(c: ArrayComponent) -> int {
    match value_named(c.specs@, IMP_LABEL@) {
        ValueType::Decimal(a) => a.0 as int,
        ValueType::Int(_) => 0,
    }
}

/// The wattage a component contributes to a connection: its Pmax where that
/// is a whole number, else zero.
pub open spec fn wattage_of(c: ArrayComponent) -> int {
    match value_named(c.specs@, PMAX_LABEL@) {
        ValueType::Int(w) => w as int,
        ValueType::Decimal(_) => 0,
    }
}

/// The voltages of the items added up, from the first to the last.
pub open spec fn voltage_sum(items: Seq<ArrayComponent>) -> int
    decreases items.len(),
{
    if items.len() == 0 {
        0
    } else {
        voltage_sum(items.drop_last()) + voltage_of(items.last())
    }
}

/// The currents of the items added up, from the first to the last.
pub open spec fn current_sum(items: Seq<ArrayComponent>) -> int
    decreases items.len(),
{
    if items.len() == 0 {
        0
    } else {
        current_sum(items.drop_last()) + current_of(items.last())
    }
}

/// The wattages of the items added up, from the first to the last.
pub open spec fn wattage_sum(items: Seq<ArrayComponent>) -> int
    decreases items.len(),
{
    if items.len() == 0 {
        0
    } else {
        wattage_sum(items.drop_last()) + wattage_of(items.last())
    }
}

/// The total voltage of a connection: the sum in series, the last item's in
/// parallel, zero when direct.
pub open spec fn connection_voltage(kind: ArrayConnectionType, items: Seq<ArrayComponent>) -> int {
    match kind {
        ArrayConnectionType::Series => voltage_sum(items),
        ArrayConnectionType::Parallel => if items.len() == 0 {
            0
        } else {
            voltage_of(items.last())
        },
        ArrayConnectionType::Direct => 0,
    }
}

/// The current of a connection: the last item's in series, the sum in
/// parallel, zero when direct.
pub open spec fn connection_current(kind: ArrayConnectionType, items: Seq<ArrayComponent>) -> int {
    match kind {
        ArrayConnectionType::Series => if items.len() == 0 {
            0
        } else {
            current_of(items.last())
        },
        ArrayConnectionType::Parallel => current_sum(items),
        ArrayConnectionType::Direct => 0,
    }
}

/// Every running total met while folding over `items` fits its field: the
/// wattage an `i32`, the summed voltage or current an `i64`.
pub open spec fn totals_fit(kind: ArrayConnectionType, items: Seq<ArrayComponent>) -> bool {
    forall|k: int|
        0 <= k <= items.len() ==> {
            &&& i32::MIN <= wattage_sum(#[trigger] items.take(k)) <= i32::MAX
            &&& kind == ArrayConnectionType::Series ==> i64::MIN <= voltage_sum(items.take(k))
                <= i64::MAX
            &&& kind == ArrayConnectionType::Parallel ==> i64::MIN <= current_sum(items.take(k))
                <= i64::MAX
        }
}

/// The name of a connection type.
pub open spec fn connection_type_text(k: ArrayConnectionType) -> Seq<char> {
    match k {
        ArrayConnectionType::Series => "Series"@,
        ArrayConnectionType::Parallel => "Parallel"@,
        ArrayConnectionType::Direct => "Direct"@,
    }
}

fn connection_type_str(k: ArrayConnectionType) -> (r: &'static str)
    ensures
        r@ == connection_type_text(k),
{
    match k {
        ArrayConnectionType::Series => "Series",
        ArrayConnectionType::Parallel => "Parallel",
        ArrayConnectionType::Direct => "Direct",
    }
}

/// The summary lines of the components, one after the other.
pub open spec fn components_text(items: Seq<ArrayComponent>) -> Seq<char>
    decreases items.len(),
{
    if items.len() == 0 {
        Seq::empty()
    } else {
        components_text(items.drop_last()) + items.last().text()
    }
}

/// Components wired together, with the totals derived from them.
pub struct ArrayConnection {
    pub connection_type: ArrayConnectionType,
    pub total_voltage: Milli,
    pub total_wattage: i32,
    pub max_amperage: Milli,
    pub items: Vec<ArrayComponent>,
}

impl ArrayConnection {
    /// The three totals are those that the connection type derives from the
    /// items.
    pub open spec fn totals_consistent(&self) -> bool {
        &&& self.total_voltage.0 == connection_voltage(self.connection_type, self.items@)
        &&& self.max_amperage.0 == connection_current(self.connection_type, self.items@)
        &&& self.total_wattage == wattage_sum(self.items@)
    }

    /// Appends a component and recomputes the totals.
    pub fn add_component(&mut self, to: ArrayComponent)
        requires
            totals_fit(old(self).connection_type, old(self).items@.push(to)),
        ensures
            final(self).connection_type == old(self).connection_type,
            final(self).items@ == old(self).items@.push(to),
            final(self).totals_consistent(),
    {
        self.items.push(to);
        self.update_totals();
    }

    /// A connection of the given type holding exactly `from` and then `to`.
    pub fn connect(
        from: ArrayComponent,
        to: ArrayComponent,
        connection_type: ArrayConnectionType,
    ) -> (r: ArrayConnection)
        requires
            totals_fit(connection_type, seq![from, to]),
        ensures
            r.connection_type == connection_type,
            r.items@ == seq![from, to],
            r.totals_consistent(),
    {
        let mut a = ArrayConnection {
            connection_type: connection_type,
            total_voltage: Milli(0),
            total_wattage: 0,
            max_amperage: Milli(0),
            items: Vec::new(),
        };
        a.items.push(from);
        a.items.push(to);
        assert(a.items@ =~= seq![from, to]);
        a.update_totals();
        a
    }

    /// Resets the totals and folds them again over the items, in order.
    fn update_totals(&mut self)
        requires
            totals_fit(old(self).connection_type, old(self).items@),
        ensures
            final(self).connection_type == old(self).connection_type,
            final(self).items == old(self).items,
            final(self).totals_consistent(),
    {
        self.total_voltage = Milli(0);
        self.total_wattage = 0;
        self.max_amperage = Milli(0);
        let mut i: usize = 0;
        while i < self.items.len()
            invariant
                self.connection_type == old(self).connection_type,
                self.items == old(self).items,
                0 <= i <= self.items@.len(),
                totals_fit(self.connection_type, self.items@),
                self.total_voltage.0 == connection_voltage(
                    self.connection_type,
                    self.items@.take(i as int),
                ),
                self.max_amperage.0 == connection_current(
                    self.connection_type,
                    self.items@.take(i as int),
                ),
                self.total_wattage == wattage_sum(self.items@.take(i as int)),
            decreases self.items@.len() - i,
        {
            let item = &self.items[i];
            let voltage: i64 = match item.get_spec_value(String::from_str(VMP_LABEL)) {
                ValueType::Decimal(v) => v.0,
                ValueType::Int(_) => 0,
            };
            let amps: i64 = match item.get_spec_value(String::from_str(IMP_LABEL)) {
                ValueType::Decimal(a) => a.0,
                ValueType::Int(_) => 0,
            };
            let watts: i32 = match item.get_spec_value(String::from_str(PMAX_LABEL)) {
                ValueType::Int(w) => w,
                ValueType::Decimal(_) => 0,
            };
            proof {
                let next = self.items@.take(i + 1);
                assert(next.drop_last() =~= self.items@.take(i as int));
                assert(next.last() == self.items@[i as int]);
                assert(i32::MIN <= wattage_sum(next) <= i32::MAX);
            }
            match self.connection_type {
                ArrayConnectionType::Series => {
                    self.total_voltage = Milli(self.total_voltage.0 + voltage);
                    self.max_amperage = Milli(amps);
                },
                ArrayConnectionType::Parallel => {
                    self.total_voltage = Milli(voltage);
                    self.max_amperage = Milli(self.max_amperage.0 + amps);
                },
                ArrayConnectionType::Direct => {},
            }
            self.total_wattage = self.total_wattage + watts;
            i = i + 1;
        }
        assert(self.items@.take(self.items@.len() as int) =~= self.items@);
    }
}

impl Display for ArrayComponent {
    /// The summary line reads the headline specification, the first one.
    open spec fn displayable(&self) -> bool {
        self.specs@.len() > 0
    }

    /// The name, the headline value where it is a whole number (else 0) and
    /// its unit: `Solar Panel - 290 Watts`.
    open spec fn text(&self) -> Seq<char> {
        let watts = match self.specs@[0].value {
            ValueType::Int(a) => a as int,
            ValueType::Decimal(_) => 0,
        };
        self.name@ + " - "@ + int_text(watts) + " "@ + unit_text(self.specs@[0].unit) + "\n"@
    }

    fn display(&self) -> (r: String) {
        let watts: i32 = match self.specs[0].value {
            ValueType::Int(a) => a,
            ValueType::Decimal(_) => 0,
        };
        let mut s = self.name.clone();
        s.append(" - ");
        push_int(&mut s, watts as i64);
        s.append(" ");
        s.append(unit_str(self.specs[0].unit));
        s.append("\n");
        assert(s@ =~= self.text());
        s
    }
}

/// Every component has a headline specification.
pub open spec fn all_displayable(items: Seq<ArrayComponent>) -> bool {
    forall|i: int| 0 <= i < items.len() ==> (#[trigger] items[i]).specs@.len() > 0
}

impl Display for ArrayConnection {
    open spec fn displayable(&self) -> bool {
        all_displayable(self.items@)
    }

    /// A heading with the connection type, the summary line of each item,
    /// then the three totals.
    open spec fn text(&self) -> Seq<char> {
        "Connecting the following items in "@ + connection_type_text(self.connection_type)
            + ":\n"@ + components_text(self.items@) + "Total Voltage: "@ + milli_text(
            self.total_voltage.0 as int,
        ) + "\n"@ + "Total Amperage: "@ + milli_text(self.max_amperage.0 as int) + "\n"@
            + "Total Wattage: "@ + int_text(self.total_wattage as int) + "\n"@
    }

    fn display(&self) -> (r: String) {
        let mut s = String::from_str("Connecting the following items in ");
        s.append(connection_type_str(self.connection_type));
        s.append(":\n");
        let ghost head = s@;
        let mut i: usize = 0;
        while i < self.items.len()
            invariant
                0 <= i <= self.items@.len(),
                all_displayable(self.items@),
                s@ == head + components_text(self.items@.take(i as int)),
            decreases self.items@.len() - i,
        {
            let line = <ArrayComponent as Display>::display(&self.items[i]);
            proof {
                let next = self.items@.take(i + 1);
                assert(next.drop_last() =~= self.items@.take(i as int));
                assert(next.last() == self.items@[i as int]);
            }
            s.append(line.as_str());
            assert(s@ =~= head + components_text(self.items@.take(i + 1)));
            i = i + 1;
        }
        assert(self.items@.take(self.items@.len() as int) =~= self.items@);
        s.append("Total Voltage: ");
        push_milli(&mut s, self.total_voltage.0);
        s.append("\n");
        s.append("Total Amperage: ");
        push_milli(&mut s, self.max_amperage.0);
        s.append("\n");
        s.append("Total Wattage: ");
        push_int(&mut s, self.total_wattage as i64);
        s.append("\n");
        assert(s@ =~= self.text());
        s
    }
}

/// Gives out the components a store holds.
pub trait Inventory {
    fn get_items() -> Vec<ArrayComponent>;
}

/// Components, each with the quantity held.
pub struct PanelInventory {
    pub items: Vec<(ArrayComponent, i32)>,
}

impl PanelInventory {
    pub fn new() -> (r: PanelInventory)
        ensures
            r.items@.len() == 0,
    {
        PanelInventory { items: Vec::new() }
    }
}

/// The sum of the quantities.
pub open spec fn quantity_sum(items: Seq<(ArrayComponent, i32)>) -> int
    decreases items.len(),
{
    if items.len() == 0 {
        0
    } else {
        quantity_sum(items.drop_last()) + items.last().1
    }
}

/// One line per entry: its headline specification and its quantity.
pub open spec fn entries_text(items: Seq<(ArrayComponent, i32)>) -> Seq<char>
    decreases items.len(),
{
    if items.len() == 0 {
        Seq::empty()
    } else {
        entries_text(items.drop_last()) + items.last().0.specs@[0].text() + " - "@ + int_text(
            items.last().1 as int,
        ) + "\n"@
    }
}

impl Display for PanelInventory {
    /// Every entry has a headline specification, and every running total of
    /// the quantities fits an `i32`.
    open spec fn displayable(&self) -> bool {
        &&& forall|i: int|
            0 <= i < self.items@.len() ==> (#[trigger] self.items@[i]).0.specs@.len() > 0
        &&& forall|k: int|
            0 <= k <= self.items@.len() ==> i32::MIN <= quantity_sum(#[trigger] self.items@.take(k))
                <= i32::MAX
    }

    /// A heading, one line per entry, a rule, then the total quantity.
    open spec fn text(&self) -> Seq<char> {
        "\nPanel Inventory\n"@ + entries_text(self.items@) + "_______________\n"@
            + "Total panels: "@ + int_text(quantity_sum(self.items@)) + "\n"@
    }

    fn display(&self) -> (r: String) {
        let mut display_string = String::from_str("\nPanel Inventory\n");
        let ghost head = display_string@;
        let mut sum: i32 = 0;
        let mut i: usize = 0;
        while i < self.items.len()
            invariant
                0 <= i <= self.items@.len(),
                self.displayable(),
                display_string@ == head + entries_text(self.items@.take(i as int)),
                sum == quantity_sum(self.items@.take(i as int)),
            decreases self.items@.len() - i,
        {
            let (panel, quantity) = &self.items[i];
            let line = panel.specs[0].display();
            proof {
                let next = self.items@.take(i + 1);
                assert(next.drop_last() =~= self.items@.take(i as int));
                assert(next.last() == self.items@[i as int]);
                assert(i32::MIN <= quantity_sum(next) <= i32::MAX);
            }
            display_string.append(line.as_str());
            display_string.append(" - ");
            push_int(&mut display_string, *quantity as i64);
            display_string.append("\n");
            assert(display_string@ =~= head + entries_text(self.items@.take(i + 1)));
            sum = sum + *quantity;
            i = i + 1;
        }
        assert(self.items@.take(self.items@.len() as int) =~= self.items@);
        display_string.append("_______________\n");
        display_string.append("Total panels: ");
        push_int(&mut display_string, sum as i64);
        display_string.append("\n");
        assert(display_string@ =~= self.text());
        display_string
    }
}

} // verus!
