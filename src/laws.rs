//! Facts about connections that follow from how their totals are derived.
use vstd::prelude::*;

use crate::inventory_types::{
    current_of, current_sum, is_solar_panel, value_named, voltage_of, voltage_sum, wattage_of,
    wattage_sum, ArrayComponent,
    ArrayConnection, ArrayConnectionType, Milli, IMP_LABEL, PMAX_LABEL, VMP_LABEL,
};

verus! {

/// A solar panel contributes its Vmp as voltage, its Imp as current and its
/// Pmax as wattage.
pub proof fn lemma_panel_contribution(c: ArrayComponent, pmax: i32, vmp: Milli, imp: Milli)
    requires
        is_solar_panel(c, pmax, vmp, imp),
    ensures
        voltage_of(c) == vmp.0,
        current_of(c) == imp.0,
        wattage_of(c) == pmax,
{
    reveal_strlit("Nominal Max Power (Pmax)");
    reveal_strlit("Opt Operating Voltage (Vmp)");
    reveal_strlit("Opt Operating Current (Imp)");
    assert(PMAX_LABEL@.len() != VMP_LABEL@.len());
    assert(PMAX_LABEL@.len() != IMP_LABEL@.len());
    assert(VMP_LABEL@[14] != IMP_LABEL@[14]);
    let s = c.specs@;
    assert(s.drop_first()[0] == s[1]);
    assert(s.drop_first().drop_first()[0] == s[2]);
    reveal_with_fuel(value_named, 3);
}

/// Two solar panels connected in series: the voltages add up, the current is
/// that of the second panel, and the wattages add up.
pub proof fn series_panels_totals(
    c: ArrayConnection,
    a: ArrayComponent,
    pmax_a: i32,
    vmp_a: Milli,
    imp_a: Milli,
    b: ArrayComponent,
    pmax_b: i32,
    vmp_b: Milli,
    imp_b: Milli,
)
    requires
        is_solar_panel(a, pmax_a, vmp_a, imp_a),
        is_solar_panel(b, pmax_b, vmp_b, imp_b),
        c.connection_type == ArrayConnectionType::Series,
        c.items@ == seq![a, b],
        c.totals_consistent(),
    ensures
        c.total_voltage.0 == vmp_a.0 + vmp_b.0,
        c.max_amperage == imp_b,
        c.total_wattage == pmax_a + pmax_b,
{
    lemma_panel_contribution(a, pmax_a, vmp_a, imp_a);
    lemma_panel_contribution(b, pmax_b, vmp_b, imp_b);
    lemma_pair_sums(c.items@);
}

/// Two solar panels connected in parallel: the voltage is that of the second
/// panel, the currents add up, and the wattages add up.
pub proof fn parallel_panels_totals(
    c: ArrayConnection,
    a: ArrayComponent,
    pmax_a: i32,
    vmp_a: Milli,
    imp_a: Milli,
    b: ArrayComponent,
    pmax_b: i32,
    vmp_b: Milli,
    imp_b: Milli,
)
    requires
        is_solar_panel(a, pmax_a, vmp_a, imp_a),
        is_solar_panel(b, pmax_b, vmp_b, imp_b),
        c.connection_type == ArrayConnectionType::Parallel,
        c.items@ == seq![a, b],
        c.totals_consistent(),
    ensures
        c.total_voltage == vmp_b,
        c.max_amperage.0 == imp_a.0 + imp_b.0,
        c.total_wattage == pmax_a + pmax_b,
{
    lemma_panel_contribution(a, pmax_a, vmp_a, imp_a);
    lemma_panel_contribution(b, pmax_b, vmp_b, imp_b);
    lemma_pair_sums(c.items@);
}

/// A direct connection aggregates no voltage and no current, whatever its
/// items; its wattage is still their sum.
pub proof fn direct_totals(c: ArrayConnection)
    requires
        c.connection_type == ArrayConnectionType::Direct,
        c.totals_consistent(),
    ensures
        c.total_voltage == Milli(0),
        c.max_amperage == Milli(0),
        c.total_wattage == wattage_sum(c.items@),
{
}

proof fn lemma_pair_sums(items: Seq<ArrayComponent>)
    requires
        items.len() == 2,
    ensures
        voltage_sum(items) == voltage_of(items[0]) + voltage_of(items[1]),
        current_sum(items) == current_of(items[0]) + current_of(items[1]),
        wattage_sum(items) == wattage_of(items[0]) + wattage_of(items[1]),
{
    let first = items.drop_last();
    assert(first.drop_last().len() == 0);
    assert(first.last() == items[0]);
    reveal_with_fuel(voltage_sum, 3);
    reveal_with_fuel(current_sum, 3);
    reveal_with_fuel(wattage_sum, 3);
}

} // verus!
