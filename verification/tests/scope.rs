use svdpi::dpi::ScopeTable;
use svdpi::SvScope;

fn populated() -> ScopeTable {
    let mut table = ScopeTable::new();
    table.register(b"top".to_vec());
    table.register(b"top.dut".to_vec());
    table.register(b"top.dut.core".to_vec());
    table
}

#[test]
fn lookup_by_name_finds_exactly_that_name() {
    let table = populated();
    let scope = SvScope::from_name(&table, b"top.dut").expect("scope should resolve");
    assert_eq!(scope.name(&table).as_slice(), b"top.dut");
}

#[test]
fn lookup_by_name_reports_absence() {
    let table = populated();
    assert!(SvScope::from_name(&table, b"nonexistent").is_none());
}

#[test]
fn no_current_scope_in_a_fresh_table() {
    let table = ScopeTable::new();
    assert!(SvScope::get_current(&table).is_none());
}

#[test]
fn set_and_get_current() {
    let mut table = populated();
    let dut = SvScope::from_name(&table, b"top.dut").unwrap();
    SvScope::set_current(&mut table, Some(dut));
    assert_eq!(SvScope::get_current(&table), Some(dut));
    SvScope::set_current(&mut table, None);
    assert_eq!(SvScope::get_current(&table), None);
}

#[test]
fn swap_current_returns_previous() {
    let mut table = populated();
    let top = SvScope::from_name(&table, b"top").unwrap();
    let dut = SvScope::from_name(&table, b"top.dut").unwrap();
    SvScope::set_current(&mut table, Some(top));
    let prev = SvScope::swap_current(&mut table, Some(dut));
    assert_eq!(prev, Some(top));
    assert_eq!(SvScope::get_current(&table), Some(dut));
}

#[test]
fn three_swaps_unwound_in_reverse_reconstruct_the_first() {
    let mut table = populated();
    let x = SvScope::from_name(&table, b"top").unwrap();
    let y = SvScope::from_name(&table, b"top.dut").unwrap();
    let z = SvScope::from_name(&table, b"top.dut.core").unwrap();

    SvScope::set_current(&mut table, Some(x));
    let p1 = SvScope::swap_current(&mut table, Some(y));
    assert_eq!(p1, Some(x));
    let p2 = SvScope::swap_current(&mut table, Some(z));
    assert_eq!(p2, Some(y));

    let q2 = SvScope::swap_current(&mut table, p2);
    assert_eq!(q2, Some(z));
    let q1 = SvScope::swap_current(&mut table, p1);
    assert_eq!(q1, Some(y));
    assert_eq!(SvScope::get_current(&table), Some(x));
}

#[test]
fn make_current_installs_self() {
    let mut table = populated();
    let core = SvScope::from_name(&table, b"top.dut.core").unwrap();
    core.make_current(&mut table);
    assert_eq!(SvScope::get_current(&table), Some(core));
}

#[test]
fn with_current_restores_previous_scope() {
    let mut table = populated();
    let top = SvScope::from_name(&table, b"top").unwrap();
    let dut = SvScope::from_name(&table, b"top.dut").unwrap();
    SvScope::set_current(&mut table, Some(top));

    let (table, seen) = dut.with_current(table, |t| {
        let inside = SvScope::get_current(&t);
        (t, inside)
    });
    assert_eq!(seen, Some(dut));
    assert_eq!(SvScope::get_current(&table), Some(top));
}

#[test]
fn with_current_restores_even_when_body_rewrites_current() {
    let mut table = populated();
    let top = SvScope::from_name(&table, b"top").unwrap();
    let dut = SvScope::from_name(&table, b"top.dut").unwrap();
    let core = SvScope::from_name(&table, b"top.dut.core").unwrap();
    SvScope::set_current(&mut table, Some(top));

    let (table, _) = dut.with_current(table, |mut t| {
        SvScope::set_current(&mut t, Some(core));
        SvScope::set_current(&mut t, None);
        (t, 0u32)
    });
    assert_eq!(SvScope::get_current(&table), Some(top));
}

#[test]
fn with_current_restores_absence() {
    let table = populated();
    let dut = SvScope::from_name(&table, b"top.dut").unwrap();
    assert_eq!(SvScope::get_current(&table), None);
    let (table, _) = dut.with_current(table, |t| (t, ()));
    assert_eq!(SvScope::get_current(&table), None);
}

#[test]
fn set_scope_installs_unconditionally() {
    let mut table = populated();
    let top = SvScope::from_name(&table, b"top").unwrap();
    svdpi::set_scope(&mut table, top);
    assert_eq!(SvScope::get_current(&table), Some(top));
}

#[test]
fn set_scope_by_name_resolves_and_installs() {
    let mut table = populated();
    svdpi::set_scope_by_name(&mut table, b"top.dut");
    let current = SvScope::get_current(&table).expect("a scope should be current");
    assert_eq!(current.name(&table).as_slice(), b"top.dut");
}
