use vdso_kit::vtable::VdsoVTable;
use vdso_kit::vvar::{test_args, MappingSet, VvarData};

#[test]
fn vvar_record_values() {
    assert_eq!(VvarData::new().example.i, 42);
    let d: VvarData = Default::default();
    assert_eq!(d.example.i, 0);
}

#[test]
fn shared_writes_are_visible_across_mappings() {
    let mut set = MappingSet::new();
    let m0 = set.add_mapping();
    let m1 = set.add_mapping();
    assert_eq!(set.get_shared(m0).i, 0);
    set.set_shared(m0, 7);
    assert_eq!(set.get_shared(m0).i, 7);
    assert_eq!(set.get_shared(m1).i, 7);
}

#[test]
fn private_writes_stay_in_their_mapping() {
    let mut set = MappingSet::new();
    let m0 = set.add_mapping();
    let m1 = set.add_mapping();
    set.set_private(m0, 9);
    assert_eq!(set.get_private(m0).i, 9);
    assert_eq!(set.get_private(m1).i, 0);
}

#[test]
fn one_shot_initializer_fills_the_window() {
    let mut set = MappingSet::new();
    let m0 = set.add_mapping();
    set.set_private(m0, 5);
    set.init_vvar_data();
    assert_eq!(set.get_shared(m0).i, 42);
    assert_eq!(set.get_private(m0).i, 5);
}

#[test]
fn test_args_adds_one_elementwise() {
    assert_eq!(
        test_args(Some(1), Ok(2), (3, 4)),
        (Some(2), Ok(3), (4, 5))
    );
    assert_eq!(
        test_args(None, Err(()), (0, 0)),
        (None, Err(()), (1, 1))
    );
}

#[test]
fn wrapper_before_init_aborts_with_name() {
    let names = vec!["get_shared".to_string(), "set_shared".to_string()];
    let table = VdsoVTable::new(names);
    match table.dispatch(1) {
        Err(msg) => assert_eq!(msg, "set_shared is not initialized"),
        Ok(_) => panic!("an uninitialized slot must refuse"),
    }
}

#[test]
fn init_installs_base_plus_offset() {
    let names = vec!["get_shared".to_string(), "set_shared".to_string()];
    let mut table = VdsoVTable::new(names);
    let offsets = vec![0x1010u64, 0x1020u64];
    table.init_vdso_vtable(0x7f00_0000_0000, &offsets);
    assert_eq!(table.dispatch(0), Ok(0x7f00_0000_1010));
    assert_eq!(table.dispatch(1), Ok(0x7f00_0000_1020));
}
